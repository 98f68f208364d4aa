use amux::conflicts::{changed_files, conflict_groups, file_conflicts, isolation_status, path_file_name};
use amux::keybinds::{KeyCode, KeyPress, Keybinds};
use amux::sidebar::{ActiveTab, SessionStore, TreeEnv};
use amux::state::{AppState, Effect, InputMode, MenuCounts};
use amux::types::{Action, Agent};

fn tab_in(path: &str, title: &str) -> ActiveTab {
    ActiveTab { workspace_path: path.into(), session_id: None, agent: Agent::Codex, title: title.into() }
}

fn files(names: &[&str]) -> Vec<String> {
    names.iter().map(|s| s.to_string()).collect()
}

fn empty_state() -> AppState {
    let env = TreeEnv { now: 0, cwds: Vec::new(), path_exists: Vec::new(), tabs: Vec::new() };
    AppState::new(
        SessionStore::new(Vec::new(), Vec::new()),
        env,
        Keybinds::default_binds(),
        MenuCounts { templates: 0, plugins: 0, automations: 0, chains: 0 },
    )
}

#[test]
fn file_name_is_last_named_component() {
    assert_eq!(path_file_name("/home/u/proj").as_deref(), Some("proj"));
    assert_eq!(path_file_name("/home/u/proj/").as_deref(), Some("proj"));
    assert_eq!(path_file_name("a//b/.").as_deref(), Some("b"));
    assert_eq!(path_file_name("./a").as_deref(), Some("a"));
    assert_eq!(path_file_name("/"), None);
    assert_eq!(path_file_name(""), None);
    assert_eq!(path_file_name("."), None);
    assert_eq!(path_file_name("a/.."), None);
}

#[test]
fn file_name_agrees_with_std_path() {
    for p in ["/home/u/proj", "/home/u/proj/", "a//b/.", "./a", "/", "", ".", "a/..", "x/../y", "/tmp/.hidden"] {
        let std_name = std::path::Path::new(p).file_name().and_then(|n| n.to_str()).map(str::to_string);
        assert_eq!(path_file_name(p), std_name, "path {p:?}");
    }
}

#[test]
fn changed_files_are_nonempty_lines() {
    assert_eq!(changed_files("src/a.rs\n\nsrc/b.rs\n"), files(&["src/a.rs", "src/b.rs"]));
    assert_eq!(changed_files(""), Vec::<String>::new());
    assert_eq!(changed_files("one\r\ntwo"), files(&["one", "two"]));
}

#[test]
fn groups_hold_running_tabs_sharing_a_workspace() {
    let tabs = vec![
        tab_in("/w1", "a"),
        tab_in("/w2", "b"),
        tab_in("/w1", "c"),
        tab_in("/w2", "d"),
        tab_in("/w3", "e"),
    ];
    assert_eq!(conflict_groups(&tabs, &vec![true, true, true, false, true]), vec![vec![0, 2]]);
    assert_eq!(conflict_groups(&tabs, &vec![true, true, true, true, true]), vec![vec![0, 2], vec![1, 3]]);
    assert_eq!(conflict_groups(&tabs, &vec![false, true, true, false, true]), Vec::<Vec<usize>>::new());
}

#[test]
fn overlapping_files_give_one_warning_per_pair() {
    let tabs = vec![tab_in("/home/u/proj", "A"), tab_in("/home/u/proj", "B"), tab_in("/other", "C")];
    let changed = vec![files(&["a.rs", "b.rs"]), files(&["c.rs", "b.rs", "a.rs"]), files(&["a.rs"])];
    assert_eq!(
        file_conflicts(&tabs, &vec![true, true, true], &changed),
        vec!["[proj] A & B both modifying: a.rs, b.rs".to_string()]
    );
}

#[test]
fn pairs_come_in_order_and_disjoint_pairs_are_skipped() {
    let tabs = vec![tab_in("/p", "A"), tab_in("/p", "B"), tab_in("/p", "C")];
    let changed = vec![files(&["x"]), files(&["x", "y"]), files(&["y"])];
    assert_eq!(
        file_conflicts(&tabs, &vec![true, true, true], &changed),
        vec!["[p] A & B both modifying: x".to_string(), "[p] B & C both modifying: y".to_string()]
    );
}

#[test]
fn finished_tabs_and_root_workspace() {
    let tabs = vec![tab_in("/", "A"), tab_in("/", "B")];
    let changed = vec![files(&["f"]), files(&["f"])];
    assert_eq!(file_conflicts(&tabs, &vec![true, false], &changed), Vec::<String>::new());
    assert_eq!(
        file_conflicts(&tabs, &vec![true, true], &changed),
        vec!["[?] A & B both modifying: f".to_string()]
    );
}

#[test]
fn new_warnings_open_the_conflict_popup() {
    let mut app = empty_state();
    app.apply_conflicts(Vec::new());
    assert_eq!(app.input_mode, InputMode::Normal);
    assert!(app.conflict_warnings.is_empty());
    app.apply_conflicts(vec!["w".to_string()]);
    assert_eq!(app.input_mode, InputMode::ConflictResolve);
    assert_eq!(app.conflict_warnings, vec!["w".to_string()]);
    app.apply_conflicts(Vec::new());
    assert_eq!(app.conflict_warnings, vec!["w".to_string()]);
}

#[test]
fn warnings_wait_behind_another_popup() {
    let mut app = empty_state();
    app.input_mode = InputMode::Help;
    app.apply_conflicts(vec!["w".to_string()]);
    assert_eq!(app.input_mode, InputMode::Help);
    assert_eq!(app.conflict_warnings.len(), 1);
}

#[test]
fn conflict_popup_keys() {
    let mut app = empty_state();
    app.apply_conflicts(vec!["w".to_string()]);
    let (a, e) = app.handle_key(KeyPress::plain(KeyCode::Char('x')), false, false, false);
    assert_eq!(a, Action::Continue);
    assert!(matches!(e, Effect::Nothing));
    assert_eq!(app.input_mode, InputMode::ConflictResolve);
    let (_, e) = app.handle_key(KeyPress::plain(KeyCode::Char('i')), false, false, false);
    assert!(matches!(e, Effect::IsolateConflicts));
    let (_, e) = app.handle_key(KeyPress::plain(KeyCode::Char('d')), false, false, false);
    assert!(matches!(e, Effect::Nothing));
    assert_eq!(app.input_mode, InputMode::Normal);
    assert!(app.conflict_warnings.is_empty());
    assert_eq!(app.status, "Conflict warning dismissed.");
}

#[test]
fn isolation_status_counts_moved_sessions() {
    assert_eq!(isolation_status("old", 2, &Vec::new()), "Isolated 2 session(s) into worktrees.");
}

#[test]
fn isolation_status_with_nothing_to_do() {
    assert_eq!(isolation_status("old", 0, &Vec::new()), "No conflicts to isolate.");
}

#[test]
fn isolation_status_keeps_previous_status_when_only_errors() {
    let errors = vec!["/a: not a git repository".to_string(), "T: worktree creation failed: x".to_string()];
    assert_eq!(
        isolation_status("Ready.", 0, &errors),
        "Ready. Errors: /a: not a git repository; T: worktree creation failed: x"
    );
    assert_eq!(
        isolation_status("Ready.", 1, &errors[..1].to_vec()),
        "Isolated 1 session(s) into worktrees. Errors: /a: not a git repository"
    );
}
