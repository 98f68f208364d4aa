use amux::browse::{browse_entries, chosen_path, BrowseEntry, BrowseKind, BrowseStep};
use amux::keybinds::{KeyCode, KeyPress, Keybinds};
use amux::sidebar::{SessionStore, TreeEnv};
use amux::state::{AppState, Effect, InputMode, MenuCounts};
use amux::types::{TreeNode, Workspace};

fn strings(v: &[&str]) -> Vec<String> {
    v.iter().map(|s| s.to_string()).collect()
}

fn app_with_one_workspace() -> AppState {
    let ws = Workspace { id: "w1".into(), name: "one".into(), path: Some("/tmp".into()), created_at: 1, expanded: true };
    let env = TreeEnv { now: 100, cwds: vec!["/tmp".into()], path_exists: vec![true], tabs: Vec::new() };
    AppState::new(
        SessionStore::new(vec![ws], Vec::new()),
        env,
        Keybinds::default_binds(),
        MenuCounts { templates: 0, plugins: 0, automations: 0, chains: 0 },
    )
}

#[test]
fn entries_list_choices_then_visible_subdirs_by_name() {
    let names = strings(&["beta", ".git", "Alpha", "gamma"]);
    let paths = strings(&["/h/beta", "/h/.git", "/h/Alpha", "/h/gamma"]);
    let rows = browse_entries("/h", Some("/".into()), &names, &paths);
    let kinds: Vec<BrowseKind> = rows.iter().map(|e| e.kind).collect();
    assert_eq!(
        kinds,
        vec![BrowseKind::SelectCurrent, BrowseKind::SelectVirtual, BrowseKind::Parent, BrowseKind::Subdir, BrowseKind::Subdir, BrowseKind::Subdir]
    );
    assert_eq!(rows[0].path, "/h");
    assert_eq!(rows[2].path, "/");
    let shown: Vec<&str> = rows[3..].iter().map(|e| e.name.as_str()).collect();
    assert_eq!(shown, vec!["Alpha", "beta", "gamma"]);
    assert_eq!(rows[3].path, "/h/Alpha");
}

#[test]
fn root_has_no_parent_row() {
    let rows = browse_entries("/", None, &Vec::new(), &Vec::new());
    let kinds: Vec<BrowseKind> = rows.iter().map(|e| e.kind).collect();
    assert_eq!(kinds, vec![BrowseKind::SelectCurrent, BrowseKind::SelectVirtual]);
}

#[test]
fn browser_keys_move_open_and_select() {
    let mut app = app_with_one_workspace();
    app.new_workspace_name = Some("proj".into());
    app.start_browse();
    assert_eq!(app.input_mode, InputMode::BrowseDir);
    let rows = browse_entries("/h", Some("/".into()), &strings(&["a"]), &strings(&["/h/a"]));
    let r = app.handle_browse_key(KeyPress::plain(KeyCode::Down), &rows, Some("/".into()));
    assert!(matches!(r, BrowseStep::Stay));
    assert_eq!(app.menu_selected, Some(1));
    let r = app.handle_browse_key(KeyPress::plain(KeyCode::Char('k')), &rows, Some("/".into()));
    assert!(matches!(r, BrowseStep::Stay));
    assert_eq!(app.menu_selected, Some(0));
    let r = app.handle_browse_key(KeyPress::plain(KeyCode::Up), &rows, Some("/".into()));
    assert!(matches!(r, BrowseStep::Stay));
    assert_eq!(app.menu_selected, Some(3));
    let r = app.handle_browse_key(KeyPress::plain(KeyCode::Enter), &rows, Some("/".into()));
    assert!(matches!(r, BrowseStep::Open(ref p) if p == "/h/a"));
    assert_eq!(app.menu_selected, Some(0));
    let r = app.handle_browse_key(KeyPress::plain(KeyCode::Backspace), &rows, Some("/".into()));
    assert!(matches!(r, BrowseStep::Open(ref p) if p == "/"));
    let r = app.handle_browse_key(KeyPress::plain(KeyCode::Enter), &rows, Some("/".into()));
    assert!(matches!(r, BrowseStep::Select(0)));
    let r = app.handle_browse_key(KeyPress::plain(KeyCode::Esc), &rows, Some("/".into()));
    assert!(matches!(r, BrowseStep::Cancelled));
    assert_eq!(app.input_mode, InputMode::Normal);
    assert_eq!(app.new_workspace_name, None);
    assert_eq!(app.status, "Cancelled.");
}

#[test]
fn choosing_a_directory_creates_the_workspace() {
    let mut app = app_with_one_workspace();
    app.new_workspace_name = Some("proj".into());
    app.input_mode = InputMode::BrowseDir;
    let e = app.create_workspace(Some("/home/u/proj".into()), "/data/ws/x".into(), "x".into(), 500, true);
    assert!(matches!(e, Effect::SaveConfig));
    assert_eq!(app.store.workspaces.len(), 2);
    let w = &app.store.workspaces[1];
    assert_eq!((w.id.as_str(), w.name.as_str(), w.path.as_deref(), w.created_at, w.expanded), ("x", "proj", Some("/home/u/proj"), 500, true));
    assert_eq!(app.env.cwds, vec!["/tmp".to_string(), "/home/u/proj".to_string()]);
    assert_eq!(app.status, "Created workspace: proj \u{2192} /home/u/proj");
    assert_eq!(app.input_mode, InputMode::Normal);
    assert!(app.store.tree.iter().any(|n| matches!(n, TreeNode::Workspace(1))));
}

#[test]
fn choosing_virtual_creates_a_workspace_without_path() {
    let mut app = app_with_one_workspace();
    app.new_workspace_name = Some("notes".into());
    app.create_workspace(None, "/data/ws/v".into(), "v".into(), 7, true);
    assert_eq!(app.store.workspaces[1].path, None);
    assert_eq!(app.env.cwds[1], "/data/ws/v");
    assert_eq!(app.status, "Created virtual workspace: notes");
    assert_eq!(app.new_workspace_name, None);
}

fn empty_app() -> AppState {
    let env = TreeEnv { now: 100, cwds: Vec::new(), path_exists: Vec::new(), tabs: Vec::new() };
    AppState::new(
        SessionStore::new(Vec::new(), Vec::new()),
        env,
        Keybinds::default_binds(),
        MenuCounts { templates: 0, plugins: 0, automations: 0, chains: 0 },
    )
}

fn make_entry(kind: BrowseKind, path: &str) -> BrowseEntry {
    BrowseEntry { kind, name: String::new(), path: path.into() }
}

/// Enter in the browser, then the workspace creation the caller runs for a choice.
fn browse_select(app: &mut AppState, entries: &Vec<BrowseEntry>) {
    if let BrowseStep::Select(i) = app.handle_browse_key(KeyPress::plain(KeyCode::Enter), entries, None) {
        let path = chosen_path(&entries[i]);
        app.create_workspace(path, "/data/workspaces/new".into(), "new".into(), 1, true);
    }
}

#[test]
fn browse_select_current_creates_workspace() {
    let mut app = empty_app();
    let entries = vec![make_entry(BrowseKind::SelectCurrent, "/tmp"), make_entry(BrowseKind::SelectVirtual, "")];
    app.menu_selected = Some(0);
    app.new_workspace_name = Some("myws".into());
    app.input_mode = InputMode::BrowseDir;
    browse_select(&mut app, &entries);
    assert_eq!(app.store.workspaces.len(), 1);
    assert_eq!(app.store.workspaces[0].name, "myws");
    assert_eq!(app.store.workspaces[0].path.as_deref(), Some("/tmp"));
    assert_eq!(app.input_mode, InputMode::Normal);
    assert!(app.status.contains("myws"));
}

#[test]
fn browse_select_virtual_creates_virtual_workspace() {
    let mut app = empty_app();
    let entries = vec![make_entry(BrowseKind::SelectCurrent, "/tmp"), make_entry(BrowseKind::SelectVirtual, "")];
    app.menu_selected = Some(1);
    app.new_workspace_name = Some("virt".into());
    app.input_mode = InputMode::BrowseDir;
    browse_select(&mut app, &entries);
    assert_eq!(app.store.workspaces.len(), 1);
    assert!(app.store.workspaces[0].path.is_none());
    assert!(app.status.contains("virtual"));
    assert!(app.status.contains("virt"));
}

#[test]
fn browse_up_goes_to_parent() {
    let mut app = empty_app();
    let dir = std::path::PathBuf::from("/tmp/sub");
    let parent = dir.parent().map(|p| p.display().to_string());
    let entries = browse_entries("/tmp/sub", parent.clone(), &Vec::new(), &Vec::new());
    let step = app.handle_browse_key(KeyPress::plain(KeyCode::Backspace), &entries, parent);
    assert!(matches!(step, BrowseStep::Open(ref p) if p == "/tmp"));
}

#[test]
fn chosen_path_follows_the_row() {
    assert_eq!(chosen_path(&make_entry(BrowseKind::SelectCurrent, "/tmp")), Some("/tmp".to_string()));
    assert_eq!(chosen_path(&make_entry(BrowseKind::SelectVirtual, "/tmp")), None);
}
