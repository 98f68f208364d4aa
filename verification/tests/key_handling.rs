use amux::keybinds::{KeyCode, KeyPress, Keybinds};
use amux::sidebar::{ActiveTab, SessionStore, TreeEnv};
use amux::state::{AppState, Effect, InputMode, MenuCounts, PickerOutcome, ScrollTarget, TabBar};
use amux::types::{Action, Agent, Focus, Session, TreeNode, Workspace};

const NOW: u64 = 1_700_000_000;

fn workspace(id: &str, name: &str, path: &str) -> Workspace {
    Workspace { id: id.into(), name: name.into(), path: Some(path.into()), created_at: 1000, expanded: true }
}

fn session(id: &str, title: &str, ws_path: &str) -> Session {
    Session {
        id: id.into(),
        workspace_path: ws_path.into(),
        title: title.into(),
        last_active: 1000,
        agent: Agent::Cc,
        tags: Vec::new(),
        pinned: false,
        last_message: None,
    }
}

fn state_with(workspaces: Vec<Workspace>, sessions: Vec<Session>) -> AppState {
    let env = TreeEnv {
        now: NOW,
        cwds: workspaces.iter().map(|w| w.path.clone().unwrap_or_default()).collect(),
        path_exists: workspaces.iter().map(|_| true).collect(),
        tabs: Vec::new(),
    };
    AppState::new(
        SessionStore::new(workspaces, sessions),
        env,
        Keybinds::default_binds(),
        MenuCounts { templates: 0, plugins: 0, automations: 0, chains: 0 },
    )
}

fn make_app() -> AppState {
    let mut s = session("s1", "fix login bug", "/tmp/ws");
    s.tags = vec!["rust".into()];
    state_with(vec![workspace("w1", "workspace", "/tmp/ws")], vec![s])
}

fn key(code: KeyCode) -> KeyPress {
    KeyPress::plain(code)
}

fn alt(c: char) -> KeyPress {
    KeyPress { code: KeyCode::Char(c), ctrl: false, alt: true, shift: false }
}

fn ctrl(c: char) -> KeyPress {
    KeyPress { code: KeyCode::Char(c), ctrl: true, alt: false, shift: false }
}

fn tab(title: &str, session_id: Option<&str>) -> ActiveTab {
    ActiveTab { workspace_path: "/tmp".into(), session_id: session_id.map(|s| s.into()), agent: Agent::Omp, title: title.into() }
}

// ─── search ───

#[test]
fn search_key_char_appends_to_query() {
    let mut app = make_app();
    app.input_mode = InputMode::Search;
    app.input_buffer.clear();
    app.handle_search_key(key(KeyCode::Char('f')));
    assert_eq!(app.input_buffer, "f");
    assert_eq!(app.filters.search_query.as_deref(), Some("f"));
    app.handle_search_key(key(KeyCode::Char('i')));
    assert_eq!(app.input_buffer, "fi");
    assert_eq!(app.filters.search_query.as_deref(), Some("fi"));
}

#[test]
fn search_key_backspace_removes_last_char() {
    let mut app = make_app();
    app.input_mode = InputMode::Search;
    app.input_buffer = "abc".into();
    app.filters.search_query = Some("abc".into());
    app.handle_search_key(key(KeyCode::Backspace));
    assert_eq!(app.input_buffer, "ab");
    assert_eq!(app.filters.search_query.as_deref(), Some("ab"));
}

#[test]
fn search_key_backspace_to_empty_clears_query() {
    let mut app = make_app();
    app.input_mode = InputMode::Search;
    app.input_buffer = "x".into();
    app.filters.search_query = Some("x".into());
    app.handle_search_key(key(KeyCode::Backspace));
    assert!(app.input_buffer.is_empty());
    assert!(app.filters.search_query.is_none());
}

#[test]
fn search_key_esc_resets_mode_and_clears() {
    let mut app = make_app();
    app.input_mode = InputMode::Search;
    app.input_buffer = "query".into();
    app.filters.search_query = Some("query".into());
    app.filters.agent_filter = Some(Agent::Cc);
    app.handle_search_key(key(KeyCode::Esc));
    assert_eq!(app.input_mode, InputMode::Normal);
    assert!(app.input_buffer.is_empty());
    assert!(app.filters.search_query.is_none());
    assert!(app.filters.agent_filter.is_none());
}

// ─── tag filter ───

#[test]
fn tag_filter_enter_sets_filter() {
    let mut app = make_app();
    app.input_mode = InputMode::TagFilter;
    app.input_buffer = "  rust  ".into();
    app.handle_tag_filter_key(key(KeyCode::Enter));
    assert_eq!(app.filters.tag_filter.as_deref(), Some("rust"));
    assert_eq!(app.input_mode, InputMode::Normal);
    assert!(app.input_buffer.is_empty());
    assert!(app.status.contains("rust"));
}

#[test]
fn tag_filter_enter_empty_clears_filter() {
    let mut app = make_app();
    app.input_mode = InputMode::TagFilter;
    app.input_buffer = "   ".into();
    app.filters.tag_filter = Some("old".into());
    app.handle_tag_filter_key(key(KeyCode::Enter));
    assert!(app.filters.tag_filter.is_none());
    assert!(app.status.contains("cleared"));
}

#[test]
fn tag_filter_esc_cancels_without_setting() {
    let mut app = make_app();
    app.input_mode = InputMode::TagFilter;
    app.input_buffer = "rust".into();
    app.status = "some status".into();
    app.handle_tag_filter_key(key(KeyCode::Esc));
    assert_eq!(app.input_mode, InputMode::Normal);
    assert!(app.input_buffer.is_empty());
    assert!(app.status.is_empty());
}

#[test]
fn tag_filter_char_appends() {
    let mut app = make_app();
    app.input_mode = InputMode::TagFilter;
    app.input_buffer.clear();
    app.handle_tag_filter_key(key(KeyCode::Char('r')));
    app.handle_tag_filter_key(key(KeyCode::Char('s')));
    assert_eq!(app.input_buffer, "rs");
}

#[test]
fn tag_filter_backspace_removes_char() {
    let mut app = make_app();
    app.input_mode = InputMode::TagFilter;
    app.input_buffer = "abc".into();
    app.handle_tag_filter_key(key(KeyCode::Backspace));
    assert_eq!(app.input_buffer, "ab");
}

// ─── ranked search ───

#[test]
fn semantic_search_esc_clears_results() {
    let mut app = make_app();
    app.input_mode = InputMode::SemanticSearch;
    app.search_results = vec!["s1".into()];
    app.search_selected = Some(0);
    app.handle_semantic_search_key(key(KeyCode::Esc));
    assert!(app.search_results.is_empty());
    assert!(app.search_selected.is_none());
    assert_eq!(app.input_mode, InputMode::Normal);
}

#[test]
fn semantic_search_j_moves_down() {
    let mut app = make_app();
    app.input_mode = InputMode::SemanticSearch;
    app.search_results = vec!["s1".into(), "s2".into(), "s3".into()];
    app.search_selected = Some(0);
    app.handle_semantic_search_key(key(KeyCode::Char('j')));
    assert_eq!(app.search_selected, Some(1));
    app.handle_semantic_search_key(key(KeyCode::Down));
    assert_eq!(app.search_selected, Some(2));
}

#[test]
fn semantic_search_j_clamps_at_last() {
    let mut app = make_app();
    app.input_mode = InputMode::SemanticSearch;
    app.search_results = vec!["s1".into(), "s2".into()];
    app.search_selected = Some(1);
    app.handle_semantic_search_key(key(KeyCode::Char('j')));
    assert_eq!(app.search_selected, Some(1));
}

#[test]
fn semantic_search_k_moves_up() {
    let mut app = make_app();
    app.input_mode = InputMode::SemanticSearch;
    app.search_results = vec!["s1".into(), "s2".into(), "s3".into()];
    app.search_selected = Some(2);
    app.handle_semantic_search_key(key(KeyCode::Char('k')));
    assert_eq!(app.search_selected, Some(1));
    app.handle_semantic_search_key(key(KeyCode::Up));
    assert_eq!(app.search_selected, Some(0));
}

#[test]
fn semantic_search_k_clamps_at_zero() {
    let mut app = make_app();
    app.input_mode = InputMode::SemanticSearch;
    app.search_results = vec!["s1".into()];
    app.search_selected = Some(0);
    app.handle_semantic_search_key(key(KeyCode::Char('k')));
    assert_eq!(app.search_selected, Some(0));
}

#[test]
fn semantic_search_enter_selects_and_navigates() {
    let mut app = make_app();
    app.input_mode = InputMode::SemanticSearch;
    app.search_results = vec!["s1".into()];
    app.search_selected = Some(0);
    app.handle_semantic_search_key(key(KeyCode::Enter));
    assert!(app.search_results.is_empty());
    assert!(app.search_selected.is_none());
    assert_eq!(app.input_mode, InputMode::Normal);
}

#[test]
fn semantic_search_typing_char_appends() {
    let mut app = make_app();
    app.input_mode = InputMode::SemanticSearch;
    app.input_buffer.clear();
    app.handle_semantic_search_key(key(KeyCode::Char('q')));
    assert_eq!(app.input_buffer, "q");
}

#[test]
fn semantic_search_typing_backspace_pops() {
    let mut app = make_app();
    app.input_mode = InputMode::SemanticSearch;
    app.input_buffer = "abc".into();
    app.handle_semantic_search_key(key(KeyCode::Backspace));
    assert_eq!(app.input_buffer, "ab");
}

#[test]
fn semantic_search_typing_esc_cancels() {
    let mut app = make_app();
    app.input_mode = InputMode::SemanticSearch;
    app.input_buffer = "query".into();
    app.handle_semantic_search_key(key(KeyCode::Esc));
    assert_eq!(app.input_mode, InputMode::Normal);
    assert!(app.input_buffer.is_empty());
}

#[test]
fn semantic_search_enter_asks_for_trimmed_query() {
    let mut app = make_app();
    app.input_mode = InputMode::SemanticSearch;
    app.input_buffer = "  login  ".into();
    let (_, e) = app.handle_semantic_search_key(key(KeyCode::Enter));
    assert!(matches!(e, Effect::SemanticSearch(ref q) if q == "login"));
    assert!(app.input_buffer.is_empty());
    app.show_search_hits("login", vec!["s1".into(), "s2".into()]);
    assert_eq!(app.search_selected, Some(0));
    assert_eq!(app.status, "BM25: 'login' (2 hits \u{b7} j/k \u{b7} Enter \u{b7} Esc)");
    app.search_results.clear();
    app.show_search_hits("nothing", Vec::new());
    assert_eq!(app.status, "No results for 'nothing'.");
    assert_eq!(app.input_mode, InputMode::Normal);
}

#[test]
fn navigate_to_session_selects_its_row() {
    let mut app = make_app();
    app.navigate_to_session("s1");
    assert_eq!(app.store.selected, Some(1));
    assert_eq!(app.status, "Selected session s1.");
    app.navigate_to_session("missing-session-id");
    assert_eq!(app.status, "Session missing- not found in sidebar.");
}

// ─── paste ───

#[test]
fn paste_in_none_mode_ignored_without_active_pty() {
    let mut app = state_with(vec![], vec![]);
    app.input_mode = InputMode::Normal;
    let e = app.handle_paste("hello world");
    assert!(matches!(e, Effect::Nothing));
}

#[test]
fn paste_in_search_mode_appends_to_query() {
    let mut app = state_with(vec![], vec![]);
    app.input_mode = InputMode::ScrollbackSearch;
    app.handle_paste("search term");
    assert_eq!(app.scrollback_query, "search term");
}

#[test]
fn paste_in_search_mode_truncates_long_content() {
    let mut app = state_with(vec![], vec![]);
    app.input_mode = InputMode::ScrollbackSearch;
    let long_text = "x".repeat(500);
    app.handle_paste(&long_text);
    assert!(app.scrollback_query.len() <= 200);
}

#[test]
fn paste_in_input_mode_appends_to_buffer() {
    let mut app = state_with(vec![], vec![]);
    app.input_mode = InputMode::RenameSession;
    app.handle_paste("new name");
    assert_eq!(app.input_buffer, "new name");
}

#[test]
fn paste_in_input_mode_truncates_very_long_content() {
    let mut app = state_with(vec![], vec![]);
    app.input_mode = InputMode::RenameSession;
    let long_text = "y".repeat(10000);
    app.handle_paste(&long_text);
    assert!(app.input_buffer.len() <= 4000);
}

#[test]
fn paste_goes_to_focused_tab() {
    let mut app = state_with(vec![], vec![]);
    app.open_tab(tab("t", None));
    let e = app.handle_paste("ls");
    assert!(matches!(e, Effect::PasteToTab(0, ref t) if t == "ls"));
}

// ─── mouse ───

#[test]
fn mouse_click_ignored_when_no_ptys() {
    let mut app = state_with(vec![], vec![]);
    app.handle_mouse_click(TabBar { x: 0, y: 0, width: 80, height: 1 }, 40, 0);
    assert_eq!(app.active_tab, None);
}

#[test]
fn mouse_click_ignored_when_rect_is_zero() {
    let mut app = state_with(vec![], vec![]);
    app.handle_mouse_click(TabBar { x: 0, y: 0, width: 0, height: 0 }, 10, 10);
    assert_eq!(app.active_tab, None);
}

#[test]
fn mouse_click_outside_tab_bar_ignored() {
    let mut app = state_with(vec![], vec![]);
    let bar = TabBar { x: 0, y: 0, width: 80, height: 1 };
    app.handle_mouse_click(bar, 40, 5);
    assert_eq!(app.active_tab, None);
    app.handle_mouse_click(bar, 40, 10);
    assert_eq!(app.active_tab, None);
}

#[test]
fn handle_mouse_click_ignores_when_no_ptys() {
    let mut app = state_with(vec![], vec![]);
    app.handle_mouse_click(TabBar { x: 0, y: 0, width: 80, height: 1 }, 40, 0);
    assert_eq!(app.active_tab, None, "no active_pty when no PTYs exist");
}

#[test]
fn mouse_click_switches_tab() {
    let mut app = state_with(vec![], vec![]);
    app.open_tab(tab("one", None));
    app.open_tab(tab("two", None));
    let bar = TabBar { x: 10, y: 2, width: 80, height: 1 };
    let e = app.handle_mouse_click(bar, 15, 2);
    assert_eq!(app.active_tab, Some(0));
    assert_eq!(app.status, "Switched to: one (1/2)");
    assert!(matches!(e, Effect::Scroll(0, ScrollTarget::Bottom)));
    let e = app.handle_mouse_click(bar, 15, 2);
    assert!(matches!(e, Effect::Nothing));
    let e = app.handle_tab_close_click(bar, 60, 2);
    assert!(matches!(e, Effect::CloseTab(1)));
    assert_eq!(app.env.tabs.len(), 1);
    assert_eq!(app.status, "Closed tab: two");
}

// ─── command mode keys of a tab ───

fn amux_app() -> AppState {
    let mut app = state_with(vec![], vec![]);
    app.open_tab(tab("test", None));
    app
}

#[test]
fn c_opens_terminal_split() {
    let mut app = amux_app();
    let e = app.handle_amux_key(0, key(KeyCode::Char('c')), false, false, false);
    assert!(matches!(e, Effect::OpenSplit(0)), "terminal split should be opened");
    assert!(
        app.status.contains("Terminal opened"),
        "status should confirm terminal opened, got: {:?}",
        app.status,
    );
    let e = app.handle_amux_key(0, key(KeyCode::Char('c')), false, true, false);
    assert!(matches!(e, Effect::CloseSplit), "terminal split should be closed");
    assert!(app.status.contains("Terminal closed"));
}

#[test]
fn x_triggers_diff() {
    let mut app = state_with(vec![workspace("w1", "Project", "/tmp")], vec![session("s1", "fix bug", "/tmp")]);
    app.open_tab(tab("pty-1", None));
    // The tree is [Workspace, Session, tab row]; select the session.
    let row = app.store.tree.iter().position(|n| matches!(n, TreeNode::Session(_, 0))).unwrap();
    app.store.selected = Some(row);
    let e = app.handle_amux_key(0, key(KeyCode::Char('x')), false, false, false);
    assert!(matches!(e, Effect::Nothing));
    // First press selects left session for diff
    assert_eq!(app.diff_left_session, Some(0));
    assert!(
        app.status.starts_with("Diff: selected 'fix bug'"),
        "status should name the first session, got: {:?}",
        app.status,
    );
}

#[test]
fn second_session_opens_the_comparison() {
    let mut app = state_with(
        vec![workspace("w1", "Project", "/tmp")],
        vec![session("s1", "first", "/tmp"), session("s2", "second", "/tmp")],
    );
    let rows: Vec<usize> = app
        .store
        .tree
        .iter()
        .enumerate()
        .filter(|(_, n)| matches!(n, TreeNode::Session(..)))
        .map(|(i, _)| i)
        .collect();
    app.store.selected = Some(rows[0]);
    assert_eq!(app.start_diff(), None);
    let first = app.diff_left_session.unwrap();
    assert_eq!(app.start_diff(), None);
    assert_eq!(app.status, "Cannot diff a session with itself.");
    assert_eq!(app.diff_left_session, None);
    app.start_diff();
    app.store.selected = Some(rows[1]);
    let r = app.start_diff().unwrap();
    assert_eq!(r.0, first);
    assert_ne!(r.0, r.1);
    assert_eq!(app.input_mode, InputMode::DiffView);
    assert_eq!(app.status, "Session Diff (any key to close)");
    app.store.selected = Some(0);
    assert_eq!(app.start_diff(), None);
    assert_eq!(app.status, "Select a session to diff.");
}

#[test]
fn diff_status_cuts_long_titles_to_thirty_bytes() {
    let mut app = state_with(
        vec![workspace("w1", "Project", "/tmp")],
        vec![session("s1", "a title that is much longer than thirty bytes", "/tmp")],
    );
    let row = app.store.tree.iter().position(|n| matches!(n, TreeNode::Session(..))).unwrap();
    app.store.selected = Some(row);
    app.start_diff();
    assert_eq!(app.status, "Diff: selected 'a title that is much longer th' \u{2014} select second session, press X again");
}

#[test]
fn question_mark_is_swallowed() {
    let mut app = amux_app();
    let e = app.handle_amux_key(0, key(KeyCode::Char('?')), false, false, false);
    assert!(matches!(e, Effect::Nothing));
}

#[test]
fn o_is_swallowed() {
    let mut app = amux_app();
    let e = app.handle_amux_key(0, key(KeyCode::Char('o')), false, false, false);
    assert!(matches!(e, Effect::Nothing));
}

#[test]
fn p_is_swallowed() {
    let mut app = amux_app();
    let e = app.handle_amux_key(0, key(KeyCode::Char('p')), false, false, false);
    assert!(matches!(e, Effect::Nothing));
}

#[test]
fn amux_paging_goes_to_full_screen_programs() {
    let mut app = amux_app();
    let e = app.handle_amux_key(0, KeyPress { code: KeyCode::PageUp, ctrl: false, alt: false, shift: true }, true, false, false);
    assert!(matches!(e, Effect::Forward(0)));
    let e = app.handle_amux_key(0, key(KeyCode::Char('b')), true, false, false);
    assert!(matches!(e, Effect::WriteBytes(0, ref v) if v == &vec![27u8, 91, 53, 126]));
    let e = app.handle_amux_key(0, key(KeyCode::Char('b')), false, false, false);
    assert!(matches!(e, Effect::Scroll(0, ScrollTarget::PageUp)));
    let e = app.handle_amux_key(0, ctrl('x'), false, true, false);
    assert!(matches!(e, Effect::ForwardToSplit));
}

// ─── the whole key dispatch ───

#[test]
fn sidebar_quit_and_navigation_keys() {
    let mut app = make_app();
    assert_eq!(app.handle_key(alt('q'), false, false, false).0, Action::Quit);
    assert_eq!(app.handle_key(key(KeyCode::Esc), false, false, false).0, Action::Quit);
    assert_eq!(app.store.selected, Some(0));
    app.handle_key(alt('j'), false, false, false);
    assert_eq!(app.store.selected, Some(1));
    app.handle_key(key(KeyCode::Down), false, false, false);
    assert_eq!(app.store.selected, Some(0));
}

#[test]
fn sidebar_search_key_opens_prompt() {
    let mut app = make_app();
    app.input_buffer = "stale".into();
    let (a, e) = app.handle_key(alt('/'), false, false, false);
    assert_eq!(a, Action::Continue);
    assert!(matches!(e, Effect::Nothing));
    assert_eq!(app.input_mode, InputMode::Search);
    assert!(app.input_buffer.is_empty());
    assert_eq!(app.status, "Search (prefix: >7d, >1h, >30m for date filter):");
    app.handle_key(key(KeyCode::Char('z')), false, false, false);
    assert_eq!(app.filters.search_query.as_deref(), Some("z"));
}

#[test]
fn sidebar_tab_without_tabs_explains() {
    let mut app = make_app();
    app.handle_key(key(KeyCode::Tab), false, false, false);
    assert_eq!(app.focus, Focus::Sidebar);
    assert_eq!(app.status, "No active session. Press Enter to start one.");
}

#[test]
fn sidebar_lists_report_when_empty() {
    let mut app = make_app();
    app.handle_key(key(KeyCode::Char('p')), false, false, false);
    assert_eq!(app.status, "No templates saved. Add templates to config.json.");
    app.menus.chains = 2;
    app.handle_key(ctrl('e'), false, false, false);
    assert_eq!(app.input_mode, InputMode::ChainSelect);
    assert_eq!(app.menu_selected, Some(0));
}

#[test]
fn rename_session_flow() {
    let mut app = make_app();
    app.store.selected = Some(1);
    app.handle_key(alt('m'), false, false, false);
    assert_eq!(app.input_mode, InputMode::RenameSession);
    assert_eq!(app.input_buffer, "fix login bug");
    app.input_buffer = "better name".into();
    let (_, e) = app.handle_key(key(KeyCode::Enter), false, false, false);
    assert!(matches!(e, Effect::SaveTitle(ref id, ref t) if id == "s1" && t == "better name"));
    assert_eq!(app.store.sessions[0].title, "better name");
    assert_eq!(app.status, "Renamed to: better name");
    assert_eq!(app.input_mode, InputMode::Normal);
}

#[test]
fn delete_session_flow() {
    let mut app = make_app();
    app.store.selected = Some(1);
    app.handle_key(alt('d'), false, false, false);
    assert_eq!(app.input_mode, InputMode::ConfirmDelete);
    assert_eq!(app.status, "Delete session \"fix login bug\"? y/n");
    let (_, e) = app.handle_key(key(KeyCode::Char('y')), false, false, false);
    assert!(matches!(e, Effect::DeleteSessions(ref ids, ref closed) if ids == &vec!["s1".to_string()] && closed.is_empty()));
    assert!(app.store.sessions.is_empty());
    assert_eq!(app.status, "Deleted session: fix login bug");
    assert!(matches!(app.store.tree[0], TreeNode::Workspace(0)));
}

#[test]
fn delete_cancel_clears_status() {
    let mut app = make_app();
    app.store.selected = Some(1);
    app.handle_key(alt('d'), false, false, false);
    app.handle_key(key(KeyCode::Char('n')), false, false, false);
    assert_eq!(app.input_mode, InputMode::Normal);
    assert!(app.status.is_empty());
    assert!(app.pending_delete.is_none());
}

#[test]
fn batch_delete_of_marked_sessions() {
    let sessions = vec![session("a", "one", "/tmp"), session("b", "two", "/tmp"), session("c", "three", "/tmp")];
    let mut app = state_with(vec![workspace("w1", "ws", "/tmp")], sessions);
    app.open_tab(tab("tab b", Some("b")));
    app.focus = Focus::Sidebar;
    let row_of = |app: &AppState, si: usize| {
        app.store.tree.iter().position(|n| matches!(n, TreeNode::Session(_, s) if *s == si)).expect("session row")
    };
    app.store.selected = Some(row_of(&app, 1));
    app.handle_key(key(KeyCode::Char(' ')), false, false, false);
    assert_eq!(app.status, "Marked session (1)");
    app.store.selected = Some(row_of(&app, 2));
    app.handle_key(key(KeyCode::Char(' ')), false, false, false);
    assert_eq!(app.marked.len(), 2);
    app.handle_key(alt('d'), false, false, false);
    assert_eq!(app.status, "Delete 2 marked session(s)? y/n");
    let (_, e) = app.handle_key(key(KeyCode::Char('Y')), false, false, false);
    match e {
        Effect::DeleteSessions(ids, closed) => {
            assert_eq!(ids, vec!["c".to_string(), "b".to_string()]);
            assert_eq!(closed, vec![0]);
        }
        other => panic!("unexpected effect {other:?}"),
    }
    assert_eq!(app.store.sessions.len(), 1);
    assert_eq!(app.store.sessions[0].id, "a");
    assert!(app.env.tabs.is_empty());
    assert_eq!(app.active_tab, None);
    assert!(app.marked.is_empty());
    assert_eq!(app.status, "Deleted 2 session(s)");
}

#[test]
fn chat_keys_switch_and_move_tabs() {
    let mut app = state_with(vec![], vec![]);
    app.open_tab(tab("one", None));
    app.open_tab(tab("two", None));
    app.open_tab(tab("three", None));
    assert_eq!(app.focus, Focus::Chat);
    assert_eq!(app.active_tab, Some(2));
    app.handle_key(ctrl('j'), false, false, false);
    assert_eq!(app.active_tab, Some(0));
    assert_eq!(app.status, "Switched to: one (1/3)");
    app.handle_key(ctrl('k'), false, false, false);
    assert_eq!(app.active_tab, Some(2));
    let (_, e) = app.handle_key(KeyPress { code: KeyCode::Char('J'), ctrl: true, alt: false, shift: true }, false, false, false);
    assert!(matches!(e, Effect::SwapTabs(2, 0)));
    assert_eq!(app.env.tabs[0].title, "three");
    assert_eq!(app.env.tabs[2].title, "one");
    assert_eq!(app.status, "Moved tab to position 1");
    let (_, e) = app.handle_key(ctrl('y'), false, false, false);
    assert!(matches!(e, Effect::CopyText(ref t) if t == "three (OMP)"));
    let (_, e) = app.handle_key(key(KeyCode::Char('a')), false, false, false);
    assert!(matches!(e, Effect::Forward(0)));
    let (_, e) = app.handle_key(key(KeyCode::Tab), false, false, false);
    assert!(matches!(e, Effect::Refresh));
    assert_eq!(app.focus, Focus::Sidebar);
    assert_eq!(app.status, "Sessions refreshed.");
}

#[test]
fn chat_terminate_closes_tab() {
    let mut app = state_with(vec![], vec![]);
    app.open_tab(tab("one", None));
    let (_, e) = app.handle_key(ctrl('q'), false, false, false);
    assert!(matches!(e, Effect::CloseTabAndRefresh(0)));
    assert!(app.env.tabs.is_empty());
    assert_eq!(app.focus, Focus::Sidebar);
    assert_eq!(app.status, "Session terminated. Sessions refreshed.");
}

#[test]
fn panel_cycling_and_keybind_scroll() {
    let mut app = make_app();
    app.handle_key(alt('?'), false, false, false);
    assert_eq!(app.input_mode, InputMode::KeybindView);
    app.handle_key(key(KeyCode::Char('j')), false, false, false);
    app.handle_key(key(KeyCode::Down), false, false, false);
    assert_eq!(app.keybind_scroll, 2);
    app.handle_key(key(KeyCode::Up), false, false, false);
    assert_eq!(app.keybind_scroll, 1);
    app.handle_key(alt('l'), false, false, false);
    assert_eq!(app.input_mode, InputMode::Settings);
    let (_, e) = app.handle_key(alt('l'), false, false, false);
    assert!(matches!(e, Effect::LoadThemes));
    assert_eq!(app.input_mode, InputMode::ThemeSelect);
    app.handle_key(alt('h'), false, false, false);
    app.handle_key(alt('h'), false, false, false);
    app.handle_key(alt('h'), false, false, false);
    assert_eq!(app.input_mode, InputMode::TokenStats);
    assert_eq!(app.status, "Token Usage (any key to close)");
    app.handle_key(key(KeyCode::Char('x')), false, false, false);
    assert_eq!(app.input_mode, InputMode::Normal);
}

#[test]
fn new_workspace_prompt_flow() {
    let mut app = make_app();
    app.handle_key(alt('w'), false, false, false);
    assert_eq!(app.input_mode, InputMode::NewWorkspaceName);
    assert_eq!(app.status, "Workspace name (Esc = cancel):");
    let (_, e) = app.handle_key(key(KeyCode::Enter), false, false, false);
    assert!(matches!(e, Effect::Nothing));
    assert_eq!(app.status, "Workspace name cannot be empty.");
    app.handle_key(alt('w'), false, false, false);
    for c in " docs ".chars() {
        app.handle_key(key(KeyCode::Char(c)), false, false, false);
    }
    let (_, e) = app.handle_key(key(KeyCode::Enter), false, false, false);
    assert!(matches!(e, Effect::BrowseDirectory));
    assert_eq!(app.new_workspace_name.as_deref(), Some("docs"));
}

#[test]
fn toggle_pin_and_archived_statuses() {
    let mut app = make_app();
    app.store.selected = Some(1);
    let (_, e) = app.handle_key(key(KeyCode::Char('!')), false, false, false);
    assert!(matches!(e, Effect::SavePin(ref id, true) if id == "s1"));
    assert!(app.store.sessions[0].pinned);
    assert_eq!(app.status, "\u{1f4cc} Pinned");
    app.handle_key(key(KeyCode::Char('G')), false, false, false);
    assert!(app.store.show_archived);
    assert_eq!(app.status, "Showing 0 archived session(s)");
    app.handle_key(key(KeyCode::Char('G')), false, false, false);
    assert_eq!(app.status, "Archived sessions hidden");
}

// ─── list pickers ───

fn theme_app() -> (AppState, Vec<&'static str>) {
    let mut app = state_with(vec![], vec![]);
    app.input_mode = InputMode::ThemeSelect;
    app.menu_selected = Some(0);
    (app, vec!["Dark", "Light"])
}

#[test]
fn open_theme_panel_clears_picker_query() {
    let (mut app, _) = theme_app();
    app.input_mode = InputMode::Settings;
    app.picker_query = "stale".into();
    let e = app.handle_settings_key(key(KeyCode::Char('t')));
    assert!(matches!(e, Effect::LoadThemes));
    assert!(app.picker_query.is_empty());
    assert_eq!(app.input_mode, InputMode::ThemeSelect);
}

#[test]
fn typing_chars_appends_to_picker_query() {
    let (mut app, themes) = theme_app();
    app.handle_picker_key(key(KeyCode::Char('d')), themes.len());
    app.handle_picker_key(key(KeyCode::Char('a')), themes.len());
    app.handle_picker_key(key(KeyCode::Char('r')), themes.len());
    assert_eq!(app.picker_query, "dar");
    assert_eq!(app.input_mode, InputMode::ThemeSelect);
}

#[test]
fn backspace_removes_from_picker_query() {
    let (mut app, themes) = theme_app();
    app.picker_query = "mo".into();
    app.handle_picker_key(key(KeyCode::Backspace), themes.len());
    assert_eq!(app.picker_query, "m");
    app.picker_query.clear();
    app.handle_picker_key(key(KeyCode::Backspace), themes.len());
    assert!(app.picker_query.is_empty());
}

#[test]
fn escape_clears_and_exits() {
    let (mut app, themes) = theme_app();
    app.picker_query = "dark".into();
    let r = app.handle_picker_key(key(KeyCode::Esc), themes.len());
    assert_eq!(r, PickerOutcome::Closed);
    assert!(app.picker_query.is_empty());
    assert_eq!(app.input_mode, InputMode::Normal);
    assert!(app.status.is_empty());
}

#[test]
fn enter_applies_theme_and_clears_query() {
    let (mut app, themes) = theme_app();
    app.picker_query = "da".into();
    let r = app.handle_picker_key(key(KeyCode::Enter), themes.len());
    assert_eq!(r, PickerOutcome::Chosen(0));
    assert_eq!(themes[0], "Dark");
    assert!(app.picker_query.is_empty());
    assert_eq!(app.input_mode, InputMode::Normal);
}

#[test]
fn up_down_navigates_and_preserves_query() {
    let (mut app, themes) = theme_app();
    app.picker_query = "li".into();
    app.handle_picker_key(key(KeyCode::Down), themes.len());
    assert_eq!(app.menu_selected, Some(1));
    assert_eq!(app.picker_query, "li");
    app.handle_picker_key(key(KeyCode::Down), themes.len());
    assert_eq!(app.menu_selected, Some(0));
    app.handle_picker_key(key(KeyCode::Up), themes.len());
    assert_eq!(app.menu_selected, Some(1));
    assert_eq!(app.input_mode, InputMode::ThemeSelect);
}

#[test]
fn enter_on_second_item_applies_light() {
    let (mut app, themes) = theme_app();
    app.handle_picker_key(key(KeyCode::Down), themes.len());
    let r = app.handle_picker_key(key(KeyCode::Enter), themes.len());
    assert_eq!(r, PickerOutcome::Chosen(1));
    assert_eq!(themes[1], "Light");
    assert_eq!(app.input_mode, InputMode::Normal);
}

#[test]
fn browse_move_wraps_and_clamps() {
    let mut app = state_with(vec![], vec![]);
    let entries = vec!["a", "b", "c"];
    app.menu_selected = Some(0);
    app.browse_move(1, entries.len());
    assert_eq!(app.menu_selected, Some(1));
    app.browse_move(2, entries.len());
    assert_eq!(app.menu_selected, Some(0));
    app.browse_move(-1, entries.len());
    assert_eq!(app.menu_selected, Some(2));
}

#[test]
fn browse_move_empty_is_noop() {
    let mut app = state_with(vec![], vec![]);
    app.menu_selected = Some(0);
    app.browse_move(1, 0);
    assert_eq!(app.menu_selected, Some(0));
}

#[test]
fn settings_keys() {
    let mut app = state_with(vec![workspace("w1", "one", "/tmp")], vec![]);
    app.input_mode = InputMode::Settings;
    app.handle_settings_key(key(KeyCode::Char('d')));
    assert_eq!(app.status, "Cannot delete the only workspace.");
    let e = app.handle_settings_key(key(KeyCode::Char('b')));
    assert!(matches!(e, Effect::SaveConfig));
    assert_eq!(app.token_limits.map(|l| l.daily_tokens), Some(Some(100000)));
    app.handle_settings_key(key(KeyCode::Char('b')));
    assert!(app.token_limits.is_none());
    assert_eq!(app.status, "Token budget cleared.");
    app.handle_settings_key(key(KeyCode::Char('r')));
    assert_eq!(app.input_mode, InputMode::RenameWorkspace);
    assert_eq!(app.rename_workspace_target, Some(0));
    assert_eq!(app.input_buffer, "one");
}

#[test]
fn agent_list_keys() {
    let mut app = state_with(vec![], vec![]);
    app.input_mode = InputMode::SelectAgent;
    app.menu_selected = Some(0);
    assert_eq!(app.handle_agent_key(key(KeyCode::Char('K')), 3), None);
    assert_eq!(app.menu_selected, Some(2));
    app.handle_agent_key(key(KeyCode::Down), 3);
    assert_eq!(app.menu_selected, Some(0));
    assert_eq!(app.handle_agent_key(key(KeyCode::Enter), 3), Some(0));
    assert_eq!(app.input_mode, InputMode::Normal);
    app.input_mode = InputMode::SelectAgent;
    app.handle_agent_key(key(KeyCode::Esc), 3);
    assert_eq!(app.status, "Cancelled.");
}

#[test]
fn plugin_output_scrolls_then_closes() {
    let mut app = state_with(vec![], vec![]);
    app.input_mode = InputMode::PluginOutput;
    assert!(!app.handle_plugin_output_key(key(KeyCode::PageDown), 25));
    assert_eq!(app.plugin_scroll, 10);
    app.handle_plugin_output_key(key(KeyCode::End), 25);
    assert_eq!(app.plugin_scroll, 24);
    app.handle_plugin_output_key(key(KeyCode::Char('j')), 25);
    assert_eq!(app.plugin_scroll, 24);
    assert!(app.handle_plugin_output_key(key(KeyCode::Char('q')), 25));
    assert_eq!(app.plugin_scroll, 0);
    assert_eq!(app.input_mode, InputMode::Normal);
}

#[test]
fn template_target_prefers_configured_workspace() {
    let mut app = state_with(vec![workspace("w1", "one", "/tmp/a"), workspace("w2", "two", "/tmp/b")], vec![]);
    assert_eq!(app.template_target(Some("w2")), Some(1));
    app.store.selected = Some(0);
    assert_eq!(app.template_target(None), Some(0));
    assert_eq!(app.template_target(Some("nope")), Some(0));
}

#[test]
fn pick_agent_prefers_project_default() {
    let mut app = state_with(vec![], vec![]);
    let available = vec![Agent::Cc, Agent::Codex];
    assert_eq!(app.pick_agent(Some(Agent::Codex), &available), Some(Agent::Codex));
    assert_eq!(app.pick_agent(Some(Agent::Omp), &available), None);
    assert_eq!(app.input_mode, InputMode::SelectAgent);
    assert_eq!(app.pick_agent(None, &vec![Agent::Omp]), Some(Agent::Omp));
}

// ─── copying the selected row ───

#[test]
fn copy_text_of_selected_rows() {
    let mut app = state_with(
        vec![workspace("w1", "workspace", "/tmp/ws"), Workspace { id: "v".into(), name: "notes".into(), path: None, created_at: 1, expanded: true }],
        vec![session("0123456789abcdef", "fix login bug", "/tmp/ws")],
    );
    let rows: Vec<TreeNode> = app.store.tree.clone();
    let ws_row = rows.iter().position(|n| matches!(n, TreeNode::Workspace(0))).unwrap();
    let session_row = rows.iter().position(|n| matches!(n, TreeNode::Session(_, 0))).unwrap();
    let virtual_row = rows.iter().position(|n| matches!(n, TreeNode::Workspace(1))).unwrap();
    app.store.selected = Some(session_row);
    assert_eq!(app.copy_selected_info().as_deref(), Some("[01234567] fix login bug (CC)"));
    app.store.selected = Some(ws_row);
    assert_eq!(app.copy_selected_info().as_deref(), Some("workspace (/tmp/ws)"));
    app.store.selected = Some(virtual_row);
    assert_eq!(app.copy_selected_info().as_deref(), Some("notes (virtual)"));
    app.store.selected = None;
    assert_eq!(app.copy_selected_info(), None);
    assert_eq!(app.status, "Nothing to copy.");
}

// ─── passthrough and command mode ───

#[test]
fn f12_switches_between_passthrough_and_command_mode() {
    let mut app = make_app();
    app.open_tab(tab("t", None));
    assert!(!app.amux_mode);
    let (a, e) = app.handle_key(key(KeyCode::Char('x')), false, false, false);
    assert_eq!(a, Action::Continue);
    assert!(matches!(e, Effect::Forward(0)));
    let (_, e) = app.handle_key(key(KeyCode::F(12)), false, false, false);
    assert!(matches!(e, Effect::Nothing));
    assert!(app.amux_mode);
    let (_, e) = app.handle_key(key(KeyCode::Char('x')), false, false, false);
    assert!(!matches!(e, Effect::Forward(_)));
    assert!(app.status.starts_with("Diff: selected") || app.status == "Select a session to diff.");
    let (_, e) = app.handle_key(key(KeyCode::Char('q')), false, false, false);
    assert!(matches!(e, Effect::Nothing));
    let (_, e) = app.handle_key(key(KeyCode::PageUp), false, false, false);
    assert!(matches!(e, Effect::Scroll(0, ScrollTarget::PageUp)));
    let (_, e) = app.handle_key(key(KeyCode::End), false, false, false);
    assert!(matches!(e, Effect::Scroll(0, ScrollTarget::Bottom)));
    let (_, e) = app.handle_key(ctrl('x'), false, false, false);
    assert!(matches!(e, Effect::ResetAndForward(0)));
    app.handle_key(key(KeyCode::F(12)), false, false, false);
    assert!(!app.amux_mode);
}

#[test]
fn shared_keys_keep_their_meaning_in_command_mode() {
    let mut app = make_app();
    app.open_tab(tab("t", None));
    app.amux_mode = true;
    let (a, _) = app.handle_key(alt('q'), false, false, false);
    assert_eq!(a, Action::Quit);
    let (_, e) = app.handle_key(key(KeyCode::Tab), false, false, false);
    assert!(matches!(e, Effect::Refresh));
    assert_eq!(app.focus, Focus::Sidebar);
}

#[test]
fn next_then_previous_tab_returns_to_the_same_tab() {
    let mut app = make_app();
    app.open_tab(tab("one", None));
    app.open_tab(tab("two", None));
    app.open_tab(tab("three", None));
    app.active_tab = Some(2);
    app.switch_tab(1);
    assert_eq!(app.active_tab, Some(0));
    app.switch_tab(-1);
    assert_eq!(app.active_tab, Some(2));
}

#[test]
fn archived_toggle_twice_restores_the_view() {
    let mut app = make_app();
    let before = app.store.show_archived;
    app.toggle_archived();
    assert_ne!(app.store.show_archived, before);
    app.toggle_archived();
    assert_eq!(app.store.show_archived, before);
    assert_eq!(app.status, "Archived sessions hidden");
}

#[test]
fn f12_with_a_tab_focused_switches_mode_and_is_not_forwarded() {
    let mut app = amux_app();
    app.focus = Focus::Chat;
    assert!(!app.amux_mode);
    let (a, e) = app.handle_key(key(KeyCode::F(12)), false, false, false);
    assert_eq!(a, Action::Continue);
    assert!(matches!(e, Effect::Nothing));
    assert!(app.amux_mode);
}

#[test]
fn modified_keys_in_command_mode_reset_scroll_then_forward() {
    let mut app = amux_app();
    let e = app.handle_amux_key(0, ctrl('x'), false, false, true);
    assert!(matches!(e, Effect::ResetAndForward(0)));
    let e = app.handle_amux_key(0, ctrl('x'), false, true, true);
    assert!(matches!(e, Effect::ForwardToSplit));
}
