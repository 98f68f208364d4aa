use amux::find::{find_in_lines, search_bar, Hit};
use amux::keybinds::{KeyCode, KeyPress, Keybinds};
use amux::screen::{chat_title, preview_key, preview_lines, PreviewAction, PreviewEntry, PreviewView, Piece};
use amux::sidebar::{ActiveTab, SessionStore, TreeEnv};
use amux::state::{AppState, Effect, InputMode, MenuCounts};
use amux::types::{Agent, Session, TreeNode, Workspace};

fn text(l: &[Piece]) -> String {
    l.iter().map(|p| p.text.as_str()).collect()
}

fn entry(role: &str, t: &str) -> PreviewEntry {
    PreviewEntry { role: role.into(), text: t.into() }
}

fn app() -> AppState {
    let ws = Workspace { id: "w".into(), name: "Project".into(), path: Some("/tmp".into()), created_at: 0, expanded: true };
    let s = Session {
        id: "s1".into(),
        workspace_path: "/tmp".into(),
        title: "fix bug".into(),
        last_active: 1,
        agent: Agent::Cc,
        tags: Vec::new(),
        pinned: false,
        last_message: None,
    };
    let env = TreeEnv { now: 10, cwds: vec!["/tmp".into()], path_exists: vec![true], tabs: Vec::new() };
    AppState::new(
        SessionStore::new(vec![ws], vec![s]),
        env,
        Keybinds::default_binds(),
        MenuCounts { templates: 0, plugins: 0, automations: 0, chains: 0 },
    )
}

#[test]
fn preview_shows_the_conversation() {
    let v = PreviewView { summary: false, knowledge: false };
    let lines: Vec<String> =
        preview_lines(v, &vec!["auth".into()], &vec![entry("user", "hi"), entry("assistant", "hello")], false)
            .iter()
            .map(|l| text(l))
            .collect();
    assert_eq!(
        lines,
        vec![
            "  Session Content Preview",
            "",
            "  Tags: auth",
            "",
            "  You hi",
            "",
            "  Bot hello",
            "",
            "",
            "  s=summary  b=rollback  k=knowledge  any key=close",
        ]
    );
}

#[test]
fn preview_renders_summary_markdown() {
    let v = PreviewView { summary: true, knowledge: false };
    let es = vec![
        entry("heading", "# Title"),
        entry("heading", "## Part"),
        entry("text", "- item"),
        entry("text", "```"),
        entry("text", "# not a heading"),
        entry("text", "```"),
        entry("text", "   "),
        entry("text", "plain"),
    ];
    let lines: Vec<String> = preview_lines(v, &Vec::new(), &es, true).iter().map(|l| text(l)).collect();
    assert_eq!(
        lines,
        vec![
            "  Session Summary",
            "",
            "  Title",
            "",
            "  Part",
            "",
            "    \u{2022} item",
            "",
            "  # not a heading",
            "",
            "",
            "  plain",
            "",
            "  Press any key to dismiss",
        ]
    );
}

#[test]
fn preview_without_entries() {
    let lines: Vec<String> = preview_lines(PreviewView { summary: true, knowledge: true }, &Vec::new(), &Vec::new(), false)
        .iter()
        .map(|l| text(l))
        .collect();
    assert_eq!(lines, vec!["  Knowledge Base", "", "  No summary available.", "", "  k=back  c=clear  any key=close"]);
}

#[test]
fn preview_keys() {
    let v = PreviewView { summary: false, knowledge: false };
    assert_eq!(preview_key(v, Some('s')), (PreviewView { summary: true, knowledge: false }, PreviewAction::LoadSummary));
    assert_eq!(preview_key(v, Some('k')), (PreviewView { summary: false, knowledge: true }, PreviewAction::LoadKnowledge));
    let k = PreviewView { summary: true, knowledge: true };
    assert_eq!(preview_key(k, Some('k')), (PreviewView { summary: true, knowledge: false }, PreviewAction::LoadSummary));
    assert_eq!(preview_key(k, Some('c')), (k, PreviewAction::ClearKnowledge));
    assert_eq!(preview_key(v, Some('b')), (v, PreviewAction::Rollback));
    assert_eq!(preview_key(k, None), (v, PreviewAction::Close));
}

#[test]
fn start_preview_names_the_session() {
    let mut a = app();
    let row = a.store.tree.iter().position(|n| matches!(n, TreeNode::Session(_, 0))).unwrap();
    a.store.selected = Some(row);
    assert!(!a.start_preview(false));
    assert_eq!(a.status, "No preview available.");
    assert!(a.start_preview(true));
    assert_eq!(a.input_mode, InputMode::SessionPreview);
    assert_eq!(a.status, "Preview: fix bug (s=summary  k=knowledge  any key=close)");
}

#[test]
fn plain_search_finds_each_occurrence() {
    let lines = vec!["abc ABC abc".to_string(), "none".to_string(), "aBc".to_string()];
    assert_eq!(
        find_in_lines(&lines, "abc", false, false),
        vec![
            Hit { row: 0, col: 0, len: 3 },
            Hit { row: 0, col: 4, len: 3 },
            Hit { row: 0, col: 8, len: 3 },
            Hit { row: 2, col: 0, len: 3 },
        ]
    );
    assert_eq!(find_in_lines(&lines, "abc", false, true).len(), 2);
    assert!(find_in_lines(&lines, "", false, false).is_empty());
}

#[test]
fn regex_search_uses_character_columns() {
    let lines = vec!["é err42 ERR7".to_string()];
    assert_eq!(
        find_in_lines(&lines, "err[0-9]+", true, false),
        vec![Hit { row: 0, col: 2, len: 5 }, Hit { row: 0, col: 8, len: 4 }]
    );
    assert_eq!(find_in_lines(&lines, "err[0-9]+", true, true), vec![Hit { row: 0, col: 2, len: 5 }]);
    assert!(find_in_lines(&lines, "(", true, true).is_empty());
}

#[test]
fn search_bar_texts() {
    assert_eq!(search_bar("", 0, 0, false, false), " Search:_");
    assert_eq!(search_bar("x", 0, 0, true, false), " Search: x (no matches) [REGEX]");
    assert_eq!(search_bar("x", 1, 3, true, true), " Search: x (2/3) [REGEX] [CASE]");
}

#[test]
fn scrollback_keys_edit_navigate_and_toggle() {
    let mut a = app();
    a.input_mode = InputMode::ScrollbackSearch;
    let e = a.handle_scrollback_key(KeyPress::plain(KeyCode::Char('e')));
    assert!(matches!(e, Effect::RunScrollSearch));
    assert_eq!(a.scrollback_query, "e");
    for _ in 0..300 {
        a.handle_scrollback_key(KeyPress::plain(KeyCode::Char('x')));
    }
    assert_eq!(a.scrollback_query.len(), 200);
    a.handle_scrollback_key(KeyPress::plain(KeyCode::Backspace));
    assert_eq!(a.scrollback_query.len(), 199);
    a.handle_scrollback_key(KeyPress { code: KeyCode::Char('r'), ctrl: true, alt: false, shift: false });
    assert!(a.scrollback.regex);
    a.handle_scrollback_key(KeyPress { code: KeyCode::Char('e'), ctrl: true, alt: false, shift: false });
    assert!(a.scrollback.case_sensitive);
    a.set_scrollback_hits(3);
    a.handle_scrollback_key(KeyPress::plain(KeyCode::Up));
    assert_eq!(a.scrollback.current, 2);
    a.handle_scrollback_key(KeyPress::plain(KeyCode::Enter));
    assert_eq!(a.scrollback.current, 0);
    a.handle_scrollback_key(KeyPress::plain(KeyCode::Esc));
    assert_eq!(a.input_mode, InputMode::Normal);
}

#[test]
fn chat_title_names_the_focused_tab() {
    let tabs = vec![
        ActiveTab { workspace_path: "/w".into(), session_id: None, agent: Agent::Codex, title: "one".into() },
        ActiveTab { workspace_path: "/w".into(), session_id: None, agent: Agent::Cc, title: "two".into() },
    ];
    assert_eq!(chat_title(&tabs, Some(1), 0), " two [CC] (2/2)");
    assert_eq!(chat_title(&tabs, Some(0), 12), " one [Codex] (1/2) [\u{2191}12 PgDn:bottom]");
    assert_eq!(chat_title(&tabs, None, 0), " Agent ");
}
