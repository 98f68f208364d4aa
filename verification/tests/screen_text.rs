use amux::screen::{
    agent_header_row, archived_header_row, archived_row, group_row, match_count_text, search_prompt, session_row,
    budget_status_text, comparison_lines, help_lines, keybind_title, keybind_view_lines, settings_lines, sidebar_title, stats_popup, status_left, status_right, tab_bar, tab_row, warning_row, workspace_row, Emph, Piece, RowText, Tone,
};
use amux::keybinds::Keybinds;
use amux::screen::placeholder_lines;
use amux::sidebar::{ActiveTab, SessionStore, TreeEnv, ViewFilters};
use amux::state::{AppState, MenuCounts};
use amux::types::{Focus, TreeNode};
use amux::chain::ActiveChain;
use amux::stats::AgentStats;
use amux::budget::TokenLimits;
use amux::state::TabRunState;
use amux::types::{Agent, DiffSummary, Session, SortMode, Workspace};

fn session(id: &str, title: &str, pinned: bool) -> Session {
    Session {
        id: id.into(),
        workspace_path: "/w".into(),
        title: title.into(),
        last_active: 0,
        agent: Agent::Codex,
        tags: Vec::new(),
        pinned,
        last_message: None,
    }
}

fn texts(ps: &[Piece]) -> Vec<String> {
    ps.iter().map(|p| p.text.clone()).collect()
}

fn line(ps: &[Piece]) -> String {
    ps.iter().map(|p| p.text.as_str()).collect()
}

fn filters(agent: Option<Agent>, tag: Option<&str>, query: Option<&str>) -> ViewFilters {
    ViewFilters {
        sort_mode: SortMode::TimeDesc,
        agent_filter: agent,
        tag_filter: tag.map(|t| t.to_string()),
        search_query: query.map(|q| q.to_string()),
    }
}

fn diff(files: usize, ins: u32, del: u32) -> DiffSummary {
    DiffSummary {
        files_changed: (0..files).map(|i| format!("f{i}.rs")).collect(),
        insertions: ins,
        deletions: del,
        summary_line: None,
    }
}

#[test]
fn title_without_filters() {
    let t = sidebar_title(false, &filters(None, None, None));
    assert_eq!(t, " Workspaces [sort: time (newest first)] ");
}

#[test]
fn title_with_every_filter_while_searching() {
    let t = sidebar_title(true, &filters(Some(Agent::Codex), Some("bug"), Some("auth")));
    assert_eq!(t, " [Codex] [search: auth] [tag: bug] [sort: time (newest first)] ");
}

#[test]
fn title_with_agent_and_tag_not_searching() {
    let t = sidebar_title(false, &filters(Some(Agent::Omp), Some("ui"), Some("ignored")));
    assert_eq!(t, " [OMP] [tag: ui] Workspaces [sort: time (newest first)] ");
}

#[test]
fn title_searching_without_a_query() {
    let t = sidebar_title(true, &filters(None, None, None));
    assert_eq!(t, " [search: ] [sort: time (newest first)] ");
}

#[test]
fn match_counts_are_pluralised() {
    assert_eq!(match_count_text(0), "0 matches");
    assert_eq!(match_count_text(1), "1 match");
    assert_eq!(match_count_text(12), "12 matches");
}

#[test]
fn search_prompt_pieces() {
    let p = search_prompt("fix", 3);
    assert_eq!(texts(&p), vec![" search: ", "fix", "|", " 3 matches"]);
    assert_eq!(p[0].tone, Tone::Accent);
    assert_eq!(p[0].emph, Emph::Bold);
    assert_eq!(p[3].tone, Tone::Dim);
}

#[test]
fn pinned_group_counts_pinned_sessions() {
    let mut store = SessionStore::new(Vec::new(), vec![session("a", "A", true), session("b", "B", false), session("c", "C", true)]);
    store.pinned_expanded = true;
    let r: RowText = group_row(&store, true);
    assert_eq!(texts(&r.head), vec!["\u{25bc} \u{1f4cc} ", "Pinned"]);
    assert_eq!(texts(&r.detail), vec!["   2 pinned sessions"]);
}

#[test]
fn recent_group_uses_recent_count() {
    let mut store = SessionStore::new(Vec::new(), Vec::new());
    store.recent_count = 7;
    let r = group_row(&store, false);
    assert_eq!(line(&r.head), "\u{25b6} \u{1f550} Recent");
    assert_eq!(line(&r.detail), "   7 recent sessions");
}

#[test]
fn workspace_rows_for_directory_and_virtual() {
    let wss = vec![
        Workspace { id: "1".into(), name: "api".into(), path: Some("/src/api".into()), created_at: 0, expanded: true },
        Workspace { id: "2".into(), name: "notes".into(), path: None, created_at: 0, expanded: false },
    ];
    let mut store = SessionStore::new(wss, Vec::new());
    store.ws_session_map = vec![vec![0, 1, 2]];
    let a = workspace_row(&store, 0);
    assert_eq!(texts(&a.head), vec!["\u{25bc} \u{25c6} ", "api"]);
    assert_eq!(a.head[0].tone, Tone::Selected);
    assert_eq!(a.head[1].emph, Emph::Bold);
    assert_eq!(line(&a.detail), "   3 sessions \u{b7} /src/api");
    let b = workspace_row(&store, 1);
    assert_eq!(texts(&b.head), vec!["\u{25b6} \u{25c7} ", "notes"]);
    assert_eq!(b.head[0].tone, Tone::Highlight);
    assert_eq!(line(&b.detail), "   0 sessions \u{b7} virtual");
}

#[test]
fn idle_session_row() {
    let s = session("0123456789ab", "Refactor parser", false);
    let r = session_row(&s, false, None, false, 40, "5m ago", None);
    assert_eq!(texts(&r.head), vec!["  ", " \u{2591}", " [Codex]", " ", "Refactor parser"]);
    assert_eq!(r.head[2].tone, Tone::AgentColor(Agent::Codex));
    assert_eq!(line(&r.detail), "   5m ago (01234567)");
}

#[test]
fn finished_marked_pinned_session_row_with_note() {
    let s = session("abc", "Ship it", true);
    let d = diff(2, 10, 3);
    let r = session_row(&s, true, Some(TabRunState::Completed), true, 40, "now", Some(&d));
    assert_eq!(
        texts(&r.head),
        vec!["\u{2611} ", " \u{258c}", " [Codex]", " ", "Ship it", " \u{1f4cc}", " \u{1f4dd}"]
    );
    assert_eq!(r.head[1].tone, Tone::Done);
    assert_eq!(line(&r.detail), "   now (abc) \u{b7} done \u{b7} +10/-3 2f");
}

#[test]
fn running_session_row_hides_diff() {
    let s = session("abc", "Ship it", false);
    let d = diff(2, 10, 3);
    let r = session_row(&s, false, Some(TabRunState::Running), false, 40, "now", Some(&d));
    assert_eq!(r.head[1].tone, Tone::Running);
    assert_eq!(line(&r.detail), "   now (abc) \u{b7} running");
}

#[test]
fn session_row_title_is_cut_to_sidebar_width() {
    let s = session("abc", "A very long session title indeed", false);
    let r = session_row(&s, false, None, false, 20, "now", None);
    // 20 - 14 is below the minimum of 12 bytes.
    assert_eq!(r.head[4].text, "A very lo...");
}

#[test]
fn tab_rows_by_state() {
    let running = tab_row("New Session", Agent::Cc, false, &diff(0, 0, 0));
    assert_eq!(texts(&running.head), vec!["  \u{258c} ", "New Session", " [running]", " [CC]"]);
    assert_eq!(line(&running.detail), "     waiting for session file...");
    let clean = tab_row("T", Agent::Cc, true, &diff(0, 0, 0));
    assert_eq!(clean.head[2].text, " \u{2714} done");
    assert_eq!(line(&clean.detail), "     no changes detected");
    let changed = tab_row("T", Agent::Gsd, true, &diff(3, 42, 7));
    assert_eq!(texts(&changed.detail), vec!["     ", "+42", "/", "-7", " in 3 file(s)"]);
    assert_eq!(changed.detail[1].tone, Tone::Added);
    assert_eq!(changed.detail[3].tone, Tone::Removed);
}

#[test]
fn one_line_rows() {
    let w = warning_row("path missing");
    assert_eq!(line(&w.head), "  \u{26a0} path missing");
    assert!(w.detail.is_empty());
    let h = agent_header_row(Agent::Omp);
    assert_eq!(line(&h.head), "  \u{2500}\u{2500} OMP \u{2500}\u{2500}");
    assert_eq!(h.head[0].emph, Emph::Faint);
    let mut store = SessionStore::new(Vec::new(), Vec::new());
    store.archived_sessions = vec![session("x", "X", false), session("y", "Y", false)];
    assert_eq!(line(&archived_header_row(&store).head), "  \u{25b6} Archived (2)");
}

#[test]
fn archived_session_row_text() {
    let s = session("0123456789", "Old work", false);
    let r = archived_row(&s, "3d ago");
    assert_eq!(texts(&r.head), vec![" \u{25cb} ", "3d ago", " (01234567)", " [Codex]"]);
    assert_eq!(r.head[3].emph, Emph::Faint);
    assert_eq!(line(&r.detail), "     Old work");
}

fn panel_state(tabs: Vec<ActiveTab>) -> AppState {
    let wss = vec![
        Workspace { id: "w".into(), name: "api".into(), path: Some("/src/api".into()), created_at: 0, expanded: true },
    ];
    let mut s = session("sess-1", "Fix login", false);
    s.workspace_path = "/src/api".into();
    s.tags = vec!["auth".into(), "bug".into()];
    let env = TreeEnv { now: 100, cwds: vec!["/src/api".into()], path_exists: vec![true], tabs };
    AppState::new(
        SessionStore::new(wss, vec![s]),
        env,
        Keybinds::default_binds(),
        MenuCounts { templates: 0, plugins: 0, automations: 0, chains: 0 },
    )
}

fn panel_text(st: &AppState, relative: &str) -> Vec<String> {
    texts(&placeholder_lines(st, relative))
}

const FOOTER: [&str; 5] = [
    "",
    "\u{2500}\u{2500} Alt+S \u{2192} Keybindings for full list \u{2500}\u{2500}",
    "  Enter     New / Resume / Switch",
    "  Alt+K/Alt+J  Navigate",
    "  Alt+Q     Quit",
];

#[test]
fn panel_without_selection() {
    let mut st = panel_state(Vec::new());
    st.store.selected = None;
    let mut want = vec!["No selection".to_string()];
    want.extend(FOOTER.iter().map(|s| s.to_string()));
    assert_eq!(panel_text(&st, ""), want);
}

#[test]
fn panel_for_a_workspace() {
    let mut st = panel_state(Vec::new());
    let row = st.store.tree.iter().position(|n| matches!(n, TreeNode::Workspace(0))).unwrap();
    st.store.selected = Some(row);
    let lines = placeholder_lines(&st, "");
    assert_eq!(
        texts(&lines[..4]),
        vec!["api", "\u{25c6} /src/api", "", "Press Enter to start a new session"]
    );
    assert_eq!(lines[0].emph, Emph::Bold);
    assert_eq!(lines[1].tone, Tone::Done);
    assert_eq!(lines.len(), 9);
}

#[test]
fn panel_for_a_session_resume_or_switch() {
    let mut st = panel_state(Vec::new());
    let row = st.store.tree.iter().position(|n| matches!(n, TreeNode::Session(_, 0))).unwrap();
    st.store.selected = Some(row);
    assert_eq!(
        panel_text(&st, "2h ago")[..6].to_vec(),
        vec!["Fix login", "ID: sess-1", "Last active: 2h ago", "Tags: auth, bug", "", "Press Enter to resume this session"]
    );
    st.env.tabs.push(ActiveTab {
        workspace_path: "/src/api".into(),
        session_id: Some("sess-1".into()),
        agent: Agent::Codex,
        title: "Fix login".into(),
    });
    assert_eq!(panel_text(&st, "2h ago")[5], "This session is already running - Enter to switch to it");
}

#[test]
fn tab_bar_hidden_when_no_ptys() {
    let st = panel_state(Vec::new());
    let bar = tab_bar(&st.env.tabs, &Vec::new(), st.active_tab, 80);
    assert!(bar.is_empty(), "tab bar should be empty when no tabs are open");
}

fn bar_tab(title: &str, agent: Agent) -> ActiveTab {
    ActiveTab { workspace_path: "/w".into(), session_id: None, agent, title: title.into() }
}

#[test]
fn tab_bar_raises_the_focused_tab() {
    let tabs = vec![bar_tab("first", Agent::Cc), bar_tab("a rather long second title", Agent::Codex)];
    let bar = tab_bar(&tabs, &vec![false, true], Some(0), 40);
    let text: Vec<(String, bool)> = bar.iter().map(|(p, r)| (p.text.clone(), *r)).collect();
    // Each tab gets 20 columns, 14 bytes of title.
    assert_eq!(
        text,
        vec![
            ("\u{258c}".to_string(), true),
            ("CC ".to_string(), true),
            ("first ".to_string(), true),
            ("\u{25cf}".to_string(), true),
            ("\u{2590}".to_string(), true),
            (" Codex ".to_string(), false),
            ("a rather lo... ".to_string(), false),
            ("\u{2714} ".to_string(), false),
            (" ".to_string(), false),
        ]
    );
    assert_eq!(bar[3].0.tone, Tone::Running);
    assert_eq!(bar[7].0.tone, Tone::Done);
    assert_eq!(bar[1].0.emph, Emph::Bold);
}

#[test]
fn status_bar_left_with_flashing_alert() {
    let lit_on = status_left("Saved.", Some("BUDGET"), true);
    assert_eq!(texts(&lit_on), vec!["Saved.", " BUDGET "]);
    assert_eq!(lit_on[1].tone, Tone::Alarm);
    assert_eq!(lit_on[1].emph, Emph::Bold);
    let lit_off = status_left("", Some("BUDGET"), false);
    assert_eq!(lit_off[1].tone, Tone::Error);
    assert_eq!(texts(&status_left("ok", None, true)), vec!["ok"]);
}

#[test]
fn status_bar_right_shows_chain_step_and_focus() {
    let chain = Some(ActiveChain {
        chain_name: "review".into(),
        current_step: 1,
        total_steps: 3,
        workspace_path: "/w".into(),
        prev_output: None,
    });
    assert_eq!(texts(&status_right(&chain, Focus::Sidebar)), vec![" 2/3 ", " \u{25c2} SIDEBAR "]);
    assert_eq!(texts(&status_right(&None, Focus::Chat)), vec![" CHAT \u{25b8} "]);
}

#[test]
fn stats_popup_table() {
    let stats = vec![
        AgentStats { agent: Agent::Cc, total_sessions: 12, active_sessions: 1, completed_sessions: 2 },
        AgentStats { agent: Agent::Codex, total_sessions: 0, active_sessions: 0, completed_sessions: 0 },
        AgentStats { agent: Agent::Omp, total_sessions: 3, active_sessions: 0, completed_sessions: 0 },
    ];
    let lines: Vec<String> = stats_popup(&stats, 2, 1).iter().map(|l| line(l)).collect();
    assert_eq!(
        lines,
        vec![
            " Total Sessions: 15   Active: 1".to_string(),
            String::new(),
            " Agent            Sessions   Active   Done".to_string(),
            format!(" {}", "\u{2500}".repeat(41)),
            " CC                12         1        2".to_string(),
            " OMP                3         0        0".to_string(),
            String::new(),
            " Workspaces: 2   Tabs: 1".to_string(),
        ]
    );
    let table = stats_popup(&stats, 2, 1);
    assert_eq!(table[4][2].tone, Tone::Done);
    assert_eq!(table[5][2].tone, Tone::Dim);
    assert_eq!(table[0][1].emph, Emph::Bold);
}

#[test]
fn keybind_view_lists_bindings_then_fixed_keys() {
    let kb = Keybinds::default_binds();
    let lines = keybind_view_lines(&kb);
    let n = kb.display_lines().len();
    assert_eq!(lines[0].text, "  Configurable (edit config.json to customize)");
    assert_eq!(lines[0].tone, Tone::Heading);
    assert_eq!(lines[2].text, format!("  {}", kb.display_lines()[0]));
    assert_eq!(lines[2 + n + 1].text, "  Navigation");
    assert_eq!(lines.last().unwrap().text, "  \u{2191}/\u{2193} or j/k scroll \u{b7} Alt+h/Alt+l cycle panels \u{b7} Esc close");
    assert!(!lines.iter().any(|p| p.text.contains("Conflicts")));
}

#[test]
fn keybind_view_shows_conflicts() {
    let mut kb = Keybinds::default_binds();
    kb.move_down = kb.move_up;
    let lines = keybind_view_lines(&kb);
    let at = lines.iter().position(|p| p.text == "  \u{26a0} Conflicts:").expect("conflict heading");
    assert_eq!(lines[at].tone, Tone::Error);
    assert_eq!(lines[at + 1].text, "    move_up <-> move_down");
}

#[test]
fn keybind_scroll_is_clamped_to_the_lines() {
    let mut st = panel_state(Vec::new());
    st.keybind_scroll = 9999;
    st.clamp_keybind_scroll(60, 17);
    assert_eq!(st.keybind_scroll, 43);
    st.clamp_keybind_scroll(10, 17);
    assert_eq!(st.keybind_scroll, 0);
    assert_eq!(keybind_title(43, 17, 60), " Keybindings (60/60) ");
    assert_eq!(keybind_title(0, 17, 10), " Keybindings (10/10) ");
}

#[test]
fn budget_status_lines() {
    let none = TokenLimits { daily_tokens: None, weekly_tokens: None };
    assert_eq!(budget_status_text(false, &none, None, None), "Budget: not set (b to set default 100k daily)");
    let daily = TokenLimits { daily_tokens: Some(200_000), weekly_tokens: None };
    assert_eq!(
        budget_status_text(true, &daily, Some(&format!("${:.2}", 5.50)), None),
        "Budget: 200k daily tokens, $5.50 daily cost (b to clear)"
    );
    let both = TokenLimits { daily_tokens: Some(1_500), weekly_tokens: Some(700_000) };
    assert_eq!(
        budget_status_text(true, &both, None, Some("$40.00")),
        "Budget: 1k daily tokens, 700k weekly tokens, $40.00 weekly cost (b to clear)"
    );
}

#[test]
fn settings_panel_marks_last_workspace() {
    let wss = vec![
        Workspace { id: "1".into(), name: "api".into(), path: Some("/src/api".into()), created_at: 0, expanded: true },
        Workspace { id: "2".into(), name: "notes".into(), path: None, created_at: 0, expanded: true },
    ];
    let lines: Vec<String> = settings_lines(&wss, "Budget: x").iter().map(|l| line(l)).collect();
    assert_eq!(
        lines,
        vec![
            "  Workspaces".to_string(),
            String::new(),
            "   api  /src/api".to_string(),
            " > notes  virtual".to_string(),
            String::new(),
            "  Actions: add  rename  keybinds  themes  budget  Esc close".to_string(),
            String::new(),
            "  Budget: x ".to_string(),
            "  (targets last workspace in list)".to_string(),
        ]
    );
}

#[test]
fn help_popup_lists_sidebar_keys() {
    let kb = Keybinds::default_binds();
    let lines: Vec<String> = help_lines(&kb).iter().map(|l| line(l)).collect();
    assert_eq!(lines[0], "  Sidebar Keybindings");
    assert_eq!(lines[2], "  Alt+K/Alt+J    Move selection");
    assert_eq!(lines[lines.len() - 3], "  Full list: Alt+S \u{2192} Keybindings");
    assert_eq!(lines[lines.len() - 1], "  Press any key to close");
    assert_eq!(lines.len(), 2 + kb.help_sidebar_pairs().len() + 8);
}

#[test]
fn comparison_of_two_sessions() {
    let mut a = session("a", "first", false);
    a.last_message = Some("one\ntwo".into());
    let b = session("b", "second", false);
    assert_eq!(comparison_lines(&a, &b), vec!["< first", "- one", "- two", "> second"]);
}
