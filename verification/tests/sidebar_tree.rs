use amux::keybinds::Keybinds;
use amux::ordering::sort_session_indices;
use amux::search::session_fuzzy_score;
use amux::sidebar::{
    archive_old_sessions, drop_ignored_sessions, move_sel, rebuild_tree, selected_node, ActiveTab, IgnoreRule, SessionStore, TreeEnv,
};
use amux::state::{AppState, MenuCounts};
use amux::types::{Agent, Session, SortMode, TreeNode, Workspace};

const NOW: u64 = 1_700_000_000;

fn ws(id: &str, name: &str, path: &str) -> Workspace {
    Workspace { id: id.into(), name: name.into(), path: Some(path.into()), created_at: 1000, expanded: true }
}

fn sess_full(id: &str, title: &str, ws_path: &str, last_active: u64, agent: Agent) -> Session {
    Session {
        id: id.into(),
        workspace_path: ws_path.into(),
        title: title.into(),
        last_active,
        agent,
        tags: Vec::new(),
        pinned: false,
        last_message: None,
    }
}

fn sess(id: &str, title: &str, ws_path: &str) -> Session {
    sess_full(id, title, ws_path, 1000, Agent::Cc)
}

fn sess_with_agent(id: &str, title: &str, ws_path: &str, agent: Agent) -> Session {
    sess_full(id, title, ws_path, 1000, agent)
}

fn sess_with_time(id: &str, title: &str, ws_path: &str, last_active: u64) -> Session {
    sess_full(id, title, ws_path, last_active, Agent::Cc)
}

/// Paths of these tests that exist on disk.
fn on_disk(path: &str) -> bool {
    path == "/tmp" || path.starts_with("/tmp/amux_test_")
}

fn env_for(workspaces: &[Workspace], now: u64) -> TreeEnv {
    TreeEnv {
        now,
        cwds: workspaces.iter().map(|w| w.path.clone().unwrap_or_default()).collect(),
        path_exists: workspaces.iter().map(|w| w.path.as_deref().map(on_disk).unwrap_or(true)).collect(),
        tabs: Vec::new(),
    }
}

fn test_app(workspaces: Vec<Workspace>, sessions: Vec<Session>) -> AppState {
    let env = env_for(&workspaces, NOW);
    AppState::new(
        SessionStore::new(workspaces, sessions),
        env,
        Keybinds::default_binds(),
        MenuCounts { templates: 0, plugins: 0, automations: 0, chains: 0 },
    )
}

fn rebuild(app: &mut AppState) {
    app.rebuild();
}

// ─── session_fuzzy_score ───

#[test]
fn fuzzy_score_exact_match() {
    assert!(session_fuzzy_score("fix bug", "", "fix bug"));
}

#[test]
fn fuzzy_score_substring_match() {
    assert!(session_fuzzy_score("fix login bug", "", "fix"));
}

#[test]
fn fuzzy_score_fuzzy_chars() {
    assert!(session_fuzzy_score("fix login bug", "", "fxlb"));
}

#[test]
fn fuzzy_score_no_match() {
    assert!(!session_fuzzy_score("hello world", "", "zzzzz"));
}

#[test]
fn fuzzy_score_matches_short_id() {
    assert!(session_fuzzy_score("unrelated title", "abc12345", "abc"));
}

#[test]
fn fuzzy_score_empty_query() {
    assert!(!session_fuzzy_score("some title", "", ""));
}

// ─── filtering ───

#[test]
fn filter_returns_matching_sessions() {
    let workspaces = vec![ws("w1", "Project", "/tmp")];
    let sessions = vec![
        sess("s1-aaa111", "fix login", "/tmp"),
        sess("s2-bbb222", "add feature", "/tmp"),
        sess("s3-ccc333", "fix logout", "/tmp"),
    ];
    let mut app = test_app(workspaces, sessions);
    app.filters.search_query = Some("fix".into());
    rebuild(&mut app);
    assert_eq!(app.store.tree.len(), 3, "expected workspace + 2 matching sessions");
    assert!(matches!(app.store.tree[0], TreeNode::Workspace(0)));
    assert!(matches!(app.store.tree[1], TreeNode::Session(0, 0)));
    assert!(matches!(app.store.tree[2], TreeNode::Session(0, 2)));
}

#[test]
fn filter_empty_query_shows_all() {
    let workspaces = vec![ws("w1", "Project", "/tmp")];
    let sessions = vec![sess("s1", "first", "/tmp"), sess("s2", "second", "/tmp")];
    let app = test_app(workspaces, sessions);
    assert_eq!(app.store.tree.len(), 3, "expected workspace + 2 sessions");
}

#[test]
fn filter_no_matches_empty_tree() {
    let workspaces = vec![ws("w1", "Project", "/tmp")];
    let sessions = vec![sess("s1", "hello", "/tmp")];
    let mut app = test_app(workspaces, sessions);
    app.filters.search_query = Some("zzzzz".into());
    rebuild(&mut app);
    assert!(app.store.tree.is_empty(), "no matches should yield empty tree");
}

#[test]
fn filter_selection_clamped() {
    let workspaces = vec![ws("w1", "Project", "/tmp")];
    let sessions = vec![sess("s1", "alpha", "/tmp"), sess("s2", "beta", "/tmp"), sess("s3", "gamma", "/tmp")];
    let mut app = test_app(workspaces, sessions);
    app.store.selected = Some(3);
    app.filters.search_query = Some("beta".into());
    rebuild(&mut app);
    let sel = app.store.selected;
    assert!(sel.is_some(), "selection must exist when tree is non-empty");
    let idx = sel.unwrap();
    assert!(idx < app.store.tree.len(), "selection ({}) must be < tree len ({})", idx, app.store.tree.len());
}

#[test]
fn filter_restores_all_on_clear() {
    let workspaces = vec![ws("w1", "Project", "/tmp")];
    let sessions = vec![sess("s1", "fix bug", "/tmp"), sess("s2", "add feature", "/tmp")];
    let mut app = test_app(workspaces, sessions);
    app.filters.search_query = Some("fix".into());
    rebuild(&mut app);
    assert_eq!(app.store.tree.len(), 2, "workspace + 1 matching session");
    app.filters.search_query = None;
    rebuild(&mut app);
    assert_eq!(app.store.tree.len(), 3, "workspace + all sessions restored");
}

#[test]
fn filter_workspaces_independently() {
    let pa = "/tmp/amux_test_alpha";
    let pb = "/tmp/amux_test_beta";
    let workspaces = vec![ws("w1", "Alpha", pa), ws("w2", "Beta", pb)];
    let sessions = vec![sess("s1", "fix alpha bug", pa), sess("s2", "fix beta bug", pb)];
    let mut app = test_app(workspaces, sessions);
    assert_eq!(app.store.tree.len(), 4, "2 workspaces + 2 sessions");
    app.filters.search_query = Some("beta".into());
    rebuild(&mut app);
    assert_eq!(app.store.tree.len(), 2, "workspace Beta + 1 matching session");
    assert!(matches!(app.store.tree[0], TreeNode::Workspace(1)));
    assert!(matches!(app.store.tree[1], TreeNode::Session(1, 1)));
}

// ─── agent filter ───

#[test]
fn agent_filter_shows_only_matching_sessions() {
    let workspaces = vec![ws("w1", "Project", "/tmp")];
    let sessions = vec![
        sess_with_agent("s1", "cc task", "/tmp", Agent::Cc),
        sess_with_agent("s2", "codex task", "/tmp", Agent::Codex),
        sess_with_agent("s3", "omp task", "/tmp", Agent::Omp),
    ];
    let mut app = test_app(workspaces, sessions);
    app.filters.agent_filter = Some(Agent::Cc);
    rebuild(&mut app);
    assert_eq!(app.store.tree.len(), 2, "workspace + 1 CC session");
    assert!(matches!(app.store.tree[0], TreeNode::Workspace(0)));
    assert!(matches!(app.store.tree[1], TreeNode::Session(0, 0)));
}

#[test]
fn agent_filter_hides_non_matching_sessions() {
    let workspaces = vec![ws("w1", "Project", "/tmp")];
    let sessions = vec![
        sess_with_agent("s1", "cc task", "/tmp", Agent::Cc),
        sess_with_agent("s2", "codex task", "/tmp", Agent::Codex),
    ];
    let mut app = test_app(workspaces, sessions);
    assert_eq!(app.store.tree.len(), 3, "workspace + 2 sessions unfiltered");
    app.filters.agent_filter = Some(Agent::Omp);
    rebuild(&mut app);
    assert_eq!(app.store.tree.len(), 1, "workspace header present, no matching sessions listed");
    assert!(matches!(app.store.tree[0], TreeNode::Workspace(0)));
}

#[test]
fn agent_filter_combined_with_text_search() {
    let workspaces = vec![ws("w1", "Project", "/tmp")];
    let sessions = vec![
        sess_with_agent("s1", "fix bug", "/tmp", Agent::Cc),
        sess_with_agent("s2", "fix bug", "/tmp", Agent::Codex),
        sess_with_agent("s3", "add feature", "/tmp", Agent::Cc),
        sess_with_agent("s4", "fix bug", "/tmp", Agent::Omp),
    ];
    let mut app = test_app(workspaces, sessions);
    app.filters.agent_filter = Some(Agent::Cc);
    app.filters.search_query = Some("fix".into());
    rebuild(&mut app);
    assert_eq!(app.store.tree.len(), 2, "workspace + 1 CC session matching 'fix'");
    assert!(matches!(app.store.tree[1], TreeNode::Session(0, 0)));
}

#[test]
fn toggle_same_agent_key_clears_filter() {
    let workspaces = vec![ws("w1", "Project", "/tmp")];
    let sessions = vec![
        sess_with_agent("s1", "task a", "/tmp", Agent::Cc),
        sess_with_agent("s2", "task b", "/tmp", Agent::Omp),
    ];
    let mut app = test_app(workspaces, sessions);
    app.toggle_agent_filter(Agent::Cc);
    assert_eq!(app.filters.agent_filter, Some(Agent::Cc));
    assert_eq!(app.store.tree.len(), 2, "workspace + 1 CC session");
    app.toggle_agent_filter(Agent::Cc);
    assert_eq!(app.filters.agent_filter, None);
    assert_eq!(app.store.tree.len(), 3, "workspace + all 2 sessions restored");
}

// ─── sort modes ───

#[test]
fn sort_mode_cycles_through_all_variants() {
    let start = SortMode::TimeDesc;
    let mut mode = start;
    let mut visited = vec![mode];
    for _ in 0..4 {
        mode = mode.next();
        visited.push(mode);
    }
    let wrapped = mode.next();
    assert_eq!(wrapped, start, "sort mode should wrap to TimeDesc");
    assert_eq!(visited.len(), 5);
    assert!(visited.contains(&SortMode::TimeDesc));
    assert!(visited.contains(&SortMode::TimeAsc));
    assert!(visited.contains(&SortMode::NameAsc));
    assert!(visited.contains(&SortMode::NameDesc));
    assert!(visited.contains(&SortMode::AgentGroup));
}

#[test]
fn sort_mode_default_is_time_desc() {
    assert_eq!(SortMode::default(), SortMode::TimeDesc);
}

#[test]
fn sort_time_desc_newest_first() {
    let workspaces = vec![ws("w1", "Project", "/tmp")];
    let sessions = vec![
        sess_with_time("s1", "old", "/tmp", 100),
        sess_with_time("s2", "mid", "/tmp", 500),
        sess_with_time("s3", "new", "/tmp", 900),
    ];
    let mut app = test_app(workspaces, sessions);
    app.filters.sort_mode = SortMode::TimeDesc;
    rebuild(&mut app);
    assert!(matches!(app.store.tree[0], TreeNode::Workspace(0)));
    assert!(matches!(app.store.tree[1], TreeNode::Session(0, 2)));
    assert!(matches!(app.store.tree[2], TreeNode::Session(0, 1)));
    assert!(matches!(app.store.tree[3], TreeNode::Session(0, 0)));
}

#[test]
fn sort_time_asc_oldest_first() {
    let workspaces = vec![ws("w1", "Project", "/tmp")];
    let sessions = vec![
        sess_with_time("s1", "old", "/tmp", 100),
        sess_with_time("s2", "mid", "/tmp", 500),
        sess_with_time("s3", "new", "/tmp", 900),
    ];
    let mut app = test_app(workspaces, sessions);
    app.filters.sort_mode = SortMode::TimeAsc;
    rebuild(&mut app);
    assert!(matches!(app.store.tree[0], TreeNode::Workspace(0)));
    assert!(matches!(app.store.tree[1], TreeNode::Session(0, 0)));
    assert!(matches!(app.store.tree[2], TreeNode::Session(0, 1)));
    assert!(matches!(app.store.tree[3], TreeNode::Session(0, 2)));
}

#[test]
fn sort_name_asc_alphabetical() {
    let workspaces = vec![ws("w1", "Project", "/tmp")];
    let sessions = vec![sess("s1", "Charlie", "/tmp"), sess("s2", "alpha", "/tmp"), sess("s3", "Bravo", "/tmp")];
    let mut app = test_app(workspaces, sessions);
    app.filters.sort_mode = SortMode::NameAsc;
    rebuild(&mut app);
    assert!(matches!(app.store.tree[0], TreeNode::Workspace(0)));
    assert!(matches!(app.store.tree[1], TreeNode::Session(0, 1)));
    assert!(matches!(app.store.tree[2], TreeNode::Session(0, 2)));
    assert!(matches!(app.store.tree[3], TreeNode::Session(0, 0)));
}

#[test]
fn sort_name_desc_reverse_alphabetical() {
    let workspaces = vec![ws("w1", "Project", "/tmp")];
    let sessions = vec![sess("s1", "Charlie", "/tmp"), sess("s2", "alpha", "/tmp"), sess("s3", "Bravo", "/tmp")];
    let mut app = test_app(workspaces, sessions);
    app.filters.sort_mode = SortMode::NameDesc;
    rebuild(&mut app);
    assert!(matches!(app.store.tree[0], TreeNode::Workspace(0)));
    assert!(matches!(app.store.tree[1], TreeNode::Session(0, 0)));
    assert!(matches!(app.store.tree[2], TreeNode::Session(0, 2)));
    assert!(matches!(app.store.tree[3], TreeNode::Session(0, 1)));
}

#[test]
fn sort_agent_group_groups_by_agent() {
    let workspaces = vec![ws("w1", "Project", "/tmp")];
    let sessions = vec![
        sess_with_agent("s1", "task 1", "/tmp", Agent::Omp),
        sess_with_agent("s2", "task 2", "/tmp", Agent::Cc),
        sess_with_agent("s3", "task 3", "/tmp", Agent::Codex),
    ];
    let mut app = test_app(workspaces, sessions);
    app.filters.sort_mode = SortMode::AgentGroup;
    rebuild(&mut app);
    assert!(matches!(app.store.tree[0], TreeNode::Workspace(0)));
    assert!(matches!(app.store.tree[1], TreeNode::AgentHeader(Agent::Cc)));
    assert!(matches!(app.store.tree[2], TreeNode::Session(0, 1)));
    assert!(matches!(app.store.tree[3], TreeNode::AgentHeader(Agent::Codex)));
    assert!(matches!(app.store.tree[4], TreeNode::Session(0, 2)));
    assert!(matches!(app.store.tree[5], TreeNode::AgentHeader(Agent::Omp)));
    assert!(matches!(app.store.tree[6], TreeNode::Session(0, 0)));
}

#[test]
fn sort_agent_group_omits_empty_groups() {
    let workspaces = vec![ws("w1", "Project", "/tmp")];
    let sessions = vec![
        sess_with_agent("s1", "task 1", "/tmp", Agent::Cc),
        sess_with_agent("s2", "task 2", "/tmp", Agent::Cc),
    ];
    let mut app = test_app(workspaces, sessions);
    app.filters.sort_mode = SortMode::AgentGroup;
    rebuild(&mut app);
    assert_eq!(app.store.tree.len(), 4, "workspace + header + 2 sessions");
    assert!(matches!(app.store.tree[0], TreeNode::Workspace(0)));
    assert!(matches!(app.store.tree[1], TreeNode::AgentHeader(Agent::Cc)));
    assert!(matches!(app.store.tree[2], TreeNode::Session(0, 0)));
    assert!(matches!(app.store.tree[3], TreeNode::Session(0, 1)));
    for node in &app.store.tree {
        if let TreeNode::AgentHeader(a) = node {
            assert_eq!(*a, Agent::Cc, "only the CC header should appear");
        }
    }
}

#[test]
fn sort_with_active_filter() {
    let workspaces = vec![ws("w1", "Project", "/tmp")];
    let sessions = vec![
        sess_with_time("s1", "fix alpha", "/tmp", 100),
        sess_with_time("s2", "fix beta", "/tmp", 500),
        sess_with_time("s3", "add feature", "/tmp", 900),
    ];
    let mut app = test_app(workspaces, sessions);
    app.filters.search_query = Some("fix".into());
    app.filters.sort_mode = SortMode::TimeAsc;
    rebuild(&mut app);
    assert!(matches!(app.store.tree[0], TreeNode::Workspace(0)));
    assert!(matches!(app.store.tree[1], TreeNode::Session(0, 0)));
    assert!(matches!(app.store.tree[2], TreeNode::Session(0, 1)));
}

#[test]
fn agent_header_is_inert_for_activate() {
    let workspaces = vec![ws("w1", "Project", "/tmp")];
    let sessions = vec![
        sess_with_agent("s1", "task", "/tmp", Agent::Cc),
        sess_with_agent("s2", "task", "/tmp", Agent::Codex),
    ];
    let mut app = test_app(workspaces, sessions);
    app.filters.sort_mode = SortMode::AgentGroup;
    rebuild(&mut app);
    let header_idx = app
        .store
        .tree
        .iter()
        .position(|n| matches!(n, TreeNode::AgentHeader(_)))
        .expect("should have an AgentHeader");
    app.store.selected = Some(header_idx);
    let focus_before = app.focus;
    let mode_before = app.input_mode;
    let plan = app.plan_spawn(Agent::Cc, None);
    assert!(plan.is_none(), "activating an AgentHeader starts nothing");
    assert_eq!(app.focus, focus_before, "focus should not change");
    assert_eq!(app.input_mode, mode_before, "input_mode should not change");
}

#[test]
fn agent_header_is_inert_for_delete() {
    let workspaces = vec![ws("w1", "Project", "/tmp")];
    let sessions = vec![
        sess_with_agent("s1", "task", "/tmp", Agent::Cc),
        sess_with_agent("s2", "task", "/tmp", Agent::Codex),
    ];
    let mut app = test_app(workspaces, sessions);
    app.filters.sort_mode = SortMode::AgentGroup;
    rebuild(&mut app);
    let session_count_before = app.store.sessions.len();
    let tree_len_before = app.store.tree.len();
    let header_idx = app
        .store
        .tree
        .iter()
        .position(|n| matches!(n, TreeNode::AgentHeader(_)))
        .expect("should have an AgentHeader");
    app.store.selected = Some(header_idx);
    app.request_delete();
    assert_eq!(app.store.sessions.len(), session_count_before, "no session should be deleted");
    assert_eq!(app.store.tree.len(), tree_len_before, "tree should not change after deleting AgentHeader");
}

#[test]
fn sort_preserves_selection_clamping() {
    let workspaces = vec![ws("w1", "Project", "/tmp")];
    let sessions = vec![
        sess_with_time("s1", "old", "/tmp", 100),
        sess_with_time("s2", "mid", "/tmp", 500),
        sess_with_time("s3", "new", "/tmp", 900),
    ];
    let mut app = test_app(workspaces, sessions);
    app.store.selected = Some(3);
    assert_eq!(app.store.selected, Some(3));
    app.filters.sort_mode = SortMode::AgentGroup;
    rebuild(&mut app);
    let sel = app.store.selected;
    assert!(sel.is_some(), "selection must exist when tree non-empty");
    let idx = sel.unwrap();
    assert!(idx < app.store.tree.len(), "selection ({}) must be < tree len ({})", idx, app.store.tree.len());
}

// ─── archiving ───

fn archive(app: &mut AppState, now: u64) {
    let env = TreeEnv { now, ..env_for(&app.store.workspaces, now) };
    archive_old_sessions(&mut app.store, now, &Vec::new(), &app.filters, &env);
}

#[test]
fn archive_auto_filters_old_sessions() {
    let workspaces = vec![ws("w1", "Project", "/tmp")];
    let now = NOW;
    let old_time = now - 8 * 86400;
    let recent_time = now - 3600;
    let sessions = vec![
        sess_with_time("old1", "Old session", "/tmp", old_time),
        sess_with_time("new1", "Recent session", "/tmp", recent_time),
    ];
    let mut app = test_app(workspaces, sessions);
    app.store.archive_days = Some(7);
    archive(&mut app, now);
    assert_eq!(app.store.sessions.len(), 1);
    assert_eq!(app.store.sessions[0].id, "new1");
    assert_eq!(app.store.archived_sessions.len(), 1);
    assert_eq!(app.store.archived_sessions[0].id, "old1");
    assert!(app.store.tree.iter().all(|n| !matches!(n, TreeNode::ArchivedHeader | TreeNode::ArchivedSession(_, _))));
}

#[test]
fn archive_toggle_shows_archived_in_tree() {
    let workspaces = vec![ws("w1", "Project", "/tmp")];
    let now = NOW;
    let old_time = now - 8 * 86400;
    let sessions = vec![sess_with_time("old1", "Old", "/tmp", old_time)];
    let mut app = test_app(workspaces, sessions);
    app.store.archive_days = Some(7);
    archive(&mut app, now);
    assert_eq!(app.store.archived_sessions.len(), 1);
    app.store.show_archived = true;
    rebuild(&mut app);
    assert!(app.store.tree.iter().any(|n| matches!(n, TreeNode::ArchivedHeader)));
    assert!(app.store.tree.iter().any(|n| matches!(n, TreeNode::ArchivedSession(_, _))));
    app.store.show_archived = false;
    rebuild(&mut app);
    assert!(!app.store.tree.iter().any(|n| matches!(n, TreeNode::ArchivedHeader)));
}

#[test]
fn archive_restores_sessions_when_threshold_changes() {
    let workspaces = vec![ws("w1", "Project", "/tmp")];
    let now = NOW;
    let old_time = now - 5 * 86400;
    let sessions = vec![sess_with_time("s1", "Five days", "/tmp", old_time)];
    let mut app = test_app(workspaces, sessions);
    app.store.archive_days = Some(3);
    archive(&mut app, now);
    assert_eq!(app.store.archived_sessions.len(), 1);
    assert_eq!(app.store.sessions.len(), 0);
    app.store.archive_days = Some(7);
    archive(&mut app, now);
    assert_eq!(app.store.archived_sessions.len(), 0);
    assert_eq!(app.store.sessions.len(), 1);
    assert_eq!(app.store.sessions[0].id, "s1");
}

#[test]
fn archive_no_files_deleted() {
    let workspaces = vec![ws("w1", "Project", "/tmp")];
    let now = NOW;
    let old_time = now - 10 * 86400;
    let sessions = vec![sess_with_time("old1", "Old", "/tmp", old_time)];
    let mut app = test_app(workspaces, sessions);
    app.store.archive_days = Some(7);
    assert_eq!(app.store.sessions.len(), 1);
    archive(&mut app, now);
    assert_eq!(app.store.archived_sessions.len(), 1);
    assert_eq!(app.store.archived_sessions[0].id, "old1");
    assert_eq!(app.store.archived_sessions[0].title, "Old");
}

// ─── sort mode cycling, index sorting, selection ───

#[test]
fn cycle_sort_mode_cycles_through_all_variants() {
    let mut app = test_app(vec![], vec![]);
    assert_eq!(app.filters.sort_mode, SortMode::TimeDesc);
    app.cycle_sort_mode();
    assert_eq!(app.filters.sort_mode, SortMode::TimeAsc);
    assert!(app.status.contains("time"));
    app.cycle_sort_mode();
    assert_eq!(app.filters.sort_mode, SortMode::NameAsc);
    app.cycle_sort_mode();
    assert_eq!(app.filters.sort_mode, SortMode::NameDesc);
    app.cycle_sort_mode();
    assert_eq!(app.filters.sort_mode, SortMode::AgentGroup);
    app.cycle_sort_mode();
    assert_eq!(app.filters.sort_mode, SortMode::TimeDesc);
}

#[test]
fn sort_session_indices_orders_by_time_desc() {
    let app = test_app(
        vec![ws("w1", "ws", "/tmp/ws1")],
        vec![
            sess_with_time("s1", "alpha", "/tmp/ws1", 100),
            sess_with_time("s2", "bravo", "/tmp/ws1", 300),
            sess_with_time("s3", "charlie", "/tmp/ws1", 200),
        ],
    );
    let mut indices = vec![0, 1, 2];
    sort_session_indices(&app.store.sessions, SortMode::TimeDesc, &mut indices);
    assert_eq!(indices, vec![1, 2, 0]);
}

#[test]
fn sort_session_indices_orders_by_name_asc() {
    let app = test_app(
        vec![ws("w1", "ws", "/tmp/ws1")],
        vec![sess("s1", "charlie", "/tmp/ws1"), sess("s2", "alpha", "/tmp/ws1"), sess("s3", "bravo", "/tmp/ws1")],
    );
    let mut indices = vec![0, 1, 2];
    sort_session_indices(&app.store.sessions, SortMode::NameAsc, &mut indices);
    assert_eq!(indices, vec![1, 2, 0]);
}

#[test]
fn toggle_agent_filter_adds_and_removes() {
    let mut app = test_app(
        vec![ws("w1", "ws", "/tmp/ws1")],
        vec![
            sess_with_agent("s1", "a", "/tmp/ws1", Agent::Cc),
            sess_with_agent("s2", "b", "/tmp/ws1", Agent::Codex),
        ],
    );
    assert!(app.filters.agent_filter.is_none());
    app.toggle_agent_filter(Agent::Cc);
    assert_eq!(app.filters.agent_filter, Some(Agent::Cc));
    assert!(app.status.contains("CC"));
    let n = app.store.tree.iter().filter(|n| matches!(n, TreeNode::Session(_, _))).count();
    assert_eq!(n, 1);
    app.toggle_agent_filter(Agent::Cc);
    assert!(app.filters.agent_filter.is_none());
    assert!(app.status.contains("all agents"));
    let n = app.store.tree.iter().filter(|n| matches!(n, TreeNode::Session(_, _))).count();
    assert_eq!(n, 2);
}

#[test]
fn move_sel_wraps_at_boundaries() {
    let mut app = test_app(vec![ws("w1", "ws", "/tmp/ws1")], vec![sess("s1", "a", "/tmp/ws1")]);
    let len = app.store.tree.len();
    assert!(len >= 3);
    app.store.selected = Some(len - 1);
    move_sel(&mut app.store, 1);
    assert_eq!(app.store.selected, Some(0));
    move_sel(&mut app.store, -1);
    assert_eq!(app.store.selected, Some(len - 1));
}

#[test]
fn selected_node_returns_none_for_empty_tree() {
    let mut app = test_app(vec![], vec![]);
    assert!(app.store.tree.is_empty());
    assert!(selected_node(&app.store).is_none());
    app.store.selected = Some(0);
    assert!(selected_node(&app.store).is_none());
}

// ─── own scenarios ───

#[test]
fn rebuild_tree_marks_missing_workspace_path() {
    let workspaces = vec![ws("w1", "Gone", "/tmp/ws1")];
    let mut store = SessionStore::new(workspaces.clone(), vec![sess("s1", "a", "/tmp/ws1")]);
    let env = env_for(&workspaces, NOW);
    rebuild_tree(&mut store, &app_filters(), &env);
    assert!(matches!(store.tree[0], TreeNode::Workspace(0)));
    assert!(matches!(store.tree[1], TreeNode::WorkspaceWarning(0, _)));
    assert!(matches!(store.tree[2], TreeNode::Session(0, 0)));
}

fn app_filters() -> amux::sidebar::ViewFilters {
    amux::sidebar::ViewFilters { sort_mode: SortMode::TimeDesc, agent_filter: None, tag_filter: None, search_query: None }
}

#[test]
fn recent_group_lists_sessions_of_the_last_week() {
    let workspaces = vec![ws("w1", "Project", "/tmp")];
    let sessions = vec![sess_with_time("s1", "fresh", "/tmp", NOW - 60), sess_with_time("s2", "stale", "/tmp", 1000)];
    let app = test_app(workspaces, sessions);
    assert!(matches!(app.store.tree[0], TreeNode::RecentWorkspace));
    assert_eq!(app.store.recent_count, 1);
}

#[test]
fn pinned_sessions_sort_first() {
    let workspaces = vec![ws("w1", "Project", "/tmp")];
    let mut pinned = sess_with_time("s1", "old pinned", "/tmp", 100);
    pinned.pinned = true;
    let sessions = vec![pinned, sess_with_time("s2", "newer", "/tmp", 900)];
    let app = test_app(workspaces, sessions);
    let mut indices = vec![1, 0];
    sort_session_indices(&app.store.sessions, SortMode::TimeDesc, &mut indices);
    assert_eq!(indices, vec![0, 1]);
}

#[test]
fn ignore_rules_hide_matching_sessions_of_their_workspace() {
    let mk = |id: &str, title: &str, path: &str| Session {
        id: id.into(),
        workspace_path: path.into(),
        title: title.into(),
        last_active: 0,
        agent: Agent::Omp,
        tags: Vec::new(),
        pinned: false,
        last_message: None,
    };
    let sessions = vec![mk("tmp-1", "scratch", "/a"), mk("s2", "real work", "/a"), mk("tmp-3", "other", "/b")];
    let rules = vec![IgnoreRule { workspace_path: "/a".into(), patterns: vec!["tmp".into(), "nothing".into()] }];
    let kept: Vec<String> = drop_ignored_sessions(sessions, &rules).into_iter().map(|s| s.id).collect();
    assert_eq!(kept, vec!["s2".to_string(), "tmp-3".to_string()]);
}

#[test]
fn tabs_take_the_first_session_started_since_them() {
    let mk = |id: &str, path: &str, t: u64| Session {
        id: id.into(),
        workspace_path: path.into(),
        title: id.into(),
        last_active: t,
        agent: Agent::Omp,
        tags: Vec::new(),
        pinned: false,
        last_message: None,
    };
    let ws = Workspace { id: "w".into(), name: "w".into(), path: Some("/p".into()), created_at: 0, expanded: true };
    let env = TreeEnv { now: 0, cwds: vec!["/p".into()], path_exists: vec![true], tabs: Vec::new() };
    let mut app = AppState::new(
        SessionStore::new(vec![ws], vec![mk("old", "/p", 10), mk("new", "/p", 50), mk("else", "/q", 60)]),
        env,
        Keybinds::default_binds(),
        MenuCounts { templates: 0, plugins: 0, automations: 0, chains: 0 },
    );
    let tab = |sid: Option<&str>| ActiveTab { workspace_path: "/p".into(), session_id: sid.map(|s| s.into()), agent: Agent::Omp, title: "t".into() };
    app.open_tab(tab(None));
    app.open_tab(tab(Some("kept")));
    app.open_tab(tab(None));
    app.link_tab_sessions(&vec![40, 40, 100]);
    assert_eq!(app.env.tabs[0].session_id.as_deref(), Some("new"));
    assert_eq!(app.env.tabs[1].session_id.as_deref(), Some("kept"));
    assert_eq!(app.env.tabs[2].session_id, None);
}
