//! The sidebar model: workspaces, sessions and the tree of rows built from
//! them under the current filters, plus selection handling.

use vstd::prelude::*;
use crate::ordering::{index_lt, newer_lt, sort_by_recency, sort_session_indices, stable_sort};
use crate::search::{
    has_tag, has_tag_spec, parse_search_query, query_cutoff, query_text, session_fuzzy_score,
    session_fuzzy_spec, short_id, short_id_spec, opt_string_view, eq_ignore_ascii_case_spec,
};
use crate::nav::{wrap_move, wrap_spec};
use crate::text::{concat3, contains_spec, contains_str, path_starts_with, path_starts_with_spec, str_eq};
use crate::types::{Agent, Session, SortMode, TreeNode, Workspace};

verus! {

/// Filters and ordering chosen by the user.
pub struct ViewFilters {
    pub sort_mode: SortMode,
    pub agent_filter: Option<Agent>,
    pub tag_filter: Option<String>,
    pub search_query: Option<String>,
}

/// A running terminal tab, as far as the sidebar needs to know it.
pub struct ActiveTab {
    pub workspace_path: String,
    pub session_id: Option<String>,
    pub agent: Agent,
    pub title: String,
}

/// Facts about the outside world the tree depends on, gathered by the caller:
/// the current time, each workspace's working directory (its path, or the
/// private directory of a virtual workspace), whether each workspace path
/// exists on disk, and the running tabs.
pub struct TreeEnv {
    pub now: u64,
    pub cwds: Vec<String>,
    pub path_exists: Vec<bool>,
    pub tabs: Vec<ActiveTab>,
}

/// Sessions, workspaces and the rendered tree with its selection.
pub struct SessionStore {
    pub workspaces: Vec<Workspace>,
    pub sessions: Vec<Session>,
    pub tree: Vec<TreeNode>,
    pub ws_session_map: Vec<Vec<usize>>,
    pub selected: Option<usize>,
    pub archived_sessions: Vec<Session>,
    pub show_archived: bool,
    pub archive_days: Option<u64>,
    pub pinned_expanded: bool,
    pub recent_expanded: bool,
    pub recent_count: usize,
}

impl SessionStore {
    /// A store of these workspaces and sessions, with nothing archived, the
    /// pinned and recent groups collapsed, and no tree built yet.
    pub fn new(workspaces: Vec<Workspace>, sessions: Vec<Session>) -> (r: SessionStore)
        ensures
            r.workspaces == workspaces,
            r.sessions == sessions,
            r.tree@.len() == 0,
            r.ws_session_map@.len() == 0,
            r.selected is None,
            r.archived_sessions@.len() == 0,
            !r.show_archived,
            r.archive_days is None,
            !r.pinned_expanded,
            !r.recent_expanded,
            r.recent_count == 0,
    {
        SessionStore {
            workspaces,
            sessions,
            tree: Vec::new(),
            ws_session_map: Vec::new(),
            selected: None,
            archived_sessions: Vec::new(),
            show_archived: false,
            archive_days: None,
            pinned_expanded: false,
            recent_expanded: false,
            recent_count: 0,
        }
    }
}

/// A tree row as a mathematical value.
pub ghost enum NodeView {
    PinnedWorkspace,
    RecentWorkspace,
    Workspace(usize),
    WorkspaceWarning(usize, Seq<char>),
    ActiveTab(usize),
    Session(usize, usize),
    AgentHeader(Agent),
    ArchivedHeader,
    ArchivedSession(usize, usize),
}

/// The mathematical form of a tree row.
pub open spec fn node_view(n: TreeNode) -> NodeView {
    match n {
        TreeNode::PinnedWorkspace => NodeView::PinnedWorkspace,
        TreeNode::RecentWorkspace => NodeView::RecentWorkspace,
        TreeNode::Workspace(w) => NodeView::Workspace(w),
        TreeNode::WorkspaceWarning(w, s) => NodeView::WorkspaceWarning(w, s@),
        TreeNode::ActiveTab(p) => NodeView::ActiveTab(p),
        TreeNode::Session(w, s) => NodeView::Session(w, s),
        TreeNode::AgentHeader(a) => NodeView::AgentHeader(a),
        TreeNode::ArchivedHeader => NodeView::ArchivedHeader,
        TreeNode::ArchivedSession(w, a) => NodeView::ArchivedSession(w, a),
    }
}

/// The mathematical form of the whole tree.
pub open spec fn tree_view(t: Seq<TreeNode>) -> Seq<NodeView> {
    t.map_values(|n: TreeNode| node_view(n))
}

// ───────────────────────── filtering ─────────────────────────

/// Indices `i < n` satisfying `p`, in increasing order.
pub open spec fn indices_where(n: nat, p: spec_fn(int) -> bool) -> Seq<usize>
    decreases n,
{
    if n == 0 {
        Seq::empty()
    } else if p(n - 1) {
        indices_where((n - 1) as nat, p).push((n - 1) as usize)
    } else {
        indices_where((n - 1) as nat, p)
    }
}

/// The elements of `s` satisfying `p`, in order.
pub open spec fn keep(s: Seq<usize>, p: spec_fn(usize) -> bool) -> Seq<usize>
    decreases s.len(),
{
    if s.len() == 0 {
        Seq::empty()
    } else if p(s.last()) {
        keep(s.drop_last(), p).push(s.last())
    } else {
        keep(s.drop_last(), p)
    }
}

/// The text part of the active search, if any.
pub open spec fn search_text(f: ViewFilters) -> Option<Seq<char>> {
    match f.search_query {
        Some(q) => query_text(q@),
        None => None,
    }
}

/// The activity cutoff of the active search, if any.
pub open spec fn search_cutoff(f: ViewFilters, now: u64) -> Option<u64> {
    match f.search_query {
        Some(q) => query_cutoff(q@, now),
        None => None,
    }
}

/// A session passes the agent, tag and date filters.
pub open spec fn passes_filters(f: ViewFilters, cutoff: Option<u64>, s: Session) -> bool {
    &&& (f.agent_filter matches Some(a) ==> s.agent == a)
    &&& (f.tag_filter matches Some(t) ==> has_tag_spec(s.tags@, t@))
    &&& (cutoff matches Some(c) ==> s.last_active >= c)
}

/// A session or tab path belongs to workspace `wi` (same working directory).
pub open spec fn in_workspace(env: TreeEnv, wi: int, path: Seq<char>) -> bool {
    env.cwds[wi]@ == path
}

/// Workspace `w` holds `path`: its own path or a directory below it.
pub open spec fn ws_holds(w: Workspace, path: Seq<char>) -> bool {
    w.path matches Some(p) && path_starts_with_spec(path, p@)
}

/// `i` is the first workspace holding `path`.
pub open spec fn first_holder(wss: Seq<Workspace>, path: Seq<char>, i: int) -> bool {
    &&& 0 <= i < wss.len()
    &&& ws_holds(wss[i], path)
    &&& forall|j: int| 0 <= j < i ==> !ws_holds(#[trigger] wss[j], path)
}

/// Index of the first workspace holding `path`, or 0 when none does.
pub open spec fn ws_index_for(wss: Seq<Workspace>, path: Seq<char>) -> usize {
    if exists|i: int| first_holder(wss, path, i) {
        (choose|i: int| first_holder(wss, path, i)) as usize
    } else {
        0
    }
}

/// One session row per index, all in workspace `wi`.
pub open spec fn session_rows(wi: usize, idx: Seq<usize>) -> Seq<NodeView> {
    idx.map_values(|si: usize| NodeView::Session(wi, si))
}

/// One session row per index, each in the workspace holding its path.
pub open spec fn located_rows(wss: Seq<Workspace>, ss: Seq<Session>, idx: Seq<usize>) -> Seq<NodeView> {
    idx.map_values(|si: usize| NodeView::Session(ws_index_for(wss, ss[si as int].workspace_path@), si))
}

/// The header of agent `a` and its sessions, or nothing when it has none.
pub open spec fn agent_group(ss: Seq<Session>, wi: usize, idx: Seq<usize>, a: Agent) -> Seq<NodeView> {
    let g = keep(idx, |si: usize| ss[si as int].agent == a);
    if g.len() == 0 { Seq::empty() } else { seq![NodeView::AgentHeader(a)] + session_rows(wi, g) }
}

/// Sessions grouped under agent headers, in the order CC, Codex, OMP;
/// empty groups are omitted.
pub open spec fn grouped_rows(ss: Seq<Session>, wi: usize, idx: Seq<usize>) -> Seq<NodeView> {
    agent_group(ss, wi, idx, Agent::Cc) + agent_group(ss, wi, idx, Agent::Codex) + agent_group(ss, wi, idx, Agent::Omp)
}

/// The session rows of a workspace: grouped by agent in agent mode, else flat.
pub open spec fn sessions_part(mode: SortMode, ss: Seq<Session>, wi: usize, idx: Seq<usize>) -> Seq<NodeView> {
    if mode == SortMode::AgentGroup { grouped_rows(ss, wi, idx) } else { session_rows(wi, idx) }
}

/// The warning shown under a workspace whose path is missing.
pub open spec fn warning_text(p: Seq<char>) -> Seq<char> {
    "Path not found: "@ + p + ". Update config.json or create the directory."@
}

/// The warning row of workspace `wi`, when its path does not exist.
pub open spec fn warning_rows(wss: Seq<Workspace>, env: TreeEnv, wi: usize) -> Seq<NodeView> {
    match wss[wi as int].path {
        Some(p) => if !env.path_exists[wi as int] { seq![NodeView::WorkspaceWarning(wi, warning_text(p@))] } else { Seq::empty() },
        None => Seq::empty(),
    }
}

/// Sessions listed under workspace `wi` before sorting: in the workspace,
/// not pinned, passing the filters.
pub open spec fn ws_sessions(ss: Seq<Session>, f: ViewFilters, env: TreeEnv, wi: usize) -> Seq<usize> {
    let cutoff = search_cutoff(f, env.now);
    indices_where(ss.len(), |i: int| in_workspace(env, wi as int, ss[i].workspace_path@) && !ss[i].pinned && passes_filters(f, cutoff, ss[i]))
}

/// A tab without a saved session, in workspace `wi`, passing the agent filter.
pub open spec fn tab_listed(f: ViewFilters, env: TreeEnv, wi: usize, pi: int) -> bool {
    &&& in_workspace(env, wi as int, env.tabs[pi].workspace_path@)
    &&& env.tabs[pi].session_id is None
    &&& (f.agent_filter matches Some(a) ==> env.tabs[pi].agent == a)
}

/// One row per running tab, in order.
pub open spec fn tab_rows(tabs: Seq<usize>) -> Seq<NodeView> {
    tabs.map_values(|pi: usize| NodeView::ActiveTab(pi))
}

/// A session of workspace `wi` matches the fuzzy text by its title or by
/// the workspace name (either tried together with its short id).
pub open spec fn session_matches(wss: Seq<Workspace>, ss: Seq<Session>, wi: usize, q: Seq<char>, si: usize) -> bool {
    session_fuzzy_spec(ss[si as int].title@, short_id_spec(ss[si as int].id@), q)
        || session_fuzzy_spec(wss[wi as int].name@, short_id_spec(ss[si as int].id@), q)
}

/// Rows and session map entry for workspace `wi`.
pub open spec fn ws_part(store: SessionStore, f: ViewFilters, env: TreeEnv, wi: usize) -> (Seq<NodeView>, Seq<usize>) {
    let wss = store.workspaces@;
    let ss = store.sessions@;
    let sess = ws_sessions(ss, f, env, wi);
    let order = index_lt(f.sort_mode, ss);
    match search_text(f) {
        Some(q) => {
            let matching = stable_sort(keep(sess, |si: usize| session_matches(wss, ss, wi, q, si)), order);
            let ptys = indices_where(env.tabs@.len(), |pi: int| tab_listed(f, env, wi, pi) && session_fuzzy_spec(env.tabs[pi].title@, env.tabs[pi].title@, q));
            let ws_match = session_fuzzy_spec(wss[wi as int].name@, Seq::empty(), q);
            let rows = if ws_match || matching.len() > 0 || ptys.len() > 0 {
                seq![NodeView::Workspace(wi)] + warning_rows(wss, env, wi) + tab_rows(ptys) + sessions_part(f.sort_mode, ss, wi, matching)
            } else {
                Seq::empty()
            };
            (rows, matching)
        },
        None => {
            let sorted = stable_sort(sess, order);
            let ptys = indices_where(env.tabs@.len(), |pi: int| tab_listed(f, env, wi, pi));
            let body = if wss[wi as int].expanded { tab_rows(ptys) + sessions_part(f.sort_mode, ss, wi, sorted) } else { Seq::empty() };
            (seq![NodeView::Workspace(wi)] + warning_rows(wss, env, wi) + body, sess)
        },
    }
}

/// Rows for the first `k` workspaces.
pub open spec fn ws_rows(store: SessionStore, f: ViewFilters, env: TreeEnv, k: nat) -> Seq<NodeView>
    decreases k,
{
    if k == 0 { Seq::empty() } else { ws_rows(store, f, env, (k - 1) as nat) + ws_part(store, f, env, (k - 1) as usize).0 }
}

/// Session map entries for the first `k` workspaces.
pub open spec fn ws_map(store: SessionStore, f: ViewFilters, env: TreeEnv, k: nat) -> Seq<Seq<usize>>
    decreases k,
{
    if k == 0 { Seq::empty() } else { ws_map(store, f, env, (k - 1) as nat).push(ws_part(store, f, env, (k - 1) as usize).1) }
}

/// The indices of the pinned sessions, in order.
pub open spec fn pinned_indices(ss: Seq<Session>) -> Seq<usize> {
    indices_where(ss.len(), |i: int| ss[i].pinned)
}

/// The pinned group, when it has sessions: its header and, when expanded,
/// its sessions, newest first.
pub open spec fn pinned_rows(store: SessionStore) -> Seq<NodeView> {
    let ss = store.sessions@;
    let pins = pinned_indices(ss);
    if pins.len() == 0 {
        Seq::empty()
    } else if store.pinned_expanded {
        seq![NodeView::PinnedWorkspace] + located_rows(store.workspaces@, ss, stable_sort(pins, newer_lt(ss)))
    } else {
        seq![NodeView::PinnedWorkspace]
    }
}

/// Some running tab shows the session with this id.
pub open spec fn is_active_id(env: TreeEnv, id: Seq<char>) -> bool {
    exists|p: int| 0 <= p < env.tabs.len() && ((#[trigger] env.tabs[p]).session_id matches Some(sid) && sid@ == id)
}

/// Seconds in seven days.
pub open spec fn week_secs() -> nat {
    604800
}

/// A session eligible for the "Recent" group: unpinned, not open in a tab,
/// active within the last seven days, passing the filters.
pub open spec fn recent_candidate(f: ViewFilters, env: TreeEnv, s: Session) -> bool {
    &&& !s.pinned
    &&& !is_active_id(env, s.id@)
    &&& s.last_active > 0
    &&& (if env.now >= s.last_active { env.now - s.last_active } else { 0 }) < week_secs()
    &&& passes_filters(f, search_cutoff(f, env.now), s)
}

/// At most ten most recent candidates.
pub open spec fn recent_indices(store: SessionStore, f: ViewFilters, env: TreeEnv) -> Seq<usize> {
    let ss = store.sessions@;
    let all = stable_sort(indices_where(ss.len(), |i: int| recent_candidate(f, env, ss[i])), newer_lt(ss));
    if all.len() <= 10 { all } else { all.take(10) }
}

/// The recent group, when it has sessions: its header and, when expanded,
/// its sessions.
pub open spec fn recent_rows(store: SessionStore, f: ViewFilters, env: TreeEnv) -> Seq<NodeView> {
    let rec = recent_indices(store, f, env);
    if rec.len() == 0 {
        Seq::empty()
    } else if store.recent_expanded {
        seq![NodeView::RecentWorkspace] + located_rows(store.workspaces@, store.sessions@, rec)
    } else {
        seq![NodeView::RecentWorkspace]
    }
}

/// When shown and not empty: the archived header, then the archived
/// sessions, newest first.
pub open spec fn archived_rows(store: SessionStore) -> Seq<NodeView> {
    let arc = store.archived_sessions@;
    if store.show_archived && arc.len() > 0 {
        seq![NodeView::ArchivedHeader] + stable_sort(indices_where(arc.len(), |i: int| true), newer_lt(arc)).map_values(
            |ai: usize| NodeView::ArchivedSession(ws_index_for(store.workspaces@, arc[ai as int].workspace_path@), ai))
    } else {
        Seq::empty()
    }
}

/// The whole sidebar tree.
pub open spec fn tree_spec(store: SessionStore, f: ViewFilters, env: TreeEnv) -> Seq<NodeView> {
    pinned_rows(store) + recent_rows(store, f, env) + ws_rows(store, f, env, store.workspaces.len() as nat) + archived_rows(store)
}

/// The environment describes the store's workspaces.
pub open spec fn env_wf(store: SessionStore, env: TreeEnv) -> bool {
    &&& env.cwds.len() == store.workspaces.len()
    &&& env.path_exists.len() == store.workspaces.len()
    &&& forall|wi: int| 0 <= wi < store.workspaces.len() ==> ((#[trigger] store.workspaces[wi]).path matches Some(p) ==> env.cwds[wi]@ == p@)
}

// ───────────────────────── executable building blocks ─────────────────────────

proof fn lemma_first_holder_unique(wss: Seq<Workspace>, path: Seq<char>, i: int, j: int)
    requires
        first_holder(wss, path, i),
        first_holder(wss, path, j),
    ensures
        i == j,
{
    if i < j {
        assert(!ws_holds(wss[i], path));
    } else if j < i {
        assert(!ws_holds(wss[j], path));
    }
}

fn ws_holds_exec(w: &Workspace, path: &str) -> (r: bool)
    ensures
        r == ws_holds(*w, path@),
{
    match &w.path {
        Some(p) => path_starts_with(path, p.as_str()),
        None => false,
    }
}

/// Index of the first workspace holding `path`, or 0.
pub fn ws_index_for_path(wss: &Vec<Workspace>, path: &str) -> (r: usize)
    ensures
        r == ws_index_for(wss@, path@),
{
    let mut i: usize = 0;
    while i < wss.len()
        invariant
            i <= wss.len(),
            forall|j: int| 0 <= j < i ==> !ws_holds(#[trigger] wss@[j], path@),
        decreases wss.len() - i,
    {
        if ws_holds_exec(&wss[i], path) {
            proof {
                assert(first_holder(wss@, path@, i as int));
                let c = choose|c: int| first_holder(wss@, path@, c);
                lemma_first_holder_unique(wss@, path@, i as int, c);
            }
            return i;
        }
        i = i + 1;
    }
    proof {
        if exists|c: int| first_holder(wss@, path@, c) {
            let c = choose|c: int| first_holder(wss@, path@, c);
            assert(!ws_holds(wss@[c], path@));
        }
    }
    0
}

/// The fuzzy text and date cutoff of the current search.
fn query_parts(f: &ViewFilters, now: u64) -> (r: (Option<String>, Option<u64>))
    ensures
        opt_string_view(r.0) == search_text(*f),
        r.1 == search_cutoff(*f, now),
{
    match &f.search_query {
        Some(q) => {
            let parsed = parse_search_query(q.as_str(), now);
            (parsed.text, parsed.min_last_active)
        },
        None => (None, None),
    }
}

fn passes_filters_exec(f: &ViewFilters, cutoff: Option<u64>, s: &Session) -> (r: bool)
    ensures
        r == passes_filters(*f, cutoff, *s),
{
    let agent_ok = match f.agent_filter {
        Some(a) => s.agent == a,
        None => true,
    };
    let tag_ok = match &f.tag_filter {
        Some(t) => has_tag(&s.tags, t.as_str()),
        None => true,
    };
    let date_ok = match cutoff {
        Some(c) => s.last_active >= c,
        None => true,
    };
    agent_ok && tag_ok && date_ok
}

/// Sessions of workspace `wi` (unsorted) that pass the filters.
fn collect_ws_sessions(store: &SessionStore, f: &ViewFilters, env: &TreeEnv, cutoff: Option<u64>, wi: usize) -> (r: Vec<usize>)
    requires
        env_wf(*store, *env),
        wi < store.workspaces.len(),
        cutoff == search_cutoff(*f, env.now),
    ensures
        r@ == ws_sessions(store.sessions@, *f, *env, wi),
        forall|k: int| 0 <= k < r.len() ==> (#[trigger] r[k]) < store.sessions.len(),
{
    let ghost ss = store.sessions@;
    let ghost p = |i: int| in_workspace(*env, wi as int, ss[i].workspace_path@) && !ss[i].pinned && passes_filters(*f, cutoff, ss[i]);
    let mut out: Vec<usize> = Vec::new();
    let mut i: usize = 0;
    while i < store.sessions.len()
        invariant
            i <= store.sessions.len(),
            ss == store.sessions@,
            env_wf(*store, *env),
            wi < store.workspaces.len(),
            p == (|i: int| in_workspace(*env, wi as int, ss[i].workspace_path@) && !ss[i].pinned && passes_filters(*f, cutoff, ss[i])),
            out@ == indices_where(i as nat, p),
            forall|k: int| 0 <= k < out.len() ==> (#[trigger] out[k]) < i,
        decreases store.sessions.len() - i,
    {
        let s = &store.sessions[i];
        let keep_it = env.cwds[wi] == s.workspace_path && !s.pinned && passes_filters_exec(f, cutoff, s);
        if keep_it {
            out.push(i);
        }
        i = i + 1;
    }
    out
}

/// Keeps the sessions of `sess` that fuzzy-match `q` (by title or by the
/// workspace name).
fn keep_matching(store: &SessionStore, wi: usize, q: &str, sess: &Vec<usize>) -> (r: Vec<usize>)
    requires
        wi < store.workspaces.len(),
        forall|k: int| 0 <= k < sess.len() ==> (#[trigger] sess[k]) < store.sessions.len(),
    ensures
        r@ == keep(sess@, |si: usize| session_matches(store.workspaces@, store.sessions@, wi, q@, si)),
        forall|k: int| 0 <= k < r.len() ==> (#[trigger] r[k]) < store.sessions.len(),
{
    let ghost p = |si: usize| session_matches(store.workspaces@, store.sessions@, wi, q@, si);
    let mut out: Vec<usize> = Vec::new();
    let mut j: usize = 0;
    while j < sess.len()
        invariant
            j <= sess.len(),
            wi < store.workspaces.len(),
            forall|k: int| 0 <= k < sess.len() ==> (#[trigger] sess[k]) < store.sessions.len(),
            forall|k: int| 0 <= k < out.len() ==> (#[trigger] out[k]) < store.sessions.len(),
            p == (|si: usize| session_matches(store.workspaces@, store.sessions@, wi, q@, si)),
            out@ == keep(sess@.take(j as int), p),
        decreases sess.len() - j,
    {
        let si = sess[j];
        let s = &store.sessions[si];
        let sid = short_id(s.id.as_str());
        let hit = session_fuzzy_score(s.title.as_str(), sid.as_str(), q)
            || session_fuzzy_score(store.workspaces[wi].name.as_str(), sid.as_str(), q);
        proof {
            assert(sess@.take(j + 1).drop_last() =~= sess@.take(j as int));
            assert(sess@.take(j + 1).last() == si);
        }
        if hit {
            out.push(si);
        }
        j = j + 1;
    }
    assert(sess@.take(sess.len() as int) =~= sess@);
    out
}

/// Tabs listed under workspace `wi`; with a query, only those whose title
/// fuzzy-matches it.
fn collect_tabs(f: &ViewFilters, env: &TreeEnv, wi: usize, q: &Option<String>) -> (r: Vec<usize>)
    requires
        wi < env.cwds.len(),
    ensures
        q is None ==> r@ == indices_where(env.tabs@.len(), |pi: int| tab_listed(*f, *env, wi, pi)),
        q matches Some(qq) ==> r@ == indices_where(env.tabs@.len(), |pi: int| tab_listed(*f, *env, wi, pi) && session_fuzzy_spec(env.tabs[pi].title@, env.tabs[pi].title@, qq@)),
{
    let ghost p1 = |pi: int| tab_listed(*f, *env, wi, pi);
    let ghost p2 = |pi: int| tab_listed(*f, *env, wi, pi) && session_fuzzy_spec(env.tabs[pi].title@, env.tabs[pi].title@, q->0@);
    let mut out: Vec<usize> = Vec::new();
    let mut i: usize = 0;
    while i < env.tabs.len()
        invariant
            i <= env.tabs.len(),
            wi < env.cwds.len(),
            p1 == (|pi: int| tab_listed(*f, *env, wi, pi)),
            p2 == (|pi: int| tab_listed(*f, *env, wi, pi) && session_fuzzy_spec(env.tabs[pi].title@, env.tabs[pi].title@, q->0@)),
            q is None ==> out@ == indices_where(i as nat, p1),
            q is Some ==> out@ == indices_where(i as nat, p2),
        decreases env.tabs.len() - i,
    {
        let t = &env.tabs[i];
        let agent_ok = match f.agent_filter {
            Some(a) => t.agent == a,
            None => true,
        };
        let listed = env.cwds[wi] == t.workspace_path && t.session_id.is_none() && agent_ok;
        let ok = match q {
            Some(qq) => listed && session_fuzzy_score(t.title.as_str(), t.title.as_str(), qq.as_str()),
            None => listed,
        };
        if ok {
            out.push(i);
        }
        i = i + 1;
    }
    out
}

fn push_node(tree: &mut Vec<TreeNode>, n: TreeNode)
    ensures
        tree_view(final(tree)@) == tree_view(old(tree)@).push(node_view(n)),
{
    let ghost before = tree@;
    tree.push(n);
    assert(tree_view(tree@) =~= tree_view(before).push(node_view(n)));
}

/// Appends `Session(wi, si)` rows for the given indices.
fn push_session_rows(tree: &mut Vec<TreeNode>, wi: usize, idx: &Vec<usize>)
    ensures
        tree_view(final(tree)@) == tree_view(old(tree)@) + session_rows(wi, idx@),
{
    let ghost start = tree_view(tree@);
    let mut j: usize = 0;
    while j < idx.len()
        invariant
            j <= idx.len(),
            tree_view(tree@) == start + session_rows(wi, idx@.take(j as int)),
        decreases idx.len() - j,
    {
        push_node(tree, TreeNode::Session(wi, idx[j]));
        j = j + 1;
        assert(session_rows(wi, idx@.take(j as int)) =~= session_rows(wi, idx@.take(j - 1)).push(NodeView::Session(wi, idx@[j - 1])));
    }
    assert(idx@.take(idx.len() as int) =~= idx@);
}

/// Appends `ActiveTab(pi)` rows.
fn push_tab_rows(tree: &mut Vec<TreeNode>, tabs: &Vec<usize>)
    ensures
        tree_view(final(tree)@) == tree_view(old(tree)@) + tab_rows(tabs@),
{
    let ghost start = tree_view(tree@);
    let mut j: usize = 0;
    while j < tabs.len()
        invariant
            j <= tabs.len(),
            tree_view(tree@) == start + tab_rows(tabs@.take(j as int)),
        decreases tabs.len() - j,
    {
        push_node(tree, TreeNode::ActiveTab(tabs[j]));
        j = j + 1;
        assert(tab_rows(tabs@.take(j as int)) =~= tab_rows(tabs@.take(j - 1)).push(NodeView::ActiveTab(tabs@[j - 1])));
    }
    assert(tabs@.take(tabs.len() as int) =~= tabs@);
}

/// The indices of `idx` whose session runs agent `a`.
fn keep_agent(sessions: &Vec<Session>, idx: &Vec<usize>, a: Agent) -> (r: Vec<usize>)
    requires
        forall|k: int| 0 <= k < idx.len() ==> (#[trigger] idx[k]) < sessions.len(),
    ensures
        r@ == keep(idx@, |si: usize| sessions@[si as int].agent == a),
{
    let ghost p = |si: usize| sessions@[si as int].agent == a;
    let mut out: Vec<usize> = Vec::new();
    let mut j: usize = 0;
    while j < idx.len()
        invariant
            j <= idx.len(),
            forall|k: int| 0 <= k < idx.len() ==> (#[trigger] idx[k]) < sessions.len(),
            p == (|si: usize| sessions@[si as int].agent == a),
            out@ == keep(idx@.take(j as int), p),
        decreases idx.len() - j,
    {
        let si = idx[j];
        proof {
            assert(idx@.take(j + 1).drop_last() =~= idx@.take(j as int));
            assert(idx@.take(j + 1).last() == si);
        }
        if sessions[si].agent == a {
            out.push(si);
        }
        j = j + 1;
    }
    assert(idx@.take(idx.len() as int) =~= idx@);
    out
}

/// Appends sessions grouped under agent headers (CC, Codex, OMP).
pub fn append_agent_grouped(sessions: &Vec<Session>, idx: &Vec<usize>, wi: usize, tree: &mut Vec<TreeNode>)
    requires
        forall|k: int| 0 <= k < idx.len() ==> (#[trigger] idx[k]) < sessions.len(),
    ensures
        tree_view(final(tree)@) == tree_view(old(tree)@) + grouped_rows(sessions@, wi, idx@),
{
    let ghost start = tree_view(tree@);
    let g1 = keep_agent(sessions, idx, Agent::Cc);
    if g1.len() > 0 {
        push_node(tree, TreeNode::AgentHeader(Agent::Cc));
        push_session_rows(tree, wi, &g1);
    }
    assert(tree_view(tree@) =~= start + agent_group(sessions@, wi, idx@, Agent::Cc));
    let g2 = keep_agent(sessions, idx, Agent::Codex);
    if g2.len() > 0 {
        push_node(tree, TreeNode::AgentHeader(Agent::Codex));
        push_session_rows(tree, wi, &g2);
    }
    assert(tree_view(tree@) =~= start + agent_group(sessions@, wi, idx@, Agent::Cc) + agent_group(sessions@, wi, idx@, Agent::Codex));
    let g3 = keep_agent(sessions, idx, Agent::Omp);
    if g3.len() > 0 {
        push_node(tree, TreeNode::AgentHeader(Agent::Omp));
        push_session_rows(tree, wi, &g3);
    }
    assert(tree_view(tree@) =~= start + grouped_rows(sessions@, wi, idx@));
}

fn push_sessions_part(tree: &mut Vec<TreeNode>, mode: SortMode, sessions: &Vec<Session>, wi: usize, idx: &Vec<usize>)
    requires
        forall|k: int| 0 <= k < idx.len() ==> (#[trigger] idx[k]) < sessions.len(),
    ensures
        tree_view(final(tree)@) == tree_view(old(tree)@) + sessions_part(mode, sessions@, wi, idx@),
{
    if mode == SortMode::AgentGroup {
        append_agent_grouped(sessions, idx, wi, tree);
    } else {
        push_session_rows(tree, wi, idx);
    }
}

fn push_warning(tree: &mut Vec<TreeNode>, wss: &Vec<Workspace>, env: &TreeEnv, wi: usize)
    requires
        wi < wss.len(),
        env.path_exists.len() == wss.len(),
    ensures
        tree_view(final(tree)@) == tree_view(old(tree)@) + warning_rows(wss@, *env, wi),
{
    match &wss[wi].path {
        Some(p) => {
            if !env.path_exists[wi] {
                proof {
                    reveal_strlit("Path not found: ");
                    reveal_strlit(". Update config.json or create the directory.");
                }
                let msg = concat3("Path not found: ", p.as_str(), ". Update config.json or create the directory.");
                push_node(tree, TreeNode::WorkspaceWarning(wi, msg));
                assert(tree_view(tree@) =~= tree_view(old(tree)@) + warning_rows(wss@, *env, wi));
            } else {
                assert(tree_view(tree@) =~= tree_view(old(tree)@) + warning_rows(wss@, *env, wi));
            }
        },
        None => {
            assert(tree_view(tree@) =~= tree_view(old(tree)@) + warning_rows(wss@, *env, wi));
        },
    }
}

fn copy_indices(v: &Vec<usize>) -> (r: Vec<usize>)
    ensures
        r@ == v@,
{
    let mut out: Vec<usize> = Vec::new();
    let mut i: usize = 0;
    while i < v.len()
        invariant
            i <= v.len(),
            out@ == v@.take(i as int),
        decreases v.len() - i,
    {
        out.push(v[i]);
        i = i + 1;
        assert(out@ =~= v@.take(i as int));
    }
    assert(v@.take(v.len() as int) =~= v@);
    out
}

proof fn lemma_keep_bounded(s: Seq<usize>, p: spec_fn(usize) -> bool, n: nat)
    requires
        forall|k: int| 0 <= k < s.len() ==> (#[trigger] s[k]) < n,
    ensures
        forall|k: int| 0 <= k < keep(s, p).len() ==> (#[trigger] keep(s, p)[k]) < n,
    decreases s.len(),
{
    if s.len() > 0 {
        lemma_keep_bounded(s.drop_last(), p, n);
        let prev = keep(s.drop_last(), p);
        assert(s.drop_last().len() < s.len());
        assert forall|k: int| 0 <= k < keep(s, p).len() implies (#[trigger] keep(s, p)[k]) < n by {
            if p(s.last()) {
                assert(keep(s, p) == prev.push(s.last()));
                if k < prev.len() {
                    assert(keep(s, p)[k] == prev[k]);
                } else {
                    assert(s[s.len() - 1] < n);
                }
            } else {
                assert(keep(s, p) == prev);
            }
        }
    }
}

/// Appends workspace `wi`'s rows to `tree` and its session list to `map`.
fn append_workspace(store: &SessionStore, f: &ViewFilters, env: &TreeEnv, text: &Option<String>, cutoff: Option<u64>, wi: usize, tree: &mut Vec<TreeNode>, map: &mut Vec<Vec<usize>>)
    requires
        env_wf(*store, *env),
        wi < store.workspaces.len(),
        opt_string_view(*text) == search_text(*f),
        cutoff == search_cutoff(*f, env.now),
    ensures
        tree_view(final(tree)@) == tree_view(old(tree)@) + ws_part(*store, *f, *env, wi).0,
        final(map)@.map_values(|v: Vec<usize>| v@) == old(map)@.map_values(|v: Vec<usize>| v@).push(ws_part(*store, *f, *env, wi).1),
{
    let ghost start = tree_view(tree@);
    let ghost mstart = map@.map_values(|v: Vec<usize>| v@);
    let sess = collect_ws_sessions(store, f, env, cutoff, wi);
    match text {
        Some(q) => {
            let mut matching = keep_matching(store, wi, q.as_str(), &sess);
            sort_session_indices(&store.sessions, f.sort_mode, &mut matching);
            proof {
                lemma_keep_bounded(sess@, |si: usize| session_matches(store.workspaces@, store.sessions@, wi, q@, si), store.sessions.len() as nat);
                crate::ordering::lemma_stable_sort_multiset(
                    keep(sess@, |si: usize| session_matches(store.workspaces@, store.sessions@, wi, q@, si)), index_lt(f.sort_mode, store.sessions@));
            }
            assert forall|k: int| 0 <= k < matching.len() implies (#[trigger] matching[k]) < store.sessions.len() by {
                let e = matching@[k];
                let kept = keep(sess@, |si: usize| session_matches(store.workspaces@, store.sessions@, wi, q@, si));
                broadcast use vstd::seq_lib::group_to_multiset_ensures;
                assert(matching@.to_multiset().count(e) > 0);
                assert(kept.contains(e));
            }
            let ptys = collect_tabs(f, env, wi, text);
            let ws_match = session_fuzzy_score(store.workspaces[wi].name.as_str(), "", q.as_str());
            proof { reveal_strlit(""); assert(""@ =~= Seq::<char>::empty()); }
            if ws_match || matching.len() > 0 || ptys.len() > 0 {
                push_node(tree, TreeNode::Workspace(wi));
                push_warning(tree, &store.workspaces, env, wi);
                push_tab_rows(tree, &ptys);
                push_sessions_part(tree, f.sort_mode, &store.sessions, wi, &matching);
                assert(tree_view(tree@) =~= start + ws_part(*store, *f, *env, wi).0);
            } else {
                assert(tree_view(tree@) =~= start + ws_part(*store, *f, *env, wi).0);
            }
            let ghost mv = matching@;
            map.push(matching);
            assert(map@.map_values(|v: Vec<usize>| v@) =~= mstart.push(mv));
        },
        None => {
            let mut sorted = copy_indices(&sess);
            sort_session_indices(&store.sessions, f.sort_mode, &mut sorted);
            proof {
                crate::ordering::lemma_stable_sort_multiset(sess@, index_lt(f.sort_mode, store.sessions@));
            }
            assert forall|k: int| 0 <= k < sorted.len() implies (#[trigger] sorted[k]) < store.sessions.len() by {
                let e = sorted@[k];
                broadcast use vstd::seq_lib::group_to_multiset_ensures;
                assert(sorted@.to_multiset().count(e) > 0);
                assert(sess@.contains(e));
            }
            push_node(tree, TreeNode::Workspace(wi));
            push_warning(tree, &store.workspaces, env, wi);
            if store.workspaces[wi].expanded {
                let ptys = collect_tabs(f, env, wi, text);
                push_tab_rows(tree, &ptys);
                push_sessions_part(tree, f.sort_mode, &store.sessions, wi, &sorted);
            }
            assert(tree_view(tree@) =~= start + ws_part(*store, *f, *env, wi).0);
            let ghost sv = sess@;
            map.push(sess);
            assert(map@.map_values(|v: Vec<usize>| v@) =~= mstart.push(sv));
        },
    }
}

fn collect_pinned(sessions: &Vec<Session>) -> (r: Vec<usize>)
    ensures
        r@ == pinned_indices(sessions@),
        forall|k: int| 0 <= k < r.len() ==> (#[trigger] r[k]) < sessions.len(),
{
    let ghost p = |i: int| sessions@[i].pinned;
    let mut out: Vec<usize> = Vec::new();
    let mut i: usize = 0;
    while i < sessions.len()
        invariant
            i <= sessions.len(),
            p == (|i: int| sessions@[i].pinned),
            out@ == indices_where(i as nat, p),
            forall|k: int| 0 <= k < out.len() ==> (#[trigger] out[k]) < i,
        decreases sessions.len() - i,
    {
        if sessions[i].pinned {
            out.push(i);
        }
        i = i + 1;
    }
    out
}

/// Appends `Session(w, si)` rows where `w` is the workspace holding each session.
fn push_located_rows(tree: &mut Vec<TreeNode>, wss: &Vec<Workspace>, sessions: &Vec<Session>, idx: &Vec<usize>)
    requires
        forall|k: int| 0 <= k < idx.len() ==> (#[trigger] idx[k]) < sessions.len(),
    ensures
        tree_view(final(tree)@) == tree_view(old(tree)@) + located_rows(wss@, sessions@, idx@),
{
    let ghost start = tree_view(tree@);
    let mut j: usize = 0;
    while j < idx.len()
        invariant
            j <= idx.len(),
            forall|k: int| 0 <= k < idx.len() ==> (#[trigger] idx[k]) < sessions.len(),
            tree_view(tree@) == start + located_rows(wss@, sessions@, idx@.take(j as int)),
        decreases idx.len() - j,
    {
        let si = idx[j];
        let wi = ws_index_for_path(wss, sessions[si].workspace_path.as_str());
        push_node(tree, TreeNode::Session(wi, si));
        j = j + 1;
        assert(located_rows(wss@, sessions@, idx@.take(j as int)) =~= located_rows(wss@, sessions@, idx@.take(j - 1)).push(NodeView::Session(wi, si)));
    }
    assert(idx@.take(idx.len() as int) =~= idx@);
}

pub(crate) fn is_active(env: &TreeEnv, id: &String) -> (r: bool)
    ensures
        r == is_active_id(*env, id@),
{
    let mut p: usize = 0;
    while p < env.tabs.len()
        invariant
            p <= env.tabs.len(),
            forall|q: int| 0 <= q < p ==> !((#[trigger] env.tabs@[q]).session_id matches Some(sid) && sid@ == id@),
        decreases env.tabs.len() - p,
    {
        match &env.tabs[p].session_id {
            Some(sid) => {
                if *sid == *id {
                    return true;
                }
            },
            None => {},
        }
        p = p + 1;
    }
    false
}

fn collect_recent(store: &SessionStore, f: &ViewFilters, env: &TreeEnv, cutoff: Option<u64>) -> (r: Vec<usize>)
    requires
        cutoff == search_cutoff(*f, env.now),
    ensures
        r@ == recent_indices(*store, *f, *env),
        forall|k: int| 0 <= k < r.len() ==> (#[trigger] r[k]) < store.sessions.len(),
{
    let ghost ss = store.sessions@;
    let ghost p = |i: int| recent_candidate(*f, *env, ss[i]);
    let mut cands: Vec<usize> = Vec::new();
    let mut i: usize = 0;
    while i < store.sessions.len()
        invariant
            i <= store.sessions.len(),
            ss == store.sessions@,
            cutoff == search_cutoff(*f, env.now),
            p == (|i: int| recent_candidate(*f, *env, ss[i])),
            cands@ == indices_where(i as nat, p),
            forall|k: int| 0 <= k < cands.len() ==> (#[trigger] cands[k]) < i,
        decreases store.sessions.len() - i,
    {
        let s = &store.sessions[i];
        let age: u64 = if env.now >= s.last_active { env.now - s.last_active } else { 0 };
        let ok = !s.pinned && !is_active(env, &s.id) && s.last_active > 0 && age < 604800
            && passes_filters_exec(f, cutoff, s);
        if ok {
            cands.push(i);
        }
        i = i + 1;
    }
    let mut sorted = sort_by_recency(&store.sessions, &cands);
    if sorted.len() > 10 {
        sorted.truncate(10);
    }
    sorted
}

fn push_archived(tree: &mut Vec<TreeNode>, store: &SessionStore)
    ensures
        tree_view(final(tree)@) == tree_view(old(tree)@) + archived_rows(*store),
{
    let ghost start = tree_view(tree@);
    let arc = &store.archived_sessions;
    if store.show_archived && arc.len() > 0 {
        push_node(tree, TreeNode::ArchivedHeader);
        let ghost all = |i: int| true;
        let mut idx: Vec<usize> = Vec::new();
        let mut i: usize = 0;
        while i < arc.len()
            invariant
                i <= arc.len(),
                all == (|i: int| true),
                idx@ == indices_where(i as nat, all),
                forall|k: int| 0 <= k < idx.len() ==> (#[trigger] idx[k]) < i,
            decreases arc.len() - i,
        {
            idx.push(i);
            i = i + 1;
        }
        let order = sort_by_recency(arc, &idx);
        let ghost mid = tree_view(tree@);
        let mut j: usize = 0;
        while j < order.len()
            invariant
                j <= order.len(),
                forall|k: int| 0 <= k < order.len() ==> (#[trigger] order[k]) < arc.len(),
                tree_view(tree@) == mid + order@.take(j as int).map_values(
                    |ai: usize| NodeView::ArchivedSession(ws_index_for(store.workspaces@, arc@[ai as int].workspace_path@), ai)),
            decreases order.len() - j,
        {
            let ai = order[j];
            let wi = ws_index_for_path(&store.workspaces, arc[ai].workspace_path.as_str());
            push_node(tree, TreeNode::ArchivedSession(wi, ai));
            j = j + 1;
            assert(order@.take(j as int).map_values(
                    |ai: usize| NodeView::ArchivedSession(ws_index_for(store.workspaces@, arc@[ai as int].workspace_path@), ai))
                =~= order@.take(j - 1).map_values(
                    |ai: usize| NodeView::ArchivedSession(ws_index_for(store.workspaces@, arc@[ai as int].workspace_path@), ai)).push(NodeView::ArchivedSession(wi, ai)));
        }
        assert(order@.take(order.len() as int) =~= order@);
        assert(tree_view(tree@) =~= start + archived_rows(*store));
    } else {
        assert(tree_view(tree@) =~= start + archived_rows(*store));
    }
}

/// Selection after the tree is rebuilt: clamped into range when the tree is
/// non-empty, untouched otherwise.
pub open spec fn clamped_selection(sel: Option<usize>, len: nat) -> Option<usize> {
    if len == 0 {
        sel
    } else {
        let cur = match sel { Some(i) => i as int, None => 0 };
        Some((if cur < len { cur } else { len - 1 }) as usize)
    }
}

/// Rebuilds the sidebar tree and the per-workspace session lists from the
/// sessions, the filters and the environment, and clamps the selection.
pub fn rebuild_tree(store: &mut SessionStore, f: &ViewFilters, env: &TreeEnv)
    requires
        env_wf(*old(store), *env),
    ensures
        tree_view(final(store).tree@) == tree_spec(*old(store), *f, *env),
        final(store).ws_session_map@.map_values(|v: Vec<usize>| v@) == ws_map(*old(store), *f, *env, old(store).workspaces.len() as nat),
        final(store).recent_count == recent_indices(*old(store), *f, *env).len(),
        tree_view(final(store).tree@) == tree_spec(*final(store), *f, *env),
        env_wf(*final(store), *env),
        final(store).selected == clamped_selection(old(store).selected, final(store).tree.len() as nat),
        final(store).workspaces == old(store).workspaces,
        final(store).sessions == old(store).sessions,
        final(store).archived_sessions == old(store).archived_sessions,
        final(store).show_archived == old(store).show_archived,
        final(store).archive_days == old(store).archive_days,
        final(store).pinned_expanded == old(store).pinned_expanded,
        final(store).recent_expanded == old(store).recent_expanded,
{
    let ghost st = *store;
    let (text, cutoff) = query_parts(f, env.now);
    let mut tree: Vec<TreeNode> = Vec::new();
    let mut map: Vec<Vec<usize>> = Vec::new();
    // Pinned group
    let pins = collect_pinned(&store.sessions);
    if pins.len() > 0 {
        push_node(&mut tree, TreeNode::PinnedWorkspace);
        if store.pinned_expanded {
            let order = sort_by_recency(&store.sessions, &pins);
            push_located_rows(&mut tree, &store.workspaces, &store.sessions, &order);
        }
    }
    assert(tree_view(tree@) =~= pinned_rows(st));
    // Recent group
    let recent = collect_recent(store, f, env, cutoff);
    let recent_count = recent.len();
    if recent.len() > 0 {
        push_node(&mut tree, TreeNode::RecentWorkspace);
        if store.recent_expanded {
            push_located_rows(&mut tree, &store.workspaces, &store.sessions, &recent);
        }
    }
    assert(tree_view(tree@) =~= pinned_rows(st) + recent_rows(st, *f, *env));
    // Workspaces
    let mut wi: usize = 0;
    assert(map@.map_values(|v: Vec<usize>| v@) =~= ws_map(st, *f, *env, 0));
    while wi < store.workspaces.len()
        invariant
            wi <= store.workspaces.len(),
            *store == st,
            env_wf(st, *env),
            opt_string_view(text) == search_text(*f),
            cutoff == search_cutoff(*f, env.now),
            tree_view(tree@) == pinned_rows(st) + recent_rows(st, *f, *env) + ws_rows(st, *f, *env, wi as nat),
            map@.map_values(|v: Vec<usize>| v@) == ws_map(st, *f, *env, wi as nat),
        decreases store.workspaces.len() - wi,
    {
        append_workspace(store, f, env, &text, cutoff, wi, &mut tree, &mut map);
        wi = wi + 1;
        assert(tree_view(tree@) =~= pinned_rows(st) + recent_rows(st, *f, *env) + ws_rows(st, *f, *env, wi as nat));
    }
    push_archived(&mut tree, store);
    assert(tree_view(tree@) =~= tree_spec(st, *f, *env));
    let len = tree.len();
    store.tree = tree;
    store.ws_session_map = map;
    store.recent_count = recent_count;
    if len > 0 {
        let cur = match store.selected {
            Some(i) => i,
            None => 0,
        };
        store.selected = Some(if cur < len { cur } else { len - 1 });
    }
    proof { lemma_tree_spec_congruent(st, *store, *f, *env); }
}

/// The tree only depends on the workspaces, sessions, archive and group
/// expansion flags.
pub open spec fn same_tree_inputs(a: SessionStore, b: SessionStore) -> bool {
    &&& a.workspaces == b.workspaces
    &&& a.sessions == b.sessions
    &&& a.archived_sessions == b.archived_sessions
    &&& a.show_archived == b.show_archived
    &&& a.pinned_expanded == b.pinned_expanded
    &&& a.recent_expanded == b.recent_expanded
}

proof fn lemma_ws_rows_congruent(a: SessionStore, b: SessionStore, f: ViewFilters, env: TreeEnv, k: nat)
    requires
        same_tree_inputs(a, b),
    ensures
        ws_rows(a, f, env, k) == ws_rows(b, f, env, k),
        ws_map(a, f, env, k) == ws_map(b, f, env, k),
    decreases k,
{
    if k > 0 {
        lemma_ws_rows_congruent(a, b, f, env, (k - 1) as nat);
        assert(ws_part(a, f, env, (k - 1) as usize) == ws_part(b, f, env, (k - 1) as usize));
    }
}

/// Stores that agree on the tree's inputs have the same tree.
pub proof fn lemma_tree_spec_congruent(a: SessionStore, b: SessionStore, f: ViewFilters, env: TreeEnv)
    requires
        same_tree_inputs(a, b),
    ensures
        tree_spec(a, f, env) == tree_spec(b, f, env),
        ws_map(a, f, env, a.workspaces.len() as nat) == ws_map(b, f, env, b.workspaces.len() as nat),
        recent_indices(a, f, env) == recent_indices(b, f, env),
{
    lemma_ws_rows_congruent(a, b, f, env, a.workspaces.len() as nat);
}

// ───────────────────────── selection ─────────────────────────

/// Everything but the selection is the same.
pub open spec fn same_but_selection(a: SessionStore, b: SessionStore) -> bool {
    &&& a.workspaces == b.workspaces
    &&& a.sessions == b.sessions
    &&& a.tree == b.tree
    &&& a.ws_session_map == b.ws_session_map
    &&& a.archived_sessions == b.archived_sessions
    &&& a.show_archived == b.show_archived
    &&& a.archive_days == b.archive_days
    &&& a.pinned_expanded == b.pinned_expanded
    &&& a.recent_expanded == b.recent_expanded
    &&& a.recent_count == b.recent_count
}

/// Selection after moving by `delta` rows: the current row (clamped into
/// range, 0 when nothing is selected) moved with wrap-around.
pub open spec fn moved_selection(sel: Option<usize>, len: nat, delta: int) -> Option<usize> {
    if len == 0 {
        sel
    } else {
        let cur = match sel { Some(i) => i as int, None => 0 };
        let c = if cur < len { cur } else { len - 1 };
        Some(wrap_spec(c, delta, len as int) as usize)
    }
}


/// After a rebuild of a non-empty tree some row is selected, and it is in
/// range.
pub proof fn lemma_clamped_selection_in_range(sel: Option<usize>, len: nat)
    requires
        len > 0,
        len <= usize::MAX,
    ensures
        clamped_selection(sel, len) matches Some(i) && i < len,
{
}

/// Moving the selection down and then up again (or up, then down) returns
/// to the row it started on, when that row was in range.
pub proof fn lemma_move_round_trip(i: usize, len: nat, delta: int)
    requires
        i < len,
        len <= usize::MAX,
        delta == 1 || delta == -1,
    ensures
        moved_selection(moved_selection(Some(i), len, delta), len, -delta) == Some(i),
{
    let l = len as int;
    let x = i as int;
    if delta == 1 {
        if x + 1 < l {
            vstd::arithmetic::div_mod::lemma_fundamental_div_mod_converse(x + 1, l, 0, x + 1);
            vstd::arithmetic::div_mod::lemma_fundamental_div_mod_converse(x, l, 0, x);
        } else {
            vstd::arithmetic::div_mod::lemma_fundamental_div_mod_converse(x + 1, l, 1, 0);
            vstd::arithmetic::div_mod::lemma_fundamental_div_mod_converse(-1, l, -1, l - 1);
        }
    } else {
        if x > 0 {
            vstd::arithmetic::div_mod::lemma_fundamental_div_mod_converse(x - 1, l, 0, x - 1);
            vstd::arithmetic::div_mod::lemma_fundamental_div_mod_converse(x, l, 0, x);
        } else {
            vstd::arithmetic::div_mod::lemma_fundamental_div_mod_converse(-1, l, -1, l - 1);
            vstd::arithmetic::div_mod::lemma_fundamental_div_mod_converse(l, l, 1, 0);
        }
    }
}

/// Moves the sidebar selection by `delta` rows, wrapping around.
pub fn move_sel(store: &mut SessionStore, delta: isize)
    ensures
        final(store).selected == moved_selection(old(store).selected, old(store).tree.len() as nat, delta as int),
        same_but_selection(*final(store), *old(store)),
{
    let len = store.tree.len();
    if len == 0 {
        return;
    }
    let cur = match store.selected {
        Some(i) => i,
        None => 0,
    };
    let c = if cur < len { cur } else { len - 1 };
    store.selected = Some(wrap_move(c, delta, len));
}

/// The selected row, if the selection is in range.
pub fn selected_node(store: &SessionStore) -> (r: Option<&TreeNode>)
    ensures
        r == (match store.selected {
            Some(i) => if i < store.tree.len() { Some(&store.tree@[i as int]) } else { None },
            None => None,
        }),
{
    match store.selected {
        Some(i) => if i < store.tree.len() { Some(&store.tree[i]) } else { None },
        None => None,
    }
}

/// The selected row as a value.
pub open spec fn selected_view(store: SessionStore) -> Option<NodeView> {
    match store.selected {
        Some(i) => if i < store.tree.len() { Some(node_view(store.tree@[i as int])) } else { None },
        None => None,
    }
}

/// The workspace a toggle applies to: the selected row is a workspace row
/// with an index in range.
pub open spec fn toggled_workspace(store: SessionStore) -> Option<usize> {
    match selected_view(store) {
        Some(NodeView::Workspace(wi)) => if wi < store.workspaces.len() { Some(wi) } else { None },
        _ => None,
    }
}

/// What toggling the expansion of the selected row does.
pub open spec fn expand_post(a: SessionStore, b: SessionStore, f: ViewFilters, env: TreeEnv) -> bool {
    &&& (match toggled_workspace(a) {
        Some(wi) => b.workspaces@ == a.workspaces@.update(wi as int,
            Workspace { expanded: !a.workspaces@[wi as int].expanded, ..a.workspaces@[wi as int] }),
        None => b.workspaces == a.workspaces,
    })
    &&& (selected_view(a) == Some(NodeView::PinnedWorkspace) ==> b.pinned_expanded == !a.pinned_expanded)
    &&& (selected_view(a) != Some(NodeView::PinnedWorkspace) ==> b.pinned_expanded == a.pinned_expanded)
    &&& (selected_view(a) == Some(NodeView::RecentWorkspace) ==> b.recent_expanded == !a.recent_expanded)
    &&& (selected_view(a) != Some(NodeView::RecentWorkspace) ==> b.recent_expanded == a.recent_expanded)
    &&& (toggled_workspace(a) is None
        && selected_view(a) != Some(NodeView::PinnedWorkspace)
        && selected_view(a) != Some(NodeView::RecentWorkspace) ==> b == a)
    &&& (!(b == a) ==> tree_view(b.tree@) == tree_spec(b, f, env)
        && b.selected == clamped_selection(a.selected, b.tree.len() as nat)
        && b.ws_session_map@.map_values(|v: Vec<usize>| v@) == ws_map(b, f, env, b.workspaces.len() as nat)
        && b.recent_count == recent_indices(b, f, env).len())
    &&& (b.sessions == a.sessions)
    &&& (b.archived_sessions == a.archived_sessions)
    &&& (b.show_archived == a.show_archived)
    &&& (b.archive_days == a.archive_days)
}

/// Toggles the expansion of the selected workspace, pinned group or recent
/// group, and rebuilds the tree; other rows are left alone.
pub fn toggle_expand(store: &mut SessionStore, f: &ViewFilters, env: &TreeEnv)
    requires
        env_wf(*old(store), *env),
    ensures
        env_wf(*final(store), *env),
        expand_post(*old(store), *final(store), *f, *env),
{
    let sel = match store.selected {
        Some(i) => if i < store.tree.len() { Some(i) } else { None },
        None => None,
    };
    let Some(i) = sel else { return; };
    match &store.tree[i] {
        TreeNode::Workspace(wi) => {
            let wi = *wi;
            if wi < store.workspaces.len() {
                let e = store.workspaces[wi].expanded;
                let mut ws: Vec<Workspace> = Vec::new();
                std::mem::swap(&mut ws, &mut store.workspaces);
                let mut w = ws.remove(wi);
                w.expanded = !e;
                ws.insert(wi, w);
                store.workspaces = ws;
                assert(env_wf(*store, *env)) by {
                    assert forall|j: int| 0 <= j < store.workspaces.len() implies ((#[trigger] store.workspaces[j]).path matches Some(p) ==> env.cwds[j]@ == p@) by {
                        if j < wi { assert(store.workspaces@[j] == old(store).workspaces@[j]); }
                        else if j > wi { assert(store.workspaces@[j] == old(store).workspaces@[j]); }
                    }
                }
                let ghost mid = *store;
                rebuild_tree(store, f, env);
                proof { lemma_tree_spec_congruent(mid, *store, *f, *env); }
                assert(store.workspaces@[wi as int].expanded != old(store).workspaces@[wi as int].expanded);
                assert(store.workspaces@ =~= old(store).workspaces@.update(wi as int,
                    Workspace { expanded: !old(store).workspaces@[wi as int].expanded, ..old(store).workspaces@[wi as int] }));
            }
        },
        TreeNode::PinnedWorkspace => {
            store.pinned_expanded = !store.pinned_expanded;
            let ghost mid = *store;
            rebuild_tree(store, f, env);
            proof { lemma_tree_spec_congruent(mid, *store, *f, *env); }
        },
        TreeNode::RecentWorkspace => {
            store.recent_expanded = !store.recent_expanded;
            let ghost mid = *store;
            rebuild_tree(store, f, env);
            proof { lemma_tree_spec_congruent(mid, *store, *f, *env); }
        },
        _ => {},
    }
}

// ───────────────────────── archiving ─────────────────────────

/// The sessions of `s` satisfying `p`, in order.
pub open spec fn select_sessions(s: Seq<Session>, p: spec_fn(Session) -> bool) -> Seq<Session>
    decreases s.len(),
{
    if s.len() == 0 {
        Seq::empty()
    } else if p(s.last()) {
        select_sessions(s.drop_last(), p).push(s.last())
    } else {
        select_sessions(s.drop_last(), p)
    }
}

/// A session stays active: recent enough, or open in a running tab.
pub open spec fn stays_active(threshold: u64, active_ids: Seq<String>, s: Session) -> bool {
    s.last_active >= threshold || exists|k: int| 0 <= k < active_ids.len() && (#[trigger] active_ids[k])@ == s.id@
}

fn contains_id(ids: &Vec<String>, id: &String) -> (r: bool)
    ensures
        r == exists|k: int| 0 <= k < ids.len() && (#[trigger] ids@[k])@ == id@,
{
    let mut k: usize = 0;
    while k < ids.len()
        invariant
            k <= ids.len(),
            forall|j: int| 0 <= j < k ==> (#[trigger] ids@[j])@ != id@,
        decreases ids.len() - k,
    {
        if ids[k] == *id {
            return true;
        }
        k = k + 1;
    }
    false
}

/// Splits `v` into the sessions that stay active and the others, keeping order.
fn split_sessions(v: Vec<Session>, threshold: u64, active_ids: &Vec<String>) -> (r: (Vec<Session>, Vec<Session>))
    ensures
        r.0@ == select_sessions(v@, |s: Session| stays_active(threshold, active_ids@, s)),
        r.1@ == select_sessions(v@, |s: Session| !stays_active(threshold, active_ids@, s)),
{
    let ghost orig = v@;
    let ghost p = |s: Session| stays_active(threshold, active_ids@, s);
    let ghost np = |s: Session| !stays_active(threshold, active_ids@, s);
    let mut rest = v;
    let mut yes: Vec<Session> = Vec::new();
    let mut no: Vec<Session> = Vec::new();
    let mut j: usize = 0;
    let n = rest.len();
    while rest.len() > 0
        invariant
            n == orig.len(),
            j <= n,
            j + rest.len() == n,
            rest@ == orig.skip(j as int),
            p == (|s: Session| stays_active(threshold, active_ids@, s)),
            np == (|s: Session| !stays_active(threshold, active_ids@, s)),
            yes@ == select_sessions(orig.take(j as int), p),
            no@ == select_sessions(orig.take(j as int), np),
        decreases rest.len(),
    {
        let s = rest.remove(0);
        proof {
            assert(orig.take(j + 1).drop_last() =~= orig.take(j as int));
            assert(orig.take(j + 1).last() == s);
            assert(rest@ =~= orig.skip(j + 1));
        }
        let keep_it = s.last_active >= threshold || contains_id(active_ids, &s.id);
        if keep_it {
            yes.push(s);
        } else {
            no.push(s);
        }
        j = j + 1;
    }
    assert(orig.take(n as int) =~= orig);
    (yes, no)
}

/// The archive step's effect on the session lists, for a threshold: the
/// active list keeps its stale-free sessions followed by the archived ones
/// that are fresh again; the archive receives the newly stale sessions.
pub open spec fn archive_result(sessions: Seq<Session>, archived: Seq<Session>, threshold: u64, active_ids: Seq<String>) -> (Seq<Session>, Seq<Session>) {
    let p = |s: Session| stays_active(threshold, active_ids, s);
    let np = |s: Session| !stays_active(threshold, active_ids, s);
    (select_sessions(sessions, p) + select_sessions(archived, p), select_sessions(sessions, np))
}

fn append_sessions(a: &mut Vec<Session>, b: Vec<Session>)
    ensures
        final(a)@ == old(a)@ + b@,
{
    let ghost start = a@;
    let ghost orig = b@;
    let n = b.len();
    let mut rest = b;
    let mut j: usize = 0;
    while rest.len() > 0
        invariant
            n == orig.len(),
            j <= orig.len(),
            j + rest.len() == orig.len(),
            rest@ == orig.skip(j as int),
            a@ == start + orig.take(j as int),
        decreases rest.len(),
    {
        let s = rest.remove(0);
        assert(rest@ =~= orig.skip(j + 1));
        a.push(s);
        j = j + 1;
        assert(a@ =~= start + orig.take(j as int));
    }
    assert(orig.take(j as int) =~= orig);
}

/// Moves sessions inactive for more than `archive_days` days (and not open in
/// a tab) to the archive, restoring archived sessions that are recent enough
/// again; the tree is rebuilt when something new was archived.
pub fn archive_old_sessions(store: &mut SessionStore, now: u64, active_ids: &Vec<String>, f: &ViewFilters, env: &TreeEnv)
    requires
        env_wf(*old(store), *env),
        old(store).archive_days matches Some(d) ==> d * 86400 <= now,
    ensures
        env_wf(*final(store), *env),
        final(store).workspaces == old(store).workspaces,
        match old(store).archive_days {
            Some(d) if d > 0 => {
                let threshold = (now - d * 86400) as u64;
                let r = archive_result(old(store).sessions@, old(store).archived_sessions@, threshold, active_ids@);
                &&& final(store).sessions@ == r.0
                &&& final(store).archived_sessions@ == r.1
                &&& r.1.len() > 0 ==> tree_view(final(store).tree@) == tree_spec(*final(store), *f, *env)
            },
            _ => *final(store) == *old(store),
        },
{
    let days = match store.archive_days {
        Some(d) => d,
        None => { return; },
    };
    if days == 0 {
        return;
    }
    let threshold = now - days * 86400;
    let mut sessions: Vec<Session> = Vec::new();
    std::mem::swap(&mut sessions, &mut store.sessions);
    let mut archived: Vec<Session> = Vec::new();
    std::mem::swap(&mut archived, &mut store.archived_sessions);
    let (mut active, stale) = split_sessions(sessions, threshold, active_ids);
    let (restored, _dropped) = split_sessions(archived, threshold, active_ids);
    append_sessions(&mut active, restored);
    let count = stale.len();
    store.sessions = active;
    store.archived_sessions = stale;
    if count > 0 {
        rebuild_tree(store, f, env);
    }
}

/// The first tree row showing the session with the given id.
pub fn find_session_row(store: &SessionStore, session_id: &str) -> (r: Option<usize>)
    ensures
        match r {
            Some(i) => i < store.tree.len() && row_shows_session(*store, i as int, session_id@)
                && forall|j: int| 0 <= j < i ==> !row_shows_session(*store, j, session_id@),
            None => forall|j: int| 0 <= j < store.tree.len() ==> !row_shows_session(*store, j, session_id@),
        },
{
    let mut i: usize = 0;
    while i < store.tree.len()
        invariant
            i <= store.tree.len(),
            forall|j: int| 0 <= j < i ==> !row_shows_session(*store, j, session_id@),
        decreases store.tree.len() - i,
    {
        match &store.tree[i] {
            TreeNode::Session(_, si) => {
                if *si < store.sessions.len() && str_eq(store.sessions[*si].id.as_str(), session_id) {
                    return Some(i);
                }
            },
            _ => {},
        }
        i = i + 1;
    }
    None
}

/// Row `i` is a session row for the session with this id.
pub open spec fn row_shows_session(store: SessionStore, i: int, id: Seq<char>) -> bool {
    store.tree@[i] matches TreeNode::Session(_, si) && si < store.sessions.len() && store.sessions@[si as int].id@ == id
}

// ───────────────────────── ignored sessions ─────────────────────────

/// Sessions a workspace's project settings hide: those whose id or title
/// contains one of the patterns.
pub struct IgnoreRule {
    pub workspace_path: String,
    pub patterns: Vec<String>,
}

/// Some pattern of the rule occurs in the session's id or title.
pub open spec fn matches_rule(s: Session, r: IgnoreRule) -> bool {
    &&& r.workspace_path@ == s.workspace_path@
    &&& exists|k: int| 0 <= k < r.patterns.len()
        && (contains_spec(s.id@, (#[trigger] r.patterns@[k])@) || contains_spec(s.title@, r.patterns@[k]@))
}

/// Some rule for the session's workspace hides it.
pub open spec fn ignored(s: Session, rules: Seq<IgnoreRule>) -> bool {
    exists|j: int| 0 <= j < rules.len() && matches_rule(s, #[trigger] rules[j])
}

fn rule_hides(s: &Session, r: &IgnoreRule) -> (b: bool)
    ensures
        b == matches_rule(*s, *r),
{
    if !str_eq(r.workspace_path.as_str(), s.workspace_path.as_str()) {
        return false;
    }
    let mut k: usize = 0;
    while k < r.patterns.len()
        invariant
            k <= r.patterns.len(),
            r.workspace_path@ == s.workspace_path@,
            forall|t: int| 0 <= t < k ==> !(contains_spec(s.id@, (#[trigger] r.patterns@[t])@) || contains_spec(s.title@, r.patterns@[t]@)),
        decreases r.patterns.len() - k,
    {
        if contains_str(s.id.as_str(), r.patterns[k].as_str()) || contains_str(s.title.as_str(), r.patterns[k].as_str()) {
            return true;
        }
        k = k + 1;
    }
    false
}

/// The sessions that no rule hides, in order (a rule hides the sessions of
/// its workspace whose id or title contains one of its patterns).
pub fn drop_ignored_sessions(sessions: Vec<Session>, rules: &Vec<IgnoreRule>) -> (r: Vec<Session>)
    ensures
        r@ == select_sessions(sessions@, |s: Session| !ignored(s, rules@)),
{
    let ghost p = |s: Session| !ignored(s, rules@);
    let mut out: Vec<Session> = Vec::new();
    let mut rest = sessions;
    let ghost all = rest@;
    let n = rest.len();
    let mut i: usize = 0;
    while i < n
        invariant
            i <= n,
            n == all.len(),
            rest@ == all.subrange(i as int, n as int),
            out@ == select_sessions(all.take(i as int), p),
            p == (|s: Session| !ignored(s, rules@)),
        decreases n - i,
    {
        let s = rest.remove(0);
        let mut hidden = false;
        let mut j: usize = 0;
        while j < rules.len()
            invariant
                j <= rules.len(),
                hidden == exists|t: int| 0 <= t < j && matches_rule(s, #[trigger] rules@[t]),
            decreases rules.len() - j,
        {
            if rule_hides(&s, &rules[j]) {
                hidden = true;
            }
            j = j + 1;
        }
        proof {
            assert(all.take(i + 1).drop_last() =~= all.take(i as int));
            assert(all.take(i + 1).last() == s);
        }
        if !hidden {
            out.push(s);
        }
        i = i + 1;
        assert(rest@ =~= all.subrange(i as int, n as int));
    }
    assert(all.take(n as int) =~= all);
    out
}

// ───────────────────────── the tag filter ─────────────────────────

/// Session `si` exists, is not pinned, and carries a tag equal to `t`
/// ignoring ASCII case.
pub open spec fn unpinned_tagged(ss: Seq<Session>, t: Seq<char>, si: usize) -> bool {
    &&& si < ss.len()
    &&& !ss[si as int].pinned
    &&& exists|k: int| 0 <= k < ss[si as int].tags@.len() && eq_ignore_ascii_case_spec(#[trigger] ss[si as int].tags@[k]@, t)
}

/// Every session row of `rows` names an existing session that is pinned or
/// carries a tag equal to `t` ignoring ASCII case.
pub open spec fn session_rows_tagged(ss: Seq<Session>, t: Seq<char>, rows: Seq<NodeView>) -> bool {
    forall|i: int| 0 <= i < rows.len() ==> (#[trigger] rows[i] matches NodeView::Session(_, si)
        ==> si < ss.len() && (ss[si as int].pinned || unpinned_tagged(ss, t, si)))
}

proof fn lemma_indices_where_each(n: nat, p: spec_fn(int) -> bool)
    requires
        n <= usize::MAX + 1,
    ensures
        forall|i: int| 0 <= i < indices_where(n, p).len()
            ==> (#[trigger] indices_where(n, p)[i]) < n && p(indices_where(n, p)[i] as int),
    decreases n,
{
    if n > 0 {
        let r = indices_where((n - 1) as nat, p);
        lemma_indices_where_each((n - 1) as nat, p);
        assert(((n - 1) as usize) as int == n - 1);
        assert forall|i: int| 0 <= i < indices_where(n, p).len()
            implies (#[trigger] indices_where(n, p)[i]) < n && p(indices_where(n, p)[i] as int) by {
            if i < r.len() {
                assert(indices_where(n, p)[i] == r[i]);
            } else {
                assert(indices_where(n, p)[i] == (n - 1) as usize);
            }
        }
    }
}

proof fn lemma_keep_each(s: Seq<usize>, p: spec_fn(usize) -> bool, q: spec_fn(usize) -> bool)
    requires
        forall|i: int| 0 <= i < s.len() ==> q(#[trigger] s[i]),
    ensures
        forall|i: int| 0 <= i < keep(s, p).len() ==> q(#[trigger] keep(s, p)[i]),
    decreases s.len(),
{
    if s.len() > 0 {
        let r = keep(s.drop_last(), p);
        lemma_keep_each(s.drop_last(), p, q);
        assert(q(s[s.len() - 1]));
        assert forall|i: int| 0 <= i < keep(s, p).len() implies q(#[trigger] keep(s, p)[i]) by {
            if i < r.len() {
                assert(keep(s, p)[i] == r[i]);
            } else {
                assert(keep(s, p)[i] == s.last());
            }
        }
    }
}

proof fn lemma_sort_each(s: Seq<usize>, lt: spec_fn(usize, usize) -> bool, q: spec_fn(usize) -> bool)
    requires
        forall|i: int| 0 <= i < s.len() ==> q(#[trigger] s[i]),
    ensures
        forall|i: int| 0 <= i < stable_sort(s, lt).len() ==> q(#[trigger] stable_sort(s, lt)[i]),
{
    broadcast use vstd::seq_lib::group_to_multiset_ensures;
    crate::ordering::lemma_stable_sort_multiset(s, lt);
    let r = stable_sort(s, lt);
    assert forall|i: int| 0 <= i < r.len() implies q(#[trigger] r[i]) by {
        assert(r.contains(r[i]));
        assert(s.to_multiset().count(r[i]) > 0);
        assert(s.contains(r[i]));
    }
}

proof fn lemma_tagged_rows_add(ss: Seq<Session>, t: Seq<char>, a: Seq<NodeView>, b: Seq<NodeView>)
    requires
        session_rows_tagged(ss, t, a),
        session_rows_tagged(ss, t, b),
    ensures
        session_rows_tagged(ss, t, a + b),
{
    assert forall|i: int| 0 <= i < (a + b).len() implies (#[trigger] (a + b)[i] matches NodeView::Session(_, si)
        ==> si < ss.len() && (ss[si as int].pinned || unpinned_tagged(ss, t, si))) by {
        if i < a.len() {
            assert((a + b)[i] == a[i]);
        } else {
            assert((a + b)[i] == b[i - a.len()]);
        }
    }
}

proof fn lemma_sessions_part_tagged(mode: SortMode, ss: Seq<Session>, t: Seq<char>, wi: usize, idx: Seq<usize>)
    requires
        forall|i: int| 0 <= i < idx.len() ==> unpinned_tagged(ss, t, #[trigger] idx[i]),
    ensures
        session_rows_tagged(ss, t, sessions_part(mode, ss, wi, idx)),
{
    let q = |si: usize| unpinned_tagged(ss, t, si);
    assert forall|p: spec_fn(usize) -> bool| session_rows_tagged(ss, t, #[trigger] session_rows(wi, keep(idx, p))) by {
        lemma_keep_each(idx, p, q);
    }
    assert(session_rows_tagged(ss, t, session_rows(wi, idx)));
    assert forall|a: Agent| session_rows_tagged(ss, t, #[trigger] agent_group(ss, wi, idx, a)) by {
        let g = keep(idx, |si: usize| ss[si as int].agent == a);
        assert(session_rows_tagged(ss, t, session_rows(wi, g)));
        assert(session_rows_tagged(ss, t, seq![NodeView::AgentHeader(a)]));
        lemma_tagged_rows_add(ss, t, seq![NodeView::AgentHeader(a)], session_rows(wi, g));
    }
    lemma_tagged_rows_add(ss, t, agent_group(ss, wi, idx, Agent::Cc), agent_group(ss, wi, idx, Agent::Codex));
    lemma_tagged_rows_add(ss, t, agent_group(ss, wi, idx, Agent::Cc) + agent_group(ss, wi, idx, Agent::Codex),
        agent_group(ss, wi, idx, Agent::Omp));
}

proof fn lemma_ws_part_tagged(store: SessionStore, f: ViewFilters, env: TreeEnv, wi: usize, t: Seq<char>)
    requires
        f.tag_filter matches Some(ft) && ft@ == t,
    ensures
        session_rows_tagged(store.sessions@, t, ws_part(store, f, env, wi).0),
        forall|j: int| 0 <= j < ws_part(store, f, env, wi).1.len()
            ==> unpinned_tagged(store.sessions@, t, #[trigger] ws_part(store, f, env, wi).1[j]),
{
    let wss = store.workspaces@;
    let ss = store.sessions@;
    let cutoff = search_cutoff(f, env.now);
    let p = |i: int| in_workspace(env, wi as int, ss[i].workspace_path@) && !ss[i].pinned && passes_filters(f, cutoff, ss[i]);
    let q = |si: usize| unpinned_tagged(ss, t, si);
    let sess = ws_sessions(ss, f, env, wi);
    assert(store.sessions.len() == ss.len());
    assert(sess == indices_where(ss.len(), p));
    lemma_indices_where_each(ss.len(), p);
    assert forall|i: int| 0 <= i < sess.len() implies q(#[trigger] sess[i]) by {
        assert(p(sess[i] as int));
    }
    let order = index_lt(f.sort_mode, ss);
    let head = seq![NodeView::Workspace(wi)] + warning_rows(wss, env, wi);
    assert(session_rows_tagged(ss, t, seq![NodeView::Workspace(wi)]));
    assert(session_rows_tagged(ss, t, warning_rows(wss, env, wi)));
    lemma_tagged_rows_add(ss, t, seq![NodeView::Workspace(wi)], warning_rows(wss, env, wi));
    assert forall|ptys: Seq<usize>| session_rows_tagged(ss, t, #[trigger] tab_rows(ptys)) by {}
    match search_text(f) {
        Some(qt) => {
            let kept = keep(sess, |si: usize| session_matches(wss, ss, wi, qt, si));
            lemma_keep_each(sess, |si: usize| session_matches(wss, ss, wi, qt, si), q);
            lemma_sort_each(kept, order, q);
            let matching = stable_sort(kept, order);
            let ptys = indices_where(env.tabs@.len(), |pi: int| tab_listed(f, env, wi, pi) && session_fuzzy_spec(env.tabs[pi].title@, env.tabs[pi].title@, qt));
            lemma_sessions_part_tagged(f.sort_mode, ss, t, wi, matching);
            lemma_tagged_rows_add(ss, t, head, tab_rows(ptys));
            lemma_tagged_rows_add(ss, t, head + tab_rows(ptys), sessions_part(f.sort_mode, ss, wi, matching));
            assert(session_rows_tagged(ss, t, Seq::<NodeView>::empty()));
        },
        None => {
            lemma_sort_each(sess, order, q);
            let sorted = stable_sort(sess, order);
            let ptys = indices_where(env.tabs@.len(), |pi: int| tab_listed(f, env, wi, pi));
            lemma_sessions_part_tagged(f.sort_mode, ss, t, wi, sorted);
            lemma_tagged_rows_add(ss, t, tab_rows(ptys), sessions_part(f.sort_mode, ss, wi, sorted));
            assert(session_rows_tagged(ss, t, Seq::<NodeView>::empty()));
            let body = if wss[wi as int].expanded { tab_rows(ptys) + sessions_part(f.sort_mode, ss, wi, sorted) } else { Seq::empty() };
            lemma_tagged_rows_add(ss, t, head, body);
        },
    }
}

proof fn lemma_ws_rows_tagged(store: SessionStore, f: ViewFilters, env: TreeEnv, k: nat, t: Seq<char>)
    requires
        f.tag_filter matches Some(ft) && ft@ == t,
    ensures
        session_rows_tagged(store.sessions@, t, ws_rows(store, f, env, k)),
        forall|w: int, j: int| 0 <= w < ws_map(store, f, env, k).len() && 0 <= j < ws_map(store, f, env, k)[w].len()
            ==> unpinned_tagged(store.sessions@, t, #[trigger] ws_map(store, f, env, k)[w][j]),
        ws_map(store, f, env, k).len() == k,
    decreases k,
{
    if k == 0 {
        assert(session_rows_tagged(store.sessions@, t, Seq::<NodeView>::empty()));
    } else {
        let w = (k - 1) as usize;
        lemma_ws_rows_tagged(store, f, env, (k - 1) as nat, t);
        lemma_ws_part_tagged(store, f, env, w, t);
        lemma_tagged_rows_add(store.sessions@, t, ws_rows(store, f, env, (k - 1) as nat), ws_part(store, f, env, w).0);
        let prev = ws_map(store, f, env, (k - 1) as nat);
        let m = ws_map(store, f, env, k);
        assert(m == prev.push(ws_part(store, f, env, w).1));
        assert forall|a: int, j: int| 0 <= a < m.len() && 0 <= j < m[a].len()
            implies unpinned_tagged(store.sessions@, t, #[trigger] m[a][j]) by {
            if a < prev.len() {
                assert(m[a] == prev[a]);
            } else {
                assert(m[a] == ws_part(store, f, env, w).1);
            }
        }
    }
}

/// With a tag filter set, rebuilding the tree lists a saved session only if it
/// carries a tag equal to the filter ignoring ASCII case, or is pinned (the
/// pinned group shows its sessions whatever the filters); and every session
/// the per-workspace map records is unpinned and carries such a tag.
pub proof fn lemma_tag_filter_respected(store: SessionStore, f: ViewFilters, env: TreeEnv)
    requires
        f.tag_filter is Some,
    ensures
        forall|i: int| 0 <= i < tree_spec(store, f, env).len() ==> (#[trigger] tree_spec(store, f, env)[i] matches NodeView::Session(_, si)
            ==> si < store.sessions@.len() && (store.sessions@[si as int].pinned
                || exists|k: int| 0 <= k < store.sessions@[si as int].tags@.len()
                    && eq_ignore_ascii_case_spec(#[trigger] store.sessions@[si as int].tags@[k]@, f.tag_filter->0@))),
        forall|w: int, j: int| 0 <= w < ws_map(store, f, env, store.workspaces.len() as nat).len()
            && 0 <= j < ws_map(store, f, env, store.workspaces.len() as nat)[w].len()
            ==> {
                let si = #[trigger] ws_map(store, f, env, store.workspaces.len() as nat)[w][j];
                &&& si < store.sessions@.len()
                &&& !store.sessions@[si as int].pinned
                &&& exists|k: int| 0 <= k < store.sessions@[si as int].tags@.len()
                    && eq_ignore_ascii_case_spec(#[trigger] store.sessions@[si as int].tags@[k]@, f.tag_filter->0@)
            },
{
    let ss = store.sessions@;
    let t = f.tag_filter->0@;
    let q = |si: usize| unpinned_tagged(ss, t, si);
    let pins = pinned_indices(ss);
    assert(store.sessions.len() == ss.len());
    lemma_indices_where_each(ss.len(), |i: int| ss[i].pinned);
    let pq = |si: usize| si < ss.len() && ss[si as int].pinned;
    assert forall|i: int| 0 <= i < pins.len() implies pq(#[trigger] pins[i]) by {
        assert((|i: int| ss[i].pinned)(pins[i] as int));
    }
    lemma_sort_each(pins, newer_lt(ss), pq);
    let sorted_pins = stable_sort(pins, newer_lt(ss));
    assert(session_rows_tagged(ss, t, located_rows(store.workspaces@, ss, sorted_pins)));
    assert(session_rows_tagged(ss, t, seq![NodeView::PinnedWorkspace]));
    lemma_tagged_rows_add(ss, t, seq![NodeView::PinnedWorkspace], located_rows(store.workspaces@, ss, sorted_pins));
    assert(session_rows_tagged(ss, t, Seq::<NodeView>::empty()));
    assert(session_rows_tagged(ss, t, pinned_rows(store)));
    let rp = |i: int| recent_candidate(f, env, ss[i]);
    let cands = indices_where(ss.len(), rp);
    lemma_indices_where_each(ss.len(), rp);
    assert forall|i: int| 0 <= i < cands.len() implies q(#[trigger] cands[i]) by {
        assert(rp(cands[i] as int));
    }
    lemma_sort_each(cands, newer_lt(ss), q);
    let rec = recent_indices(store, f, env);
    assert forall|i: int| 0 <= i < rec.len() implies q(#[trigger] rec[i]) by {
        let all = stable_sort(cands, newer_lt(ss));
        assert(rec[i] == all[i]);
    }
    assert(session_rows_tagged(ss, t, located_rows(store.workspaces@, ss, rec)));
    assert(session_rows_tagged(ss, t, seq![NodeView::RecentWorkspace]));
    lemma_tagged_rows_add(ss, t, seq![NodeView::RecentWorkspace], located_rows(store.workspaces@, ss, rec));
    assert(session_rows_tagged(ss, t, recent_rows(store, f, env)));
    lemma_ws_rows_tagged(store, f, env, store.workspaces.len() as nat, t);
    let arc = store.archived_sessions@;
    let arows = stable_sort(indices_where(arc.len(), |i: int| true), newer_lt(arc)).map_values(
        |ai: usize| NodeView::ArchivedSession(ws_index_for(store.workspaces@, arc[ai as int].workspace_path@), ai));
    assert(session_rows_tagged(ss, t, arows));
    assert(session_rows_tagged(ss, t, seq![NodeView::ArchivedHeader]));
    lemma_tagged_rows_add(ss, t, seq![NodeView::ArchivedHeader], arows);
    assert(session_rows_tagged(ss, t, archived_rows(store)));
    lemma_tagged_rows_add(ss, t, pinned_rows(store), recent_rows(store, f, env));
    lemma_tagged_rows_add(ss, t, pinned_rows(store) + recent_rows(store, f, env), ws_rows(store, f, env, store.workspaces.len() as nat));
    lemma_tagged_rows_add(ss, t, pinned_rows(store) + recent_rows(store, f, env) + ws_rows(store, f, env, store.workspaces.len() as nat),
        archived_rows(store));
    let tree = tree_spec(store, f, env);
    assert forall|i: int| 0 <= i < tree.len() implies (#[trigger] tree[i] matches NodeView::Session(_, si)
        ==> si < ss.len() && (ss[si as int].pinned
            || exists|k: int| 0 <= k < ss[si as int].tags@.len() && eq_ignore_ascii_case_spec(#[trigger] ss[si as int].tags@[k]@, t))) by {
        if let NodeView::Session(_, si) = tree[i] {
            assert(si < ss.len() && (ss[si as int].pinned || unpinned_tagged(ss, t, si)));
        }
    }
}

} // verus!
