//! The interface state and its key handlers: given the state and a key
//! press, the next state and the outside work (if any) the caller performs.

use vstd::prelude::*;
use crate::chain::{
    find_workspace_by_path, step_session_name, step_status, step_tab_title, ws_with_path, ActiveChain, SessionChain,
    StepLaunch,
};
use crate::budget::TokenLimits;
use crate::commands::{chat_command, chat_command_spec, plain_char, sidebar_command, sidebar_command_spec, ChatCommand, SidebarCommand};
use crate::keybinds::{KeyCode, KeyPress, Keybinds};
use crate::display::{byte_len, cut_to_bytes, fit_prefix, lemma_fit_prefix_fits};
use crate::nav::{tab_index_from_x, wrap_move, wrap_spec};
use crate::search::{opt_string_view, short_id, short_id_spec};
use crate::sidebar::{
    clamped_selection, lemma_move_round_trip, selected_node, env_wf, expand_post, find_session_row, move_sel, moved_selection, selected_view, toggle_expand, NodeView, rebuild_tree, row_shows_session, same_tree_inputs, tree_spec, tree_view,
    ActiveTab, SessionStore, TreeEnv, ViewFilters,
};
use crate::text::{contains_spec, contains_str, str_eq, chars_of, decimal, push_decimal, push_str, string_from_chars, trim, trim_spec};
use crate::types::{Session, SortMode, Workspace, agent_label_spec, sort_mode_label, sort_mode_next, Action, Agent, Focus, TreeNode};

verus! {

/// Which popup or prompt has the keyboard, if any.
#[derive(Clone, Copy, Debug, PartialEq, Eq, Structural)]
pub enum InputMode {
    Normal,
    SessionName,
    RenameSession,
    RenameWorkspace,
    NewWorkspaceName,
    BrowseDir,
    SelectAgent,
    Search,
    TagFilter,
    SemanticSearch,
    ConfirmDelete,
    Help,
    KeybindView,
    Settings,
    ThemeSelect,
    Stats,
    TokenStats,
    SessionPreview,
    SummaryPreview,
    TemplateSelect,
    AutomationSelect,
    BranchSelect,
    ChainSelect,
    PluginList,
    PluginOutput,
    DiffSelect,
    DiffView,
    RemoteView,
    Timeline,
    ConflictWarning,
    ConflictResolve,
    AgentRecommend,
    CrossSearch,
    RollbackConfirm,
    BudgetWarning,
    PreflightConfirm,
    ScrollSearch,
    ScrollbackSearch,
}

/// Outside work a key handler asks the caller to perform.
#[derive(Clone, Debug)]
pub enum Effect {
    Nothing,
    /// Rediscover sessions, then rebuild the tree.
    Refresh,
    /// Start or resume whatever the selected row stands for.
    Activate,
    /// Rediscover sessions, then start or resume the selected row.
    RefreshAndActivate,
    /// Open the transcript preview of the selected session.
    Preview,
    /// Export the selected session to a file.
    Export,
    /// Copy a description of the selected row to the clipboard.
    CopySelected,
    /// Put this text on the clipboard and report the outcome.
    CopyText(String),
    /// Switch to the next color theme.
    CycleTheme,
    /// Open the selected workspace directory in the file manager.
    OpenDir,
    /// Branch the selected session into a new one.
    Branch,
    /// Show the comparison of these two sessions (first, second), whose
    /// selection `start_diff` has just completed.
    Compare(usize, usize),
    /// Discover sessions on the configured remote hosts.
    RemoteView,
    /// Show the timeline of session events.
    Timeline,
    /// Show agent recommendations.
    Recommend,
    /// Search the transcripts of all sessions for this text.
    CrossSearch(String),
    /// Run the ranked transcript search for this query and hand back the hits.
    SemanticSearch(String),
    /// Persist the pinned flag of the session with this id.
    SavePin(String, bool),
    /// Persist the title of the session with this id.
    SaveTitle(String, String),
    /// Persist the workspace list.
    SaveConfig,
    /// Persist the workspace list, then rediscover sessions.
    SaveConfigAndRefresh,
    /// Delete the files of these sessions (by id), and drop the terminals of
    /// the tabs closed with them: positions in removal order, each counted
    /// after the removals before it.
    DeleteSessions(Vec<String>, Vec<usize>),
    /// The tab at this position was closed: drop its terminal.
    CloseTab(usize),
    /// Open the directory browser for the new workspace.
    BrowseDirectory,
    /// Start a session with this name (or an unnamed one): pick the agent.
    StartSession(Option<String>),
    /// Load the theme list for the theme panel.
    LoadThemes,
    /// Reset the workspace to the pending rollback snapshot.
    Rollback,
    /// The tabs at these two positions traded places.
    SwapTabs(usize, usize),
    /// The tab at this position was closed: drop its terminal, then
    /// rediscover sessions.
    CloseTabAndRefresh(usize),
    /// The open popup has its own key handler in the caller.
    Delegate,
    /// Scroll the focused tab by a page up or down, to the top or the bottom.
    Scroll(usize, ScrollTarget),
    /// Send the key press to the focused tab.
    Forward(usize),
    /// Return the tab to its newest output, then send the key press to it.
    ResetAndForward(usize),
    /// Send this pasted text to the tab.
    PasteToTab(usize, String),
    /// Run the scrollback search again with the changed query.
    RunScrollSearch,
    /// Launch the first step of a chain.
    StartChain(StepLaunch),
    /// Write these bytes to the tab's terminal.
    WriteBytes(usize, Vec<u8>),
    /// Copy the visible screen of the tab to the clipboard.
    CopyScreen(usize),
    /// Open a shell split under the tab, in its workspace (the status already
    /// reports it opened; a failure is reported over it).
    OpenSplit(usize),
    /// Close the shell split.
    CloseSplit,
    /// Send the key press to the shell split.
    ForwardToSplit,
    /// Copy the screen of the tab when it is scrolled back, else send the key.
    YankOrForward(usize),
    /// Move the conflicting sessions into git worktrees of their own.
    IsolateConflicts,
}

/// Where a scroll request goes.
#[derive(Clone, Copy, Debug, PartialEq, Eq, Structural)]
pub enum ScrollTarget {
    PageUp,
    PageDown,
    Top,
    Bottom,
}

/// How many entries each configured list has.
#[derive(Clone, Copy, Debug, PartialEq, Eq, Structural)]
pub struct MenuCounts {
    pub templates: usize,
    pub plugins: usize,
    pub automations: usize,
    pub chains: usize,
}

/// The whole interface state that key handling reads and writes.
pub struct AppState {
    pub store: SessionStore,
    pub filters: ViewFilters,
    pub env: TreeEnv,
    pub focus: Focus,
    pub input_mode: InputMode,
    pub status: String,
    pub input_buffer: String,
    pub keybinds: Keybinds,
    /// Session ids found by the last ranked search.
    pub search_results: Vec<String>,
    pub search_selected: Option<usize>,
    pub keybind_scroll: u16,
    /// Session indices marked for a batch operation.
    pub marked: Vec<usize>,
    pub pending_delete: Option<TreeNode>,
    pub pending_batch_delete: bool,
    pub rename_target: Option<usize>,
    pub rename_workspace_target: Option<usize>,
    pub new_workspace_name: Option<String>,
    /// The name of the session to start once its agent is picked from the list.
    pub pending_session_name: Option<String>,
    /// The focused terminal tab, an index into `env.tabs`.
    pub active_tab: Option<usize>,
    pub menus: MenuCounts,
    /// The highlighted entry of the open list popup.
    pub menu_selected: Option<usize>,
    /// The query of the scrollback search.
    pub scrollback_query: String,
    /// The scrollback search's mode and matches.
    pub scrollback: ScrollbackFind,
    /// The chain being run, if any.
    pub active_chain: Option<ActiveChain>,
    /// The configured token limits, if any.
    pub token_limits: Option<TokenLimits>,
    /// The budget alert shown in the status bar while a limit is exceeded.
    pub budget_alert: Option<String>,
    /// The text typed to filter the open list picker.
    pub picker_query: String,
    /// The first shown line of the plugin output view.
    pub plugin_scroll: usize,
    /// Warnings about running sessions changing the same files.
    pub conflict_warnings: Vec<String>,
    /// Command mode: with a tab focused, plain letters run commands instead
    /// of going to the tab (the default is passthrough).
    pub amux_mode: bool,
    /// The session picked first for a comparison, waiting for the second.
    pub diff_left_session: Option<usize>,
}

/// How the scrollback search reads its query, and its matches.
#[derive(Clone, Copy, Debug, PartialEq, Eq, Structural)]
pub struct ScrollbackFind {
    /// The query is a regular expression.
    pub regex: bool,
    /// Upper and lower case differ.
    pub case_sensitive: bool,
    /// How many matches the last search found.
    pub total: usize,
    /// Which match is shown.
    pub current: usize,
}

/// Where the tab bar was last drawn.
#[derive(Clone, Copy, Debug, PartialEq, Eq, Structural)]
pub struct TabBar {
    pub x: u16,
    pub y: u16,
    pub width: u16,
    pub height: u16,
}

/// Pasted text is kept to this many bytes in a prompt.
pub const PASTE_LIMIT: usize = 4000;

/// Pasted text is kept to this many bytes in the scrollback search query.
pub const SCROLLBACK_QUERY_LIMIT: usize = 200;

/// The input buffer after a Backspace: its last character removed, if any.
pub open spec fn popped(s: Seq<char>) -> Seq<char> {
    if s.len() > 0 { s.drop_last() } else { s }
}

/// No index occurs twice.
pub open spec fn no_dups(v: Seq<usize>) -> bool {
    forall|i: int, j: int| 0 <= i < j < v.len() ==> v[i] != v[j]
}

/// A rebuild changed only the tree, the per-workspace lists, the recent
/// count and the selection.
pub open spec fn rebuilt(a: SessionStore, b: SessionStore) -> bool {
    same_tree_inputs(a, b) && a.archive_days == b.archive_days
}

/// The first tree row showing the session with this id.
pub open spec fn find_row_spec(store: SessionStore, id: Seq<char>) -> Option<usize> {
    if exists|i: int| 0 <= i < store.tree.len() && row_shows_session(store, i, id) {
        Some((choose|i: int| 0 <= i < store.tree.len() && row_shows_session(store, i, id)
            && forall|j: int| 0 <= j < i ==> !row_shows_session(store, j, id)) as usize)
    } else {
        None
    }
}

proof fn lemma_find_row_unique(store: SessionStore, id: Seq<char>, i: int)
    requires
        0 <= i < store.tree.len(),
        row_shows_session(store, i, id),
        forall|j: int| 0 <= j < i ==> !row_shows_session(store, j, id),
    ensures
        find_row_spec(store, id) == Some(i as usize),
{
    let k = choose|k: int| 0 <= k < store.tree.len() && row_shows_session(store, k, id)
        && forall|j: int| 0 <= j < k ==> !row_shows_session(store, j, id);
    assert(0 <= k < store.tree.len() && row_shows_session(store, k, id)
        && forall|j: int| 0 <= j < k ==> !row_shows_session(store, j, id));
    if k < i {
        assert(!row_shows_session(store, k, id));
    } else if i < k {
        assert(!row_shows_session(store, i, id));
    }
}

proof fn lemma_find_row_none(store: SessionStore, id: Seq<char>)
    requires
        forall|j: int| 0 <= j < store.tree.len() ==> !row_shows_session(store, j, id),
    ensures
        find_row_spec(store, id) is None,
{
}

/// Everything the tree is built from but the sessions is the same.
pub open spec fn same_but_sessions(a: SessionStore, b: SessionStore) -> bool {
    &&& a.workspaces == b.workspaces
    &&& a.archived_sessions == b.archived_sessions
    &&& a.show_archived == b.show_archived
    &&& a.archive_days == b.archive_days
    &&& a.pinned_expanded == b.pinned_expanded
    &&& a.recent_expanded == b.recent_expanded
}

fn set_session_pinned(ss: &mut Vec<Session>, si: usize, pinned: bool)
    requires
        si < old(ss).len(),
    ensures
        final(ss)@ == old(ss)@.update(si as int, Session { pinned, ..old(ss)@[si as int] }),
{
    let mut t: Vec<Session> = Vec::new();
    std::mem::swap(&mut t, ss);
    let mut s = t.remove(si);
    s.pinned = pinned;
    t.insert(si, s);
    *ss = t;
    assert(ss@ =~= old(ss)@.update(si as int, Session { pinned, ..old(ss)@[si as int] }));
}

/// The focused tab after a tab was closed and `len` tabs are left.
pub open spec fn tab_after_close(active: Option<usize>, len: nat) -> Option<usize> {
    match active {
        Some(cur) => if cur >= len { if len == 0 { None } else { Some((len - 1) as usize) } } else { active },
        None => None,
    }
}

/// The tab shows the session with this id.
pub open spec fn tab_shows(t: ActiveTab, id: Seq<char>) -> bool {
    t.session_id matches Some(s) && s@ == id
}

/// The sessions whose index is not marked, in order (of the first `n`).
pub open spec fn unmarked_sessions(ss: Seq<Session>, m: Seq<usize>, n: nat) -> Seq<Session>
    decreases n,
{
    if n == 0 {
        Seq::empty()
    } else {
        let i = (n - 1) as nat;
        unmarked_sessions(ss, m, i) + (if m.contains(i as usize) { Seq::empty() } else { seq![ss[i as int]] })
    }
}

/// The ids of the marked sessions (of the first `n`), highest index first.
pub open spec fn marked_ids_desc(ss: Seq<Session>, m: Seq<usize>, n: nat) -> Seq<Seq<char>>
    decreases n,
{
    if n == 0 {
        Seq::empty()
    } else {
        let i = (n - 1) as nat;
        (if m.contains(i as usize) { seq![ss[i as int].id@] } else { Seq::empty() }) + marked_ids_desc(ss, m, i)
    }
}

/// The first tab showing the session with this id.
pub open spec fn first_tab_of(tabs: Seq<ActiveTab>, id: Seq<char>) -> Option<usize> {
    if exists|i: int| 0 <= i < tabs.len() && tab_shows(tabs[i], id) {
        Some((choose|i: int| 0 <= i < tabs.len() && tab_shows(tabs[i], id)
            && forall|j: int| 0 <= j < i ==> !tab_shows(tabs[j], id)) as usize)
    } else {
        None
    }
}

/// Closing, in order, the first tab of each session id: the tabs left, the
/// focused tab after each closing, and the positions closed (each counted
/// after the closings before it).
pub open spec fn close_tabs_of(tabs: Seq<ActiveTab>, active: Option<usize>, ids: Seq<Seq<char>>) -> (Seq<ActiveTab>, Option<usize>, Seq<usize>)
    decreases ids.len(),
{
    if ids.len() == 0 {
        (tabs, active, Seq::empty())
    } else {
        let prev = close_tabs_of(tabs, active, ids.drop_last());
        match first_tab_of(prev.0, ids.last()) {
            Some(p) => {
                let left = prev.0.remove(p as int);
                (left, tab_after_close(prev.1, left.len()), prev.2.push(p))
            },
            None => prev,
        }
    }
}

proof fn lemma_first_tab_is(tabs: Seq<ActiveTab>, id: Seq<char>, i: int)
    requires
        0 <= i < tabs.len(),
        tab_shows(tabs[i], id),
        forall|j: int| 0 <= j < i ==> !tab_shows(tabs[j], id),
    ensures
        first_tab_of(tabs, id) == Some(i as usize),
{
    let k = choose|k: int| 0 <= k < tabs.len() && tab_shows(tabs[k], id)
        && forall|j: int| 0 <= j < k ==> !tab_shows(tabs[j], id);
    assert(0 <= k < tabs.len() && tab_shows(tabs[k], id) && forall|j: int| 0 <= j < k ==> !tab_shows(tabs[j], id));
    if k < i {
        assert(!tab_shows(tabs[k], id));
    } else if i < k {
        assert(!tab_shows(tabs[i], id));
    }
}

proof fn lemma_first_tab_none(tabs: Seq<ActiveTab>, id: Seq<char>)
    requires
        forall|j: int| 0 <= j < tabs.len() ==> !tab_shows(tabs[j], id),
    ensures
        first_tab_of(tabs, id) is None,
{
}

fn set_session_title(ss: &mut Vec<Session>, si: usize, title: String)
    requires
        si < old(ss).len(),
    ensures
        final(ss)@ == old(ss)@.update(si as int, Session { title, ..old(ss)@[si as int] }),
{
    let mut t: Vec<Session> = Vec::new();
    std::mem::swap(&mut t, ss);
    let mut s = t.remove(si);
    s.title = title;
    t.insert(si, s);
    *ss = t;
    assert(ss@ =~= old(ss)@.update(si as int, Session { title, ..old(ss)@[si as int] }));
}

fn set_workspace_name(ws: &mut Vec<Workspace>, wi: usize, name: String)
    requires
        wi < old(ws).len(),
    ensures
        final(ws)@ == old(ws)@.update(wi as int, Workspace { name, ..old(ws)@[wi as int] }),
{
    let mut t: Vec<Workspace> = Vec::new();
    std::mem::swap(&mut t, ws);
    let mut w = t.remove(wi);
    w.name = name;
    t.insert(wi, w);
    *ws = t;
    assert(ws@ =~= old(ws)@.update(wi as int, Workspace { name, ..old(ws)@[wi as int] }));
}

fn agent_in(v: &Vec<Agent>, a: Agent) -> (r: bool)
    ensures
        r == v@.contains(a),
{
    let mut i: usize = 0;
    while i < v.len()
        invariant
            i <= v.len(),
            forall|j: int| 0 <= j < i ==> v@[j] != a,
        decreases v.len() - i,
    {
        if v[i] == a {
            return true;
        }
        i = i + 1;
    }
    false
}

/// The agent a new session starts with, if no choice is needed.
pub open spec fn pick_agent_spec(project_default: Option<Agent>, filter: Option<Agent>, available: Seq<Agent>) -> Option<Agent> {
    match project_default {
        Some(a) if filter is None && available.contains(a) => Some(a),
        _ => if available.len() == 1 { Some(available[0]) } else { None },
    }
}

/// What Enter does in a text prompt.
pub open spec fn confirm_input_post(a: AppState, b: AppState, e: Effect) -> bool {
    let t = trim_spec(a.input_buffer@);
    let blank = t.len() == 0;
    match a.input_mode {
        InputMode::SessionName => {
            &&& b.input_buffer@.len() == 0
            &&& e matches Effect::StartSession(n) && (if blank { n is None } else { n matches Some(x) && x@ == a.input_buffer@ })
            &&& b == (AppState { input_buffer: b.input_buffer, ..a })
        },
        InputMode::RenameSession => {
            &&& b.input_buffer@.len() == 0
            &&& match a.rename_target {
                Some(si) if si < a.store.sessions.len() => {
                    let s = a.store.sessions@[si as int];
                    let title = if blank { short_id_spec(s.id@) } else { a.input_buffer@ };
                    &&& b.store.sessions@.len() == a.store.sessions@.len()
                    &&& b.store.sessions@[si as int].title@ == title
                    &&& b.store.sessions@ == a.store.sessions@.update(si as int, Session { title: b.store.sessions@[si as int].title, ..s })
                    &&& b.status@ == "Renamed to: "@ + title
                    &&& e matches Effect::SaveTitle(id, nt) && id@ == s.id@ && nt@ == title
                    &&& tree_view(b.store.tree@) == tree_spec(b.store, b.filters, b.env)
                    &&& same_but_sessions(a.store, b.store)
                    &&& b == (AppState { store: b.store, status: b.status, input_mode: InputMode::Normal,
                            input_buffer: b.input_buffer, rename_target: None, ..a })
                },
                _ => e is Nothing && b == (AppState { input_mode: InputMode::Normal, input_buffer: b.input_buffer, rename_target: None, ..a }),
            }
        },
        InputMode::NewWorkspaceName => {
            &&& b.input_buffer@.len() == 0
            &&& if blank {
                    &&& e is Nothing
                    &&& b.status@ == "Workspace name cannot be empty."@
                    &&& b == (AppState { input_mode: InputMode::Normal, input_buffer: b.input_buffer, status: b.status, ..a })
                } else {
                    &&& e is BrowseDirectory
                    &&& b.new_workspace_name matches Some(n) && n@ == t
                    &&& b == (AppState { input_buffer: b.input_buffer, new_workspace_name: b.new_workspace_name, ..a })
                }
        },
        InputMode::RenameWorkspace => {
            &&& b.input_buffer@.len() == 0
            &&& match a.rename_workspace_target {
                Some(wi) if wi < a.store.workspaces.len() => {
                    let w = a.store.workspaces@[wi as int];
                    let name = if blank { w.name@ } else { a.input_buffer@ };
                    &&& b.store.workspaces@.len() == a.store.workspaces@.len()
                    &&& b.store.workspaces@[wi as int].name@ == name
                    &&& b.store.workspaces@ == a.store.workspaces@.update(wi as int, Workspace { name: b.store.workspaces@[wi as int].name, ..w })
                    &&& b.status@ == "Workspace renamed to: "@ + name
                    &&& e is SaveConfig
                    &&& tree_view(b.store.tree@) == tree_spec(b.store, b.filters, b.env)
                    &&& b.store.sessions == a.store.sessions
                    &&& b == (AppState { store: b.store, status: b.status, input_mode: InputMode::Normal,
                            input_buffer: b.input_buffer, rename_workspace_target: None, ..a })
                },
                _ => e is Nothing && b == (AppState { input_mode: InputMode::Normal, input_buffer: b.input_buffer,
                        rename_workspace_target: None, ..a }),
            }
        },
        InputMode::SemanticSearch => {
            &&& b.input_buffer@.len() == 0
            &&& if blank {
                    &&& e is Nothing
                    &&& b.status@ == "Cancelled."@
                    &&& b == (AppState { input_mode: InputMode::Normal, input_buffer: b.input_buffer, status: b.status, ..a })
                } else {
                    &&& e matches Effect::SemanticSearch(q) && q@ == t
                    &&& b == (AppState { input_buffer: b.input_buffer, ..a })
                }
        },
        _ => e is Nothing && b == a,
    }
}

/// What a key does in a plain text prompt.
pub open spec fn text_input_post(a: AppState, b: AppState, key: KeyPress, e: Effect) -> bool {
    match key.code {
        KeyCode::Esc => {
            &&& e is Nothing
            &&& b.input_buffer@.len() == 0
            &&& b.status@ == "Cancelled."@
            &&& b == (AppState { input_mode: InputMode::Normal, input_buffer: b.input_buffer, rename_target: None,
                    rename_workspace_target: None, status: b.status, ..a })
        },
        KeyCode::Enter => confirm_input_post(a, b, e),
        KeyCode::Backspace => e is Nothing && b.input_buffer@ == popped(a.input_buffer@)
            && b == (AppState { input_buffer: b.input_buffer, ..a }),
        KeyCode::Char(c) => e is Nothing && b.input_buffer@ == a.input_buffer@.push(c)
            && b == (AppState { input_buffer: b.input_buffer, ..a }),
        _ => e is Nothing && b == a,
    }
}

/// What the tag-filter key does.
pub open spec fn tag_filter_toggle_post(a: AppState, b: AppState) -> bool {
    if a.filters.tag_filter is Some {
        &&& b.status@ == "Tag filter cleared."@
        &&& tree_view(b.store.tree@) == tree_spec(b.store, b.filters, b.env)
        &&& rebuilt(a.store, b.store)
        &&& b == (AppState { store: b.store, status: b.status, filters: ViewFilters { tag_filter: None, ..a.filters }, ..a })
    } else {
        &&& b.input_buffer@.len() == 0
        &&& b.status@ == "Filter by tag (Enter=apply, Esc=cancel):"@
        &&& b == (AppState { input_mode: InputMode::TagFilter, input_buffer: b.input_buffer, status: b.status, ..a })
    }
}

/// The tab focused after moving by `delta` among `len` tabs.
pub open spec fn next_tab(active: Option<usize>, delta: int, len: nat) -> usize {
    let cur = match active { Some(i) => i as int, None => 0 };
    wrap_spec(cur, delta, len as int) as usize
}

/// What switching tabs does.
pub open spec fn switch_tab_post(a: AppState, b: AppState, delta: int, e: Effect) -> bool {
    let len = a.env.tabs.len();
    if len <= 1 {
        e is Nothing && b == a
    } else {
        let n = next_tab(a.active_tab, delta, len as nat);
        &&& n < len
        &&& b.status@ == "Switched to: "@ + a.env.tabs@[n as int].title@ + " ("@ + decimal((n + 1) as nat) + "/"@ + decimal(len as nat) + ")"@
        &&& e == Effect::Scroll(n, ScrollTarget::Bottom)
        &&& b == (AppState { active_tab: Some(n), status: b.status, ..a })
    }
}

/// What moving a tab does.
pub open spec fn move_tab_post(a: AppState, b: AppState, delta: int, e: Effect) -> bool {
    let len = a.env.tabs.len();
    if len <= 1 {
        e is Nothing && b == a
    } else {
        let cur: usize = match a.active_tab { Some(i) => i, None => 0 };
        let n = next_tab(a.active_tab, delta, len as nat);
        &&& n < len
        &&& b.env.tabs@ == a.env.tabs@.update(cur as int, a.env.tabs@[n as int]).update(n as int, a.env.tabs@[cur as int])
        &&& b.status@ == "Moved tab to position "@ + decimal((n + 1) as nat)
        &&& e == Effect::SwapTabs(cur, n)
        &&& b == (AppState { env: TreeEnv { tabs: b.env.tabs, ..a.env }, active_tab: Some(n), status: b.status, ..a })
    }
}

/// Trades the places of the tabs at `i` and `j`.
fn swap_tabs(v: &mut Vec<ActiveTab>, i: usize, j: usize)
    requires
        i < old(v).len(),
        j < old(v).len(),
    ensures
        final(v)@ == old(v)@.update(i as int, old(v)@[j as int]).update(j as int, old(v)@[i as int]),
{
    if i == j {
        assert(v@ =~= old(v)@.update(i as int, old(v)@[j as int]).update(j as int, old(v)@[i as int]));
        return;
    }
    let (lo, hi) = if i < j { (i, j) } else { (j, i) };
    let b = v.remove(hi);
    let a = v.remove(lo);
    v.insert(lo, b);
    v.insert(hi, a);
    assert(v@ =~= old(v)@.update(i as int, old(v)@[j as int]).update(j as int, old(v)@[i as int]));
}

/// Keys the key-binding list handles itself: 1 scrolls up, 2 scrolls
/// down, 3 closes.
pub open spec fn keybind_view_key_spec(key: KeyPress) -> Option<u8> {
    match key.code {
        KeyCode::Up | KeyCode::Char('k') => Some(1u8),
        KeyCode::Down | KeyCode::Char('j') => Some(2u8),
        KeyCode::Esc => Some(3u8),
        _ => None,
    }
}

fn keybind_view_key_exec(key: &KeyPress) -> (r: bool)
    ensures
        r == (keybind_view_key_spec(*key) is Some),
{
    match key.code {
        KeyCode::Up | KeyCode::Char('k') | KeyCode::Down | KeyCode::Char('j') | KeyCode::Esc => true,
        _ => false,
    }
}

/// What a key of the key-binding list does.
pub open spec fn keybind_view_post(a: AppState, b: AppState, key: KeyPress) -> bool {
    match keybind_view_key_spec(key) {
        Some(1u8) => b == (AppState { keybind_scroll: (if a.keybind_scroll > 0 { a.keybind_scroll - 1 } else { 0 }) as u16, ..a }),
        Some(2u8) => b == (AppState { keybind_scroll: (if a.keybind_scroll < u16::MAX { a.keybind_scroll + 1 } else { u16::MAX as int }) as u16, ..a }),
        _ => b == (AppState { keybind_scroll: 0, input_mode: InputMode::Normal, ..a }),
    }
}

/// Alt+l steps to the next panel (1), Alt+h to the previous (-1); other
/// keys do not change panels (0).
pub open spec fn panel_step(key: KeyPress) -> int {
    if key.code == KeyCode::Char('l') && key.alt {
        1
    } else if key.code == KeyCode::Char('h') && key.alt {
        -1
    } else {
        0
    }
}

fn panel_step_exec(key: &KeyPress) -> (r: i8)
    ensures
        r == panel_step(*key),
{
    match key.code {
        KeyCode::Char('l') => if key.alt { 1 } else { 0 },
        KeyCode::Char('h') => if key.alt { -1 } else { 0 },
        _ => 0,
    }
}

/// The panels Alt+h / Alt+l cycle through, in order.
pub open spec fn panel_at(i: int) -> InputMode {
    if i == 0 {
        InputMode::KeybindView
    } else if i == 1 {
        InputMode::Settings
    } else if i == 2 {
        InputMode::ThemeSelect
    } else if i == 3 {
        InputMode::Stats
    } else {
        InputMode::TokenStats
    }
}

/// The position of a mode among the panels (0 when it is none of them).
pub open spec fn panel_index(m: InputMode) -> int {
    match m {
        InputMode::Settings => 1,
        InputMode::ThemeSelect => 2,
        InputMode::Stats => 3,
        InputMode::TokenStats => 4,
        _ => 0,
    }
}

fn panel_index_exec(m: InputMode) -> (r: usize)
    ensures
        r == panel_index(m),
{
    match m {
        InputMode::Settings => 1,
        InputMode::ThemeSelect => 2,
        InputMode::Stats => 3,
        InputMode::TokenStats => 4,
        _ => 0,
    }
}

fn panel_at_exec(i: usize) -> (r: InputMode)
    ensures
        r == panel_at(i as int),
{
    if i == 0 {
        InputMode::KeybindView
    } else if i == 1 {
        InputMode::Settings
    } else if i == 2 {
        InputMode::ThemeSelect
    } else if i == 3 {
        InputMode::Stats
    } else {
        InputMode::TokenStats
    }
}

/// What Alt+h / Alt+l do.
pub open spec fn cycle_panel_post(a: AppState, b: AppState, key: KeyPress, e: Effect) -> bool {
    let t = panel_at((panel_index(a.input_mode) + panel_step(key) + 5) % 5);
    match t {
        InputMode::Settings => e is Nothing
            && b.status@ == "Settings: a=add ws  d=del ws  r=rename ws  k=keybinds  t=themes  Esc=close"@
            && b == (AppState { input_mode: t, status: b.status, ..a }),
        InputMode::ThemeSelect => e is LoadThemes && b == (AppState { input_mode: t, ..a }),
        InputMode::Stats => e is Nothing && b.status@ == "Activity Statistics (any key to close)"@
            && b == (AppState { input_mode: t, status: b.status, ..a }),
        InputMode::TokenStats => e is Nothing && b.status@ == "Token Usage (any key to close)"@
            && b == (AppState { input_mode: t, status: b.status, ..a }),
        _ => e is Nothing && b == (AppState { input_mode: t, ..a }),
    }
}

/// Popups that any key closes.
pub open spec fn closes_on_any_key(m: InputMode) -> bool {
    matches!(m, InputMode::Help | InputMode::Stats | InputMode::TokenStats | InputMode::CrossSearch | InputMode::DiffView
        | InputMode::AgentRecommend | InputMode::Timeline | InputMode::ConflictWarning | InputMode::BudgetWarning
        | InputMode::RemoteView | InputMode::SummaryPreview)
}

/// Popups whose keys the caller's own handler takes.
pub open spec fn delegated_popup(m: InputMode) -> bool {
    matches!(m, InputMode::PluginList | InputMode::PluginOutput | InputMode::Settings
        | InputMode::SessionPreview | InputMode::ScrollSearch | InputMode::ThemeSelect | InputMode::PreflightConfirm)
}

/// Lists whose keys the caller's own handler takes before anything else.
pub open spec fn delegated_list(m: InputMode) -> bool {
    matches!(m, InputMode::BrowseDir | InputMode::SelectAgent | InputMode::TemplateSelect | InputMode::AutomationSelect
        | InputMode::BranchSelect | InputMode::ChainSelect)
}

/// What a key does while a popup or prompt is open.
pub open spec fn popup_key_post(a: AppState, b: AppState, key: KeyPress, e: Effect) -> bool {
    if a.input_mode == InputMode::Search {
        e is Nothing && search_key_post(a, b, key)
    } else if a.input_mode == InputMode::TagFilter {
        e is Nothing && tag_filter_key_post(a, b, key)
    } else if a.input_mode == InputMode::SemanticSearch {
        semantic_search_key_post(a, b, key, (Action::Continue, e))
    } else if delegated_list(a.input_mode) {
        e is Delegate && b == a
    } else if a.input_mode == InputMode::KeybindView && keybind_view_key_spec(key) is Some {
        e is Nothing && keybind_view_post(a, b, key)
    } else if panel_step(key) != 0 {
        cycle_panel_post(a, b, key, e)
    } else if closes_on_any_key(a.input_mode) {
        e is Nothing && b == (AppState { input_mode: InputMode::Normal, ..a })
    } else if delegated_popup(a.input_mode) {
        e is Delegate && b == a
    } else if a.input_mode == InputMode::ConflictResolve {
        match key.code {
            KeyCode::Char('i') | KeyCode::Char('I') => e is IsolateConflicts && b == a,
            KeyCode::Char('d') | KeyCode::Char('D') | KeyCode::Esc => e is Nothing
                && b.conflict_warnings@.len() == 0
                && b.status@ == "Conflict warning dismissed."@
                && b == (AppState { input_mode: InputMode::Normal, conflict_warnings: b.conflict_warnings, status: b.status, ..a }),
            _ => e is Nothing && b == a,
        }
    } else if a.input_mode == InputMode::ConfirmDelete {
        match key.code {
            KeyCode::Char('y') | KeyCode::Char('Y') => confirm_delete_post(a, b, e),
            KeyCode::Char('n') | KeyCode::Char('N') | KeyCode::Esc => e is Nothing && cancel_delete_post(a, b),
            _ => e is Nothing && b == a,
        }
    } else if a.input_mode == InputMode::RollbackConfirm {
        match key.code {
            KeyCode::Char('y') | KeyCode::Char('Y') => e is Rollback && b == a,
            KeyCode::Char('n') | KeyCode::Char('N') | KeyCode::Esc => e is Nothing
                && b.status@ == "Rollback cancelled."@
                && b == (AppState { input_mode: InputMode::Normal, status: b.status, ..a }),
            _ => e is Nothing && b == a,
        }
    } else {
        text_input_post(a, b, key, e)
    }
}

/// What a request to compare two sessions does: the first selected session
/// is remembered; the second (a different one) closes the choice and opens
/// the comparison of the two, returned as (first, second).
pub open spec fn start_diff_post(a: AppState, b: AppState, r: Option<(usize, usize)>) -> bool {
    let n = a.store.sessions.len();
    match selected_view(a.store) {
        Some(NodeView::Session(_, si)) if a.diff_left_session is Some || si < n => match a.diff_left_session {
            Some(l) => if l == si {
                r is None && b.status@ == "Cannot diff a session with itself."@
                    && b == (AppState { diff_left_session: None, status: b.status, ..a })
            } else if l >= n {
                r is None && b.status@ == "First session no longer available."@
                    && b == (AppState { diff_left_session: None, status: b.status, ..a })
            } else if si >= n {
                r is None && b.status@ == "Second session no longer available."@
                    && b == (AppState { diff_left_session: None, status: b.status, ..a })
            } else {
                r == Some((l, si)) && b.status@ == "Session Diff (any key to close)"@
                    && b == (AppState { diff_left_session: None, input_mode: InputMode::DiffView, status: b.status, ..a })
            },
            None => r is None
                && b.status@ == "Diff: selected '"@ + fit_prefix(a.store.sessions@[si as int].title@, 30)
                    + "' \u{2014} select second session, press X again"@
                && b == (AppState { diff_left_session: Some(si), status: b.status, ..a }),
        },
        _ => r is None && b.status@ == "Select a session to diff."@ && b == (AppState { status: b.status, ..a }),
    }
}

/// A key in the scrollback search: Esc closes it; Enter or Down shows the
/// next match and Up the one before (round the ends); Backspace drops the
/// query's last character and a character extends it (kept to its byte
/// limit); Ctrl+R switches regular expressions and Ctrl+E case sensitivity.
/// Changes to the query or its mode ask for the search to run again.
pub open spec fn scrollback_key_post(a: AppState, b: AppState, key: KeyPress, e: Effect) -> bool {
    let f = a.scrollback;
    let n = f.total;
    match key.code {
        KeyCode::Esc => e is Nothing && b == (AppState { input_mode: InputMode::Normal, ..a }),
        KeyCode::Enter | KeyCode::Down => e is Nothing
            && b == (AppState { scrollback: ScrollbackFind { current: (if n == 0 { 0 } else { (f.current + 1) % (n as int) }) as usize, ..f }, ..a }),
        KeyCode::Up => e is Nothing
            && b == (AppState { scrollback: ScrollbackFind { current: (if n == 0 { 0 } else if f.current == 0 || f.current > n { n - 1 } else { f.current - 1 }) as usize, ..f }, ..a }),
        KeyCode::Backspace => e is RunScrollSearch
            && b.scrollback_query@ == (if a.scrollback_query@.len() > 0 { a.scrollback_query@.drop_last() } else { a.scrollback_query@ })
            && b == (AppState { scrollback_query: b.scrollback_query, ..a }),
        KeyCode::Char(c) => if key.ctrl && c == 'r' {
                e is RunScrollSearch && b == (AppState { scrollback: ScrollbackFind { regex: !f.regex, ..f }, ..a })
            } else if key.ctrl && c == 'e' {
                e is RunScrollSearch && b == (AppState { scrollback: ScrollbackFind { case_sensitive: !f.case_sensitive, ..f }, ..a })
            } else if !key.ctrl && !key.alt {
                e is RunScrollSearch
                    && b.scrollback_query@ == fit_prefix(a.scrollback_query@.push(c), SCROLLBACK_QUERY_LIMIT as nat)
                    && b == (AppState { scrollback_query: b.scrollback_query, ..a })
            } else {
                e is Nothing && b == a
            },
        _ => e is Nothing && b == a,
    }
}

/// Opening the preview of the selected session: with something to show
/// (`found`) the preview opens and the status names the session and the
/// preview's keys; otherwise the status says there is none. Other rows do
/// nothing.
pub open spec fn start_preview_post(a: AppState, b: AppState, found: bool, r: bool) -> bool {
    match selected_view(a.store) {
        Some(NodeView::Session(_, si)) if si < a.store.sessions.len() => if found {
            r && b.status@ == "Preview: "@ + a.store.sessions@[si as int].title@ + " (s=summary  k=knowledge  any key=close)"@
                && b == (AppState { input_mode: InputMode::SessionPreview, status: b.status, ..a })
        } else {
            !r && b.status@ == "No preview available."@ && b == (AppState { status: b.status, ..a })
        },
        _ => !r && b == a,
    }
}

/// One diff key press: `start_diff`'s step, with the comparison to show
/// (when the second session was picked) as the effect, nothing otherwise.
pub open spec fn diff_step(a: AppState, b: AppState, e: Effect) -> bool {
    match e {
        Effect::Compare(l, r) => start_diff_post(a, b, Some((l, r))),
        Effect::Nothing => start_diff_post(a, b, None),
        _ => false,
    }
}

/// The id of the first session in workspace `path` active at or after
/// `since`, if any.
pub open spec fn first_session_since(ss: Seq<Session>, path: Seq<char>, since: u64) -> Option<Seq<char>>
    decreases ss.len(),
{
    if ss.len() == 0 {
        None
    } else if ss[0].workspace_path@ == path && ss[0].last_active >= since {
        Some(ss[0].id@)
    } else {
        first_session_since(ss.drop_first(), path, since)
    }
}

/// A tab after linking: one without a session takes the first session of
/// its workspace active since the tab started (`since`).
pub open spec fn linked_tab(t: ActiveTab, ss: Seq<Session>, since: u64, u: ActiveTab) -> bool {
    &&& u.workspace_path == t.workspace_path
    &&& u.agent == t.agent
    &&& u.title == t.title
    &&& opt_string_view(u.session_id) == (match t.session_id {
            Some(id) => Some(id@),
            None => first_session_since(ss, t.workspace_path@, since),
        })
}

/// The clipboard text describing the selected row, if it describes one.
pub open spec fn copy_text_spec(a: AppState) -> Option<Seq<char>> {
    match selected_view(a.store) {
        Some(NodeView::Session(_, si)) if si < a.store.sessions.len() => {
            let s = a.store.sessions@[si as int];
            Some("["@ + short_id_spec(s.id@) + "] "@ + s.title@ + " ("@ + agent_label_spec(s.agent) + ")"@)
        },
        Some(NodeView::ActiveTab(pi)) if pi < a.env.tabs.len() => {
            let t = a.env.tabs@[pi as int];
            Some(t.title@ + " ("@ + agent_label_spec(t.agent) + ")"@)
        },
        Some(NodeView::Workspace(wi)) if wi < a.store.workspaces.len() => {
            let w = a.store.workspaces@[wi as int];
            Some(w.name@ + " ("@ + (match w.path { Some(p) => p@, None => "virtual"@ }) + ")"@)
        },
        _ => None,
    }
}

/// What opening a list popup does.
pub open spec fn open_list_post(a: AppState, b: AppState, count: usize, mode: InputMode, empty_msg: Seq<char>, open_msg: Seq<char>) -> bool {
    &&& (count == 0 ==> b.status@ == empty_msg && b == (AppState { status: b.status, ..a }))
    &&& (count > 0 ==> b.status@ == open_msg
            && b == (AppState { status: b.status, input_mode: mode, menu_selected: Some(0), ..a }))
}

/// Only the status changed, to `msg`, and the mode to `mode`.
pub open spec fn mode_and_status(a: AppState, b: AppState, mode: InputMode, msg: Seq<char>) -> bool {
    b.status@ == msg && b == (AppState { input_mode: mode, status: b.status, ..a })
}

/// What each sidebar command does to the state, and what it asks of the
/// caller.
pub open spec fn sidebar_step(a: AppState, b: AppState, cmd: SidebarCommand, r: (Action, Effect)) -> bool {
    &&& r.0 == (if cmd == SidebarCommand::Quit { Action::Quit } else { Action::Continue })
    &&& match cmd {
        SidebarCommand::Quit => r.1 is Nothing && b == a,
        SidebarCommand::MoveUp => r.1 is Nothing && b == (AppState { store: SessionStore {
                selected: moved_selection(a.store.selected, a.store.tree.len() as nat, -1), ..a.store }, ..a }),
        SidebarCommand::MoveDown => r.1 is Nothing && b == (AppState { store: SessionStore {
                selected: moved_selection(a.store.selected, a.store.tree.len() as nat, 1), ..a.store }, ..a }),
        SidebarCommand::Expand => r.1 is Nothing && expand_post(a.store, b.store, a.filters, a.env)
            && b == (AppState { store: b.store, ..a }),
        SidebarCommand::Refresh => r.1 is Refresh && b.status@ == "Sessions refreshed."@ && b == (AppState { status: b.status, ..a }),
        SidebarCommand::Rename => r.1 is Nothing && start_rename_post(a, b),
        SidebarCommand::NewWorkspace => r.1 is Nothing && start_new_workspace_post(a, b),
        SidebarCommand::Delete => request_delete_post(a, b, r.1),
        SidebarCommand::FocusChat => r.1 is Nothing && focus_chat_post(a, b),
        SidebarCommand::AgentFilter(ag) => r.1 is Nothing && agent_filter_post(a, b, ag),
        SidebarCommand::Activate => r.1 is Activate && b == a,
        SidebarCommand::ToggleMark => r.1 is Nothing && toggle_mark_post(a, b),
        SidebarCommand::Search => r.1 is Nothing && b.input_buffer@.len() == 0
            && b.status@ == "Search (prefix: >7d, >1h, >30m for date filter):"@
            && b == (AppState { input_mode: InputMode::Search, status: b.status, input_buffer: b.input_buffer, ..a }),
        SidebarCommand::Help => r.1 is Nothing && b == (AppState { input_mode: InputMode::KeybindView, ..a }),
        SidebarCommand::Preview => r.1 is Preview && b == a,
        SidebarCommand::Export => r.1 is Export && b == a,
        SidebarCommand::Copy => r.1 is CopySelected && b == a,
        SidebarCommand::TagFilter => r.1 is Nothing && tag_filter_toggle_post(a, b),
        SidebarCommand::Settings => r.1 is Nothing && mode_and_status(a, b, InputMode::Settings,
            "Settings: a=add ws  d=del ws  r=rename ws  k=keybinds  t=themes  Esc=close"@),
        SidebarCommand::CycleTheme => r.1 is CycleTheme && b == a,
        SidebarCommand::TogglePin => toggle_pin_post(a, b, r.1),
        SidebarCommand::OpenDir => r.1 is OpenDir && b == a,
        SidebarCommand::CycleSort => r.1 is Nothing && cycle_sort_post(a, b),
        SidebarCommand::SemanticSearch => r.1 is Nothing && b.search_results@.len() == 0 && b.input_buffer@.len() == 0
            && b.status@ == "Semantic Search (type query, Enter=search, Esc=cancel):"@
            && b == (AppState { search_results: b.search_results, input_buffer: b.input_buffer, search_selected: None,
                input_mode: InputMode::SemanticSearch, status: b.status, ..a }),
        SidebarCommand::Templates => r.1 is Nothing && open_list_post(a, b, a.menus.templates, InputMode::TemplateSelect,
            "No templates saved. Add templates to config.json."@, "Select template (Enter=launch, Esc=cancel)"@),
        SidebarCommand::Plugins => r.1 is Nothing && open_list_post(a, b, a.menus.plugins, InputMode::PluginList,
            "No plugins configured. Add plugins to config.json."@, "Select plugin (Enter=run, Esc=cancel)"@),
        SidebarCommand::Automations => r.1 is Nothing && open_list_post(a, b, a.menus.automations, InputMode::AutomationSelect,
            "No automations saved. Add automations to config.json."@, "Select automation (Enter=run, Esc=cancel)"@),
        SidebarCommand::Branch => r.1 is Branch && b == a,
        SidebarCommand::Stats => r.1 is Nothing && mode_and_status(a, b, InputMode::Stats, "Activity Statistics (any key to close)"@),
        SidebarCommand::TokenStats => r.1 is Nothing && mode_and_status(a, b, InputMode::TokenStats, "Token Usage (any key to close)"@),
        SidebarCommand::Diff => diff_step(a, b, r.1),
        SidebarCommand::ToggleArchived => r.1 is Nothing && toggle_archived_post(a, b),
        SidebarCommand::Remote => r.1 is RemoteView && b == a,
        SidebarCommand::Timeline => r.1 is Timeline && b == a,
        SidebarCommand::Recommend => r.1 is Recommend && b == a,
        SidebarCommand::CrossSearch => if a.input_buffer@.len() == 0 {
                r.1 is Nothing && b.status@ == "Type a search query first (/), then Ctrl+F to search all sessions."@
                    && b == (AppState { status: b.status, ..a })
            } else {
                (r.1 matches Effect::CrossSearch(q) && q@ == a.input_buffer@) && b == a
            },
        SidebarCommand::Chains => r.1 is Nothing && open_list_post(a, b, a.menus.chains, InputMode::ChainSelect,
            "No chains configured. Add chains to config.json."@, "Select chain (Enter=start, Esc=cancel)"@),
        SidebarCommand::Ignore => r.1 is Nothing && b == a,
    }
}

/// What each command of the focused tab `idx` does.
pub open spec fn chat_step(a: AppState, b: AppState, idx: usize, cmd: ChatCommand, r: (Action, Effect)) -> bool {
    &&& r.0 == (if cmd == ChatCommand::Quit { Action::Quit } else { Action::Continue })
    &&& match cmd {
        ChatCommand::ToSidebar => r.1 is Refresh && b.status@ == "Sessions refreshed."@
            && b == (AppState { focus: Focus::Sidebar, status: b.status, ..a }),
        ChatCommand::Quit => r.1 is Nothing && b == a,
        ChatCommand::Refresh => r.1 is Refresh && b.status@ == "Sessions refreshed."@ && b == (AppState { status: b.status, ..a }),
        ChatCommand::NewSession => r.1 is RefreshAndActivate && b == (AppState { focus: Focus::Sidebar, ..a }),
        ChatCommand::ScrollSearch => r.1 is Nothing && b.scrollback_query@.len() == 0
            && b == (AppState { input_mode: InputMode::ScrollbackSearch, scrollback_query: b.scrollback_query,
                scrollback: ScrollbackFind { total: 0, current: 0, ..a.scrollback }, ..a }),
        ChatCommand::Help => r.1 is Nothing && b == (AppState { input_mode: InputMode::KeybindView, ..a }),
        ChatCommand::Preview => r.1 is Preview && b == a,
        ChatCommand::Export => r.1 is Export && b == a,
        ChatCommand::CopyTab => b == a && (r.1 matches Effect::CopyText(t)
            && t@ == a.env.tabs@[idx as int].title@ + " ("@ + agent_label_spec(a.env.tabs@[idx as int].agent) + ")"@),
        ChatCommand::CycleTheme => r.1 is CycleTheme && b == a,
        ChatCommand::Settings => r.1 is Nothing
            && b.status@ == "Settings: a=add ws  d=del ws  r=rename ws  k=keybinds  t=themes  Esc=close"@
            && b == (AppState { focus: Focus::Sidebar, input_mode: InputMode::Settings, status: b.status, ..a }),
        ChatCommand::TagFilter => r.1 is Nothing && tag_filter_toggle_post(a, b),
        ChatCommand::Terminate => r.1 == Effect::CloseTabAndRefresh(idx)
            && b.env.tabs@ == a.env.tabs@.remove(idx as int)
            && b.status@ == "Session terminated. Sessions refreshed."@
            && b == (AppState { env: TreeEnv { tabs: b.env.tabs, ..a.env }, active_tab: None, focus: Focus::Sidebar,
                status: b.status, ..a }),
        ChatCommand::NextTab => switch_tab_post(a, b, 1, r.1),
        ChatCommand::PrevTab => switch_tab_post(a, b, -1, r.1),
        ChatCommand::MoveTabRight => move_tab_post(a, b, 1, r.1),
        ChatCommand::MoveTabLeft => move_tab_post(a, b, -1, r.1),
        ChatCommand::PageUp => r.1 == Effect::Scroll(idx, ScrollTarget::PageUp) && b == a,
        ChatCommand::PageDown => r.1 == Effect::Scroll(idx, ScrollTarget::PageDown) && b == a,
        ChatCommand::Top => r.1 == Effect::Scroll(idx, ScrollTarget::Top) && b == a,
        ChatCommand::Bottom => r.1 == Effect::Scroll(idx, ScrollTarget::Bottom) && b == a,
        ChatCommand::YankOrForward => r.1 == Effect::YankOrForward(idx) && b == a,
        ChatCommand::Forward => r.1 == Effect::Forward(idx) && b == a,
    }
}

/// What one key press does.
pub open spec fn key_step(a: AppState, b: AppState, key: KeyPress, r: (Action, Effect)) -> bool {
    if a.input_mode != InputMode::Normal {
        r.0 == Action::Continue && popup_key_post(a, b, key, r.1)
    } else if a.focus == Focus::Chat {
        match a.active_tab {
            Some(idx) => chat_step(a, b, idx, chat_command_spec(a.keybinds, key), r),
            None => match key.code {
                KeyCode::Tab => r == (Action::Continue, Effect::Refresh) && b == (AppState { focus: Focus::Sidebar, ..a }),
                KeyCode::Char('q') | KeyCode::Esc => r == (Action::Quit, Effect::Nothing) && b == a,
                _ => r == (Action::Continue, Effect::Nothing) && b == a,
            },
        }
    } else {
        sidebar_step(a, b, sidebar_command_spec(a.keybinds, key), r)
    }
}

/// What pasting text does.
pub open spec fn paste_post(a: AppState, b: AppState, text: Seq<char>, e: Effect) -> bool {
    if a.input_mode == InputMode::ScrollSearch || a.input_mode == InputMode::ScrollbackSearch {
        &&& b.scrollback_query@ == fit_prefix(a.scrollback_query@ + text, SCROLLBACK_QUERY_LIMIT as nat)
        &&& e is RunScrollSearch
        &&& b == (AppState { scrollback_query: b.scrollback_query, ..a })
    } else if a.input_mode != InputMode::Normal {
        &&& b.input_buffer@ == fit_prefix(a.input_buffer@ + text, PASTE_LIMIT as nat)
        &&& e is Nothing
        &&& b == (AppState { input_buffer: b.input_buffer, ..a })
    } else if a.focus == Focus::Chat && a.active_tab is Some {
        b == a && (e matches Effect::PasteToTab(i, t) && Some(i) == a.active_tab && t@ == text)
    } else {
        e is Nothing && b == a
    }
}

/// The tab under a click at (`x`, `y`): the click must fall inside the tab
/// bar, which is split evenly among the `n` tabs.
pub open spec fn tab_hit(bar: TabBar, n: nat, x: u16, y: u16) -> Option<usize> {
    if n == 0 || bar.width == 0 || bar.height == 0 {
        None
    } else if y < bar.y || y >= bar.y + bar.height || x < bar.x || x >= bar.x + bar.width {
        None
    } else {
        let w = (bar.width as int) / (n as int);
        if w == 0 {
            None
        } else if (x - bar.x) / w < n {
            Some(((x - bar.x) / w) as usize)
        } else {
            None
        }
    }
}

/// The workspace directory of the selected row.
pub open spec fn selected_dir(a: AppState) -> Option<Seq<char>> {
    match selected_view(a.store) {
        Some(NodeView::Workspace(wi)) => if wi < a.env.cwds.len() { Some(a.env.cwds@[wi as int]@) } else { None },
        Some(NodeView::Session(wi, _)) => if wi < a.env.cwds.len() { Some(a.env.cwds@[wi as int]@) } else { None },
        Some(NodeView::ArchivedSession(wi, _)) => if wi < a.env.cwds.len() { Some(a.env.cwds@[wi as int]@) } else { None },
        _ => None,
    }
}

/// The first tree row of workspace `wi`.
pub open spec fn first_ws_row(tree: Seq<TreeNode>, wi: usize, i: int) -> bool {
    &&& 0 <= i < tree.len()
    &&& tree[i] matches TreeNode::Workspace(w) && w == wi
    &&& forall|j: int| 0 <= j < i ==> !(#[trigger] tree[j] matches TreeNode::Workspace(w) && w == wi)
}

fn find_workspace_row(tree: &Vec<TreeNode>, wi: usize) -> (r: Option<usize>)
    ensures
        match r {
            Some(i) => first_ws_row(tree@, wi, i as int),
            None => forall|j: int| 0 <= j < tree.len() ==> !(#[trigger] tree@[j] matches TreeNode::Workspace(w) && w == wi),
        },
{
    let mut i: usize = 0;
    while i < tree.len()
        invariant
            i <= tree.len(),
            forall|j: int| 0 <= j < i ==> !(#[trigger] tree@[j] matches TreeNode::Workspace(w) && w == wi),
        decreases tree.len() - i,
    {
        match &tree[i] {
            TreeNode::Workspace(w) => {
                if *w == wi {
                    return Some(i);
                }
            },
            _ => {},
        }
        i = i + 1;
    }
    None
}

proof fn lemma_ws_with_path_unique(wss: Seq<Workspace>, p: Seq<char>, i: int, j: int)
    requires
        ws_with_path(wss, p, i),
        ws_with_path(wss, p, j),
    ensures
        i == j,
{
    if i < j {
        assert(!(wss[i].path matches Some(q) && q@ == p));
    } else if j < i {
        assert(!(wss[j].path matches Some(q) && q@ == p));
    }
}

proof fn lemma_first_ws_row_unique(tree: Seq<TreeNode>, wi: usize, i: int, j: int)
    requires
        first_ws_row(tree, wi, i),
        first_ws_row(tree, wi, j),
    ensures
        i == j,
{
    if i < j {
        assert(!(tree[i] matches TreeNode::Workspace(w) && w == wi));
    } else if j < i {
        assert(!(tree[j] matches TreeNode::Workspace(w) && w == wi));
    }
}

proof fn lemma_next_mod(cur: int, len: int)
    requires
        0 <= cur,
        len > 0,
    ensures
        (cur % len + 1) % len == (cur + 1) % len,
{
    vstd::arithmetic::div_mod::lemma_add_mod_noop(cur, 1, len);
    if len == 1 {
        assert(1int % 1int == 0) by (nonlinear_arith);
    } else {
        vstd::arithmetic::div_mod::lemma_small_mod(1nat, len as nat);
    }
}

/// What starting a chain does.
pub open spec fn start_chain_post(a: AppState, b: AppState, chain: SessionChain, e: Effect) -> bool {
    if chain.steps.len() == 0 {
        e is Nothing && b.status@ == "Chain has no steps."@ && b == (AppState { status: b.status, ..a })
    } else {
        match selected_dir(a) {
            None => e is Nothing && b.status@ == "Select a workspace or session first."@
                && b == (AppState { status: b.status, ..a }),
            Some(p) => {
                if exists|wi: int| #[trigger] ws_with_path(a.store.workspaces@, p, wi) {
                    let wi = choose|wi: int| #[trigger] ws_with_path(a.store.workspaces@, p, wi);
                    let n = chain.steps.len();
                    let step = chain.steps@[0];
                    &&& (e matches Effect::StartChain(l) && {
                        &&& l.ws_index == wi
                        &&& l.agent == step.agent
                        &&& l.prompt@ == step.prompt@
                        &&& l.session_name@ == chain.name@ + "-step"@ + decimal(1)
                        &&& l.tab_title@ == chain.name@ + " ["@ + decimal(1) + "/"@ + decimal(n as nat) + "]"@
                        &&& l.status@ == "Chain '"@ + chain.name@ + "': Step "@ + decimal(1) + "/"@ + decimal(n as nat) + " \u{2014} "@ + agent_label_spec(step.agent)
                        &&& b.status@ == l.status@
                    })
                    &&& (b.active_chain matches Some(c) && c.chain_name@ == chain.name@ && c.current_step == 0
                        && c.total_steps == n && c.workspace_path@ == p && c.prev_output is None)
                    &&& (if exists|i: int| #[trigger] first_ws_row(a.store.tree@, wi as usize, i) {
                            b.store.selected == Some((choose|i: int| #[trigger] first_ws_row(a.store.tree@, wi as usize, i)) as usize)
                        } else {
                            b.store.selected == a.store.selected
                        })
                    &&& b == (AppState { status: b.status, active_chain: b.active_chain,
                            store: SessionStore { selected: b.store.selected, ..a.store }, ..a })
                } else {
                    e is Nothing && b.status@ == "Workspace not found for chain."@
                        && b == (AppState { status: b.status, active_chain: None, ..a })
                }
            },
        }
    }
}

/// What a key does in the chain list.
pub open spec fn chain_select_post(a: AppState, b: AppState, key: KeyPress, chains: Seq<SessionChain>, e: Effect) -> bool {
    let len = chains.len();
    let cur: int = match a.menu_selected { Some(c) => c as int, None => 0 };
    match key.code {
        KeyCode::Esc => e is Nothing && b.status@.len() == 0
            && b == (AppState { input_mode: InputMode::Normal, status: b.status, ..a }),
        KeyCode::Up | KeyCode::Char('k') => e is Nothing && b == (if len == 0 { a } else {
                AppState { menu_selected: Some((if cur == 0 { len - 1 } else { cur - 1 }) as usize), ..a } }),
        KeyCode::Down | KeyCode::Char('j') => e is Nothing && b == (if len == 0 { a } else {
                AppState { menu_selected: Some(((cur + 1) % (len as int)) as usize), ..a } }),
        KeyCode::Enter => match a.menu_selected {
            Some(idx) if idx < len => exists|m: AppState| start_chain_post(a, m, chains[idx as int], e)
                && b == (AppState { input_mode: InputMode::Normal, ..m }),
            _ => e is Nothing && b == (AppState { input_mode: InputMode::Normal, ..a }),
        },
        _ => e is Nothing && b == a,
    }
}

/// What a key does in command mode on tab `idx`.
pub open spec fn amux_post(a: AppState, b: AppState, idx: usize, key: KeyPress, alt_screen: bool, split_open: bool,
    scrolled_back: bool, e: Effect) -> bool {
    let plain = !key.ctrl && !key.alt && !key.shift;
    let forwarded = match key.code {
        KeyCode::PageUp => if alt_screen { Effect::Forward(idx) } else { Effect::Scroll(idx, ScrollTarget::PageUp) },
        KeyCode::PageDown => if alt_screen { Effect::Forward(idx) } else { Effect::Scroll(idx, ScrollTarget::PageDown) },
        KeyCode::Home => if alt_screen { Effect::Forward(idx) } else { Effect::Scroll(idx, ScrollTarget::Top) },
        KeyCode::End => if alt_screen { Effect::Forward(idx) } else { Effect::Scroll(idx, ScrollTarget::Bottom) },
        _ => if split_open { Effect::ForwardToSplit } else { Effect::ResetAndForward(idx) },
    };
    if plain {
        match key.code {
            KeyCode::Char('b') => b == a && (if alt_screen {
                    e matches Effect::WriteBytes(i, v) && i == idx && v@ == seq![27u8, 91u8, 53u8, 126u8]
                } else { e == Effect::Scroll(idx, ScrollTarget::PageUp) }),
            KeyCode::Char('f') => if alt_screen {
                    b == a && (e matches Effect::WriteBytes(i, v) && i == idx && v@ == seq![27u8, 91u8, 54u8, 126u8])
                } else {
                    e is Nothing && b.scrollback_query@.len() == 0
                        && b == (AppState { input_mode: InputMode::ScrollbackSearch, scrollback_query: b.scrollback_query,
                            scrollback: ScrollbackFind { total: 0, current: 0, ..a.scrollback }, ..a })
                },
            KeyCode::Char('t') => e is Nothing && mode_and_status(a, b, InputMode::TokenStats, "Token Usage (any key to close)"@),
            KeyCode::Char('s') => e is Nothing && mode_and_status(a, b, InputMode::Stats, "Activity Statistics (any key to close)"@),
            KeyCode::Char('e') => e is Nothing && open_list_post(a, b, a.menus.chains, InputMode::ChainSelect,
                "No chains configured. Add chains to config.json."@, "Select chain (Enter=start, Esc=cancel)"@),
            KeyCode::Char('g') => e is Timeline && b == a,
            KeyCode::Char('w') => e is Recommend && b == a,
            KeyCode::Char('r') => e is RemoteView && b == a,
            KeyCode::Char('x') => diff_step(a, b, e),
            KeyCode::Char('c') => if split_open {
                    e is CloseSplit && b.status@ == "Terminal closed"@ && b == (AppState { status: b.status, ..a })
                } else {
                    e == Effect::OpenSplit(idx) && b.status@ == "Terminal opened (c to close)"@
                        && b == (AppState { status: b.status, ..a })
                },
            KeyCode::Char('y') => b == a && (if scrolled_back { e == Effect::CopyScreen(idx) } else { e == forwarded }),
            KeyCode::PageUp | KeyCode::PageDown | KeyCode::Home | KeyCode::End => e == forwarded && b == a,
            _ => e is Nothing && b == a,
        }
    } else {
        e == forwarded && b == a
    }
}

/// The keys command mode takes from the focused tab: the scroll keys, plain
/// `y` and `/`, and every key the tab would otherwise just receive; the keys
/// shared by both modes (Tab, the Alt bindings, Ctrl+Q/J/K/Y) keep their
/// meaning.
pub open spec fn amux_takes(kb: Keybinds, k: KeyPress) -> bool {
    match chat_command_spec(kb, k) {
        ChatCommand::PageUp | ChatCommand::PageDown | ChatCommand::Top | ChatCommand::Bottom
        | ChatCommand::YankOrForward | ChatCommand::Forward => true,
        ChatCommand::ScrollSearch => plain_char(k, '/'),
        _ => false,
    }
}

/// What a key press does: with no popup open, F12 switches between
/// passthrough and command mode; in command mode, with a tab focused, the
/// keys command mode takes go to its handler; anything else is handled as
/// `key_step` says.
pub open spec fn key_event_post(a: AppState, b: AppState, key: KeyPress, alt_screen: bool, split_open: bool,
    scrolled_back: bool, r: (Action, Effect)) -> bool {
    if a.input_mode == InputMode::Normal && key.code == KeyCode::F(12) {
        r == (Action::Continue, Effect::Nothing) && b == (AppState { amux_mode: !a.amux_mode, ..a })
    } else if a.input_mode == InputMode::Normal && a.focus == Focus::Chat && a.amux_mode
        && (a.active_tab matches Some(i) && i < a.env.tabs.len()) && amux_takes(a.keybinds, key) {
        r.0 == Action::Continue && amux_post(a, b, a.active_tab->0, key, alt_screen, split_open, scrolled_back, r.1)
    } else {
        key_step(a, b, key, r)
    }
}

/// A terminal the caller should start: in `path`, running `agent`, resuming
/// the session `resume_id` when given, with the session name `name` and the
/// tab title `title`.
#[derive(Clone, Debug)]
pub struct SpawnRequest {
    pub path: String,
    pub resume_id: Option<String>,
    pub name: Option<String>,
    pub title: String,
    pub agent: Agent,
}

/// What planning a spawn does.
pub open spec fn plan_spawn_post(a: AppState, b: AppState, agent: Agent, name: Option<Seq<char>>, r: Option<SpawnRequest>) -> bool {
    match selected_view(a.store) {
        Some(NodeView::Workspace(wi)) if wi < a.store.workspaces.len() && wi < a.env.cwds.len() => {
            let title = match name { Some(n) => n, None => "unnamed"@ };
            &&& (r matches Some(q) && q.path@ == a.env.cwds@[wi as int]@ && q.resume_id is None
                    && opt_string_view(q.name) == name && q.title@ == title && q.agent == agent)
            &&& b.status@ == "Starting "@ + agent_label_spec(agent) + " '"@ + title + "' in "@ + a.store.workspaces@[wi as int].name@ + "..."@
            &&& b == (AppState { status: b.status, ..a })
        },
        Some(NodeView::Session(_, si)) if si < a.store.sessions.len() => {
            let s = a.store.sessions@[si as int];
            match first_tab_of(a.env.tabs@, s.id@) {
                Some(p) => r is None && b == (AppState { active_tab: Some(p), focus: Focus::Chat, ..a }),
                None => {
                    &&& (r matches Some(q) && q.path@ == s.workspace_path@ && opt_string_view(q.resume_id) == Some(s.id@)
                            && opt_string_view(q.name) == name && q.title@ == s.title@ && q.agent == agent)
                    &&& b.status@ == "Resuming: "@ + short_id_spec(s.id@) + "..."@
                    &&& b == (AppState { status: b.status, ..a })
                },
            }
        },
        Some(NodeView::ActiveTab(pi)) => r is None && b == (if pi < a.env.tabs.len() {
                AppState { active_tab: Some(pi), focus: Focus::Chat, ..a } } else { a }),
        Some(NodeView::ArchivedSession(_, ai)) if ai < a.store.archived_sessions.len() => {
            let s = a.store.archived_sessions@[ai as int];
            &&& b.store.archived_sessions@ == a.store.archived_sessions@.remove(ai as int)
            &&& b.store.sessions@ == a.store.sessions@.push(s)
            &&& match first_tab_of(a.env.tabs@, s.id@) {
                Some(p) => {
                    &&& r is None
                    &&& tree_view(b.store.tree@) == tree_spec(b.store, b.filters, b.env)
                    &&& b == (AppState { active_tab: Some(p), focus: Focus::Chat, store: b.store, ..a })
                },
                None => {
                    &&& (r matches Some(q) && q.path@ == s.workspace_path@ && opt_string_view(q.resume_id) == Some(s.id@)
                            && opt_string_view(q.name) == name && q.title@ == s.title@ && q.agent == agent)
                    &&& b.status@ == "Resuming archived: "@ + short_id_spec(s.id@) + "..."@
                    &&& b == (AppState { status: b.status, store: SessionStore { sessions: b.store.sessions,
                            archived_sessions: b.store.archived_sessions, ..a.store }, ..a })
                },
            }
        },
        _ => r is None && b == a,
    }
}

/// The status line after a terminal failed to start.
pub open spec fn spawn_failure_text(agent: Agent, resuming: bool, archived: bool, err: Seq<char>, hint: Seq<char>) -> Seq<char> {
    if contains_spec(err, "not found"@) || contains_spec(err, "No such file"@) {
        agent_label_spec(agent) + " not found. "@ + hint
    } else if !resuming {
        "Failed to spawn "@ + agent_label_spec(agent) + ": "@ + err
    } else if archived {
        "Failed to resume archived session: "@ + err
    } else {
        "Failed to resume session: "@ + err
    }
}

/// The tabs (of the first `n`) whose terminal is alive, in order.
pub open spec fn live_tabs(tabs: Seq<ActiveTab>, alive: Seq<bool>, n: nat) -> Seq<ActiveTab>
    decreases n,
{
    if n == 0 {
        Seq::empty()
    } else {
        let i = (n - 1) as nat;
        live_tabs(tabs, alive, i) + (if alive[i as int] { seq![tabs[i as int]] } else { Seq::empty() })
    }
}

proof fn lemma_live_tabs_all(tabs: Seq<ActiveTab>, alive: Seq<bool>, n: nat)
    requires
        n <= tabs.len(),
        n <= alive.len(),
        forall|j: int| 0 <= j < n ==> alive[j],
    ensures
        live_tabs(tabs, alive, n) == tabs.take(n as int),
    decreases n,
{
    if n > 0 {
        let i = (n - 1) as nat;
        lemma_live_tabs_all(tabs, alive, i);
        assert(live_tabs(tabs, alive, n) =~= tabs.take(n as int));
    } else {
        assert(live_tabs(tabs, alive, 0) =~= tabs.take(0));
    }
}

/// What a tab's terminal is doing.
#[derive(Clone, Copy, Debug, PartialEq, Eq, Structural)]
pub enum TabRunState {
    Running,
    Completed,
    Exited,
}

/// A tab's completion flag after a poll, and whether it just finished a
/// run that was seen running at the previous poll (which is announced).
#[derive(Clone, Copy, Debug, PartialEq, Eq, Structural)]
pub struct TabPoll {
    pub completed: bool,
    pub finished_now: bool,
}

/// One poll of a tab: running clears the completion flag; the first poll
/// that sees it completed sets the flag, and counts as a fresh finish when
/// the previous poll saw it running.
pub fn poll_tab(state: TabRunState, prev: Option<TabRunState>, completed: bool) -> (r: TabPoll)
    ensures
        state == TabRunState::Running ==> r == (TabPoll { completed: false, finished_now: false }),
        state == TabRunState::Completed && !completed ==> r == (TabPoll { completed: true, finished_now: prev == Some(TabRunState::Running) }),
        state == TabRunState::Completed && completed ==> r == (TabPoll { completed: true, finished_now: false }),
        state == TabRunState::Exited ==> r == (TabPoll { completed, finished_now: false }),
{
    match state {
        TabRunState::Running => TabPoll { completed: false, finished_now: false },
        TabRunState::Completed => {
            if completed {
                TabPoll { completed: true, finished_now: false }
            } else {
                TabPoll { completed: true, finished_now: prev == Some(TabRunState::Running) }
            }
        },
        TabRunState::Exited => TabPoll { completed, finished_now: false },
    }
}

/// The notice for a tab that finished: `✔ title completed (i+1/count)`.
pub fn completion_notice(title: &str, i: usize, count: usize) -> (r: String)
    requires
        i < count,
    ensures
        r@ == "\u{2714} "@ + title@ + " completed ("@ + decimal((i + 1) as nat) + "/"@ + decimal(count as nat) + ")"@,
{
    proof { reveal_strlit("\u{2714} "); reveal_strlit(" completed ("); reveal_strlit("/"); reveal_strlit(")"); }
    let mut v: Vec<char> = Vec::new();
    push_str(&mut v, "\u{2714} ");
    push_str(&mut v, title);
    push_str(&mut v, " completed (");
    push_decimal(&mut v, (i + 1) as u64);
    push_str(&mut v, "/");
    push_decimal(&mut v, count as u64);
    push_str(&mut v, ")");
    string_from_chars(&v)
}


/// Choosing the same agent filter twice gives back the filter the view had,
/// when that was no filter or this agent's.
pub proof fn lemma_agent_filter_twice(a: AppState, b: AppState, c: AppState, ag: Agent)
    requires
        a.filters.agent_filter is None || a.filters.agent_filter == Some(ag),
        agent_filter_post(a, b, ag),
        agent_filter_post(b, c, ag),
    ensures
        c.filters == a.filters,
        c.store.sessions == a.store.sessions,
{
    assert(c.filters.agent_filter == a.filters.agent_filter);
    assert(c.filters.sort_mode == a.filters.sort_mode);
    assert(c.filters.tag_filter == a.filters.tag_filter);
    assert(c.filters.search_query == a.filters.search_query);
}

/// Pressing F12 twice with no popup open gives back the same state: the
/// mode switch is its own inverse.
pub proof fn lemma_mode_switch_twice(a: AppState, b: AppState, c: AppState, key: KeyPress,
    alt_screen: bool, split_open: bool, scrolled_back: bool, r1: (Action, Effect), r2: (Action, Effect))
    requires
        a.input_mode == InputMode::Normal,
        key.code == KeyCode::F(12),
        key_event_post(a, b, key, alt_screen, split_open, scrolled_back, r1),
        key_event_post(b, c, key, alt_screen, split_open, scrolled_back, r2),
    ensures
        c == a,
        b.amux_mode != a.amux_mode,
{
}

/// Switching to the next tab and then to the previous one comes back to
/// the tab that had the focus.
pub proof fn lemma_switch_tab_round_trip(a: AppState, b: AppState, c: AppState, e1: Effect, e2: Effect)
    requires
        a.wf(),
        a.active_tab is Some,
        switch_tab_post(a, b, 1, e1),
        switch_tab_post(b, c, -1, e2),
    ensures
        c.active_tab == a.active_tab,
{
    let len = a.env.tabs.len();
    if len > 1 {
        let i = a.active_tab->0;
        lemma_move_round_trip(i, len as nat, 1);
        assert(moved_selection(Some(i), len as nat, 1) == Some(next_tab(a.active_tab, 1, len as nat)));
        let n = next_tab(a.active_tab, 1, len as nat);
        assert(moved_selection(Some(n), len as nat, -1) == Some(next_tab(b.active_tab, -1, len as nat)));
    }
}

/// Showing the archived sessions and hiding them again leaves the display
/// and the sessions as they were.
pub proof fn lemma_toggle_archived_twice(a: AppState, b: AppState, c: AppState)
    requires
        toggle_archived_post(a, b),
        toggle_archived_post(b, c),
    ensures
        c.store.show_archived == a.store.show_archived,
        c.store.sessions == a.store.sessions,
        c.store.archived_sessions == a.store.archived_sessions,
        c.store.workspaces == a.store.workspaces,
{
}

/// Marking the selected session twice gives back the marked set.
pub proof fn lemma_toggle_mark_twice(a: AppState, b: AppState, c: AppState)
    requires
        toggle_mark_post(a, b),
        toggle_mark_post(b, c),
    ensures
        c.marked@.len() == a.marked@.len(),
        forall|x: usize| c.marked@.contains(x) <==> a.marked@.contains(x),
{
    match selected_view(a.store) {
        Some(NodeView::Session(_, si)) => {
            assert(selected_view(b.store) == selected_view(a.store));
            if a.marked@.contains(si) {
                assert(!b.marked@.contains(si));
                assert(c.marked@ == b.marked@.push(si));
                assert forall|x: usize| c.marked@.contains(x) <==> a.marked@.contains(x) by {
                    if x == si {
                        assert(c.marked@[c.marked@.len() - 1] == si);
                    } else {
                        if c.marked@.contains(x) {
                            let k = choose|k: int| 0 <= k < c.marked@.len() && c.marked@[k] == x;
                            assert(b.marked@[k] == x);
                        }
                        if b.marked@.contains(x) {
                            let k = choose|k: int| 0 <= k < b.marked@.len() && b.marked@[k] == x;
                            assert(c.marked@[k] == x);
                        }
                    }
                }
            } else {
                assert(b.marked@ == a.marked@.push(si));
                assert(b.marked@[b.marked@.len() - 1] == si);
                assert forall|x: usize| c.marked@.contains(x) <==> a.marked@.contains(x) by {
                    if x != si {
                        if a.marked@.contains(x) {
                            let k = choose|k: int| 0 <= k < a.marked@.len() && a.marked@[k] == x;
                            assert(b.marked@[k] == x);
                        }
                        if b.marked@.contains(x) {
                            let k = choose|k: int| 0 <= k < b.marked@.len() && b.marked@[k] == x;
                            if k < a.marked@.len() {
                                assert(a.marked@[k] == x);
                            }
                        }
                    }
                }
            }
        },
        _ => {},
    }
}

/// A paste never makes the prompt text longer than its byte limit, and
/// what remains starts with the text that was there, when that fit.
pub proof fn lemma_paste_within_limit(a: AppState, b: AppState, text: Seq<char>, e: Effect)
    requires
        paste_post(a, b, text, e),
        a.input_mode != InputMode::Normal,
        a.input_mode != InputMode::ScrollSearch,
        a.input_mode != InputMode::ScrollbackSearch,
    ensures
        byte_len(b.input_buffer@) <= PASTE_LIMIT,
        b.input_buffer@ == (a.input_buffer@ + text).take(b.input_buffer@.len() as int),
{
    lemma_fit_prefix_fits(a.input_buffer@ + text, PASTE_LIMIT as nat);
}

/// What happened to a list picker.
#[derive(Clone, Copy, Debug, PartialEq, Eq, Structural)]
pub enum PickerOutcome {
    /// Esc: the picker closed without a choice.
    Closed,
    /// The highlight moved.
    Moved,
    /// Enter on this entry: the picker closed.
    Chosen(usize),
    /// Enter with nothing highlighted: the picker closed.
    Dismissed,
    /// The typed filter changed.
    Edited,
    /// The key did nothing.
    Ignored,
}

/// What a key does in a list picker of `len` entries.
pub open spec fn picker_post(a: AppState, b: AppState, key: KeyPress, len: usize, r: PickerOutcome) -> bool {
    let cur: int = match a.menu_selected { Some(c) => c as int, None => 0 };
    match key.code {
        KeyCode::Esc => r is Closed && b.picker_query@.len() == 0 && b.status@.len() == 0
            && b == (AppState { input_mode: InputMode::Normal, picker_query: b.picker_query, status: b.status, ..a }),
        KeyCode::Up | KeyCode::Char('k') => if len == 0 { r is Ignored && b == a } else {
                r is Moved && b == (AppState { menu_selected: Some((if cur == 0 { len - 1 } else { cur - 1 }) as usize), ..a }) },
        KeyCode::Down | KeyCode::Char('j') => if len == 0 { r is Ignored && b == a } else {
                r is Moved && b == (AppState { menu_selected: Some(((cur + 1) % (len as int)) as usize), ..a }) },
        KeyCode::Enter => {
            &&& r == (match a.menu_selected { Some(i) => if i < len { PickerOutcome::Chosen(i) } else { PickerOutcome::Dismissed },
                    None => PickerOutcome::Dismissed })
            &&& b.picker_query@.len() == 0
            &&& b == (AppState { input_mode: InputMode::Normal, picker_query: b.picker_query, ..a })
        },
        KeyCode::Backspace => r is Edited && b.picker_query@ == popped(a.picker_query@)
            && b == (AppState { picker_query: b.picker_query, ..a }),
        KeyCode::Char(c) => r is Edited && b.picker_query@ == a.picker_query@.push(c)
            && b == (AppState { picker_query: b.picker_query, ..a }),
        _ => r is Ignored && b == a,
    }
}

/// The character sequence of an optional string slice.
pub open spec fn opt_str(o: Option<&str>) -> Option<Seq<char>> {
    match o {
        Some(s) => Some(s@),
        None => None,
    }
}

/// The first workspace with this id.
pub open spec fn ws_with_id(wss: Seq<Workspace>, id: Seq<char>, i: int) -> bool {
    &&& 0 <= i < wss.len()
    &&& wss[i].id@ == id
    &&& forall|j: int| 0 <= j < i ==> (#[trigger] wss[j]).id@ != id
}

proof fn lemma_ws_id_first(wss: Seq<Workspace>, id: Seq<char>, i: int)
    requires
        0 <= i < wss.len(),
        wss[i].id@ == id,
        forall|j: int| 0 <= j < i ==> (#[trigger] wss[j]).id@ != id,
    ensures
        ws_index_by_id(wss, id) == Some(i as usize),
{
    let k = choose|k: int| #[trigger] ws_with_id(wss, id, k);
    assert(ws_with_id(wss, id, i));
    if k < i {
        assert(wss[k].id@ != id);
    } else if i < k {
        assert(wss[i].id@ != id);
    }
}

/// The index of the first workspace with this id.
pub open spec fn ws_index_by_id(wss: Seq<Workspace>, id: Seq<char>) -> Option<usize> {
    if exists|k: int| #[trigger] ws_with_id(wss, id, k) {
        Some((choose|k: int| #[trigger] ws_with_id(wss, id, k)) as usize)
    } else {
        None
    }
}

/// The workspace of the selected row, when it is a workspace or session row.
pub open spec fn row_workspace(a: AppState) -> Option<usize> {
    match selected_view(a.store) {
        Some(NodeView::Workspace(wi)) => Some(wi),
        Some(NodeView::Session(wi, _)) => Some(wi),
        _ => None,
    }
}

/// The workspace a template starts in.
pub open spec fn template_target_spec(a: AppState, id: Option<Seq<char>>) -> Option<usize> {
    match id {
        Some(wid) => match ws_index_by_id(a.store.workspaces@, wid) {
            Some(wi) => Some(wi),
            None => row_workspace(a),
        },
        None => row_workspace(a),
    }
}

/// What a key does in the settings panel.
pub open spec fn settings_post(a: AppState, b: AppState, key: KeyPress, e: Effect) -> bool {
    let n = a.store.workspaces.len();
    match key.code {
        KeyCode::Esc => e is Nothing && b.status@.len() == 0
            && b == (AppState { input_mode: InputMode::Normal, status: b.status, ..a }),
        KeyCode::Char('a') => e is Nothing && start_new_workspace_post(a, b),
        KeyCode::Char('d') => e is Nothing && if n > 1 {
                b.status@ == "Delete workspace #"@ + decimal(n as nat) + "? y/n"@
                    && b == (AppState { status: b.status, pending_delete: Some(TreeNode::Workspace((n - 1) as usize)),
                        pending_batch_delete: false, input_mode: InputMode::ConfirmDelete, ..a })
            } else {
                b.status@ == "Cannot delete the only workspace."@ && b == (AppState { status: b.status, ..a })
            },
        KeyCode::Char('r') => e is Nothing && if n > 0 {
                b.input_buffer@ == a.store.workspaces@[n - 1].name@
                    && b.status@ == "Edit workspace name (Enter=confirm, Esc=cancel):"@
                    && b == (AppState { input_mode: InputMode::RenameWorkspace, rename_workspace_target: Some((n - 1) as usize),
                        input_buffer: b.input_buffer, status: b.status, ..a })
            } else {
                b == a
            },
        KeyCode::Char('k') => e is Nothing && mode_and_status(a, b, InputMode::KeybindView, "Keybindings (any key to close)"@),
        KeyCode::Char('t') => e is LoadThemes && b.picker_query@.len() == 0
            && b == (AppState { input_mode: InputMode::ThemeSelect, picker_query: b.picker_query, ..a }),
        KeyCode::Char('b') => e is SaveConfig && if a.token_limits is Some {
                b.status@ == "Token budget cleared."@
                    && b == (AppState { token_limits: None, budget_alert: None, status: b.status, ..a })
            } else {
                b.status@ == "Token budget set: 100k daily tokens. Edit config.json to customize."@
                    && b == (AppState { token_limits: Some(TokenLimits { daily_tokens: Some(100000), weekly_tokens: None }),
                        status: b.status, ..a })
            },
        _ => e is Nothing && b == a,
    }
}

/// What a key does in the plugin output view of `lines` lines.
pub open spec fn plugin_output_post(a: AppState, b: AppState, key: KeyPress, lines: usize, closed: bool) -> bool {
    let last: int = if lines > 0 { lines - 1 } else { 0 };
    let s = a.plugin_scroll as int;
    match key.code {
        KeyCode::Down | KeyCode::Char('j') => !closed && b == (AppState { plugin_scroll: (if s < last { s + 1 } else { s }) as usize, ..a }),
        KeyCode::Up | KeyCode::Char('k') => !closed && b == (AppState { plugin_scroll: (if s > 0 { s - 1 } else { 0 }) as usize, ..a }),
        KeyCode::PageDown => !closed && b == (AppState { plugin_scroll: (if s + 10 < last { s + 10 } else { last }) as usize, ..a }),
        KeyCode::PageUp => !closed && b == (AppState { plugin_scroll: (if s > 10 { s - 10 } else { 0 }) as usize, ..a }),
        KeyCode::Home => !closed && b == (AppState { plugin_scroll: 0, ..a }),
        KeyCode::End => !closed && b == (AppState { plugin_scroll: last as usize, ..a }),
        _ => closed && b == (AppState { input_mode: InputMode::Normal, plugin_scroll: 0, ..a }),
    }
}

/// Which way a key moves the agent list: 1 down, -1 up, 0 not at all.
pub open spec fn agent_step(key: KeyPress) -> int {
    match key.code {
        KeyCode::Down | KeyCode::Char('j') | KeyCode::Char('J') => 1,
        KeyCode::Up | KeyCode::Char('k') | KeyCode::Char('K') => -1,
        _ => 0,
    }
}

/// What a key does in the agent list of `len` agents.
pub open spec fn agent_key_post(a: AppState, b: AppState, key: KeyPress, len: usize, r: Option<usize>) -> bool {
    match key.code {
        KeyCode::Esc => r is None && b.status@ == "Cancelled."@
            && b == (AppState { input_mode: InputMode::Normal, status: b.status, ..a }),
        KeyCode::Enter => match a.menu_selected {
            Some(i) if i < len => r == Some(i) && b == (AppState { input_mode: InputMode::Normal, ..a }),
            _ => r is None && b == a,
        },
        _ => r is None && if agent_step(key) != 0 && len > 0 {
                let sel: int = match a.menu_selected { Some(c) => c as int, None => 0 };
                let cur = if sel < len { sel } else { len - 1 };
                let next = if agent_step(key) > 0 {
                    if cur + 1 < len { cur + 1 } else { 0 }
                } else {
                    if cur == 0 { len - 1 } else { cur - 1 }
                };
                b == (AppState { menu_selected: Some(next as usize), ..a })
            } else {
                b == a
            },
    }
}

/// What Enter on the selected row does.
pub open spec fn activate_post(a: AppState, b: AppState, r: Option<Agent>) -> bool {
    match selected_view(a.store) {
        Some(NodeView::Workspace(_)) => r is None && b.input_buffer@.len() == 0
            && b.status@ == "Enter session name (empty = unnamed, Esc = cancel):"@
            && b == (AppState { input_mode: InputMode::SessionName, input_buffer: b.input_buffer, status: b.status, ..a }),
        Some(NodeView::Session(_, si)) => b == a && r == (if si < a.store.sessions.len() {
                Some(a.store.sessions@[si as int].agent) } else { None }),
        Some(NodeView::ActiveTab(pi)) => r is None && b == (if pi < a.env.tabs.len() {
                AppState { active_tab: Some(pi), focus: Focus::Chat, ..a } } else { a }),
        Some(NodeView::ArchivedSession(_, ai)) => b == a && r == (if ai < a.store.archived_sessions.len() {
                Some(a.store.archived_sessions@[ai as int].agent) } else { None }),
        _ => r is None && b == a,
    }
}

/// Where `x` occurs in `v`, if it does.
fn mark_position(v: &Vec<usize>, x: usize) -> (r: Option<usize>)
    ensures
        match r {
            Some(p) => p < v.len() && v@[p as int] == x,
            None => !v@.contains(x),
        },
{
    let mut i: usize = 0;
    while i < v.len()
        invariant
            i <= v.len(),
            forall|j: int| 0 <= j < i ==> v@[j] != x,
        decreases v.len() - i,
    {
        if v[i] == x {
            return Some(i);
        }
        i = i + 1;
    }
    None
}

/// What a key does in the live search prompt.
pub open spec fn search_key_post(a: AppState, b: AppState, key: KeyPress) -> bool {
    &&& (match key.code {
            KeyCode::Char(c) => {
                &&& b.input_buffer@ == a.input_buffer@.push(c)
                &&& b.filters.search_query matches Some(q) && q@ == b.input_buffer@
                &&& b.tree_fresh()
                &&& rebuilt(a.store, b.store)
                &&& b == (AppState { input_buffer: b.input_buffer, store: b.store,
                        filters: ViewFilters { search_query: b.filters.search_query, ..a.filters }, ..a })
            },
            KeyCode::Backspace => {
                &&& b.input_buffer@ == popped(a.input_buffer@)
                &&& (if b.input_buffer@.len() == 0 { b.filters.search_query is None } else {
                        b.filters.search_query matches Some(q) && q@ == b.input_buffer@ })
                &&& b.tree_fresh()
                &&& rebuilt(a.store, b.store)
                &&& b == (AppState { input_buffer: b.input_buffer, store: b.store,
                        filters: ViewFilters { search_query: b.filters.search_query, ..a.filters }, ..a })
            },
            KeyCode::Esc => {
                &&& b.input_mode == InputMode::Normal
                &&& b.input_buffer@.len() == 0
                &&& b.filters.search_query is None
                &&& b.filters.agent_filter is None
                &&& b.tree_fresh()
                &&& rebuilt(a.store, b.store)
                &&& b == (AppState { input_buffer: b.input_buffer, store: b.store,
                        input_mode: InputMode::Normal,
                        filters: ViewFilters { search_query: None, agent_filter: None, ..a.filters }, ..a })
            },
            _ => b == a,
        })
}

/// What a key does in the tag filter prompt.
pub open spec fn tag_filter_key_post(a: AppState, b: AppState, key: KeyPress) -> bool {
    &&& (match key.code {
            KeyCode::Enter => {
                let t = trim_spec(a.input_buffer@);
                &&& (if t.len() == 0 {
                        b.filters.tag_filter is None && b.status@ == "Tag filter cleared."@
                    } else {
                        b.filters.tag_filter matches Some(f) && f@ == t && b.status@ == "Tag filter: "@ + t
                    })
                &&& b.input_buffer@.len() == 0
                &&& b.tree_fresh()
                &&& rebuilt(a.store, b.store)
                &&& b == (AppState { input_buffer: b.input_buffer, store: b.store,
                        status: b.status, input_mode: InputMode::Normal,
                        filters: ViewFilters { tag_filter: b.filters.tag_filter, ..a.filters }, ..a })
            },
            KeyCode::Esc => {
                &&& b.input_buffer@.len() == 0
                &&& b.status@.len() == 0
                &&& b == (AppState { input_buffer: b.input_buffer, status: b.status,
                        input_mode: InputMode::Normal, ..a })
            },
            KeyCode::Backspace => {
                &&& b.input_buffer@ == popped(a.input_buffer@)
                &&& b == (AppState { input_buffer: b.input_buffer, ..a })
            },
            KeyCode::Char(c) => {
                &&& b.input_buffer@ == a.input_buffer@.push(c)
                &&& b == (AppState { input_buffer: b.input_buffer, ..a })
            },
            _ => b == a,
        })
}

/// What a key does in the ranked search prompt and its result list.
pub open spec fn semantic_search_key_post(a: AppState, b: AppState, key: KeyPress, r: (Action, Effect)) -> bool {
    &&& (a.search_results.len() > 0 ==> match key.code {
            KeyCode::Esc => {
                &&& b.search_results@.len() == 0
                &&& b.status@ == "Search cancelled."@
                &&& r.1 is Nothing
                &&& b == (AppState { search_results: b.search_results, search_selected: None,
                        input_mode: InputMode::Normal, status: b.status, ..a })
            },
            KeyCode::Char('j') | KeyCode::Down => {
                let len = a.search_results.len();
                &&& b.search_selected == Some(match a.search_selected {
                        Some(i) => if i + 1 < len { (i + 1) as usize } else { (len - 1) as usize },
                        None => 0usize,
                    })
                &&& r.1 is Nothing
                &&& b == (AppState { search_selected: b.search_selected, ..a })
            },
            KeyCode::Char('k') | KeyCode::Up => {
                &&& b.search_selected == Some(match a.search_selected {
                        Some(i) => if i > 0 { (i - 1) as usize } else { 0usize },
                        None => 0usize,
                    })
                &&& r.1 is Nothing
                &&& b == (AppState { search_selected: b.search_selected, ..a })
            },
            KeyCode::Enter => {
                &&& r.1 is Nothing
                &&& match a.search_selected {
                    Some(i) if i < a.search_results.len() => {
                        let target = a.search_results@[i as int]@;
                        &&& b.search_results@.len() == 0
                        &&& b.search_selected is None
                        &&& b.input_mode == InputMode::Normal
                        &&& (match find_row_spec(a.store, target) {
                                Some(row) => b.store.selected == Some(row)
                                    && b.status@ == "Selected session "@ + short_id_spec(target) + "."@,
                                None => b.store.selected == a.store.selected
                                    && b.status@ == "Session "@ + short_id_spec(target) + " not found in sidebar."@,
                            })
                        &&& b == (AppState { search_results: b.search_results, search_selected: None,
                                input_mode: InputMode::Normal, status: b.status,
                                store: SessionStore { selected: b.store.selected, ..a.store }, ..a })
                    },
                    _ => b == a,
                }
            },
            _ => b == a && r.1 is Nothing,
        })
    &&& (a.search_results.len() == 0 ==> match key.code {
            KeyCode::Esc => {
                &&& b.input_buffer@.len() == 0
                &&& b.status@ == "Cancelled."@
                &&& r.1 is Nothing
                &&& b == (AppState { input_buffer: b.input_buffer, status: b.status,
                        input_mode: InputMode::Normal, ..a })
            },
            KeyCode::Enter => {
                let q = trim_spec(a.input_buffer@);
                &&& b.input_buffer@.len() == 0
                &&& (if q.len() == 0 {
                        &&& r.1 is Nothing
                        &&& b.status@ == "Cancelled."@
                        &&& b == (AppState { input_buffer: b.input_buffer, status: b.status,
                                input_mode: InputMode::Normal, ..a })
                    } else {
                        &&& r.1 matches Effect::SemanticSearch(t) && t@ == q
                        &&& b == (AppState { input_buffer: b.input_buffer, ..a })
                    })
            },
            KeyCode::Backspace => {
                &&& b.input_buffer@ == popped(a.input_buffer@)
                &&& r.1 is Nothing
                &&& b == (AppState { input_buffer: b.input_buffer, ..a })
            },
            KeyCode::Char(c) => {
                &&& b.input_buffer@ == a.input_buffer@.push(c)
                &&& r.1 is Nothing
                &&& b == (AppState { input_buffer: b.input_buffer, ..a })
            },
            _ => b == a && r.1 is Nothing,
        })
}

/// What selecting a session by id does.
pub open spec fn navigate_post(a: AppState, b: AppState, session_id: Seq<char>) -> bool {
    &&& (match find_row_spec(a.store, session_id) {
            Some(i) => {
                &&& b.store.selected == Some(i)
                &&& b.status@ == "Selected session "@ + short_id_spec(session_id) + "."@
            },
            None => {
                &&& b.store.selected == a.store.selected
                &&& b.status@ == "Session "@ + short_id_spec(session_id) + " not found in sidebar."@
            },
        })
    &&& (b == (AppState { status: b.status,
            store: SessionStore { selected: b.store.selected, ..a.store }, ..a }))
}

/// What toggling the agent filter does.
pub open spec fn agent_filter_post(a: AppState, b: AppState, ag: Agent) -> bool {
    &&& (b.tree_fresh())
    &&& (rebuilt(a.store, b.store))
    &&& (a.filters.agent_filter == Some(ag) ==> b.filters.agent_filter is None
            && b.status@ == "Filter: all agents"@)
    &&& (a.filters.agent_filter != Some(ag) ==> b.filters.agent_filter == Some(ag)
            && b.status@ == "Filter: "@ + agent_label_spec(ag))
    &&& (b == (AppState { store: b.store, status: b.status,
            filters: ViewFilters { agent_filter: b.filters.agent_filter, ..a.filters }, ..a }))
}

/// What switching to the next sort mode does.
pub open spec fn cycle_sort_post(a: AppState, b: AppState) -> bool {
    &&& (b.tree_fresh())
    &&& (rebuilt(a.store, b.store))
    &&& (b.filters.sort_mode == sort_mode_next(a.filters.sort_mode))
    &&& (b.status@ == "Sort: "@ + sort_mode_label(b.filters.sort_mode))
    &&& (b == (AppState { store: b.store, status: b.status,
            filters: ViewFilters { sort_mode: b.filters.sort_mode, ..a.filters }, ..a }))
}

/// What marking or unmarking the selected session does.
pub open spec fn toggle_mark_post(a: AppState, b: AppState) -> bool {
    &&& (match selected_view(a.store) {
            Some(NodeView::Session(_, si)) => {
                &&& (a.marked@.contains(si) ==> {
                        &&& b.marked@.len() == a.marked@.len() - 1
                        &&& !b.marked@.contains(si)
                        &&& forall|x: usize| x != si ==> (b.marked@.contains(x) <==> a.marked@.contains(x))
                        &&& b.status@ == "Unmarked session ("@ + decimal(b.marked@.len()) + ")"@
                    })
                &&& (!a.marked@.contains(si) ==> {
                        &&& b.marked@ == a.marked@.push(si)
                        &&& b.status@ == "Marked session ("@ + decimal(b.marked@.len()) + ")"@
                    })
                &&& b == (AppState { marked: b.marked, status: b.status, ..a })
            },
            _ => b == a,
        })
}

/// What pinning or unpinning the selected session does.
pub open spec fn toggle_pin_post(a: AppState, b: AppState, e: Effect) -> bool {
    &&& (match selected_view(a.store) {
            Some(NodeView::Session(_, si)) if si < a.store.sessions.len() => {
                let s = a.store.sessions@[si as int];
                &&& b.store.sessions@ == a.store.sessions@.update(si as int, Session { pinned: !s.pinned, ..s })
                &&& b.status@ == (if !s.pinned { "\u{1f4cc} Pinned"@ } else { "Unpinned"@ })
                &&& e matches Effect::SavePin(id, p) && id@ == s.id@ && p == !s.pinned
                &&& b.tree_fresh()
                &&& same_but_sessions(a.store, b.store)
                &&& b == (AppState { store: b.store, status: b.status, ..a })
            },
            _ => b == a && e is Nothing,
        })
}

/// What starting to rename the selected row does.
pub open spec fn start_rename_post(a: AppState, b: AppState) -> bool {
    &&& (match selected_view(a.store) {
            Some(NodeView::Workspace(wi)) if wi < a.store.workspaces.len() => {
                &&& b.input_buffer@ == a.store.workspaces@[wi as int].name@
                &&& b.status@ == "Edit workspace name (Enter=confirm, Esc=cancel):"@
                &&& b == (AppState { input_mode: InputMode::RenameWorkspace, rename_workspace_target: Some(wi),
                        input_buffer: b.input_buffer, status: b.status, ..a })
            },
            Some(NodeView::Session(_, si)) if si < a.store.sessions.len() => {
                &&& b.input_buffer@ == a.store.sessions@[si as int].title@
                &&& b.status@ == "Edit session name (Enter=confirm, Esc=cancel):"@
                &&& b == (AppState { input_mode: InputMode::RenameSession, rename_target: Some(si),
                        input_buffer: b.input_buffer, status: b.status, ..a })
            },
            _ => b == a,
        })
}

/// What starting to create a workspace does.
pub open spec fn start_new_workspace_post(a: AppState, b: AppState) -> bool {
    &&& (b.input_buffer@.len() == 0)
    &&& (b.status@ == "Workspace name (Esc = cancel):"@)
    &&& (b == (AppState { input_mode: InputMode::NewWorkspaceName, input_buffer: b.input_buffer,
            new_workspace_name: None, status: b.status, ..a }))
}

/// What showing or hiding the archived sessions does.
pub open spec fn toggle_archived_post(a: AppState, b: AppState) -> bool {
    &&& (b.tree_fresh())
    &&& (b.store.show_archived == !a.store.show_archived)
    &&& (b.store.show_archived ==> b.status@
            == "Showing "@ + decimal(a.store.archived_sessions.len() as nat) + " archived session(s)"@)
    &&& (!b.store.show_archived ==> b.status@ == "Archived sessions hidden"@)
    &&& (b.store.workspaces == a.store.workspaces)
    &&& (b.store.sessions == a.store.sessions)
    &&& (b.store.archived_sessions == a.store.archived_sessions)
    &&& (b == (AppState { store: b.store, status: b.status, ..a }))
}

/// What moving the focus to the tabs does.
pub open spec fn focus_chat_post(a: AppState, b: AppState) -> bool {
    &&& (a.env.tabs.len() == 0 ==> b.status@ == "No active session. Press Enter to start one."@
            && b == (AppState { status: b.status, ..a }))
    &&& (a.env.tabs.len() > 0 ==> b == (AppState { focus: Focus::Chat,
            active_tab: (if a.active_tab is None { Some(0usize) } else { a.active_tab }), ..a }))
}

/// What asking to delete the selected row (or the marked sessions) does.
pub open spec fn request_delete_post(a: AppState, b: AppState, e: Effect) -> bool {
    &&& (match selected_view(a.store) {
            Some(NodeView::Workspace(wi)) if wi < a.store.workspaces.len() => {
                let count: nat = if wi < a.store.ws_session_map.len() { a.store.ws_session_map@[wi as int].len() as nat } else { 0 };
                &&& b.status@ == "Delete workspace \""@ + a.store.workspaces@[wi as int].name@
                        + "\" ("@ + decimal(count) + " sessions)? y/n"@
                &&& e is Nothing
                &&& b == (AppState { status: b.status, pending_delete: Some(TreeNode::Workspace(wi)),
                        input_mode: InputMode::ConfirmDelete, ..a })
            },
            Some(NodeView::Session(wi, si)) => {
                &&& e is Nothing
                &&& if a.marked.len() > 0 {
                        &&& b.status@ == "Delete "@ + decimal(a.marked.len() as nat) + " marked session(s)? y/n"@
                        &&& b == (AppState { status: b.status, pending_batch_delete: true,
                                input_mode: InputMode::ConfirmDelete, ..a })
                    } else if si < a.store.sessions.len() {
                        &&& b.status@ == "Delete session \""@ + a.store.sessions@[si as int].title@ + "\"? y/n"@
                        &&& b == (AppState { status: b.status, pending_delete: Some(TreeNode::Session(wi, si)),
                                input_mode: InputMode::ConfirmDelete, ..a })
                    } else {
                        b == a
                    }
            },
            Some(NodeView::ActiveTab(pi)) if pi < a.env.tabs.len() => {
                &&& b.env.tabs@ == a.env.tabs@.remove(pi as int)
                &&& b.active_tab == tab_after_close(a.active_tab, b.env.tabs.len() as nat)
                &&& b.focus == (if b.env.tabs.len() == 0 { Focus::Sidebar } else { a.focus })
                &&& b.status@ == "Closed tab: "@ + a.env.tabs@[pi as int].title@
                &&& b.tree_fresh()
                &&& rebuilt(a.store, b.store)
                &&& e == Effect::CloseTab(pi)
                &&& b == (AppState { env: TreeEnv { tabs: b.env.tabs, ..a.env },
                        active_tab: b.active_tab, focus: b.focus, status: b.status,
                        store: b.store, ..a })
            },
            _ => b == a && e is Nothing,
        })
}

/// What cancelling a pending deletion does.
pub open spec fn cancel_delete_post(a: AppState, b: AppState) -> bool {
    &&& (b.status@.len() == 0)
    &&& (b == (AppState { pending_delete: None, pending_batch_delete: false, input_mode: InputMode::Normal,
            status: b.status, ..a }))
}

/// What confirming a pending deletion does.
pub open spec fn confirm_delete_post(a: AppState, b: AppState, e: Effect) -> bool {
    &&& (b.input_mode == InputMode::Normal)
    &&& (a.pending_batch_delete ==> {
            let ss = a.store.sessions@;
            &&& b.store.sessions@ == unmarked_sessions(ss, a.marked@, ss.len())
            &&& e matches Effect::DeleteSessions(ids, closed)
                && ids@.map_values(|i: String| i@) == marked_ids_desc(ss, a.marked@, ss.len())
                && (b.env.tabs@, b.active_tab, closed@) == close_tabs_of(a.env.tabs@, a.active_tab, marked_ids_desc(ss, a.marked@, ss.len()))
            &&& b.marked@.len() == 0
            &&& !b.pending_batch_delete
            &&& b.focus == (if b.env.tabs.len() == 0 { Focus::Sidebar } else { a.focus })
            &&& b.status@ == "Deleted "@ + decimal(a.marked@.len()) + " session(s)"@
            &&& b.tree_fresh()
            &&& same_but_sessions(a.store, b.store)
            &&& b == (AppState { store: b.store, env: TreeEnv { tabs: b.env.tabs, ..a.env },
                    active_tab: b.active_tab, focus: b.focus, status: b.status,
                    marked: b.marked, pending_batch_delete: false, input_mode: InputMode::Normal, ..a })
        })
    &&& (!a.pending_batch_delete ==> match a.pending_delete {
            Some(TreeNode::Workspace(wi)) if wi < a.store.workspaces.len() => {
                &&& b.store.workspaces@ == a.store.workspaces@.remove(wi as int)
                &&& b.env.cwds@ == a.env.cwds@.remove(wi as int)
                &&& b.env.path_exists@ == a.env.path_exists@.remove(wi as int)
                &&& b.status@ == "Deleted workspace: "@ + a.store.workspaces@[wi as int].name@
                &&& e is SaveConfigAndRefresh
                &&& b == (AppState { store: SessionStore { workspaces: b.store.workspaces, ..a.store },
                        env: TreeEnv { cwds: b.env.cwds, path_exists: b.env.path_exists, ..a.env },
                        status: b.status, pending_delete: None, input_mode: InputMode::Normal, ..a })
            },
            Some(TreeNode::Session(_, si)) if si < a.store.sessions.len() => {
                let s = a.store.sessions@[si as int];
                let t = first_tab_of(a.env.tabs@, s.id@);
                &&& b.store.sessions@ == a.store.sessions@.remove(si as int)
                &&& b.env.tabs@ == (match t { Some(p) => a.env.tabs@.remove(p as int), None => a.env.tabs@ })
                &&& b.active_tab == (match t { Some(p) => tab_after_close(a.active_tab, b.env.tabs.len() as nat),
                        None => a.active_tab })
                &&& e matches Effect::DeleteSessions(ids, closed) && ids@.len() == 1 && ids@[0]@ == s.id@
                    && closed@ == (match t { Some(p) => seq![p], None => Seq::<usize>::empty() })
                &&& b.status@ == "Deleted session: "@ + s.title@
                &&& b.tree_fresh()
                &&& same_but_sessions(a.store, b.store)
                &&& b == (AppState { store: b.store, env: TreeEnv { tabs: b.env.tabs, ..a.env },
                        active_tab: b.active_tab, status: b.status, pending_delete: None,
                        input_mode: InputMode::Normal, ..a })
            },
            _ => e is Nothing && b == (AppState { pending_delete: None, input_mode: InputMode::Normal, ..a }),
        })
}

impl AppState {
    /// The environment describes the workspaces, no session is marked twice
    /// and the focused tab exists.
    pub open spec fn wf(&self) -> bool {
        &&& env_wf(self.store, self.env)
        &&& no_dups(self.marked@)
        &&& (self.active_tab matches Some(i) ==> i < self.env.tabs.len())
    }

    /// The tree shows the current sessions under the current filters.
    pub open spec fn tree_fresh(&self) -> bool {
        tree_view(self.store.tree@) == tree_spec(self.store, self.filters, self.env)
    }

    /// Rebuilds the sidebar tree from the current state.
    pub fn rebuild(&mut self)
        requires
            old(self).wf(),
        ensures
            final(self).wf(),
            final(self).tree_fresh(),
            rebuilt(old(self).store, final(self).store),
            final(self).store.selected == clamped_selection(old(self).store.selected, final(self).store.tree.len() as nat),
            *final(self) == (AppState { store: final(self).store, ..*old(self) }),
    {
        rebuild_tree(&mut self.store, &self.filters, &self.env);
    }

    fn set_status(&mut self, s: &str)
        ensures
            final(self).status@ == s@,
            *final(self) == (AppState { status: final(self).status, ..*old(self) }),
    {
        self.status = String::from_str(s);
    }

    fn push_input(&mut self, c: char)
        ensures
            final(self).input_buffer@ == old(self).input_buffer@.push(c),
            *final(self) == (AppState { input_buffer: final(self).input_buffer, ..*old(self) }),
    {
        let mut v = chars_of(self.input_buffer.as_str());
        v.push(c);
        self.input_buffer = string_from_chars(&v);
    }

    fn pop_input(&mut self)
        ensures
            final(self).input_buffer@ == popped(old(self).input_buffer@),
            *final(self) == (AppState { input_buffer: final(self).input_buffer, ..*old(self) }),
    {
        let mut v = chars_of(self.input_buffer.as_str());
        if v.len() > 0 {
            v.pop();
        }
        self.input_buffer = string_from_chars(&v);
    }

    /// Typing in the sidebar search: the query follows the input buffer and
    /// the tree is filtered live; Esc leaves search and clears the query and
    /// the agent filter.
    pub fn handle_search_key(&mut self, key: KeyPress) -> (a: Action)
        requires
            old(self).wf(),
        ensures
            a == Action::Continue,
            final(self).wf(),
            search_key_post(*old(self), *final(self), key),
    {
        match key.code {
            KeyCode::Char(c) => {
                self.push_input(c);
                self.filters.search_query = Some(self.input_buffer.clone());
                self.rebuild();
            },
            KeyCode::Backspace => {
                self.pop_input();
                if self.input_buffer.as_str().unicode_len() == 0 {
                    self.filters.search_query = None;
                } else {
                    self.filters.search_query = Some(self.input_buffer.clone());
                }
                self.rebuild();
            },
            KeyCode::Esc => {
                self.input_mode = InputMode::Normal;
                self.input_buffer = String::new();
                self.filters.search_query = None;
                self.filters.agent_filter = None;
                self.rebuild();
            },
            _ => {},
        }
        Action::Continue
    }

    /// Typing a tag filter: Enter applies the trimmed text (or clears the
    /// filter when it is blank), Esc cancels.
    pub fn handle_tag_filter_key(&mut self, key: KeyPress) -> (a: Action)
        requires
            old(self).wf(),
        ensures
            a == Action::Continue,
            final(self).wf(),
            tag_filter_key_post(*old(self), *final(self), key),
    {
        match key.code {
            KeyCode::Enter => {
                let t = trim(self.input_buffer.as_str());
                if t.as_str().unicode_len() == 0 {
                    self.filters.tag_filter = None;
                    self.set_status("Tag filter cleared.");
                } else {
                    proof { reveal_strlit("Tag filter: "); }
                    let mut v: Vec<char> = Vec::new();
                    push_str(&mut v, "Tag filter: ");
                    push_str(&mut v, t.as_str());
                    self.status = string_from_chars(&v);
                    self.filters.tag_filter = Some(t);
                }
                self.input_mode = InputMode::Normal;
                self.input_buffer = String::new();
                self.rebuild();
            },
            KeyCode::Esc => {
                self.input_mode = InputMode::Normal;
                self.input_buffer = String::new();
                self.status = String::new();
            },
            KeyCode::Backspace => self.pop_input(),
            KeyCode::Char(c) => self.push_input(c),
            _ => {},
        }
        Action::Continue
    }

    /// Selects the sidebar row of the session with this id, reporting in the
    /// status line whether it was found.
    pub fn navigate_to_session(&mut self, session_id: &str)
        ensures
            navigate_post(*old(self), *final(self), session_id@),
    {
        let row = find_session_row(&self.store, session_id);
        let short = short_id(session_id);
        let mut v: Vec<char> = Vec::new();
        match row {
            Some(i) => {
                proof { reveal_strlit("Selected session "); reveal_strlit("."); }
                self.store.selected = Some(i);
                push_str(&mut v, "Selected session ");
                push_str(&mut v, short.as_str());
                push_str(&mut v, ".");
            },
            None => {
                proof { reveal_strlit("Session "); reveal_strlit(" not found in sidebar."); }
                push_str(&mut v, "Session ");
                push_str(&mut v, short.as_str());
                push_str(&mut v, " not found in sidebar.");
            },
        }
        self.status = string_from_chars(&v);
        proof {
            if let Some(i) = row {
                lemma_find_row_unique(old(self).store, session_id@, i as int);
            } else {
                lemma_find_row_none(old(self).store, session_id@);
            }
        }
    }

    /// Keys of the ranked search. With results shown: j/k or the arrows move
    /// through them (clamped at both ends), Enter jumps to the chosen
    /// session in the sidebar, Esc closes the results. While typing the
    /// query: Enter asks the caller to run the search for the trimmed query
    /// (or cancels when it is blank), Esc cancels.
    #[verifier::rlimit(30)]
    pub fn handle_semantic_search_key(&mut self, key: KeyPress) -> (r: (Action, Effect))
        requires
            old(self).wf(),
        ensures
            r.0 == Action::Continue,
            final(self).wf(),
            semantic_search_key_post(*old(self), *final(self), key, r),
    {
        let len = self.search_results.len();
        if len > 0 {
            match key.code {
                KeyCode::Esc => {
                    self.search_results = Vec::new();
                    self.search_selected = None;
                    self.input_mode = InputMode::Normal;
                    self.set_status("Search cancelled.");
                },
                KeyCode::Char('j') | KeyCode::Down => {
                    let i = match self.search_selected {
                        Some(i) => if i < len - 1 { i + 1 } else { len - 1 },
                        None => 0,
                    };
                    self.search_selected = Some(i);
                },
                KeyCode::Char('k') | KeyCode::Up => {
                    let i = match self.search_selected {
                        Some(i) => if i > 0 { i - 1 } else { 0 },
                        None => 0,
                    };
                    self.search_selected = Some(i);
                },
                KeyCode::Enter => {
                    if let Some(i) = self.search_selected {
                        if i < len {
                            let target = self.search_results[i].clone();
                            self.search_results = Vec::new();
                            self.search_selected = None;
                            self.input_mode = InputMode::Normal;
                            self.navigate_to_session(target.as_str());
                        }
                    }
                },
                _ => {},
            }
            return (Action::Continue, Effect::Nothing);
        }
        match key.code {
            KeyCode::Esc => {
                self.input_mode = InputMode::Normal;
                self.input_buffer = String::new();
                self.set_status("Cancelled.");
                (Action::Continue, Effect::Nothing)
            },
            KeyCode::Enter => {
                let q = trim(self.input_buffer.as_str());
                self.input_buffer = String::new();
                if q.as_str().unicode_len() == 0 {
                    self.input_mode = InputMode::Normal;
                    self.set_status("Cancelled.");
                    (Action::Continue, Effect::Nothing)
                } else {
                    (Action::Continue, Effect::SemanticSearch(q))
                }
            },
            KeyCode::Backspace => {
                self.pop_input();
                (Action::Continue, Effect::Nothing)
            },
            KeyCode::Char(c) => {
                self.push_input(c);
                (Action::Continue, Effect::Nothing)
            },
            _ => (Action::Continue, Effect::Nothing),
        }
    }

    /// Takes the session ids the ranked search found for `query`: none ends
    /// the search with a message; otherwise they are shown, the first one
    /// highlighted, and the popup stays open for browsing.
    pub fn show_search_hits(&mut self, query: &str, hits: Vec<String>)
        ensures
            hits@.len() == 0 ==> {
                &&& final(self).status@ == "No results for '"@ + query@ + "'."@
                &&& *final(self) == (AppState { status: final(self).status, input_mode: InputMode::Normal, ..*old(self) })
            },
            hits@.len() > 0 ==> {
                &&& final(self).search_results@ == hits@
                &&& final(self).status@ == "BM25: '"@ + query@ + "' ("@ + decimal(hits@.len()) + " hits \u{b7} j/k \u{b7} Enter \u{b7} Esc)"@
                &&& *final(self) == (AppState { status: final(self).status, search_results: final(self).search_results,
                        search_selected: Some(0), ..*old(self) })
            },
    {
        let mut v: Vec<char> = Vec::new();
        if hits.len() == 0 {
            proof { reveal_strlit("No results for '"); reveal_strlit("'."); }
            push_str(&mut v, "No results for '");
            push_str(&mut v, query);
            push_str(&mut v, "'.");
            self.status = string_from_chars(&v);
            self.input_mode = InputMode::Normal;
        } else {
            proof { reveal_strlit("BM25: '"); reveal_strlit("' ("); reveal_strlit(" hits \u{b7} j/k \u{b7} Enter \u{b7} Esc)"); }
            push_str(&mut v, "BM25: '");
            push_str(&mut v, query);
            push_str(&mut v, "' (");
            push_decimal(&mut v, hits.len() as u64);
            push_str(&mut v, " hits \u{b7} j/k \u{b7} Enter \u{b7} Esc)");
            self.status = string_from_chars(&v);
            self.search_results = hits;
            self.search_selected = Some(0);
        }
    }

    /// Shows only sessions of agent `a`, or all agents again when `a` was
    /// already the filter.
    pub fn toggle_agent_filter(&mut self, a: Agent)
        requires
            old(self).wf(),
        ensures
            final(self).wf(),
            agent_filter_post(*old(self), *final(self), a),
    {
        if self.filters.agent_filter == Some(a) {
            self.filters.agent_filter = None;
            self.set_status("Filter: all agents");
        } else {
            self.filters.agent_filter = Some(a);
            proof { reveal_strlit("Filter: "); }
            let mut v: Vec<char> = Vec::new();
            push_str(&mut v, "Filter: ");
            push_str(&mut v, a.label());
            self.status = string_from_chars(&v);
        }
        self.rebuild();
    }

    /// Moves to the next sort order and reports it.
    pub fn cycle_sort_mode(&mut self)
        requires
            old(self).wf(),
        ensures
            final(self).wf(),
            cycle_sort_post(*old(self), *final(self)),
    {
        self.filters.sort_mode = self.filters.sort_mode.next();
        self.rebuild();
        proof { reveal_strlit("Sort: "); }
        let mut v: Vec<char> = Vec::new();
        push_str(&mut v, "Sort: ");
        push_str(&mut v, self.filters.sort_mode.label());
        self.status = string_from_chars(&v);
    }

    /// Marks the selected session for a batch delete, or unmarks it, and
    /// reports how many are marked.
    pub fn toggle_mark(&mut self)
        requires
            old(self).wf(),
        ensures
            final(self).wf(),
            toggle_mark_post(*old(self), *final(self)),
    {
        let sel = match self.store.selected {
            Some(i) => if i < self.store.tree.len() { Some(i) } else { None },
            None => None,
        };
        let Some(i) = sel else { return; };
        let si = match &self.store.tree[i] {
            TreeNode::Session(_, si) => *si,
            _ => { return; },
        };
        let mut v: Vec<char> = Vec::new();
        match mark_position(&self.marked, si) {
            Some(p) => {
                let ghost before = self.marked@;
                self.marked.remove(p);
                proof {
                    assert forall|x: usize| x != si implies (self.marked@.contains(x) <==> before.contains(x)) by {
                        if before.contains(x) {
                            let k = choose|k: int| 0 <= k < before.len() && before[k] == x;
                            if k < p { assert(self.marked@[k] == x); } else { assert(self.marked@[k - 1] == x); }
                        }
                        if self.marked@.contains(x) {
                            let k = choose|k: int| 0 <= k < self.marked@.len() && self.marked@[k] == x;
                            if k < p { assert(before[k] == x); } else { assert(before[k + 1] == x); }
                        }
                    }
                    if self.marked@.contains(si) {
                        let k = choose|k: int| 0 <= k < self.marked@.len() && self.marked@[k] == si;
                        if k < p { assert(before[k] == si); } else { assert(before[k + 1] == si); }
                    }
                    assert forall|a: int, b: int| 0 <= a < b < self.marked@.len() implies self.marked@[a] != self.marked@[b] by {
                        let a2 = if a < p { a } else { a + 1 };
                        let b2 = if b < p { b } else { b + 1 };
                        assert(self.marked@[a] == before[a2] && self.marked@[b] == before[b2]);
                    }
                }
                proof { reveal_strlit("Unmarked session ("); reveal_strlit(")"); }
                push_str(&mut v, "Unmarked session (");
            },
            None => {
                self.marked.push(si);
                proof {
                    assert(!old(self).marked@.contains(si));
                    assert forall|a: int, b: int| 0 <= a < b < self.marked@.len() implies self.marked@[a] != self.marked@[b] by {
                        if b == self.marked@.len() - 1 {
                            assert(old(self).marked@[a] == self.marked@[a]);
                        }
                    }
                }
                proof { reveal_strlit("Marked session ("); reveal_strlit(")"); }
                push_str(&mut v, "Marked session (");
            },
        }
        push_decimal(&mut v, self.marked.len() as u64);
        push_str(&mut v, ")");
        self.status = string_from_chars(&v);
    }

    /// Pins or unpins the selected session; the caller persists the flag.
    pub fn toggle_pin(&mut self) -> (e: Effect)
        requires
            old(self).wf(),
        ensures
            final(self).wf(),
            toggle_pin_post(*old(self), *final(self), e),
    {
        let sel = match self.store.selected {
            Some(i) => if i < self.store.tree.len() { Some(i) } else { None },
            None => None,
        };
        let Some(i) = sel else { return Effect::Nothing; };
        let si = match &self.store.tree[i] {
            TreeNode::Session(_, si) => *si,
            _ => { return Effect::Nothing; },
        };
        if si >= self.store.sessions.len() {
            return Effect::Nothing;
        }
        let pinned = !self.store.sessions[si].pinned;
        let id = self.store.sessions[si].id.clone();
        set_session_pinned(&mut self.store.sessions, si, pinned);
        if pinned {
            self.set_status("\u{1f4cc} Pinned");
        } else {
            self.set_status("Unpinned");
        }
        self.rebuild();
        Effect::SavePin(id, pinned)
    }

    /// Starts editing the name of the selected workspace or session, with
    /// the current name as the starting text.
    pub fn start_rename(&mut self)
        ensures
            start_rename_post(*old(self), *final(self)),
    {
        let sel = match self.store.selected {
            Some(i) => if i < self.store.tree.len() { Some(i) } else { None },
            None => None,
        };
        let Some(i) = sel else { return; };
        match &self.store.tree[i] {
            TreeNode::Workspace(wi) => {
                let wi = *wi;
                if wi < self.store.workspaces.len() {
                    self.input_mode = InputMode::RenameWorkspace;
                    self.rename_workspace_target = Some(wi);
                    self.input_buffer = self.store.workspaces[wi].name.clone();
                    self.set_status("Edit workspace name (Enter=confirm, Esc=cancel):");
                }
            },
            TreeNode::Session(_, si) => {
                let si = *si;
                if si < self.store.sessions.len() {
                    self.input_mode = InputMode::RenameSession;
                    self.rename_target = Some(si);
                    self.input_buffer = self.store.sessions[si].title.clone();
                    self.set_status("Edit session name (Enter=confirm, Esc=cancel):");
                }
            },
            _ => {},
        }
    }

    /// Starts asking for the name of a new workspace.
    pub fn start_new_workspace(&mut self)
        ensures
            start_new_workspace_post(*old(self), *final(self)),
    {
        self.input_mode = InputMode::NewWorkspaceName;
        self.input_buffer = String::new();
        self.new_workspace_name = None;
        self.set_status("Workspace name (Esc = cancel):");
    }

    /// Shows or hides the archived sessions and reports how many there are.
    pub fn toggle_archived(&mut self)
        requires
            old(self).wf(),
        ensures
            final(self).wf(),
            toggle_archived_post(*old(self), *final(self)),
    {
        self.store.show_archived = !self.store.show_archived;
        self.rebuild();
        if self.store.show_archived {
            proof { reveal_strlit("Showing "); reveal_strlit(" archived session(s)"); }
            let mut v: Vec<char> = Vec::new();
            push_str(&mut v, "Showing ");
            push_decimal(&mut v, self.store.archived_sessions.len() as u64);
            push_str(&mut v, " archived session(s)");
            self.status = string_from_chars(&v);
        } else {
            self.set_status("Archived sessions hidden");
        }
    }

    /// Opens a list popup with its first entry highlighted, or explains that
    /// the list is empty.
    fn open_list(&mut self, count: usize, mode: InputMode, empty_msg: &str, open_msg: &str)
        ensures
            open_list_post(*old(self), *final(self), count, mode, empty_msg@, open_msg@),
    {
        if count == 0 {
            self.set_status(empty_msg);
        } else {
            self.input_mode = mode;
            self.menu_selected = Some(0);
            self.set_status(open_msg);
        }
    }

    /// Moves the focus to the terminal tabs, if there are any.
    pub fn focus_chat(&mut self)
        requires
            old(self).wf(),
        ensures
            final(self).wf(),
            focus_chat_post(*old(self), *final(self)),
    {
        if self.env.tabs.len() == 0 {
            self.set_status("No active session. Press Enter to start one.");
        } else {
            self.focus = Focus::Chat;
            if self.active_tab.is_none() {
                self.active_tab = Some(0);
            }
        }
    }

    /// Closes the tab at `pi`; a focused tab past the new end moves to the
    /// last tab (none when no tab is left).
    fn remove_tab(&mut self, pi: usize)
        requires
            old(self).wf(),
            pi < old(self).env.tabs.len(),
        ensures
            final(self).wf(),
            final(self).env.tabs@ == old(self).env.tabs@.remove(pi as int),
            final(self).active_tab == tab_after_close(old(self).active_tab, final(self).env.tabs.len() as nat),
            *final(self) == (AppState { env: TreeEnv { tabs: final(self).env.tabs, ..old(self).env },
                active_tab: final(self).active_tab, ..*old(self) }),
    {
        self.env.tabs.remove(pi);
        let len = self.env.tabs.len();
        if let Some(cur) = self.active_tab {
            if cur >= len {
                self.active_tab = if len == 0 { None } else { Some(len - 1) };
            }
        }
    }

    /// Closes the first tab showing the session with this id, if any.
    fn close_tab_of_session(&mut self, id: &str) -> (r: Option<usize>)
        requires
            old(self).wf(),
        ensures
            final(self).wf(),
            match r {
                Some(p) => {
                    &&& p < old(self).env.tabs.len()
                    &&& tab_shows(old(self).env.tabs@[p as int], id@)
                    &&& forall|j: int| 0 <= j < p ==> !tab_shows(old(self).env.tabs@[j], id@)
                    &&& final(self).env.tabs@ == old(self).env.tabs@.remove(p as int)
                    &&& final(self).active_tab == tab_after_close(old(self).active_tab, final(self).env.tabs.len() as nat)
                },
                None => {
                    &&& forall|j: int| 0 <= j < old(self).env.tabs.len() ==> !tab_shows(old(self).env.tabs@[j], id@)
                    &&& final(self).env.tabs@ == old(self).env.tabs@
                    &&& final(self).active_tab == old(self).active_tab
                },
            },
            *final(self) == (AppState { env: TreeEnv { tabs: final(self).env.tabs, ..old(self).env },
                active_tab: final(self).active_tab, ..*old(self) }),
    {
        let mut i: usize = 0;
        while i < self.env.tabs.len()
            invariant
                i <= self.env.tabs.len(),
                *self == *old(self),
                old(self).wf(),
                forall|j: int| 0 <= j < i ==> !tab_shows(self.env.tabs@[j], id@),
            decreases self.env.tabs.len() - i,
        {
            let hit = match &self.env.tabs[i].session_id {
                Some(s) => str_eq(s.as_str(), id),
                None => false,
            };
            if hit {
                self.remove_tab(i);
                return Some(i);
            }
            i = i + 1;
        }
        None
    }

    /// Asks for confirmation before deleting the selected workspace, the
    /// selected session or all marked sessions; a selected tab row is
    /// closed at once, since closing a tab loses nothing.
    pub fn request_delete(&mut self) -> (e: Effect)
        requires
            old(self).wf(),
        ensures
            final(self).wf(),
            request_delete_post(*old(self), *final(self), e),
    {
        let sel = match self.store.selected {
            Some(i) => if i < self.store.tree.len() { Some(i) } else { None },
            None => None,
        };
        let Some(i) = sel else { return Effect::Nothing; };
        let mut v: Vec<char> = Vec::new();
        match &self.store.tree[i] {
            TreeNode::Workspace(wi) => {
                let wi = *wi;
                if wi < self.store.workspaces.len() {
                    let count = if wi < self.store.ws_session_map.len() { self.store.ws_session_map[wi].len() } else { 0 };
                    proof { reveal_strlit("Delete workspace \""); reveal_strlit("\" ("); reveal_strlit(" sessions)? y/n"); }
                    push_str(&mut v, "Delete workspace \"");
                    push_str(&mut v, self.store.workspaces[wi].name.as_str());
                    push_str(&mut v, "\" (");
                    push_decimal(&mut v, count as u64);
                    push_str(&mut v, " sessions)? y/n");
                    self.status = string_from_chars(&v);
                    self.pending_delete = Some(TreeNode::Workspace(wi));
                    self.input_mode = InputMode::ConfirmDelete;
                }
                Effect::Nothing
            },
            TreeNode::Session(wi, si) => {
                let wi = *wi;
                let si = *si;
                if self.marked.len() > 0 {
                    proof { reveal_strlit("Delete "); reveal_strlit(" marked session(s)? y/n"); }
                    push_str(&mut v, "Delete ");
                    push_decimal(&mut v, self.marked.len() as u64);
                    push_str(&mut v, " marked session(s)? y/n");
                    self.status = string_from_chars(&v);
                    self.pending_batch_delete = true;
                    self.input_mode = InputMode::ConfirmDelete;
                } else if si < self.store.sessions.len() {
                    proof { reveal_strlit("Delete session \""); reveal_strlit("\"? y/n"); }
                    push_str(&mut v, "Delete session \"");
                    push_str(&mut v, self.store.sessions[si].title.as_str());
                    push_str(&mut v, "\"? y/n");
                    self.status = string_from_chars(&v);
                    self.pending_delete = Some(TreeNode::Session(wi, si));
                    self.input_mode = InputMode::ConfirmDelete;
                }
                Effect::Nothing
            },
            TreeNode::ActiveTab(pi) => {
                let pi = *pi;
                if pi < self.env.tabs.len() {
                    proof { reveal_strlit("Closed tab: "); }
                    push_str(&mut v, "Closed tab: ");
                    push_str(&mut v, self.env.tabs[pi].title.as_str());
                    self.remove_tab(pi);
                    if self.env.tabs.len() == 0 {
                        self.focus = Focus::Sidebar;
                    }
                    self.rebuild();
                    self.status = string_from_chars(&v);
                    Effect::CloseTab(pi)
                } else {
                    Effect::Nothing
                }
            },
            _ => Effect::Nothing,
        }
    }

    /// Answering no to a delete confirmation.
    pub fn cancel_delete(&mut self)
        ensures
            cancel_delete_post(*old(self), *final(self)),
    {
        self.pending_delete = None;
        self.pending_batch_delete = false;
        self.input_mode = InputMode::Normal;
        self.status = String::new();
    }

    /// Deletes what the confirmation was asked for: all marked sessions, or
    /// the pending workspace or session. Deleted sessions lose the first tab
    /// showing them; the caller deletes their files and terminals (or, for a
    /// workspace, saves the workspace list and rediscovers sessions).
    #[verifier::rlimit(30)]
    pub fn confirm_delete(&mut self) -> (e: Effect)
        requires
            old(self).wf(),
        ensures
            final(self).wf(),
            confirm_delete_post(*old(self), *final(self), e),
    {
        self.input_mode = InputMode::Normal;
        if self.pending_batch_delete {
            let count = self.marked.len();
            let ghost ss = self.store.sessions@;
            let mut rest: Vec<Session> = Vec::new();
            std::mem::swap(&mut rest, &mut self.store.sessions);
            let total = rest.len();
            let mut kept: Vec<Session> = Vec::new();
            let mut ids: Vec<String> = Vec::new();
            let mut i: usize = 0;
            while i < total
                invariant
                    i <= total,
                    total == ss.len(),
                    rest@ == ss.subrange(i as int, total as int),
                    kept@ == unmarked_sessions(ss, self.marked@, i as nat),
                    ids@.map_values(|x: String| x@) == marked_ids_desc(ss, self.marked@, i as nat),
                decreases total - i,
            {
                let s = rest.remove(0);
                if mark_position(&self.marked, i).is_some() {
                    ids.insert(0, s.id.clone());
                } else {
                    kept.push(s);
                }
                i = i + 1;
                proof {
                    assert(rest@ =~= ss.subrange(i as int, total as int));
                    assert(kept@ =~= unmarked_sessions(ss, self.marked@, i as nat));
                    assert(ids@.map_values(|x: String| x@) =~= marked_ids_desc(ss, self.marked@, i as nat));
                }
            }
            self.store.sessions = kept;
            let mut closed: Vec<usize> = Vec::new();
            let mut k: usize = 0;
            let ghost idv = ids@.map_values(|x: String| x@);
            assert(idv.take(0) =~= Seq::<Seq<char>>::empty());
            while k < ids.len()
                invariant
                    k <= ids.len(),
                    self.wf(),
                    idv == ids@.map_values(|x: String| x@),
                    (self.env.tabs@, self.active_tab, closed@) == close_tabs_of(old(self).env.tabs@, old(self).active_tab, idv.take(k as int)),
                    ss == old(self).store.sessions@,
                    self.store.sessions@ == unmarked_sessions(ss, old(self).marked@, ss.len()),
                    self.store == (SessionStore { sessions: self.store.sessions, ..old(self).store }),
                    *self == (AppState { store: self.store, env: TreeEnv { tabs: self.env.tabs, ..old(self).env },
                        active_tab: self.active_tab, input_mode: InputMode::Normal, ..*old(self) }),
                decreases ids.len() - k,
            {
                let ghost before = self.env.tabs@;
                let r = self.close_tab_of_session(ids[k].as_str());
                proof {
                    assert(idv.take(k + 1).drop_last() =~= idv.take(k as int));
                    assert(idv.take(k + 1).last() == ids@[k as int]@);
                    match r {
                        Some(q) => lemma_first_tab_is(before, ids@[k as int]@, q as int),
                        None => lemma_first_tab_none(before, ids@[k as int]@),
                    }
                }
                if let Some(p) = r {
                    closed.push(p);
                }
                k = k + 1;
            }
            assert(idv.take(ids.len() as int) =~= idv);
            if self.env.tabs.len() == 0 {
                self.focus = Focus::Sidebar;
            }
            self.marked = Vec::new();
            self.pending_batch_delete = false;
            self.rebuild();
            proof { reveal_strlit("Deleted "); reveal_strlit(" session(s)"); }
            let mut v: Vec<char> = Vec::new();
            push_str(&mut v, "Deleted ");
            push_decimal(&mut v, count as u64);
            push_str(&mut v, " session(s)");
            self.status = string_from_chars(&v);
            return Effect::DeleteSessions(ids, closed);
        }
        let node = self.pending_delete.take();
        match node {
            Some(TreeNode::Workspace(wi)) => {
                if wi >= self.store.workspaces.len() {
                    return Effect::Nothing;
                }
                let ghost ws0 = self.store.workspaces@;
                let ghost cw0 = self.env.cwds@;
                let w = self.store.workspaces.remove(wi);
                self.env.cwds.remove(wi);
                self.env.path_exists.remove(wi);
                proof {
                    assert forall|j: int| 0 <= j < self.store.workspaces.len() implies
                        ((#[trigger] self.store.workspaces[j]).path matches Some(p) ==> self.env.cwds[j]@ == p@) by {
                        if j < wi {
                            assert(self.store.workspaces@[j] == ws0[j] && self.env.cwds@[j] == cw0[j]);
                        } else {
                            assert(self.store.workspaces@[j] == ws0[j + 1] && self.env.cwds@[j] == cw0[j + 1]);
                        }
                    }
                }
                proof { reveal_strlit("Deleted workspace: "); }
                let mut v: Vec<char> = Vec::new();
                push_str(&mut v, "Deleted workspace: ");
                push_str(&mut v, w.name.as_str());
                self.status = string_from_chars(&v);
                Effect::SaveConfigAndRefresh
            },
            Some(TreeNode::Session(_, si)) => {
                if si >= self.store.sessions.len() {
                    return Effect::Nothing;
                }
                let id = self.store.sessions[si].id.clone();
                let p = self.close_tab_of_session(id.as_str());
                proof {
                    match p {
                        Some(q) => lemma_first_tab_is(old(self).env.tabs@, id@, q as int),
                        None => lemma_first_tab_none(old(self).env.tabs@, id@),
                    }
                }
                let mut closed: Vec<usize> = Vec::new();
                if let Some(q) = p {
                    closed.push(q);
                }
                let s = self.store.sessions.remove(si);
                self.rebuild();
                proof { reveal_strlit("Deleted session: "); }
                let mut v: Vec<char> = Vec::new();
                push_str(&mut v, "Deleted session: ");
                push_str(&mut v, s.title.as_str());
                self.status = string_from_chars(&v);
                let mut ids: Vec<String> = Vec::new();
                ids.push(id);
                Effect::DeleteSessions(ids, closed)
            },
            _ => Effect::Nothing,
        }
    }

    /// Enter in a text prompt: starts a session with the typed name, renames
    /// the session or workspace being edited (a blank name keeps the short
    /// id or the old name), or takes the name of a new workspace and opens
    /// the directory browser.
    #[verifier::rlimit(80)]
    #[verifier::spinoff_prover]
    pub fn confirm_input(&mut self) -> (e: Effect)
        requires
            old(self).wf(),
        ensures
            final(self).wf(),
            confirm_input_post(*old(self), *final(self), e),
    {
        let t = trim(self.input_buffer.as_str());
        let blank = t.as_str().unicode_len() == 0;
        match self.input_mode {
            InputMode::SessionName => {
                let name = if blank { None } else { Some(self.input_buffer.clone()) };
                self.input_buffer = String::new();
                Effect::StartSession(name)
            },
            InputMode::RenameSession => {
                let mut e = Effect::Nothing;
                if let Some(si) = self.rename_target {
                    if si < self.store.sessions.len() {
                        let title = if blank { short_id(self.store.sessions[si].id.as_str()) } else { self.input_buffer.clone() };
                        let id = self.store.sessions[si].id.clone();
                        set_session_title(&mut self.store.sessions, si, title.clone());
                        proof { reveal_strlit("Renamed to: "); }
                        let mut v: Vec<char> = Vec::new();
                        push_str(&mut v, "Renamed to: ");
                        push_str(&mut v, title.as_str());
                        self.status = string_from_chars(&v);
                        self.rebuild();
                        e = Effect::SaveTitle(id, title);
                    }
                }
                self.input_mode = InputMode::Normal;
                self.input_buffer = String::new();
                self.rename_target = None;
                e
            },
            InputMode::NewWorkspaceName => {
                self.input_buffer = String::new();
                if blank {
                    self.set_status("Workspace name cannot be empty.");
                    self.input_mode = InputMode::Normal;
                    Effect::Nothing
                } else {
                    self.new_workspace_name = Some(t);
                    Effect::BrowseDirectory
                }
            },
            InputMode::RenameWorkspace => {
                let mut e = Effect::Nothing;
                if let Some(wi) = self.rename_workspace_target {
                    if wi < self.store.workspaces.len() {
                        let name = if blank { self.store.workspaces[wi].name.clone() } else { self.input_buffer.clone() };
                        set_workspace_name(&mut self.store.workspaces, wi, name.clone());
                        proof {
                            assert forall|j: int| 0 <= j < self.store.workspaces.len() implies
                                ((#[trigger] self.store.workspaces[j]).path matches Some(p) ==> self.env.cwds[j]@ == p@) by {
                                assert(self.store.workspaces@[j].path == old(self).store.workspaces@[j].path);
                            }
                        }
                        proof { reveal_strlit("Workspace renamed to: "); }
                        let mut v: Vec<char> = Vec::new();
                        push_str(&mut v, "Workspace renamed to: ");
                        push_str(&mut v, name.as_str());
                        self.status = string_from_chars(&v);
                        self.rebuild();
                        e = Effect::SaveConfig;
                    }
                }
                self.input_mode = InputMode::Normal;
                self.input_buffer = String::new();
                self.rename_workspace_target = None;
                e
            },
            InputMode::SemanticSearch => {
                self.input_buffer = String::new();
                if blank {
                    self.input_mode = InputMode::Normal;
                    self.set_status("Cancelled.");
                    Effect::Nothing
                } else {
                    Effect::SemanticSearch(t)
                }
            },
            _ => Effect::Nothing,
        }
    }

    /// Picks the agent for a new session: the workspace's configured default
    /// when no agent filter is set and it is available, else the only
    /// available agent; with several to choose from, opens the agent list.
    pub fn pick_agent(&mut self, project_default: Option<Agent>, available: &Vec<Agent>) -> (r: Option<Agent>)
        ensures
            r == pick_agent_spec(project_default, old(self).filters.agent_filter, available@),
            r is Some ==> *final(self) == (AppState { input_mode: InputMode::Normal, ..*old(self) }),
            r is None ==> final(self).status@ == "Select agent \u{b7} Enter to confirm \u{b7} Esc to cancel"@
                && *final(self) == (AppState { input_mode: InputMode::SelectAgent, menu_selected: Some(0),
                    status: final(self).status, ..*old(self) }),
    {
        if let Some(a) = project_default {
            if self.filters.agent_filter.is_none() && agent_in(available, a) {
                self.input_mode = InputMode::Normal;
                return Some(a);
            }
        }
        if available.len() == 1 {
            self.input_mode = InputMode::Normal;
            return Some(available[0]);
        }
        self.input_mode = InputMode::SelectAgent;
        self.menu_selected = Some(0);
        self.set_status("Select agent \u{b7} Enter to confirm \u{b7} Esc to cancel");
        None
    }

    /// Keys of a plain text prompt: Esc cancels, Enter confirms, Backspace
    /// and characters edit the text.
    pub fn handle_text_input_key(&mut self, key: KeyPress) -> (e: Effect)
        requires
            old(self).wf(),
        ensures
            final(self).wf(),
            text_input_post(*old(self), *final(self), key, e),
    {
        match key.code {
            KeyCode::Esc => {
                self.input_mode = InputMode::Normal;
                self.input_buffer = String::new();
                self.rename_target = None;
                self.rename_workspace_target = None;
                self.set_status("Cancelled.");
                Effect::Nothing
            },
            KeyCode::Enter => self.confirm_input(),
            KeyCode::Backspace => {
                self.pop_input();
                Effect::Nothing
            },
            KeyCode::Char(c) => {
                self.push_input(c);
                Effect::Nothing
            },
            _ => Effect::Nothing,
        }
    }

    /// The tag-filter key: clears an active tag filter, or opens the prompt
    /// for one.
    pub fn tag_filter_toggle(&mut self)
        requires
            old(self).wf(),
        ensures
            final(self).wf(),
            tag_filter_toggle_post(*old(self), *final(self)),
    {
        if self.filters.tag_filter.is_some() {
            self.filters.tag_filter = None;
            self.rebuild();
            self.set_status("Tag filter cleared.");
        } else {
            self.input_mode = InputMode::TagFilter;
            self.input_buffer = String::new();
            self.set_status("Filter by tag (Enter=apply, Esc=cancel):");
        }
    }

    /// Focuses the next (`delta` 1) or previous (`delta` -1) tab, wrapping
    /// around, when there is more than one.
    pub fn switch_tab(&mut self, delta: isize) -> (e: Effect)
        requires
            old(self).wf(),
        ensures
            final(self).wf(),
            switch_tab_post(*old(self), *final(self), delta as int, e),
    {
        let len = self.env.tabs.len();
        if len <= 1 {
            return Effect::Nothing;
        }
        let cur = match self.active_tab { Some(i) => i, None => 0 };
        let next = wrap_move(cur, delta, len);
        self.active_tab = Some(next);
        proof { reveal_strlit("Switched to: "); reveal_strlit(" ("); reveal_strlit("/"); reveal_strlit(")"); }
        let mut v: Vec<char> = Vec::new();
        push_str(&mut v, "Switched to: ");
        push_str(&mut v, self.env.tabs[next].title.as_str());
        push_str(&mut v, " (");
        push_decimal(&mut v, (next + 1) as u64);
        push_str(&mut v, "/");
        push_decimal(&mut v, len as u64);
        push_str(&mut v, ")");
        self.status = string_from_chars(&v);
        Effect::Scroll(next, ScrollTarget::Bottom)
    }

    /// Moves the focused tab one place right (`delta` 1) or left (`delta`
    /// -1), wrapping around, by trading places with its neighbour.
    pub fn move_tab(&mut self, delta: isize) -> (e: Effect)
        requires
            old(self).wf(),
        ensures
            final(self).wf(),
            move_tab_post(*old(self), *final(self), delta as int, e),
    {
        let len = self.env.tabs.len();
        if len <= 1 {
            return Effect::Nothing;
        }
        let cur = match self.active_tab { Some(i) => i, None => 0 };
        let np = wrap_move(cur, delta, len);
        swap_tabs(&mut self.env.tabs, cur, np);
        self.active_tab = Some(np);
        proof { reveal_strlit("Moved tab to position "); }
        let mut v: Vec<char> = Vec::new();
        push_str(&mut v, "Moved tab to position ");
        push_decimal(&mut v, (np + 1) as u64);
        self.status = string_from_chars(&v);
        Effect::SwapTabs(cur, np)
    }

    /// Ends the tab at `idx`: it is closed, no tab keeps the focus, the
    /// sidebar takes it, and sessions are rediscovered.
    pub fn terminate_tab(&mut self, idx: usize) -> (e: Effect)
        requires
            old(self).wf(),
            idx < old(self).env.tabs.len(),
        ensures
            final(self).wf(),
            final(self).env.tabs@ == old(self).env.tabs@.remove(idx as int),
            final(self).status@ == "Session terminated. Sessions refreshed."@,
            e == Effect::CloseTabAndRefresh(idx),
            *final(self) == (AppState { env: TreeEnv { tabs: final(self).env.tabs, ..old(self).env }, active_tab: None,
                focus: Focus::Sidebar, status: final(self).status, ..*old(self) }),
    {
        self.remove_tab(idx);
        self.active_tab = None;
        self.focus = Focus::Sidebar;
        self.set_status("Session terminated. Sessions refreshed.");
        Effect::CloseTabAndRefresh(idx)
    }

    /// The clipboard text describing tab `idx`: its title and agent.
    pub fn tab_copy_text(&self, idx: usize) -> (r: String)
        requires
            idx < self.env.tabs.len(),
        ensures
            r@ == self.env.tabs@[idx as int].title@ + " ("@ + agent_label_spec(self.env.tabs@[idx as int].agent) + ")"@,
    {
        proof { reveal_strlit(" ("); reveal_strlit(")"); }
        let mut v: Vec<char> = Vec::new();
        push_str(&mut v, self.env.tabs[idx].title.as_str());
        push_str(&mut v, " (");
        push_str(&mut v, self.env.tabs[idx].agent.label());
        push_str(&mut v, ")");
        string_from_chars(&v)
    }

    /// Gives each tab that shows no session yet the first session of its
    /// workspace that has been active since the tab started (`started[i]`
    /// for tab `i`), so that a newly started session is recognised as the
    /// tab's once it is discovered.
    pub fn link_tab_sessions(&mut self, started: &Vec<u64>)
        requires
            started.len() == old(self).env.tabs.len(),
        ensures
            final(self).env.tabs.len() == old(self).env.tabs.len(),
            forall|i: int| 0 <= i < old(self).env.tabs.len() ==> linked_tab(old(self).env.tabs@[i], old(self).store.sessions@, started@[i],
                #[trigger] final(self).env.tabs@[i]),
            *final(self) == (AppState { env: TreeEnv { tabs: final(self).env.tabs, ..old(self).env }, ..*old(self) }),
    {
        let mut tabs: Vec<ActiveTab> = Vec::new();
        std::mem::swap(&mut tabs, &mut self.env.tabs);
        let ghost old_tabs = tabs@;
        let n = tabs.len();
        let mut out: Vec<ActiveTab> = Vec::new();
        let mut i: usize = 0;
        while i < n
            invariant
                i <= n,
                n == old_tabs.len(),
                old_tabs == old(self).env.tabs@,
                started.len() == n,
                tabs@ == old_tabs.subrange(i as int, n as int),
                out.len() == i,
                self.store == old(self).store,
                forall|k: int| 0 <= k < i ==> linked_tab(old_tabs[k], old(self).store.sessions@, started@[k], #[trigger] out@[k]),
                *self == (AppState { env: TreeEnv { tabs: self.env.tabs, ..old(self).env }, ..*old(self) }),
            decreases n - i,
        {
            let t = tabs.remove(0);
            let since = started[i];
            let session_id = match t.session_id {
                Some(id) => Some(id),
                None => {
                    let mut found: Option<String> = None;
                    let mut k: usize = 0;
                    let ghost ss = self.store.sessions@;
                    assert(ss.skip(0) =~= ss);
                    while k < self.store.sessions.len()
                        invariant_except_break
                            found is None,
                        invariant
                            k <= self.store.sessions.len(),
                            ss == self.store.sessions@,
                            first_session_since(ss, t.workspace_path@, since) == first_session_since(ss.skip(k as int), t.workspace_path@, since),
                        ensures
                            match found {
                                Some(id) => first_session_since(ss, t.workspace_path@, since) == Some(id@),
                                None => first_session_since(ss, t.workspace_path@, since) is None,
                            },
                        decreases self.store.sessions.len() - k,
                    {
                        let s = &self.store.sessions[k];
                        assert(ss.skip(k as int)[0] == ss[k as int]);
                        assert(ss.skip(k as int).drop_first() =~= ss.skip(k + 1));
                        if str_eq(s.workspace_path.as_str(), t.workspace_path.as_str()) && s.last_active >= since {
                            found = Some(s.id.clone());
                            break;
                        }
                        k = k + 1;
                        if k == self.store.sessions.len() {
                            assert(ss.skip(k as int) =~= Seq::<Session>::empty());
                        }
                    }
                    found
                },
            };
            out.push(ActiveTab { workspace_path: t.workspace_path, session_id, agent: t.agent, title: t.title });
            i = i + 1;
            assert(tabs@ =~= old_tabs.subrange(i as int, n as int));
        }
        self.env.tabs = out;
    }

    /// Picks the selected session for a comparison: the first pick is
    /// remembered (its title, cut to 30 bytes, shown); the second, a
    /// different session, opens the comparison and returns both. Anything
    /// else is reported and drops the first pick.
    pub fn start_diff(&mut self) -> (r: Option<(usize, usize)>)
        ensures
            start_diff_post(*old(self), *final(self), r),
    {
        proof {
            reveal_strlit("Diff: selected '");
            reveal_strlit("' \u{2014} select second session, press X again");
        }
        let n = self.store.sessions.len();
        let sel = match self.store.selected {
            Some(i) => if i < self.store.tree.len() { Some(i) } else { None },
            None => None,
        };
        let si = match sel {
            Some(i) => match &self.store.tree[i] {
                TreeNode::Session(_, si) => Some(*si),
                _ => None,
            },
            None => None,
        };
        match si {
            Some(si) if self.diff_left_session.is_some() || si < n => {
                match self.diff_left_session {
                    Some(l) => {
                        self.diff_left_session = None;
                        if l == si {
                            self.set_status("Cannot diff a session with itself.");
                            None
                        } else if l >= n {
                            self.set_status("First session no longer available.");
                            None
                        } else if si >= n {
                            self.set_status("Second session no longer available.");
                            None
                        } else {
                            self.input_mode = InputMode::DiffView;
                            self.set_status("Session Diff (any key to close)");
                            Some((l, si))
                        }
                    },
                    None => {
                        self.diff_left_session = Some(si);
                        let t = cut_to_bytes(self.store.sessions[si].title.as_str(), 30);
                        let mut v: Vec<char> = Vec::new();
                        push_str(&mut v, "Diff: selected '");
                        push_str(&mut v, t.as_str());
                        push_str(&mut v, "' \u{2014} select second session, press X again");
                        self.status = string_from_chars(&v);
                        None
                    },
                }
            },
            _ => {
                self.set_status("Select a session to diff.");
                None
            },
        }
    }

    /// Starts a session named `name`: picks its agent as `pick_agent` does and,
    /// when the agent list opens instead, keeps the name for the agent chosen
    /// there.
    pub fn begin_session(&mut self, name: Option<String>, project_default: Option<Agent>, available: &Vec<Agent>) -> (r: Option<Agent>)
        ensures
            r == pick_agent_spec(project_default, old(self).filters.agent_filter, available@),
            r is Some ==> *final(self) == (AppState { input_mode: InputMode::Normal, ..*old(self) }),
            r is None ==> final(self).status@ == "Select agent \u{b7} Enter to confirm \u{b7} Esc to cancel"@
                && *final(self) == (AppState { input_mode: InputMode::SelectAgent, menu_selected: Some(0),
                    status: final(self).status, pending_session_name: name, ..*old(self) }),
    {
        let r = self.pick_agent(project_default, available);
        if r.is_none() {
            self.pending_session_name = name;
        }
        r
    }

    /// Highlights the theme in use (index `current` of the `count` themes
    /// offered), or the first when it is not among them.
    pub fn show_themes(&mut self, current: usize, count: usize)
        ensures
            *final(self) == (AppState { menu_selected: Some(if current < count { current } else { 0 }), ..*old(self) }),
    {
        self.menu_selected = Some(if current < count { current } else { 0 });
    }

    /// Hands back the name kept for the session whose agent is being picked.
    pub fn take_pending_name(&mut self) -> (r: Option<String>)
        ensures
            r == old(self).pending_session_name,
            *final(self) == (AppState { pending_session_name: None, ..*old(self) }),
    {
        let r = self.pending_session_name.take();
        r
    }

    /// Handles a key in the scrollback search.
    pub fn handle_scrollback_key(&mut self, key: KeyPress) -> (e: Effect)
        ensures
            scrollback_key_post(*old(self), *final(self), key, e),
    {
        let f = self.scrollback;
        let n = f.total;
        match key.code {
            KeyCode::Esc => {
                self.input_mode = InputMode::Normal;
                Effect::Nothing
            },
            KeyCode::Enter | KeyCode::Down => {
                let cur = f.current;
                proof {
                    if n > 0 {
                        assert((cur % n + 1) % (n as int) == (cur + 1) % (n as int)) by (nonlinear_arith)
                            requires n > 0;
                    }
                }
                self.scrollback = ScrollbackFind { current: if n == 0 { 0 } else { (cur % n + 1) % n }, ..f };
                Effect::Nothing
            },
            KeyCode::Up => {
                self.scrollback = ScrollbackFind { current: if n == 0 { 0 } else if f.current == 0 || f.current > n { n - 1 } else { f.current - 1 }, ..f };
                Effect::Nothing
            },
            KeyCode::Backspace => {
                let mut v = chars_of(self.scrollback_query.as_str());
                v.pop();
                self.scrollback_query = string_from_chars(&v);
                Effect::RunScrollSearch
            },
            KeyCode::Char(c) => {
                if key.ctrl && c == 'r' {
                    self.scrollback = ScrollbackFind { regex: !f.regex, ..f };
                    Effect::RunScrollSearch
                } else if key.ctrl && c == 'e' {
                    self.scrollback = ScrollbackFind { case_sensitive: !f.case_sensitive, ..f };
                    Effect::RunScrollSearch
                } else if !key.ctrl && !key.alt {
                    let mut v = chars_of(self.scrollback_query.as_str());
                    v.push(c);
                    let joined = string_from_chars(&v);
                    self.scrollback_query = cut_to_bytes(joined.as_str(), SCROLLBACK_QUERY_LIMIT);
                    Effect::RunScrollSearch
                } else {
                    Effect::Nothing
                }
            },
            _ => Effect::Nothing,
        }
    }

    /// Records the matches of the last scrollback search, showing the first.
    pub fn set_scrollback_hits(&mut self, total: usize)
        ensures
            *final(self) == (AppState { scrollback: ScrollbackFind { total, current: 0, ..old(self).scrollback }, ..*old(self) }),
    {
        self.scrollback = ScrollbackFind { total, current: 0, ..self.scrollback };
    }

    /// Opens the preview of the selected session, `found` when it has
    /// content to show; true when the preview opened.
    pub fn start_preview(&mut self, found: bool) -> (r: bool)
        ensures
            start_preview_post(*old(self), *final(self), found, r),
    {
        let si = match selected_node(&self.store) {
            Some(TreeNode::Session(_, si)) => *si,
            _ => { return false; },
        };
        if si >= self.store.sessions.len() {
            return false;
        }
        if found {
            let mut v: Vec<char> = Vec::new();
            push_str(&mut v, "Preview: ");
            push_str(&mut v, self.store.sessions[si].title.as_str());
            push_str(&mut v, " (s=summary  k=knowledge  any key=close)");
            self.status = string_from_chars(&v);
            self.input_mode = InputMode::SessionPreview;
            true
        } else {
            self.set_status("No preview available.");
            false
        }
    }

    /// A diff key press: picks the selected session for a comparison and,
    /// once both are picked, asks for the comparison to be shown.
    pub fn diff_step(&mut self) -> (e: Effect)
        ensures
            diff_step(*old(self), *final(self), e),
    {
        match self.start_diff() {
            Some((l, r)) => Effect::Compare(l, r),
            None => Effect::Nothing,
        }
    }

    /// The clipboard text describing the selected row: a session as
    /// `[short id] title (agent)`, a tab as `title (agent)`, a workspace as
    /// `name (path)` (`virtual` for one without a path). With nothing to
    /// describe the status says so, except on a tab row that is out of date.
    pub fn copy_selected_info(&mut self) -> (r: Option<String>)
        ensures
            opt_string_view(r) == copy_text_spec(*old(self)),
            (r is Some || (selected_view(old(self).store) matches Some(NodeView::ActiveTab(_)))) ==> *final(self) == *old(self),
            (r is None && !(selected_view(old(self).store) matches Some(NodeView::ActiveTab(_)))) ==> final(self).status@ == "Nothing to copy."@
                && *final(self) == (AppState { status: final(self).status, ..*old(self) }),
    {
        proof { reveal_strlit("["); reveal_strlit("] "); reveal_strlit(" ("); reveal_strlit(")"); reveal_strlit("virtual"); }
        let sel = match self.store.selected {
            Some(i) => if i < self.store.tree.len() { Some(i) } else { None },
            None => None,
        };
        let Some(i) = sel else {
            self.set_status("Nothing to copy.");
            return None;
        };
        match &self.store.tree[i] {
            TreeNode::Session(_, si) => {
                let si = *si;
                if si < self.store.sessions.len() {
                    let s = &self.store.sessions[si];
                    let mut v: Vec<char> = Vec::new();
                    push_str(&mut v, "[");
                    let sid = short_id(s.id.as_str());
                    push_str(&mut v, sid.as_str());
                    push_str(&mut v, "] ");
                    push_str(&mut v, s.title.as_str());
                    push_str(&mut v, " (");
                    push_str(&mut v, s.agent.label());
                    push_str(&mut v, ")");
                    return Some(string_from_chars(&v));
                }
            },
            TreeNode::ActiveTab(pi) => {
                let pi = *pi;
                if pi < self.env.tabs.len() {
                    return Some(self.tab_copy_text(pi));
                }
                return None;
            },
            TreeNode::Workspace(wi) => {
                let wi = *wi;
                if wi < self.store.workspaces.len() {
                    let w = &self.store.workspaces[wi];
                    let mut v: Vec<char> = Vec::new();
                    push_str(&mut v, w.name.as_str());
                    push_str(&mut v, " (");
                    match &w.path {
                        Some(p) => push_str(&mut v, p.as_str()),
                        None => push_str(&mut v, "virtual"),
                    }
                    push_str(&mut v, ")");
                    return Some(string_from_chars(&v));
                }
            },
            _ => {},
        }
        self.set_status("Nothing to copy.");
        None
    }

    /// Keys of the key-binding list: up and down scroll it, Esc closes it.
    fn keybind_view_key(&mut self, key: KeyPress)
        requires
            keybind_view_key_spec(key) is Some,
        ensures
            keybind_view_post(*old(self), *final(self), key),
    {
        match key.code {
            KeyCode::Up | KeyCode::Char('k') => {
                self.keybind_scroll = if self.keybind_scroll > 0 { self.keybind_scroll - 1 } else { 0 };
            },
            KeyCode::Down | KeyCode::Char('j') => {
                self.keybind_scroll = if self.keybind_scroll < u16::MAX { self.keybind_scroll + 1 } else { u16::MAX };
            },
            _ => {
                self.keybind_scroll = 0;
                self.input_mode = InputMode::Normal;
            },
        }
    }

    /// Alt+h / Alt+l: moves to the previous or next of the panels (key
    /// bindings, settings, themes, statistics, token usage), wrapping around.
    fn cycle_panel(&mut self, key: KeyPress) -> (e: Effect)
        requires
            panel_step(key) != 0,
        ensures
            cycle_panel_post(*old(self), *final(self), key, e),
    {
        let cur = panel_index_exec(self.input_mode);
        let next = if panel_step_exec(&key) > 0 { (cur + 1) % 5 } else { (cur + 4) % 5 };
        let target = panel_at_exec(next);
        self.input_mode = target;
        match target {
            InputMode::Settings => {
                self.set_status("Settings: a=add ws  d=del ws  r=rename ws  k=keybinds  t=themes  Esc=close");
                Effect::Nothing
            },
            InputMode::ThemeSelect => Effect::LoadThemes,
            InputMode::Stats => {
                self.set_status("Activity Statistics (any key to close)");
                Effect::Nothing
            },
            InputMode::TokenStats => {
                self.set_status("Token Usage (any key to close)");
                Effect::Nothing
            },
            _ => Effect::Nothing,
        }
    }

    /// A key press while a popup or prompt has the keyboard.
    pub fn handle_popup_key(&mut self, key: KeyPress) -> (r: (Action, Effect))
        requires
            old(self).wf(),
        ensures
            final(self).wf(),
            r.0 == Action::Continue,
            popup_key_post(*old(self), *final(self), key, r.1),
    {
        match self.input_mode {
            InputMode::Search => {
                self.handle_search_key(key);
                return (Action::Continue, Effect::Nothing);
            },
            InputMode::TagFilter => {
                self.handle_tag_filter_key(key);
                return (Action::Continue, Effect::Nothing);
            },
            InputMode::SemanticSearch => {
                return self.handle_semantic_search_key(key);
            },
            InputMode::BrowseDir | InputMode::SelectAgent | InputMode::TemplateSelect | InputMode::AutomationSelect
            | InputMode::BranchSelect | InputMode::ChainSelect => {
                return (Action::Continue, Effect::Delegate);
            },
            _ => {},
        }
        if self.input_mode == InputMode::KeybindView && keybind_view_key_exec(&key) {
            self.keybind_view_key(key);
            return (Action::Continue, Effect::Nothing);
        }
        if panel_step_exec(&key) != 0 {
            let e = self.cycle_panel(key);
            return (Action::Continue, e);
        }
        match self.input_mode {
            InputMode::Help | InputMode::Stats | InputMode::TokenStats | InputMode::CrossSearch | InputMode::DiffView
            | InputMode::AgentRecommend | InputMode::Timeline | InputMode::ConflictWarning | InputMode::BudgetWarning
            | InputMode::RemoteView | InputMode::SummaryPreview => {
                self.input_mode = InputMode::Normal;
                (Action::Continue, Effect::Nothing)
            },
            InputMode::PluginList | InputMode::PluginOutput | InputMode::Settings
            | InputMode::SessionPreview | InputMode::ScrollSearch | InputMode::ThemeSelect | InputMode::PreflightConfirm => {
                (Action::Continue, Effect::Delegate)
            },
            InputMode::ConflictResolve => {
                match key.code {
                    KeyCode::Char('i') | KeyCode::Char('I') => (Action::Continue, Effect::IsolateConflicts),
                    KeyCode::Char('d') | KeyCode::Char('D') | KeyCode::Esc => {
                        self.input_mode = InputMode::Normal;
                        self.conflict_warnings = Vec::new();
                        self.set_status("Conflict warning dismissed.");
                        (Action::Continue, Effect::Nothing)
                    },
                    _ => (Action::Continue, Effect::Nothing),
                }
            },
            InputMode::ConfirmDelete => {
                match key.code {
                    KeyCode::Char('y') | KeyCode::Char('Y') => {
                        let e = self.confirm_delete();
                        (Action::Continue, e)
                    },
                    KeyCode::Char('n') | KeyCode::Char('N') | KeyCode::Esc => {
                        self.cancel_delete();
                        (Action::Continue, Effect::Nothing)
                    },
                    _ => (Action::Continue, Effect::Nothing),
                }
            },
            InputMode::RollbackConfirm => {
                match key.code {
                    KeyCode::Char('y') | KeyCode::Char('Y') => (Action::Continue, Effect::Rollback),
                    KeyCode::Char('n') | KeyCode::Char('N') | KeyCode::Esc => {
                        self.input_mode = InputMode::Normal;
                        self.set_status("Rollback cancelled.");
                        (Action::Continue, Effect::Nothing)
                    },
                    _ => (Action::Continue, Effect::Nothing),
                }
            },
            _ => {
                let e = self.handle_text_input_key(key);
                (Action::Continue, e)
            },
        }
    }

    /// Runs a sidebar command.
    #[verifier::rlimit(60)]
    #[verifier::spinoff_prover]
    pub fn apply_sidebar_command(&mut self, cmd: SidebarCommand) -> (r: (Action, Effect))
        requires
            old(self).wf(),
        ensures
            final(self).wf(),
            sidebar_step(*old(self), *final(self), cmd, r),
    {
        match cmd {
            SidebarCommand::Quit => (Action::Quit, Effect::Nothing),
            SidebarCommand::MoveUp => {
                move_sel(&mut self.store, -1);
                (Action::Continue, Effect::Nothing)
            },
            SidebarCommand::MoveDown => {
                move_sel(&mut self.store, 1);
                (Action::Continue, Effect::Nothing)
            },
            SidebarCommand::Expand => {
                toggle_expand(&mut self.store, &self.filters, &self.env);
                (Action::Continue, Effect::Nothing)
            },
            SidebarCommand::Refresh => {
                self.set_status("Sessions refreshed.");
                (Action::Continue, Effect::Refresh)
            },
            SidebarCommand::Rename => {
                self.start_rename();
                (Action::Continue, Effect::Nothing)
            },
            SidebarCommand::NewWorkspace => {
                self.start_new_workspace();
                (Action::Continue, Effect::Nothing)
            },
            SidebarCommand::Delete => {
                let e = self.request_delete();
                (Action::Continue, e)
            },
            SidebarCommand::FocusChat => {
                self.focus_chat();
                (Action::Continue, Effect::Nothing)
            },
            SidebarCommand::AgentFilter(a) => {
                self.toggle_agent_filter(a);
                (Action::Continue, Effect::Nothing)
            },
            SidebarCommand::Activate => (Action::Continue, Effect::Activate),
            SidebarCommand::ToggleMark => {
                self.toggle_mark();
                (Action::Continue, Effect::Nothing)
            },
            SidebarCommand::Search => {
                self.input_mode = InputMode::Search;
                self.set_status("Search (prefix: >7d, >1h, >30m for date filter):");
                self.input_buffer = String::new();
                (Action::Continue, Effect::Nothing)
            },
            SidebarCommand::Help => {
                self.input_mode = InputMode::KeybindView;
                (Action::Continue, Effect::Nothing)
            },
            SidebarCommand::Preview => (Action::Continue, Effect::Preview),
            SidebarCommand::Export => (Action::Continue, Effect::Export),
            SidebarCommand::Copy => (Action::Continue, Effect::CopySelected),
            SidebarCommand::TagFilter => {
                self.tag_filter_toggle();
                (Action::Continue, Effect::Nothing)
            },
            SidebarCommand::Settings => {
                self.input_mode = InputMode::Settings;
                self.set_status("Settings: a=add ws  d=del ws  r=rename ws  k=keybinds  t=themes  Esc=close");
                (Action::Continue, Effect::Nothing)
            },
            SidebarCommand::CycleTheme => (Action::Continue, Effect::CycleTheme),
            SidebarCommand::TogglePin => {
                let e = self.toggle_pin();
                (Action::Continue, e)
            },
            SidebarCommand::OpenDir => (Action::Continue, Effect::OpenDir),
            SidebarCommand::CycleSort => {
                self.cycle_sort_mode();
                (Action::Continue, Effect::Nothing)
            },
            SidebarCommand::SemanticSearch => {
                self.search_results = Vec::new();
                self.input_buffer = String::new();
                self.search_selected = None;
                self.input_mode = InputMode::SemanticSearch;
                self.set_status("Semantic Search (type query, Enter=search, Esc=cancel):");
                (Action::Continue, Effect::Nothing)
            },
            SidebarCommand::Templates => {
                self.open_list(self.menus.templates, InputMode::TemplateSelect,
                    "No templates saved. Add templates to config.json.", "Select template (Enter=launch, Esc=cancel)");
                (Action::Continue, Effect::Nothing)
            },
            SidebarCommand::Plugins => {
                self.open_list(self.menus.plugins, InputMode::PluginList,
                    "No plugins configured. Add plugins to config.json.", "Select plugin (Enter=run, Esc=cancel)");
                (Action::Continue, Effect::Nothing)
            },
            SidebarCommand::Automations => {
                self.open_list(self.menus.automations, InputMode::AutomationSelect,
                    "No automations saved. Add automations to config.json.", "Select automation (Enter=run, Esc=cancel)");
                (Action::Continue, Effect::Nothing)
            },
            SidebarCommand::Branch => (Action::Continue, Effect::Branch),
            SidebarCommand::Stats => {
                self.input_mode = InputMode::Stats;
                self.set_status("Activity Statistics (any key to close)");
                (Action::Continue, Effect::Nothing)
            },
            SidebarCommand::TokenStats => {
                self.input_mode = InputMode::TokenStats;
                self.set_status("Token Usage (any key to close)");
                (Action::Continue, Effect::Nothing)
            },
            SidebarCommand::Diff => (Action::Continue, self.diff_step()),
            SidebarCommand::ToggleArchived => {
                self.toggle_archived();
                (Action::Continue, Effect::Nothing)
            },
            SidebarCommand::Remote => (Action::Continue, Effect::RemoteView),
            SidebarCommand::Timeline => (Action::Continue, Effect::Timeline),
            SidebarCommand::Recommend => (Action::Continue, Effect::Recommend),
            SidebarCommand::CrossSearch => {
                if self.input_buffer.as_str().unicode_len() == 0 {
                    self.set_status("Type a search query first (/), then Ctrl+F to search all sessions.");
                    (Action::Continue, Effect::Nothing)
                } else {
                    (Action::Continue, Effect::CrossSearch(self.input_buffer.clone()))
                }
            },
            SidebarCommand::Chains => {
                self.open_list(self.menus.chains, InputMode::ChainSelect,
                    "No chains configured. Add chains to config.json.", "Select chain (Enter=start, Esc=cancel)");
                (Action::Continue, Effect::Nothing)
            },
            SidebarCommand::Ignore => (Action::Continue, Effect::Nothing),
        }
    }

    /// Runs a command of the focused tab `idx`.
    pub fn apply_chat_command(&mut self, idx: usize, cmd: ChatCommand) -> (r: (Action, Effect))
        requires
            old(self).wf(),
            idx < old(self).env.tabs.len(),
        ensures
            final(self).wf(),
            chat_step(*old(self), *final(self), idx, cmd, r),
    {
        match cmd {
            ChatCommand::ToSidebar => {
                self.focus = Focus::Sidebar;
                self.set_status("Sessions refreshed.");
                (Action::Continue, Effect::Refresh)
            },
            ChatCommand::Quit => (Action::Quit, Effect::Nothing),
            ChatCommand::Refresh => {
                self.set_status("Sessions refreshed.");
                (Action::Continue, Effect::Refresh)
            },
            ChatCommand::NewSession => {
                self.focus = Focus::Sidebar;
                (Action::Continue, Effect::RefreshAndActivate)
            },
            ChatCommand::ScrollSearch => {
                self.input_mode = InputMode::ScrollbackSearch;
                self.scrollback_query = String::new();
                self.scrollback = ScrollbackFind { total: 0, current: 0, ..self.scrollback };
                (Action::Continue, Effect::Nothing)
            },
            ChatCommand::Help => {
                self.input_mode = InputMode::KeybindView;
                (Action::Continue, Effect::Nothing)
            },
            ChatCommand::Preview => (Action::Continue, Effect::Preview),
            ChatCommand::Export => (Action::Continue, Effect::Export),
            ChatCommand::CopyTab => {
                let t = self.tab_copy_text(idx);
                (Action::Continue, Effect::CopyText(t))
            },
            ChatCommand::CycleTheme => (Action::Continue, Effect::CycleTheme),
            ChatCommand::Settings => {
                self.focus = Focus::Sidebar;
                self.input_mode = InputMode::Settings;
                self.set_status("Settings: a=add ws  d=del ws  r=rename ws  k=keybinds  t=themes  Esc=close");
                (Action::Continue, Effect::Nothing)
            },
            ChatCommand::TagFilter => {
                self.tag_filter_toggle();
                (Action::Continue, Effect::Nothing)
            },
            ChatCommand::Terminate => {
                let e = self.terminate_tab(idx);
                (Action::Continue, e)
            },
            ChatCommand::NextTab => {
                let e = self.switch_tab(1);
                (Action::Continue, e)
            },
            ChatCommand::PrevTab => {
                let e = self.switch_tab(-1);
                (Action::Continue, e)
            },
            ChatCommand::MoveTabRight => {
                let e = self.move_tab(1);
                (Action::Continue, e)
            },
            ChatCommand::MoveTabLeft => {
                let e = self.move_tab(-1);
                (Action::Continue, e)
            },
            ChatCommand::PageUp => (Action::Continue, Effect::Scroll(idx, ScrollTarget::PageUp)),
            ChatCommand::PageDown => (Action::Continue, Effect::Scroll(idx, ScrollTarget::PageDown)),
            ChatCommand::Top => (Action::Continue, Effect::Scroll(idx, ScrollTarget::Top)),
            ChatCommand::Bottom => (Action::Continue, Effect::Scroll(idx, ScrollTarget::Bottom)),
            ChatCommand::YankOrForward => (Action::Continue, Effect::YankOrForward(idx)),
            ChatCommand::Forward => (Action::Continue, Effect::Forward(idx)),
        }
    }

    /// Routes a key that neither F12 nor command mode takes: an open popup
    /// takes it first; otherwise the focused pane runs the command the key
    /// is bound to. With the chat pane focused but no tab open, Tab returns
    /// to the sidebar and q or Esc quits.
    fn route_key(&mut self, key: KeyPress) -> (r: (Action, Effect))
        requires
            old(self).wf(),
        ensures
            final(self).wf(),
            key_step(*old(self), *final(self), key, r),
    {
        if self.input_mode != InputMode::Normal {
            return self.handle_popup_key(key);
        }
        if self.focus == Focus::Chat {
            match self.active_tab {
                Some(idx) => {
                    let cmd = chat_command(&self.keybinds, &key);
                    return self.apply_chat_command(idx, cmd);
                },
                None => {
                    return match key.code {
                        KeyCode::Tab => {
                            self.focus = Focus::Sidebar;
                            (Action::Continue, Effect::Refresh)
                        },
                        KeyCode::Char('q') | KeyCode::Esc => (Action::Quit, Effect::Nothing),
                        _ => (Action::Continue, Effect::Nothing),
                    };
                },
            }
        }
        let cmd = sidebar_command(&self.keybinds, &key);
        self.apply_sidebar_command(cmd)
    }

    /// Handles one key press: F12 (with no popup open) switches between
    /// passthrough and command mode and never reaches a tab; in command mode
    /// the focused tab's command keys go to `handle_amux_key` (`alt_screen`,
    /// `split_open` and `scrolled_back` describe that tab's terminal); any
    /// other key goes to the open popup or runs the command the focused
    /// pane binds it to.
    pub fn handle_key(&mut self, key: KeyPress, alt_screen: bool, split_open: bool, scrolled_back: bool) -> (r: (Action, Effect))
        requires
            old(self).wf(),
        ensures
            final(self).wf(),
            key_event_post(*old(self), *final(self), key, alt_screen, split_open, scrolled_back, r),
    {
        if self.input_mode == InputMode::Normal && key.code == KeyCode::F(12) {
            self.amux_mode = !self.amux_mode;
            return (Action::Continue, Effect::Nothing);
        }
        if self.input_mode == InputMode::Normal && self.focus == Focus::Chat && self.amux_mode {
            if let Some(idx) = self.active_tab {
                if idx < self.env.tabs.len() {
                    let takes = match chat_command(&self.keybinds, &key) {
                        ChatCommand::PageUp | ChatCommand::PageDown | ChatCommand::Top | ChatCommand::Bottom
                        | ChatCommand::YankOrForward | ChatCommand::Forward => true,
                        ChatCommand::ScrollSearch => !key.ctrl && !key.alt && !key.shift && key.code == KeyCode::Char('/'),
                        _ => false,
                    };
                    if takes {
                        let e = self.handle_amux_key(idx, key, alt_screen, split_open, scrolled_back);
                        return (Action::Continue, e);
                    }
                }
            }
        }
        self.route_key(key)
    }

    /// Pasted text: it extends the scrollback search query or the prompt
    /// text (each kept to its byte limit), or goes to the focused tab.
    pub fn handle_paste(&mut self, text: &str) -> (e: Effect)
        requires
            old(self).wf(),
        ensures
            final(self).wf(),
            paste_post(*old(self), *final(self), text@, e),
    {
        if self.input_mode == InputMode::ScrollSearch || self.input_mode == InputMode::ScrollbackSearch {
            let mut v = chars_of(self.scrollback_query.as_str());
            push_str(&mut v, text);
            let joined = string_from_chars(&v);
            self.scrollback_query = cut_to_bytes(joined.as_str(), SCROLLBACK_QUERY_LIMIT);
            Effect::RunScrollSearch
        } else if self.input_mode != InputMode::Normal {
            let mut v = chars_of(self.input_buffer.as_str());
            push_str(&mut v, text);
            let joined = string_from_chars(&v);
            self.input_buffer = cut_to_bytes(joined.as_str(), PASTE_LIMIT);
            Effect::Nothing
        } else if self.focus == Focus::Chat {
            match self.active_tab {
                Some(idx) => Effect::PasteToTab(idx, String::from_str(text)),
                None => Effect::Nothing,
            }
        } else {
            Effect::Nothing
        }
    }

    /// The tab under a click at (`x`, `y`) on the tab bar, when there is one.
    fn tab_at(&self, bar: TabBar, x: u16, y: u16) -> (r: Option<usize>)
        ensures
            r == tab_hit(bar, self.env.tabs.len() as nat, x, y),
            r matches Some(i) ==> i < self.env.tabs.len(),
    {
        let n = self.env.tabs.len();
        if n == 0 || bar.width == 0 || bar.height == 0 {
            return None;
        }
        let bottom: u32 = bar.y as u32 + bar.height as u32;
        let right: u32 = bar.x as u32 + bar.width as u32;
        if (y as u32) < (bar.y as u32) || (y as u32) >= bottom || (x as u32) < (bar.x as u32) || (x as u32) >= right {
            return None;
        }
        let local_x: u16 = x - bar.x;
        let tab_width: usize = (bar.width as usize) / n;
        tab_index_from_x(local_x, tab_width, n)
    }

    /// A click on the tab bar focuses the tab under it.
    pub fn handle_mouse_click(&mut self, bar: TabBar, x: u16, y: u16) -> (e: Effect)
        requires
            old(self).wf(),
        ensures
            final(self).wf(),
            match tab_hit(bar, old(self).env.tabs.len() as nat, x, y) {
                Some(i) if old(self).active_tab != Some(i) => {
                    &&& i < old(self).env.tabs.len()
                    &&& final(self).status@ == "Switched to: "@ + old(self).env.tabs@[i as int].title@ + " ("@
                            + decimal((i + 1) as nat) + "/"@ + decimal(old(self).env.tabs.len() as nat) + ")"@
                    &&& e == Effect::Scroll(i, ScrollTarget::Bottom)
                    &&& *final(self) == (AppState { active_tab: Some(i), status: final(self).status, ..*old(self) })
                },
                _ => e is Nothing && *final(self) == *old(self),
            },
    {
        let Some(i) = self.tab_at(bar, x, y) else { return Effect::Nothing; };
        if self.active_tab == Some(i) {
            return Effect::Nothing;
        }
        self.active_tab = Some(i);
        proof { reveal_strlit("Switched to: "); reveal_strlit(" ("); reveal_strlit("/"); reveal_strlit(")"); }
        let mut v: Vec<char> = Vec::new();
        push_str(&mut v, "Switched to: ");
        push_str(&mut v, self.env.tabs[i].title.as_str());
        push_str(&mut v, " (");
        push_decimal(&mut v, (i + 1) as u64);
        push_str(&mut v, "/");
        push_decimal(&mut v, self.env.tabs.len() as u64);
        push_str(&mut v, ")");
        self.status = string_from_chars(&v);
        Effect::Scroll(i, ScrollTarget::Bottom)
    }

    /// A click on a tab's close mark closes the tab under it.
    pub fn handle_tab_close_click(&mut self, bar: TabBar, x: u16, y: u16) -> (e: Effect)
        requires
            old(self).wf(),
        ensures
            final(self).wf(),
            match tab_hit(bar, old(self).env.tabs.len() as nat, x, y) {
                Some(i) => {
                    &&& i < old(self).env.tabs.len()
                    &&& final(self).env.tabs@ == old(self).env.tabs@.remove(i as int)
                    &&& final(self).active_tab == tab_after_close(old(self).active_tab, final(self).env.tabs.len() as nat)
                    &&& final(self).focus == (if final(self).env.tabs.len() == 0 { Focus::Sidebar } else { old(self).focus })
                    &&& final(self).status@ == "Closed tab: "@ + old(self).env.tabs@[i as int].title@
                    &&& final(self).tree_fresh()
                    &&& rebuilt(old(self).store, final(self).store)
                    &&& e == Effect::CloseTab(i)
                    &&& *final(self) == (AppState { env: TreeEnv { tabs: final(self).env.tabs, ..old(self).env },
                            active_tab: final(self).active_tab, focus: final(self).focus, status: final(self).status,
                            store: final(self).store, ..*old(self) })
                },
                None => e is Nothing && *final(self) == *old(self),
            },
    {
        let Some(i) = self.tab_at(bar, x, y) else { return Effect::Nothing; };
        proof { reveal_strlit("Closed tab: "); }
        let mut v: Vec<char> = Vec::new();
        push_str(&mut v, "Closed tab: ");
        push_str(&mut v, self.env.tabs[i].title.as_str());
        self.remove_tab(i);
        if self.env.tabs.len() == 0 {
            self.focus = Focus::Sidebar;
        }
        self.rebuild();
        self.status = string_from_chars(&v);
        Effect::CloseTab(i)
    }

    /// The workspace directory of the selected row, when it is a workspace
    /// or a (possibly archived) session.
    pub fn selected_workspace_dir(&self) -> (r: Option<String>)
        requires
            self.wf(),
        ensures
            opt_string_view(r) == selected_dir(*self),
    {
        let sel = match self.store.selected {
            Some(i) => if i < self.store.tree.len() { Some(i) } else { None },
            None => None,
        };
        let Some(i) = sel else { return None; };
        let wi = match &self.store.tree[i] {
            TreeNode::Workspace(wi) => *wi,
            TreeNode::Session(wi, _) => *wi,
            TreeNode::ArchivedSession(wi, _) => *wi,
            _ => { return None; },
        };
        if wi < self.env.cwds.len() {
            Some(self.env.cwds[wi].clone())
        } else {
            None
        }
    }

    /// A newly started terminal tab: it is appended, focused, and shown in
    /// the tree.
    pub fn open_tab(&mut self, tab: ActiveTab)
        requires
            old(self).wf(),
        ensures
            final(self).wf(),
            final(self).env.tabs@ == old(self).env.tabs@.push(tab),
            final(self).active_tab == Some(old(self).env.tabs.len()),
            final(self).tree_fresh(),
            rebuilt(old(self).store, final(self).store),
            *final(self) == (AppState { env: TreeEnv { tabs: final(self).env.tabs, ..old(self).env },
                active_tab: final(self).active_tab, focus: Focus::Chat, store: final(self).store, ..*old(self) }),
    {
        let n = self.env.tabs.len();
        self.env.tabs.push(tab);
        self.active_tab = Some(n);
        self.focus = Focus::Chat;
        self.rebuild();
    }

    /// Starting the first step of a chain failed.
    pub fn chain_start_failed(&mut self, err: &str)
        ensures
            final(self).status@ == "Chain start failed: "@ + err@,
            *final(self) == (AppState { status: final(self).status, active_chain: None, ..*old(self) }),
    {
        proof { reveal_strlit("Chain start failed: "); }
        let mut v: Vec<char> = Vec::new();
        push_str(&mut v, "Chain start failed: ");
        push_str(&mut v, err);
        self.status = string_from_chars(&v);
        self.active_chain = None;
    }

    /// Keys of the chain list: up and down move through it (wrapping), Esc
    /// closes it, Enter starts the highlighted chain in the selected row's
    /// workspace.
    #[verifier::rlimit(30)]
    pub fn handle_chain_select_key(&mut self, key: KeyPress, chains: &Vec<SessionChain>) -> (e: Effect)
        requires
            old(self).wf(),
        ensures
            final(self).wf(),
            chain_select_post(*old(self), *final(self), key, chains@, e),
    {
        let len = chains.len();
        match key.code {
            KeyCode::Esc => {
                self.input_mode = InputMode::Normal;
                self.status = String::new();
                Effect::Nothing
            },
            KeyCode::Up | KeyCode::Char('k') => {
                if len > 0 {
                    let cur = match self.menu_selected { Some(c) => c, None => 0 };
                    self.menu_selected = Some(if cur == 0 { len - 1 } else { cur - 1 });
                }
                Effect::Nothing
            },
            KeyCode::Down | KeyCode::Char('j') => {
                if len > 0 {
                    let cur = match self.menu_selected { Some(c) => c, None => 0 };
                    self.menu_selected = Some((cur % len + 1) % len);
                    proof { lemma_next_mod(cur as int, len as int); }
                }
                Effect::Nothing
            },
            KeyCode::Enter => {
                let e = match self.menu_selected {
                    Some(idx) => if idx < len { self.start_chain(&chains[idx]) } else { Effect::Nothing },
                    None => Effect::Nothing,
                };
                self.input_mode = InputMode::Normal;
                e
            },
            _ => Effect::Nothing,
        }
    }

    #[verifier::rlimit(40)]
    #[verifier::spinoff_prover]
    fn start_chain(&mut self, chain: &SessionChain) -> (e: Effect)
        requires
            old(self).wf(),
        ensures
            final(self).wf(),
            start_chain_post(*old(self), *final(self), *chain, e),
    {
        if chain.steps.len() == 0 {
            self.set_status("Chain has no steps.");
            return Effect::Nothing;
        }
        let Some(path) = self.selected_workspace_dir() else {
            self.set_status("Select a workspace or session first.");
            return Effect::Nothing;
        };
        let total = chain.steps.len();
        match find_workspace_by_path(&self.store.workspaces, path.as_str()) {
            Some(wi) => {
                proof {
                    let c = choose|w: int| #[trigger] ws_with_path(self.store.workspaces@, path@, w);
                    lemma_ws_with_path_unique(self.store.workspaces@, path@, c, wi as int);
                }
                let row = find_workspace_row(&self.store.tree, wi);
                proof {
                    if let Some(rw) = row {
                        let c = choose|i: int| #[trigger] first_ws_row(self.store.tree@, wi, i);
                        lemma_first_ws_row_unique(self.store.tree@, wi, c, rw as int);
                    }
                }
                if let Some(rw) = row {
                    self.store.selected = Some(rw);
                }
                let step = &chain.steps[0];
                let launch = StepLaunch {
                    ws_index: wi,
                    agent: step.agent,
                    prompt: step.prompt.clone(),
                    session_name: step_session_name(chain.name.as_str(), 1),
                    tab_title: step_tab_title(chain.name.as_str(), 1, total as u64),
                    status: step_status(chain.name.as_str(), 1, total as u64, step.agent),
                };
                self.status = launch.status.clone();
                self.active_chain = Some(ActiveChain {
                    chain_name: chain.name.clone(),
                    current_step: 0,
                    total_steps: total,
                    workspace_path: path,
                    prev_output: None,
                });
                Effect::StartChain(launch)
            },
            None => {
                self.set_status("Workspace not found for chain.");
                self.active_chain = None;
                Effect::Nothing
            },
        }
    }

    /// Keys of tab `idx` in command mode: plain letters run commands (the
    /// rest are swallowed), paging keys scroll (or go to full-screen
    /// programs), and other keys go to the tab, or to the split terminal
    /// when one is open. `alt_screen`, `split_open` and `scrolled_back`
    /// describe the tab's terminal.
    pub fn handle_amux_key(&mut self, idx: usize, key: KeyPress, alt_screen: bool, split_open: bool, scrolled_back: bool) -> (e: Effect)
        requires
            old(self).wf(),
            idx < old(self).env.tabs.len(),
        ensures
            final(self).wf(),
            amux_post(*old(self), *final(self), idx, key, alt_screen, split_open, scrolled_back, e),
    {
        let plain = !key.ctrl && !key.alt && !key.shift;
        if plain {
            match key.code {
                KeyCode::Char('b') => {
                    return if alt_screen { Effect::WriteBytes(idx, vec![27u8, 91u8, 53u8, 126u8]) } else { Effect::Scroll(idx, ScrollTarget::PageUp) };
                },
                KeyCode::Char('f') => {
                    if alt_screen {
                        return Effect::WriteBytes(idx, vec![27u8, 91u8, 54u8, 126u8]);
                    }
                    self.input_mode = InputMode::ScrollbackSearch;
                    self.scrollback_query = String::new();
                    self.scrollback = ScrollbackFind { total: 0, current: 0, ..self.scrollback };
                    return Effect::Nothing;
                },
                KeyCode::Char('t') => {
                    self.input_mode = InputMode::TokenStats;
                    self.set_status("Token Usage (any key to close)");
                    return Effect::Nothing;
                },
                KeyCode::Char('s') => {
                    self.input_mode = InputMode::Stats;
                    self.set_status("Activity Statistics (any key to close)");
                    return Effect::Nothing;
                },
                KeyCode::Char('e') => {
                    self.open_list(self.menus.chains, InputMode::ChainSelect,
                        "No chains configured. Add chains to config.json.", "Select chain (Enter=start, Esc=cancel)");
                    return Effect::Nothing;
                },
                KeyCode::Char('g') => { return Effect::Timeline; },
                KeyCode::Char('w') => { return Effect::Recommend; },
                KeyCode::Char('r') => { return Effect::RemoteView; },
                KeyCode::Char('x') => { return self.diff_step(); },
                KeyCode::Char('c') => {
                    if split_open {
                        self.set_status("Terminal closed");
                        return Effect::CloseSplit;
                    }
                    self.set_status("Terminal opened (c to close)");
                    return Effect::OpenSplit(idx);
                },
                KeyCode::Char('y') => {
                    if scrolled_back {
                        return Effect::CopyScreen(idx);
                    }
                },
                KeyCode::PageUp | KeyCode::PageDown | KeyCode::Home | KeyCode::End => {},
                _ => { return Effect::Nothing; },
            }
        }
        match key.code {
            KeyCode::PageUp => if alt_screen { Effect::Forward(idx) } else { Effect::Scroll(idx, ScrollTarget::PageUp) },
            KeyCode::PageDown => if alt_screen { Effect::Forward(idx) } else { Effect::Scroll(idx, ScrollTarget::PageDown) },
            KeyCode::Home => if alt_screen { Effect::Forward(idx) } else { Effect::Scroll(idx, ScrollTarget::Top) },
            KeyCode::End => if alt_screen { Effect::Forward(idx) } else { Effect::Scroll(idx, ScrollTarget::Bottom) },
            _ => if split_open { Effect::ForwardToSplit } else { Effect::ResetAndForward(idx) },
        }
    }

    /// Decides how to start or resume what the selected row stands for: a
    /// workspace starts a new session there, a session is resumed (or its
    /// open tab focused), an archived session is first moved back to the
    /// active sessions, a tab row is focused.
    #[verifier::rlimit(100)]
    #[verifier::spinoff_prover]
    pub fn plan_spawn(&mut self, agent: Agent, name: Option<String>) -> (r: Option<SpawnRequest>)
        requires
            old(self).wf(),
        ensures
            final(self).wf(),
            plan_spawn_post(*old(self), *final(self), agent, opt_string_view(name), r),
    {
        let sel = match self.store.selected {
            Some(i) => if i < self.store.tree.len() { Some(i) } else { None },
            None => None,
        };
        let Some(i) = sel else { return None; };
        match &self.store.tree[i] {
            TreeNode::Workspace(wi) => {
                let wi = *wi;
                if wi >= self.store.workspaces.len() || wi >= self.env.cwds.len() {
                    return None;
                }
                let title = match &name {
                    Some(n) => n.clone(),
                    None => String::from_str("unnamed"),
                };
                proof { reveal_strlit("unnamed"); reveal_strlit("Starting "); reveal_strlit(" '"); reveal_strlit("' in "); reveal_strlit("..."); }
                let mut v: Vec<char> = Vec::new();
                push_str(&mut v, "Starting ");
                push_str(&mut v, agent.label());
                push_str(&mut v, " '");
                push_str(&mut v, title.as_str());
                push_str(&mut v, "' in ");
                push_str(&mut v, self.store.workspaces[wi].name.as_str());
                push_str(&mut v, "...");
                self.status = string_from_chars(&v);
                Some(SpawnRequest { path: self.env.cwds[wi].clone(), resume_id: None, name, title, agent })
            },
            TreeNode::Session(_, si) => {
                let si = *si;
                if si >= self.store.sessions.len() {
                    return None;
                }
                let id = self.store.sessions[si].id.clone();
                if let Some(p) = self.find_tab_of_session(id.as_str()) {
                    self.active_tab = Some(p);
                    self.focus = Focus::Chat;
                    return None;
                }
                proof { reveal_strlit("Resuming: "); reveal_strlit("..."); }
                let mut v: Vec<char> = Vec::new();
                push_str(&mut v, "Resuming: ");
                let short = short_id(id.as_str());
                push_str(&mut v, short.as_str());
                push_str(&mut v, "...");
                self.status = string_from_chars(&v);
                Some(SpawnRequest {
                    path: self.store.sessions[si].workspace_path.clone(),
                    resume_id: Some(id),
                    name,
                    title: self.store.sessions[si].title.clone(),
                    agent,
                })
            },
            TreeNode::ActiveTab(pi) => {
                let pi = *pi;
                if pi < self.env.tabs.len() {
                    self.active_tab = Some(pi);
                    self.focus = Focus::Chat;
                }
                None
            },
            TreeNode::ArchivedSession(_, ai) => {
                let ai = *ai;
                if ai >= self.store.archived_sessions.len() {
                    return None;
                }
                let s = self.store.archived_sessions.remove(ai);
                let id = s.id.clone();
                let path = s.workspace_path.clone();
                let title = s.title.clone();
                self.store.sessions.push(s);
                if let Some(p) = self.find_tab_of_session(id.as_str()) {
                    self.active_tab = Some(p);
                    self.focus = Focus::Chat;
                    self.rebuild();
                    return None;
                }
                proof { reveal_strlit("Resuming archived: "); reveal_strlit("..."); }
                let mut v: Vec<char> = Vec::new();
                push_str(&mut v, "Resuming archived: ");
                let short = short_id(id.as_str());
                push_str(&mut v, short.as_str());
                push_str(&mut v, "...");
                self.status = string_from_chars(&v);
                Some(SpawnRequest { path, resume_id: Some(id), name, title, agent })
            },
            _ => None,
        }
    }

    /// The first tab showing the session with this id.
    fn find_tab_of_session(&self, id: &str) -> (r: Option<usize>)
        ensures
            r == first_tab_of(self.env.tabs@, id@),
            r matches Some(p) ==> p < self.env.tabs.len(),
    {
        let mut i: usize = 0;
        while i < self.env.tabs.len()
            invariant
                i <= self.env.tabs.len(),
                forall|j: int| 0 <= j < i ==> !tab_shows(self.env.tabs@[j], id@),
            decreases self.env.tabs.len() - i,
        {
            let hit = match &self.env.tabs[i].session_id {
                Some(s) => str_eq(s.as_str(), id),
                None => false,
            };
            if hit {
                proof { lemma_first_tab_is(self.env.tabs@, id@, i as int); }
                return Some(i);
            }
            i = i + 1;
        }
        proof { lemma_first_tab_none(self.env.tabs@, id@); }
        None
    }

    /// Starting the terminal of a spawn request failed with `err`: a missing
    /// program is reported with `install_hint`, anything else as a failure
    /// to start or resume.
    pub fn spawn_failed(&mut self, req: &SpawnRequest, archived: bool, err: &str, install_hint: &str)
        ensures
            final(self).status@ == spawn_failure_text(req.agent, req.resume_id is Some, archived, err@, install_hint@),
            *final(self) == (AppState { status: final(self).status, ..*old(self) }),
    {
        proof {
            reveal_strlit("not found"); reveal_strlit("No such file"); reveal_strlit(" not found. ");
            reveal_strlit("Failed to spawn "); reveal_strlit(": "); reveal_strlit("Failed to resume session: ");
            reveal_strlit("Failed to resume archived session: ");
        }
        let mut v: Vec<char> = Vec::new();
        if contains_str(err, "not found") || contains_str(err, "No such file") {
            push_str(&mut v, req.agent.label());
            push_str(&mut v, " not found. ");
            push_str(&mut v, install_hint);
        } else if req.resume_id.is_none() {
            push_str(&mut v, "Failed to spawn ");
            push_str(&mut v, req.agent.label());
            push_str(&mut v, ": ");
            push_str(&mut v, err);
        } else if archived {
            push_str(&mut v, "Failed to resume archived session: ");
            push_str(&mut v, err);
        } else {
            push_str(&mut v, "Failed to resume session: ");
            push_str(&mut v, err);
        }
        self.status = string_from_chars(&v);
    }

    /// Drops the tabs whose terminal has exited (`alive[i]` false); when any
    /// went, a focused tab past the end moves to the last one and the tree
    /// is rebuilt.
    pub fn drop_dead_tabs(&mut self, alive: &Vec<bool>)
        requires
            old(self).wf(),
            alive.len() == old(self).env.tabs.len(),
        ensures
            final(self).wf(),
            final(self).env.tabs@ == live_tabs(old(self).env.tabs@, alive@, alive.len() as nat),
            (forall|i: int| 0 <= i < alive.len() ==> alive@[i]) ==> *final(self) == *old(self),
            !(forall|i: int| 0 <= i < alive.len() ==> alive@[i]) ==> {
                &&& final(self).active_tab == tab_after_close(old(self).active_tab, final(self).env.tabs.len() as nat)
                &&& final(self).tree_fresh()
                &&& rebuilt(old(self).store, final(self).store)
                &&& *final(self) == (AppState { env: TreeEnv { tabs: final(self).env.tabs, ..old(self).env },
                        active_tab: final(self).active_tab, store: final(self).store, ..*old(self) })
            },
    {
        let n = self.env.tabs.len();
        let mut all = true;
        let mut k: usize = 0;
        while k < n
            invariant
                k <= n,
                n == alive.len(),
                all == (forall|j: int| 0 <= j < k ==> alive@[j]),
            decreases n - k,
        {
            all = all && alive[k];
            k = k + 1;
        }
        if all {
            proof { lemma_live_tabs_all(self.env.tabs@, alive@, n as nat); assert(self.env.tabs@.take(n as int) =~= self.env.tabs@); }
            return;
        }
        let mut rest: Vec<ActiveTab> = Vec::new();
        std::mem::swap(&mut rest, &mut self.env.tabs);
        let ghost tabs0 = rest@;
        let mut kept: Vec<ActiveTab> = Vec::new();
        let mut i: usize = 0;
        while i < n
            invariant
                i <= n,
                n == tabs0.len(),
                alive@.len() == n,
                rest@ == tabs0.subrange(i as int, n as int),
                kept@ == live_tabs(tabs0, alive@, i as nat),
            decreases n - i,
        {
            let t = rest.remove(0);
            if alive[i] {
                kept.push(t);
            }
            i = i + 1;
            proof {
                assert(rest@ =~= tabs0.subrange(i as int, n as int));
                assert(kept@ =~= live_tabs(tabs0, alive@, i as nat));
            }
        }
        self.env.tabs = kept;
        let len = self.env.tabs.len();
        if let Some(cur) = self.active_tab {
            if cur >= len {
                self.active_tab = if len == 0 { None } else { Some(len - 1) };
            }
        }
        self.rebuild();
    }

    /// A fresh interface over these workspaces and sessions: no filters,
    /// newest sessions first, sidebar focused, tree built and its first row
    /// selected.
    pub fn new(store: SessionStore, env: TreeEnv, keybinds: Keybinds, menus: MenuCounts) -> (r: AppState)
        requires
            env_wf(store, env),
            store.selected is None,
        ensures
            r.wf(),
            r.tree_fresh(),
            rebuilt(store, r.store),
            r.store.selected == (if r.store.tree.len() > 0 { Some(0usize) } else { None }),
            r.env == env,
            r.keybinds == keybinds,
            r.menus == menus,
            r.filters.sort_mode == SortMode::TimeDesc,
            r.filters.agent_filter is None,
            r.filters.tag_filter is None,
            r.filters.search_query is None,
            r.focus == Focus::Sidebar,
            r.input_mode == InputMode::Normal,
            r.status@.len() == 0,
            r.input_buffer@.len() == 0,
            r.search_results@.len() == 0,
            r.search_selected is None,
            r.keybind_scroll == 0,
            r.marked@.len() == 0,
            r.pending_delete is None,
            !r.pending_batch_delete,
            r.rename_target is None,
            r.rename_workspace_target is None,
            r.new_workspace_name is None,
            r.pending_session_name is None,
            r.active_tab is None,
            r.menu_selected is None,
            r.scrollback_query@.len() == 0,
            r.scrollback == (ScrollbackFind { regex: false, case_sensitive: false, total: 0, current: 0 }),
            r.active_chain is None,
            r.token_limits is None,
            r.budget_alert is None,
            r.picker_query@.len() == 0,
            r.plugin_scroll == 0,
            r.conflict_warnings@.len() == 0,
            !r.amux_mode,
            r.diff_left_session is None,
    {
        let mut st = AppState {
            store,
            filters: ViewFilters { sort_mode: SortMode::default_mode(), agent_filter: None, tag_filter: None, search_query: None },
            env,
            focus: Focus::Sidebar,
            input_mode: InputMode::Normal,
            status: String::new(),
            input_buffer: String::new(),
            keybinds,
            search_results: Vec::new(),
            search_selected: None,
            keybind_scroll: 0,
            marked: Vec::new(),
            pending_delete: None,
            pending_batch_delete: false,
            rename_target: None,
            rename_workspace_target: None,
            new_workspace_name: None,
            pending_session_name: None,
            active_tab: None,
            menus,
            menu_selected: None,
            scrollback_query: String::new(),
            scrollback: ScrollbackFind { regex: false, case_sensitive: false, total: 0, current: 0 },
            active_chain: None,
            token_limits: None,
            budget_alert: None,
            picker_query: String::new(),
            plugin_scroll: 0,
            conflict_warnings: Vec::new(),
            amux_mode: false,
            diff_left_session: None,
        };
        st.rebuild();
        st
    }

    /// Takes the outcome of a budget check: an alert is kept for the status
    /// bar and, the first time it appears, opens the warning popup when no
    /// other popup is open; no alert clears it. Returns whether the alert is
    /// new (the caller then sends a desktop notification).
    pub fn apply_budget_alert(&mut self, alert: Option<String>) -> (fresh: bool)
        ensures
            match alert {
                Some(m) => {
                    &&& fresh == old(self).budget_alert is None
                    &&& final(self).budget_alert == Some(m)
                    &&& *final(self) == (AppState { budget_alert: Some(m),
                            input_mode: (if fresh && old(self).input_mode == InputMode::Normal { InputMode::BudgetWarning } else { old(self).input_mode }),
                            ..*old(self) })
                },
                None => !fresh && *final(self) == (AppState { budget_alert: None, ..*old(self) }),
            },
    {
        match alert {
            Some(m) => {
                let fresh = self.budget_alert.is_none();
                self.budget_alert = Some(m);
                if fresh && self.input_mode == InputMode::Normal {
                    self.input_mode = InputMode::BudgetWarning;
                }
                fresh
            },
            None => {
                self.budget_alert = None;
                false
            },
        }
    }

    /// Takes the outcome of a conflict check: new warnings replace the shown
    /// ones and, when no popup is open, open the conflict popup; no warnings
    /// leave everything as it was (warnings not yet seen stay).
    pub fn apply_conflicts(&mut self, warnings: Vec<String>)
        ensures
            warnings.len() == 0 ==> *final(self) == *old(self),
            warnings.len() > 0 ==> *final(self) == (AppState { conflict_warnings: warnings,
                input_mode: (if old(self).input_mode == InputMode::Normal { InputMode::ConflictResolve } else { old(self).input_mode }),
                ..*old(self) }),
    {
        if warnings.len() > 0 {
            self.conflict_warnings = warnings;
            if self.input_mode == InputMode::Normal {
                self.input_mode = InputMode::ConflictResolve;
            }
        }
    }

    /// Keys of a list picker with `len` entries: Esc closes it (clearing the
    /// typed filter and the status), up and down move through the entries
    /// (wrapping), Enter closes it and reports the highlighted entry, and
    /// other characters edit the typed filter.
    pub fn handle_picker_key(&mut self, key: KeyPress, len: usize) -> (r: PickerOutcome)
        ensures
            picker_post(*old(self), *final(self), key, len, r),
    {
        match key.code {
            KeyCode::Esc => {
                self.input_mode = InputMode::Normal;
                self.picker_query = String::new();
                self.status = String::new();
                PickerOutcome::Closed
            },
            KeyCode::Up | KeyCode::Char('k') => {
                if len == 0 {
                    return PickerOutcome::Ignored;
                }
                let cur = match self.menu_selected { Some(c) => c, None => 0 };
                self.menu_selected = Some(if cur == 0 { len - 1 } else { cur - 1 });
                PickerOutcome::Moved
            },
            KeyCode::Down | KeyCode::Char('j') => {
                if len == 0 {
                    return PickerOutcome::Ignored;
                }
                let cur = match self.menu_selected { Some(c) => c, None => 0 };
                self.menu_selected = Some((cur % len + 1) % len);
                proof { lemma_next_mod(cur as int, len as int); }
                PickerOutcome::Moved
            },
            KeyCode::Enter => {
                self.input_mode = InputMode::Normal;
                self.picker_query = String::new();
                match self.menu_selected {
                    Some(i) => if i < len { PickerOutcome::Chosen(i) } else { PickerOutcome::Dismissed },
                    None => PickerOutcome::Dismissed,
                }
            },
            KeyCode::Backspace => {
                let mut v = chars_of(self.picker_query.as_str());
                if v.len() > 0 {
                    v.pop();
                }
                self.picker_query = string_from_chars(&v);
                PickerOutcome::Edited
            },
            KeyCode::Char(c) => {
                let mut v = chars_of(self.picker_query.as_str());
                v.push(c);
                self.picker_query = string_from_chars(&v);
                PickerOutcome::Edited
            },
            _ => PickerOutcome::Ignored,
        }
    }

    /// Moves the highlighted entry of the directory browser (`len` entries)
    /// by `delta`, wrapping around; nothing happens when it is empty.
    pub fn browse_move(&mut self, delta: isize, len: usize)
        ensures
            len == 0 ==> *final(self) == *old(self),
            len > 0 ==> *final(self) == (AppState {
                menu_selected: Some(wrap_spec(
                    (match old(self).menu_selected { Some(c) => if (c as int) < len { c as int } else { len - 1 }, None => 0 }),
                    delta as int, len as int) as usize),
                ..*old(self) }),
    {
        if len == 0 {
            return;
        }
        let cur = match self.menu_selected { Some(c) => if c < len { c } else { len - 1 }, None => 0 };
        self.menu_selected = Some(wrap_move(cur, delta, len));
    }

    /// The workspace a template starts in: the one with the template's
    /// workspace id, else the workspace of the selected row.
    pub fn template_target(&self, workspace_id: Option<&str>) -> (r: Option<usize>)
        ensures
            r == template_target_spec(*self, opt_str(workspace_id)),
    {
        if let Some(id) = workspace_id {
            let mut i: usize = 0;
            while i < self.store.workspaces.len()
                invariant
                    i <= self.store.workspaces.len(),
                    workspace_id == Some(id),
                    forall|j: int| 0 <= j < i ==> (#[trigger] self.store.workspaces@[j]).id@ != id@,
                decreases self.store.workspaces.len() - i,
            {
                if str_eq(self.store.workspaces[i].id.as_str(), id) {
                    proof {
                        lemma_ws_id_first(self.store.workspaces@, id@, i as int);
                        assert(opt_str(workspace_id) == Some(id@));

                    }
                    return Some(i);
                }
                i = i + 1;
            }
        }
        proof {
            if let Some(id) = workspace_id {
                assert(opt_str(workspace_id) == Some(id@));
                if exists|k: int| #[trigger] ws_with_id(self.store.workspaces@, id@, k) {
                    let k = choose|k: int| #[trigger] ws_with_id(self.store.workspaces@, id@, k);
                    assert(self.store.workspaces@[k].id@ != id@);
                }
                assert(ws_index_by_id(self.store.workspaces@, id@) is None);
            }
        }
        match selected_node(&self.store) {
            Some(TreeNode::Workspace(wi)) => Some(*wi),
            Some(TreeNode::Session(wi, _)) => Some(*wi),
            _ => None,
        }
    }

    /// Keys of the settings panel: add, delete (the last workspace, unless
    /// it is the only one) or rename (the last) workspace, show the key
    /// bindings or the themes, toggle a default daily token budget.
    #[verifier::rlimit(30)]
    pub fn handle_settings_key(&mut self, key: KeyPress) -> (e: Effect)
        ensures
            settings_post(*old(self), *final(self), key, e),
    {
        match key.code {
            KeyCode::Esc => {
                self.input_mode = InputMode::Normal;
                self.status = String::new();
                Effect::Nothing
            },
            KeyCode::Char('a') => {
                self.start_new_workspace();
                Effect::Nothing
            },
            KeyCode::Char('d') => {
                let count = self.store.workspaces.len();
                if count > 1 {
                    proof { reveal_strlit("Delete workspace #"); reveal_strlit("? y/n"); }
                    let mut v: Vec<char> = Vec::new();
                    push_str(&mut v, "Delete workspace #");
                    push_decimal(&mut v, count as u64);
                    push_str(&mut v, "? y/n");
                    self.status = string_from_chars(&v);
                    self.pending_delete = Some(TreeNode::Workspace(count - 1));
                    self.pending_batch_delete = false;
                    self.input_mode = InputMode::ConfirmDelete;
                } else {
                    self.set_status("Cannot delete the only workspace.");
                }
                Effect::Nothing
            },
            KeyCode::Char('r') => {
                let count = self.store.workspaces.len();
                if count > 0 {
                    let wi = count - 1;
                    self.input_mode = InputMode::RenameWorkspace;
                    self.rename_workspace_target = Some(wi);
                    self.input_buffer = self.store.workspaces[wi].name.clone();
                    self.set_status("Edit workspace name (Enter=confirm, Esc=cancel):");
                }
                Effect::Nothing
            },
            KeyCode::Char('k') => {
                self.input_mode = InputMode::KeybindView;
                self.set_status("Keybindings (any key to close)");
                Effect::Nothing
            },
            KeyCode::Char('t') => {
                self.input_mode = InputMode::ThemeSelect;
                self.picker_query = String::new();
                Effect::LoadThemes
            },
            KeyCode::Char('b') => {
                if self.token_limits.is_some() {
                    self.token_limits = None;
                    self.budget_alert = None;
                    self.set_status("Token budget cleared.");
                } else {
                    self.token_limits = Some(TokenLimits { daily_tokens: Some(100000), weekly_tokens: None });
                    self.set_status("Token budget set: 100k daily tokens. Edit config.json to customize.");
                }
                Effect::SaveConfig
            },
            _ => Effect::Nothing,
        }
    }

    /// Keys of the plugin output view (`lines` lines): scrolling within the
    /// output; any other key closes it.
    pub fn handle_plugin_output_key(&mut self, key: KeyPress, lines: usize) -> (closed: bool)
        ensures
            plugin_output_post(*old(self), *final(self), key, lines, closed),
    {
        let last = if lines > 0 { lines - 1 } else { 0 };
        match key.code {
            KeyCode::Down | KeyCode::Char('j') => {
                if self.plugin_scroll < last {
                    self.plugin_scroll = self.plugin_scroll + 1;
                }
                false
            },
            KeyCode::Up | KeyCode::Char('k') => {
                self.plugin_scroll = if self.plugin_scroll > 0 { self.plugin_scroll - 1 } else { 0 };
                false
            },
            KeyCode::PageDown => {
                self.plugin_scroll = if self.plugin_scroll >= last || last - self.plugin_scroll < 10 { last } else { self.plugin_scroll + 10 };
                false
            },
            KeyCode::PageUp => {
                self.plugin_scroll = if self.plugin_scroll > 10 { self.plugin_scroll - 10 } else { 0 };
                false
            },
            KeyCode::Home => {
                self.plugin_scroll = 0;
                false
            },
            KeyCode::End => {
                self.plugin_scroll = last;
                false
            },
            _ => {
                self.input_mode = InputMode::Normal;
                self.plugin_scroll = 0;
                true
            },
        }
    }

    /// Keys of the agent list (`len` agents): j/k (either case) or the
    /// arrows move through it, wrapping around; Enter picks the highlighted
    /// agent (when it exists, the list closes); Esc cancels the new session.
    pub fn handle_agent_key(&mut self, key: KeyPress, len: usize) -> (r: Option<usize>)
        ensures
            agent_key_post(*old(self), *final(self), key, len, r),
    {
        let step: i8 = match key.code {
            KeyCode::Down => 1,
            KeyCode::Up => -1,
            KeyCode::Char(c) => if c == 'j' || c == 'J' { 1 } else if c == 'k' || c == 'K' { -1 } else { 0 },
            _ => 0,
        };
        match key.code {
            KeyCode::Esc => {
                self.input_mode = InputMode::Normal;
                self.set_status("Cancelled.");
                None
            },
            KeyCode::Enter => {
                match self.menu_selected {
                    Some(i) => if i < len {
                        self.input_mode = InputMode::Normal;
                        Some(i)
                    } else {
                        None
                    },
                    None => None,
                }
            },
            _ => {
                if step != 0 && len > 0 {
                    let sel = match self.menu_selected { Some(c) => c, None => 0 };
                    let cur = if sel < len { sel } else { len - 1 };
                    let next = if step > 0 {
                        if cur + 1 < len { cur + 1 } else { 0 }
                    } else {
                        if cur == 0 { len - 1 } else { cur - 1 }
                    };
                    self.menu_selected = Some(next);
                }
                None
            },
        }
    }

    /// Enter on the selected row: a workspace asks for the new session's
    /// name, a session (active or archived) is to be started with its own
    /// agent (returned), a tab row takes the focus.
    pub fn activate_selection(&mut self) -> (r: Option<Agent>)
        requires
            old(self).wf(),
        ensures
            final(self).wf(),
            activate_post(*old(self), *final(self), r),
    {
        let sel = match self.store.selected {
            Some(i) => if i < self.store.tree.len() { Some(i) } else { None },
            None => None,
        };
        let Some(i) = sel else { return None; };
        match &self.store.tree[i] {
            TreeNode::Workspace(_) => {
                self.input_mode = InputMode::SessionName;
                self.input_buffer = String::new();
                self.set_status("Enter session name (empty = unnamed, Esc = cancel):");
                None
            },
            TreeNode::Session(_, si) => {
                if *si < self.store.sessions.len() { Some(self.store.sessions[*si].agent) } else { None }
            },
            TreeNode::ActiveTab(pi) => {
                let pi = *pi;
                if pi < self.env.tabs.len() {
                    self.active_tab = Some(pi);
                    self.focus = Focus::Chat;
                }
                None
            },
            TreeNode::ArchivedSession(_, ai) => {
                if *ai < self.store.archived_sessions.len() { Some(self.store.archived_sessions[*ai].agent) } else { None }
            },
            _ => None,
        }
    }
}

impl AppState {
    /// Keeps the key reference's scroll within its lines: at most `total`
    /// less the `visible` lines in view.
    pub fn clamp_keybind_scroll(&mut self, total: u16, visible: u16)
        ensures
            *final(self) == (AppState {
                keybind_scroll: (if old(self).keybind_scroll as int > total - visible {
                    if total > visible { total - visible } else { 0 }
                } else {
                    old(self).keybind_scroll as int
                }) as u16,
                ..*old(self)
            }),
    {
        let max_scroll: u16 = if total > visible { total - visible } else { 0 };
        if self.keybind_scroll > max_scroll {
            self.keybind_scroll = max_scroll;
        }
    }
}

} // verus!
