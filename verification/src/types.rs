//! Plain data types shared by the sidebar, the key handlers and the chain runner.

use vstd::prelude::*;

verus! {

/// The coding-agent CLIs that sessions can run.
#[derive(Clone, Copy, Debug, PartialEq, Eq, Structural, Hash)]
pub enum Agent {
    Cc,
    Codex,
    Gsd,
    Omp,
}

/// Position of an agent in declaration order (the order `Ord` uses).
pub open spec fn agent_rank(a: Agent) -> nat {
    match a {
        Agent::Cc => 0,
        Agent::Codex => 1,
        Agent::Gsd => 2,
        Agent::Omp => 3,
    }
}

/// The name an agent is shown by.
pub open spec fn agent_label_spec(a: Agent) -> Seq<char> {
    match a {
        Agent::Cc => "CC"@,
        Agent::Codex => "Codex"@,
        Agent::Gsd => "GSD"@,
        Agent::Omp => "OMP"@,
    }
}

impl Agent {
    /// Declaration-order rank, used for ordering sessions by agent.
    pub fn rank(&self) -> (r: u8)
        ensures
            r as nat == agent_rank(*self),
    {
        match self {
            Agent::Cc => 0,
            Agent::Codex => 1,
            Agent::Gsd => 2,
            Agent::Omp => 3,
        }
    }

    /// Human-readable name of the agent.
    pub fn label(&self) -> (s: &'static str)
        ensures
            s@ == agent_label_spec(*self),
    {
        proof {
            reveal_strlit("CC");
            reveal_strlit("Codex");
            reveal_strlit("GSD");
            reveal_strlit("OMP");
        }
        match self {
            Agent::Cc => "CC",
            Agent::Codex => "Codex",
            Agent::Gsd => "GSD",
            Agent::Omp => "OMP",
        }
    }
}

/// Ordering applied to the sessions listed under each workspace.
#[derive(Clone, Copy, Debug, PartialEq, Eq, Structural)]
pub enum SortMode {
    TimeDesc,
    TimeAsc,
    NameAsc,
    NameDesc,
    AgentGroup,
}

/// The sort mode after this one; the modes form a cycle.
pub open spec fn sort_mode_next(m: SortMode) -> SortMode {
    match m {
        SortMode::TimeDesc => SortMode::TimeAsc,
        SortMode::TimeAsc => SortMode::NameAsc,
        SortMode::NameAsc => SortMode::NameDesc,
        SortMode::NameDesc => SortMode::AgentGroup,
        SortMode::AgentGroup => SortMode::TimeDesc,
    }
}

/// The name a sort mode is shown by.
pub open spec fn sort_mode_label(m: SortMode) -> Seq<char> {
    match m {
        SortMode::TimeDesc => "time (newest first)"@,
        SortMode::TimeAsc => "time (oldest first)"@,
        SortMode::NameAsc => "name (A-Z)"@,
        SortMode::NameDesc => "name (Z-A)"@,
        SortMode::AgentGroup => "agent"@,
    }
}

impl Default for SortMode {
    /// Most recently active first.
    fn default() -> (m: SortMode)
        ensures
            m == SortMode::TimeDesc,
    {
        SortMode::TimeDesc
    }
}

impl SortMode {
    /// The default ordering: most recently active first.
    pub fn default_mode() -> (m: SortMode)
        ensures
            m == SortMode::TimeDesc,
    {
        SortMode::TimeDesc
    }

    /// The next mode in the cycle TimeDesc → TimeAsc → NameAsc → NameDesc → AgentGroup → TimeDesc.
    pub fn next(&self) -> (m: SortMode)
        ensures
            m == sort_mode_next(*self),
    {
        match self {
            SortMode::TimeDesc => SortMode::TimeAsc,
            SortMode::TimeAsc => SortMode::NameAsc,
            SortMode::NameAsc => SortMode::NameDesc,
            SortMode::NameDesc => SortMode::AgentGroup,
            SortMode::AgentGroup => SortMode::TimeDesc,
        }
    }

    /// Short description shown in the status bar.
    pub fn label(&self) -> (s: &'static str)
        ensures
            s@ == sort_mode_label(*self),
    {
        proof {
            reveal_strlit("time (newest first)");
            reveal_strlit("time (oldest first)");
            reveal_strlit("name (A-Z)");
            reveal_strlit("name (Z-A)");
            reveal_strlit("agent");
        }
        match self {
            SortMode::TimeDesc => "time (newest first)",
            SortMode::TimeAsc => "time (oldest first)",
            SortMode::NameAsc => "name (A-Z)",
            SortMode::NameDesc => "name (Z-A)",
            SortMode::AgentGroup => "agent",
        }
    }
}

/// Cycling through the sort modes returns to the start after five steps,
/// and the five modes visited are pairwise distinct.
pub proof fn lemma_sort_mode_cycle(m: SortMode)
    ensures
        sort_mode_next(sort_mode_next(sort_mode_next(sort_mode_next(sort_mode_next(m))))) == m,
        m != sort_mode_next(m),
        m != sort_mode_next(sort_mode_next(m)),
        m != sort_mode_next(sort_mode_next(sort_mode_next(m))),
        m != sort_mode_next(sort_mode_next(sort_mode_next(sort_mode_next(m)))),
{
}

/// Which pane has keyboard focus.
#[derive(Clone, Copy, Debug, PartialEq, Eq, Structural)]
pub enum Focus {
    Sidebar,
    Chat,
}

/// The outcome of handling one key press.
#[derive(Clone, Copy, Debug, PartialEq, Eq, Structural)]
pub enum Action {
    Continue,
    Quit,
}

/// A saved session of one of the agents.
#[derive(Clone, Debug)]
pub struct Session {
    pub id: String,
    /// Normalized workspace path (no trailing separator, no `.` or empty components).
    pub workspace_path: String,
    pub title: String,
    /// Unix seconds of the last activity.
    pub last_active: u64,
    pub agent: Agent,
    pub tags: Vec<String>,
    pub pinned: bool,
    pub last_message: Option<String>,
}

/// A workspace: a named directory (or a virtual one) that groups sessions.
#[derive(Clone, Debug)]
pub struct Workspace {
    pub id: String,
    pub name: String,
    /// Normalized directory path; `None` for a virtual workspace.
    pub path: Option<String>,
    pub created_at: u64,
    pub expanded: bool,
}

/// One row of the sidebar tree.
#[derive(Clone, Debug)]
pub enum TreeNode {
    PinnedWorkspace,
    RecentWorkspace,
    Workspace(usize),
    WorkspaceWarning(usize, String),
    ActiveTab(usize),
    Session(usize, usize),
    AgentHeader(Agent),
    ArchivedHeader,
    ArchivedSession(usize, usize),
}

/// Git branch / commit summary of a finished session's workspace.
#[derive(Clone, Debug)]
pub struct GitInfo {
    pub branch: Option<String>,
    pub commit: Option<String>,
    pub diff_stat: Option<String>,
}

/// Uncommitted changes of a finished session's workspace.
#[derive(Clone, Debug)]
pub struct DiffSummary {
    pub files_changed: Vec<String>,
    pub insertions: u32,
    pub deletions: u32,
    pub summary_line: Option<String>,
}

} // verus!
