//! Session chains: named sequences of agent steps, where each step's prompt
//! may include the previous step's output via `{prev_output}`.

use vstd::prelude::*;
use crate::text::{decimal, push_decimal, push_str, replace_all, replace_str, str_eq, string_from_chars};
use crate::types::{agent_label_spec, Agent, Workspace};

verus! {

/// A single step in a session chain.
#[derive(Clone, Debug)]
pub struct ChainStep {
    pub agent: Agent,
    /// Prompt template. Use `{prev_output}` to inject the previous step's output.
    pub prompt: String,
}

/// A named chain of session steps that run sequentially.
#[derive(Clone, Debug)]
pub struct SessionChain {
    pub name: String,
    pub steps: Vec<ChainStep>,
}

/// Runtime state for an actively executing chain.
#[derive(Clone, Debug)]
pub struct ActiveChain {
    pub chain_name: String,
    pub current_step: usize,
    pub total_steps: usize,
    pub workspace_path: String,
    /// Extracted output from the previous step, substituted into `{prev_output}`.
    pub prev_output: Option<String>,
}

/// The placeholder a step prompt uses for the previous step's output.
pub open spec fn placeholder() -> Seq<char> {
    "{prev_output}"@
}

/// The prompt with every `{prev_output}` replaced by `output`.
pub fn substitute_prev_output(prompt: &str, output: &str) -> (r: String)
    ensures
        r@ == replace_all(prompt@, placeholder(), output@),
{
    replace_str(prompt, "{prev_output}", output)
}

/// What happens when the running step of a chain completes.
#[derive(Clone, Debug)]
pub enum ChainAdvance {
    /// Run the next step with this state.
    Next(ActiveChain),
    /// That was the last step.
    Completed,
}

/// Advances a chain after its current step finished, carrying that step's
/// output to the next one.
pub fn advance_chain(chain: &ActiveChain, output: Option<String>) -> (r: ChainAdvance)
    requires
        chain.current_step < usize::MAX,
    ensures
        chain.current_step + 1 < chain.total_steps <==> r is Next,
        r matches ChainAdvance::Next(c) ==> {
            &&& c.current_step == chain.current_step + 1
            &&& c.total_steps == chain.total_steps
            &&& c.chain_name@ == chain.chain_name@
            &&& c.workspace_path@ == chain.workspace_path@
            &&& c.prev_output == output
        },
{
    if chain.current_step + 1 < chain.total_steps {
        ChainAdvance::Next(ActiveChain {
            chain_name: chain.chain_name.clone(),
            current_step: chain.current_step + 1,
            total_steps: chain.total_steps,
            workspace_path: chain.workspace_path.clone(),
            prev_output: output,
        })
    } else {
        ChainAdvance::Completed
    }
}

/// The number of steps left to run after the current one, ending with completion.
pub open spec fn steps_after(c: (nat, nat)) -> nat {
    if c.0 + 1 < c.1 { (c.1 - c.0 - 1) as nat } else { 0 }
}

/// A chain of `n` steps started at step 0 advances `n - 1` times (through
/// steps 1, …, n-1) and then completes: advancing from step `k` yields step
/// `k + 1` exactly while `k + 1 < n`.
pub proof fn lemma_chain_runs_every_step(n: nat, k: nat)
    requires
        k < n,
    ensures
        (k + 1 < n) <==> (steps_after((k, n)) > 0),
        k + 1 < n ==> steps_after((k + 1, n)) == steps_after((k, n)) - 1,
        steps_after((0, n)) == n - 1,
{
}

/// `name-stepN`: the session name given to step `n` of a chain.
pub fn step_session_name(chain_name: &str, step_num: u64) -> (s: String)
    ensures
        s@ == chain_name@ + "-step"@ + decimal(step_num as nat),
{
    proof { reveal_strlit("-step"); }
    let mut v: Vec<char> = Vec::new();
    push_str(&mut v, chain_name);
    push_str(&mut v, "-step");
    push_decimal(&mut v, step_num);
    string_from_chars(&v)
}

/// `name [N/T]`: the tab title of step `n` of `total`.
pub fn step_tab_title(chain_name: &str, step_num: u64, total: u64) -> (s: String)
    ensures
        s@ == chain_name@ + " ["@ + decimal(step_num as nat) + "/"@ + decimal(total as nat) + "]"@,
{
    proof { reveal_strlit(" ["); reveal_strlit("/"); reveal_strlit("]"); }
    let mut v: Vec<char> = Vec::new();
    push_str(&mut v, chain_name);
    push_str(&mut v, " [");
    push_decimal(&mut v, step_num);
    push_str(&mut v, "/");
    push_decimal(&mut v, total);
    push_str(&mut v, "]");
    string_from_chars(&v)
}

/// Status line shown when a chain step starts.
pub fn step_status(chain_name: &str, step_num: u64, total: u64, agent: Agent) -> (s: String)
    ensures
        s@ == "Chain '"@ + chain_name@ + "': Step "@ + decimal(step_num as nat) + "/"@ + decimal(total as nat) + " — "@ + agent_label_spec(agent),
{
    proof { reveal_strlit("Chain '"); reveal_strlit("': Step "); reveal_strlit("/"); reveal_strlit(" — "); }
    let mut v: Vec<char> = Vec::new();
    push_str(&mut v, "Chain '");
    push_str(&mut v, chain_name);
    push_str(&mut v, "': Step ");
    push_decimal(&mut v, step_num);
    push_str(&mut v, "/");
    push_decimal(&mut v, total);
    push_str(&mut v, " — ");
    push_str(&mut v, agent.label());
    string_from_chars(&v)
}

/// Status line shown when a chain has run all its steps.
pub fn completion_status(chain_name: &str, total: u64) -> (s: String)
    ensures
        s@ == "Chain '"@ + chain_name@ + "' complete ("@ + decimal(total as nat) + " steps)"@,
{
    proof { reveal_strlit("Chain '"); reveal_strlit("' complete ("); reveal_strlit(" steps)"); }
    let mut v: Vec<char> = Vec::new();
    push_str(&mut v, "Chain '");
    push_str(&mut v, chain_name);
    push_str(&mut v, "' complete (");
    push_decimal(&mut v, total);
    push_str(&mut v, " steps)");
    string_from_chars(&v)
}

/// Index of the first workspace whose path is exactly `path`.
pub open spec fn ws_with_path(wss: Seq<Workspace>, path: Seq<char>, i: int) -> bool {
    &&& 0 <= i < wss.len()
    &&& wss[i].path matches Some(p) && p@ == path
    &&& forall|j: int| 0 <= j < i ==> !((#[trigger] wss[j]).path matches Some(p) && p@ == path)
}

/// Finds the first workspace whose path is exactly `path`.
pub fn find_workspace_by_path(wss: &Vec<Workspace>, path: &str) -> (r: Option<usize>)
    ensures
        match r {
            Some(i) => ws_with_path(wss@, path@, i as int),
            None => forall|j: int| 0 <= j < wss.len() ==> !((#[trigger] wss@[j]).path matches Some(p) && p@ == path@),
        },
{
    let mut i: usize = 0;
    while i < wss.len()
        invariant
            i <= wss.len(),
            forall|j: int| 0 <= j < i ==> !((#[trigger] wss@[j]).path matches Some(p) && p@ == path@),
        decreases wss.len() - i,
    {
        match &wss[i].path {
            Some(p) => {
                if str_eq(p.as_str(), path) {
                    return Some(i);
                }
            },
            None => {},
        }
        i = i + 1;
    }
    None
}

/// Index of the first chain called `name`.
pub open spec fn chain_named(chains: Seq<SessionChain>, name: Seq<char>, i: int) -> bool {
    &&& 0 <= i < chains.len()
    &&& chains[i].name@ == name
    &&& forall|j: int| 0 <= j < i ==> (#[trigger] chains[j]).name@ != name
}

/// Finds the configuration of the chain called `name`.
pub fn find_chain(chains: &Vec<SessionChain>, name: &str) -> (r: Option<usize>)
    ensures
        match r {
            Some(i) => chain_named(chains@, name@, i as int),
            None => forall|j: int| 0 <= j < chains.len() ==> (#[trigger] chains@[j]).name@ != name@,
        },
{
    let mut i: usize = 0;
    while i < chains.len()
        invariant
            i <= chains.len(),
            forall|j: int| 0 <= j < i ==> (#[trigger] chains@[j]).name@ != name@,
        decreases chains.len() - i,
    {
        if str_eq(chains[i].name.as_str(), name) {
            return Some(i);
        }
        i = i + 1;
    }
    None
}

/// A step the caller should launch: in workspace `ws_index`, running `agent`
/// with `prompt`, named and titled as shown.
#[derive(Clone, Debug)]
pub struct StepLaunch {
    pub ws_index: usize,
    pub agent: Agent,
    pub prompt: String,
    pub session_name: String,
    pub tab_title: String,
    pub status: String,
}

/// The next action of the chain runner after a step finished.
#[derive(Clone, Debug)]
pub enum ChainPlan {
    /// Nothing to do (no chain step pending).
    Idle,
    /// The chain finished; show this status (if any) and drop the chain.
    Finished(Option<String>),
    /// The chain cannot continue (its configuration, workspace or step is
    /// gone); drop it.
    Abort,
    /// Launch the next step and keep the updated chain state.
    Launch(ActiveChain, StepLaunch),
}

/// Decides what to do after a chain step completed: finish, abort, or
/// launch the next step with `{prev_output}` replaced by the previous output
/// (empty when there is none).
pub fn plan_chain_step(
    chains: &Vec<SessionChain>,
    workspaces: &Vec<Workspace>,
    active: &Option<ActiveChain>,
    next: Option<ActiveChain>,
    completed: bool,
) -> (r: ChainPlan)
    ensures
        completed ==> match r {
            ChainPlan::Finished(msg) => match *active {
                Some(a) => msg matches Some(m) && m@ == "Chain '"@ + a.chain_name@ + "' complete ("@ + decimal(a.total_steps as nat) + " steps)"@,
                None => msg is None,
            },
            _ => false,
        },
        !completed ==> match next {
          None => r is Idle,
          Some(u) => match r {
            ChainPlan::Launch(c, l) => {
                exists|ci: int, wi: int| {
                    &&& chain_named(chains@, u.chain_name@, ci)
                    &&& ws_with_path(workspaces@, u.workspace_path@, wi)
                    &&& u.current_step < chains@[ci].steps.len()
                    &&& l.ws_index == wi
                    &&& l.agent == chains@[ci].steps@[u.current_step as int].agent
                    &&& l.prompt@ == replace_all(chains@[ci].steps@[u.current_step as int].prompt@, placeholder(),
                            match u.prev_output { Some(o) => o@, None => Seq::<char>::empty() })
                    &&& l.session_name@ == u.chain_name@ + "-step"@ + decimal(u.current_step as nat + 1)
                    &&& l.tab_title@ == u.chain_name@ + " ["@ + decimal(u.current_step as nat + 1) + "/"@ + decimal(u.total_steps as nat) + "]"@
                    &&& l.status@ == "Chain '"@ + u.chain_name@ + "': Step "@ + decimal(u.current_step as nat + 1) + "/"@ + decimal(u.total_steps as nat) + " — "@ + agent_label_spec(l.agent)
                }
                && c == u
            },
            ChainPlan::Abort => {
                ||| forall|j: int| 0 <= j < chains.len() ==> (#[trigger] chains@[j]).name@ != u.chain_name@
                ||| forall|j: int| 0 <= j < workspaces.len() ==> !((#[trigger] workspaces@[j]).path matches Some(p) && p@ == u.workspace_path@)
                ||| exists|ci: int| chain_named(chains@, u.chain_name@, ci) && u.current_step >= chains@[ci].steps.len()
            },
            _ => false,
          },
        },
{
    if completed {
        let msg = match active {
            Some(a) => Some(completion_status(a.chain_name.as_str(), a.total_steps as u64)),
            None => None,
        };
        return ChainPlan::Finished(msg);
    }
    let Some(updated) = next else { return ChainPlan::Idle; };
    let Some(ci) = find_chain(chains, updated.chain_name.as_str()) else { return ChainPlan::Abort; };
    let Some(wi) = find_workspace_by_path(workspaces, updated.workspace_path.as_str()) else { return ChainPlan::Abort; };
    let chain = &chains[ci];
    if updated.current_step >= chain.steps.len() {
        return ChainPlan::Abort;
    }
    let step = &chain.steps[updated.current_step];
    let prompt = match &updated.prev_output {
        Some(o) => substitute_prev_output(step.prompt.as_str(), o.as_str()),
        None => {
            proof { reveal_strlit(""); assert(""@ =~= Seq::<char>::empty()); }
            substitute_prev_output(step.prompt.as_str(), "")
        },
    };
    let step_num = updated.current_step as u64 + 1;
    let total = updated.total_steps as u64;
    let launch = StepLaunch {
        ws_index: wi,
        agent: step.agent,
        prompt,
        session_name: step_session_name(updated.chain_name.as_str(), step_num),
        tab_title: step_tab_title(updated.chain_name.as_str(), step_num, total),
        status: step_status(updated.chain_name.as_str(), step_num, total, step.agent),
    };
    proof {
        assert(chain_named(chains@, updated.chain_name@, ci as int));
        assert(ws_with_path(workspaces@, updated.workspace_path@, wi as int));
    }
    ChainPlan::Launch(updated, launch)
}

} // verus!
