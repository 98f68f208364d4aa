//! Activity statistics per agent: how many sessions each has, and how many
//! of its tabs are running or finished.

use vstd::prelude::*;
use crate::sidebar::ActiveTab;
use crate::types::{Agent, Session};

verus! {

/// The activity of one agent.
#[derive(Clone, Copy, Debug, PartialEq, Eq)]
pub struct AgentStats {
    pub agent: Agent,
    pub total_sessions: usize,
    pub active_sessions: usize,
    pub completed_sessions: usize,
}

/// The number of sessions among the first `n` that use agent `a`.
pub open spec fn count_sessions(ss: Seq<Session>, a: Agent, n: nat) -> nat
    decreases n,
{
    if n == 0 {
        0
    } else {
        count_sessions(ss, a, (n - 1) as nat) + (if ss[n - 1].agent == a { 1nat } else { 0nat })
    }
}

/// The number of tabs among the first `n` that run agent `a` and whose
/// completion flag is `done`.
pub open spec fn count_tabs(tabs: Seq<ActiveTab>, completed: Seq<bool>, a: Agent, done: bool, n: nat) -> nat
    decreases n,
{
    if n == 0 {
        0
    } else {
        count_tabs(tabs, completed, a, done, (n - 1) as nat)
            + (if tabs[n - 1].agent == a && completed[n - 1] == done { 1nat } else { 0nat })
    }
}

/// The agents of the first `n` sessions that are not in `avail`, each
/// once, in the order they first appear.
pub open spec fn extra_agents(avail: Seq<Agent>, ss: Seq<Session>, n: nat) -> Seq<Agent>
    decreases n,
{
    if n == 0 {
        Seq::empty()
    } else {
        let prev = extra_agents(avail, ss, (n - 1) as nat);
        let a = ss[n - 1].agent;
        if avail.contains(a) || prev.contains(a) { prev } else { prev.push(a) }
    }
}

/// One row per available agent, with its sessions and its running and
/// finished tabs; then one row per other agent that has sessions, with its
/// sessions only.
pub open spec fn agent_stats_spec(avail: Seq<Agent>, ss: Seq<Session>, tabs: Seq<ActiveTab>, completed: Seq<bool>) -> Seq<(Agent, nat, nat, nat)> {
    avail.map_values(|a: Agent| (a, count_sessions(ss, a, ss.len()), count_tabs(tabs, completed, a, false, tabs.len()),
        count_tabs(tabs, completed, a, true, tabs.len())))
        + extra_agents(avail, ss, ss.len()).map_values(|a: Agent| (a, count_sessions(ss, a, ss.len()), 0nat, 0nat))
}

/// The mathematical form of a row.
pub open spec fn stats_view(v: Seq<AgentStats>) -> Seq<(Agent, nat, nat, nat)> {
    v.map_values(|s: AgentStats| (s.agent, s.total_sessions as nat, s.active_sessions as nat, s.completed_sessions as nat))
}

/// The sum of the session counts of the rows.
pub open spec fn total_of(rows: Seq<(Agent, nat, nat, nat)>) -> nat
    decreases rows.len(),
{
    if rows.len() == 0 { 0 } else { total_of(rows.drop_last()) + rows.last().1 }
}

/// No agent occurs twice.
pub open spec fn distinct_agents(l: Seq<Agent>) -> bool {
    forall|i: int, j: int| 0 <= i < j < l.len() ==> l[i] != l[j]
}

/// The number of the first `n` sessions whose agent is in `l`.
spec fn count_in(ss: Seq<Session>, l: Seq<Agent>, n: nat) -> nat
    decreases n,
{
    if n == 0 { 0 } else { count_in(ss, l, (n - 1) as nat) + (if l.contains(ss[n - 1].agent) { 1nat } else { 0nat }) }
}

/// The session counts of the first `n` sessions, summed over the agents of `l`.
spec fn sum_counts(ss: Seq<Session>, l: Seq<Agent>, n: nat) -> nat
    decreases l.len(),
{
    if l.len() == 0 { 0 } else { sum_counts(ss, l.drop_last(), n) + count_sessions(ss, l.last(), n) }
}

/// How many entries of `l` are `x`.
spec fn occurrences(l: Seq<Agent>, x: Agent) -> nat
    decreases l.len(),
{
    if l.len() == 0 { 0 } else { occurrences(l.drop_last(), x) + (if l.last() == x { 1nat } else { 0nat }) }
}

proof fn lemma_occurrences_distinct(l: Seq<Agent>, x: Agent)
    requires
        distinct_agents(l),
    ensures
        occurrences(l, x) == (if l.contains(x) { 1nat } else { 0nat }),
    decreases l.len(),
{
    if l.len() > 0 {
        let p = l.drop_last();
        assert(distinct_agents(p));
        lemma_occurrences_distinct(p, x);
        if l.last() == x {
            assert(!p.contains(x)) by {
                if p.contains(x) {
                    let k = choose|k: int| 0 <= k < p.len() && p[k] == x;
                    assert(l[k] == l[l.len() - 1]);
                }
            }
            assert(l.contains(x)) by { assert(l[l.len() - 1] == x); }
        } else {
            assert(l.contains(x) == p.contains(x)) by {
                if l.contains(x) {
                    let k = choose|k: int| 0 <= k < l.len() && l[k] == x;
                    assert(k < l.len() - 1);
                    assert(p[k] == x);
                }
                if p.contains(x) {
                    let k = choose|k: int| 0 <= k < p.len() && p[k] == x;
                    assert(l[k] == x);
                }
            }
        }
    }
}

proof fn lemma_sum_counts_step(ss: Seq<Session>, l: Seq<Agent>, n: nat)
    requires
        n > 0,
    ensures
        sum_counts(ss, l, n) == sum_counts(ss, l, (n - 1) as nat) + occurrences(l, ss[n - 1].agent),
    decreases l.len(),
{
    if l.len() > 0 {
        lemma_sum_counts_step(ss, l.drop_last(), n);
    }
}

proof fn lemma_sum_counts_is_count_in(ss: Seq<Session>, l: Seq<Agent>, n: nat)
    requires
        distinct_agents(l),
    ensures
        sum_counts(ss, l, n) == count_in(ss, l, n),
    decreases n,
{
    if n > 0 {
        lemma_sum_counts_is_count_in(ss, l, (n - 1) as nat);
        lemma_sum_counts_step(ss, l, n);
        lemma_occurrences_distinct(l, ss[n - 1].agent);
    } else {
        lemma_sum_counts_zero(ss, l);
    }
}

proof fn lemma_sum_counts_zero(ss: Seq<Session>, l: Seq<Agent>)
    ensures
        sum_counts(ss, l, 0) == 0,
    decreases l.len(),
{
    if l.len() > 0 {
        lemma_sum_counts_zero(ss, l.drop_last());
    }
}

proof fn lemma_total_concat(a: Seq<(Agent, nat, nat, nat)>, b: Seq<(Agent, nat, nat, nat)>)
    ensures
        total_of(a + b) == total_of(a) + total_of(b),
    decreases b.len(),
{
    if b.len() > 0 {
        lemma_total_concat(a, b.drop_last());
        assert((a + b).drop_last() =~= a + b.drop_last());
    } else {
        assert(a + b =~= a);
    }
}

proof fn lemma_total_of_rows(ss: Seq<Session>, l: Seq<Agent>, f: spec_fn(Agent) -> (Agent, nat, nat, nat))
    requires
        forall|a: Agent| (#[trigger] f(a)).1 == count_sessions(ss, a, ss.len()),
    ensures
        total_of(l.map_values(f)) == sum_counts(ss, l, ss.len()),
    decreases l.len(),
{
    if l.len() > 0 {
        lemma_total_of_rows(ss, l.drop_last(), f);
        assert(l.map_values(f).drop_last() =~= l.drop_last().map_values(f));
    } else {
        assert(l.map_values(f).len() == 0);
    }
}

proof fn lemma_extras_props(avail: Seq<Agent>, ss: Seq<Session>, n: nat)
    requires
        n <= ss.len(),
    ensures
        distinct_agents(extra_agents(avail, ss, n)),
        forall|a: Agent| extra_agents(avail, ss, n).contains(a) ==> !avail.contains(a),
        forall|i: int| 0 <= i < n ==> avail.contains(ss[i].agent) || extra_agents(avail, ss, n).contains(#[trigger] ss[i].agent),
    decreases n,
{
    if n > 0 {
        let prev = extra_agents(avail, ss, (n - 1) as nat);
        lemma_extras_props(avail, ss, (n - 1) as nat);
        let a = ss[n - 1].agent;
        let cur = extra_agents(avail, ss, n);
        if !(avail.contains(a) || prev.contains(a)) {
            assert(cur == prev.push(a));
            assert forall|b: Agent| cur.contains(b) implies !avail.contains(b) by {
                if b != a {
                    let k = choose|k: int| 0 <= k < cur.len() && cur[k] == b;
                    assert(prev[k] == b);
                }
            }
            assert forall|i: int| 0 <= i < n implies avail.contains(ss[i].agent) || cur.contains(#[trigger] ss[i].agent) by {
                if i < n - 1 && prev.contains(ss[i].agent) {
                    let k = choose|k: int| 0 <= k < prev.len() && prev[k] == ss[i].agent;
                    assert(cur[k] == ss[i].agent);
                } else if i == n - 1 {
                    assert(cur[cur.len() - 1] == a);
                }
            }
            assert forall|i: int, j: int| 0 <= i < j < cur.len() implies cur[i] != cur[j] by {
                if j == cur.len() - 1 {
                    if cur[i] == a {
                        assert(prev[i] == a);
                    }
                }
            }
        }
    }
}

proof fn lemma_split_count(ss: Seq<Session>, avail: Seq<Agent>, extras: Seq<Agent>, n: nat)
    requires
        n <= ss.len(),
        forall|a: Agent| extras.contains(a) ==> !avail.contains(a),
        forall|i: int| 0 <= i < ss.len() ==> avail.contains(ss[i].agent) || extras.contains(#[trigger] ss[i].agent),
    ensures
        count_in(ss, avail, n) + count_in(ss, extras, n) == n,
    decreases n,
{
    if n > 0 {
        lemma_split_count(ss, avail, extras, (n - 1) as nat);
        let x = ss[n - 1].agent;
        assert(avail.contains(x) || extras.contains(x));
    }
}

/// Every session is counted in exactly one row: with no agent available
/// twice, the rows' session counts add up to the number of sessions.
pub proof fn lemma_stats_count_every_session(avail: Seq<Agent>, ss: Seq<Session>, tabs: Seq<ActiveTab>, completed: Seq<bool>)
    requires
        distinct_agents(avail),
    ensures
        total_of(agent_stats_spec(avail, ss, tabs, completed)) == ss.len(),
{
    let n = ss.len();
    let extras = extra_agents(avail, ss, n);
    let f = |a: Agent| (a, count_sessions(ss, a, ss.len()), count_tabs(tabs, completed, a, false, tabs.len()),
        count_tabs(tabs, completed, a, true, tabs.len()));
    let g = |a: Agent| (a, count_sessions(ss, a, ss.len()), 0nat, 0nat);
    assert(agent_stats_spec(avail, ss, tabs, completed) == avail.map_values(f) + extras.map_values(g));
    lemma_total_concat(avail.map_values(f), extras.map_values(g));
    lemma_total_of_rows(ss, avail, f);
    lemma_total_of_rows(ss, extras, g);
    lemma_extras_props(avail, ss, n);
    lemma_sum_counts_is_count_in(ss, avail, n);
    lemma_sum_counts_is_count_in(ss, extras, n);
    lemma_split_count(ss, avail, extras, n);
}

proof fn lemma_count_sessions_bound(ss: Seq<Session>, a: Agent, n: nat)
    ensures
        count_sessions(ss, a, n) <= n,
    decreases n,
{
    if n > 0 {
        lemma_count_sessions_bound(ss, a, (n - 1) as nat);
    }
}

proof fn lemma_count_tabs_bound(tabs: Seq<ActiveTab>, completed: Seq<bool>, a: Agent, done: bool, n: nat)
    ensures
        count_tabs(tabs, completed, a, done, n) <= n,
    decreases n,
{
    if n > 0 {
        lemma_count_tabs_bound(tabs, completed, a, done, (n - 1) as nat);
    }
}

fn count_sessions_exec(ss: &Vec<Session>, a: Agent) -> (r: usize)
    ensures
        r as nat == count_sessions(ss@, a, ss.len() as nat),
{
    let mut c: usize = 0;
    let mut i: usize = 0;
    while i < ss.len()
        invariant
            i <= ss.len(),
            c as nat == count_sessions(ss@, a, i as nat),
        decreases ss.len() - i,
    {
        proof { lemma_count_sessions_bound(ss@, a, i as nat); }
        if ss[i].agent == a {
            c = c + 1;
        }
        i = i + 1;
    }
    c
}

fn count_tabs_exec(tabs: &Vec<ActiveTab>, completed: &Vec<bool>, a: Agent, done: bool) -> (r: usize)
    requires
        completed.len() == tabs.len(),
    ensures
        r as nat == count_tabs(tabs@, completed@, a, done, tabs.len() as nat),
{
    let mut c: usize = 0;
    let mut i: usize = 0;
    while i < tabs.len()
        invariant
            i <= tabs.len(),
            completed.len() == tabs.len(),
            c as nat == count_tabs(tabs@, completed@, a, done, i as nat),
        decreases tabs.len() - i,
    {
        proof { lemma_count_tabs_bound(tabs@, completed@, a, done, i as nat); }
        if tabs[i].agent == a && completed[i] == done {
            c = c + 1;
        }
        i = i + 1;
    }
    c
}

fn agent_in(v: &Vec<Agent>, a: Agent) -> (r: bool)
    ensures
        r == v@.contains(a),
{
    let mut i: usize = 0;
    while i < v.len()
        invariant
            i <= v.len(),
            forall|j: int| 0 <= j < i ==> v@[j] != a,
        decreases v.len() - i,
    {
        if v[i] == a {
            return true;
        }
        i = i + 1;
    }
    false
}

/// The activity statistics: a row for each available agent (sessions,
/// running tabs, finished tabs; `completed[i]` tells whether tab `i` has
/// finished), then a row for each other agent that has sessions, in the
/// order its first session appears.
pub fn agent_stats(available: &Vec<Agent>, sessions: &Vec<Session>, tabs: &Vec<ActiveTab>, completed: &Vec<bool>) -> (r: Vec<AgentStats>)
    requires
        completed.len() == tabs.len(),
    ensures
        stats_view(r@) == agent_stats_spec(available@, sessions@, tabs@, completed@),
{
    let mut out: Vec<AgentStats> = Vec::new();
    let mut i: usize = 0;
    while i < available.len()
        invariant
            i <= available.len(),
            completed.len() == tabs.len(),
            stats_view(out@) == agent_stats_spec(available@, sessions@, tabs@, completed@).take(i as int),
        decreases available.len() - i,
    {
        let a = available[i];
        let total = count_sessions_exec(sessions, a);
        let active = count_tabs_exec(tabs, completed, a, false);
        let done = count_tabs_exec(tabs, completed, a, true);
        let ghost before = stats_view(out@);
        out.push(AgentStats { agent: a, total_sessions: total, active_sessions: active, completed_sessions: done });
        proof {
            let sp = agent_stats_spec(available@, sessions@, tabs@, completed@);
            let head = available@.map_values(|a: Agent| (a, count_sessions(sessions@, a, sessions@.len()), count_tabs(tabs@, completed@, a, false, tabs@.len()),
                count_tabs(tabs@, completed@, a, true, tabs@.len())));
            assert(sp[i as int] == head[i as int]);
            assert(stats_view(out@) =~= before.push(sp[i as int]));
            assert(sp.take(i + 1) =~= sp.take(i as int).push(sp[i as int]));
        }
        i = i + 1;
    }
    let ghost base = stats_view(out@);
    let mut extras: Vec<Agent> = Vec::new();
    let mut k: usize = 0;
    while k < sessions.len()
        invariant
            k <= sessions.len(),
            extras@ == extra_agents(available@, sessions@, k as nat),
        decreases sessions.len() - k,
    {
        let a = sessions[k].agent;
        if !agent_in(available, a) && !agent_in(&extras, a) {
            extras.push(a);
        }
        k = k + 1;
    }
    let mut j: usize = 0;
    while j < extras.len()
        invariant
            j <= extras.len(),
            extras@ == extra_agents(available@, sessions@, sessions.len() as nat),
            stats_view(out@) == base + extras@.take(j as int).map_values(|a: Agent| (a, count_sessions(sessions@, a, sessions.len() as nat), 0nat, 0nat)),
        decreases extras.len() - j,
    {
        let a = extras[j];
        let total = count_sessions_exec(sessions, a);
        let ghost before = stats_view(out@);
        out.push(AgentStats { agent: a, total_sessions: total, active_sessions: 0, completed_sessions: 0 });
        proof {
            let f = |a: Agent| (a, count_sessions(sessions@, a, sessions.len() as nat), 0nat, 0nat);
            assert(extras@.take(j + 1).map_values(f) =~= extras@.take(j as int).map_values(f).push(f(a)));
            assert(stats_view(out@) =~= before.push(f(a)));
            assert(stats_view(out@) =~= base + extras@.take(j + 1).map_values(f));
        }
        j = j + 1;
    }
    proof {
        let sp = agent_stats_spec(available@, sessions@, tabs@, completed@);
        let head = available@.map_values(|a: Agent| (a, count_sessions(sessions@, a, sessions@.len()), count_tabs(tabs@, completed@, a, false, tabs@.len()),
            count_tabs(tabs@, completed@, a, true, tabs@.len())));
        let tail = extras@.map_values(|a: Agent| (a, count_sessions(sessions@, a, sessions.len() as nat), 0nat, 0nat));
        assert(extras@.take(extras.len() as int) =~= extras@);
        assert(sp == head + tail);
        assert(base =~= head);
        assert(stats_view(out@) =~= sp);
    }
    out
}

} // verus!
