use amux::sidebar::ActiveTab;
use amux::stats::{agent_stats, AgentStats};
use amux::types::{Agent, Session};

fn session(id: &str, agent: Agent) -> Session {
    Session {
        id: id.into(),
        workspace_path: "/w".into(),
        title: id.into(),
        last_active: 0,
        agent,
        tags: Vec::new(),
        pinned: false,
        last_message: None,
    }
}

fn tab(agent: Agent) -> ActiveTab {
    ActiveTab { workspace_path: "/w".into(), session_id: None, agent, title: "t".into() }
}

fn row(agent: Agent, total: usize, active: usize, done: usize) -> AgentStats {
    AgentStats { agent, total_sessions: total, active_sessions: active, completed_sessions: done }
}

#[test]
fn rows_for_available_agents_count_sessions_and_tabs() {
    let sessions = vec![session("a", Agent::Cc), session("b", Agent::Codex), session("c", Agent::Cc)];
    let tabs = vec![tab(Agent::Cc), tab(Agent::Cc), tab(Agent::Codex)];
    let completed = vec![false, true, true];
    let r = agent_stats(&vec![Agent::Cc, Agent::Codex], &sessions, &tabs, &completed);
    assert_eq!(r, vec![row(Agent::Cc, 2, 1, 1), row(Agent::Codex, 1, 0, 1)]);
}

#[test]
fn other_agents_get_rows_in_order_of_first_session() {
    let sessions = vec![
        session("a", Agent::Omp),
        session("b", Agent::Cc),
        session("c", Agent::Gsd),
        session("d", Agent::Omp),
    ];
    let r = agent_stats(&vec![Agent::Cc], &sessions, &Vec::new(), &Vec::new());
    assert_eq!(r, vec![row(Agent::Cc, 1, 0, 0), row(Agent::Omp, 2, 0, 0), row(Agent::Gsd, 1, 0, 0)]);
}

#[test]
fn no_agents_and_no_sessions_give_no_rows() {
    assert_eq!(agent_stats(&Vec::new(), &Vec::new(), &Vec::new(), &Vec::new()), Vec::<AgentStats>::new());
    let r = agent_stats(&vec![Agent::Codex], &Vec::new(), &vec![tab(Agent::Cc)], &vec![false]);
    assert_eq!(r, vec![row(Agent::Codex, 0, 0, 0)]);
}

#[test]
fn row_totals_add_up_to_the_session_count() {
    let sessions = vec![
        session("a", Agent::Omp),
        session("b", Agent::Cc),
        session("c", Agent::Gsd),
        session("d", Agent::Omp),
        session("e", Agent::Codex),
    ];
    let r = agent_stats(&vec![Agent::Codex, Agent::Cc], &sessions, &Vec::new(), &Vec::new());
    let total: usize = r.iter().map(|s| s.total_sessions).sum();
    assert_eq!(total, sessions.len());
}
