use amux::search::search_sessions;
use amux::types::{Agent, Session};

fn session(id: &str, title: &str, last: Option<&str>) -> Session {
    Session {
        id: id.into(),
        workspace_path: "/w".into(),
        title: title.into(),
        last_active: 0,
        agent: Agent::Omp,
        tags: Vec::new(),
        pinned: false,
        last_message: last.map(|s| s.into()),
    }
}

#[test]
fn search_matches_title_or_last_message_ignoring_case() {
    let sessions = vec![
        session("a", "Fix Login Bug", None),
        session("b", "refactor", Some("the LOGIN form is done")),
        session("c", "docs", Some("nothing here")),
    ];
    assert_eq!(search_sessions(&sessions, "login"), vec!["a".to_string(), "b".to_string()]);
    assert_eq!(search_sessions(&sessions, "DOCS"), vec!["c".to_string()]);
    assert_eq!(search_sessions(&sessions, "missing"), Vec::<String>::new());
}

#[test]
fn empty_query_matches_every_session() {
    let sessions = vec![session("a", "x", None), session("b", "y", None)];
    assert_eq!(search_sessions(&sessions, ""), vec!["a".to_string(), "b".to_string()]);
}
