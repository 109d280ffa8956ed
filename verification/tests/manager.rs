use shai_http::session::manager::{Resolution, SessionError, SessionManager, SessionManagerConfig};

fn manager_with(max_sessions: Option<usize>) -> SessionManager<u32> {
    SessionManager::new(SessionManagerConfig { max_sessions, ephemeral: false })
}

fn is_lower_hex(c: char) -> bool {
    c.is_ascii_digit() || ('a'..='f').contains(&c)
}

#[test]
fn default_config_allows_one_hundred_background_sessions() {
    let config = SessionManagerConfig::default();
    assert_eq!(config.max_sessions, Some(100));
    assert!(!config.ephemeral);
}

#[test]
fn new_manager_is_empty_and_keeps_the_policy() {
    let manager: SessionManager<u32> =
        SessionManager::new(SessionManagerConfig { max_sessions: Some(3), ephemeral: true });
    assert_eq!(manager.session_count(), 0);
    assert!(manager.ephemeral());
    assert!(!manager_with(None).ephemeral());
}

#[test]
fn unknown_identifier_is_created_then_reused() {
    let mut manager = manager_with(Some(100));
    assert!(matches!(manager.get_or_create_session("s1"), Ok(Resolution::Create)));
    assert!(manager.insert_session("s1".to_string(), 7).is_none());
    assert_eq!(manager.session_count(), 1);
    match manager.get_or_create_session("s1") {
        Ok(Resolution::Existing(session)) => assert_eq!(*session, 7),
        _ => panic!("the registered session is not found"),
    }
}

#[test]
fn many_requests_for_one_unknown_identifier_create_one_session() {
    let mut manager = manager_with(Some(10));
    let mut created = 0;
    let mut seen = Vec::new();
    for attempt in 0..5u32 {
        let (id, resolved) = manager.handle_request(Some("shared".to_string()));
        assert_eq!(id, "shared");
        match resolved {
            Ok(Resolution::Existing(session)) => seen.push(*session),
            Ok(Resolution::Create) => {
                created += 1;
                assert!(manager.insert_session(id, 100 + attempt).is_none());
                seen.push(100 + attempt);
            }
            Err(_) => panic!("the request is turned away"),
        }
    }
    assert_eq!(created, 1);
    assert_eq!(seen, vec![100, 100, 100, 100, 100]);
    assert_eq!(manager.session_count(), 1);
}

#[test]
fn a_failed_start_leaves_the_identifier_unknown() {
    let mut manager = manager_with(Some(10));
    assert!(matches!(manager.get_or_create_session("s1"), Ok(Resolution::Create)));
    // the agent instance does not start: nothing is registered
    assert_eq!(manager.session_count(), 0);
    assert!(matches!(manager.get_or_create_session("s1"), Ok(Resolution::Create)));
    assert!(manager.insert_session("s1".to_string(), 1).is_none());
    assert!(matches!(manager.get_or_create_session("s1"), Ok(Resolution::Existing(_))));
}

#[test]
fn capacity_turns_the_next_unknown_identifier_away() {
    let mut manager = manager_with(Some(3));
    for (n, id) in ["a", "b", "c"].iter().enumerate() {
        assert!(matches!(manager.get_or_create_session(id), Ok(Resolution::Create)));
        assert!(manager.insert_session(id.to_string(), n as u32).is_none());
    }
    assert_eq!(manager.session_count(), 3);
    match manager.get_or_create_session("d") {
        Err(SessionError::CapacityExceeded { max }) => assert_eq!(max, 3),
        _ => panic!("a fourth session is admitted"),
    }
    for (n, id) in ["a", "b", "c"].iter().enumerate() {
        match manager.get_or_create_session(id) {
            Ok(Resolution::Existing(session)) => assert_eq!(*session, n as u32),
            _ => panic!("a registered session is not found"),
        }
    }
    assert_eq!(manager.session_count(), 3);
}

#[test]
fn capacity_of_zero_admits_nothing() {
    let manager = manager_with(Some(0));
    match manager.get_or_create_session("a") {
        Err(SessionError::CapacityExceeded { max }) => assert_eq!(max, 0),
        _ => panic!("a session is admitted"),
    }
}

#[test]
fn no_capacity_means_no_bound() {
    let mut manager = manager_with(None);
    for n in 0..150u32 {
        let id = format!("s{}", n);
        assert!(matches!(manager.get_or_create_session(&id), Ok(Resolution::Create)));
        assert!(manager.insert_session(id, n).is_none());
    }
    assert_eq!(manager.session_count(), 150);
}

#[test]
fn closed_creation_turns_unknown_identifiers_away_and_keeps_known_ones() {
    let mut manager = manager_with(Some(1));
    assert!(manager.insert_session("known".to_string(), 5).is_none());
    manager.set_allow_creation(false);
    assert!(matches!(
        manager.get_or_create_session("unknown"),
        Err(SessionError::SessionCreationDisabled)
    ));
    match manager.get_or_create_session("known") {
        Ok(Resolution::Existing(session)) => assert_eq!(*session, 5),
        _ => panic!("the registered session is not found"),
    }
    assert_eq!(manager.session_count(), 1);
    manager.set_allow_creation(true);
    assert!(matches!(
        manager.get_or_create_session("unknown"),
        Err(SessionError::CapacityExceeded { max: 1 })
    ));
}

#[test]
fn insert_hands_the_session_back_where_it_is_not_admitted() {
    let mut manager = manager_with(Some(1));
    assert!(manager.insert_session("a".to_string(), 1).is_none());
    // the identifier is taken
    assert_eq!(manager.insert_session("a".to_string(), 2), Some(2));
    // the registry is full
    assert_eq!(manager.insert_session("b".to_string(), 3), Some(3));
    manager.remove_session("a");
    manager.set_allow_creation(false);
    // creation is forbidden
    assert_eq!(manager.insert_session("b".to_string(), 4), Some(4));
    assert_eq!(manager.session_count(), 0);
}

#[test]
fn removal_frees_the_identifier_and_the_room() {
    let mut manager = manager_with(Some(2));
    assert!(manager.insert_session("a".to_string(), 1).is_none());
    assert!(manager.insert_session("b".to_string(), 2).is_none());
    assert_eq!(manager.remove_session("a"), Some(1));
    assert_eq!(manager.remove_session("a"), None);
    assert_eq!(manager.session_count(), 1);
    assert!(matches!(manager.get_or_create_session("a"), Ok(Resolution::Create)));
    assert!(manager.insert_session("a".to_string(), 3).is_none());
    match manager.get_or_create_session("a") {
        Ok(Resolution::Existing(session)) => assert_eq!(*session, 3),
        _ => panic!("the new session is not found"),
    }
    match manager.get_or_create_session("b") {
        Ok(Resolution::Existing(session)) => assert_eq!(*session, 2),
        _ => panic!("the other session is lost"),
    }
}

#[test]
fn cancel_finds_the_session_or_nothing() {
    let mut manager = manager_with(None);
    assert!(manager.insert_session("a".to_string(), 9).is_none());
    assert_eq!(manager.cancel_session("a"), Some(&9));
    assert_eq!(manager.cancel_session("b"), None);
    assert_eq!(manager.session_count(), 1);
}

#[test]
fn a_request_without_identifier_gets_a_fresh_one() {
    let manager = manager_with(None);
    let (first, resolved) = manager.handle_request(None);
    assert!(matches!(resolved, Ok(Resolution::Create)));
    let (second, _) = manager.handle_request(None);
    assert_ne!(first, second);
    for id in [first, second] {
        let chars: Vec<char> = id.chars().collect();
        assert_eq!(chars.len(), 36);
        for (i, c) in chars.iter().enumerate() {
            if i == 8 || i == 13 || i == 18 || i == 23 {
                assert_eq!(*c, '-');
            } else {
                assert!(is_lower_hex(*c));
            }
        }
        assert_eq!(chars[14], '4');
        assert!(matches!(chars[19], '8' | '9' | 'a' | 'b'));
    }
}

#[test]
fn a_request_with_identifier_keeps_it() {
    let mut manager = manager_with(None);
    assert!(manager.insert_session("mine".to_string(), 1).is_none());
    let (id, resolved) = manager.handle_request(Some("mine".to_string()));
    assert_eq!(id, "mine");
    assert!(matches!(resolved, Ok(Resolution::Existing(&1))));
    let (id, resolved) = manager.handle_request(Some(String::new()));
    assert_eq!(id, "");
    assert!(matches!(resolved, Ok(Resolution::Create)));
}

#[test]
fn create_session_selects_the_profile() {
    let manager: SessionManager<u32> =
        SessionManager::new(SessionManagerConfig { max_sessions: None, ephemeral: true });
    let start = manager.create_session("s1", Some("coder".to_string()));
    assert_eq!(start.session_id, "s1");
    assert_eq!(start.agent_name, Some("coder".to_string()));
    assert!(start.ephemeral);
    let start = manager.create_session("s2", Some("default".to_string()));
    assert_eq!(start.agent_name, None);
    let start = manager.create_session("s3", None);
    assert_eq!(start.agent_name, None);
    let start = manager.create_session("s4", Some("Default".to_string()));
    assert_eq!(start.agent_name, Some("Default".to_string()));
    assert!(!manager_with(None).create_session("s5", None).ephemeral);
}

#[test]
fn errors_in_words() {
    assert_eq!(SessionError::SessionCreationDisabled.message(), "Session creation disabled");
    assert_eq!(
        SessionError::CapacityExceeded { max: 100 }.message(),
        "Maximum number of sessions reached: 100"
    );
    assert_eq!(
        SessionError::CapacityExceeded { max: 0 }.message(),
        "Maximum number of sessions reached: 0"
    );
    assert_eq!(
        SessionError::CapacityExceeded { max: 9079 }.message(),
        "Maximum number of sessions reached: 9079"
    );
    assert_eq!(
        SessionError::AgentCreationFailed { reason: "no such profile".to_string() }.message(),
        "Failed to create agent: no such profile"
    );
}
