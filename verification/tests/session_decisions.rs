use arena_harness::character::{Capability, CapabilitySet, CharacterSheet};
use arena_harness::mcp::session::{
    check_agent_identity, find_agent, next_tool_page, registration_request, settle_disconnect, sorted_tool_names,
    ReconnectSchedule, ReconnectStep, SessionError, SessionEvent, SessionState,
};
use arena_harness::mcp::transport::McpError;
use arena_harness::mcp::types::{DisconnectResult, RegisteredAgent};

fn guy() -> CharacterSheet {
    CharacterSheet {
        id: "guy".to_owned(),
        player_name: "Guy".to_owned(),
        registration_version: 1,
        class_path: None,
        home_scene: "reldens-town".to_owned(),
        persona: "A wanderer.".to_owned(),
        capabilities: CapabilitySet::from_list(&[Capability::Speak, Capability::Walk]),
        strategist_model: "provider/strategist".to_owned(),
        tactician_model: "provider/tactician".to_owned(),
        initial_goal: None,
        remembers: true,
    }
}

fn agent(id: &str, player_name: &str) -> RegisteredAgent {
    RegisteredAgent {
        id: id.to_owned(),
        agent_name: None,
        player_name: player_name.to_owned(),
        class_path: None,
        selected_scene: None,
    }
}

#[test]
fn registration_uses_stable_idempotency_key() {
    let registration = registration_request(&guy());
    assert_eq!(registration.idempotency_key, "npc-guy-v1");
    assert_eq!(registration.agent_name, "guy");
    assert_eq!(registration.player_name, "Guy");
    assert_eq!(registration.class_path, "journeyman");
    assert_eq!(registration.selected_scene, "reldens-town");

    let mut sorcerer = guy();
    sorcerer.class_path = Some("sorcerer".to_owned());
    sorcerer.registration_version = 12;
    let registration = registration_request(&sorcerer);
    assert_eq!(registration.class_path, "sorcerer");
    assert_eq!(registration.idempotency_key, "npc-guy-v12");
}

#[test]
fn reconnect_notifies_runtime_to_invalidate_decisions() {
    let mut state = SessionState::default();
    let first = state.finish_establish("guy", agent("agent-guy", "Guy"), false);
    assert_eq!(first, vec![SessionEvent::Connected { generation: 1, agent_id: "agent-guy".to_owned() }]);

    let events = state.finish_establish("guy", agent("agent-guy", "Guy"), true);
    assert_eq!(
        events,
        vec![
            SessionEvent::Reconnected { generation: 2, agent_id: "agent-guy".to_owned() },
            SessionEvent::DecisionsInvalidated { generation: 2, reason: "MCP session reconnected".to_owned() },
        ]
    );
    assert!(state.connected);
    assert_eq!(state.analytics_character_id.as_deref(), Some("guy"));

    assert_eq!(state.disconnect_target().as_deref(), Some("agent-guy"));
    assert_eq!(state.mark_disconnected(), SessionEvent::Disconnected { generation: 2 });
    assert!(!state.connected);
}

#[test]
fn an_existing_character_is_found_by_player_name() {
    let agents = vec![agent("a", "Other"), agent("agent-guy", "Guy"), agent("b", "Guy")];
    assert_eq!(find_agent(&agents, "Guy"), Some(1));
    assert_eq!(find_agent(&agents, "Nobody"), None);
    assert_eq!(find_agent(&Vec::new(), "Guy"), None);
}

#[test]
fn a_blank_agent_identity_is_refused() {
    assert_eq!(check_agent_identity(&agent("  ", "Guy")), Err(SessionError::MissingAgentIdentity));
    assert_eq!(check_agent_identity(&agent("agent-guy", "Guy")), Ok(()));
    assert_eq!(SessionError::MissingAgentIdentity.message(), "registration returned no usable agent identity");
    assert_eq!(SessionError::MissingAgentIdentity.class(), "missing_agent_identity");
}

#[test]
fn reconnect_backs_off_exponentially_up_to_eight_seconds_then_gives_up() {
    let mut schedule = ReconnectSchedule::new(5, 3_000);
    assert_eq!(schedule.attempt(), 1);
    assert_eq!(schedule.failed("e1".to_owned()), ReconnectStep::RetryAfter { delay_ms: 3_000 });
    assert_eq!(schedule.failed("e2".to_owned()), ReconnectStep::RetryAfter { delay_ms: 6_000 });
    assert_eq!(schedule.failed("e3".to_owned()), ReconnectStep::RetryAfter { delay_ms: 8_000 });
    assert_eq!(schedule.failed("e4".to_owned()), ReconnectStep::RetryAfter { delay_ms: 8_000 });
    assert_eq!(schedule.attempt(), 5);
    let last = schedule.failed("e5".to_owned());
    assert_eq!(
        last,
        ReconnectStep::Exhausted(SessionError::ReconnectExhausted { attempts: 5, last_error: "e5".to_owned() })
    );
    if let ReconnectStep::Exhausted(error) = last {
        assert_eq!(error.message(), "MCP reconnect failed after 5 attempts: e5");
        assert_eq!(error.class(), "reconnect_exhausted");
    }

    let mut once = ReconnectSchedule::new(0, 100);
    assert!(matches!(once.failed("only".to_owned()), ReconnectStep::Exhausted(_)));
}

#[test]
fn a_disconnect_of_an_already_lost_session_settles_without_a_result() {
    let lost = SessionError::Mcp(McpError::HttpStatus { status: 404, message: "gone".to_owned() });
    assert_eq!(settle_disconnect(Err(lost)), Ok(None));
    let refused = SessionError::Mcp(McpError::HttpStatus { status: 500, message: "boom".to_owned() });
    assert_eq!(settle_disconnect(Err(refused.clone())), Err(refused));
    let done = DisconnectResult { disconnected: Some(true), reason: None, message: None };
    assert_eq!(settle_disconnect(Ok(done.clone())), Ok(Some(done)));
}

#[test]
fn tool_names_are_paged_sorted_and_unique() {
    assert_eq!(next_tool_page(Some(String::new())), None);
    assert_eq!(next_tool_page(Some("page-2".to_owned())), Some("page-2".to_owned()));
    assert_eq!(next_tool_page(None), None);
    let names = vec!["arena_say".to_owned(), "arena_look".to_owned(), "arena_say".to_owned(), "arena_beta".to_owned()];
    assert_eq!(sorted_tool_names(&names), ["arena_beta", "arena_look", "arena_say"]);
}
