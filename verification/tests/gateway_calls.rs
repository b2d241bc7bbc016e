use arena_harness::character::{Capability, CapabilitySet};
use arena_harness::execution::gateway::{
    BodyCommand, BodySpeechChannel, ExecutionContext, GatewayError, GatewayStep, ToolReply,
};
use arena_harness::mcp::client::{
    complete_melody_result, melody_note_count, ArenaGateway, ArgumentValue, PreparedToolCall,
};
use arena_harness::mcp::events::{
    call_finished_event, call_requested_event, chat_finished_event, chat_requested_event, melody_finished_event,
    melody_requested_event, EventFact, GatewayEvent,
};
use arena_harness::mcp::tools;
use arena_harness::mcp::types::{
    ChatChannel, MoveResult, PathResult, SayResult, CombatTarget, HistoryQuery, MelodyInstrument, MoveDirection, PlayMelodyResult, TacticsMode, TacticsStyle,
    TradeSide,
};
use arena_harness::world::{PixelPosition, TilePosition};

fn gateway(capabilities: &[Capability]) -> ArenaGateway {
    ArenaGateway::for_character("guy-agent-id".to_owned(), "guy".to_owned(), CapabilitySet::from_list(capabilities))
}

fn all_capabilities() -> Vec<Capability> {
    vec![
        Capability::Speak,
        Capability::TalkToFolk,
        Capability::Walk,
        Capability::Doors,
        Capability::Fight,
        Capability::Duel,
        Capability::Money,
        Capability::Trade,
        Capability::Purpose,
    ]
}

fn argument<'a>(call: &'a PreparedToolCall, name: &str) -> Option<&'a ArgumentValue> {
    call.arguments.iter().find(|argument| argument.name == name).map(|argument| &argument.value)
}

fn text(value: &str) -> Option<ArgumentValue> {
    Some(ArgumentValue::Text(value.to_owned()))
}

fn names(call: &PreparedToolCall) -> Vec<&'static str> {
    call.arguments.iter().map(|argument| argument.name).collect()
}

#[test]
fn identity_is_injected_and_never_supplied_by_callers() {
    let call = gateway(&[Capability::Walk]).stop().expect("stop call");
    assert_eq!(call.tool, tools::STOP);
    assert_eq!(argument(&call, "agent_id").cloned(), text("guy-agent-id"));
    assert_eq!(call.arguments.len(), 1);
}

#[test]
fn capabilities_reject_before_transport_and_emit_analytics() {
    let prepared = gateway(&[]).move_to(PixelPosition { x: 2_000, y: 3_000 });
    let error = prepared.as_ref().expect_err("walk should be refused");
    assert!(matches!(error, GatewayError::MissingCapability { capability: Capability::Walk, .. }));
    // A refused call has nothing to send: the transport never sees it.
    let events = vec![call_requested_event(tools::MOVE_TO, 7, &prepared)];
    assert_eq!(events[0].name, "mcp.tool_rejected");
    assert_eq!(events[0].fact, EventFact::MissingCapability { capability: Capability::Walk });
}

#[test]
fn typed_chat_channels_use_the_mcp_contract_without_logging_message_text() {
    let gateway = gateway(&[Capability::Speak]);
    let scene = gateway.say("nearby words").expect("scene chat");
    let global = gateway.say_global("world words").expect("global chat");
    let private = gateway.say_private("Cassian Vey Unbound", "private words").expect("private chat");

    assert_eq!(argument(&scene, "channel").cloned(), text("scene"));
    assert_eq!(argument(&global, "channel").cloned(), text("global"));
    assert_eq!(argument(&private, "channel").cloned(), text("private"));
    assert_eq!(argument(&private, "to_player").cloned(), text("Cassian Vey Unbound"));
    assert_eq!(argument(&scene, "to_player"), None);

    let mut events: Vec<GatewayEvent> = Vec::new();
    for (correlation, channel, message, recipient_known, call) in [
        (1u128, ChatChannel::Scene, "nearby words", false, &scene),
        (2, ChatChannel::Global, "world words", false, &global),
        (3, ChatChannel::Private, "private words", true, &private),
    ] {
        events.push(chat_requested_event(channel, message, recipient_known, correlation));
        events.push(call_requested_event(tools::SAY, correlation, &Ok(call.clone())));
        events.push(call_finished_event(tools::SAY, correlation, &Ok(())));
        events.push(chat_finished_event(channel, recipient_known, true, correlation));
    }
    let encoded_events = format!("{events:?}");
    assert!(!encoded_events.contains("nearby words"));
    assert!(!encoded_events.contains("world words"));
    assert!(!encoded_events.contains("private words"));
    assert!(events.iter().any(|event| {
        event.name == "chat.send_completed"
            && matches!(event.fact, EventFact::ChatOutcome { channel: ChatChannel::Private, .. })
    }));
}

#[test]
fn melody_is_typed_capability_gated_and_payload_safe_in_analytics() {
    let call = gateway(&[Capability::Speak]).play_melody("C E G C5", 2, MelodyInstrument::Lute).expect("melody");
    assert_eq!(call.tool, tools::PLAY_MELODY);
    assert_eq!(argument(&call, "melody").cloned(), text("C E G C5"));
    assert_eq!(argument(&call, "times").cloned(), Some(ArgumentValue::Count(2)));
    assert_eq!(argument(&call, "instrument").cloned(), text("lute"));
    assert_eq!(melody_note_count("C E G C5"), 4);
    assert!(gateway(&[]).play_melody("C", 1, MelodyInstrument::Bell).is_err());

    let events = vec![
        melody_requested_event(MelodyInstrument::Lute, 2, "C E G C5", 9),
        call_requested_event(tools::PLAY_MELODY, 9, &Ok(call.clone())),
        call_finished_event(tools::PLAY_MELODY, 9, &Ok(())),
        melody_finished_event(MelodyInstrument::Lute, 2, 4, true, 9),
    ];
    let encoded_events = format!("{events:?}");
    assert!(!encoded_events.contains("C E G C5"));
    assert!(events.iter().any(|event| {
        event.name == "music.performance_completed"
            && event.fact
                == EventFact::MelodyOutcome { instrument: MelodyInstrument::Lute, times: 2, note_count: 4 }
    }));
}

fn context(action_id: u128) -> ExecutionContext {
    ExecutionContext {
        session_generation: 3,
        decision_id: 11,
        packet_id: 12,
        action_id,
        action_index: 0,
        frame_revision: 4,
        strategic_revision: 5,
    }
}

#[test]
fn body_move_preflights_path_and_preserves_action_correlation() {
    let gateway = gateway(&[Capability::Walk]);
    let command = BodyCommand::MoveTo { destination: TilePosition { x: 2, y: 3 } };
    let action = 41u128;
    let mut events: Vec<GatewayEvent> = Vec::new();
    let mut sent: Vec<PreparedToolCall> = Vec::new();

    let start = gateway.begin_execute(&command, context(action));
    events.extend(start.events.iter().copied());
    let first = start.prepared.expect("path check");
    sent.push(first.clone());
    events.push(call_finished_event(first.tool, action, &Ok(())));
    let path = PathResult { reachable: Some(true), path_length_tiles: Some(3), ..PathResult::default() };
    let progress = gateway.continue_execute(&command, &None, &ToolReply::Path(path.clone()), context(action));
    events.extend(progress.events.iter().copied());
    let second = progress.next.expect("a next call").expect("move call");
    sent.push(second.clone());
    events.push(call_finished_event(second.tool, action, &Ok(())));
    let moved = MoveResult {
        arrived: Some(false),
        came_to_rest: Some(true),
        x_millipixels: Some(48_000),
        y_millipixels: Some(80_000),
        tile_x: Some(1),
        tile_y: Some(2),
        ..MoveResult::default()
    };
    let done = gateway.continue_execute(&command, &Some(path), &ToolReply::Move(moved), context(action));
    events.extend(done.events.iter().copied());
    let result = match done.step {
        Ok(GatewayStep::Finished(result)) => result,
        other => panic!("expected a finished command, got {other:?}"),
    };

    assert_eq!(result.accepted, Some(true));
    assert_eq!(result.reachable, Some(true));
    assert_eq!(result.path_length_tiles, Some(3));
    assert_eq!(result.arrived, Some(false));
    assert_eq!(result.came_to_rest, Some(true));
    assert_eq!(sent.len(), 2);
    assert_eq!(sent[0].tool, tools::CHECK_PATH);
    assert_eq!(sent[1].tool, tools::MOVE_TO);
    assert_eq!(argument(&sent[0], "x").cloned(), Some(ArgumentValue::Millipixels(80_000)));
    assert_eq!(argument(&sent[0], "y").cloned(), Some(ArgumentValue::Millipixels(112_000)));
    assert_eq!(argument(&sent[0], "agent_id").cloned(), text("guy-agent-id"));
    assert_eq!(events.iter().filter(|event| event.correlation_id == action).count(), 4);
}

#[test]
fn body_mediated_speech_keeps_action_lineage_and_content_safe_analytics() {
    let gateway = gateway(&[Capability::Speak]);
    let command = BodyCommand::Say {
        message: "Do not record this dialogue".to_owned(),
        channel: BodySpeechChannel::Private,
        to_player: Some("Orin".to_owned()),
    };
    let action = 77u128;
    let start = gateway.begin_execute(&command, context(action));
    let call = start.prepared.as_ref().expect("speech call").clone();
    assert_eq!(call.tool, tools::SAY);
    assert_eq!(argument(&call, "channel").cloned(), text("private"));
    assert_eq!(argument(&call, "to_player").cloned(), text("Orin"));
    let mut events = start.events.clone();
    events.push(call_finished_event(call.tool, action, &Ok(())));
    let reply = ToolReply::Say(SayResult { accepted: Some(true), ..SayResult::default() });
    let done = gateway.continue_execute(&command, &None, &reply, context(action));
    events.extend(done.events.iter().copied());
    match done.step {
        Ok(GatewayStep::Finished(result)) => assert_eq!(result.accepted, Some(true)),
        other => panic!("expected a finished command, got {other:?}"),
    }
    assert!(events.iter().any(|event| event.name == "chat.send_completed" && event.correlation_id == action));
    assert!(!format!("{events:?}").contains("Do not record this dialogue"));
}

#[test]
fn refused_body_commands_send_nothing() {
    for command in [BodyCommand::MoveTo { destination: TilePosition { x: 1, y: 1 } }, BodyCommand::Stop] {
        let start = gateway(&[]).begin_execute(&command, context(5));
        assert!(matches!(start.prepared, Err(GatewayError::MissingCapability { capability: Capability::Walk, .. })));
        assert_eq!(start.events.len(), 1);
        assert_eq!(start.events[0].name, "mcp.tool_rejected");
    }
}

#[test]
fn melody_results_keep_one_success_fact_and_a_note_count() {
    assert_eq!(melody_note_count("  C\tE  G\n"), 3);
    assert_eq!(melody_note_count("   "), 0);
    let played = PlayMelodyResult { played: Some(true), ..PlayMelodyResult::default() };
    let complete = complete_melody_result(played, melody_note_count("C E G C5"));
    assert_eq!(complete.accepted, Some(true));
    assert_eq!(complete.note_count, Some(4));
    let reported = PlayMelodyResult { accepted: Some(false), note_count: Some(9), played: Some(true), ..PlayMelodyResult::default() };
    let complete = complete_melody_result(reported, 300);
    assert_eq!(complete.accepted, Some(false));
    assert_eq!(complete.note_count, Some(9));
    assert_eq!(complete_melody_result(PlayMelodyResult::default(), 300).note_count, None);
}

#[test]
fn player_target_uses_player_ids_without_object_id() {
    let call = gateway(&[Capability::Fight])
        .basic_attack(&CombatTarget::Player { session_id: "session-ash".to_owned(), player_id: 20 })
        .expect("attack");
    assert_eq!(argument(&call, "target_session_id").cloned(), text("session-ash"));
    assert_eq!(argument(&call, "target_player_id").cloned(), Some(ArgumentValue::Integer(20)));
    assert!(argument(&call, "target_object_index").is_none());
}

#[test]
fn door_tile_uses_backend_row_and_column_contract() {
    let call = gateway(&[Capability::Doors]).enter_door_tile(TilePosition { x: 17, y: 29 }).expect("enter door");
    assert_eq!(call.tool, tools::ENTER_DOOR);
    assert_eq!(argument(&call, "row").cloned(), Some(ArgumentValue::Integer(29)));
    assert_eq!(argument(&call, "column").cloned(), Some(ArgumentValue::Integer(17)));
    assert!(argument(&call, "x").is_none());
    assert!(argument(&call, "y").is_none());
}

#[test]
fn complete_tool_surface_uses_current_contract_argument_names() {
    let gateway = gateway(&all_capabilities());
    let enemy = CombatTarget::Object { object_index: "spider_9".to_owned() };
    let calls = vec![
        gateway.observe().expect("observe"),
        gateway.render_map(16).expect("map"),
        gateway.survey(None).expect("survey"),
        gateway
            .history(&HistoryQuery { after: Some(40), limit: Some(25), ..HistoryQuery::default() })
            .expect("world history"),
        gateway.party_invite(20).expect("party invite"),
        gateway.party_respond(20, true).expect("party response"),
        gateway.party_leave(None).expect("party leave"),
        gateway.say("hello").expect("say"),
        gateway.feel("wary").expect("feel"),
        gateway.talk_to(42).expect("talk"),
        gateway.choose_option(42, "1").expect("choose"),
        gateway.end_talk(42).expect("end talk"),
        gateway.think("I am testing.").expect("think"),
        gateway.move_to(PixelPosition { x: 32_000, y: 64_000 }).expect("move to"),
        gateway.move_direction(MoveDirection::Left).expect("move"),
        gateway.check_path(PixelPosition { x: 96_000, y: 128_000 }).expect("path"),
        gateway.stop().expect("stop"),
        gateway.unstick().expect("unstick"),
        gateway.enter_door(PixelPosition { x: 8_000, y: 9_000 }).expect("door"),
        gateway.basic_attack(&enemy).expect("attack"),
        gateway.use_action("slash", Some(&enemy)).expect("skill"),
        gateway.set_tactics(Some(TacticsStyle::DuckAndWeave), Some(TacticsMode::SemiAuto)).expect("tactics"),
        gateway.queue_match("arena-volcano").expect("queue"),
        gateway.match_status("match-1").expect("status"),
        gateway.credit_balance().expect("balance"),
        gateway.credit_history(Some(20)).expect("history"),
        gateway.inventory().expect("inventory"),
        gateway.use_item("tonic").expect("item"),
        gateway.equip("sword", false).expect("equip"),
        gateway.trade_with(10, TradeSide::Buy).expect("trade listing"),
        gateway.buy(10, "tonic", 2).expect("buy"),
        gateway.sell(10, "pelt", 1).expect("sell"),
        gateway.pick_up("drop-1").expect("pickup"),
    ];
    let call = |index: usize| &calls[index];

    assert_eq!(call(0).tool, tools::OBSERVE);
    assert_eq!(names(call(0)), ["agent_id"]);
    assert_eq!(call(1).tool, tools::RENDER_MAP);
    assert_eq!(names(call(1)), ["level", "radius", "agent_id"]);
    assert_eq!(argument(call(1), "level").cloned(), text("room"));
    assert_eq!(argument(call(1), "radius").cloned(), Some(ArgumentValue::Count(16)));
    assert_eq!(call(2).tool, tools::SURVEY);
    assert_eq!(call(3).tool, tools::HISTORY);
    assert_eq!(argument(call(3), "after").cloned(), Some(ArgumentValue::Count(40)));
    assert_eq!(argument(call(3), "limit").cloned(), Some(ArgumentValue::Count(25)));
    assert_eq!(argument(call(4), "target_player_id").cloned(), Some(ArgumentValue::Integer(20)));
    assert_eq!(argument(call(5), "from_player_id").cloned(), Some(ArgumentValue::Integer(20)));
    assert_eq!(argument(call(5), "accept").cloned(), Some(ArgumentValue::Flag(true)));
    assert_eq!(names(call(6)), ["agent_id"]);
    assert_eq!(argument(call(9), "object_id").cloned(), Some(ArgumentValue::Integer(42)));
    assert_eq!(argument(call(10), "option_key").cloned(), text("1"));
    assert_eq!(argument(call(11), "object_id").cloned(), Some(ArgumentValue::Integer(42)));
    assert_eq!(argument(call(12), "thought").cloned(), text("I am testing."));
    assert_eq!(argument(call(13), "x").cloned(), Some(ArgumentValue::Millipixels(32_000)));
    assert_eq!(argument(call(14), "direction").cloned(), text("left"));
    assert_eq!(argument(call(19), "target_object_index").cloned(), text("spider_9"));
    assert_eq!(argument(call(20), "action_type").cloned(), text("slash"));
    assert_eq!(argument(call(21), "style").cloned(), text("duck_and_weave"));
    assert_eq!(argument(call(21), "mode").cloned(), text("semi_auto"));
    assert_eq!(argument(call(22), "scene_name").cloned(), text("arena-volcano"));
    assert_eq!(names(call(23)), ["match_id"]);
    assert_eq!(argument(call(23), "match_id").cloned(), text("match-1"));
    assert_eq!(argument(call(25), "limit").cloned(), Some(ArgumentValue::Count(20)));
    assert_eq!(argument(call(28), "item").cloned(), text("sword"));
    assert_eq!(argument(call(29), "side").cloned(), text("buy"));
    assert_eq!(argument(call(30), "quantity").cloned(), Some(ArgumentValue::Count(2)));
    assert_eq!(argument(call(32), "drop_id").cloned(), text("drop-1"));
}
