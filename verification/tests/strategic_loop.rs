use arena_harness::brain::strategic_agentic::{
    proposal_from_checkpoint, tally_events, validate_checkpoint_output, CheckpointCompletionError,
    CheckpointOutputError, StrategicAgenticLoop, StrategicCheckpointOutput, StrategicEvent, StrategicInboxFact,
    StrategicTile, STRATEGIC_CHECKPOINT_PROTOCOL_VERSION,
};
use arena_harness::brain::strategic_intent::StrategicIntent;
use arena_harness::brain::strategic_output::StrategicProposalSemanticError;

fn fact(kind: &str, summary: &str) -> StrategicInboxFact {
    StrategicInboxFact { kind: kind.into(), summary: summary.into(), speaker: None, channel: None }
}

fn output(id: &str, continue_thinking: bool, events: Vec<StrategicEvent>) -> StrategicCheckpointOutput {
    StrategicCheckpointOutput {
        protocol_version: STRATEGIC_CHECKPOINT_PROTOCOL_VERSION,
        checkpoint_id: id.to_owned(),
        continue_thinking,
        events,
    }
}

#[test]
fn loop_coalesces_world_facts_and_keeps_dialogue() {
    let mut loop_state = StrategicAgenticLoop::with_capacity(4);
    loop_state.push(
        StrategicInboxFact { kind: "world".into(), summary: "first".into(), speaker: None, channel: None },
        4,
    );
    loop_state.push(
        StrategicInboxFact {
            kind: "dialogue".into(),
            summary: "hello".into(),
            speaker: Some("Ash".into()),
            channel: Some("global".into()),
        },
        4,
    );
    loop_state.push(
        StrategicInboxFact { kind: "world".into(), summary: "latest".into(), speaker: None, channel: None },
        4,
    );
    let (id, facts) = loop_state.begin().expect("checkpoint");
    assert_eq!(id, "strategic-checkpoint-1");
    assert_eq!(facts.len(), 2);
    assert_eq!(facts[0].summary, "hello");
    assert_eq!(facts[1].summary, "latest");
}

#[test]
fn loop_requests_next_checkpoint_without_new_message() {
    let mut loop_state = StrategicAgenticLoop::default();
    loop_state.push(
        StrategicInboxFact {
            kind: "reflection".into(),
            summary: "reconsider the plan".into(),
            speaker: None,
            channel: None,
        },
        8,
    );
    let (id, _) = loop_state.begin().expect("checkpoint");
    let output = StrategicCheckpointOutput {
        protocol_version: STRATEGIC_CHECKPOINT_PROTOCOL_VERSION,
        checkpoint_id: id,
        continue_thinking: true,
        events: vec![],
    };
    assert!(loop_state.finish(&output).expect("finish"));
    assert!(loop_state.continuation_requested());
}

#[test]
fn an_empty_idle_mailbox_begins_nothing() {
    let mut loop_state = StrategicAgenticLoop::default();
    assert!(loop_state.begin().is_none());
    assert!(!loop_state.in_flight());
}

#[test]
fn a_second_checkpoint_waits_for_the_first_to_finish() {
    let mut loop_state = StrategicAgenticLoop::default();
    loop_state.push(fact("dialogue", "one"), 4);
    let (first, _) = loop_state.begin().expect("first");
    assert!(loop_state.in_flight());
    loop_state.push(fact("dialogue", "two"), 4);
    assert!(loop_state.begin().is_none());
    assert_eq!(loop_state.finish(&output(&first, false, vec![])), Ok(true));
    let (second, facts) = loop_state.begin().expect("second");
    assert_eq!(second, "strategic-checkpoint-2");
    assert_eq!(facts.len(), 1);
    assert_eq!(facts[0].summary, "two");
}

#[test]
fn completions_without_or_for_another_checkpoint_are_refused() {
    let mut loop_state = StrategicAgenticLoop::default();
    assert_eq!(
        loop_state.finish(&output("strategic-checkpoint-1", false, vec![])),
        Err(CheckpointCompletionError::NothingInFlight)
    );
    loop_state.push(fact("dialogue", "hi"), 4);
    let _ = loop_state.begin().expect("checkpoint");
    assert_eq!(
        loop_state.finish(&output("strategic-checkpoint-9", true, vec![])),
        Err(CheckpointCompletionError::MismatchedCheckpoint)
    );
    assert!(!loop_state.in_flight());
    assert!(!loop_state.continuation_requested());
    assert_eq!(
        CheckpointCompletionError::MismatchedCheckpoint.message(),
        "strategic checkpoint completion does not match request"
    );
}

#[test]
fn the_inbox_keeps_only_the_newest_facts_within_capacity() {
    let mut loop_state = StrategicAgenticLoop::default();
    for summary in ["a", "b", "c"] {
        loop_state.push(fact("dialogue", summary), 2);
    }
    let (_, facts) = loop_state.begin().expect("checkpoint");
    let summaries: Vec<&str> = facts.iter().map(|f| f.summary.as_str()).collect();
    assert_eq!(summaries, ["b", "c"]);

    let mut zero = StrategicAgenticLoop::default();
    zero.push(fact("dialogue", "x"), 0);
    zero.push(fact("dialogue", "y"), 0);
    let (_, facts) = zero.begin().expect("checkpoint");
    assert_eq!(facts.len(), 1);
    assert_eq!(facts[0].summary, "y");
}

#[test]
fn checkpoint_answers_need_the_protocol_and_the_asked_identifier() {
    assert_eq!(validate_checkpoint_output(&output("c-1", false, vec![]), "c-1"), Ok(()));
    let mut old = output("c-1", false, vec![]);
    old.protocol_version = 1;
    let refused = validate_checkpoint_output(&old, "c-1");
    assert_eq!(refused, Err(CheckpointOutputError::ProtocolMismatch { found: 1 }));
    assert_eq!(refused.unwrap_err().message(), "strategist checkpoint protocol 1 does not match 2");
    assert_eq!(
        validate_checkpoint_output(&output("c-2", false, vec![]), "c-1"),
        Err(CheckpointOutputError::CheckpointIdMismatch)
    );
}

#[test]
fn events_are_tallied_by_class() {
    let events = vec![
        StrategicEvent::ThoughtCheckpoint { summary: "t".into() },
        StrategicEvent::NavigationGoal { scene: "s".into(), destination: None, reason: "r".into() },
        StrategicEvent::Speech { message: "m".into(), channel: None, recipient: None },
        StrategicEvent::Interact { target_id: "npc".into() },
        StrategicEvent::QueueDuel,
        StrategicEvent::PlanUpdate { summary: "p".into() },
        StrategicEvent::GoalComplete { evidence: "e".into() },
    ];
    let tally = tally_events(&events);
    assert_eq!(tally.event_count, 7);
    assert_eq!(tally.thought_count, 1);
    assert_eq!(tally.navigation_count, 1);
    assert_eq!(tally.speech_count, 1);
    assert_eq!(tally.interaction_count, 2);
    assert_eq!(tally.plan_count, 1);
    assert_eq!(tally.goal_completion_count, 1);
    assert_eq!(tally.actionable_event_count, 4);
}

#[test]
fn checkpoint_events_become_one_proposal() {
    let intent = StrategicIntent::default();
    let events = vec![
        StrategicEvent::NavigationGoal {
            scene: "reldens-town".into(),
            destination: Some(StrategicTile { tile_x: 3, tile_y: 4 }),
            reason: "leave the inn".into(),
        },
        StrategicEvent::Speech { message: "hello".into(), channel: Some("scene".into()), recipient: None },
        StrategicEvent::Speech { message: "goodbye".into(), channel: None, recipient: None },
        StrategicEvent::QueueDuel,
        StrategicEvent::PlanUpdate { summary: "heading out".into() },
    ];
    let proposal = proposal_from_checkpoint(&intent, &output("c-1", true, events)).expect("valid proposal");
    assert!(proposal.continue_thinking);
    let goal = proposal.navigation_goal.expect("goal");
    assert_eq!(goal.scene, "reldens-town");
    let destination = goal.destination.expect("destination");
    assert_eq!(destination.name, "strategic checkpoint destination");
    assert_eq!(destination.tile.map(|t| (t.x, t.y)), Some((3, 4)));
    assert_eq!(proposal.navigation_queue.len(), 1);
    assert_eq!(proposal.speech.as_deref(), Some("goodbye"));
    assert_eq!(proposal.speech_channel, None);
    assert_eq!(proposal.actions.len(), 1);
    assert_eq!(proposal.progress_summary, "heading out");
    assert!(!proposal.goal_completion_claimed);
}

#[test]
fn checkpoint_queue_holds_at_most_five_destinations_and_blank_targets_fail() {
    let intent = StrategicIntent::default();
    let events: Vec<StrategicEvent> = (0..7)
        .map(|i| StrategicEvent::NavigationGoal { scene: format!("scene-{i}"), destination: None, reason: "go".into() })
        .collect();
    let proposal = proposal_from_checkpoint(&intent, &output("c", false, events)).expect("proposal");
    assert_eq!(proposal.navigation_queue.len(), 5);
    assert_eq!(proposal.navigation_goal.expect("goal").scene, "scene-0");

    let blank_target = vec![StrategicEvent::Interact { target_id: "  ".into() }];
    assert_eq!(
        proposal_from_checkpoint(&intent, &output("c", false, blank_target)).err(),
        Some(StrategicProposalSemanticError::BlankInteractionTarget)
    );
    let long_speech = vec![StrategicEvent::Speech { message: "x".repeat(141), channel: None, recipient: None }];
    assert_eq!(
        proposal_from_checkpoint(&intent, &output("c", false, long_speech)).err(),
        Some(StrategicProposalSemanticError::SpeechTooLong)
    );
}
