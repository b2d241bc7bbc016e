use arena_harness::execution::packet::{
    ActionPacket, TacticalAction, TacticalIntent, TacticalProposal, TacticalProposalSemanticError,
};
use arena_harness::execution::outcome::PacketTerminalStatus;

fn proposal(intent: TacticalIntent, actions: Vec<TacticalAction>, valid_for_ms: u64) -> TacticalProposal {
    TacticalProposal { intent, actions, valid_for_ms, abort_if: Vec::new(), rationale: None }
}

#[test]
fn runtime_enriches_a_proposal_with_causal_metadata() {
    let decision_id = 0x1234_5678_9abc_def0_u128;
    let packet = ActionPacket::from_proposal(
        decision_id,
        18,
        4,
        Some("spider-nest".to_owned()),
        proposal(TacticalIntent::Stop, vec![TacticalAction::Stop], 500),
    );
    assert_eq!(packet.decision_id, decision_id);
    assert_eq!(packet.frame_revision, 18);
    assert_eq!(packet.strategic_revision, 4);
    assert_eq!(packet.scene.as_deref(), Some("spider-nest"));
    let other = ActionPacket::from_proposal(
        decision_id,
        18,
        4,
        None,
        proposal(TacticalIntent::Stop, vec![TacticalAction::Stop], 500),
    );
    assert_ne!(packet.id, other.id);
}

#[test]
fn rejects_an_intent_that_only_describes_an_absent_action() {
    let proposal = proposal(TacticalIntent::Reposition, Vec::new(), 500);
    assert_eq!(proposal.validate_semantics(), Err(TacticalProposalSemanticError::MissingMatchingAction));
}

#[test]
fn schema_and_semantics_reject_zero_lifetime() {
    let mut proposal = proposal(TacticalIntent::Stop, vec![TacticalAction::Stop], 0);
    assert_eq!(proposal.validate_semantics(), Err(TacticalProposalSemanticError::InvalidLifetime));
    proposal.valid_for_ms = 1_000;
    assert_eq!(proposal.validate_semantics(), Ok(()));
}

#[test]
fn attack_intent_accepts_an_offensive_skill_action() {
    let proposal = proposal(
        TacticalIntent::Attack,
        vec![TacticalAction::UseSkill { skill_id: "slash".to_owned(), target_id: Some("spider-92".to_owned()) }],
        1_000,
    );
    assert_eq!(proposal.validate_semantics(), Ok(()));
}

#[test]
fn intents_and_statuses_have_stable_names() {
    assert_eq!(TacticalIntent::Reposition.as_str(), "reposition");
    assert_eq!(PacketTerminalStatus::Completed.as_str(), "completed");
    let move_to = TacticalAction::MoveTo { tile_x: 3, tile_y: -2 };
    assert_eq!(move_to.destination().map(|t| (t.x, t.y)), Some((3, -2)));
    assert!(TacticalAction::Stop.destination().is_none());
}
