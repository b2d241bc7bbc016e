use arena_harness::brain::strategic_input::StrategicWorldSnapshot;
use arena_harness::brain::strategic_intent::{Priority, StrategicIntent};
use arena_harness::brain::strategic_output::{
    Goal, PlanStep, ProposedPlanStep, StrategicProposal, StrategicProposalSemanticError, WorkStatus, WorkingMemory,
};
use arena_harness::brain::tactical_frame::{EntityKind, TacticalFrame, VisibleEntity};
use arena_harness::world::{GameEvent, GameEventKind, GameEventOrigin, ReachableExit, TilePosition};

#[test]
fn actor_can_stamp_a_proposal_without_changing_content() {
    let current = StrategicIntent::default();
    let proposal = StrategicProposal::from_intent(&current);

    assert!(!proposal.materially_differs_from(&current));
    assert_eq!(proposal.into_intent(19).revision, 19);
}

#[test]
fn model_plan_cannot_erase_attempts_or_fabricate_evidence_and_completion() {
    let current_step_id = Some(0x5eed_u128);
    let current = WorkingMemory {
        goal: Some(Goal {
            aim: "Find the bell".to_owned(),
            done: Some("The bell is held".to_owned()),
            why: None,
        }),
        plan: vec![PlanStep {
            step_id: current_step_id,
            what: "Search the harbor".to_owned(),
            status: WorkStatus::Doing,
            note: Some("Started east".to_owned()),
            tries: 4,
            done_when: Some("The bell is visible".to_owned()),
            evidence: vec!["The west pier was empty".to_owned()],
            reevaluate_when: vec!["A sailor gives a lead".to_owned()],
        }],
        plan_revision: 8,
        ..WorkingMemory::default()
    };
    let mut proposal = StrategicProposal::from_intent(&StrategicIntent::default());
    proposal.goal = current.goal.clone().expect("goal");
    proposal.plan = vec![ProposedPlanStep {
        what: "Search the harbor".to_owned(),
        done_when: Some("The bell is visible".to_owned()),
        note: None,
        reevaluate_when: Vec::new(),
    }];
    proposal.goal_completion_claimed = true;

    let update = proposal.working_update(&current);

    assert_eq!(update.plan[0].tries, 4);
    assert_eq!(update.plan[0].step_id, current.plan[0].step_id);
    assert_eq!(update.plan[0].status, WorkStatus::Doing);
    assert_eq!(update.plan[0].evidence, ["The west pier was empty"]);
    assert!(update.goal_completion_claimed);
    assert!(!current.goal_complete);
}

#[test]
fn strict_json_and_semantics_reject_unowned_or_invalid_content() {
    let mut proposal = StrategicProposal::from_intent(&StrategicIntent::default());
    proposal.risk_tolerance_permille = 1500;
    assert_eq!(proposal.validate_semantics(), Err(StrategicProposalSemanticError::InvalidRiskTolerance));
}

#[test]
fn a_changed_objective_differs_materially() {
    let current = StrategicIntent::default();
    let mut proposal = StrategicProposal::from_intent(&current);
    proposal.objective = "Find the bell".to_owned();
    assert!(proposal.materially_differs_from(&current));

    let mut proposal = StrategicProposal::from_intent(&current);
    proposal.priorities = vec![Priority::Survival, Priority::Custom("bells".to_owned())];
    assert!(proposal.materially_differs_from(&current));
}

#[test]
fn a_new_plan_step_starts_untried_and_bumps_the_revision() {
    let current = WorkingMemory { plan_revision: 3, ..WorkingMemory::default() };
    let mut proposal = StrategicProposal::from_intent(&StrategicIntent::default());
    proposal.plan = vec![ProposedPlanStep {
        what: "Walk north".to_owned(),
        done_when: None,
        note: Some("quietly".to_owned()),
        reevaluate_when: vec!["rain".to_owned()],
    }];

    let update = proposal.working_update(&current);

    assert_eq!(update.plan.len(), 1);
    assert!(update.plan[0].step_id.is_some());
    assert_eq!(update.plan[0].status, WorkStatus::Next);
    assert_eq!(update.plan[0].tries, 0);
    assert!(update.plan[0].evidence.is_empty());
    assert_eq!(update.plan[0].note.as_deref(), Some("quietly"));
    assert_eq!(update.plan[0].reevaluate_when, ["rain"]);
    assert_eq!(update.plan_revision, 4);
}

#[test]
fn an_unchanged_working_state_keeps_its_revision() {
    let current = WorkingMemory {
        goal: Some(Goal { aim: "Explore".to_owned(), done: None, why: None }),
        plan: vec![PlanStep {
            step_id: Some(7),
            what: "Walk north".to_owned(),
            status: WorkStatus::Doing,
            note: None,
            tries: 1,
            done_when: None,
            evidence: Vec::new(),
            reevaluate_when: Vec::new(),
        }],
        plan_revision: 5,
        progress_summary: "Walking".to_owned(),
        ..WorkingMemory::default()
    };
    let mut proposal = StrategicProposal::from_intent(&StrategicIntent::default());
    proposal.goal = Goal { aim: "Explore".to_owned(), done: None, why: None };
    proposal.progress_summary = "Walking".to_owned();
    proposal.plan =
        vec![ProposedPlanStep { what: "Walk north".to_owned(), done_when: None, note: None, reevaluate_when: Vec::new() }];

    let update = proposal.working_update(&current);
    assert_eq!(update.plan_revision, 5);
    assert_eq!(update.plan[0].step_id, Some(7));

    proposal.progress_summary = "Arrived".to_owned();
    assert_eq!(proposal.working_update(&current).plan_revision, 6);

    let saturated = WorkingMemory { plan_revision: u64::MAX, ..WorkingMemory::default() };
    assert_eq!(proposal.working_update(&saturated).plan_revision, u64::MAX);
}

fn event(kind: GameEventKind, detail: &str) -> GameEvent {
    GameEvent {
        sequence: None,
        observed_at_ms: 0,
        origin: GameEventOrigin::Backend,
        kind,
        entity_id: None,
        amount: None,
        tile: None,
        detail: Some(detail.to_owned()),
    }
}

fn entity(id: &str) -> VisibleEntity {
    VisibleEntity {
        id: id.to_owned(),
        backend_object_id: None,
        label: format!("{id} label"),
        kind: EntityKind::Npc,
        tile: Some(TilePosition { x: 1, y: 2 }),
        relative: None,
        distance_millitiles: Some(1500),
        alive: Some(true),
        is_merchant: Some(false),
        interactable: Some(true),
        hostile: Some(false),
        targeting_you: None,
    }
}

#[test]
fn snapshot_bounds_entities_exits_and_keeps_the_latest_scene_transitions_in_order() {
    let mut frame = TacticalFrame::empty(StrategicIntent::default());
    frame.revision = 42;
    frame.self_state.scene = Some("harbor".to_owned());
    frame.self_state.health = Some(7);
    frame.nearby_entities = (0..40).map(|i| entity(&format!("npc-{i}"))).collect();
    frame.exits = (0..20)
        .map(|i| ReachableExit {
            tile: TilePosition { x: i, y: 0 },
            destination_scene: Some(format!("scene-{i}")),
            label: None,
            path_length_tiles: 3,
        })
        .collect();
    let mut events = Vec::new();
    for i in 0..10 {
        events.push(event(GameEventKind::SceneEntered, &format!("entered-{i}")));
        events.push(event(GameEventKind::DamageTaken, "ouch"));
    }
    events.push(event(GameEventKind::SceneLeft, "left-last"));
    frame.recent_events = events;

    let snapshot = StrategicWorldSnapshot::from_frame(&frame);

    assert_eq!(snapshot.frame_revision, 42);
    assert_eq!(snapshot.scene.as_deref(), Some("harbor"));
    assert_eq!(snapshot.health, Some(7));
    assert_eq!(snapshot.visible_entities.len(), 32);
    assert_eq!(snapshot.visible_entities[31].id, "npc-31");
    assert_eq!(snapshot.visible_entities[0].distance_millitiles, Some(1500));
    assert_eq!(snapshot.exits.len(), 16);
    assert_eq!(snapshot.exits[15].destination_scene.as_deref(), Some("scene-15"));
    let scenes: Vec<_> = snapshot.recent_scene_transitions.iter().map(|t| t.scene.clone().unwrap()).collect();
    assert_eq!(
        scenes,
        ["entered-3", "entered-4", "entered-5", "entered-6", "entered-7", "entered-8", "entered-9", "left-last"]
    );
    assert_eq!(snapshot.recent_scene_transitions[7].kind, GameEventKind::SceneLeft);
}
