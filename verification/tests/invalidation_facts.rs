use arena_harness::brain::strategic_intent::StrategicIntent;
use arena_harness::brain::tactical_frame::{
    CarriedItem, CombatActionAvailability, Drop, EntityKind, TacticalFrame, TargetKind, VisibleEntity,
};
use arena_harness::execution::invalidation::{
    compare_material_state, ExecutionValidityFacts, InvalidationReport, MaterialComparison,
    MaterialInvalidationFact, PathInvalidationEvidence,
};
use arena_harness::execution::movement::{MovementState, PathPreflightStatus};
use arena_harness::execution::packet::{
    AbortCondition, ActionPacket, TacticalAction, TacticalIntent, TacticalProposal,
};
use arena_harness::world::{MapTile, TileKind, TilePosition};

fn hostile(id: &str, alive: Option<bool>) -> VisibleEntity {
    VisibleEntity {
        id: id.to_owned(),
        backend_object_id: None,
        label: "enemy".to_owned(),
        kind: EntityKind::Enemy,
        tile: None,
        relative: None,
        distance_millitiles: None,
        alive,
        is_merchant: None,
        interactable: Some(false),
        hostile: Some(true),
        targeting_you: None,
    }
}

fn frame(intent: StrategicIntent) -> TacticalFrame {
    let mut frame = TacticalFrame::empty(intent);
    frame.revision = 10;
    frame.perception_revision = 10;
    frame.self_state.scene = Some("town".to_owned());
    frame.self_state.alive = Some(true);
    frame.self_state.health = Some(100);
    frame.self_state.max_health = Some(100);
    frame.nearby_entities.push(hostile("spider-1", Some(true)));
    frame.combat.current_hostiles = 1;
    frame.self_state.inventory.push(CarriedItem {
        id: "potion".to_owned(),
        label: "Potion".to_owned(),
        quantity: 1,
        usable: Some(true),
        equipment: Some(false),
        equipped: Some(false),
    });
    frame.self_state.combat_actions.push(CombatActionAvailability {
        id: "slash".to_owned(),
        available: Some(true),
        cooldown_remaining_ms: Some(0),
        target_kind: TargetKind::Entity,
    });
    frame.nearby_drops.push(Drop {
        id: "silk-drop".to_owned(),
        item_id: Some("silk".to_owned()),
        label: Some("Silk".to_owned()),
        tile: None,
        relative: None,
        distance_millitiles: None,
    });
    frame
}

fn packet(frame: &TacticalFrame, actions: Vec<TacticalAction>) -> ActionPacket {
    ActionPacket::from_proposal(
        5,
        frame.revision,
        frame.strategic_intent.revision,
        frame.self_state.scene.clone(),
        TacticalProposal {
            intent: TacticalIntent::Continue,
            actions,
            valid_for_ms: 1_800,
            abort_if: vec![
                AbortCondition::HealthCritical,
                AbortCondition::PathBlocked,
                AbortCondition::NewHostile,
                AbortCondition::StrategicIntentChanged,
                AbortCondition::TargetUnavailable,
                AbortCondition::SceneChanged,
                AbortCondition::PlayerDied,
            ],
            rationale: None,
        },
    )
}

fn compare<'a>(
    packet: &'a ActionPacket,
    accepted: &'a TacticalFrame,
    current: &'a TacticalFrame,
    accepted_intent: &'a StrategicIntent,
    current_intent: &'a StrategicIntent,
) -> MaterialComparison<'a> {
    MaterialComparison {
        packet,
        accepted_frame: accepted,
        accepted_intent,
        current_frame: current,
        current_intent,
        health_critical_at_or_below: None,
        execution: ExecutionValidityFacts::default(),
    }
}

#[test]
fn unrelated_revision_and_non_constraint_strategy_changes_do_not_invalidate() {
    let accepted_intent = StrategicIntent::default();
    let mut current_intent = accepted_intent.clone();
    current_intent.revision = 99;
    current_intent.objective = "A different objective".to_owned();
    current_intent.risk_tolerance_permille = 900;
    let accepted = frame(accepted_intent.clone());
    let mut current = accepted.clone();
    current.revision = 99;
    current.perception_revision = 500;
    current.generated_at_ms = accepted.generated_at_ms + 5_000;
    current.strategic_intent = current_intent.clone();
    let current_packet = packet(&accepted, vec![TacticalAction::Stop]);

    let report =
        compare_material_state(&compare(&current_packet, &accepted, &current, &accepted_intent, &current_intent));
    assert_eq!(report, InvalidationReport::empty());
}

#[test]
fn distinguishes_required_target_death_from_disappearance() {
    let intent = StrategicIntent::default();
    let accepted = frame(intent.clone());
    let packet = packet(&accepted, vec![TacticalAction::Attack { target_id: "spider-1".to_owned() }]);

    let mut dead = accepted.clone();
    dead.nearby_entities[0].alive = Some(false);
    let dead_report = compare_material_state(&compare(&packet, &accepted, &dead, &intent, &intent));
    assert!(dead_report.facts.contains(&MaterialInvalidationFact::TargetDead { target_id: "spider-1".to_owned() }));
    assert!(dead_report.abort_condition_triggered(AbortCondition::TargetUnavailable));

    let mut missing = accepted.clone();
    missing.nearby_entities.clear();
    missing.combat.current_hostiles = 0;
    let missing_report = compare_material_state(&compare(&packet, &accepted, &missing, &intent, &intent));
    assert!(missing_report
        .facts
        .contains(&MaterialInvalidationFact::TargetUnavailable { target_id: "spider-1".to_owned() }));
}

#[test]
fn reports_only_required_item_drop_and_skill_losses() {
    let intent = StrategicIntent::default();
    let accepted = frame(intent.clone());
    let packet = packet(
        &accepted,
        vec![
            TacticalAction::UseItem { item_id: "potion".to_owned() },
            TacticalAction::PickUp { drop_id: "silk-drop".to_owned() },
            TacticalAction::UseSkill { skill_id: "slash".to_owned(), target_id: None },
        ],
    );
    let mut current = accepted.clone();
    current.self_state.inventory[0].quantity = 0;
    current.nearby_drops.clear();
    current.self_state.combat_actions[0].available = Some(false);

    let report = compare_material_state(&compare(&packet, &accepted, &current, &intent, &intent));
    assert!(report
        .facts
        .contains(&MaterialInvalidationFact::RequiredItemUnavailable { item_id: "potion".to_owned() }));
    assert!(report
        .facts
        .contains(&MaterialInvalidationFact::RequiredDropUnavailable { drop_id: "silk-drop".to_owned() }));
    assert!(report
        .facts
        .contains(&MaterialInvalidationFact::RequiredSkillUnavailable { skill_id: "slash".to_owned() }));
    assert!(report.triggered_abort_conditions.is_empty());
}

#[test]
fn reports_scene_change_and_new_player_death_but_not_unknown_scene() {
    let intent = StrategicIntent::default();
    let accepted = frame(intent.clone());
    let scene_packet = packet(&accepted, vec![TacticalAction::Stop]);
    let mut current = accepted.clone();
    current.self_state.scene = Some("forest".to_owned());
    current.self_state.alive = Some(false);

    let report = compare_material_state(&compare(&scene_packet, &accepted, &current, &intent, &intent));
    assert!(report.facts.contains(&MaterialInvalidationFact::SceneChanged {
        previous_scene: "town".to_owned(),
        current_scene: "forest".to_owned(),
    }));
    assert!(report.facts.contains(&MaterialInvalidationFact::PlayerDied));

    current.self_state.scene = None;
    let unknown_report = compare_material_state(&compare(&scene_packet, &accepted, &current, &intent, &intent));
    assert!(!unknown_report
        .facts
        .iter()
        .any(|fact| matches!(fact, MaterialInvalidationFact::SceneChanged { .. })));
}

#[test]
fn health_requires_an_explicit_threshold_and_a_crossing() {
    let intent = StrategicIntent::default();
    let mut accepted = frame(intent.clone());
    accepted.self_state.health = Some(60);
    let health_packet = packet(&accepted, vec![TacticalAction::Stop]);
    let mut current = accepted.clone();
    current.self_state.health = Some(20);

    let without_threshold = compare_material_state(&compare(&health_packet, &accepted, &current, &intent, &intent));
    assert!(!without_threshold
        .facts
        .iter()
        .any(|fact| matches!(fact, MaterialInvalidationFact::HealthBecameCritical { .. })));

    let mut comparison = compare(&health_packet, &accepted, &current, &intent, &intent);
    comparison.health_critical_at_or_below = Some(25);
    let crossed = compare_material_state(&comparison);
    assert!(crossed.facts.contains(&MaterialInvalidationFact::HealthBecameCritical {
        previous_health: 60,
        current_health: 20,
        threshold: 25,
    }));
    assert!(crossed.abort_condition_triggered(AbortCondition::HealthCritical));

    let mut already_critical = accepted.clone();
    already_critical.self_state.health = Some(25);
    let mut still_critical = current.clone();
    still_critical.self_state.health = Some(10);
    let already_critical_packet = packet(&already_critical, vec![TacticalAction::Stop]);
    let mut no_crossing = compare(&already_critical_packet, &already_critical, &still_critical, &intent, &intent);
    no_crossing.health_critical_at_or_below = Some(25);
    assert!(!compare_material_state(&no_crossing)
        .facts
        .iter()
        .any(|fact| matches!(fact, MaterialInvalidationFact::HealthBecameCritical { .. })));
}

#[test]
fn new_hostile_and_hard_constraint_changes_trigger_only_their_conditions() {
    let accepted_intent = StrategicIntent {
        constraints: vec!["Keep one potion".to_owned()],
        avoid: vec!["lava".to_owned()],
        ..StrategicIntent::default()
    };
    let mut current_intent = accepted_intent.clone();
    current_intent.constraints = vec!["Do not enter caves".to_owned(), "Keep one potion".to_owned()];
    current_intent.avoid = vec!["lava".to_owned()];
    let accepted = frame(accepted_intent.clone());
    let packet = packet(&accepted, vec![TacticalAction::Stop]);
    let mut current = accepted.clone();
    current.nearby_entities.push(hostile("spider-2", Some(true)));
    current.combat.current_hostiles = 2;

    let report = compare_material_state(&compare(&packet, &accepted, &current, &accepted_intent, &current_intent));
    assert!(report.facts.iter().any(|fact| matches!(
        fact,
        MaterialInvalidationFact::NewHostile { entity_id: Some(id), .. } if id == "spider-2"
    )));
    assert!(report.facts.iter().any(|fact| matches!(
        fact,
        MaterialInvalidationFact::StrategicHardConstraintsChanged {
            constraints_changed: true,
            avoid_changed: false,
            ..
        }
    )));
    assert!(report.abort_condition_triggered(AbortCondition::NewHostile));
    assert!(report.abort_condition_triggered(AbortCondition::StrategicIntentChanged));
    assert!(!report.abort_condition_triggered(AbortCondition::TargetUnavailable));
}

#[test]
fn path_and_movement_require_explicit_factual_evidence() {
    let intent = StrategicIntent::default();
    let accepted = frame(intent.clone());
    let packet = packet(&accepted, vec![TacticalAction::MoveTo { tile_x: 4, tile_y: 8 }]);
    let mut current = accepted.clone();
    current.map.tiles.push(MapTile {
        position: TilePosition { x: 4, y: 8 },
        kind: TileKind::Blocked,
        walkable: Some(false),
    });
    let mut comparison = compare(&packet, &accepted, &current, &intent, &intent);
    comparison.execution = ExecutionValidityFacts {
        path_preflight: Some(PathPreflightStatus::Unreachable),
        movement_state: Some(MovementState::Stalled),
    };

    let report = compare_material_state(&comparison);
    assert!(report.facts.contains(&MaterialInvalidationFact::PathInvalidated {
        destination: Some(TilePosition { x: 4, y: 8 }),
        evidence: PathInvalidationEvidence::DestinationExplicitlyBlocked,
    }));
    assert!(report.facts.contains(&MaterialInvalidationFact::PathInvalidated {
        destination: Some(TilePosition { x: 4, y: 8 }),
        evidence: PathInvalidationEvidence::PathPreflightUnreachable,
    }));
    assert!(report.facts.contains(&MaterialInvalidationFact::MovementInvalidated { state: MovementState::Stalled }));
    assert!(report.abort_condition_triggered(AbortCondition::PathBlocked));
}

#[test]
fn reordered_constraints_and_unknown_execution_state_are_not_material() {
    let accepted_intent =
        StrategicIntent { constraints: vec!["alpha".to_owned(), "beta".to_owned()], ..StrategicIntent::default() };
    let mut current_intent = accepted_intent.clone();
    current_intent.constraints.reverse();
    let accepted = frame(accepted_intent.clone());
    let current = accepted.clone();
    let packet = packet(&accepted, vec![TacticalAction::Stop]);
    let mut comparison = compare(&packet, &accepted, &current, &accepted_intent, &current_intent);
    comparison.execution = ExecutionValidityFacts {
        path_preflight: Some(PathPreflightStatus::Unknown),
        movement_state: Some(MovementState::Moving),
    };
    assert_eq!(compare_material_state(&comparison), InvalidationReport::empty());
}
