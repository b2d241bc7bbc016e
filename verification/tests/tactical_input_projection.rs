use arena_harness::brain::strategic_intent::{NavigationGoal, StrategicIntent};
use arena_harness::brain::tactical_frame::{Drop, EntityKind, TacticalFrame, VisibleEntity};
use arena_harness::brain::tactical_input::{
    tactical_preemption_facts, MovementControlOwner, MovementControlState, TacticalInput, TacticalPreemptionFact,
};
use arena_harness::execution::outcome::{ActionOutcome, OutcomeStatus};
use arena_harness::world::{
    CardinalDirection, GameEvent, GameEventKind, GameEventOrigin, LocalMap, MapTile, PixelPosition, Position,
    ReachableExit, ReachableWaypoint, TileKind, TilePosition,
};

fn no_paths() -> Vec<(TilePosition, u32)> {
    Vec::new()
}

fn event(sequence: u64, at_ms: i64, origin: GameEventOrigin, kind: GameEventKind, detail: Option<String>) -> GameEvent {
    GameEvent { sequence: Some(sequence), observed_at_ms: at_ms, origin, kind, entity_id: None, amount: None, tile: None, detail }
}

#[test]
fn excludes_structured_tiles_but_keeps_ascii_and_exact_world_lists() {
    let mut frame = TacticalFrame::empty(StrategicIntent::default());
    frame.revision = 18;
    frame.map = LocalMap {
        revision: 4,
        origin_tile_x: 10,
        origin_tile_y: 20,
        width: 33,
        height: 33,
        tiles: (0..1_089)
            .map(|offset| MapTile {
                position: TilePosition { x: offset % 33, y: offset / 33 },
                kind: TileKind::Traversable,
                walkable: Some(true),
            })
            .collect(),
        doors: Vec::new(),
        ascii: "...\n.@S\n...".to_owned(),
    };
    frame.nearby_entities.push(VisibleEntity {
        id: "enemy-1".to_owned(),
        backend_object_id: Some(1),
        label: "Spider".to_owned(),
        kind: EntityKind::Enemy,
        tile: Some(TilePosition { x: 12, y: 21 }),
        relative: Some(TilePosition { x: 1, y: 0 }),
        distance_millitiles: Some(1_000),
        alive: Some(true),
        is_merchant: Some(false),
        interactable: Some(false),
        hostile: Some(true),
        targeting_you: Some(true),
    });
    frame.nearby_drops.push(Drop {
        id: "drop-1".to_owned(),
        item_id: Some("silk".to_owned()),
        label: Some("Spider Silk".to_owned()),
        tile: Some(TilePosition { x: 11, y: 21 }),
        relative: Some(TilePosition { x: 0, y: 0 }),
        distance_millitiles: Some(0),
    });
    frame.local_waypoints.push(ReachableWaypoint {
        tile: TilePosition { x: 13, y: 21 },
        direction: CardinalDirection::East,
        path_length_tiles: 3,
    });

    let input = TacticalInput::from_frame(frame, &no_paths());
    assert_eq!(input.frame_revision, 18);
    assert_eq!(input.local_map.ascii, "...\n.@S\n...");
    assert_eq!(input.local_map.width, 33);
    assert_eq!(input.nearby_entities[0].id, "enemy-1");
    assert_eq!(input.nearby_drops[0].id, "drop-1");
    assert_eq!(input.local_waypoints[0].direction, CardinalDirection::East);
    assert_eq!(input.local_waypoints[0].tile.x, 13);
}

#[test]
fn keeps_failed_movement_destination_in_compact_model_input() {
    let mut frame = TacticalFrame::empty(StrategicIntent::default());
    let now = frame.generated_at_ms;
    frame.recent_actions.push(ActionOutcome {
        packet_id: 1,
        decision_id: 2,
        action_id: 3,
        action_index: 0,
        action_kind: "move_to".to_owned(),
        started_at_ms: now,
        recorded_at_ms: now,
        duration_ms: 1_750,
        status: OutcomeStatus::Failed,
        reason_code: Some("movement_stalled".to_owned()),
        detail: "movement_stalled".to_owned(),
        destination_tile: Some(TilePosition { x: 16, y: 20 }),
        source_frame_revision: 7,
        strategic_revision: 3,
        resulting_frame_revision: Some(8),
    });
    let input = TacticalInput::from_frame(frame, &no_paths());
    assert_eq!(input.recent_actions[0].destination_tile, Some(TilePosition { x: 16, y: 20 }));
    assert_eq!(input.recent_actions[0].reason_code.as_deref(), Some("movement_stalled"));
}

#[test]
fn keeps_complete_scene_transition_names_in_tactical_input() {
    let mut frame = TacticalFrame::empty(StrategicIntent::default());
    let now = frame.generated_at_ms;
    frame.recent_events.push(event(8, now, GameEventOrigin::Derived, GameEventKind::SceneLeft, Some("town-square".to_owned())));
    frame.recent_events.push(event(9, now, GameEventOrigin::Derived, GameEventKind::SceneEntered, Some("bot-forest".to_owned())));
    let input = TacticalInput::from_frame(frame, &no_paths());
    assert_eq!(input.recent_events[0].detail.as_deref(), Some("town-square"));
    assert_eq!(input.recent_events[1].detail.as_deref(), Some("bot-forest"));
}

#[test]
fn movement_control_separates_policy_from_current_preemption_facts() {
    let mut frame = TacticalFrame::empty(StrategicIntent::default());
    let now = frame.generated_at_ms;
    frame.strategic_intent.navigation_goal = Some(NavigationGoal {
        scene: "bot-forest".to_owned(),
        destination: None,
        reason: "find the northern trail".to_owned(),
    });

    let quiet = TacticalInput::from_frame(frame.clone(), &no_paths()).movement_control;
    assert_eq!(quiet.owner, MovementControlOwner::BodyStrategicNavigation);
    assert_eq!(quiet.state, MovementControlState::Assigned);
    assert!(!quiet.tactical_preemption_allowed_for.is_empty());
    assert!(quiet.tactical_preemption_facts_present.is_empty());

    frame.recent_events.push(GameEvent {
        sequence: Some(10),
        observed_at_ms: now,
        origin: GameEventOrigin::Backend,
        kind: GameEventKind::DamageTaken,
        entity_id: Some("spider-1".to_owned()),
        amount: Some(8),
        tile: None,
        detail: None,
    });
    let damaged = TacticalInput::from_frame(frame, &no_paths()).movement_control;
    assert_eq!(damaged.tactical_preemption_facts_present, [TacticalPreemptionFact::DamageTaken]);
}

#[test]
fn compact_projection_keeps_whole_record_text_instead_of_chopping_strings() {
    let detail = "x".repeat(700);
    let mut frame = TacticalFrame::empty(StrategicIntent::default());
    let now = frame.generated_at_ms;
    frame.recent_events.push(event(11, now, GameEventOrigin::Backend, GameEventKind::SceneEntered, Some(detail.clone())));
    let input = TacticalInput::from_frame(frame, &no_paths());
    assert_eq!(input.recent_events[0].detail.as_deref(), Some(detail.as_str()));
}

#[test]
fn supplies_reachable_adjacent_tiles_for_model_selected_entities() {
    let mut frame = TacticalFrame::empty(StrategicIntent::default());
    frame.self_state.position = Some(Position {
        pixel: PixelPosition { x: 32_000, y: 32_000 },
        tile: TilePosition { x: 1, y: 1 },
    });
    frame.map = LocalMap {
        revision: 1,
        origin_tile_x: 0,
        origin_tile_y: 0,
        width: 5,
        height: 3,
        tiles: (0..3)
            .flat_map(|y| {
                (0..5).map(move |x| MapTile {
                    position: TilePosition { x, y },
                    kind: TileKind::Traversable,
                    walkable: Some(true),
                })
            })
            .collect(),
        doors: Vec::new(),
        ascii: ".....\n.@.S.\n.....".to_owned(),
    };
    frame.nearby_entities.push(VisibleEntity {
        id: "npc-7".to_owned(),
        backend_object_id: Some(7),
        label: "Archivist".to_owned(),
        kind: EntityKind::Npc,
        tile: Some(TilePosition { x: 3, y: 1 }),
        relative: Some(TilePosition { x: 2, y: 0 }),
        distance_millitiles: Some(2_000),
        alive: Some(true),
        is_merchant: Some(false),
        interactable: Some(true),
        hostile: Some(false),
        targeting_you: Some(false),
    });
    // The local path table from (1, 1) over the open 5 by 3 map.
    let mut paths = Vec::new();
    for y in 0..3i32 {
        for x in 0..5i32 {
            paths.push((TilePosition { x, y }, ((x - 1).abs() + (y - 1).abs()) as u32));
        }
    }

    let input = TacticalInput::from_frame(frame, &paths);
    assert_eq!(input.entity_approaches.len(), 1);
    assert_eq!(input.entity_approaches[0].entity_id, "npc-7");
    assert!(input.entity_approaches[0].candidates.iter().any(|candidate| candidate.tile == TilePosition { x: 2, y: 1 }));
    assert!(input.entity_approaches[0].candidates.iter().all(|candidate| candidate.tile != TilePosition { x: 3, y: 1 }));
    let order: Vec<(u32, i32, i32)> = input.entity_approaches[0]
        .candidates
        .iter()
        .map(|c| (c.path_length_tiles, c.tile.y, c.tile.x))
        .collect();
    assert_eq!(order, [(1, 1, 2), (3, 0, 3), (3, 1, 4), (3, 2, 3)]);
}

#[test]
fn exits_back_to_the_scene_just_left_are_hidden_unless_the_strategy_returns() {
    let mut frame = TacticalFrame::empty(StrategicIntent::default());
    let now = frame.generated_at_ms;
    frame.recent_events.push(event(1, now, GameEventOrigin::Derived, GameEventKind::SceneLeft, Some("town".to_owned())));
    for scene in ["town", "forest"] {
        frame.exits.push(ReachableExit {
            tile: TilePosition { x: 0, y: 0 },
            destination_scene: Some(scene.to_owned()),
            label: None,
            path_length_tiles: 2,
        });
    }
    let input = TacticalInput::from_frame(frame.clone(), &no_paths());
    assert_eq!(input.exits.len(), 1);
    assert_eq!(input.exits[0].destination_scene.as_deref(), Some("forest"));

    frame.strategic_intent.navigation_goal =
        Some(NavigationGoal { scene: "town".to_owned(), destination: None, reason: "return".to_owned() });
    let input = TacticalInput::from_frame(frame, &no_paths());
    assert_eq!(input.exits.len(), 2);
}

#[test]
fn only_recent_events_permit_preemption_and_ages_never_go_negative() {
    let mut frame = TacticalFrame::empty(StrategicIntent::default());
    let now = frame.generated_at_ms;
    frame.recent_events.push(event(1, now - 2_001, GameEventOrigin::Backend, GameEventKind::DamageTaken, None));
    frame.recent_events.push(event(2, now + 50, GameEventOrigin::Backend, GameEventKind::MovementFailed, None));
    assert!(tactical_preemption_facts(&frame).is_empty());
    frame.combat.active = Some(true);
    frame.recent_events.push(event(3, now - 2_000, GameEventOrigin::Backend, GameEventKind::DamageTaken, None));
    assert_eq!(
        tactical_preemption_facts(&frame),
        [TacticalPreemptionFact::CombatActive, TacticalPreemptionFact::DamageTaken]
    );
    let input = TacticalInput::from_frame(frame, &no_paths());
    assert_eq!(input.recent_events[0].age_ms, 2_001);
    assert_eq!(input.recent_events[1].age_ms, 0);
}

#[test]
fn only_the_newest_events_and_actions_are_shown() {
    let mut frame = TacticalFrame::empty(StrategicIntent::default());
    let now = frame.generated_at_ms;
    for sequence in 0..25u64 {
        frame.recent_events.push(event(sequence, now, GameEventOrigin::Backend, GameEventKind::Other, None));
    }
    let input = TacticalInput::from_frame(frame, &no_paths());
    assert_eq!(input.recent_events.len(), 20);
    assert_eq!(input.recent_events[0].sequence, Some(5));
}
