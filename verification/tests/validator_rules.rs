use arena_harness::brain::strategic_intent::{NavigationGoal, StrategicIntent};
use arena_harness::brain::tactical_frame::{
    CombatActionAvailability, EntityKind, TacticalFrame, TargetKind, VisibleEntity,
};
use arena_harness::character::{Capability, CapabilitySet};
use arena_harness::execution::packet::{ActionPacket, TacticalAction, TacticalIntent, TacticalProposal};
use arena_harness::execution::validator::{validate_action, validate_packet, ActionRejected, ValidationContext};
use arena_harness::world::{MapTile, ReachableExit, TileKind, TilePosition};

fn frame() -> TacticalFrame {
    let mut frame = TacticalFrame::empty(StrategicIntent { revision: 4, ..StrategicIntent::default() });
    frame.revision = 10;
    frame.self_state.alive = Some(true);
    frame.nearby_entities.push(VisibleEntity {
        id: "spider-1".to_owned(),
        backend_object_id: Some(1),
        label: "Spider".to_owned(),
        kind: EntityKind::Enemy,
        tile: Some(TilePosition { x: 1, y: 1 }),
        relative: Some(TilePosition { x: 1, y: 1 }),
        distance_millitiles: Some(1_400),
        alive: Some(true),
        is_merchant: Some(false),
        interactable: Some(false),
        hostile: Some(true),
        targeting_you: Some(true),
    });
    frame
}

fn packet(frame: &TacticalFrame, action: TacticalAction) -> ActionPacket {
    ActionPacket::from_proposal(
        7,
        frame.revision,
        frame.strategic_intent.revision,
        frame.self_state.scene.clone(),
        TacticalProposal {
            intent: TacticalIntent::Attack,
            actions: vec![action],
            valid_for_ms: 1_800,
            abort_if: Vec::new(),
            rationale: None,
        },
    )
}

fn capabilities(list: &[Capability]) -> CapabilitySet {
    CapabilitySet::from_list(list)
}

fn context<'a>(
    frame: &'a TacticalFrame,
    capabilities: &'a CapabilitySet,
    minimum: u64,
    now_ms: i64,
) -> ValidationContext<'a> {
    ValidationContext {
        minimum_valid_frame_revision: minimum,
        current_strategic_revision: frame.strategic_intent.revision,
        now_ms,
        capabilities,
        frame,
    }
}

#[test]
fn rejects_offensive_actions_during_blind_combat() {
    let mut frame = frame();
    frame.combat.active = Some(true);
    frame.self_state.health = None;
    frame.self_state.max_health = None;
    let packet = packet(&frame, TacticalAction::Attack { target_id: "spider-1".to_owned() });
    let capabilities = capabilities(&[Capability::Fight]);
    let context = context(&frame, &capabilities, 0, packet.created_at_ms);
    assert_eq!(validate_packet(&packet, &context), Err(ActionRejected::MissingCombatHealth));
}

#[test]
fn accepts_visible_hostile_for_fighter() {
    let frame = frame();
    let capabilities = capabilities(&[Capability::Fight]);
    let packet = packet(&frame, TacticalAction::Attack { target_id: "spider-1".to_owned() });
    let context = context(&frame, &capabilities, 10, packet.created_at_ms);
    assert_eq!(validate_packet(&packet, &context), Ok(()));
}

#[test]
fn accepts_unknown_alive_state_but_rejects_explicit_death() {
    let mut frame = frame();
    frame.self_state.alive = None;
    let capabilities = capabilities(&[Capability::Walk]);
    let packet = packet(&frame, TacticalAction::Stop);
    {
        let context = context(&frame, &capabilities, 10, packet.created_at_ms);
        assert_eq!(validate_packet(&packet, &context), Ok(()));
    }
    frame.self_state.alive = Some(false);
    let dead_context = context(&frame, &capabilities, 10, packet.created_at_ms);
    assert_eq!(validate_packet(&packet, &dead_context), Err(ActionRejected::PlayerUnavailable));
}

#[test]
fn rejects_hallucinated_target_before_execution() {
    let frame = frame();
    let capabilities = capabilities(&[Capability::Fight]);
    let packet = packet(&frame, TacticalAction::Attack { target_id: "dragon-9".to_owned() });
    let context = context(&frame, &capabilities, 10, packet.created_at_ms);
    assert_eq!(validate_packet(&packet, &context), Err(ActionRejected::UnknownTarget("dragon-9".to_owned())));
}

#[test]
fn rejects_expired_packet_and_scene_change_before_action_validation() {
    let mut frame = frame();
    frame.self_state.scene = Some("town".to_owned());
    let capabilities = capabilities(&[Capability::Walk]);
    let mut expired = packet(&frame, TacticalAction::Stop);
    let now_ms = expired.created_at_ms;
    expired.created_at_ms = now_ms - 2_000;
    expired.proposal.valid_for_ms = 100;
    let context = context(&frame, &capabilities, 10, now_ms);
    assert_eq!(validate_packet(&expired, &context), Err(ActionRejected::Expired));

    let mut wrong_scene = packet(&frame, TacticalAction::Stop);
    wrong_scene.created_at_ms = now_ms;
    wrong_scene.scene = Some("forest".to_owned());
    assert_eq!(
        validate_packet(&wrong_scene, &context),
        Err(ActionRejected::SceneChanged { packet: Some("forest".to_owned()), current: Some("town".to_owned()) })
    );
}

#[test]
fn accepts_backend_legal_skill_when_runtime_availability_is_unknown() {
    let mut frame = frame();
    frame.self_state.combat_actions.push(CombatActionAvailability {
        id: "slash".to_owned(),
        available: None,
        cooldown_remaining_ms: None,
        target_kind: TargetKind::Entity,
    });
    let capabilities = capabilities(&[Capability::Fight]);
    let packet = packet(
        &frame,
        TacticalAction::UseSkill { skill_id: "slash".to_owned(), target_id: Some("spider-1".to_owned()) },
    );
    let context = context(&frame, &capabilities, 10, packet.created_at_ms);
    assert_eq!(validate_packet(&packet, &context), Ok(()));
}

#[test]
fn accepts_an_empty_continue_as_an_explicit_no_op() {
    let frame = frame();
    let capabilities = CapabilitySet::new();
    let packet = ActionPacket::from_proposal(
        8,
        frame.revision,
        frame.strategic_intent.revision,
        frame.self_state.scene.clone(),
        TacticalProposal {
            intent: TacticalIntent::Continue,
            actions: Vec::new(),
            valid_for_ms: 500,
            abort_if: Vec::new(),
            rationale: None,
        },
    );
    let context = context(&frame, &capabilities, frame.revision, packet.created_at_ms);
    assert_eq!(validate_packet(&packet, &context), Ok(()));
}

#[test]
fn rejects_unknown_and_explicitly_blocked_movement_destinations() {
    let mut frame = frame();
    frame.map.tiles =
        vec![MapTile { position: TilePosition { x: 2, y: 3 }, kind: TileKind::Blocked, walkable: Some(false) }];
    let capabilities = capabilities(&[Capability::Walk]);
    let unknown = packet(&frame, TacticalAction::MoveTo { tile_x: 99, tile_y: 99 });
    let context = context(&frame, &capabilities, frame.revision, unknown.created_at_ms);
    assert_eq!(
        validate_packet(&unknown, &context),
        Err(ActionRejected::UnknownDestination { tile_x: 99, tile_y: 99 })
    );
    let mut blocked = packet(&frame, TacticalAction::MoveTo { tile_x: 2, tile_y: 3 });
    blocked.created_at_ms = unknown.created_at_ms;
    assert_eq!(
        validate_packet(&blocked, &context),
        Err(ActionRejected::BlockedDestination { tile_x: 2, tile_y: 3 })
    );
}

#[test]
fn a_reachable_exit_requires_the_generic_doors_capability() {
    let mut frame = frame();
    let destination = TilePosition { x: 2, y: 3 };
    frame.map.tiles = vec![MapTile { position: destination, kind: TileKind::Door, walkable: Some(true) }];
    frame.exits.push(ReachableExit {
        tile: destination,
        destination_scene: Some("forest".to_owned()),
        label: Some("forest door".to_owned()),
        path_length_tiles: 4,
    });
    let action = TacticalAction::MoveTo { tile_x: destination.x, tile_y: destination.y };

    let walking_only = capabilities(&[Capability::Walk]);
    let walking_context = context(&frame, &walking_only, frame.revision, 0);
    assert_eq!(validate_action(&action, &walking_context), Err(ActionRejected::MissingCapability(Capability::Doors)));

    let walking_and_doors = capabilities(&[Capability::Walk, Capability::Doors]);
    let door_context = ValidationContext { capabilities: &walking_and_doors, ..walking_context };
    assert_eq!(validate_action(&action, &door_context), Ok(()));
}

#[test]
fn strategic_navigation_rejects_idle_tactical_reposition_but_not_danger_preemption() {
    let mut frame = frame();
    frame.nearby_entities.clear();
    frame.strategic_intent.navigation_goal = Some(NavigationGoal {
        scene: "forest".to_owned(),
        destination: None,
        reason: "continue the durable journey".to_owned(),
    });
    let destination = TilePosition { x: 2, y: 3 };
    frame.map.tiles = vec![MapTile { position: destination, kind: TileKind::Traversable, walkable: Some(true) }];
    let capabilities = capabilities(&[Capability::Walk]);
    let proposal = TacticalProposal {
        intent: TacticalIntent::Reposition,
        actions: vec![TacticalAction::MoveTo { tile_x: destination.x, tile_y: destination.y }],
        valid_for_ms: 1_000,
        abort_if: Vec::new(),
        rationale: None,
    };
    let packet = ActionPacket::from_proposal(
        9,
        frame.revision,
        frame.strategic_intent.revision,
        frame.self_state.scene.clone(),
        proposal,
    );
    {
        let context = context(&frame, &capabilities, frame.revision, packet.created_at_ms);
        assert_eq!(validate_packet(&packet, &context), Ok(()));
    }
    frame.combat.active = Some(true);
    frame.self_state.health = Some(50);
    frame.self_state.max_health = Some(100);
    let danger_context = context(&frame, &capabilities, frame.revision, packet.created_at_ms);
    assert_eq!(validate_packet(&packet, &danger_context), Ok(()));
}

#[test]
fn stale_frames_and_strategies_are_refused_first() {
    let frame = frame();
    let capabilities = capabilities(&[Capability::Walk]);
    let packet = packet(&frame, TacticalAction::Stop);
    let context = context(&frame, &capabilities, 11, packet.created_at_ms);
    assert_eq!(validate_packet(&packet, &context), Err(ActionRejected::StaleFrame { packet: 10, minimum: 11 }));
    let moved_on = ValidationContext { minimum_valid_frame_revision: 10, current_strategic_revision: 5, ..context };
    assert_eq!(validate_packet(&packet, &moved_on), Err(ActionRejected::StaleStrategy { packet: 4, current: 5 }));
    assert_eq!(ActionRejected::StaleFrame { packet: 1, minimum: 2 }.reason_code(), "stale_frame");
}

#[test]
fn rejection_codes_name_their_kind_alone() {
    let rejections = vec![
        ActionRejected::StaleFrame { packet: 1, minimum: 2 },
        ActionRejected::StaleStrategy { packet: 1, current: 2 },
        ActionRejected::PlayerUnavailable,
        ActionRejected::MissingCombatHealth,
        ActionRejected::MissingCapability(Capability::Walk),
        ActionRejected::UnknownTarget("a".to_owned()),
        ActionRejected::UnknownDrop("b".to_owned()),
        ActionRejected::UnavailableItem("c".to_owned()),
        ActionRejected::UnavailableSkill("d".to_owned()),
        ActionRejected::UnknownDestination { tile_x: 1, tile_y: 2 },
        ActionRejected::BlockedDestination { tile_x: 1, tile_y: 2 },
        ActionRejected::StrategicNavigationOwnsMovement,
        ActionRejected::EmptyPacket,
        ActionRejected::InvalidLifetime,
        ActionRejected::Expired,
        ActionRejected::SceneChanged { packet: None, current: Some("x".to_owned()) },
    ];
    let codes: Vec<&str> = rejections.iter().map(|r| r.reason_code()).collect();
    let mut distinct = codes.clone();
    distinct.sort();
    distinct.dedup();
    assert_eq!(distinct.len(), 16);
    assert_eq!(codes[0], "stale_frame");
    assert_eq!(codes[11], "strategic_navigation_owns_movement");
    assert_eq!(ActionRejected::UnknownTarget("other".to_owned()).reason_code(), "unknown_target");
}
