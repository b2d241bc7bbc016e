use arena_harness::brain::strategic_intent::StrategicIntent;
use arena_harness::brain::tactical_frame::TacticalFrame;
use arena_harness::execution::movement::{
    ArrivalEvidence, BlockedReason, CancellationReason, InterruptionReason, MovementObservationRules,
    MovementOwnership, MovementProgress, MovementRequest, MovementState, PathPreflightStatus, RecoveryAttemptFact,
    RecoveryKind, RecoveryResult,
};
use arena_harness::world::{PixelPosition, Position, TilePosition};

const HOUR_MS: u64 = 60 * 60 * 1_000;

fn at(second: i64) -> i64 {
    second * 1_000
}

/// A position from whole pixels (held in thousandths of a pixel).
fn position(pixel_x: i64, pixel_y: i64, tile_x: i32, tile_y: i32) -> Position {
    Position {
        pixel: PixelPosition { x: pixel_x * 1_000, y: pixel_y * 1_000 },
        tile: TilePosition { x: tile_x, y: tile_y },
    }
}

fn request() -> MovementRequest {
    MovementRequest {
        ownership: MovementOwnership { movement_id: 1, decision_id: 2, packet_id: 3, action_index: 4 },
        destination: TilePosition { x: 2, y: 0 },
        requested_scene: Some("town".to_owned()),
        requested_at_ms: at(10),
        start_position: Some(position(16, 16, 0, 0)),
    }
}

fn frame(second: i64, scene: Option<&str>, position: Option<Position>, moving: Option<bool>) -> TacticalFrame {
    let mut frame = TacticalFrame::empty(StrategicIntent::default());
    frame.generated_at_ms = at(second);
    frame.self_state.scene = scene.map(str::to_owned);
    frame.self_state.position = position;
    frame.self_state.moving = moving;
    frame
}

fn rules(minimum_pixels: u64, stalled_after_observations: u32) -> MovementObservationRules {
    MovementObservationRules { minimum_progress_millipixels: minimum_pixels * 1_000, stalled_after_observations }
}

#[test]
fn preserves_runtime_movement_and_action_ownership() {
    let progress = MovementProgress::new(request(), HOUR_MS);
    assert_eq!(progress.request.ownership.movement_id, 1);
    assert_eq!(progress.request.ownership.decision_id, 2);
    assert_eq!(progress.request.ownership.packet_id, 3);
    assert_eq!(progress.request.ownership.action_index, 4);
}

#[test]
fn unreachable_preflight_is_a_blocked_fact() {
    let mut progress = MovementProgress::new(request(), HOUR_MS);
    progress.record_path_preflight(at(11), Some(false), None);
    assert_eq!(progress.state, MovementState::Blocked);
    assert_eq!(progress.path_preflight.status, PathPreflightStatus::Unreachable);
    assert_eq!(progress.blocked.as_ref().map(|fact| fact.reason), Some(BlockedReason::PathPreflightUnreachable));
    progress.record_started(at(12));
    assert_eq!(progress.started_at_ms, None, "terminal movement cannot restart");
}

#[test]
fn frames_record_pixel_progress_and_authoritative_arrival() {
    let mut progress = MovementProgress::new(request(), HOUR_MS);
    progress.record_path_preflight(at(11), Some(true), Some(2));
    progress.record_started(at(12));

    progress.observe_frame(
        &frame(13, Some("town"), Some(position(32, 16, 1, 0)), Some(true)),
        MovementObservationRules::default(),
    );
    assert_eq!(progress.state, MovementState::Moving);
    assert_eq!(progress.progress_observations, 1);
    assert_eq!(progress.observations_without_progress, 0);
    assert_eq!(progress.last_progress_at_ms, Some(at(13)));
    assert_eq!(progress.latest_position_observed_at_ms, Some(at(13)));
    assert_eq!(progress.observed_distance_millipixels, 16_000);
    let observation = progress.last_observation.as_ref().expect("movement fact");
    assert_eq!(observation.distance_from_previous_millipixels, Some(16_000));
    assert_eq!(observation.remaining_tile_distance, Some(1));

    let destination = position(80, 16, 2, 0);
    progress.observe_frame(&frame(14, Some("town"), Some(destination), Some(false)), MovementObservationRules::default());

    assert_eq!(progress.state, MovementState::Arrived);
    assert_eq!(progress.arrival.as_ref().and_then(|fact| fact.position), Some(destination));
    assert_eq!(progress.arrival.as_ref().map(|fact| fact.evidence), Some(ArrivalEvidence::PerceptionFrame));
    assert_eq!(progress.latest_position, Some(destination));
    assert_eq!(progress.latest_position_observed_at_ms, Some(at(14)));
    assert_eq!(progress.observed_distance_millipixels, 64_000);
}

#[test]
fn only_an_explicit_backend_arrival_marks_arrival() {
    let mut progress = MovementProgress::new(request(), HOUR_MS);
    progress.record_started(at(11));
    assert_eq!(progress.state, MovementState::Moving);
    assert!(progress.arrival.is_none());
    progress.record_backend_arrival(at(12));
    assert_eq!(progress.state, MovementState::Arrived);
    assert_eq!(progress.arrival.as_ref().map(|fact| fact.evidence), Some(ArrivalEvidence::BackendResult));
}

#[test]
fn repeated_unchanged_frames_classify_a_stall() {
    let mut progress = MovementProgress::new(request(), HOUR_MS);
    progress.record_started(at(11));
    let unchanged = Some(position(16, 16, 0, 0));
    let rules = rules(1, 3);
    progress.observe_frame(&frame(12, Some("town"), unchanged, Some(true)), rules);
    progress.observe_frame(&frame(13, Some("town"), unchanged, Some(true)), rules);
    assert_eq!(progress.state, MovementState::Moving);
    progress.observe_frame(&frame(14, Some("town"), unchanged, Some(true)), rules);
    assert_eq!(progress.state, MovementState::Stalled);
    assert_eq!(progress.observations_without_progress, 3);
}

#[test]
fn pixel_jitter_without_tile_change_classifies_a_doorway_stall() {
    let mut progress = MovementProgress::new(request(), HOUR_MS);
    progress.record_started(at(11));
    let rules = rules(1, 100);
    for index in 0..12i64 {
        let pixel = 16 + (index % 2) * 3;
        progress.observe_frame(&frame(12 + index, Some("town"), Some(position(pixel, 16, 0, 0)), Some(true)), rules);
    }
    assert_eq!(progress.state, MovementState::Stalled);
    assert_eq!(progress.observations_without_tile_change, 12);
}

#[test]
fn a_stopped_path_counts_toward_stall_classification() {
    let mut progress = MovementProgress::new(request(), HOUR_MS);
    progress.record_started(at(11));
    let rules = rules(1, 2);
    progress.observe_frame(&frame(12, Some("town"), Some(position(32, 16, 1, 0)), Some(false)), rules);
    assert_eq!(progress.state, MovementState::Moving);
    progress.observe_frame(&frame(13, Some("town"), Some(position(32, 16, 1, 0)), Some(false)), rules);
    assert_eq!(progress.state, MovementState::Stalled);
}

#[test]
fn scene_change_is_classified_separately_from_arrival() {
    let mut progress = MovementProgress::new(request(), HOUR_MS);
    progress.record_started(at(11));
    progress.observe_frame(
        &frame(12, Some("forest"), Some(position(16, 16, 0, 0)), Some(false)),
        MovementObservationRules::default(),
    );
    assert_eq!(progress.state, MovementState::SceneTransition);
    let transition = progress.scene_transition.clone().expect("transition fact");
    assert_eq!(transition.from_scene.as_deref(), Some("town"));
    assert_eq!(transition.to_scene.as_deref(), Some("forest"));
    assert_eq!(progress.latest_position_observed_at_ms, Some(at(12)));
}

#[test]
fn cancellation_and_interruption_are_distinct_terminal_facts() {
    let mut cancelled = MovementProgress::new(request(), HOUR_MS);
    cancelled.record_started(at(11));
    cancelled.cancel(at(12), CancellationReason::PacketSuperseded);
    assert_eq!(cancelled.state, MovementState::Cancelled);
    assert_eq!(cancelled.cancellation.as_ref().map(|fact| fact.reason), Some(CancellationReason::PacketSuperseded));

    let mut interrupted = MovementProgress::new(request(), HOUR_MS);
    interrupted.record_started(at(11));
    interrupted.interrupt(at(12), InterruptionReason::Combat);
    assert_eq!(interrupted.state, MovementState::Interrupted);
    assert_eq!(interrupted.interruption.as_ref().map(|fact| fact.reason), Some(InterruptionReason::Combat));
}

#[test]
fn recovery_attempts_are_facts_and_only_successful_unstick_starts_cooldown() {
    let mut progress = MovementProgress::new(request(), HOUR_MS);
    progress.record_recovery_attempt(RecoveryAttemptFact {
        attempt_id: 10,
        attempted_at_ms: at(20),
        kind: RecoveryKind::AdjacentReachableTile,
        target: Some(TilePosition { x: 1, y: 1 }),
        result: RecoveryResult::Failed,
    });
    progress.record_recovery_attempt(RecoveryAttemptFact {
        attempt_id: 11,
        attempted_at_ms: at(30),
        kind: RecoveryKind::Unstick,
        target: None,
        result: RecoveryResult::Failed,
    });
    assert!(progress.unstick_cooldown_facts(at(31)).available);

    progress.record_recovery_attempt(RecoveryAttemptFact {
        attempt_id: 12,
        attempted_at_ms: at(40),
        kind: RecoveryKind::Unstick,
        target: None,
        result: RecoveryResult::Succeeded,
    });
    let halfway = progress.unstick_cooldown_facts(at(40) + 30 * 60 * 1_000);
    assert!(!halfway.available);
    assert_eq!(halfway.remaining_ms, 30 * 60 * 1_000);
    assert_eq!(halfway.available_at_ms, Some(at(40) + 60 * 60 * 1_000));

    let elapsed = progress.unstick_cooldown_facts(at(40) + 60 * 60 * 1_000);
    assert!(elapsed.available);
    assert_eq!(elapsed.remaining_ms, 0);
    assert_eq!(progress.recovery_attempts.len(), 3);
    assert_eq!(progress.recovery_attempts[2].attempt_id, 12);

    let carried_cooldown = progress.unstick_cooldown;
    let mut later_movement = MovementProgress::new(request(), HOUR_MS);
    later_movement.unstick_cooldown = carried_cooldown;
    assert!(!later_movement.unstick_cooldown_facts(at(40) + 45 * 60 * 1_000).available);
}

#[test]
fn missing_position_does_not_create_false_stall_evidence() {
    let mut progress = MovementProgress::new(request(), HOUR_MS);
    progress.record_started(at(11));
    for second in 12..20 {
        progress.observe_frame(&frame(second, Some("town"), None, None), MovementObservationRules::default());
    }
    assert_eq!(progress.state, MovementState::Moving);
    assert_eq!(progress.observations_without_progress, 0);
}

#[test]
fn terminal_movement_ignores_every_later_fact() {
    let mut progress = MovementProgress::new(request(), HOUR_MS);
    progress.record_started(at(11));
    progress.cancel(at(12), CancellationReason::TacticalStop);
    progress.record_backend_arrival(at(13));
    progress.mark_blocked(at(13), BlockedReason::BackendRejected);
    progress.interrupt(at(13), InterruptionReason::PlayerDied);
    progress.observe_frame(&frame(14, Some("town"), Some(position(80, 16, 2, 0)), Some(false)), MovementObservationRules::default());
    assert_eq!(progress.state, MovementState::Cancelled);
    assert!(progress.arrival.is_none());
    assert!(progress.blocked.is_none());
    assert!(progress.interruption.is_none());
    assert_eq!(progress.latest_observed_at_ms, None);
}

#[test]
fn a_requested_movement_is_never_stalled() {
    let mut progress = MovementProgress::new(request(), HOUR_MS);
    let unchanged = Some(position(16, 16, 0, 0));
    for second in 12..30 {
        progress.observe_frame(&frame(second, Some("town"), unchanged, Some(true)), rules(1, 1));
    }
    assert_eq!(progress.state, MovementState::Requested);
    assert_eq!(progress.observations_without_tile_change, 18);
}
