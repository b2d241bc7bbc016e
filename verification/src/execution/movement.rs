//! Physical movement facts: navigation missions, and the frame-driven reducer
//! that classifies one movement action.

use vstd::prelude::*;

use crate::brain::tactical_frame::TacticalFrame;
use crate::text::optional_text;
use crate::world::{Position, TilePosition, distance_between, pixel_distance};

verus! {

/// One optional route hint for a longer navigation mission.
#[derive(Debug, Clone)]
pub struct NavigationWaypoint {
    pub scene: String,
    pub tile: TilePosition,
    pub transition_to_scene: Option<String>,
}

#[derive(Debug, Clone, Copy, PartialEq, Eq, Structural)]
pub enum NavigationMissionState {
    Active,
    Paused,
    Arrived,
    Failed,
    Cancelled,
    Superseded,
}

#[derive(Debug, Clone, Copy, PartialEq, Eq, Structural)]
pub enum NavigationAttemptKind {
    PathPreflight,
    MoveTo,
    EnterDoor,
    Stop,
}

#[derive(Debug, Clone, Copy, PartialEq, Eq, Structural)]
pub enum MovementState {
    Requested,
    Moving,
    Arrived,
    Stalled,
    Blocked,
    Cancelled,
    Interrupted,
    SceneTransition,
}

/// Once a movement reaches one of these states no later fact changes it.
pub open spec fn state_is_terminal(state: MovementState) -> bool {
    !(state == MovementState::Requested || state == MovementState::Moving)
}

impl MovementState {
    pub fn is_terminal(self) -> (terminal: bool)
        ensures
            terminal == state_is_terminal(self),
    {
        !matches!(self, MovementState::Requested | MovementState::Moving)
    }
}

#[derive(Debug, Clone, Copy, PartialEq, Eq, Structural)]
pub enum PathPreflightStatus {
    NotChecked,
    Reachable,
    Unreachable,
    Unknown,
}

#[derive(Debug, Clone, Copy, PartialEq, Eq, Structural)]
pub enum ArrivalEvidence {
    BackendResult,
    PerceptionFrame,
}

pub open spec fn arrival_evidence_label(evidence: ArrivalEvidence) -> Seq<char> {
    match evidence {
        ArrivalEvidence::BackendResult => "backend_result"@,
        ArrivalEvidence::PerceptionFrame => "perception_frame"@,
    }
}

impl ArrivalEvidence {
    pub fn as_str(self) -> (name: &'static str)
        ensures
            name@ == arrival_evidence_label(self),
    {
        match self {
            ArrivalEvidence::BackendResult => "backend_result",
            ArrivalEvidence::PerceptionFrame => "perception_frame",
        }
    }
}

#[derive(Debug, Clone, Copy, PartialEq, Eq, Structural)]
pub enum BlockedReason {
    PathPreflightUnreachable,
    PathInvalidated,
    BackendRejected,
    NoReachableRecovery,
}

#[derive(Debug, Clone, Copy, PartialEq, Eq, Structural)]
pub enum CancellationReason {
    PacketSuperseded,
    TacticalStop,
    RuntimeShutdown,
    SessionInvalidated,
}

#[derive(Debug, Clone, Copy, PartialEq, Eq, Structural)]
pub enum InterruptionReason {
    Combat,
    PlayerDied,
    HealthChanged,
    NewHostile,
    StrategicConstraintChanged,
    TargetUnavailable,
}

#[derive(Debug, Clone, Copy, PartialEq, Eq, Structural)]
pub enum RecoveryKind {
    AlternatePath,
    AdjacentReachableTile,
    StopAndRetry,
    DoorApproach,
    Unstick,
}

#[derive(Debug, Clone, Copy, PartialEq, Eq, Structural)]
pub enum RecoveryResult {
    Started,
    Succeeded,
    Failed,
    Unavailable,
}


// ---------------------------------------------------------------------------
// Movement facts
// ---------------------------------------------------------------------------

/// Runtime identity for one movement action (128-bit UUID values).
#[derive(Debug, Clone, Copy, PartialEq, Eq, Structural)]
pub struct MovementOwnership {
    pub movement_id: u128,
    pub decision_id: u128,
    pub packet_id: u128,
    pub action_index: usize,
}

/// One requested movement. Times are milliseconds since the Unix epoch.
#[derive(Debug, Clone)]
pub struct MovementRequest {
    pub ownership: MovementOwnership,
    pub destination: TilePosition,
    pub requested_scene: Option<String>,
    pub requested_at_ms: i64,
    pub start_position: Option<Position>,
}

/// When two observed positions count as progress, and when its absence is a stall.
#[derive(Debug, Clone, Copy, PartialEq, Eq, Structural)]
pub struct MovementObservationRules {
    /// The smallest step, in millipixels, that counts as progress.
    pub minimum_progress_millipixels: u64,
    pub stalled_after_observations: u32,
}

impl Default for MovementObservationRules {
    fn default() -> (rules: MovementObservationRules)
        ensures
            rules.minimum_progress_millipixels == 1000,
            rules.stalled_after_observations == 3,
    {
        MovementObservationRules { minimum_progress_millipixels: 1000, stalled_after_observations: 3 }
    }
}

#[derive(Debug, Clone, Copy, PartialEq, Eq, Structural)]
pub struct PathPreflightFact {
    pub status: PathPreflightStatus,
    pub checked_at_ms: Option<i64>,
    pub path_length_tiles: Option<u32>,
}

#[derive(Debug, Clone)]
pub struct MovementObservationFact {
    pub observed_at_ms: i64,
    pub scene: Option<String>,
    pub position: Option<Position>,
    pub backend_reports_moving: Option<bool>,
    pub made_progress: bool,
    pub distance_from_previous_millipixels: Option<u64>,
    pub remaining_tile_distance: Option<u32>,
    pub reached_destination: bool,
}

#[derive(Debug, Clone, Copy, PartialEq, Eq, Structural)]
pub struct ArrivalFact {
    pub observed_at_ms: i64,
    pub position: Option<Position>,
    pub evidence: ArrivalEvidence,
}

#[derive(Debug, Clone)]
pub struct SceneTransitionFact {
    pub observed_at_ms: i64,
    pub from_scene: Option<String>,
    pub to_scene: Option<String>,
    pub position: Option<Position>,
}

#[derive(Debug, Clone, Copy, PartialEq, Eq, Structural)]
pub struct BlockedFact {
    pub observed_at_ms: i64,
    pub reason: BlockedReason,
}

#[derive(Debug, Clone, Copy, PartialEq, Eq, Structural)]
pub struct CancellationFact {
    pub cancelled_at_ms: i64,
    pub reason: CancellationReason,
}

#[derive(Debug, Clone, Copy, PartialEq, Eq, Structural)]
pub struct InterruptionFact {
    pub interrupted_at_ms: i64,
    pub reason: InterruptionReason,
}

#[derive(Debug, Clone, Copy, PartialEq, Eq, Structural)]
pub struct RecoveryAttemptFact {
    pub attempt_id: u128,
    pub attempted_at_ms: i64,
    pub kind: RecoveryKind,
    pub target: Option<TilePosition>,
    pub result: RecoveryResult,
}

#[derive(Debug, Clone, Copy, PartialEq, Eq, Structural)]
pub struct UnstickCooldownFacts {
    pub cooldown_ms: u64,
    pub last_successful_unstick_at_ms: Option<i64>,
    pub available_at_ms: Option<i64>,
    pub remaining_ms: u64,
    pub available: bool,
}

/// Cooldown history that can be carried across movement actions.
///
/// Recording an attempt does not authorize it; this only records whether a
/// previously selected unstick succeeded and derives the resulting time facts.
#[derive(Debug, Clone, Copy, PartialEq, Eq, Structural)]
pub struct UnstickCooldown {
    pub cooldown_ms: u64,
    pub last_successful_unstick_at_ms: Option<i64>,
}

/// The cooldown after recording `attempt`: only a later successful unstick moves it.
pub open spec fn cooldown_after(cooldown: UnstickCooldown, attempt: RecoveryAttemptFact) -> UnstickCooldown {
    if attempt.kind == RecoveryKind::Unstick && attempt.result == RecoveryResult::Succeeded && (
    match cooldown.last_successful_unstick_at_ms {
        None => true,
        Some(previous) => attempt.attempted_at_ms > previous,
    }) {
        UnstickCooldown { last_successful_unstick_at_ms: Some(attempt.attempted_at_ms), ..cooldown }
    } else {
        cooldown
    }
}

/// The cooldown's time facts at `now_ms`.
pub open spec fn cooldown_facts(cooldown: UnstickCooldown, now_ms: i64) -> UnstickCooldownFacts {
    let available_at: Option<i64> = match cooldown.last_successful_unstick_at_ms {
        None => None,
        Some(last) => if last + cooldown.cooldown_ms <= i64::MAX {
            Some((last + cooldown.cooldown_ms) as i64)
        } else {
            None
        },
    };
    let remaining: u64 = match (cooldown.last_successful_unstick_at_ms, available_at) {
        (None, _) => 0,
        (Some(_), None) => u64::MAX,
        (Some(_), Some(at)) => if at - now_ms > 0 {
            (at - now_ms) as u64
        } else {
            0
        },
    };
    UnstickCooldownFacts {
        cooldown_ms: cooldown.cooldown_ms,
        last_successful_unstick_at_ms: cooldown.last_successful_unstick_at_ms,
        available_at_ms: available_at,
        remaining_ms: remaining,
        available: remaining == 0,
    }
}

impl UnstickCooldown {
    pub open spec fn spec_new(cooldown_ms: u64) -> UnstickCooldown {
        UnstickCooldown { cooldown_ms, last_successful_unstick_at_ms: None }
    }

    pub fn new(cooldown_ms: u64) -> (cooldown: UnstickCooldown)
        ensures
            cooldown == UnstickCooldown::spec_new(cooldown_ms),
    {
        UnstickCooldown { cooldown_ms, last_successful_unstick_at_ms: None }
    }

    pub fn record_attempt(&mut self, attempt: &RecoveryAttemptFact)
        ensures
            *final(self) == cooldown_after(*old(self), *attempt),
    {
        let later = match self.last_successful_unstick_at_ms {
            None => true,
            Some(previous) => attempt.attempted_at_ms > previous,
        };
        if attempt.kind == RecoveryKind::Unstick && attempt.result == RecoveryResult::Succeeded
            && later {
            self.last_successful_unstick_at_ms = Some(attempt.attempted_at_ms);
        }
    }

    pub fn facts(&self, now_ms: i64) -> (facts: UnstickCooldownFacts)
        ensures
            facts == cooldown_facts(*self, now_ms),
    {
        let available_at: Option<i64> = match self.last_successful_unstick_at_ms {
            None => None,
            Some(last) => {
                let sum: i128 = last as i128 + self.cooldown_ms as i128;
                if sum <= i64::MAX as i128 {
                    Some(sum as i64)
                } else {
                    None
                }
            },
        };
        let remaining_ms: u64 = match (self.last_successful_unstick_at_ms, available_at) {
            (None, _) => 0,
            (Some(_), None) => u64::MAX,
            (Some(_), Some(at)) => {
                let gap: i128 = at as i128 - now_ms as i128;
                if gap > 0 {
                    gap as u64
                } else {
                    0
                }
            },
        };
        UnstickCooldownFacts {
            cooldown_ms: self.cooldown_ms,
            last_successful_unstick_at_ms: self.last_successful_unstick_at_ms,
            available_at_ms: available_at,
            remaining_ms,
            available: remaining_ms == 0,
        }
    }
}


// ---------------------------------------------------------------------------
// The reducer
// ---------------------------------------------------------------------------

/// Frame-driven physical movement facts for one requested action.
///
/// This type never chooses to move, retry, recover or unstick. Callers record
/// commands and their authoritative results; it classifies only observations.
/// Times are milliseconds since the Unix epoch; distances are millipixels.
#[derive(Debug, Clone)]
pub struct MovementProgress {
    pub request: MovementRequest,
    pub state: MovementState,
    pub path_preflight: PathPreflightFact,
    pub started_at_ms: Option<i64>,
    pub latest_observed_at_ms: Option<i64>,
    pub latest_position: Option<Position>,
    pub latest_position_observed_at_ms: Option<i64>,
    pub last_progress_at_ms: Option<i64>,
    pub observed_distance_millipixels: u64,
    pub progress_observations: u32,
    pub observations_without_progress: u32,
    /// Frames with no tile change: pixel jitter at a blocked doorway must not keep a
    /// movement request alive indefinitely.
    pub observations_without_tile_change: u32,
    pub last_observation: Option<MovementObservationFact>,
    pub arrival: Option<ArrivalFact>,
    pub scene_transition: Option<SceneTransitionFact>,
    pub blocked: Option<BlockedFact>,
    pub cancellation: Option<CancellationFact>,
    pub interruption: Option<InterruptionFact>,
    pub recovery_attempts: Vec<RecoveryAttemptFact>,
    pub unstick_cooldown: UnstickCooldown,
}

/// Frames with no tile change after which a moving body counts as stalled.
pub open spec fn tile_stall_limit() -> u32 {
    12
}

pub open spec fn saturating_increment(count: u32) -> u32 {
    if count < u32::MAX {
        (count + 1) as u32
    } else {
        count
    }
}

pub open spec fn position_or(first: Option<Position>, fallback: Option<Position>) -> Option<Position> {
    match first {
        Some(_) => first,
        None => fallback,
    }
}

/// The observed scene differs from the requested one; unknown on either side is no change.
pub open spec fn scene_differs(requested: Option<String>, observed: Option<String>) -> bool {
    requested.is_some() && observed.is_some() && optional_text(requested) != optional_text(observed)
}

/// The pixel step from the previous known position to the current one.
pub open spec fn step_from(current: Option<Position>, previous: Option<Position>) -> Option<u64> {
    match (current, previous) {
        (Some(now), Some(before)) => Some(pixel_distance(before.pixel, now.pixel)),
        _ => None,
    }
}

pub open spec fn minimum_step(rules: MovementObservationRules) -> u64 {
    if rules.minimum_progress_millipixels > 0 {
        rules.minimum_progress_millipixels
    } else {
        1
    }
}

pub open spec fn step_is_progress(step: Option<u64>, rules: MovementObservationRules) -> bool {
    match step {
        Some(distance) => distance >= minimum_step(rules),
        None => false,
    }
}

pub open spec fn tile_distance(from: TilePosition, to: TilePosition) -> u32 {
    let dx = if from.x >= to.x { from.x - to.x } else { to.x - from.x };
    let dy = if from.y >= to.y { from.y - to.y } else { to.y - from.y };
    if dx + dy > u32::MAX {
        u32::MAX
    } else {
        (dx + dy) as u32
    }
}

pub open spec fn tile_changed(current: Option<Position>, previous: Option<Position>) -> bool {
    match (current, previous) {
        (Some(now), Some(before)) => now.tile != before.tile,
        _ => false,
    }
}

/// The progress after reducing one authoritative frame.
pub open spec fn after_frame(
    p: MovementProgress,
    frame: TacticalFrame,
    rules: MovementObservationRules,
) -> MovementProgress {
    let at = frame.generated_at_ms;
    let scene = frame.self_state.scene;
    let position = frame.self_state.position;
    let moving = frame.self_state.moving;
    if state_is_terminal(p.state) {
        p
    } else if scene_differs(p.request.requested_scene, scene) {
        MovementProgress {
            latest_observed_at_ms: Some(at),
            scene_transition: Some(
                SceneTransitionFact {
                    observed_at_ms: at,
                    from_scene: p.request.requested_scene,
                    to_scene: scene,
                    position,
                },
            ),
            latest_position_observed_at_ms: if position.is_some() {
                Some(at)
            } else {
                p.latest_position_observed_at_ms
            },
            latest_position: position_or(position, p.latest_position),
            state: MovementState::SceneTransition,
            ..p
        }
    } else {
        let step = step_from(position, p.latest_position);
        let made_progress = step_is_progress(step, rules);
        let reached = match position {
            Some(now) => now.tile == p.request.destination,
            None => false,
        };
        let remaining = match position {
            Some(now) => Some(tile_distance(now.tile, p.request.destination)),
            None => None,
        };
        let without_progress = if made_progress && moving != Some(false) {
            0
        } else if position.is_some() {
            saturating_increment(p.observations_without_progress)
        } else {
            p.observations_without_progress
        };
        let without_tile_change = if tile_changed(position, p.latest_position) {
            0
        } else if position.is_some() {
            saturating_increment(p.observations_without_tile_change)
        } else {
            p.observations_without_tile_change
        };
        let state = if reached {
            MovementState::Arrived
        } else if p.state == MovementState::Moving && rules.stalled_after_observations > 0
            && without_progress >= rules.stalled_after_observations {
            MovementState::Stalled
        } else if p.state == MovementState::Moving && without_tile_change >= tile_stall_limit() {
            MovementState::Stalled
        } else {
            p.state
        };
        MovementProgress {
            latest_observed_at_ms: Some(at),
            progress_observations: if made_progress {
                saturating_increment(p.progress_observations)
            } else {
                p.progress_observations
            },
            last_progress_at_ms: if made_progress {
                Some(at)
            } else {
                p.last_progress_at_ms
            },
            observed_distance_millipixels: if made_progress {
                (if p.observed_distance_millipixels + step.unwrap() > u64::MAX {
                    u64::MAX
                } else {
                    (p.observed_distance_millipixels + step.unwrap()) as u64
                })
            } else {
                p.observed_distance_millipixels
            },
            observations_without_progress: without_progress,
            observations_without_tile_change: without_tile_change,
            latest_position_observed_at_ms: if position.is_some() {
                Some(at)
            } else {
                p.latest_position_observed_at_ms
            },
            latest_position: position_or(position, p.latest_position),
            last_observation: Some(
                MovementObservationFact {
                    observed_at_ms: at,
                    scene,
                    position,
                    backend_reports_moving: moving,
                    made_progress,
                    distance_from_previous_millipixels: step,
                    remaining_tile_distance: remaining,
                    reached_destination: reached,
                },
            ),
            arrival: if reached {
                Some(
                    ArrivalFact {
                        observed_at_ms: at,
                        position,
                        evidence: ArrivalEvidence::PerceptionFrame,
                    },
                )
            } else {
                p.arrival
            },
            state,
            ..p
        }
    }
}

fn tile_gap(from: TilePosition, to: TilePosition) -> (gap: u32)
    ensures
        gap == tile_distance(from, to),
{
    let dx: u32 = if from.x >= to.x {
        (from.x as i64 - to.x as i64) as u32
    } else {
        (to.x as i64 - from.x as i64) as u32
    };
    let dy: u32 = if from.y >= to.y {
        (from.y as i64 - to.y as i64) as u32
    } else {
        (to.y as i64 - from.y as i64) as u32
    };
    dx.saturating_add(dy)
}

fn increment(count: u32) -> (next: u32)
    ensures
        next == saturating_increment(count),
{
    if count < u32::MAX {
        count + 1
    } else {
        count
    }
}

impl MovementProgress {
    /// A freshly requested movement: nothing observed yet.
    pub fn new(request: MovementRequest, unstick_cooldown_ms: u64) -> (progress: MovementProgress)
        ensures
            progress.request == request,
            progress.state == MovementState::Requested,
            progress.path_preflight == (PathPreflightFact {
                status: PathPreflightStatus::NotChecked,
                checked_at_ms: None,
                path_length_tiles: None,
            }),
            progress.started_at_ms.is_none(),
            progress.latest_observed_at_ms.is_none(),
            progress.latest_position == request.start_position,
            progress.latest_position_observed_at_ms.is_none(),
            progress.last_progress_at_ms.is_none(),
            progress.observed_distance_millipixels == 0,
            progress.progress_observations == 0,
            progress.observations_without_progress == 0,
            progress.observations_without_tile_change == 0,
            progress.last_observation.is_none(),
            progress.arrival.is_none(),
            progress.scene_transition.is_none(),
            progress.blocked.is_none(),
            progress.cancellation.is_none(),
            progress.interruption.is_none(),
            progress.recovery_attempts@.len() == 0,
            progress.unstick_cooldown == UnstickCooldown::spec_new(unstick_cooldown_ms),
    {
        MovementProgress {
            latest_position: request.start_position,
            request,
            state: MovementState::Requested,
            path_preflight: PathPreflightFact {
                status: PathPreflightStatus::NotChecked,
                checked_at_ms: None,
                path_length_tiles: None,
            },
            started_at_ms: None,
            latest_observed_at_ms: None,
            latest_position_observed_at_ms: None,
            last_progress_at_ms: None,
            observed_distance_millipixels: 0,
            progress_observations: 0,
            observations_without_progress: 0,
            observations_without_tile_change: 0,
            last_observation: None,
            arrival: None,
            scene_transition: None,
            blocked: None,
            cancellation: None,
            interruption: None,
            recovery_attempts: Vec::new(),
            unstick_cooldown: UnstickCooldown::new(unstick_cooldown_ms),
        }
    }

    /// Record the backend's path-preflight response. An explicit unreachable
    /// answer is a terminal blocked fact; missing data stays unknown.
    pub fn record_path_preflight(
        &mut self,
        checked_at_ms: i64,
        reachable: Option<bool>,
        path_length_tiles: Option<u32>,
    )
        ensures
            state_is_terminal(old(self).state) ==> *final(self) == *old(self),
            !state_is_terminal(old(self).state) ==> *final(self) == (MovementProgress {
                path_preflight: PathPreflightFact {
                    status: match reachable {
                        Some(true) => PathPreflightStatus::Reachable,
                        Some(false) => PathPreflightStatus::Unreachable,
                        None => PathPreflightStatus::Unknown,
                    },
                    checked_at_ms: Some(checked_at_ms),
                    path_length_tiles,
                },
                blocked: if reachable == Some(false) {
                    Some(BlockedFact { observed_at_ms: checked_at_ms, reason: BlockedReason::PathPreflightUnreachable })
                } else {
                    old(self).blocked
                },
                state: if reachable == Some(false) {
                    MovementState::Blocked
                } else {
                    old(self).state
                },
                ..*old(self)
            }),
    {
        if self.state.is_terminal() {
            return;
        }
        self.path_preflight = PathPreflightFact {
            status: match reachable {
                Some(true) => PathPreflightStatus::Reachable,
                Some(false) => PathPreflightStatus::Unreachable,
                None => PathPreflightStatus::Unknown,
            },
            checked_at_ms: Some(checked_at_ms),
            path_length_tiles,
        };
        if reachable == Some(false) {
            self.mark_blocked(checked_at_ms, BlockedReason::PathPreflightUnreachable);
        }
    }

    /// Record that the backend accepted the movement command.
    pub fn record_started(&mut self, started_at_ms: i64)
        ensures
            old(self).state == MovementState::Requested ==> *final(self) == (MovementProgress {
                started_at_ms: Some(started_at_ms),
                state: MovementState::Moving,
                ..*old(self)
            }),
            old(self).state != MovementState::Requested ==> *final(self) == *old(self),
    {
        if self.state == MovementState::Requested {
            self.started_at_ms = Some(started_at_ms);
            self.state = MovementState::Moving;
        }
    }

    /// Record an explicit backend arrival. Command acceptance or partial motion is
    /// never arrival evidence.
    pub fn record_backend_arrival(&mut self, observed_at_ms: i64)
        ensures
            state_is_terminal(old(self).state) ==> *final(self) == *old(self),
            !state_is_terminal(old(self).state) ==> *final(self) == (MovementProgress {
                arrival: Some(
                    ArrivalFact {
                        observed_at_ms,
                        position: old(self).latest_position,
                        evidence: ArrivalEvidence::BackendResult,
                    },
                ),
                state: MovementState::Arrived,
                ..*old(self)
            }),
    {
        if self.state.is_terminal() {
            return;
        }
        self.arrival = Some(
            ArrivalFact {
                observed_at_ms,
                position: self.latest_position,
                evidence: ArrivalEvidence::BackendResult,
            },
        );
        self.state = MovementState::Arrived;
    }

    /// Reduce one authoritative tactical frame into movement facts.
    pub fn observe_frame(&mut self, frame: &TacticalFrame, rules: MovementObservationRules)
        ensures
            *final(self) == after_frame(*old(self), *frame, rules),
    {
        if self.state.is_terminal() {
            return;
        }
        let observed_at_ms = frame.generated_at_ms;
        let scene = frame.self_state.scene.clone();
        let position = frame.self_state.position;
        let moving = frame.self_state.moving;
        self.latest_observed_at_ms = Some(observed_at_ms);

        let scene_changed = match (&self.request.requested_scene, &scene) {
            (Some(requested), Some(observed)) => !(*requested == *observed),
            _ => false,
        };
        if scene_changed {
            self.scene_transition = Some(
                SceneTransitionFact {
                    observed_at_ms,
                    from_scene: self.request.requested_scene.clone(),
                    to_scene: scene,
                    position,
                },
            );
            if position.is_some() {
                self.latest_position_observed_at_ms = Some(observed_at_ms);
            }
            self.latest_position = match position {
                Some(_) => position,
                None => self.latest_position,
            };
            self.state = MovementState::SceneTransition;
            return;
        }

        let minimum: u64 = if rules.minimum_progress_millipixels > 0 {
            rules.minimum_progress_millipixels
        } else {
            1
        };
        let step: Option<u64> = match (position, self.latest_position) {
            (Some(now), Some(before)) => Some(distance_between(before.pixel, now.pixel)),
            _ => None,
        };
        let made_progress = match step {
            Some(distance) => distance >= minimum,
            None => false,
        };
        let reached_destination = match position {
            Some(now) => now.tile == self.request.destination,
            None => false,
        };
        let remaining_tile_distance = match position {
            Some(now) => Some(tile_gap(now.tile, self.request.destination)),
            None => None,
        };
        let moved_tile = match (position, self.latest_position) {
            (Some(now), Some(before)) => now.tile != before.tile,
            _ => false,
        };

        if made_progress {
            self.progress_observations = increment(self.progress_observations);
            self.last_progress_at_ms = Some(observed_at_ms);
            self.observed_distance_millipixels = self.observed_distance_millipixels.saturating_add(
                match step {
                    Some(distance) => distance,
                    None => 0,
                },
            );
        }
        if made_progress && moving != Some(false) {
            self.observations_without_progress = 0;
        } else if position.is_some() {
            self.observations_without_progress = increment(self.observations_without_progress);
        }
        if moved_tile {
            self.observations_without_tile_change = 0;
        } else if position.is_some() {
            self.observations_without_tile_change = increment(self.observations_without_tile_change);
        }
        if position.is_some() {
            self.latest_position_observed_at_ms = Some(observed_at_ms);
        }
        self.latest_position = match position {
            Some(_) => position,
            None => self.latest_position,
        };
        self.last_observation = Some(
            MovementObservationFact {
                observed_at_ms,
                scene,
                position,
                backend_reports_moving: moving,
                made_progress,
                distance_from_previous_millipixels: step,
                remaining_tile_distance,
                reached_destination,
            },
        );

        if reached_destination {
            self.arrival = Some(
                ArrivalFact {
                    observed_at_ms,
                    position,
                    evidence: ArrivalEvidence::PerceptionFrame,
                },
            );
            self.state = MovementState::Arrived;
        } else if self.state == MovementState::Moving && rules.stalled_after_observations > 0
            && self.observations_without_progress >= rules.stalled_after_observations {
            self.state = MovementState::Stalled;
        } else if self.state == MovementState::Moving && self.observations_without_tile_change >= 12 {
            // The backend can report moving while the body only jitters against a
            // collision: prolonged tile stagnation is a stall.
            self.state = MovementState::Stalled;
        }
    }

    pub fn mark_blocked(&mut self, observed_at_ms: i64, reason: BlockedReason)
        ensures
            state_is_terminal(old(self).state) ==> *final(self) == *old(self),
            !state_is_terminal(old(self).state) ==> *final(self) == (MovementProgress {
                blocked: Some(BlockedFact { observed_at_ms, reason }),
                state: MovementState::Blocked,
                ..*old(self)
            }),
    {
        if self.state.is_terminal() {
            return;
        }
        self.blocked = Some(BlockedFact { observed_at_ms, reason });
        self.state = MovementState::Blocked;
    }

    pub fn cancel(&mut self, cancelled_at_ms: i64, reason: CancellationReason)
        ensures
            state_is_terminal(old(self).state) ==> *final(self) == *old(self),
            !state_is_terminal(old(self).state) ==> *final(self) == (MovementProgress {
                cancellation: Some(CancellationFact { cancelled_at_ms, reason }),
                state: MovementState::Cancelled,
                ..*old(self)
            }),
    {
        if self.state.is_terminal() {
            return;
        }
        self.cancellation = Some(CancellationFact { cancelled_at_ms, reason });
        self.state = MovementState::Cancelled;
    }

    pub fn interrupt(&mut self, interrupted_at_ms: i64, reason: InterruptionReason)
        ensures
            state_is_terminal(old(self).state) ==> *final(self) == *old(self),
            !state_is_terminal(old(self).state) ==> *final(self) == (MovementProgress {
                interruption: Some(InterruptionFact { interrupted_at_ms, reason }),
                state: MovementState::Interrupted,
                ..*old(self)
            }),
    {
        if self.state.is_terminal() {
            return;
        }
        self.interruption = Some(InterruptionFact { interrupted_at_ms, reason });
        self.state = MovementState::Interrupted;
    }

    /// Record a recovery operation selected by a caller. A successful unstick starts
    /// the cooldown; failed and unavailable attempts do not consume it.
    pub fn record_recovery_attempt(&mut self, attempt: RecoveryAttemptFact)
        ensures
            final(self).recovery_attempts@ == old(self).recovery_attempts@.push(attempt),
            final(self).unstick_cooldown == cooldown_after(old(self).unstick_cooldown, attempt),
            *final(self) == (MovementProgress {
                recovery_attempts: final(self).recovery_attempts,
                unstick_cooldown: final(self).unstick_cooldown,
                ..*old(self)
            }),
    {
        self.unstick_cooldown.record_attempt(&attempt);
        self.recovery_attempts.push(attempt);
    }

    pub fn unstick_cooldown_facts(&self, now_ms: i64) -> (facts: UnstickCooldownFacts)
        ensures
            facts == cooldown_facts(self.unstick_cooldown, now_ms),
    {
        self.unstick_cooldown.facts(now_ms)
    }
}

// ---------------------------------------------------------------------------
// Laws of the reducer
// ---------------------------------------------------------------------------

/// A movement that has reached a terminal state ignores every later frame.
pub proof fn law_terminal_movement_ignores_frames(
    progress: MovementProgress,
    frame: TacticalFrame,
    rules: MovementObservationRules,
)
    requires
        state_is_terminal(progress.state),
    ensures
        after_frame(progress, frame, rules) == progress,
{
}

/// A frame marks arrival only when it places the body on the destination tile,
/// and the recorded arrival then cites that frame as its evidence.
pub proof fn law_frame_arrival_needs_destination_tile(
    progress: MovementProgress,
    frame: TacticalFrame,
    rules: MovementObservationRules,
)
    requires
        !state_is_terminal(progress.state),
        after_frame(progress, frame, rules).state == MovementState::Arrived,
    ensures
        frame.self_state.position matches Some(now) && now.tile == progress.request.destination,
        after_frame(progress, frame, rules).arrival == Some(
            ArrivalFact {
                observed_at_ms: frame.generated_at_ms,
                position: frame.self_state.position,
                evidence: ArrivalEvidence::PerceptionFrame,
            },
        ),
{
}

/// A frame without a known position adds no stall evidence: both stall counters
/// stay as they were, and a moving body stays moving unless it changed scene.
pub proof fn law_missing_position_adds_no_stall_evidence(
    progress: MovementProgress,
    frame: TacticalFrame,
    rules: MovementObservationRules,
)
    requires
        frame.self_state.position.is_none(),
    ensures
        after_frame(progress, frame, rules).observations_without_progress
            == progress.observations_without_progress,
        after_frame(progress, frame, rules).observations_without_tile_change
            == progress.observations_without_tile_change,
        after_frame(progress, frame, rules).latest_position == progress.latest_position,
        after_frame(progress, frame, rules).state == progress.state
            || after_frame(progress, frame, rules).state == MovementState::SceneTransition
            || (progress.state == MovementState::Moving && after_frame(progress, frame, rules).state
            == MovementState::Stalled && ((rules.stalled_after_observations > 0
            && progress.observations_without_progress >= rules.stalled_after_observations)
            || progress.observations_without_tile_change >= tile_stall_limit())),
{
}

/// A movement that the backend has not yet accepted is never classified as
/// stalled: frames can only keep it requested, or end it by arrival or a scene
/// change.
pub proof fn law_requested_movement_never_stalls(
    progress: MovementProgress,
    frame: TacticalFrame,
    rules: MovementObservationRules,
)
    requires
        progress.state == MovementState::Requested,
    ensures
        after_frame(progress, frame, rules).state == MovementState::Requested
            || after_frame(progress, frame, rules).state == MovementState::Arrived
            || after_frame(progress, frame, rules).state == MovementState::SceneTransition,
{
}

/// Only a later successful unstick moves the cooldown; any other recorded
/// recovery attempt leaves it, and the facts derived from it, unchanged.
pub proof fn law_only_successful_unstick_moves_cooldown(
    cooldown: UnstickCooldown,
    attempt: RecoveryAttemptFact,
    now_ms: i64,
)
    requires
        attempt.kind != RecoveryKind::Unstick || attempt.result != RecoveryResult::Succeeded,
    ensures
        cooldown_after(cooldown, attempt) == cooldown,
        cooldown_facts(cooldown_after(cooldown, attempt), now_ms) == cooldown_facts(cooldown, now_ms),
{
}

/// The cooldown is available again exactly when its full length has passed since
/// the last successful unstick (or when none was ever recorded).
pub proof fn law_cooldown_available_after_its_length(cooldown: UnstickCooldown, now_ms: i64)
    ensures
        cooldown_facts(cooldown, now_ms).available <==> match cooldown.last_successful_unstick_at_ms {
            None => true,
            Some(last) => last + cooldown.cooldown_ms <= i64::MAX && last + cooldown.cooldown_ms
                <= now_ms,
        },
{
}

/// A step shorter than the rules' minimum progress (one millipixel when the
/// minimum is zero) is no progress: while the body is still moving toward a
/// destination it has not reached, such a frame adds one observation without
/// progress, leaves the progress count and covered distance as they were,
/// and a moving body that reaches the stall threshold this way is stalled.
pub proof fn law_steps_below_the_minimum_are_not_progress(
    p: MovementProgress,
    frame: TacticalFrame,
    rules: MovementObservationRules,
)
    requires
        p.state == MovementState::Requested || p.state == MovementState::Moving,
        !scene_differs(p.request.requested_scene, frame.self_state.scene),
        frame.self_state.position matches Some(now) && p.latest_position matches Some(before) && {
            &&& now.tile != p.request.destination
            &&& pixel_distance(before.pixel, now.pixel) < (if rules.minimum_progress_millipixels > 0 {
                rules.minimum_progress_millipixels
            } else {
                1
            })
        },
    ensures
        after_frame(p, frame, rules).observations_without_progress == (if p.observations_without_progress
            < u32::MAX {
            p.observations_without_progress + 1
        } else {
            p.observations_without_progress as int
        }),
        after_frame(p, frame, rules).progress_observations == p.progress_observations,
        after_frame(p, frame, rules).observed_distance_millipixels == p.observed_distance_millipixels,
        p.state == MovementState::Moving && rules.stalled_after_observations > 0 && after_frame(
            p,
            frame,
            rules,
        ).observations_without_progress >= rules.stalled_after_observations ==> after_frame(p, frame, rules).state
            == MovementState::Stalled,
{
}

/// A step of at least the rules' minimum progress (one millipixel when the
/// minimum is zero) by a body not reported stopped is progress: it resets the
/// observations without progress and counts one more progress observation.
pub proof fn law_steps_of_the_minimum_are_progress(
    p: MovementProgress,
    frame: TacticalFrame,
    rules: MovementObservationRules,
)
    requires
        p.state == MovementState::Requested || p.state == MovementState::Moving,
        !scene_differs(p.request.requested_scene, frame.self_state.scene),
        frame.self_state.moving != Some(false),
        frame.self_state.position matches Some(now) && p.latest_position matches Some(before) && pixel_distance(
            before.pixel,
            now.pixel,
        ) >= (if rules.minimum_progress_millipixels > 0 {
            rules.minimum_progress_millipixels
        } else {
            1
        }),
    ensures
        after_frame(p, frame, rules).observations_without_progress == 0,
        after_frame(p, frame, rules).progress_observations == (if p.progress_observations < u32::MAX {
            p.progress_observations + 1
        } else {
            p.progress_observations as int
        }),
{
}

} // verus!
