//! The compact model input derived from a full authoritative tactical frame,
//! and the runtime's ownership of local movement.

use vstd::prelude::*;

use crate::brain::strategic_intent::StrategicIntent;
use crate::brain::tactical_frame::{
    Drop, EntityKind, SelfState, TacticalFrame, VisibilityCensus, VisibleEntity,
};
use crate::execution::outcome::{ActionOutcome, OutcomeStatus};
use crate::text::{optional_text, text_equals};
use crate::world::{
    CombatSnapshot, Doorway, GameEvent, GameEventKind, ReachableExit, ReachableExitView, ReachableWaypoint,
    TilePosition,
};

verus! {

/// The version of the tactical input protocol.
pub const TACTICAL_INPUT_PROTOCOL_VERSION: u32 = 1;

/// Who owns local movement right now.
#[derive(Debug, Clone, Copy, PartialEq, Eq, Structural)]
pub enum MovementControlOwner {
    BodyStrategicNavigation,
    Tactician,
}

#[derive(Debug, Clone, Copy, PartialEq, Eq, Structural)]
pub enum MovementControlState {
    Assigned,
    Available,
}

/// An immediate authoritative fact that lets the tactician take movement over.
#[derive(Debug, Clone, Copy, PartialEq, Eq, Structural)]
pub enum TacticalPreemptionFact {
    CombatActive,
    HostileTargetingSelf,
    DamageTaken,
    MovementFailure,
}

/// Typed runtime ownership for local movement.
///
/// This is coordination state, not gameplay advice: the body owns quiet
/// destination travel, and the tactician can request preemption only when the
/// current frame contains one of the listed immediate facts.
#[derive(Debug, Clone)]
pub struct MovementControl {
    pub owner: MovementControlOwner,
    pub state: MovementControlState,
    pub strategic_revision: u64,
    pub destination_scene: Option<String>,
    pub destination_tile: Option<TilePosition>,
    pub tactical_preemption_allowed_for: Vec<TacticalPreemptionFact>,
    /// Immediate authoritative facts present in this frame. The executor uses
    /// the same reducer when it validates a proposed movement override.
    pub tactical_preemption_facts_present: Vec<TacticalPreemptionFact>,
}

/// The local map as the model sees it: compact ASCII and the doors, never the
/// structured tiles.
#[derive(Debug, Clone)]
pub struct TacticalMap {
    pub revision: u64,
    pub origin_tile_x: i32,
    pub origin_tile_y: i32,
    pub width: usize,
    pub height: usize,
    pub doors: Vec<Doorway>,
    pub ascii: String,
}

/// Exact reachable tiles next to a visible entity. The model still selects the entity.
#[derive(Debug, Clone)]
pub struct TacticalEntityApproach {
    pub entity_id: String,
    pub entity_kind: EntityKind,
    pub candidates: Vec<ReachableApproachTile>,
}

#[derive(Debug, Clone, Copy, PartialEq, Eq, Structural)]
pub struct ReachableApproachTile {
    pub tile: TilePosition,
    pub path_length_tiles: u32,
}

/// A recent game event, aged relative to the frame.
#[derive(Debug, Clone)]
pub struct TacticalEvent {
    pub sequence: Option<u64>,
    pub age_ms: u64,
    pub kind: GameEventKind,
    pub entity_id: Option<String>,
    pub amount: Option<i64>,
    pub tile: Option<TilePosition>,
    /// Bounded authoritative context, such as the entered or departed scene.
    pub detail: Option<String>,
}

/// A recent action outcome as the model sees it.
#[derive(Debug, Clone)]
pub struct TacticalActionOutcome {
    pub action_kind: String,
    pub duration_ms: u64,
    pub status: OutcomeStatus,
    pub reason_code: Option<String>,
    pub detail: String,
    pub destination_tile: Option<TilePosition>,
}

// ---------------------------------------------------------------------------
// Preemption facts
// ---------------------------------------------------------------------------

/// How recent, in milliseconds, an event must be to permit preemption.
pub open spec fn preemption_window_ms() -> int {
    2000
}

/// `observed_at_ms` lies within the preemption window before `generated_at_ms`
/// (an event from the future does not count).
pub open spec fn within_preemption_window(generated_at_ms: i64, observed_at_ms: i64) -> bool {
    0 <= generated_at_ms - observed_at_ms <= preemption_window_ms()
}

pub open spec fn hostile_targets_self(entities: Seq<VisibleEntity>) -> bool {
    exists|i: int|
        0 <= i < entities.len() && #[trigger] entities[i].hostile == Some(true) && entities[i].targeting_you
            == Some(true)
}

pub open spec fn recent_event_of_kind(events: Seq<GameEvent>, kind: GameEventKind, generated_at_ms: i64) -> bool {
    exists|i: int|
        0 <= i < events.len() && #[trigger] events[i].kind == kind && within_preemption_window(
            generated_at_ms,
            events[i].observed_at_ms,
        )
}

pub open spec fn recent_failed_move(actions: Seq<ActionOutcome>, generated_at_ms: i64) -> bool {
    exists|i: int|
        0 <= i < actions.len() && #[trigger] actions[i].status == OutcomeStatus::Failed
            && actions[i].action_kind@ == "move_to"@ && within_preemption_window(
            generated_at_ms,
            actions[i].recorded_at_ms,
        )
}

/// The preemption facts present in `frame`, in their fixed order.
pub open spec fn preemption_facts(frame: TacticalFrame) -> Seq<TacticalPreemptionFact> {
    let combat: Seq<TacticalPreemptionFact> = if frame.combat.active == Some(true) {
        seq![TacticalPreemptionFact::CombatActive]
    } else {
        Seq::empty()
    };
    let hostile: Seq<TacticalPreemptionFact> = if hostile_targets_self(frame.nearby_entities@) {
        seq![TacticalPreemptionFact::HostileTargetingSelf]
    } else {
        Seq::empty()
    };
    let damage: Seq<TacticalPreemptionFact> = if recent_event_of_kind(
        frame.recent_events@,
        GameEventKind::DamageTaken,
        frame.generated_at_ms,
    ) {
        seq![TacticalPreemptionFact::DamageTaken]
    } else {
        Seq::empty()
    };
    let movement: Seq<TacticalPreemptionFact> = if recent_event_of_kind(
        frame.recent_events@,
        GameEventKind::MovementFailed,
        frame.generated_at_ms,
    ) || recent_failed_move(frame.recent_actions@, frame.generated_at_ms) {
        seq![TacticalPreemptionFact::MovementFailure]
    } else {
        Seq::empty()
    };
    combat + hostile + damage + movement
}

fn in_preemption_window(generated_at_ms: i64, observed_at_ms: i64) -> (inside: bool)
    ensures
        inside == within_preemption_window(generated_at_ms, observed_at_ms),
{
    let elapsed: i128 = generated_at_ms as i128 - observed_at_ms as i128;
    0 <= elapsed && elapsed <= 2000
}

fn any_recent_event(events: &Vec<GameEvent>, kind: GameEventKind, generated_at_ms: i64) -> (found: bool)
    ensures
        found == recent_event_of_kind(events@, kind, generated_at_ms),
{
    let mut i: usize = 0;
    while i < events.len()
        invariant
            i <= events@.len(),
            forall|j: int|
                0 <= j < i ==> !(#[trigger] events@[j].kind == kind && within_preemption_window(
                    generated_at_ms,
                    events@[j].observed_at_ms,
                )),
        decreases events@.len() - i,
    {
        if events[i].kind == kind && in_preemption_window(generated_at_ms, events[i].observed_at_ms) {
            return true;
        }
        i = i + 1;
    }
    false
}

/// Reduce the authoritative frame into facts that permit tactical movement
/// preemption. The result contains facts only: it does not decide whether the
/// character should move, fight, heal or flee.
pub fn tactical_preemption_facts(frame: &TacticalFrame) -> (facts: Vec<TacticalPreemptionFact>)
    ensures
        facts@ == preemption_facts(*frame),
{
    let mut facts: Vec<TacticalPreemptionFact> = Vec::new();
    if frame.combat.active == Some(true) {
        facts.push(TacticalPreemptionFact::CombatActive);
    }
    let ghost after_combat = facts@;
    let mut hostile = false;
    let mut i: usize = 0;
    while i < frame.nearby_entities.len()
        invariant
            i <= frame.nearby_entities@.len(),
            hostile == exists|j: int|
                0 <= j < i && #[trigger] frame.nearby_entities@[j].hostile == Some(true)
                    && frame.nearby_entities@[j].targeting_you == Some(true),
        decreases frame.nearby_entities@.len() - i,
    {
        if frame.nearby_entities[i].hostile == Some(true) && frame.nearby_entities[i].targeting_you == Some(
            true,
        ) {
            hostile = true;
        }
        i = i + 1;
    }
    if hostile {
        facts.push(TacticalPreemptionFact::HostileTargetingSelf);
    }
    let ghost after_hostile = facts@;
    if any_recent_event(&frame.recent_events, GameEventKind::DamageTaken, frame.generated_at_ms) {
        facts.push(TacticalPreemptionFact::DamageTaken);
    }
    let ghost after_damage = facts@;
    let mut moved = any_recent_event(&frame.recent_events, GameEventKind::MovementFailed, frame.generated_at_ms);
    if !moved {
        let mut k: usize = 0;
        while k < frame.recent_actions.len()
            invariant
                k <= frame.recent_actions@.len(),
                moved == exists|j: int|
                    0 <= j < k && #[trigger] frame.recent_actions@[j].status == OutcomeStatus::Failed
                        && frame.recent_actions@[j].action_kind@ == "move_to"@ && within_preemption_window(
                        frame.generated_at_ms,
                        frame.recent_actions@[j].recorded_at_ms,
                    ),
            decreases frame.recent_actions@.len() - k,
        {
            let outcome = &frame.recent_actions[k];
            if outcome.status == OutcomeStatus::Failed && text_equals(outcome.action_kind.as_str(), "move_to")
                && in_preemption_window(frame.generated_at_ms, outcome.recorded_at_ms) {
                moved = true;
            }
            k = k + 1;
        }
    }
    if moved {
        facts.push(TacticalPreemptionFact::MovementFailure);
    }
    proof {
        let f = *frame;
        let combat: Seq<TacticalPreemptionFact> = if f.combat.active == Some(true) {
            seq![TacticalPreemptionFact::CombatActive]
        } else {
            Seq::empty()
        };
        assert(after_combat =~= combat);
        assert(facts@ =~= preemption_facts(f));
    }
    facts
}

/// Every preemption fact the runtime may ever honour, in their fixed order.
pub open spec fn all_preemption_facts() -> Seq<TacticalPreemptionFact> {
    seq![
        TacticalPreemptionFact::CombatActive,
        TacticalPreemptionFact::HostileTargetingSelf,
        TacticalPreemptionFact::DamageTaken,
        TacticalPreemptionFact::MovementFailure,
    ]
}

/// Movement control under `frame`'s intent: with a navigation goal the body owns
/// travel to it and every preemption fact is allowed; without one the tactician
/// has movement and nothing needs preempting.
pub open spec fn movement_control_of(frame: TacticalFrame, control: MovementControl) -> bool {
    let intent = frame.strategic_intent;
    &&& control.strategic_revision == intent.revision
    &&& match intent.navigation_goal {
        Some(goal) => {
            &&& control.owner == MovementControlOwner::BodyStrategicNavigation
            &&& control.state == MovementControlState::Assigned
            &&& optional_text(control.destination_scene) == Some(goal.scene@)
            &&& control.destination_tile == match goal.destination {
                Some(d) => d.tile,
                None => None,
            }
            &&& control.tactical_preemption_allowed_for@ == all_preemption_facts()
            &&& control.tactical_preemption_facts_present@ == preemption_facts(frame)
        },
        None => {
            &&& control.owner == MovementControlOwner::Tactician
            &&& control.state == MovementControlState::Available
            &&& control.destination_scene.is_none()
            &&& control.destination_tile.is_none()
            &&& control.tactical_preemption_allowed_for@.len() == 0
            &&& control.tactical_preemption_facts_present@.len() == 0
        },
    }
}

pub fn movement_control(frame: &TacticalFrame) -> (control: MovementControl)
    ensures
        movement_control_of(*frame, control),
{
    match &frame.strategic_intent.navigation_goal {
        None => MovementControl {
            owner: MovementControlOwner::Tactician,
            state: MovementControlState::Available,
            strategic_revision: frame.strategic_intent.revision,
            destination_scene: None,
            destination_tile: None,
            tactical_preemption_allowed_for: Vec::new(),
            tactical_preemption_facts_present: Vec::new(),
        },
        Some(goal) => {
            let mut allowed: Vec<TacticalPreemptionFact> = Vec::new();
            allowed.push(TacticalPreemptionFact::CombatActive);
            allowed.push(TacticalPreemptionFact::HostileTargetingSelf);
            allowed.push(TacticalPreemptionFact::DamageTaken);
            allowed.push(TacticalPreemptionFact::MovementFailure);
            assert(allowed@ =~= all_preemption_facts());
            MovementControl {
                owner: MovementControlOwner::BodyStrategicNavigation,
                state: MovementControlState::Assigned,
                strategic_revision: frame.strategic_intent.revision,
                destination_scene: Some(goal.scene.clone()),
                destination_tile: match &goal.destination {
                    Some(destination) => destination.tile,
                    None => None,
                },
                tactical_preemption_allowed_for: allowed,
                tactical_preemption_facts_present: tactical_preemption_facts(frame),
            }
        },
    }
}

// ---------------------------------------------------------------------------
// Exits, events and actions as the model sees them
// ---------------------------------------------------------------------------

/// The scene named by the most recent scene-left event, if that event names one.
pub open spec fn last_scene_left(events: Seq<GameEvent>) -> Option<Seq<char>>
    decreases events.len(),
{
    if events.len() == 0 {
        None
    } else if events.last().kind == GameEventKind::SceneLeft {
        optional_text(events.last().detail)
    } else {
        last_scene_left(events.drop_last())
    }
}

/// The strategy's navigation goal lies in the scene just left, so the way back stays visible.
pub open spec fn return_required(frame: TacticalFrame) -> bool {
    &&& last_scene_left(frame.recent_events@) matches Some(left)
    &&& frame.strategic_intent.navigation_goal matches Some(goal)
    &&& goal.scene@ == left
}

/// `exits` with those leading back to the scene just left removed, unless the
/// strategy requires the return (an exit of unknown destination is removed
/// when no named scene was left).
pub open spec fn visible_exits(exits: Seq<ReachableExitView>, left: Option<Seq<char>>, keep_all: bool) -> Seq<
    ReachableExitView,
>
    decreases exits.len(),
{
    if exits.len() == 0 {
        exits
    } else {
        let rest = visible_exits(exits.drop_last(), left, keep_all);
        if keep_all || exits.last().destination_scene != left {
            rest.push(exits.last())
        } else {
            rest
        }
    }
}

pub open spec fn exit_views(exits: Seq<ReachableExit>) -> Seq<ReachableExitView> {
    exits.map_values(|e: ReachableExit| e@)
}

fn find_last_scene_left(events: &Vec<GameEvent>) -> (left: Option<String>)
    ensures
        optional_text(left) == last_scene_left(events@),
{
    let mut i: usize = events.len();
    assert(events@.take(i as int) =~= events@);
    while i > 0
        invariant
            i <= events@.len(),
            last_scene_left(events@) == last_scene_left(events@.take(i as int)),
        decreases i,
    {
        proof {
            assert(events@.take(i as int).drop_last() =~= events@.take(i - 1));
        }
        if events[i - 1].kind == GameEventKind::SceneLeft {
            return events[i - 1].detail.clone();
        }
        i = i - 1;
    }
    None
}

/// The exits the model is shown.
pub fn model_visible_exits(frame: &TacticalFrame) -> (exits: Vec<ReachableExit>)
    ensures
        exit_views(exits@) == visible_exits(
            exit_views(frame.exits@),
            last_scene_left(frame.recent_events@),
            return_required(*frame),
        ),
{
    let left = find_last_scene_left(&frame.recent_events);
    let keep_all = match (&left, &frame.strategic_intent.navigation_goal) {
        (Some(left), Some(goal)) => text_equals(goal.scene.as_str(), left.as_str()),
        _ => false,
    };
    let ghost all = exit_views(frame.exits@);
    let mut exits: Vec<ReachableExit> = Vec::new();
    let mut i: usize = 0;
    while i < frame.exits.len()
        invariant
            i <= frame.exits@.len(),
            all == exit_views(frame.exits@),
            exit_views(exits@) == visible_exits(all.take(i as int), optional_text(left), keep_all),
        decreases frame.exits@.len() - i,
    {
        proof {
            assert(all.take(i + 1).drop_last() =~= all.take(i as int));
        }
        let exit = &frame.exits[i];
        let same = match (&exit.destination_scene, &left) {
            (Some(a), Some(b)) => text_equals(a.as_str(), b.as_str()),
            (None, None) => true,
            _ => false,
        };
        if keep_all || !same {
            let copy = exit.duplicate();
            proof {
                assert(exit_views(exits@.push(copy)) =~= exit_views(exits@).push(copy@));
            }
            exits.push(copy);
        }
        i = i + 1;
    }
    proof {
        assert(all.take(i as int) =~= all);
    }
    exits
}

/// The index from which the newest `limit` of `len` entries start.
pub open spec fn tail_start(len: nat, limit: nat) -> nat {
    if len > limit {
        (len - limit) as nat
    } else {
        0
    }
}

/// Most recent events the model is shown.
pub open spec fn max_recent_events() -> nat {
    20
}

/// Most recent action outcomes the model is shown.
pub open spec fn max_recent_actions() -> nat {
    10
}

/// How long before the frame an event was observed; an event stamped after the
/// frame counts as just now.
pub open spec fn event_age_ms(generated_at_ms: i64, observed_at_ms: i64) -> u64 {
    if generated_at_ms - observed_at_ms > 0 {
        (generated_at_ms - observed_at_ms) as u64
    } else {
        0
    }
}

/// `shown` is `event` as the model sees it from a frame generated at `generated_at_ms`.
pub open spec fn event_shown(shown: TacticalEvent, event: GameEvent, generated_at_ms: i64) -> bool {
    &&& shown.sequence == event.sequence
    &&& shown.age_ms == event_age_ms(generated_at_ms, event.observed_at_ms)
    &&& shown.kind == event.kind
    &&& optional_text(shown.entity_id) == optional_text(event.entity_id)
    &&& shown.amount == event.amount
    &&& shown.tile == event.tile
    &&& optional_text(shown.detail) == optional_text(event.detail)
}

/// `shown` is `outcome` as the model sees it.
pub open spec fn outcome_shown(shown: TacticalActionOutcome, outcome: ActionOutcome) -> bool {
    &&& shown.action_kind@ == outcome.action_kind@
    &&& shown.duration_ms == outcome.duration_ms
    &&& shown.status == outcome.status
    &&& optional_text(shown.reason_code) == optional_text(outcome.reason_code)
    &&& shown.detail@ == outcome.detail@
    &&& shown.destination_tile == outcome.destination_tile
}

/// The newest events of the frame, oldest first, each with its whole text.
pub fn recent_events_shown(frame: &TacticalFrame) -> (events: Vec<TacticalEvent>)
    ensures
        events@.len() == frame.recent_events@.len() - tail_start(
            frame.recent_events@.len(),
            max_recent_events(),
        ),
        forall|i: int|
            0 <= i < events@.len() ==> event_shown(
                #[trigger] events@[i],
                frame.recent_events@[tail_start(frame.recent_events@.len(), max_recent_events()) + i],
                frame.generated_at_ms,
            ),
{
    let len = frame.recent_events.len();
    let start: usize = if len > 20 {
        len - 20
    } else {
        0
    };
    let mut events: Vec<TacticalEvent> = Vec::new();
    let mut i: usize = start;
    while i < len
        invariant
            len == frame.recent_events@.len(),
            start == tail_start(len as nat, max_recent_events()),
            start <= i <= len,
            events@.len() == i - start,
            forall|k: int|
                0 <= k < events@.len() ==> event_shown(
                    #[trigger] events@[k],
                    frame.recent_events@[start + k],
                    frame.generated_at_ms,
                ),
        decreases len - i,
    {
        let event = &frame.recent_events[i];
        let elapsed: i128 = frame.generated_at_ms as i128 - event.observed_at_ms as i128;
        let age_ms: u64 = if elapsed > 0 {
            elapsed as u64
        } else {
            0
        };
        events.push(
            TacticalEvent {
                sequence: event.sequence,
                age_ms,
                kind: event.kind,
                entity_id: event.entity_id.clone(),
                amount: event.amount,
                tile: event.tile,
                detail: event.detail.clone(),
            },
        );
        i = i + 1;
    }
    events
}

/// The newest action outcomes of the frame, oldest first.
pub fn recent_actions_shown(frame: &TacticalFrame) -> (actions: Vec<TacticalActionOutcome>)
    ensures
        actions@.len() == frame.recent_actions@.len() - tail_start(
            frame.recent_actions@.len(),
            max_recent_actions(),
        ),
        forall|i: int|
            0 <= i < actions@.len() ==> outcome_shown(
                #[trigger] actions@[i],
                frame.recent_actions@[tail_start(frame.recent_actions@.len(), max_recent_actions()) + i],
            ),
{
    let len = frame.recent_actions.len();
    let start: usize = if len > 10 {
        len - 10
    } else {
        0
    };
    let mut actions: Vec<TacticalActionOutcome> = Vec::new();
    let mut i: usize = start;
    while i < len
        invariant
            len == frame.recent_actions@.len(),
            start == tail_start(len as nat, max_recent_actions()),
            start <= i <= len,
            actions@.len() == i - start,
            forall|k: int|
                0 <= k < actions@.len() ==> outcome_shown(#[trigger] actions@[k], frame.recent_actions@[start + k]),
        decreases len - i,
    {
        let outcome = &frame.recent_actions[i];
        actions.push(
            TacticalActionOutcome {
                action_kind: outcome.action_kind.clone(),
                duration_ms: outcome.duration_ms,
                status: outcome.status,
                reason_code: outcome.reason_code.clone(),
                detail: outcome.detail.clone(),
                destination_tile: outcome.destination_tile,
            },
        );
        i = i + 1;
    }
    actions
}

// ---------------------------------------------------------------------------
// Approach tiles next to visible entities
// ---------------------------------------------------------------------------

/// The path length that the local path table gives for `tile` (its first entry).
pub open spec fn path_length_to(paths: Seq<(TilePosition, u32)>, tile: TilePosition) -> Option<u32>
    decreases paths.len(),
{
    if paths.len() == 0 {
        None
    } else if paths[0].0 == tile {
        Some(paths[0].1)
    } else {
        path_length_to(paths.drop_first(), tile)
    }
}

/// `a` and `b` share an edge.
pub open spec fn is_cardinal_neighbor(a: TilePosition, b: TilePosition) -> bool {
    (a.x == b.x && (a.y - b.y == 1 || b.y - a.y == 1)) || (a.y == b.y && (a.x - b.x == 1 || b.x - a.x
        == 1))
}

/// Approach tiles are ordered by path length, then row, then column.
pub open spec fn approach_precedes(a: ReachableApproachTile, b: ReachableApproachTile) -> bool {
    a.path_length_tiles < b.path_length_tiles || (a.path_length_tiles == b.path_length_tiles && (
    a.tile.y < b.tile.y || (a.tile.y == b.tile.y && a.tile.x < b.tile.x)))
}

/// A neighbour of `target` that the body can walk to: not its own tile, and in the path table.
pub open spec fn reachable_neighbor(
    tile: TilePosition,
    target: TilePosition,
    start: TilePosition,
    paths: Seq<(TilePosition, u32)>,
) -> bool {
    is_cardinal_neighbor(tile, target) && tile != start && path_length_to(paths, tile).is_some()
}

/// `candidates` are exactly the reachable neighbours of `target`, each with its
/// path length, in approach order.
pub open spec fn approach_candidates(
    candidates: Seq<ReachableApproachTile>,
    target: TilePosition,
    start: TilePosition,
    paths: Seq<(TilePosition, u32)>,
) -> bool {
    &&& forall|i: int|
        0 <= i < candidates.len() ==> reachable_neighbor(#[trigger] candidates[i].tile, target, start, paths)
            && path_length_to(paths, candidates[i].tile) == Some(candidates[i].path_length_tiles)
    &&& forall|t: TilePosition|
        #[trigger] reachable_neighbor(t, target, start, paths) ==> exists|i: int|
            0 <= i < candidates.len() && #[trigger] candidates[i].tile == t
    &&& forall|i: int, j: int|
        0 <= i < j < candidates.len() ==> approach_precedes(#[trigger] candidates[i], #[trigger] candidates[j])
}

fn path_length_lookup(paths: &Vec<(TilePosition, u32)>, tile: TilePosition) -> (length: Option<u32>)
    ensures
        length == path_length_to(paths@, tile),
{
    let mut i: usize = 0;
    assert(paths@.skip(0) =~= paths@);
    while i < paths.len()
        invariant
            i <= paths@.len(),
            path_length_to(paths@, tile) == path_length_to(paths@.skip(i as int), tile),
        decreases paths@.len() - i,
    {
        proof {
            assert(paths@.skip(i as int).drop_first() =~= paths@.skip(i + 1));
            assert(paths@.skip(i as int)[0] == paths@[i as int]);
        }
        if paths[i].0 == tile {
            return Some(paths[i].1);
        }
        i = i + 1;
    }
    None
}

/// Insert `candidate` into the ordered `candidates` at its place.
fn insert_candidate(candidates: &mut Vec<ReachableApproachTile>, candidate: ReachableApproachTile)
    requires
        forall|i: int, j: int|
            0 <= i < j < old(candidates)@.len() ==> approach_precedes(
                #[trigger] old(candidates)@[i],
                #[trigger] old(candidates)@[j],
            ),
        forall|i: int| 0 <= i < old(candidates)@.len() ==> #[trigger] old(candidates)@[i].tile != candidate.tile,
    ensures
        final(candidates)@.len() == old(candidates)@.len() + 1,
        forall|i: int|
            0 <= i < old(candidates)@.len() ==> final(candidates)@.contains(#[trigger] old(candidates)@[i]),
        forall|i: int|
            0 <= i < final(candidates)@.len() ==> #[trigger] final(candidates)@[i] == candidate || old(
                candidates,
            )@.contains(final(candidates)@[i]),
        final(candidates)@.contains(candidate),
        forall|i: int, j: int|
            0 <= i < j < final(candidates)@.len() ==> approach_precedes(
                #[trigger] final(candidates)@[i],
                #[trigger] final(candidates)@[j],
            ),
{
    let mut at: usize = 0;
    while at < candidates.len() && !(candidate.path_length_tiles < candidates[at].path_length_tiles || (
    candidate.path_length_tiles == candidates[at].path_length_tiles && (candidate.tile.y
        < candidates[at].tile.y || (candidate.tile.y == candidates[at].tile.y && candidate.tile.x
        < candidates[at].tile.x))))
        invariant
            at <= candidates@.len(),
            candidates@ == old(candidates)@,
            forall|i: int| 0 <= i < at ==> approach_precedes(#[trigger] candidates@[i], candidate),
            forall|i: int| 0 <= i < candidates@.len() ==> #[trigger] candidates@[i].tile != candidate.tile,
        decreases candidates@.len() - at,
    {
        at = at + 1;
    }
    let ghost before = candidates@;
    candidates.insert(at, candidate);
    proof {
        assert(candidates@ =~= before.insert(at as int, candidate));
        assert(candidates@[at as int] == candidate);
        assert forall|i: int| 0 <= i < before.len() implies candidates@.contains(#[trigger] before[i]) by {
            if i < at {
                assert(candidates@[i] == before[i]);
            } else {
                assert(candidates@[i + 1] == before[i]);
            }
        }
        assert forall|i: int| 0 <= i < candidates@.len() implies #[trigger] candidates@[i] == candidate
            || before.contains(candidates@[i]) by {
            if i < at {
                assert(candidates@[i] == before[i]);
            } else if i > at {
                assert(candidates@[i] == before[i - 1]);
            }
        }
        assert forall|i: int, j: int| 0 <= i < j < candidates@.len() implies approach_precedes(
            #[trigger] candidates@[i],
            #[trigger] candidates@[j],
        ) by {
            if at < before.len() && j > at {
                assert(approach_precedes(candidate, before[at as int]));
            }
            if i < at && j == at {
            } else if i < at && j > at {
                assert(candidates@[j] == before[j - 1]);
                assert(approach_precedes(before[i], candidate));
                if j - 1 > i {
                    assert(approach_precedes(before[i], before[j - 1]));
                } else {
                }
            } else if i == at {
                assert(candidates@[j] == before[j - 1]);
                if j - 1 > at {
                    assert(approach_precedes(before[at as int], before[j - 1]));
                }
            } else if i > at {
                assert(candidates@[i] == before[i - 1]);
                assert(candidates@[j] == before[j - 1]);
            }
        }
    }
}

/// The candidates found among the neighbours in `considered`.
pub open spec fn candidates_among(
    candidates: Seq<ReachableApproachTile>,
    considered: Set<TilePosition>,
    target: TilePosition,
    start: TilePosition,
    paths: Seq<(TilePosition, u32)>,
) -> bool {
    &&& forall|i: int|
        0 <= i < candidates.len() ==> reachable_neighbor(#[trigger] candidates[i].tile, target, start, paths)
            && path_length_to(paths, candidates[i].tile) == Some(candidates[i].path_length_tiles)
            && considered.contains(candidates[i].tile)
    &&& forall|t: TilePosition|
        considered.contains(t) && #[trigger] reachable_neighbor(t, target, start, paths) ==> exists|i: int|
            0 <= i < candidates.len() && #[trigger] candidates[i].tile == t
    &&& forall|i: int, j: int|
        0 <= i < j < candidates.len() ==> approach_precedes(#[trigger] candidates[i], #[trigger] candidates[j])
}

fn consider_neighbor(
    candidates: &mut Vec<ReachableApproachTile>,
    tile: TilePosition,
    target: TilePosition,
    start: TilePosition,
    paths: &Vec<(TilePosition, u32)>,
    Ghost(considered): Ghost<Set<TilePosition>>,
)
    requires
        is_cardinal_neighbor(tile, target),
        !considered.contains(tile),
        candidates_among(old(candidates)@, considered, target, start, paths@),
    ensures
        candidates_among(final(candidates)@, considered.insert(tile), target, start, paths@),
{
    if tile == start {
        return;
    }
    match path_length_lookup(paths, tile) {
        None => {},
        Some(length) => {
            let candidate = ReachableApproachTile { tile, path_length_tiles: length };
            let ghost before = candidates@;
            insert_candidate(candidates, candidate);
            proof {
                let after = candidates@;
                let done = considered.insert(tile);
                assert forall|i: int| 0 <= i < after.len() implies reachable_neighbor(
                    #[trigger] after[i].tile,
                    target,
                    start,
                    paths@,
                ) && path_length_to(paths@, after[i].tile) == Some(after[i].path_length_tiles)
                    && done.contains(after[i].tile) by {
                    if after[i] != candidate {
                        let k = choose|k: int| 0 <= k < before.len() && before[k] == after[i];
                        assert(before[k].tile == after[i].tile);
                    }
                }
                assert forall|t: TilePosition|
                    done.contains(t) && #[trigger] reachable_neighbor(t, target, start, paths@) implies exists|
                    i: int,
                | 0 <= i < after.len() && #[trigger] after[i].tile == t by {
                    if t == tile {
                        let k = choose|k: int| 0 <= k < after.len() && after[k] == candidate;
                        assert(after[k].tile == t);
                    } else {
                        let k = choose|k: int| 0 <= k < before.len() && #[trigger] before[k].tile == t;
                        assert(after.contains(before[k]));
                        let m = choose|m: int| 0 <= m < after.len() && after[m] == before[k];
                        assert(after[m].tile == t);
                    }
                }
            }
        },
    }
}

/// The reachable tiles next to `target`, in approach order.
pub fn approach_candidates_for(target: TilePosition, start: TilePosition, paths: &Vec<(TilePosition, u32)>) -> (candidates: Vec<ReachableApproachTile>)
    ensures
        approach_candidates(candidates@, target, start, paths@),
{
    let mut candidates: Vec<ReachableApproachTile> = Vec::new();
    let ghost mut considered: Set<TilePosition> = Set::empty();
    if target.y > i32::MIN {
        let north = TilePosition { x: target.x, y: target.y - 1 };
        consider_neighbor(&mut candidates, north, target, start, paths, Ghost(considered));
        proof {
            considered = considered.insert(north);
        }
    }
    if target.x < i32::MAX {
        let east = TilePosition { x: target.x + 1, y: target.y };
        consider_neighbor(&mut candidates, east, target, start, paths, Ghost(considered));
        proof {
            considered = considered.insert(east);
        }
    }
    if target.y < i32::MAX {
        let south = TilePosition { x: target.x, y: target.y + 1 };
        consider_neighbor(&mut candidates, south, target, start, paths, Ghost(considered));
        proof {
            considered = considered.insert(south);
        }
    }
    if target.x > i32::MIN {
        let west = TilePosition { x: target.x - 1, y: target.y };
        consider_neighbor(&mut candidates, west, target, start, paths, Ghost(considered));
        proof {
            considered = considered.insert(west);
        }
    }
    proof {
        assert forall|t: TilePosition| #[trigger] reachable_neighbor(t, target, start, paths@) implies exists|
            i: int,
        | 0 <= i < candidates@.len() && #[trigger] candidates@[i].tile == t by {
            assert(considered.contains(t));
        }
    }
    candidates
}

/// The entity can be approached: it is not known dead, its tile is known, and
/// some neighbouring tile is reachable.
pub open spec fn approachable(entity: VisibleEntity, start: TilePosition, paths: Seq<(TilePosition, u32)>) -> bool {
    &&& entity.alive != Some(false)
    &&& entity.tile matches Some(target)
    &&& exists|t: TilePosition| #[trigger] reachable_neighbor(t, target, start, paths)
}

/// The approachable entities of `entities`, in order.
pub open spec fn approachable_entities(
    entities: Seq<VisibleEntity>,
    start: TilePosition,
    paths: Seq<(TilePosition, u32)>,
) -> Seq<VisibleEntity>
    decreases entities.len(),
{
    if entities.len() == 0 {
        entities
    } else {
        let rest = approachable_entities(entities.drop_last(), start, paths);
        if approachable(entities.last(), start, paths) {
            rest.push(entities.last())
        } else {
            rest
        }
    }
}

/// `approaches` lists, for each approachable entity in order, its reachable neighbours.
pub open spec fn approaches_of(
    approaches: Seq<TacticalEntityApproach>,
    entities: Seq<VisibleEntity>,
    start: TilePosition,
    paths: Seq<(TilePosition, u32)>,
) -> bool {
    let listed = approachable_entities(entities, start, paths);
    &&& approaches.len() == listed.len()
    &&& forall|k: int|
        0 <= k < approaches.len() ==> (#[trigger] approaches[k]).entity_id@ == listed[k].id@
            && approaches[k].entity_kind == listed[k].kind && approach_candidates(
            approaches[k].candidates@,
            listed[k].tile.unwrap(),
            start,
            paths,
        )
}

/// Reachable tiles next to each visible entity that can be approached, from the
/// body's tile `start` and the local path table `paths` (tile and path length).
pub fn entity_approaches(
    entities: &Vec<VisibleEntity>,
    start: TilePosition,
    paths: &Vec<(TilePosition, u32)>,
) -> (approaches: Vec<TacticalEntityApproach>)
    ensures
        approaches_of(approaches@, entities@, start, paths@),
{
    let mut approaches: Vec<TacticalEntityApproach> = Vec::new();
    let mut i: usize = 0;
    while i < entities.len()
        invariant
            i <= entities@.len(),
            approaches_of(approaches@, entities@.take(i as int), start, paths@),
        decreases entities@.len() - i,
    {
        proof {
            assert(entities@.take(i + 1).drop_last() =~= entities@.take(i as int));
        }
        let entity = &entities[i];
        if entity.alive != Some(false) {
            match entity.tile {
                Some(target) => {
                    let candidates = approach_candidates_for(target, start, paths);
                    if candidates.len() > 0 {
                        proof {
                            assert(reachable_neighbor(candidates@[0].tile, target, start, paths@));
                        }
                        let ghost before = approaches@;
                        approaches.push(
                            TacticalEntityApproach {
                                entity_id: entity.id.clone(),
                                entity_kind: entity.kind,
                                candidates,
                            },
                        );
                        proof {
                            let listed = approachable_entities(entities@.take(i + 1), start, paths@);
                            assert(listed == approachable_entities(entities@.take(i as int), start, paths@).push(
                                entities@[i as int],
                            ));
                            assert forall|k: int| 0 <= k < approaches@.len() implies (
                            #[trigger] approaches@[k]).entity_id@ == listed[k].id@
                                && approaches@[k].entity_kind == listed[k].kind && approach_candidates(
                                approaches@[k].candidates@,
                                listed[k].tile.unwrap(),
                                start,
                                paths@,
                            ) by {
                                if k < before.len() {
                                    assert(approaches@[k] == before[k]);
                                }
                            }
                        }
                    } else {
                        proof {
                            assert forall|t: TilePosition| !reachable_neighbor(t, target, start, paths@) by {
                                if reachable_neighbor(t, target, start, paths@) {
                                    let k = choose|k: int| 0 <= k < candidates@.len() && #[trigger] candidates@[k].tile == t;
                                }
                            }
                        }
                    }
                },
                None => {},
            }
        }
        i = i + 1;
    }
    proof {
        assert(entities@.take(i as int) =~= entities@);
    }
    approaches
}

// ---------------------------------------------------------------------------
// The model input
// ---------------------------------------------------------------------------

/// Compact, factual model input derived from a full authoritative tactical frame.
///
/// Structured map tiles never enter the model input: the model receives the
/// map as compact ASCII plus exact entities, drops, doors and reachable exits.
#[derive(Debug, Clone)]
pub struct TacticalInput {
    pub protocol_version: u32,
    pub frame_revision: u64,
    pub strategic_revision: u64,
    pub self_state: SelfState,
    pub combat: CombatSnapshot,
    pub census: VisibilityCensus,
    pub nearby_entities: Vec<VisibleEntity>,
    pub entity_approaches: Vec<TacticalEntityApproach>,
    pub nearby_drops: Vec<Drop>,
    pub local_map: TacticalMap,
    pub exits: Vec<ReachableExit>,
    pub local_waypoints: Vec<ReachableWaypoint>,
    pub recent_events: Vec<TacticalEvent>,
    pub recent_actions: Vec<TacticalActionOutcome>,
    pub strategic_intent: StrategicIntent,
    pub movement_control: MovementControl,
}

/// `input` is the model's view of `frame`, with approach tiles taken from the
/// local path table `paths`.
pub open spec fn input_of_frame(
    input: TacticalInput,
    frame: TacticalFrame,
    paths: Seq<(TilePosition, u32)>,
) -> bool {
    &&& input.protocol_version == TACTICAL_INPUT_PROTOCOL_VERSION
    &&& input.frame_revision == frame.revision
    &&& input.strategic_revision == frame.strategic_intent.revision
    &&& input.self_state == frame.self_state
    &&& input.combat == frame.combat
    &&& input.census == frame.census
    &&& input.nearby_entities == frame.nearby_entities
    &&& match frame.self_state.position {
        Some(position) => approaches_of(input.entity_approaches@, frame.nearby_entities@, position.tile, paths),
        None => input.entity_approaches@.len() == 0,
    }
    &&& input.nearby_drops == frame.nearby_drops
    &&& input.local_map.revision == frame.map.revision
    &&& input.local_map.origin_tile_x == frame.map.origin_tile_x
    &&& input.local_map.origin_tile_y == frame.map.origin_tile_y
    &&& input.local_map.width == frame.map.width
    &&& input.local_map.height == frame.map.height
    &&& input.local_map.doors == frame.map.doors
    &&& input.local_map.ascii == frame.map.ascii
    &&& exit_views(input.exits@) == visible_exits(
        exit_views(frame.exits@),
        last_scene_left(frame.recent_events@),
        return_required(frame),
    )
    &&& input.local_waypoints == frame.local_waypoints
    &&& input.recent_events@.len() == frame.recent_events@.len() - tail_start(
        frame.recent_events@.len(),
        max_recent_events(),
    )
    &&& forall|i: int|
        0 <= i < input.recent_events@.len() ==> event_shown(
            #[trigger] input.recent_events@[i],
            frame.recent_events@[tail_start(frame.recent_events@.len(), max_recent_events()) + i],
            frame.generated_at_ms,
        )
    &&& input.recent_actions@.len() == frame.recent_actions@.len() - tail_start(
        frame.recent_actions@.len(),
        max_recent_actions(),
    )
    &&& forall|i: int|
        0 <= i < input.recent_actions@.len() ==> outcome_shown(
            #[trigger] input.recent_actions@[i],
            frame.recent_actions@[tail_start(frame.recent_actions@.len(), max_recent_actions()) + i],
        )
    &&& input.strategic_intent == frame.strategic_intent
    &&& movement_control_of(frame, input.movement_control)
}

/// The model's input keeps the world's lists exactly and its map as text
/// only: the entities, drops and ASCII map of the frame, unchanged; the last
/// twenty events and last ten action outcomes (or all, when there are fewer),
/// oldest first, each event with its detail whole and each outcome with its
/// destination and reason; and the frame's revision.
pub proof fn law_input_keeps_exact_world_lists(input: TacticalInput, frame: TacticalFrame, paths: Seq<(TilePosition, u32)>)
    requires
        input_of_frame(input, frame, paths),
    ensures
        input.nearby_entities == frame.nearby_entities,
        input.nearby_drops == frame.nearby_drops,
        input.local_map.ascii == frame.map.ascii,
        input.frame_revision == frame.revision,
        input.recent_events@.len() == if frame.recent_events@.len() > 20 {
            20
        } else {
            frame.recent_events@.len()
        },
        input.recent_actions@.len() == if frame.recent_actions@.len() > 10 {
            10
        } else {
            frame.recent_actions@.len()
        },
        forall|i: int|
            0 <= i < input.recent_events@.len() ==> optional_text((#[trigger] input.recent_events@[i]).detail)
                == optional_text(frame.recent_events@[frame.recent_events@.len() - input.recent_events@.len() + i].detail),
        forall|i: int|
            0 <= i < input.recent_actions@.len() ==> {
                let outcome = frame.recent_actions@[frame.recent_actions@.len() - input.recent_actions@.len() + i];
                &&& (#[trigger] input.recent_actions@[i]).destination_tile == outcome.destination_tile
                &&& optional_text(input.recent_actions@[i].reason_code) == optional_text(outcome.reason_code)
            },
{
    assert forall|i: int| 0 <= i < input.recent_events@.len() implies optional_text(
        (#[trigger] input.recent_events@[i]).detail,
    ) == optional_text(frame.recent_events@[frame.recent_events@.len() - input.recent_events@.len() + i].detail) by {
        assert(event_shown(
            input.recent_events@[i],
            frame.recent_events@[tail_start(frame.recent_events@.len(), max_recent_events()) + i],
            frame.generated_at_ms,
        ));
    }
    assert forall|i: int| 0 <= i < input.recent_actions@.len() implies {
        let outcome = frame.recent_actions@[frame.recent_actions@.len() - input.recent_actions@.len() + i];
        &&& (#[trigger] input.recent_actions@[i]).destination_tile == outcome.destination_tile
        &&& optional_text(input.recent_actions@[i].reason_code) == optional_text(outcome.reason_code)
    } by {
        assert(outcome_shown(
            input.recent_actions@[i],
            frame.recent_actions@[tail_start(frame.recent_actions@.len(), max_recent_actions()) + i],
        ));
    }
}

impl TacticalInput {
    /// The compact model input of `frame`. `path_lengths` is the local path
    /// table from the body's tile: each reachable tile with its path length.
    pub fn from_frame(frame: TacticalFrame, path_lengths: &Vec<(TilePosition, u32)>) -> (input: TacticalInput)
        ensures
            input_of_frame(input, frame, path_lengths@),
    {
        let entity_approaches = match frame.self_state.position {
            Some(position) => entity_approaches(&frame.nearby_entities, position.tile, path_lengths),
            None => Vec::new(),
        };
        let exits = model_visible_exits(&frame);
        let recent_events = recent_events_shown(&frame);
        let recent_actions = recent_actions_shown(&frame);
        let movement_control = movement_control(&frame);
        let TacticalFrame {
            revision,
            self_state,
            combat,
            census,
            nearby_entities,
            nearby_drops,
            map,
            local_waypoints,
            strategic_intent,
            ..
        } = frame;
        TacticalInput {
            protocol_version: TACTICAL_INPUT_PROTOCOL_VERSION,
            frame_revision: revision,
            strategic_revision: strategic_intent.revision,
            self_state,
            combat,
            census,
            nearby_entities,
            entity_approaches,
            nearby_drops,
            local_map: TacticalMap {
                revision: map.revision,
                origin_tile_x: map.origin_tile_x,
                origin_tile_y: map.origin_tile_y,
                width: map.width,
                height: map.height,
                doors: map.doors,
                ascii: map.ascii,
            },
            exits,
            local_waypoints,
            recent_events,
            recent_actions,
            strategic_intent,
            movement_control,
        }
    }
}

// ---------------------------------------------------------------------------
// Laws
// ---------------------------------------------------------------------------

/// Every preemption fact a frame can present is one the runtime allows, each
/// appears at most once, and they come in the fixed order.
pub proof fn law_preemption_facts_are_allowed_and_ordered(frame: TacticalFrame)
    ensures
        preemption_facts(frame).len() <= all_preemption_facts().len(),
        forall|i: int|
            0 <= i < preemption_facts(frame).len() ==> all_preemption_facts().contains(
                #[trigger] preemption_facts(frame)[i],
            ),
        forall|i: int, j: int|
            0 <= i < j < preemption_facts(frame).len() ==> preemption_facts(frame)[i]
                != preemption_facts(frame)[j],
{
    let all = all_preemption_facts();
    let f = preemption_facts(frame);
    assert forall|i: int| 0 <= i < f.len() implies all.contains(#[trigger] f[i]) by {
        if f[i] == TacticalPreemptionFact::CombatActive {
            assert(all[0] == f[i]);
        } else if f[i] == TacticalPreemptionFact::HostileTargetingSelf {
            assert(all[1] == f[i]);
        } else if f[i] == TacticalPreemptionFact::DamageTaken {
            assert(all[2] == f[i]);
        } else {
            assert(all[3] == f[i]);
        }
    }
}

/// Each preemption fact is presented exactly when its cause is in the
/// frame: active combat; a visible entity that is hostile and targeting the
/// body; damage taken within the preemption window; a movement failure event
/// within the window.
pub proof fn law_preemption_facts_report_their_causes(frame: TacticalFrame)
    ensures
        preemption_facts(frame).contains(TacticalPreemptionFact::CombatActive) <==> frame.combat.active == Some(
            true,
        ),
        preemption_facts(frame).contains(TacticalPreemptionFact::HostileTargetingSelf) <==> exists|i: int|
            0 <= i < frame.nearby_entities@.len() && (#[trigger] frame.nearby_entities@[i]).hostile == Some(true)
                && frame.nearby_entities@[i].targeting_you == Some(true),
        preemption_facts(frame).contains(TacticalPreemptionFact::DamageTaken) <==> exists|i: int|
            0 <= i < frame.recent_events@.len() && (#[trigger] frame.recent_events@[i]).kind
                == GameEventKind::DamageTaken && 0 <= frame.generated_at_ms - frame.recent_events@[i].observed_at_ms
                <= 2000,
        preemption_facts(frame).contains(TacticalPreemptionFact::MovementFailure) <==> (exists|i: int|
            0 <= i < frame.recent_events@.len() && (#[trigger] frame.recent_events@[i]).kind
                == GameEventKind::MovementFailed && 0 <= frame.generated_at_ms
                - frame.recent_events@[i].observed_at_ms <= 2000) || (exists|i: int|
            0 <= i < frame.recent_actions@.len() && (#[trigger] frame.recent_actions@[i]).status
                == OutcomeStatus::Failed && frame.recent_actions@[i].action_kind@ == "move_to"@ && 0
                <= frame.generated_at_ms - frame.recent_actions@[i].recorded_at_ms <= 2000),
{
    let f = preemption_facts(frame);
    let combat: Seq<TacticalPreemptionFact> = if frame.combat.active == Some(true) {
        seq![TacticalPreemptionFact::CombatActive]
    } else {
        Seq::empty()
    };
    let hostile: Seq<TacticalPreemptionFact> = if hostile_targets_self(frame.nearby_entities@) {
        seq![TacticalPreemptionFact::HostileTargetingSelf]
    } else {
        Seq::empty()
    };
    let damage: Seq<TacticalPreemptionFact> = if recent_event_of_kind(
        frame.recent_events@,
        GameEventKind::DamageTaken,
        frame.generated_at_ms,
    ) {
        seq![TacticalPreemptionFact::DamageTaken]
    } else {
        Seq::empty()
    };
    let rest = f.skip((combat.len() + hostile.len() + damage.len()) as int);
    assert(f =~= combat + hostile + damage + rest);
    assert(forall|i: int| 0 <= i < rest.len() ==> rest[i] == TacticalPreemptionFact::MovementFailure);
    if frame.combat.active == Some(true) {
        assert(f[0] == TacticalPreemptionFact::CombatActive);
    }
    if f.contains(TacticalPreemptionFact::CombatActive) {
        let j = choose|j: int| 0 <= j < f.len() && f[j] == TacticalPreemptionFact::CombatActive;
        assert(j < combat.len());
    }
    if hostile_targets_self(frame.nearby_entities@) {
        assert(f[combat.len() as int] == TacticalPreemptionFact::HostileTargetingSelf);
    }
    if f.contains(TacticalPreemptionFact::HostileTargetingSelf) {
        let j = choose|j: int| 0 <= j < f.len() && f[j] == TacticalPreemptionFact::HostileTargetingSelf;
        assert(combat.len() <= j < combat.len() + hostile.len());
    }
    if recent_event_of_kind(frame.recent_events@, GameEventKind::DamageTaken, frame.generated_at_ms) {
        assert(f[(combat.len() + hostile.len()) as int] == TacticalPreemptionFact::DamageTaken);
    }
    if f.contains(TacticalPreemptionFact::DamageTaken) {
        let j = choose|j: int| 0 <= j < f.len() && f[j] == TacticalPreemptionFact::DamageTaken;
        assert(combat.len() + hostile.len() <= j < combat.len() + hostile.len() + damage.len());
    }
    let moved = recent_event_of_kind(frame.recent_events@, GameEventKind::MovementFailed, frame.generated_at_ms)
        || recent_failed_move(frame.recent_actions@, frame.generated_at_ms);
    let start = combat.len() + hostile.len() + damage.len();
    if moved {
        assert(f[start as int] == TacticalPreemptionFact::MovementFailure);
    }
    if f.contains(TacticalPreemptionFact::MovementFailure) {
        let j = choose|j: int| 0 <= j < f.len() && f[j] == TacticalPreemptionFact::MovementFailure;
        assert(j >= start);
        assert(rest.len() > 0);
    }
}

/// A quiet frame (no active combat, no hostile targeting the body, no recent
/// damage or movement failure) presents no preemption fact, so the body keeps
/// movement.
pub proof fn law_quiet_frame_presents_no_preemption(frame: TacticalFrame)
    requires
        frame.combat.active != Some(true),
        !hostile_targets_self(frame.nearby_entities@),
        !recent_event_of_kind(frame.recent_events@, GameEventKind::DamageTaken, frame.generated_at_ms),
        !recent_event_of_kind(frame.recent_events@, GameEventKind::MovementFailed, frame.generated_at_ms),
        !recent_failed_move(frame.recent_actions@, frame.generated_at_ms),
    ensures
        preemption_facts(frame).len() == 0,
{
}

/// An approach tile is never the approached entity's own tile nor the body's
/// tile, and every listed tile is distinct.
pub proof fn law_approach_tiles_avoid_target_and_body(
    candidates: Seq<ReachableApproachTile>,
    target: TilePosition,
    start: TilePosition,
    paths: Seq<(TilePosition, u32)>,
)
    requires
        approach_candidates(candidates, target, start, paths),
    ensures
        forall|i: int|
            0 <= i < candidates.len() ==> #[trigger] candidates[i].tile != target && candidates[i].tile != start,
        forall|i: int, j: int|
            0 <= i < j < candidates.len() ==> #[trigger] candidates[i].tile != #[trigger] candidates[j].tile,
{
    assert forall|i: int, j: int| 0 <= i < j < candidates.len() implies #[trigger] candidates[i].tile
        != #[trigger] candidates[j].tile by {
        assert(approach_precedes(candidates[i], candidates[j]));
        if candidates[i].tile == candidates[j].tile {
            assert(path_length_to(paths, candidates[i].tile) == Some(candidates[i].path_length_tiles));
            assert(path_length_to(paths, candidates[j].tile) == Some(candidates[j].path_length_tiles));
        }
    }
}

} // verus!
