//! Bounded, self-contained facts for one long-horizon decision.
//!
//! Event summaries are data supplied by the runtime: they are not instructions,
//! and they expose neither a game gateway nor a conversation transcript.

use vstd::prelude::*;

use crate::brain::tactical_frame::{EntityKind, TacticalFrame, VisibleEntity};
use crate::text::{copy_optional_text, optional_text};
use crate::world::{GameEvent, GameEventKind, ReachableExit, TilePosition};

verus! {

/// At most this many visible entities reach a strategic decision.
pub const MAX_STRATEGIC_ENTITIES: usize = 32;

/// At most this many exits reach a strategic decision.
pub const MAX_STRATEGIC_EXITS: usize = 16;

/// At most this many recent scene transitions reach a strategic decision.
pub const MAX_STRATEGIC_TRANSITIONS: usize = 8;

/// The version of the strategic input protocol.
pub const STRATEGIC_INPUT_PROTOCOL_VERSION: u32 = 1;

/// An entity in view, as a strategic decision sees it. Distances are in
/// thousandths of a tile.
#[derive(Debug, Clone)]
pub struct StrategicVisibleEntity {
    pub id: String,
    pub label: String,
    pub kind: EntityKind,
    pub tile: Option<TilePosition>,
    pub distance_millitiles: Option<u64>,
    pub hostile: Option<bool>,
    pub is_merchant: Option<bool>,
    pub interactable: Option<bool>,
}

/// A reachable exit, as a strategic decision sees it.
#[derive(Debug, Clone, PartialEq, Eq)]
pub struct StrategicExit {
    pub tile: TilePosition,
    pub destination_scene: Option<String>,
    pub label: Option<String>,
    pub path_length_tiles: u32,
}

/// A scene entered or left.
#[derive(Debug, Clone, PartialEq, Eq)]
pub struct StrategicSceneTransition {
    pub kind: GameEventKind,
    pub scene: Option<String>,
}

/// Small authoritative world view for one long-horizon decision.
#[derive(Debug, Clone)]
pub struct StrategicWorldSnapshot {
    pub frame_revision: u64,
    pub scene: Option<String>,
    pub tile: Option<TilePosition>,
    pub health: Option<i32>,
    pub max_health: Option<i32>,
    pub combat_active: Option<bool>,
    pub visible_entities: Vec<StrategicVisibleEntity>,
    pub visible_drop_count: usize,
    pub carried_item_count: usize,
    pub exits: Vec<StrategicExit>,
    pub recent_scene_transitions: Vec<StrategicSceneTransition>,
}

/// What kind of moment a strategic decision is told about.
#[derive(Debug, Clone, Copy, PartialEq, Eq, Structural)]
pub enum StrategicMomentKind {
    World,
    GoalBlocked,
    PersonSpoke,
    NavigationArrived,
    EpisodeFinished,
    Reflection,
}

/// Model-visible physical completion facts for a navigation mission.
#[derive(Debug, Clone, PartialEq, Eq)]
pub struct StrategicNavigationArrival {
    pub destination_scene: String,
    pub destination_tile: Option<TilePosition>,
    pub destination_name: String,
    pub arrived_scene: Option<String>,
    pub arrived_tile: Option<TilePosition>,
    pub attempts: u32,
}

/// One moment a strategic decision is told about.
#[derive(Debug, Clone, PartialEq, Eq)]
pub struct StrategicMoment {
    pub kind: StrategicMomentKind,
    pub summary: String,
    pub speaker: Option<String>,
    pub dialogue_channel: Option<String>,
    pub navigation_arrival: Option<StrategicNavigationArrival>,
}

/// `shown` carries the facts of `entity` that a strategic decision sees.
pub open spec fn entity_summarized(shown: StrategicVisibleEntity, entity: VisibleEntity) -> bool {
    &&& shown.id@ == entity.id@
    &&& shown.label@ == entity.label@
    &&& shown.kind == entity.kind
    &&& shown.tile == entity.tile
    &&& shown.distance_millitiles == entity.distance_millitiles
    &&& shown.hostile == entity.hostile
    &&& shown.is_merchant == entity.is_merchant
    &&& shown.interactable == entity.interactable
}

/// `shown` carries the facts of `exit`.
pub open spec fn exit_summarized(shown: StrategicExit, exit: ReachableExit) -> bool {
    &&& shown.tile == exit.tile
    &&& optional_text(shown.destination_scene) == optional_text(exit.destination_scene)
    &&& optional_text(shown.label) == optional_text(exit.label)
    &&& shown.path_length_tiles == exit.path_length_tiles
}

/// `shown` carries the kind and scene of the transition `event`.
pub open spec fn transition_summarized(shown: StrategicSceneTransition, event: GameEvent) -> bool {
    &&& shown.kind == event.kind
    &&& optional_text(shown.scene) == optional_text(event.detail)
}

/// Whether an event kind enters or leaves a scene.
pub open spec fn is_scene_transition(kind: GameEventKind) -> bool {
    kind is SceneEntered || kind is SceneLeft
}

/// The scene transitions among `events`, in their order.
pub open spec fn scene_transition_events(events: Seq<GameEvent>) -> Seq<GameEvent>
    decreases events.len(),
{
    if events.len() == 0 {
        Seq::empty()
    } else {
        let earlier = scene_transition_events(events.drop_last());
        if is_scene_transition(events.last().kind) {
            earlier.push(events.last())
        } else {
            earlier
        }
    }
}

/// The most recent scene transitions among `events`, oldest first, at most
/// `MAX_STRATEGIC_TRANSITIONS` of them.
pub open spec fn recent_scene_transition_events(events: Seq<GameEvent>) -> Seq<GameEvent> {
    let all = scene_transition_events(events);
    if all.len() > MAX_STRATEGIC_TRANSITIONS {
        all.skip(all.len() - MAX_STRATEGIC_TRANSITIONS)
    } else {
        all
    }
}

/// The length of the first at most `limit` items of a sequence of `len` items.
pub open spec fn bounded_len(len: nat, limit: nat) -> nat {
    if len < limit {
        len
    } else {
        limit
    }
}

/// The tile of an optional position.
pub open spec fn tile_of(position: Option<crate::world::Position>) -> Option<TilePosition> {
    match position {
        Some(p) => Some(p.tile),
        None => None,
    }
}

/// The entities of a snapshot summarize the first entities in view, in order.
pub open spec fn entities_summarized(shown: Seq<StrategicVisibleEntity>, entities: Seq<VisibleEntity>) -> bool {
    &&& shown.len() == bounded_len(entities.len(), MAX_STRATEGIC_ENTITIES as nat)
    &&& forall|i: int| 0 <= i < shown.len() ==> entity_summarized(#[trigger] shown[i], entities[i])
}

/// The exits of a snapshot summarize the first exits of the frame, in order.
pub open spec fn exits_summarized(shown: Seq<StrategicExit>, exits: Seq<ReachableExit>) -> bool {
    &&& shown.len() == bounded_len(exits.len(), MAX_STRATEGIC_EXITS as nat)
    &&& forall|i: int| 0 <= i < shown.len() ==> exit_summarized(#[trigger] shown[i], exits[i])
}

/// The transitions of a snapshot summarize `events`, in order.
pub open spec fn transitions_summarized(shown: Seq<StrategicSceneTransition>, events: Seq<GameEvent>) -> bool {
    &&& shown.len() == events.len()
    &&& forall|i: int| 0 <= i < shown.len() ==> transition_summarized(#[trigger] shown[i], events[i])
}

/// `snapshot` is the strategic world view of `frame`.
pub open spec fn snapshot_of(snapshot: StrategicWorldSnapshot, frame: TacticalFrame) -> bool {
    &&& snapshot.frame_revision == frame.revision
    &&& optional_text(snapshot.scene) == optional_text(frame.self_state.scene)
    &&& snapshot.tile == tile_of(frame.self_state.position)
    &&& snapshot.health == frame.self_state.health
    &&& snapshot.max_health == frame.self_state.max_health
    &&& snapshot.combat_active == frame.combat.active
    &&& entities_summarized(snapshot.visible_entities@, frame.nearby_entities@)
    &&& snapshot.visible_drop_count == frame.nearby_drops@.len()
    &&& snapshot.carried_item_count == frame.self_state.inventory@.len()
    &&& exits_summarized(snapshot.exits@, frame.exits@)
    &&& transitions_summarized(
        snapshot.recent_scene_transitions@,
        recent_scene_transition_events(frame.recent_events@),
    )
}

fn summarize_entity(entity: &VisibleEntity) -> (shown: StrategicVisibleEntity)
    ensures
        entity_summarized(shown, *entity),
{
    StrategicVisibleEntity {
        id: entity.id.clone(),
        label: entity.label.clone(),
        kind: entity.kind,
        tile: entity.tile,
        distance_millitiles: entity.distance_millitiles,
        hostile: entity.hostile,
        is_merchant: entity.is_merchant,
        interactable: entity.interactable,
    }
}

fn summarize_exit(exit: &ReachableExit) -> (shown: StrategicExit)
    ensures
        exit_summarized(shown, *exit),
{
    StrategicExit {
        tile: exit.tile,
        destination_scene: copy_optional_text(&exit.destination_scene),
        label: copy_optional_text(&exit.label),
        path_length_tiles: exit.path_length_tiles,
    }
}

fn summarize_entities(entities: &Vec<VisibleEntity>) -> (shown: Vec<StrategicVisibleEntity>)
    ensures
        entities_summarized(shown@, entities@),
{
    let mut shown: Vec<StrategicVisibleEntity> = Vec::new();
    let mut i: usize = 0;
    while i < entities.len() && i < MAX_STRATEGIC_ENTITIES
        invariant
            i <= entities@.len(),
            i <= MAX_STRATEGIC_ENTITIES,
            shown@.len() == i,
            forall|k: int| 0 <= k < i ==> entity_summarized(#[trigger] shown@[k], entities@[k]),
        decreases entities@.len() - i,
    {
        shown.push(summarize_entity(&entities[i]));
        i = i + 1;
    }
    shown
}

fn summarize_exits(exits: &Vec<ReachableExit>) -> (shown: Vec<StrategicExit>)
    ensures
        exits_summarized(shown@, exits@),
{
    let mut shown: Vec<StrategicExit> = Vec::new();
    let mut i: usize = 0;
    while i < exits.len() && i < MAX_STRATEGIC_EXITS
        invariant
            i <= exits@.len(),
            i <= MAX_STRATEGIC_EXITS,
            shown@.len() == i,
            forall|k: int| 0 <= k < i ==> exit_summarized(#[trigger] shown@[k], exits@[k]),
        decreases exits@.len() - i,
    {
        shown.push(summarize_exit(&exits[i]));
        i = i + 1;
    }
    shown
}

fn recent_scene_transitions(events: &Vec<GameEvent>) -> (shown: Vec<StrategicSceneTransition>)
    ensures
        transitions_summarized(shown@, recent_scene_transition_events(events@)),
{
    let mut all: Vec<StrategicSceneTransition> = Vec::new();
    let mut i: usize = 0;
    while i < events.len()
        invariant
            i <= events@.len(),
            transitions_summarized(all@, scene_transition_events(events@.take(i as int))),
        decreases events@.len() - i,
    {
        assert(events@.take(i + 1).drop_last() =~= events@.take(i as int));
        let event = &events[i];
        let transition = match event.kind {
            GameEventKind::SceneEntered => true,
            GameEventKind::SceneLeft => true,
            _ => false,
        };
        if transition {
            all.push(StrategicSceneTransition { kind: event.kind, scene: copy_optional_text(&event.detail) });
        }
        i = i + 1;
    }
    assert(events@.take(events@.len() as int) =~= events@);
    if all.len() > MAX_STRATEGIC_TRANSITIONS {
        let start = all.len() - MAX_STRATEGIC_TRANSITIONS;
        let ghost whole = all@;
        let recent = all.split_off(start);
        proof {
            let every = scene_transition_events(events@);
            assert forall|k: int| 0 <= k < recent@.len() implies transition_summarized(
                #[trigger] recent@[k],
                every.skip(start as int)[k],
            ) by {
                assert(transition_summarized(whole[start + k], every[start + k]));
            }
        }
        recent
    } else {
        all
    }
}

proof fn lemma_scene_transition_events(events: Seq<GameEvent>)
    ensures
        scene_transition_events(events).len() <= events.len(),
        forall|i: int|
            0 <= i < scene_transition_events(events).len() ==> is_scene_transition(
                (#[trigger] scene_transition_events(events)[i]).kind,
            ),
    decreases events.len(),
{
    if events.len() > 0 {
        lemma_scene_transition_events(events.drop_last());
    }
}

/// A strategic snapshot shows at most `MAX_STRATEGIC_TRANSITIONS` scene
/// transitions, and nothing else among them: each entered or left a scene.
pub proof fn law_snapshot_shows_only_scene_transitions(snapshot: StrategicWorldSnapshot, frame: TacticalFrame)
    requires
        snapshot_of(snapshot, frame),
    ensures
        snapshot.recent_scene_transitions@.len() <= MAX_STRATEGIC_TRANSITIONS,
        forall|i: int|
            0 <= i < snapshot.recent_scene_transitions@.len() ==> is_scene_transition(
                (#[trigger] snapshot.recent_scene_transitions@[i]).kind,
            ),
{
    let all = scene_transition_events(frame.recent_events@);
    lemma_scene_transition_events(frame.recent_events@);
    let recent = recent_scene_transition_events(frame.recent_events@);
    assert forall|i: int| 0 <= i < snapshot.recent_scene_transitions@.len() implies is_scene_transition(
        (#[trigger] snapshot.recent_scene_transitions@[i]).kind,
    ) by {
        assert(transition_summarized(snapshot.recent_scene_transitions@[i], recent[i]));
        if all.len() > MAX_STRATEGIC_TRANSITIONS {
            assert(recent[i] == all[i + (all.len() - MAX_STRATEGIC_TRANSITIONS)]);
        }
    }
}

impl StrategicWorldSnapshot {
    /// The strategic world view of `frame`: its revision and the body's own
    /// facts, the first entities in view and exits (bounded), how many drops
    /// are in view and items carried, and the most recent scene transitions,
    /// oldest first.
    pub fn from_frame(frame: &TacticalFrame) -> (snapshot: StrategicWorldSnapshot)
        ensures
            snapshot_of(snapshot, *frame),
    {
        StrategicWorldSnapshot {
            frame_revision: frame.revision,
            scene: copy_optional_text(&frame.self_state.scene),
            tile: match frame.self_state.position {
                Some(p) => Some(p.tile),
                None => None,
            },
            health: frame.self_state.health,
            max_health: frame.self_state.max_health,
            combat_active: frame.combat.active,
            visible_entities: summarize_entities(&frame.nearby_entities),
            visible_drop_count: frame.nearby_drops.len(),
            carried_item_count: frame.self_state.inventory.len(),
            exits: summarize_exits(&frame.exits),
            recent_scene_transitions: recent_scene_transitions(&frame.recent_events),
        }
    }
}

} // verus!
