//! One authoritative tactical frame: everything the runtime knows at an instant.

use vstd::prelude::*;

use crate::brain::strategic_intent::StrategicIntent;
use crate::execution::outcome::ActionOutcome;
use crate::world::{
    CombatSnapshot, GameEvent, LocalMap, Position, ReachableExit, ReachableWaypoint, TilePosition,
};

verus! {

#[derive(Debug, Clone, Copy, PartialEq, Eq, Structural)]
pub enum TargetKind {
    NoTarget,
    SelfTarget,
    Entity,
    Position,
    Unknown,
}

/// A combat action the backend lists for the body.
#[derive(Debug, Clone)]
pub struct CombatActionAvailability {
    pub id: String,
    pub available: Option<bool>,
    pub cooldown_remaining_ms: Option<u64>,
    pub target_kind: TargetKind,
}

/// An item the body carries.
#[derive(Debug, Clone)]
pub struct CarriedItem {
    pub id: String,
    pub label: String,
    pub quantity: u32,
    pub usable: Option<bool>,
    pub equipment: Option<bool>,
    pub equipped: Option<bool>,
}

#[derive(Debug, Clone, Copy, PartialEq, Eq, Structural)]
pub enum EntityKind {
    Player,
    Npc,
    Enemy,
    Unknown,
}

/// How many players and objects the world reported, and how many it listed.
#[derive(Debug, Clone, Copy, PartialEq, Eq, Structural)]
pub struct VisibilityCensus {
    pub reported_total_players: Option<u32>,
    pub listed_other_players: usize,
    pub reported_total_objects: Option<u32>,
    pub listed_objects: usize,
    pub object_list_truncated: Option<bool>,
}

/// The body's own state. `None` always means the world did not say.
#[derive(Debug, Clone)]
pub struct SelfState {
    pub scene: Option<String>,
    pub position: Option<Position>,
    pub health: Option<i32>,
    pub max_health: Option<i32>,
    pub level: Option<i32>,
    pub experience: Option<i64>,
    pub class_path: Option<String>,
    pub alive: Option<bool>,
    pub recently_died: Option<bool>,
    pub moving: Option<bool>,
    pub combat_actions: Vec<CombatActionAvailability>,
    pub inventory: Vec<CarriedItem>,
}

/// An entity in view. Distances are in thousandths of a tile.
#[derive(Debug, Clone)]
pub struct VisibleEntity {
    pub id: String,
    pub backend_object_id: Option<i64>,
    pub label: String,
    pub kind: EntityKind,
    pub tile: Option<TilePosition>,
    pub relative: Option<TilePosition>,
    pub distance_millitiles: Option<u64>,
    pub alive: Option<bool>,
    pub is_merchant: Option<bool>,
    pub interactable: Option<bool>,
    pub hostile: Option<bool>,
    pub targeting_you: Option<bool>,
}

/// A drop on the ground in view. Distances are in thousandths of a tile.
#[derive(Debug, Clone)]
pub struct Drop {
    pub id: String,
    pub item_id: Option<String>,
    pub label: Option<String>,
    pub tile: Option<TilePosition>,
    pub relative: Option<TilePosition>,
    pub distance_millitiles: Option<u64>,
}

/// One authoritative frame. Timestamps are milliseconds since the Unix epoch.
#[derive(Debug, Clone)]
pub struct TacticalFrame {
    pub revision: u64,
    pub perception_revision: u64,
    pub inventory_revision: u64,
    pub generated_at_ms: i64,
    pub self_state: SelfState,
    pub combat: CombatSnapshot,
    pub census: VisibilityCensus,
    pub nearby_entities: Vec<VisibleEntity>,
    pub nearby_drops: Vec<Drop>,
    pub map: LocalMap,
    pub exits: Vec<ReachableExit>,
    pub local_waypoints: Vec<ReachableWaypoint>,
    pub recent_events: Vec<GameEvent>,
    pub recent_actions: Vec<ActionOutcome>,
    pub strategic_intent: StrategicIntent,
}

impl SelfState {
    /// A self state about which the world has said nothing.
    pub fn unknown() -> (state: SelfState)
        ensures
            state.scene.is_none(),
            state.position.is_none(),
            state.health.is_none(),
            state.max_health.is_none(),
            state.level.is_none(),
            state.experience.is_none(),
            state.class_path.is_none(),
            state.alive.is_none(),
            state.recently_died.is_none(),
            state.moving.is_none(),
            state.combat_actions@.len() == 0,
            state.inventory@.len() == 0,
    {
        SelfState {
            scene: None,
            position: None,
            health: None,
            max_health: None,
            level: None,
            experience: None,
            class_path: None,
            alive: None,
            recently_died: None,
            moving: None,
            combat_actions: Vec::new(),
            inventory: Vec::new(),
        }
    }
}

impl TacticalFrame {
    /// A frame with no observations yet, generated now under `strategic_intent`.
    pub fn empty(strategic_intent: StrategicIntent) -> (frame: TacticalFrame)
        ensures
            frame.revision == 0,
            frame.perception_revision == 0,
            frame.inventory_revision == 0,
            frame.self_state.scene.is_none(),
            frame.self_state.position.is_none(),
            frame.self_state.health.is_none(),
            frame.self_state.max_health.is_none(),
            frame.self_state.alive.is_none(),
            frame.self_state.recently_died.is_none(),
            frame.self_state.moving.is_none(),
            frame.self_state.combat_actions@.len() == 0,
            frame.self_state.inventory@.len() == 0,
            frame.combat.active.is_none(),
            frame.combat.current_hostiles == 0,
            frame.combat.enemy_health@.len() == 0,
            frame.nearby_entities@.len() == 0,
            frame.nearby_drops@.len() == 0,
            frame.map.tiles@.len() == 0,
            frame.exits@.len() == 0,
            frame.local_waypoints@.len() == 0,
            frame.recent_events@.len() == 0,
            frame.recent_actions@.len() == 0,
            frame.strategic_intent == strategic_intent,
    {
        TacticalFrame {
            revision: 0,
            perception_revision: 0,
            inventory_revision: 0,
            generated_at_ms: crate::runtime_clock::unix_time_millis(),
            self_state: SelfState::unknown(),
            combat: CombatSnapshot::empty(),
            census: VisibilityCensus {
                reported_total_players: None,
                listed_other_players: 0,
                reported_total_objects: None,
                listed_objects: 0,
                object_list_truncated: None,
            },
            nearby_entities: Vec::new(),
            nearby_drops: Vec::new(),
            map: LocalMap::empty(),
            exits: Vec::new(),
            local_waypoints: Vec::new(),
            recent_events: Vec::new(),
            recent_actions: Vec::new(),
            strategic_intent,
        }
    }
}

} // verus!
