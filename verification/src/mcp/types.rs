//! Typed arguments and results of the arena's tools.
//!
//! Maps that the arena sends as JSON objects are held as lists of pairs in key
//! order.

use vstd::prelude::*;

use crate::mcp::observation::ObservedItem;

verus! {

#[derive(Debug, Clone, Copy, PartialEq, Eq, Structural)]
pub enum MoveDirection {
    Up,
    Down,
    Left,
    Right,
}

impl MoveDirection {
    pub fn as_str(self) -> (name: &'static str)
        ensures
            name@ == match self {
                MoveDirection::Up => "up"@,
                MoveDirection::Down => "down"@,
                MoveDirection::Left => "left"@,
                MoveDirection::Right => "right"@,
            },
    {
        match self {
            MoveDirection::Up => "up",
            MoveDirection::Down => "down",
            MoveDirection::Left => "left",
            MoveDirection::Right => "right",
        }
    }
}

/// Chat channels currently accepted by the arena's speech tool.
#[derive(Debug, Clone, Copy, PartialEq, Eq, Structural)]
pub enum ChatChannel {
    Scene,
    Global,
    Private,
}

impl ChatChannel {
    pub fn as_str(self) -> (name: &'static str)
        ensures
            name@ == match self {
                ChatChannel::Scene => "scene"@,
                ChatChannel::Global => "global"@,
                ChatChannel::Private => "private"@,
            },
    {
        match self {
            ChatChannel::Scene => "scene",
            ChatChannel::Global => "global",
            ChatChannel::Private => "private",
        }
    }
}

#[derive(Debug, Clone, Copy, PartialEq, Eq, Structural)]
pub enum MelodyInstrument {
    Lute,
    Flute,
    Horn,
    Bell,
}

impl MelodyInstrument {
    pub fn as_str(self) -> (name: &'static str)
        ensures
            name@ == match self {
                MelodyInstrument::Lute => "lute"@,
                MelodyInstrument::Flute => "flute"@,
                MelodyInstrument::Horn => "horn"@,
                MelodyInstrument::Bell => "bell"@,
            },
    {
        match self {
            MelodyInstrument::Lute => "lute",
            MelodyInstrument::Flute => "flute",
            MelodyInstrument::Horn => "horn",
            MelodyInstrument::Bell => "bell",
        }
    }
}

#[derive(Debug, Clone, Copy, PartialEq, Eq, Structural)]
pub enum TradeSide {
    Buy,
    Sell,
}

impl TradeSide {
    pub fn as_str(self) -> (name: &'static str)
        ensures
            name@ == match self {
                TradeSide::Buy => "buy"@,
                TradeSide::Sell => "sell"@,
            },
    {
        match self {
            TradeSide::Buy => "buy",
            TradeSide::Sell => "sell",
        }
    }
}

#[derive(Debug, Clone, Copy, PartialEq, Eq, Structural)]
pub enum TacticsStyle {
    CloseUp,
    LongRange,
    DuckAndWeave,
    Flee,
}

impl TacticsStyle {
    pub fn as_str(self) -> (name: &'static str)
        ensures
            name@ == match self {
                TacticsStyle::CloseUp => "close_up"@,
                TacticsStyle::LongRange => "long_range"@,
                TacticsStyle::DuckAndWeave => "duck_and_weave"@,
                TacticsStyle::Flee => "flee"@,
            },
    {
        match self {
            TacticsStyle::CloseUp => "close_up",
            TacticsStyle::LongRange => "long_range",
            TacticsStyle::DuckAndWeave => "duck_and_weave",
            TacticsStyle::Flee => "flee",
        }
    }
}

#[derive(Debug, Clone, Copy, PartialEq, Eq, Structural)]
pub enum TacticsMode {
    SemiAuto,
    Manual,
}

impl TacticsMode {
    pub fn as_str(self) -> (name: &'static str)
        ensures
            name@ == match self {
                TacticsMode::SemiAuto => "semi_auto"@,
                TacticsMode::Manual => "manual"@,
            },
    {
        match self {
            TacticsMode::SemiAuto => "semi_auto",
            TacticsMode::Manual => "manual",
        }
    }
}

/// Whom a combat action is aimed at.
#[derive(Debug, Clone, PartialEq, Eq)]
pub enum CombatTarget {
    Object { object_index: String },
    Player { session_id: String, player_id: i64 },
}

#[derive(Debug, Clone, Copy, Default, PartialEq, Eq, Structural)]
pub struct SceneSize {
    pub width_tiles: Option<u32>,
    pub height_tiles: Option<u32>,
}

#[derive(Debug, Clone, Copy, Default, PartialEq, Eq, Structural)]
pub struct SurveyCounts {
    pub enemies: Option<u32>,
    pub people: Option<u32>,
    pub readables: Option<u32>,
    pub drops: Option<u32>,
    pub other_players: Option<u32>,
    pub ways_out: Option<u32>,
    pub beyond_range: Option<u32>,
}

#[derive(Debug, Clone, Copy, Default, PartialEq, Eq, Structural)]
pub struct SurveyTile {
    pub row: i32,
    pub column: i32,
}

#[derive(Debug, Clone, Default, PartialEq, Eq)]
pub struct SurveyWayOut {
    pub leads_to: Option<String>,
    pub locked: Option<bool>,
    pub lock_known: Option<bool>,
    pub required_key: Option<String>,
    pub enter_at: Option<SurveyTile>,
    pub tiles: Vec<SurveyTile>,
}

#[derive(Debug, Clone, Default, PartialEq, Eq)]
pub struct SurveyResult {
    pub scene_name: Option<String>,
    pub within: Option<u32>,
    pub scene_size: Option<SceneSize>,
    pub grid_available: Option<bool>,
    pub counts: Option<SurveyCounts>,
    pub ways_out: Vec<SurveyWayOut>,
    pub survey: String,
}

#[derive(Debug, Clone, Default, PartialEq, Eq)]
pub struct SayResult {
    pub accepted: Option<bool>,
    pub said: Option<bool>,
    pub channel: Option<String>,
    pub to_player: Option<String>,
    pub reason: Option<String>,
    pub message: Option<String>,
}

/// A dialogue opened with a world object; `options` are its choices by key.
#[derive(Debug, Clone, Default, PartialEq, Eq)]
pub struct DialogueResult {
    pub opened: bool,
    pub object_id: Option<i64>,
    pub title: Option<String>,
    pub content: Option<String>,
    pub options: Option<Vec<(String, String)>>,
    pub reason: Option<String>,
    pub message: Option<String>,
}

#[derive(Debug, Clone, Default, PartialEq, Eq)]
pub struct EndDialogueResult {
    pub ended: Option<bool>,
    pub closed: Option<bool>,
    pub object_id: Option<i64>,
    pub message: Option<String>,
}

#[derive(Debug, Clone, Default, PartialEq, Eq)]
pub struct MatchParticipant {
    pub agent_id: Option<String>,
    pub player_name: Option<String>,
}

#[derive(Debug, Clone, Default, PartialEq, Eq)]
pub struct MatchResult {
    pub id: Option<String>,
    pub status: String,
    pub participants: Vec<MatchParticipant>,
    pub winner_agent_id: Option<String>,
    pub message: Option<String>,
}

#[derive(Debug, Clone, Default, PartialEq, Eq)]
pub struct CreditBalance {
    pub balance: i64,
    pub currency: Option<String>,
}

#[derive(Debug, Clone, Default, PartialEq, Eq)]
pub struct CreditEntry {
    pub amount: Option<i64>,
    pub balance: Option<i64>,
    pub reason: Option<String>,
    pub created_at: Option<String>,
}

#[derive(Debug, Clone, Default, PartialEq, Eq)]
pub struct CreditHistory {
    pub entries: Vec<CreditEntry>,
}

/// Bounds of one history request.
#[derive(Debug, Clone, Default, PartialEq, Eq)]
pub struct HistoryQuery {
    pub after: Option<u64>,
    pub before: Option<u64>,
    pub since: Option<String>,
    pub until: Option<String>,
    pub limit: Option<u16>,
}

#[derive(Debug, Clone, Copy, Default, PartialEq, Eq, Structural)]
pub struct HistoryCombatSummary {
    pub damage_dealt: i64,
    pub damage_taken: i64,
    pub deaths: u64,
}

#[derive(Debug, Clone, Copy, Default, PartialEq, Eq, Structural)]
pub struct HistoryMovementSummary {
    pub commands: u64,
    pub failed: u64,
}

#[derive(Debug, Clone, Copy, Default, PartialEq, Eq, Structural)]
pub struct HistoryItemSummary {
    pub bought: u64,
    pub sold: u64,
    pub used: u64,
    pub picked_up: u64,
}

#[derive(Debug, Clone, Copy, Default, PartialEq, Eq, Structural)]
pub struct HistoryProgressionSummary {
    pub experience_gained: i64,
    pub levels_gained: u64,
    pub skills_learned: u64,
}

/// Totals over a span of the body's history; `counts` holds the event count
/// of each event type, by type name.
#[derive(Debug, Clone, Default, PartialEq, Eq)]
pub struct HistorySummary {
    pub event_count: u64,
    pub first_at: Option<String>,
    pub last_at: Option<String>,
    pub scenes: Vec<String>,
    pub counts: Vec<(String, u64)>,
    pub combat: HistoryCombatSummary,
    pub movement: HistoryMovementSummary,
    pub items: HistoryItemSummary,
    pub progression: HistoryProgressionSummary,
}

#[derive(Debug, Clone, Default, PartialEq, Eq)]
pub struct InventoryResult {
    pub carrying: Vec<ObservedItem>,
}

#[derive(Debug, Clone, Default, PartialEq, Eq)]
pub struct ItemAmount {
    pub item_key: String,
    pub quantity: u32,
}

#[derive(Debug, Clone, Default, PartialEq, Eq)]
pub struct TradeOffer {
    pub key: Option<String>,
    pub label: String,
    pub price: Option<ItemAmount>,
    pub payout: Option<ItemAmount>,
}

#[derive(Debug, Clone, Default, PartialEq, Eq)]
pub struct TradeListing {
    pub opened: bool,
    pub merchant: Option<String>,
    pub side: Option<String>,
    pub offers: Vec<TradeOffer>,
    pub reason: Option<String>,
    pub message: Option<String>,
}

#[derive(Debug, Clone, Default, PartialEq, Eq)]
pub struct TradeItem {
    pub key: Option<String>,
    pub label: Option<String>,
}

#[derive(Debug, Clone, Default, PartialEq, Eq)]
pub struct TradeResult {
    pub traded: bool,
    pub merchant: Option<String>,
    pub item: Option<TradeItem>,
    pub quantity: Option<u32>,
    pub price: Option<ItemAmount>,
    pub payout: Option<ItemAmount>,
    pub reason: Option<String>,
    pub message: Option<String>,
}

#[derive(Debug, Clone, Default, PartialEq, Eq)]
pub struct RegisteredAgent {
    pub id: String,
    pub agent_name: Option<String>,
    pub player_name: String,
    pub class_path: Option<String>,
    pub selected_scene: Option<String>,
}

#[derive(Debug, Clone, Default, PartialEq, Eq)]
pub struct AgentList {
    pub agents: Vec<RegisteredAgent>,
}

#[derive(Debug, Clone, Default, PartialEq, Eq)]
pub struct RegistrationResult {
    pub agent: RegisteredAgent,
}

#[derive(Debug, Clone, Default, PartialEq, Eq)]
pub struct LoginResult {
    pub logged_in: Option<bool>,
    pub agent: Option<RegisteredAgent>,
    pub session_id: Option<String>,
    pub message: Option<String>,
}

#[derive(Debug, Clone, Default, PartialEq, Eq)]
pub struct WatchCodeResult {
    pub code: Option<String>,
    pub watch_code: Option<String>,
    pub expires_at: Option<String>,
}

/// The body's move, as the movement tools report it. The reported pixel
/// position is in thousandths of a pixel.
#[derive(Debug, Clone, Default, PartialEq, Eq)]
pub struct MoveResult {
    pub accepted: Option<bool>,
    pub moved: Option<bool>,
    pub moving: Option<bool>,
    pub arrived: Option<bool>,
    pub came_to_rest: Option<bool>,
    pub x_millipixels: Option<i64>,
    pub y_millipixels: Option<i64>,
    pub tile_x: Option<i32>,
    pub tile_y: Option<i32>,
    pub reason: Option<String>,
    pub message: Option<String>,
}

#[derive(Debug, Clone, Default, PartialEq, Eq)]
pub struct PathResult {
    pub reachable: Option<bool>,
    pub path_length_tiles: Option<u32>,
    pub reason: Option<String>,
    pub message: Option<String>,
}

#[derive(Debug, Clone, Default, PartialEq, Eq)]
pub struct StopResult {
    pub stopped: Option<bool>,
    pub reason: Option<String>,
    pub message: Option<String>,
}

#[derive(Debug, Clone, Default, PartialEq, Eq)]
pub struct DoorResult {
    pub entered: Option<bool>,
    pub scene: Option<String>,
    pub reason: Option<String>,
    pub message: Option<String>,
}

#[derive(Debug, Clone, Default, PartialEq, Eq)]
pub struct CombatResult {
    pub accepted: Option<bool>,
    pub action_type: Option<String>,
    pub target_kind: Option<String>,
    pub target_object_index: Option<String>,
    pub target_session_id: Option<String>,
    pub target_player_id: Option<i64>,
    pub attacked: Option<bool>,
    pub damage: Option<i64>,
    pub target_killed: Option<bool>,
    pub reason: Option<String>,
    pub message: Option<String>,
}

#[derive(Debug, Clone, Default, PartialEq, Eq)]
pub struct UseItemResult {
    pub used: Option<bool>,
    pub remaining: Option<u32>,
    pub reason: Option<String>,
    pub message: Option<String>,
}

#[derive(Debug, Clone, Default, PartialEq, Eq)]
pub struct TacticsResult {
    pub style: Option<String>,
    pub style_is_own_choice: Option<bool>,
    pub mode: Option<String>,
    pub reason: Option<String>,
    pub message: Option<String>,
}

#[derive(Debug, Clone, Default, PartialEq, Eq)]
pub struct ThinkResult {
    pub recorded: Option<bool>,
    pub note: Option<String>,
    pub reason: Option<String>,
    pub message: Option<String>,
}

#[derive(Debug, Clone, Default, PartialEq, Eq)]
pub struct PickupResult {
    pub picked_up: Option<bool>,
    pub item: Option<String>,
    pub reason: Option<String>,
    pub message: Option<String>,
}

/// Whether the body was disconnected.
#[derive(Debug, Clone, Default, PartialEq, Eq)]
pub struct DisconnectResult {
    pub disconnected: Option<bool>,
    pub reason: Option<String>,
    pub message: Option<String>,
}

/// What a melody performance reports.
#[derive(Debug, Clone, Default, PartialEq, Eq)]
pub struct PlayMelodyResult {
    pub accepted: Option<bool>,
    pub played: Option<bool>,
    pub instrument: Option<String>,
    pub times: Option<u8>,
    pub note_count: Option<u8>,
    pub notes: Option<String>,
    pub note: Option<String>,
    pub reason: Option<String>,
    pub message: Option<String>,
}

} // verus!
