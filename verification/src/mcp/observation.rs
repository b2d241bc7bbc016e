//! Observed world facts as the arena reports them.

use vstd::prelude::*;

use crate::json::{json_view, JsonValue, JsonView};
use crate::text::{parse_i64, parsed_i64, IntParseError};

verus! {

#[derive(Debug, Clone, Default, PartialEq, Eq)]
pub struct ObservedPartyInvite {
    pub from_player_id: Option<i64>,
    pub from_player_name: Option<String>,
}

#[derive(Debug, Clone, Default, PartialEq, Eq)]
pub struct ObservedClassPath {
    pub key: Option<String>,
    pub label: Option<String>,
    pub level: Option<i32>,
}

#[derive(Debug, Clone, Default, PartialEq, Eq)]
pub struct ObservedAggressor {
    pub label: Option<String>,
    pub object_index: String,
    pub damage_dealt_to_you: Option<i64>,
}

#[derive(Debug, Clone, Default, PartialEq, Eq)]
pub struct ObservedEnemyHealth {
    pub object_index: String,
    pub label: Option<String>,
    pub hp: Option<i64>,
    pub max: Option<i64>,
}

#[derive(Debug, Clone, Default, PartialEq, Eq)]
pub struct ObservedDamageDealt {
    pub object_index: String,
    pub label: Option<String>,
    pub amount: Option<i64>,
}

#[derive(Debug, Clone, Default, PartialEq, Eq)]
pub struct ObservedBattleEvent {
    pub seq: Option<u64>,
    pub at: Option<String>,
    pub event_type: Option<String>,
    pub actor_id: Option<String>,
    pub target_id: Option<String>,
    pub amount: Option<i64>,
    pub label: Option<String>,
    pub damage_you_dealt: Option<i64>,
}

#[derive(Debug, Clone, Default, PartialEq, Eq)]
pub struct ObservedRecentHit {
    pub at: Option<String>,
    pub from: Option<String>,
    pub amount: Option<i64>,
}

/// The body's battle as the arena reports it.
#[derive(Debug, Clone, Default, PartialEq, Eq)]
pub struct ObservedBattle {
    pub in_battle: Option<bool>,
    pub style: Option<String>,
    pub style_is_own_choice: Option<bool>,
    pub mode: Option<String>,
    pub hp: Option<String>,
    pub aggressors: Vec<ObservedAggressor>,
    pub enemy_health: Vec<ObservedEnemyHealth>,
    pub damage_dealt: Vec<ObservedDamageDealt>,
    pub events: Vec<ObservedBattleEvent>,
    pub recent_hits: Vec<ObservedRecentHit>,
}

#[derive(Debug, Clone, PartialEq, Eq)]
pub struct ObservedCombatAction {
    pub id: String,
    pub available: Option<bool>,
    pub cooldown_remaining_ms: Option<u64>,
    pub target_kind: Option<String>,
}

#[derive(Debug, Clone, PartialEq, Eq)]
pub struct ChatLine {
    pub channel: Option<String>,
    pub message_type: Option<u8>,
    pub from: Option<String>,
    pub message: Option<String>,
    pub received_at: Option<String>,
}

#[derive(Debug, Clone, PartialEq, Eq)]
pub struct ObservedItem {
    pub key: String,
    pub label: String,
    pub description: Option<String>,
    pub quantity: u32,
    pub usable: Option<bool>,
    pub equipment: Option<bool>,
    pub equipped: Option<bool>,
}

/// What a reported player id reads as: nothing when absent or null; an
/// integer, given as a number or as a string of digits; anything else is refused
/// with the reason.
pub open spec fn player_id_reading(value: Option<JsonView>) -> Result<Option<int>, Seq<char>> {
    match value {
        None => Ok(None),
        Some(JsonView::Null) => Ok(None),
        Some(JsonView::Number(text)) => match parsed_i64(text) {
            Ok(v) => Ok(Some(v)),
            Err(_) => Err("player id is outside the signed integer range"@),
        },
        Some(JsonView::Text(text)) => match parsed_i64(text) {
            Ok(v) => Ok(Some(v)),
            Err(e) => Err(match e {
                IntParseError::Empty => "cannot parse integer from empty string"@,
                IntParseError::InvalidDigit => "invalid digit found in string"@,
                IntParseError::PosOverflow => "number too large to fit in target type"@,
                IntParseError::NegOverflow => "number too small to fit in target type"@,
            }),
        },
        Some(_) => Err("player id must be an integer or integer string"@),
    }
}

/// Read a reported player id; the backend sends it as a number or as a string.
pub fn player_id_from_json(value: &Option<JsonValue>) -> (id: Result<Option<i64>, String>)
    ensures
        match id {
            Ok(Some(v)) => player_id_reading(
                match value {
                    Some(v) => Some(json_view(*v)),
                    None => None,
                },
            ) == Ok::<Option<int>, Seq<char>>(Some(v as int)),
            Ok(None) => player_id_reading(
                match value {
                    Some(v) => Some(json_view(*v)),
                    None => None,
                },
            ) == Ok::<Option<int>, Seq<char>>(None),
            Err(reason) => player_id_reading(
                match value {
                    Some(v) => Some(json_view(*v)),
                    None => None,
                },
            ) == Err::<Option<int>, Seq<char>>(reason@),
        },
{
    match value {
        None => Ok(None),
        Some(JsonValue::Null) => Ok(None),
        Some(JsonValue::Number(text)) => match parse_i64(text.as_str()) {
            Ok(v) => Ok(Some(v)),
            Err(_) => Err(String::from_str("player id is outside the signed integer range")),
        },
        Some(JsonValue::Text(text)) => match parse_i64(text.as_str()) {
            Ok(v) => Ok(Some(v)),
            Err(e) => Err(String::from_str(e.message())),
        },
        Some(_) => Err(String::from_str("player id must be an integer or integer string")),
    }
}

} // verus!
