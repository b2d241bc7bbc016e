//! The arena's tool names, and the character capability each one needs.

use vstd::prelude::*;

use crate::character::Capability;
use crate::text::text_equals;

verus! {

pub const OBSERVE: &'static str = "arena_observe";
pub const RENDER_MAP: &'static str = "arena_render_map";
pub const SURVEY: &'static str = "arena_survey";
pub const HISTORY: &'static str = "arena_history";
pub const PARTY_INVITE: &'static str = "arena_party_invite";
pub const PARTY_RESPOND: &'static str = "arena_party_respond";
pub const PARTY_LEAVE: &'static str = "arena_party_leave";
pub const SAY: &'static str = "arena_say";
pub const FEEL: &'static str = "arena_feel";
pub const PLAY_MELODY: &'static str = "arena_play_melody";
pub const TALK_TO: &'static str = "arena_talk_to";
pub const CHOOSE: &'static str = "arena_choose";
pub const END_TALK: &'static str = "arena_end_talk";
pub const THINK: &'static str = "arena_think";
pub const MOVE_TO: &'static str = "arena_move_to";
pub const MOVE: &'static str = "arena_move";
pub const CHECK_PATH: &'static str = "arena_check_path";
pub const STOP: &'static str = "arena_stop";
pub const UNSTICK: &'static str = "arena_unstick";
pub const ENTER_DOOR: &'static str = "arena_enter_door";
pub const BASIC_ATTACK: &'static str = "arena_basic_attack";
pub const USE_ACTION: &'static str = "arena_use_action";
pub const SET_TACTICS: &'static str = "arena_set_tactics";
pub const QUEUE_MATCH: &'static str = "arena_queue_match";
pub const MATCH_STATUS: &'static str = "arena_match_status";
pub const CREDIT_BALANCE: &'static str = "arena_credit_balance";
pub const CREDIT_HISTORY: &'static str = "arena_credit_history";
pub const INVENTORY: &'static str = "arena_inventory";
pub const USE_ITEM: &'static str = "arena_use_item";
pub const EQUIP: &'static str = "arena_equip";
pub const TRADE_WITH: &'static str = "arena_trade_with";
pub const BUY: &'static str = "arena_buy";
pub const SELL: &'static str = "arena_sell";
pub const PICK_UP: &'static str = "arena_pick_up";

/// The capability a character needs to call `tool`; tools that read the world
/// (and unknown tools) need none.
pub open spec fn capability_for_tool(tool: Seq<char>) -> Option<Capability> {
    if tool == "arena_say"@ || tool == "arena_feel"@ || tool == "arena_play_melody"@ {
        Some(Capability::Speak)
    } else if tool == "arena_think"@ {
        Some(Capability::Purpose)
    } else if tool == "arena_party_invite"@ || tool == "arena_party_respond"@ || tool == "arena_party_leave"@ || tool == "arena_talk_to"@ || tool == "arena_choose"@ || tool == "arena_end_talk"@ {
        Some(Capability::TalkToFolk)
    } else if tool == "arena_move_to"@ || tool == "arena_move"@ || tool == "arena_check_path"@ || tool == "arena_stop"@ || tool == "arena_unstick"@ {
        Some(Capability::Walk)
    } else if tool == "arena_enter_door"@ {
        Some(Capability::Doors)
    } else if tool == "arena_basic_attack"@ || tool == "arena_use_action"@ || tool == "arena_set_tactics"@ {
        Some(Capability::Fight)
    } else if tool == "arena_queue_match"@ || tool == "arena_match_status"@ {
        Some(Capability::Duel)
    } else if tool == "arena_credit_balance"@ || tool == "arena_credit_history"@ {
        Some(Capability::Money)
    } else if tool == "arena_inventory"@ || tool == "arena_use_item"@ || tool == "arena_equip"@ || tool == "arena_trade_with"@ || tool == "arena_buy"@ || tool == "arena_sell"@ || tool == "arena_pick_up"@ {
        Some(Capability::Trade)
    } else {
        None
    }
}

/// The capability a character needs to call `tool`, if any.
pub fn required_capability(tool: &str) -> (capability: Option<Capability>)
    ensures
        capability == capability_for_tool(tool@),
{
    if text_equals(tool, "arena_say") || text_equals(tool, "arena_feel") || text_equals(tool, "arena_play_melody") {
        Some(Capability::Speak)
    } else if text_equals(tool, "arena_think") {
        Some(Capability::Purpose)
    } else if text_equals(tool, "arena_party_invite") || text_equals(tool, "arena_party_respond") || text_equals(tool, "arena_party_leave") || text_equals(tool, "arena_talk_to") || text_equals(tool, "arena_choose") || text_equals(tool, "arena_end_talk") {
        Some(Capability::TalkToFolk)
    } else if text_equals(tool, "arena_move_to") || text_equals(tool, "arena_move") || text_equals(tool, "arena_check_path") || text_equals(tool, "arena_stop") || text_equals(tool, "arena_unstick") {
        Some(Capability::Walk)
    } else if text_equals(tool, "arena_enter_door") {
        Some(Capability::Doors)
    } else if text_equals(tool, "arena_basic_attack") || text_equals(tool, "arena_use_action") || text_equals(tool, "arena_set_tactics") {
        Some(Capability::Fight)
    } else if text_equals(tool, "arena_queue_match") || text_equals(tool, "arena_match_status") {
        Some(Capability::Duel)
    } else if text_equals(tool, "arena_credit_balance") || text_equals(tool, "arena_credit_history") {
        Some(Capability::Money)
    } else if text_equals(tool, "arena_inventory") || text_equals(tool, "arena_use_item") || text_equals(tool, "arena_equip") || text_equals(tool, "arena_trade_with") || text_equals(tool, "arena_buy") || text_equals(tool, "arena_sell") || text_equals(tool, "arena_pick_up") {
        Some(Capability::Trade)
    } else {
        None
    }
}

/// The complete production tool surface this harness expects, session
/// commands included; a live inventory diagnostic compares it with the
/// server's tool list.
pub fn expected_production_tools() -> (tools: Vec<&'static str>)
    ensures
        tools@.len() == 38,
{
    let mut tools: Vec<&'static str> = Vec::new();
    tools.push("arena_register_agent");
    tools.push("arena_list_agents");
    tools.push("arena_login");
    tools.push("arena_disconnect");
    tools.push("arena_observe");
    tools.push("arena_render_map");
    tools.push("arena_survey");
    tools.push("arena_history");
    tools.push("arena_party_invite");
    tools.push("arena_party_respond");
    tools.push("arena_party_leave");
    tools.push("arena_say");
    tools.push("arena_feel");
    tools.push("arena_play_melody");
    tools.push("arena_talk_to");
    tools.push("arena_choose");
    tools.push("arena_end_talk");
    tools.push("arena_think");
    tools.push("arena_move_to");
    tools.push("arena_move");
    tools.push("arena_check_path");
    tools.push("arena_stop");
    tools.push("arena_unstick");
    tools.push("arena_enter_door");
    tools.push("arena_basic_attack");
    tools.push("arena_use_action");
    tools.push("arena_set_tactics");
    tools.push("arena_queue_match");
    tools.push("arena_match_status");
    tools.push("arena_credit_balance");
    tools.push("arena_credit_history");
    tools.push("arena_inventory");
    tools.push("arena_use_item");
    tools.push("arena_equip");
    tools.push("arena_trade_with");
    tools.push("arena_buy");
    tools.push("arena_sell");
    tools.push("arena_pick_up");
    tools
}

} // verus!
