//! The body's one mutation seam: the commands it accepts, the MCP tool calls
//! that carry each out, and how the tools' replies become a command result.
//!
//! Carrying out a command alternates tool calls and decisions. The decisions
//! live here as a step function: [`begin_command`] names the first call, and
//! [`continue_command`] takes a tool's reply and names the next call or the
//! finished result. The caller performs the calls.

use vstd::prelude::*;

use crate::character::{Capability, CapabilitySet};
use crate::execution::packet::{TacticalMode, TacticalStyle};
use crate::mcp::tools::capability_for_tool;
use crate::mcp::transport::{mcp_error_class, McpError};
use crate::mcp::types::{
    ChatChannel, CombatResult, CombatTarget, DialogueResult, DoorResult, MatchResult, MoveDirection, MoveResult,
    PathResult, PickupResult, SayResult, StopResult, TacticsMode, TacticsResult, TacticsStyle, ThinkResult,
    UseItemResult,
};
use crate::text::{optional_text, optional_text_is};
use crate::world::{PixelPosition, TilePosition};

verus! {

/// Runtime-owned causal identity for one physical action attempt. The action
/// identifier is also the MCP correlation identifier.
#[derive(Debug, Clone, Copy, PartialEq, Eq, Structural)]
pub struct ExecutionContext {
    pub session_generation: u64,
    pub decision_id: u128,
    pub packet_id: u128,
    pub action_id: u128,
    pub action_index: usize,
    pub frame_revision: u64,
    pub strategic_revision: u64,
}

/// The channel the body speaks on.
#[derive(Debug, Clone, Copy, PartialEq, Eq, Structural)]
pub enum BodySpeechChannel {
    Scene,
    Global,
    Private,
}

/// One command for the body.
#[derive(Debug, Clone, PartialEq, Eq)]
pub enum BodyCommand {
    MoveDirection { direction: MoveDirection },
    Think { thought: String },
    Say { message: String, channel: BodySpeechChannel, to_player: Option<String> },
    TalkTo { object_id: i64 },
    CheckPath { destination: TilePosition },
    MoveTo { destination: TilePosition },
    EnterDoor { destination: TilePosition },
    QueueDuel { scene_name: String },
    Stop,
    Attack { target_object_index: String },
    UseSkill { skill_id: String, target_object_index: Option<String> },
    UseItem { item_id: String },
    PickUp { drop_id: String },
    SetTactics { style: TacticalStyle, mode: TacticalMode },
}

pub open spec fn command_kind(command: BodyCommand) -> Seq<char> {
    match command {
        BodyCommand::MoveDirection { .. } => "move"@,
        BodyCommand::Think { .. } => "think"@,
        BodyCommand::Say { .. } => "say"@,
        BodyCommand::TalkTo { .. } => "talk_to"@,
        BodyCommand::CheckPath { .. } => "check_path"@,
        BodyCommand::MoveTo { .. } => "move_to"@,
        BodyCommand::EnterDoor { .. } => "enter_door"@,
        BodyCommand::QueueDuel { .. } => "queue_duel"@,
        BodyCommand::Stop => "stop"@,
        BodyCommand::Attack { .. } => "attack"@,
        BodyCommand::UseSkill { .. } => "use_skill"@,
        BodyCommand::UseItem { .. } => "use_item"@,
        BodyCommand::PickUp { .. } => "pick_up"@,
        BodyCommand::SetTactics { .. } => "set_tactics"@,
    }
}

impl BodyCommand {
    /// The stable name of the command's kind.
    pub fn kind(&self) -> (kind: &'static str)
        ensures
            kind@ == command_kind(*self),
    {
        match self {
            BodyCommand::MoveDirection { .. } => "move",
            BodyCommand::Think { .. } => "think",
            BodyCommand::Say { .. } => "say",
            BodyCommand::TalkTo { .. } => "talk_to",
            BodyCommand::CheckPath { .. } => "check_path",
            BodyCommand::MoveTo { .. } => "move_to",
            BodyCommand::EnterDoor { .. } => "enter_door",
            BodyCommand::QueueDuel { .. } => "queue_duel",
            BodyCommand::Stop => "stop",
            BodyCommand::Attack { .. } => "attack",
            BodyCommand::UseSkill { .. } => "use_skill",
            BodyCommand::UseItem { .. } => "use_item",
            BodyCommand::PickUp { .. } => "pick_up",
            BodyCommand::SetTactics { .. } => "set_tactics",
        }
    }
}

/// What the body reports of a command. Pixel positions are in thousandths of a pixel.
#[derive(Debug, Clone, Copy, Default, PartialEq, Eq, Structural)]
pub struct BodyCommandResult {
    pub accepted: Option<bool>,
    pub reachable: Option<bool>,
    pub path_length_tiles: Option<u32>,
    pub moved: Option<bool>,
    pub moving: Option<bool>,
    pub arrived: Option<bool>,
    pub tile_x: Option<i32>,
    pub tile_y: Option<i32>,
    pub came_to_rest: Option<bool>,
    pub stopped: Option<bool>,
    pub position: Option<PixelPosition>,
}

/// A failed body operation, by its stable class.
#[derive(Debug, Clone, PartialEq, Eq)]
pub struct BodyGatewayError {
    pub class: String,
}

/// A body that refuses every command.
#[derive(Debug, Clone, Copy, Default, PartialEq, Eq, Structural)]
pub struct DisabledBodyGateway;

impl DisabledBodyGateway {
    pub fn execute(&self, command: &BodyCommand, context: ExecutionContext) -> (result: Result<
        BodyCommandResult,
        BodyGatewayError,
    >)
        ensures
            result matches Err(e) && e.class@ == "body_gateway_disabled"@,
    {
        Err(BodyGatewayError { class: String::from_str("body_gateway_disabled") })
    }
}

/// Why a gateway call failed.
#[derive(Debug, Clone, PartialEq, Eq)]
pub enum GatewayError {
    /// The character lacks the capability the tool needs.
    MissingCapability { tool: &'static str, capability: Capability },
    /// The MCP exchange failed.
    Mcp(McpError),
    /// The tool's reply did not have the expected shape.
    Decode { tool: String },
    /// The typed arguments did not form an object.
    InvalidArguments { tool: &'static str },
}

pub open spec fn gateway_error_class(error: GatewayError) -> Seq<char> {
    match error {
        GatewayError::MissingCapability { .. } => "missing_capability"@,
        GatewayError::Mcp(e) => mcp_error_class(e),
        GatewayError::Decode { .. } => "decode"@,
        GatewayError::InvalidArguments { .. } => "invalid_arguments"@,
    }
}

/// The body error that reports a failed gateway call by its class.
pub fn body_gateway_error(error: &GatewayError) -> (body_error: BodyGatewayError)
    ensures
        body_error.class@ == gateway_error_class(*error),
{
    let class: &'static str = match error {
        GatewayError::MissingCapability { .. } => "missing_capability",
        GatewayError::Mcp(e) => e.class(),
        GatewayError::Decode { .. } => "decode",
        GatewayError::InvalidArguments { .. } => "invalid_arguments",
    };
    BodyGatewayError { class: String::from_str(class) }
}

/// A character may call `tool` unless the tool needs a capability it lacks.
pub fn capability_gate(tool: &'static str, capabilities: &CapabilitySet) -> (result: Result<(), GatewayError>)
    ensures
        match capability_for_tool(tool@) {
            Some(needed) => if capabilities@.contains(needed) {
                result is Ok
            } else {
                result == Err::<(), GatewayError>(GatewayError::MissingCapability { tool, capability: needed })
            },
            None => result is Ok,
        },
{
    match crate::mcp::tools::required_capability(tool) {
        Some(needed) => if capabilities.contains(needed) {
            Ok(())
        } else {
            Err(GatewayError::MissingCapability { tool, capability: needed })
        },
        None => Ok(()),
    }
}

// ---------------------------------------------------------------------------
// Tool calls
// ---------------------------------------------------------------------------

/// Width of one tile, in pixels.
pub open spec fn tile_size_pixels() -> int {
    32
}

/// The centre of a tile, in thousandths of a pixel.
pub open spec fn tile_center_of(tile: TilePosition) -> PixelPosition {
    PixelPosition {
        x: ((tile.x * tile_size_pixels() + tile_size_pixels() / 2) * 1000) as i64,
        y: ((tile.y * tile_size_pixels() + tile_size_pixels() / 2) * 1000) as i64,
    }
}

pub fn tile_center(tile: TilePosition) -> (center: PixelPosition)
    ensures
        center == tile_center_of(tile),
{
    PixelPosition { x: (tile.x as i64 * 32 + 16) * 1000, y: (tile.y as i64 * 32 + 16) * 1000 }
}

/// The arguments of one tool call; the caller adds the agent identity.
#[derive(Debug, Clone, PartialEq, Eq)]
pub enum ToolArguments {
    Direction { direction: MoveDirection },
    Thought { thought: String },
    Speech { message: String, channel: ChatChannel, to_player: Option<String> },
    Dialogue { object_id: i64 },
    Pixel { target: PixelPosition },
    DoorTile { row: i32, column: i32 },
    Duel { scene_name: String },
    NoArguments,
    Target { target: CombatTarget },
    SkillUse { action_type: String, target: Option<CombatTarget> },
    Item { item: String },
    Drop { drop_id: String },
    Tactics { style: TacticsStyle, mode: TacticsMode },
}

/// One tool call to make.
#[derive(Debug, Clone, PartialEq, Eq)]
pub struct ToolCall {
    pub tool: &'static str,
    pub arguments: ToolArguments,
}

/// A tool's typed reply.
#[derive(Debug, Clone, PartialEq, Eq)]
pub enum ToolReply {
    Move(MoveResult),
    Think(ThinkResult),
    Say(SayResult),
    Dialogue(DialogueResult),
    Path(PathResult),
    Door(DoorResult),
    Match(MatchResult),
    Stop(StopResult),
    Combat(CombatResult),
    UseItem(UseItemResult),
    Pickup(PickupResult),
    Tactics(TacticsResult),
}

/// What to do next while carrying out a command.
#[derive(Debug, Clone, PartialEq, Eq)]
pub enum GatewayStep {
    Call(ToolCall),
    Finished(BodyCommandResult),
}

pub open spec fn chat_channel_of(channel: BodySpeechChannel) -> ChatChannel {
    match channel {
        BodySpeechChannel::Scene => ChatChannel::Scene,
        BodySpeechChannel::Global => ChatChannel::Global,
        BodySpeechChannel::Private => ChatChannel::Private,
    }
}

pub open spec fn tactics_style_of(style: TacticalStyle) -> TacticsStyle {
    match style {
        TacticalStyle::CloseUp => TacticsStyle::CloseUp,
        TacticalStyle::LongRange => TacticsStyle::LongRange,
        TacticalStyle::DuckAndWeave => TacticsStyle::DuckAndWeave,
        TacticalStyle::Flee => TacticsStyle::Flee,
    }
}

pub open spec fn tactics_mode_of(mode: TacticalMode) -> TacticsMode {
    match mode {
        TacticalMode::SemiAuto => TacticsMode::SemiAuto,
        TacticalMode::Manual => TacticsMode::Manual,
    }
}

/// The first tool a command calls.
pub open spec fn first_tool(command: BodyCommand) -> Seq<char> {
    match command {
        BodyCommand::MoveDirection { .. } => "arena_move"@,
        BodyCommand::Think { .. } => "arena_think"@,
        BodyCommand::Say { .. } => "arena_say"@,
        BodyCommand::TalkTo { .. } => "arena_talk_to"@,
        BodyCommand::CheckPath { .. } => "arena_check_path"@,
        BodyCommand::MoveTo { .. } => "arena_check_path"@,
        BodyCommand::EnterDoor { .. } => "arena_enter_door"@,
        BodyCommand::QueueDuel { .. } => "arena_queue_match"@,
        BodyCommand::Stop => "arena_stop"@,
        BodyCommand::Attack { .. } => "arena_basic_attack"@,
        BodyCommand::UseSkill { .. } => "arena_use_action"@,
        BodyCommand::UseItem { .. } => "arena_use_item"@,
        BodyCommand::PickUp { .. } => "arena_pick_up"@,
        BodyCommand::SetTactics { .. } => "arena_set_tactics"@,
    }
}

/// The arguments of a command's first call carry exactly what the command says.
pub open spec fn first_arguments(command: BodyCommand, arguments: ToolArguments) -> bool {
    match command {
        BodyCommand::MoveDirection { direction } => arguments == ToolArguments::Direction { direction },
        BodyCommand::Think { thought } => arguments matches ToolArguments::Thought { thought: t } && t@
            == thought@,
        BodyCommand::Say { message, channel, to_player } => arguments matches ToolArguments::Speech {
            message: m,
            channel: c,
            to_player: p,
        } && m@ == message@ && c == chat_channel_of(channel) && optional_text(p) == optional_text(
            to_player,
        ),
        BodyCommand::TalkTo { object_id } => arguments == ToolArguments::Dialogue { object_id },
        BodyCommand::CheckPath { destination } => arguments == ToolArguments::Pixel {
            target: tile_center_of(destination),
        },
        BodyCommand::MoveTo { destination } => arguments == ToolArguments::Pixel {
            target: tile_center_of(destination),
        },
        BodyCommand::EnterDoor { destination } => arguments == ToolArguments::DoorTile {
            row: destination.y,
            column: destination.x,
        },
        BodyCommand::QueueDuel { scene_name } => arguments matches ToolArguments::Duel { scene_name: s }
            && s@ == scene_name@,
        BodyCommand::Stop => arguments == ToolArguments::NoArguments,
        BodyCommand::Attack { target_object_index } => arguments matches ToolArguments::Target {
            target: CombatTarget::Object { object_index },
        } && object_index@ == target_object_index@,
        BodyCommand::UseSkill { skill_id, target_object_index } => arguments matches ToolArguments::SkillUse {
            action_type,
            target,
        } && action_type@ == skill_id@ && match (target, target_object_index) {
            (Some(CombatTarget::Object { object_index }), Some(index)) => object_index@ == index@,
            (None, None) => true,
            _ => false,
        },
        BodyCommand::UseItem { item_id } => arguments matches ToolArguments::Item { item } && item@
            == item_id@,
        BodyCommand::PickUp { drop_id } => arguments matches ToolArguments::Drop { drop_id: d } && d@
            == drop_id@,
        BodyCommand::SetTactics { style, mode } => arguments == ToolArguments::Tactics {
            style: tactics_style_of(style),
            mode: tactics_mode_of(mode),
        },
    }
}

/// The first call that carries out `command`.
pub fn begin_command(command: &BodyCommand) -> (call: ToolCall)
    ensures
        call.tool@ == first_tool(*command),
        first_arguments(*command, call.arguments),
{
    match command {
        BodyCommand::MoveDirection { direction } => ToolCall {
            tool: crate::mcp::tools::MOVE,
            arguments: ToolArguments::Direction { direction: *direction },
        },
        BodyCommand::Think { thought } => ToolCall {
            tool: crate::mcp::tools::THINK,
            arguments: ToolArguments::Thought { thought: thought.clone() },
        },
        BodyCommand::Say { message, channel, to_player } => {
            let chat = match channel {
                BodySpeechChannel::Scene => ChatChannel::Scene,
                BodySpeechChannel::Global => ChatChannel::Global,
                BodySpeechChannel::Private => ChatChannel::Private,
            };
            ToolCall {
                tool: crate::mcp::tools::SAY,
                arguments: ToolArguments::Speech {
                    message: message.clone(),
                    channel: chat,
                    to_player: crate::text::copy_optional_text(to_player),
                },
            }
        },
        BodyCommand::TalkTo { object_id } => ToolCall {
            tool: crate::mcp::tools::TALK_TO,
            arguments: ToolArguments::Dialogue { object_id: *object_id },
        },
        BodyCommand::CheckPath { destination } => ToolCall {
            tool: crate::mcp::tools::CHECK_PATH,
            arguments: ToolArguments::Pixel { target: tile_center(*destination) },
        },
        BodyCommand::MoveTo { destination } => ToolCall {
            tool: crate::mcp::tools::CHECK_PATH,
            arguments: ToolArguments::Pixel { target: tile_center(*destination) },
        },
        BodyCommand::EnterDoor { destination } => ToolCall {
            tool: crate::mcp::tools::ENTER_DOOR,
            arguments: ToolArguments::DoorTile { row: destination.y, column: destination.x },
        },
        BodyCommand::QueueDuel { scene_name } => ToolCall {
            tool: crate::mcp::tools::QUEUE_MATCH,
            arguments: ToolArguments::Duel { scene_name: scene_name.clone() },
        },
        BodyCommand::Stop => ToolCall { tool: crate::mcp::tools::STOP, arguments: ToolArguments::NoArguments },
        BodyCommand::Attack { target_object_index } => ToolCall {
            tool: crate::mcp::tools::BASIC_ATTACK,
            arguments: ToolArguments::Target {
                target: CombatTarget::Object { object_index: target_object_index.clone() },
            },
        },
        BodyCommand::UseSkill { skill_id, target_object_index } => ToolCall {
            tool: crate::mcp::tools::USE_ACTION,
            arguments: ToolArguments::SkillUse {
                action_type: skill_id.clone(),
                target: match target_object_index {
                    Some(index) => Some(CombatTarget::Object { object_index: index.clone() }),
                    None => None,
                },
            },
        },
        BodyCommand::UseItem { item_id } => ToolCall {
            tool: crate::mcp::tools::USE_ITEM,
            arguments: ToolArguments::Item { item: item_id.clone() },
        },
        BodyCommand::PickUp { drop_id } => ToolCall {
            tool: crate::mcp::tools::PICK_UP,
            arguments: ToolArguments::Drop { drop_id: drop_id.clone() },
        },
        BodyCommand::SetTactics { style, mode } => ToolCall {
            tool: crate::mcp::tools::SET_TACTICS,
            arguments: ToolArguments::Tactics {
                style: match style {
                    TacticalStyle::CloseUp => TacticsStyle::CloseUp,
                    TacticalStyle::LongRange => TacticsStyle::LongRange,
                    TacticalStyle::DuckAndWeave => TacticsStyle::DuckAndWeave,
                    TacticalStyle::Flee => TacticsStyle::Flee,
                },
                mode: match mode {
                    TacticalMode::SemiAuto => TacticsMode::SemiAuto,
                    TacticalMode::Manual => TacticsMode::Manual,
                },
            },
        },
    }
}

pub open spec fn tactics_style_name(style: TacticalStyle) -> Seq<char> {
    match style {
        TacticalStyle::CloseUp => "close_up"@,
        TacticalStyle::LongRange => "long_range"@,
        TacticalStyle::DuckAndWeave => "duck_and_weave"@,
        TacticalStyle::Flee => "flee"@,
    }
}

pub open spec fn tactics_mode_name(mode: TacticalMode) -> Seq<char> {
    match mode {
        TacticalMode::SemiAuto => "semi_auto"@,
        TacticalMode::Manual => "manual"@,
    }
}

/// The tactics the arena reports are exactly those requested.
pub fn tactics_result_matches(result: &TacticsResult, style: TacticalStyle, mode: TacticalMode) -> (matches: bool)
    ensures
        matches == (optional_text(result.style) == Some(tactics_style_name(style)) && optional_text(result.mode)
            == Some(tactics_mode_name(mode))),
{
    let expected_style = match style {
        TacticalStyle::CloseUp => "close_up",
        TacticalStyle::LongRange => "long_range",
        TacticalStyle::DuckAndWeave => "duck_and_weave",
        TacticalStyle::Flee => "flee",
    };
    let expected_mode = match mode {
        TacticalMode::SemiAuto => "semi_auto",
        TacticalMode::Manual => "manual",
    };
    optional_text_is(&result.style, expected_style) && optional_text_is(&result.mode, expected_mode)
}

pub open spec fn first_known(first: Option<bool>, second: Option<bool>) -> Option<bool> {
    if first is Some {
        first
    } else {
        second
    }
}

pub open spec fn empty_result() -> BodyCommandResult {
    BodyCommandResult {
        accepted: None,
        reachable: None,
        path_length_tiles: None,
        moved: None,
        moving: None,
        arrived: None,
        tile_x: None,
        tile_y: None,
        came_to_rest: None,
        stopped: None,
        position: None,
    }
}

/// The reported position, when both coordinates are reported.
pub open spec fn reported_position(result: MoveResult) -> Option<PixelPosition> {
    match (result.x_millipixels, result.y_millipixels) {
        (Some(x), Some(y)) => Some(PixelPosition { x, y }),
        _ => None,
    }
}

/// The movement command proceeds from its path check to the move: the path
/// was not reported unreachable.
pub open spec fn move_to_proceeds(command: BodyCommand, reply: ToolReply) -> bool {
    &&& command is MoveTo
    &&& reply matches ToolReply::Path(path)
    &&& path.reachable != Some(false)
}

/// `step` calls the move tool toward the centre of the destination tile of `command`.
pub open spec fn calls_move_to(command: BodyCommand, step: Result<GatewayStep, BodyGatewayError>) -> bool {
    &&& step matches Ok(GatewayStep::Call(call))
    &&& call.tool@ == "arena_move_to"@
    &&& command matches BodyCommand::MoveTo { destination }
    &&& call.arguments == (ToolArguments::Pixel { target: tile_center_of(destination) })
}

/// `step` refuses the reply as undecodable.
pub open spec fn refused_as_undecodable(step: Result<GatewayStep, BodyGatewayError>) -> bool {
    &&& step matches Err(e)
    &&& e.class@ == "decode"@
}

/// The finished result of `command` after `reply` (and, for a move, the earlier
/// path check `path`), when the reply finishes the command.
pub open spec fn reply_outcome(command: BodyCommand, path: Option<PathResult>, reply: ToolReply) -> Option<
    BodyCommandResult,
> {
    match (command, reply) {
        (BodyCommand::MoveDirection { .. }, ToolReply::Move(r)) => Some(
            BodyCommandResult {
                accepted: first_known(r.accepted, r.moved),
                moved: r.moved,
                moving: r.moving,
                arrived: r.arrived,
                tile_x: r.tile_x,
                tile_y: r.tile_y,
                ..empty_result()
            },
        ),
        (BodyCommand::Think { .. }, ToolReply::Think(r)) => Some(
            BodyCommandResult { accepted: r.recorded, ..empty_result() },
        ),
        (BodyCommand::Say { .. }, ToolReply::Say(r)) => Some(
            BodyCommandResult { accepted: first_known(r.accepted, r.said), ..empty_result() },
        ),
        (BodyCommand::TalkTo { .. }, ToolReply::Dialogue(r)) => Some(
            BodyCommandResult { accepted: Some(r.opened), ..empty_result() },
        ),
        (BodyCommand::CheckPath { .. }, ToolReply::Path(r)) => Some(
            BodyCommandResult {
                accepted: r.reachable,
                reachable: r.reachable,
                path_length_tiles: r.path_length_tiles,
                ..empty_result()
            },
        ),
        (BodyCommand::MoveTo { .. }, ToolReply::Path(r)) => if r.reachable == Some(false) {
            Some(
                BodyCommandResult {
                    accepted: Some(false),
                    reachable: Some(false),
                    path_length_tiles: r.path_length_tiles,
                    ..empty_result()
                },
            )
        } else {
            None
        },
        (BodyCommand::MoveTo { .. }, ToolReply::Move(r)) => match path {
            Some(p) => Some(
                BodyCommandResult {
                    accepted: first_known(r.accepted, Some(true)),
                    reachable: p.reachable,
                    path_length_tiles: p.path_length_tiles,
                    moved: r.moved,
                    moving: r.moving,
                    arrived: r.arrived,
                    came_to_rest: r.came_to_rest,
                    tile_x: r.tile_x,
                    tile_y: r.tile_y,
                    position: reported_position(r),
                    ..empty_result()
                },
            ),
            None => None,
        },
        (BodyCommand::EnterDoor { .. }, ToolReply::Door(r)) => Some(
            BodyCommandResult {
                accepted: r.entered,
                moved: r.entered,
                arrived: r.entered,
                came_to_rest: r.entered,
                ..empty_result()
            },
        ),
        (BodyCommand::QueueDuel { .. }, ToolReply::Match(_)) => Some(
            BodyCommandResult { accepted: Some(true), ..empty_result() },
        ),
        (BodyCommand::Stop, ToolReply::Stop(r)) => Some(
            BodyCommandResult { accepted: r.stopped, stopped: r.stopped, ..empty_result() },
        ),
        (BodyCommand::Attack { .. }, ToolReply::Combat(r)) => Some(
            BodyCommandResult { accepted: first_known(r.accepted, r.attacked), ..empty_result() },
        ),
        (BodyCommand::UseSkill { .. }, ToolReply::Combat(r)) => Some(
            BodyCommandResult { accepted: first_known(r.accepted, r.attacked), ..empty_result() },
        ),
        (BodyCommand::UseItem { .. }, ToolReply::UseItem(r)) => Some(
            BodyCommandResult { accepted: r.used, ..empty_result() },
        ),
        (BodyCommand::PickUp { .. }, ToolReply::Pickup(r)) => Some(
            BodyCommandResult { accepted: r.picked_up, ..empty_result() },
        ),
        (BodyCommand::SetTactics { style, mode }, ToolReply::Tactics(r)) => Some(
            BodyCommandResult {
                accepted: Some(
                    optional_text(r.style) == Some(tactics_style_name(style)) && optional_text(r.mode) == Some(
                        tactics_mode_name(mode),
                    ),
                ),
                ..empty_result()
            },
        ),
        _ => None,
    }
}

fn empty() -> (result: BodyCommandResult)
    ensures
        result == empty_result(),
{
    BodyCommandResult {
        accepted: None,
        reachable: None,
        path_length_tiles: None,
        moved: None,
        moving: None,
        arrived: None,
        tile_x: None,
        tile_y: None,
        came_to_rest: None,
        stopped: None,
        position: None,
    }
}

fn either(first: Option<bool>, second: Option<bool>) -> (known: Option<bool>)
    ensures
        known == first_known(first, second),
{
    match first {
        Some(_) => first,
        None => second,
    }
}

/// Take a tool's `reply` while carrying out `command`; `path` is the path check
/// a move made before it. Name the next call, or the finished result; a reply of
/// another tool than the one called is refused as undecodable.
pub fn continue_command(command: &BodyCommand, path: &Option<PathResult>, reply: &ToolReply) -> (step: Result<
    GatewayStep,
    BodyGatewayError,
>)
    ensures
        reply_outcome(*command, *path, *reply) matches Some(done) ==> step == Ok::<GatewayStep, BodyGatewayError>(
            GatewayStep::Finished(done),
        ),
        move_to_proceeds(*command, *reply) ==> calls_move_to(*command, step),
        reply_outcome(*command, *path, *reply) is None && !move_to_proceeds(*command, *reply)
            ==> refused_as_undecodable(step),
{
    let done = match (command, reply) {
        (BodyCommand::MoveDirection { .. }, ToolReply::Move(r)) => BodyCommandResult {
            accepted: either(r.accepted, r.moved),
            moved: r.moved,
            moving: r.moving,
            arrived: r.arrived,
            tile_x: r.tile_x,
            tile_y: r.tile_y,
            ..empty()
        },
        (BodyCommand::Think { .. }, ToolReply::Think(r)) => BodyCommandResult { accepted: r.recorded, ..empty() },
        (BodyCommand::Say { .. }, ToolReply::Say(r)) => BodyCommandResult {
            accepted: either(r.accepted, r.said),
            ..empty()
        },
        (BodyCommand::TalkTo { .. }, ToolReply::Dialogue(r)) => BodyCommandResult {
            accepted: Some(r.opened),
            ..empty()
        },
        (BodyCommand::CheckPath { .. }, ToolReply::Path(r)) => BodyCommandResult {
            accepted: r.reachable,
            reachable: r.reachable,
            path_length_tiles: r.path_length_tiles,
            ..empty()
        },
        (BodyCommand::MoveTo { destination }, ToolReply::Path(r)) => {
            if r.reachable == Some(false) {
                BodyCommandResult {
                    accepted: Some(false),
                    reachable: Some(false),
                    path_length_tiles: r.path_length_tiles,
                    ..empty()
                }
            } else {
                return Ok(
                    GatewayStep::Call(
                        ToolCall {
                            tool: crate::mcp::tools::MOVE_TO,
                            arguments: ToolArguments::Pixel { target: tile_center(*destination) },
                        },
                    ),
                );
            }
        },
        (BodyCommand::MoveTo { .. }, ToolReply::Move(r)) => match path {
            Some(p) => BodyCommandResult {
                accepted: either(r.accepted, Some(true)),
                reachable: p.reachable,
                path_length_tiles: p.path_length_tiles,
                moved: r.moved,
                moving: r.moving,
                arrived: r.arrived,
                came_to_rest: r.came_to_rest,
                tile_x: r.tile_x,
                tile_y: r.tile_y,
                position: match (r.x_millipixels, r.y_millipixels) {
                    (Some(x), Some(y)) => Some(PixelPosition { x, y }),
                    _ => None,
                },
                ..empty()
            },
            None => {
                return Err(BodyGatewayError { class: String::from_str("decode") });
            },
        },
        (BodyCommand::EnterDoor { .. }, ToolReply::Door(r)) => BodyCommandResult {
            accepted: r.entered,
            moved: r.entered,
            arrived: r.entered,
            came_to_rest: r.entered,
            ..empty()
        },
        (BodyCommand::QueueDuel { .. }, ToolReply::Match(_)) => BodyCommandResult {
            accepted: Some(true),
            ..empty()
        },
        (BodyCommand::Stop, ToolReply::Stop(r)) => BodyCommandResult {
            accepted: r.stopped,
            stopped: r.stopped,
            ..empty()
        },
        (BodyCommand::Attack { .. }, ToolReply::Combat(r)) => BodyCommandResult {
            accepted: either(r.accepted, r.attacked),
            ..empty()
        },
        (BodyCommand::UseSkill { .. }, ToolReply::Combat(r)) => BodyCommandResult {
            accepted: either(r.accepted, r.attacked),
            ..empty()
        },
        (BodyCommand::UseItem { .. }, ToolReply::UseItem(r)) => BodyCommandResult {
            accepted: r.used,
            ..empty()
        },
        (BodyCommand::PickUp { .. }, ToolReply::Pickup(r)) => BodyCommandResult {
            accepted: r.picked_up,
            ..empty()
        },
        (BodyCommand::SetTactics { style, mode }, ToolReply::Tactics(r)) => BodyCommandResult {
            accepted: Some(tactics_result_matches(r, *style, *mode)),
            ..empty()
        },
        _ => {
            return Err(BodyGatewayError { class: String::from_str("decode") });
        },
    };
    Ok(GatewayStep::Finished(done))
}

} // verus!
