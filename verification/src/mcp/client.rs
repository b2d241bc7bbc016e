//! The typed tool surface of the arena: for each operation of the bound
//! character, the MCP tool it calls and the arguments it passes, after the
//! capability gate and with the character's identity added.

use vstd::prelude::*;

use crate::character::{Capability, CapabilitySet};
use crate::execution::gateway::{
    begin_command, calls_move_to, chat_channel_of, continue_command, first_arguments, first_tool, move_to_proceeds,
    refused_as_undecodable, reply_outcome, BodyCommand, BodyGatewayError, ExecutionContext, GatewayError, GatewayStep,
    ToolArguments, ToolCall, ToolReply,
};
use crate::mcp::events::{
    call_requested_event, chat_finished, chat_finished_event, chat_requested, chat_requested_event, requested_event,
    GatewayEvent,
};
use crate::mcp::types::PathResult;
use crate::mcp::tools::{self, capability_for_tool};
use crate::mcp::types::{
    ChatChannel, CombatTarget, HistoryQuery, MelodyInstrument, MoveDirection, PlayMelodyResult, TacticsMode,
    TacticsStyle, TradeSide,
};
use crate::text::{is_white_space, white_space};
use crate::world::{PixelPosition, TilePosition};

verus! {

/// One argument value of a tool call. Pixel coordinates are in thousandths
/// of a pixel.
#[derive(Debug, Clone, PartialEq, Eq)]
pub enum ArgumentValue {
    Text(String),
    Integer(i64),
    Count(u64),
    Flag(bool),
    Millipixels(i64),
}

/// A named argument of a tool call.
#[derive(Debug, Clone, PartialEq, Eq)]
pub struct ToolArgument {
    pub name: &'static str,
    pub value: ArgumentValue,
}

/// An argument value with its text as characters.
pub enum ArgumentValueView {
    Text(Seq<char>),
    Integer(i64),
    Count(u64),
    Flag(bool),
    Millipixels(i64),
}

pub struct ToolArgumentView {
    pub name: Seq<char>,
    pub value: ArgumentValueView,
}

impl View for ToolArgument {
    type V = ToolArgumentView;

    open spec fn view(&self) -> ToolArgumentView {
        ToolArgumentView {
            name: self.name@,
            value: match self.value {
                ArgumentValue::Text(t) => ArgumentValueView::Text(t@),
                ArgumentValue::Integer(v) => ArgumentValueView::Integer(v),
                ArgumentValue::Count(v) => ArgumentValueView::Count(v),
                ArgumentValue::Flag(v) => ArgumentValueView::Flag(v),
                ArgumentValue::Millipixels(v) => ArgumentValueView::Millipixels(v),
            },
        }
    }
}

pub open spec fn argument_views(arguments: Seq<ToolArgument>) -> Seq<ToolArgumentView> {
    arguments.map_values(|a: ToolArgument| a@)
}

pub open spec fn text_arg(name: Seq<char>, text: Seq<char>) -> ToolArgumentView {
    ToolArgumentView { name, value: ArgumentValueView::Text(text) }
}

pub open spec fn integer_arg(name: Seq<char>, value: i64) -> ToolArgumentView {
    ToolArgumentView { name, value: ArgumentValueView::Integer(value) }
}

pub open spec fn count_arg(name: Seq<char>, value: u64) -> ToolArgumentView {
    ToolArgumentView { name, value: ArgumentValueView::Count(value) }
}

pub open spec fn flag_arg(name: Seq<char>, value: bool) -> ToolArgumentView {
    ToolArgumentView { name, value: ArgumentValueView::Flag(value) }
}

pub open spec fn pixel_args(target: PixelPosition) -> Seq<ToolArgumentView> {
    seq![
        ToolArgumentView { name: "x"@, value: ArgumentValueView::Millipixels(target.x) },
        ToolArgumentView { name: "y"@, value: ArgumentValueView::Millipixels(target.y) },
    ]
}

/// An argument only when the value is present.
pub open spec fn optional_count_arg(name: Seq<char>, value: Option<u64>) -> Seq<ToolArgumentView> {
    match value {
        Some(v) => seq![count_arg(name, v)],
        None => Seq::empty(),
    }
}

pub open spec fn optional_text_arg(name: Seq<char>, value: Option<Seq<char>>) -> Seq<ToolArgumentView> {
    match value {
        Some(v) => seq![text_arg(name, v)],
        None => Seq::empty(),
    }
}

/// One prepared tool call: the tool and its complete arguments.
#[derive(Debug, Clone, PartialEq, Eq)]
pub struct PreparedToolCall {
    pub tool: &'static str,
    pub arguments: Vec<ToolArgument>,
}

/// The gateway of one bound character: its agent identity, the character it
/// is accounted to, and what its body may do.
#[derive(Debug, Clone)]
pub struct ArenaGateway {
    agent_id: String,
    analytics_character_id: String,
    capabilities: CapabilitySet,
}

/// `result` is the call of `tool` with `arguments` by an agent `agent` with
/// `capabilities`: refused when the tool needs a capability the character
/// lacks; else the call, with the agent identity added when `identity` says so.
pub open spec fn prepared_call(
    agent: Seq<char>,
    capabilities: Set<Capability>,
    tool: &'static str,
    arguments: Seq<ToolArgumentView>,
    identity: bool,
    result: Result<PreparedToolCall, GatewayError>,
) -> bool {
    match capability_for_tool(tool@) {
        Some(needed) if !capabilities.contains(needed) => result == Err::<PreparedToolCall, GatewayError>(
            GatewayError::MissingCapability { tool, capability: needed },
        ),
        _ => {
            &&& result matches Ok(call)
            &&& call.tool == tool
            &&& argument_views(call.arguments@) == (if identity {
                arguments.push(text_arg("agent_id"@, agent))
            } else {
                arguments
            })
        },
    }
}

pub open spec fn direction_name(d: MoveDirection) -> Seq<char> {
    match d {
        MoveDirection::Up => "up"@,
        MoveDirection::Down => "down"@,
        MoveDirection::Left => "left"@,
        MoveDirection::Right => "right"@,
    }
}

pub open spec fn channel_name(c: ChatChannel) -> Seq<char> {
    match c {
        ChatChannel::Scene => "scene"@,
        ChatChannel::Global => "global"@,
        ChatChannel::Private => "private"@,
    }
}

pub open spec fn instrument_name(i: MelodyInstrument) -> Seq<char> {
    match i {
        MelodyInstrument::Lute => "lute"@,
        MelodyInstrument::Flute => "flute"@,
        MelodyInstrument::Horn => "horn"@,
        MelodyInstrument::Bell => "bell"@,
    }
}

pub open spec fn side_name(s: TradeSide) -> Seq<char> {
    match s {
        TradeSide::Buy => "buy"@,
        TradeSide::Sell => "sell"@,
    }
}

pub open spec fn style_name(s: TacticsStyle) -> Seq<char> {
    match s {
        TacticsStyle::CloseUp => "close_up"@,
        TacticsStyle::LongRange => "long_range"@,
        TacticsStyle::DuckAndWeave => "duck_and_weave"@,
        TacticsStyle::Flee => "flee"@,
    }
}

pub open spec fn mode_name(m: TacticsMode) -> Seq<char> {
    match m {
        TacticsMode::SemiAuto => "semi_auto"@,
        TacticsMode::Manual => "manual"@,
    }
}

/// The arguments that name a combat target: an object by its index, or a
/// player by session and player id (never an object index).
pub open spec fn target_args(target: CombatTarget) -> Seq<ToolArgumentView> {
    match target {
        CombatTarget::Object { object_index } => seq![text_arg("target_object_index"@, object_index@)],
        CombatTarget::Player { session_id, player_id } => seq![
            text_arg("target_session_id"@, session_id@),
            integer_arg("target_player_id"@, player_id),
        ],
    }
}

/// The arguments of a history read: each bound that is given, in order.
pub open spec fn history_args(query: HistoryQuery) -> Seq<ToolArgumentView> {
    optional_count_arg("after"@, query.after) + optional_count_arg("before"@, query.before) + optional_text_arg(
        "since"@,
        crate::text::optional_text(query.since),
    ) + optional_text_arg("until"@, crate::text::optional_text(query.until)) + optional_count_arg(
        "limit"@,
        match query.limit {
            Some(l) => Some(l as u64),
            None => None,
        },
    )
}

fn text_argument(name: &'static str, text: &str) -> (argument: ToolArgument)
    ensures
        argument@ == text_arg(name@, text@),
{
    ToolArgument { name, value: ArgumentValue::Text(String::from_str(text)) }
}

fn integer_argument(name: &'static str, value: i64) -> (argument: ToolArgument)
    ensures
        argument@ == integer_arg(name@, value),
{
    ToolArgument { name, value: ArgumentValue::Integer(value) }
}

fn count_argument(name: &'static str, value: u64) -> (argument: ToolArgument)
    ensures
        argument@ == count_arg(name@, value),
{
    ToolArgument { name, value: ArgumentValue::Count(value) }
}

fn flag_argument(name: &'static str, value: bool) -> (argument: ToolArgument)
    ensures
        argument@ == flag_arg(name@, value),
{
    ToolArgument { name, value: ArgumentValue::Flag(value) }
}

fn push_argument(arguments: &mut Vec<ToolArgument>, argument: ToolArgument)
    ensures
        argument_views(final(arguments)@) == argument_views(old(arguments)@).push(argument@),
{
    arguments.push(argument);
    assert(argument_views(final(arguments)@) =~= argument_views(old(arguments)@).push(argument@));
}

fn one_argument(a: ToolArgument) -> (arguments: Vec<ToolArgument>)
    ensures
        argument_views(arguments@) == seq![a@],
{
    let mut arguments = Vec::new();
    push_argument(&mut arguments, a);
    assert(argument_views(arguments@) =~= seq![a@]);
    arguments
}

fn two_arguments(a: ToolArgument, b: ToolArgument) -> (arguments: Vec<ToolArgument>)
    ensures
        argument_views(arguments@) == seq![a@, b@],
{
    let mut arguments = one_argument(a);
    push_argument(&mut arguments, b);
    assert(argument_views(arguments@) =~= seq![a@, b@]);
    arguments
}

fn three_arguments(a: ToolArgument, b: ToolArgument, c: ToolArgument) -> (arguments: Vec<ToolArgument>)
    ensures
        argument_views(arguments@) == seq![a@, b@, c@],
{
    let mut arguments = two_arguments(a, b);
    push_argument(&mut arguments, c);
    assert(argument_views(arguments@) =~= seq![a@, b@, c@]);
    arguments
}

fn no_arguments() -> (arguments: Vec<ToolArgument>)
    ensures
        argument_views(arguments@) == Seq::<ToolArgumentView>::empty(),
{
    let arguments = Vec::new();
    assert(argument_views(arguments@) =~= Seq::<ToolArgumentView>::empty());
    arguments
}

fn pixel_arguments(target: PixelPosition) -> (arguments: Vec<ToolArgument>)
    ensures
        argument_views(arguments@) == pixel_args(target),
{
    two_arguments(
        ToolArgument { name: "x", value: ArgumentValue::Millipixels(target.x) },
        ToolArgument { name: "y", value: ArgumentValue::Millipixels(target.y) },
    )
}

fn target_arguments(target: &CombatTarget) -> (arguments: Vec<ToolArgument>)
    ensures
        argument_views(arguments@) == target_args(*target),
{
    match target {
        CombatTarget::Object { object_index } => one_argument(
            text_argument("target_object_index", object_index.as_str()),
        ),
        CombatTarget::Player { session_id, player_id } => two_arguments(
            text_argument("target_session_id", session_id.as_str()),
            integer_argument("target_player_id", *player_id),
        ),
    }
}

/// The number of whitespace-separated words of `s`.
pub open spec fn word_count(s: Seq<char>) -> nat
    decreases s.len(),
{
    if s.len() == 0 {
        0
    } else {
        let starts_word = !is_white_space(s.last()) && (s.len() == 1 || is_white_space(s[s.len() - 2]));
        word_count(s.drop_last()) + if starts_word {
            1nat
        } else {
            0nat
        }
    }
}

/// How many notes a melody names: its whitespace-separated words.
pub fn melody_note_count(melody: &str) -> (count: usize)
    ensures
        count == word_count(melody@),
{
    let n = melody.unicode_len();
    let mut count: usize = 0;
    let mut i: usize = 0;
    while i < n
        invariant
            n == melody@.len(),
            i <= n,
            count == word_count(melody@.take(i as int)),
            count <= i,
        decreases n - i,
    {
        let c = melody.get_char(i);
        let starts = !white_space(c) && (i == 0 || white_space(melody.get_char(i - 1)));
        proof {
            let t = melody@.take(i + 1);
            assert(t.drop_last() =~= melody@.take(i as int));
            assert(t.last() == c);
            if i > 0 {
                assert(t[t.len() - 2] == melody@[i - 1]);
            }
        }
        if starts {
            count = count + 1;
        }
        i = i + 1;
    }
    assert(melody@.take(n as int) =~= melody@);
    count
}

/// A melody result with one success fact and a note count: where the backend
/// reports only that it played, that counts as accepted; where it reports no
/// note count, the melody's own count stands when it fits a byte.
pub fn complete_melody_result(result: PlayMelodyResult, note_count: usize) -> (complete: PlayMelodyResult)
    ensures
        complete.accepted == (if result.accepted is Some {
            result.accepted
        } else {
            result.played
        }),
        complete.note_count == (if result.note_count is Some {
            result.note_count
        } else if note_count <= 255 {
            Some(note_count as u8)
        } else {
            None
        }),
        complete.played == result.played,
        complete.instrument == result.instrument,
        complete.times == result.times,
        complete.notes == result.notes,
        complete.note == result.note,
        complete.reason == result.reason,
        complete.message == result.message,
{
    let mut complete = result;
    if complete.accepted.is_none() {
        complete.accepted = complete.played;
    }
    if complete.note_count.is_none() {
        complete.note_count = if note_count <= 255 {
            Some(note_count as u8)
        } else {
            None
        };
    }
    complete
}

impl ArenaGateway {
    pub closed spec fn agent(self) -> Seq<char> {
        self.agent_id@
    }

    pub closed spec fn character(self) -> Seq<char> {
        self.analytics_character_id@
    }

    pub closed spec fn allowed(self) -> Set<Capability> {
        self.capabilities@
    }

    /// The gateway of the character accounted as `analytics_character_id`,
    /// acting as agent `agent_id` with `capabilities`.
    pub fn for_character(agent_id: String, analytics_character_id: String, capabilities: CapabilitySet) -> (gateway:
        ArenaGateway)
        ensures
            gateway.agent() == agent_id@,
            gateway.character() == analytics_character_id@,
            gateway.allowed() == capabilities@,
    {
        ArenaGateway { agent_id, analytics_character_id, capabilities }
    }

    /// The agent identity every call carries.
    pub fn agent_id(&self) -> (id: &str)
        ensures
            id@ == self.agent(),
    {
        self.agent_id.as_str()
    }

    /// The character the calls are accounted to.
    pub fn analytics_character_id(&self) -> (id: &str)
        ensures
            id@ == self.character(),
    {
        self.analytics_character_id.as_str()
    }

    /// Gate `tool` on the character's capabilities, then add the agent
    /// identity to `arguments` when `inject_identity` says so.
    pub fn prepare(&self, tool: &'static str, arguments: Vec<ToolArgument>, inject_identity: bool) -> (result: Result<
        PreparedToolCall,
        GatewayError,
    >)
        ensures
            prepared_call(self.agent(), self.allowed(), tool, argument_views(arguments@), inject_identity, result),
    {
        match crate::mcp::tools::required_capability(tool) {
            Some(needed) => {
                if !self.capabilities.contains(needed) {
                    return Err(GatewayError::MissingCapability { tool, capability: needed });
                }
            },
            None => {},
        }
        let mut arguments = arguments;
        if inject_identity {
            proof {
                reveal_strlit("agent_id");
            }
            push_argument(&mut arguments, text_argument("agent_id", self.agent_id.as_str()));
        }
        Ok(PreparedToolCall { tool, arguments })
    }

    /// Read the bound character's authoritative observation.
    pub fn observe(&self) -> (result: Result<PreparedToolCall, GatewayError>)
        ensures
            prepared_call(self.agent(), self.allowed(), tools::OBSERVE, seq![], true, result),
    {
        self.prepare(tools::OBSERVE, no_arguments(), true)
    }

    /// Render the bound character's local room map.
    pub fn render_map(&self, radius: u32) -> (result: Result<PreparedToolCall, GatewayError>)
        ensures
            prepared_call(
                self.agent(),
                self.allowed(),
                tools::RENDER_MAP,
                seq![text_arg("level"@, "room"@), count_arg("radius"@, radius as u64)],
                true,
                result,
            ),
    {
        proof {
            reveal_strlit("level");
            reveal_strlit("room");
        }
        self.prepare(
            tools::RENDER_MAP,
            two_arguments(text_argument("level", "room"), count_argument("radius", radius as u64)),
            true,
        )
    }

    /// Survey the current scene, optionally within a distance.
    pub fn survey(&self, within: Option<u32>) -> (result: Result<PreparedToolCall, GatewayError>)
        ensures
            prepared_call(
                self.agent(),
                self.allowed(),
                tools::SURVEY,
                optional_count_arg(
                    "within"@,
                    match within {
                        Some(w) => Some(w as u64),
                        None => None,
                    },
                ),
                true,
                result,
            ),
    {
        let arguments = match within {
            Some(w) => one_argument(count_argument("within", w as u64)),
            None => no_arguments(),
        };
        self.prepare(tools::SURVEY, arguments, true)
    }

    /// Read one cursor-paged slice of the bound character's world history.
    pub fn history(&self, query: &HistoryQuery) -> (result: Result<PreparedToolCall, GatewayError>)
        ensures
            prepared_call(self.agent(), self.allowed(), tools::HISTORY, history_args(*query), true, result),
    {
        let mut arguments = no_arguments();
        let ghost mut expected: Seq<ToolArgumentView> = Seq::empty();
        if let Some(after) = query.after {
            push_argument(&mut arguments, count_argument("after", after));
        }
        proof {
            expected = optional_count_arg("after"@, query.after);
            assert(argument_views(arguments@) =~= expected);
        }
        if let Some(before) = query.before {
            push_argument(&mut arguments, count_argument("before", before));
        }
        proof {
            expected = expected + optional_count_arg("before"@, query.before);
            assert(argument_views(arguments@) =~= expected);
        }
        if let Some(since) = &query.since {
            push_argument(&mut arguments, text_argument("since", since.as_str()));
        }
        proof {
            expected = expected + optional_text_arg("since"@, crate::text::optional_text(query.since));
            assert(argument_views(arguments@) =~= expected);
        }
        if let Some(until) = &query.until {
            push_argument(&mut arguments, text_argument("until", until.as_str()));
        }
        proof {
            expected = expected + optional_text_arg("until"@, crate::text::optional_text(query.until));
            assert(argument_views(arguments@) =~= expected);
        }
        if let Some(limit) = query.limit {
            push_argument(&mut arguments, count_argument("limit", limit as u64));
        }
        proof {
            expected = expected + optional_count_arg(
                "limit"@,
                match query.limit {
                    Some(l) => Some(l as u64),
                    None => None,
                },
            );
            assert(argument_views(arguments@) =~= expected);
            assert(expected =~= history_args(*query));
        }
        self.prepare(tools::HISTORY, arguments, true)
    }

    /// Invite one visible player by the backend's player id.
    pub fn party_invite(&self, target_player_id: i64) -> (result: Result<PreparedToolCall, GatewayError>)
        ensures
            prepared_call(
                self.agent(),
                self.allowed(),
                tools::PARTY_INVITE,
                seq![integer_arg("target_player_id"@, target_player_id)],
                true,
                result,
            ),
    {
        self.prepare(tools::PARTY_INVITE, one_argument(integer_argument("target_player_id", target_player_id)), true)
    }

    /// Accept or reject one party invitation.
    pub fn party_respond(&self, from_player_id: i64, accept: bool) -> (result: Result<PreparedToolCall, GatewayError>)
        ensures
            prepared_call(
                self.agent(),
                self.allowed(),
                tools::PARTY_RESPOND,
                seq![integer_arg("from_player_id"@, from_player_id), flag_arg("accept"@, accept)],
                true,
                result,
            ),
    {
        self.prepare(
            tools::PARTY_RESPOND,
            two_arguments(integer_argument("from_player_id", from_player_id), flag_argument("accept", accept)),
            true,
        )
    }

    /// Leave the party, or remove one member when this character leads it.
    pub fn party_leave(&self, remove_player_id: Option<i64>) -> (result: Result<PreparedToolCall, GatewayError>)
        ensures
            prepared_call(
                self.agent(),
                self.allowed(),
                tools::PARTY_LEAVE,
                match remove_player_id {
                    Some(id) => seq![integer_arg("remove_player_id"@, id)],
                    None => Seq::empty(),
                },
                true,
                result,
            ),
    {
        let arguments = match remove_player_id {
            Some(id) => one_argument(integer_argument("remove_player_id", id)),
            None => no_arguments(),
        };
        self.prepare(tools::PARTY_LEAVE, arguments, true)
    }

    /// Speak `message` on `channel`, to `to_player` when given.
    pub fn say_in(&self, channel: ChatChannel, message: &str, to_player: Option<&str>) -> (result: Result<
        PreparedToolCall,
        GatewayError,
    >)
        ensures
            prepared_call(
                self.agent(),
                self.allowed(),
                tools::SAY,
                seq![text_arg("message"@, message@), text_arg("channel"@, channel_name(channel))] + match to_player {
                    Some(p) => seq![text_arg("to_player"@, p@)],
                    None => Seq::empty(),
                },
                true,
                result,
            ),
    {
        let mut arguments = two_arguments(text_argument("message", message), text_argument("channel", channel.as_str()));
        let ghost base = argument_views(arguments@);
        match to_player {
            Some(p) => {
                push_argument(&mut arguments, text_argument("to_player", p));
            },
            None => {},
        }
        proof {
            assert(argument_views(arguments@) =~= base + match to_player {
                Some(p) => seq![text_arg("to_player"@, p@)],
                None => Seq::empty(),
            });
        }
        self.prepare(tools::SAY, arguments, true)
    }

    /// Speak one message in the current scene.
    pub fn say(&self, message: &str) -> (result: Result<PreparedToolCall, GatewayError>)
        ensures
            prepared_call(
                self.agent(),
                self.allowed(),
                tools::SAY,
                seq![text_arg("message"@, message@), text_arg("channel"@, "scene"@)],
                true,
                result,
            ),
    {
        let result = self.say_in(ChatChannel::Scene, message, None);
        assert(seq![text_arg("message"@, message@), text_arg("channel"@, "scene"@)] + Seq::empty() =~= seq![
            text_arg("message"@, message@),
            text_arg("channel"@, "scene"@),
        ]);
        result
    }

    /// Speak to every player in the world chat room.
    pub fn say_global(&self, message: &str) -> (result: Result<PreparedToolCall, GatewayError>)
        ensures
            prepared_call(
                self.agent(),
                self.allowed(),
                tools::SAY,
                seq![text_arg("message"@, message@), text_arg("channel"@, "global"@)],
                true,
                result,
            ),
    {
        let result = self.say_in(ChatChannel::Global, message, None);
        assert(seq![text_arg("message"@, message@), text_arg("channel"@, "global"@)] + Seq::empty() =~= seq![
            text_arg("message"@, message@),
            text_arg("channel"@, "global"@),
        ]);
        result
    }

    /// Whisper to one named player through the world chat room.
    pub fn say_private(&self, to_player: &str, message: &str) -> (result: Result<PreparedToolCall, GatewayError>)
        ensures
            prepared_call(
                self.agent(),
                self.allowed(),
                tools::SAY,
                seq![
                    text_arg("message"@, message@),
                    text_arg("channel"@, "private"@),
                    text_arg("to_player"@, to_player@),
                ],
                true,
                result,
            ),
    {
        let result = self.say_in(ChatChannel::Private, message, Some(to_player));
        assert(seq![text_arg("message"@, message@), text_arg("channel"@, "private"@)] + seq![
            text_arg("to_player"@, to_player@),
        ] =~= seq![
            text_arg("message"@, message@),
            text_arg("channel"@, "private"@),
            text_arg("to_player"@, to_player@),
        ]);
        result
    }

    /// Perform one melody in the current scene.
    pub fn play_melody(&self, melody: &str, times: u8, instrument: MelodyInstrument) -> (result: Result<
        PreparedToolCall,
        GatewayError,
    >)
        ensures
            prepared_call(
                self.agent(),
                self.allowed(),
                tools::PLAY_MELODY,
                seq![
                    text_arg("melody"@, melody@),
                    count_arg("times"@, times as u64),
                    text_arg("instrument"@, instrument_name(instrument)),
                ],
                true,
                result,
            ),
    {
        self.prepare(
            tools::PLAY_MELODY,
            three_arguments(
                text_argument("melody", melody),
                count_argument("times", times as u64),
                text_argument("instrument", instrument.as_str()),
            ),
            true,
        )
    }

    /// Publish the bound character's visible feeling.
    pub fn feel(&self, feeling: &str) -> (result: Result<PreparedToolCall, GatewayError>)
        ensures
            prepared_call(self.agent(), self.allowed(), tools::FEEL, seq![text_arg("feeling"@, feeling@)], true, result),
    {
        self.prepare(tools::FEEL, one_argument(text_argument("feeling", feeling)), true)
    }

    /// Open dialogue with a backend object.
    pub fn talk_to(&self, object_id: i64) -> (result: Result<PreparedToolCall, GatewayError>)
        ensures
            prepared_call(
                self.agent(),
                self.allowed(),
                tools::TALK_TO,
                seq![integer_arg("object_id"@, object_id)],
                true,
                result,
            ),
    {
        self.prepare(tools::TALK_TO, one_argument(integer_argument("object_id", object_id)), true)
    }

    /// Choose one dialogue option.
    pub fn choose_option(&self, object_id: i64, option_key: &str) -> (result: Result<PreparedToolCall, GatewayError>)
        ensures
            prepared_call(
                self.agent(),
                self.allowed(),
                tools::CHOOSE,
                seq![integer_arg("object_id"@, object_id), text_arg("option_key"@, option_key@)],
                true,
                result,
            ),
    {
        self.prepare(
            tools::CHOOSE,
            two_arguments(integer_argument("object_id", object_id), text_argument("option_key", option_key)),
            true,
        )
    }

    /// End the current dialogue.
    pub fn end_talk(&self, object_id: i64) -> (result: Result<PreparedToolCall, GatewayError>)
        ensures
            prepared_call(
                self.agent(),
                self.allowed(),
                tools::END_TALK,
                seq![integer_arg("object_id"@, object_id)],
                true,
                result,
            ),
    {
        self.prepare(tools::END_TALK, one_argument(integer_argument("object_id", object_id)), true)
    }

    /// Record one thought for spectators.
    pub fn think(&self, thought: &str) -> (result: Result<PreparedToolCall, GatewayError>)
        ensures
            prepared_call(self.agent(), self.allowed(), tools::THINK, seq![text_arg("thought"@, thought@)], true, result),
    {
        self.prepare(tools::THINK, one_argument(text_argument("thought", thought)), true)
    }

    /// Begin movement toward a pixel position.
    pub fn move_to(&self, target: PixelPosition) -> (result: Result<PreparedToolCall, GatewayError>)
        ensures
            prepared_call(self.agent(), self.allowed(), tools::MOVE_TO, pixel_args(target), true, result),
    {
        self.prepare(tools::MOVE_TO, pixel_arguments(target), true)
    }

    /// Move in one cardinal direction.
    pub fn move_direction(&self, direction: MoveDirection) -> (result: Result<PreparedToolCall, GatewayError>)
        ensures
            prepared_call(
                self.agent(),
                self.allowed(),
                tools::MOVE,
                seq![text_arg("direction"@, direction_name(direction))],
                true,
                result,
            ),
    {
        self.prepare(tools::MOVE, one_argument(text_argument("direction", direction.as_str())), true)
    }

    /// Move in one cardinal direction for a bounded duration.
    pub fn move_direction_for(&self, direction: MoveDirection, duration_ms: u32) -> (result: Result<
        PreparedToolCall,
        GatewayError,
    >)
        ensures
            prepared_call(
                self.agent(),
                self.allowed(),
                tools::MOVE,
                seq![text_arg("direction"@, direction_name(direction)), count_arg("duration_ms"@, duration_ms as u64)],
                true,
                result,
            ),
    {
        self.prepare(
            tools::MOVE,
            two_arguments(text_argument("direction", direction.as_str()), count_argument("duration_ms", duration_ms as u64)),
            true,
        )
    }

    /// Ask whether a pixel position is reachable.
    pub fn check_path(&self, target: PixelPosition) -> (result: Result<PreparedToolCall, GatewayError>)
        ensures
            prepared_call(self.agent(), self.allowed(), tools::CHECK_PATH, pixel_args(target), true, result),
    {
        self.prepare(tools::CHECK_PATH, pixel_arguments(target), true)
    }

    /// Stop current movement.
    pub fn stop(&self) -> (result: Result<PreparedToolCall, GatewayError>)
        ensures
            prepared_call(self.agent(), self.allowed(), tools::STOP, seq![], true, result),
    {
        self.prepare(tools::STOP, no_arguments(), true)
    }

    /// Invoke the last-resort unstick operation.
    pub fn unstick(&self) -> (result: Result<PreparedToolCall, GatewayError>)
        ensures
            prepared_call(self.agent(), self.allowed(), tools::UNSTICK, seq![], true, result),
    {
        self.prepare(tools::UNSTICK, no_arguments(), true)
    }

    /// Enter the door at a pixel position.
    pub fn enter_door(&self, target: PixelPosition) -> (result: Result<PreparedToolCall, GatewayError>)
        ensures
            prepared_call(self.agent(), self.allowed(), tools::ENTER_DOOR, pixel_args(target), true, result),
    {
        self.prepare(tools::ENTER_DOOR, pixel_arguments(target), true)
    }

    /// Enter the door at a tile, by the backend's row and column.
    pub fn enter_door_tile(&self, target: TilePosition) -> (result: Result<PreparedToolCall, GatewayError>)
        ensures
            prepared_call(
                self.agent(),
                self.allowed(),
                tools::ENTER_DOOR,
                seq![integer_arg("row"@, target.y as i64), integer_arg("column"@, target.x as i64)],
                true,
                result,
            ),
    {
        self.prepare(
            tools::ENTER_DOOR,
            two_arguments(integer_argument("row", target.y as i64), integer_argument("column", target.x as i64)),
            true,
        )
    }

    /// Basic-attack one object or player.
    pub fn basic_attack(&self, target: &CombatTarget) -> (result: Result<PreparedToolCall, GatewayError>)
        ensures
            prepared_call(self.agent(), self.allowed(), tools::BASIC_ATTACK, target_args(*target), true, result),
    {
        self.prepare(tools::BASIC_ATTACK, target_arguments(target), true)
    }

    /// Use one backend-reported action against an optional target.
    pub fn use_action(&self, action: &str, target: Option<&CombatTarget>) -> (result: Result<
        PreparedToolCall,
        GatewayError,
    >)
        ensures
            prepared_call(
                self.agent(),
                self.allowed(),
                tools::USE_ACTION,
                match target {
                    Some(t) => target_args(*t),
                    None => Seq::empty(),
                }.push(text_arg("action_type"@, action@)),
                true,
                result,
            ),
    {
        let mut arguments = match target {
            Some(t) => target_arguments(t),
            None => no_arguments(),
        };
        push_argument(&mut arguments, text_argument("action_type", action));
        self.prepare(tools::USE_ACTION, arguments, true)
    }

    /// Select a combat style and/or control mode.
    pub fn set_tactics(&self, style: Option<TacticsStyle>, mode: Option<TacticsMode>) -> (result: Result<
        PreparedToolCall,
        GatewayError,
    >)
        ensures
            prepared_call(
                self.agent(),
                self.allowed(),
                tools::SET_TACTICS,
                optional_text_arg(
                    "style"@,
                    match style {
                        Some(s) => Some(style_name(s)),
                        None => None,
                    },
                ) + optional_text_arg(
                    "mode"@,
                    match mode {
                        Some(m) => Some(mode_name(m)),
                        None => None,
                    },
                ),
                true,
                result,
            ),
    {
        let mut arguments = no_arguments();
        if let Some(s) = style {
            push_argument(&mut arguments, text_argument("style", s.as_str()));
        }
        let ghost first = argument_views(arguments@);
        if let Some(m) = mode {
            push_argument(&mut arguments, text_argument("mode", m.as_str()));
        }
        proof {
            assert(first =~= optional_text_arg(
                "style"@,
                match style {
                    Some(s) => Some(style_name(s)),
                    None => None,
                },
            ));
            assert(argument_views(arguments@) =~= first + optional_text_arg(
                "mode"@,
                match mode {
                    Some(m) => Some(mode_name(m)),
                    None => None,
                },
            ));
        }
        self.prepare(tools::SET_TACTICS, arguments, true)
    }

    /// Queue for a duel in a scene.
    pub fn queue_match(&self, scene_name: &str) -> (result: Result<PreparedToolCall, GatewayError>)
        ensures
            prepared_call(
                self.agent(),
                self.allowed(),
                tools::QUEUE_MATCH,
                seq![text_arg("scene_name"@, scene_name@)],
                true,
                result,
            ),
    {
        self.prepare(tools::QUEUE_MATCH, one_argument(text_argument("scene_name", scene_name)), true)
    }

    /// Read one duel's status; this call carries no agent identity.
    pub fn match_status(&self, match_id: &str) -> (result: Result<PreparedToolCall, GatewayError>)
        ensures
            prepared_call(
                self.agent(),
                self.allowed(),
                tools::MATCH_STATUS,
                seq![text_arg("match_id"@, match_id@)],
                false,
                result,
            ),
    {
        self.prepare(tools::MATCH_STATUS, one_argument(text_argument("match_id", match_id)), false)
    }

    /// Read the credit balance.
    pub fn credit_balance(&self) -> (result: Result<PreparedToolCall, GatewayError>)
        ensures
            prepared_call(self.agent(), self.allowed(), tools::CREDIT_BALANCE, seq![], true, result),
    {
        self.prepare(tools::CREDIT_BALANCE, no_arguments(), true)
    }

    /// Read recent credit entries, optionally limited.
    pub fn credit_history(&self, limit: Option<u32>) -> (result: Result<PreparedToolCall, GatewayError>)
        ensures
            prepared_call(
                self.agent(),
                self.allowed(),
                tools::CREDIT_HISTORY,
                optional_count_arg(
                    "limit"@,
                    match limit {
                        Some(l) => Some(l as u64),
                        None => None,
                    },
                ),
                true,
                result,
            ),
    {
        let arguments = match limit {
            Some(l) => one_argument(count_argument("limit", l as u64)),
            None => no_arguments(),
        };
        self.prepare(tools::CREDIT_HISTORY, arguments, true)
    }

    /// Read the inventory.
    pub fn inventory(&self) -> (result: Result<PreparedToolCall, GatewayError>)
        ensures
            prepared_call(self.agent(), self.allowed(), tools::INVENTORY, seq![], true, result),
    {
        self.prepare(tools::INVENTORY, no_arguments(), true)
    }

    /// Use one carried item.
    pub fn use_item(&self, item: &str) -> (result: Result<PreparedToolCall, GatewayError>)
        ensures
            prepared_call(self.agent(), self.allowed(), tools::USE_ITEM, seq![text_arg("item"@, item@)], true, result),
    {
        self.prepare(tools::USE_ITEM, one_argument(text_argument("item", item)), true)
    }

    /// Equip, or take off, one carried item.
    pub fn equip(&self, item: &str, take_off: bool) -> (result: Result<PreparedToolCall, GatewayError>)
        ensures
            prepared_call(
                self.agent(),
                self.allowed(),
                tools::EQUIP,
                seq![text_arg("item"@, item@), flag_arg("take_off"@, take_off)],
                true,
                result,
            ),
    {
        self.prepare(tools::EQUIP, two_arguments(text_argument("item", item), flag_argument("take_off", take_off)), true)
    }

    /// Read one merchant's offers on one side.
    pub fn trade_with(&self, object_id: i64, side: TradeSide) -> (result: Result<PreparedToolCall, GatewayError>)
        ensures
            prepared_call(
                self.agent(),
                self.allowed(),
                tools::TRADE_WITH,
                seq![integer_arg("object_id"@, object_id), text_arg("side"@, side_name(side))],
                true,
                result,
            ),
    {
        self.prepare(
            tools::TRADE_WITH,
            two_arguments(integer_argument("object_id", object_id), text_argument("side", side.as_str())),
            true,
        )
    }

    /// Buy `quantity` of `item` from a merchant.
    pub fn buy(&self, object_id: i64, item: &str, quantity: u32) -> (result: Result<PreparedToolCall, GatewayError>)
        ensures
            prepared_call(
                self.agent(),
                self.allowed(),
                tools::BUY,
                seq![integer_arg("object_id"@, object_id), text_arg("item"@, item@), count_arg("quantity"@, quantity as u64)],
                true,
                result,
            ),
    {
        self.prepare(
            tools::BUY,
            three_arguments(
                integer_argument("object_id", object_id),
                text_argument("item", item),
                count_argument("quantity", quantity as u64),
            ),
            true,
        )
    }

    /// Sell `quantity` of `item` to a merchant.
    pub fn sell(&self, object_id: i64, item: &str, quantity: u32) -> (result: Result<PreparedToolCall, GatewayError>)
        ensures
            prepared_call(
                self.agent(),
                self.allowed(),
                tools::SELL,
                seq![integer_arg("object_id"@, object_id), text_arg("item"@, item@), count_arg("quantity"@, quantity as u64)],
                true,
                result,
            ),
    {
        self.prepare(
            tools::SELL,
            three_arguments(
                integer_argument("object_id", object_id),
                text_argument("item", item),
                count_argument("quantity", quantity as u64),
            ),
            true,
        )
    }

    /// Pick up one drop.
    pub fn pick_up(&self, drop_id: &str) -> (result: Result<PreparedToolCall, GatewayError>)
        ensures
            prepared_call(self.agent(), self.allowed(), tools::PICK_UP, seq![text_arg("drop_id"@, drop_id@)], true, result),
    {
        self.prepare(tools::PICK_UP, one_argument(text_argument("drop_id", drop_id)), true)
    }
}

/// The arguments a body tool call carries, before the agent identity: the
/// same, name for name, as the gateway's operation for that tool passes.
pub open spec fn call_arguments(arguments: ToolArguments) -> Seq<ToolArgumentView> {
    match arguments {
        ToolArguments::Direction { direction } => seq![text_arg("direction"@, direction_name(direction))],
        ToolArguments::Thought { thought } => seq![text_arg("thought"@, thought@)],
        ToolArguments::Speech { message, channel, to_player } => seq![
            text_arg("message"@, message@),
            text_arg("channel"@, channel_name(channel)),
        ] + match to_player {
            Some(p) => seq![text_arg("to_player"@, p@)],
            None => Seq::empty(),
        },
        ToolArguments::Dialogue { object_id } => seq![integer_arg("object_id"@, object_id)],
        ToolArguments::Pixel { target } => pixel_args(target),
        ToolArguments::DoorTile { row, column } => seq![
            integer_arg("row"@, row as i64),
            integer_arg("column"@, column as i64),
        ],
        ToolArguments::Duel { scene_name } => seq![text_arg("scene_name"@, scene_name@)],
        ToolArguments::NoArguments => seq![],
        ToolArguments::Target { target } => target_args(target),
        ToolArguments::SkillUse { action_type, target } => match target {
            Some(t) => target_args(t),
            None => Seq::empty(),
        }.push(text_arg("action_type"@, action_type@)),
        ToolArguments::Item { item } => seq![text_arg("item"@, item@)],
        ToolArguments::Drop { drop_id } => seq![text_arg("drop_id"@, drop_id@)],
        ToolArguments::Tactics { style, mode } => seq![
            text_arg("style"@, style_name(style)),
            text_arg("mode"@, mode_name(mode)),
        ],
    }
}

fn body_call_arguments(arguments: &ToolArguments) -> (list: Vec<ToolArgument>)
    ensures
        argument_views(list@) == call_arguments(*arguments),
{
    proof {
        reveal_strlit("direction");
        reveal_strlit("thought");
        reveal_strlit("message");
        reveal_strlit("channel");
        reveal_strlit("to_player");
        reveal_strlit("object_id");
        reveal_strlit("row");
        reveal_strlit("column");
        reveal_strlit("scene_name");
        reveal_strlit("action_type");
        reveal_strlit("item");
        reveal_strlit("drop_id");
        reveal_strlit("style");
        reveal_strlit("mode");
    }
    match arguments {
        ToolArguments::Direction { direction } => one_argument(text_argument("direction", direction.as_str())),
        ToolArguments::Thought { thought } => one_argument(text_argument("thought", thought.as_str())),
        ToolArguments::Speech { message, channel, to_player } => {
            let mut list = two_arguments(
                text_argument("message", message.as_str()),
                text_argument("channel", channel.as_str()),
            );
            let ghost base = argument_views(list@);
            match to_player {
                Some(p) => {
                    push_argument(&mut list, text_argument("to_player", p.as_str()));
                },
                None => {},
            }
            proof {
                assert(argument_views(list@) =~= call_arguments(*arguments));
            }
            list
        },
        ToolArguments::Dialogue { object_id } => one_argument(integer_argument("object_id", *object_id)),
        ToolArguments::Pixel { target } => pixel_arguments(*target),
        ToolArguments::DoorTile { row, column } => two_arguments(
            integer_argument("row", *row as i64),
            integer_argument("column", *column as i64),
        ),
        ToolArguments::Duel { scene_name } => one_argument(text_argument("scene_name", scene_name.as_str())),
        ToolArguments::NoArguments => no_arguments(),
        ToolArguments::Target { target } => target_arguments(target),
        ToolArguments::SkillUse { action_type, target } => {
            let mut list = match target {
                Some(t) => target_arguments(t),
                None => no_arguments(),
            };
            push_argument(&mut list, text_argument("action_type", action_type.as_str()));
            list
        },
        ToolArguments::Item { item } => one_argument(text_argument("item", item.as_str())),
        ToolArguments::Drop { drop_id } => one_argument(text_argument("drop_id", drop_id.as_str())),
        ToolArguments::Tactics { style, mode } => two_arguments(
            text_argument("style", style.as_str()),
            text_argument("mode", mode.as_str()),
        ),
    }
}

/// The events recorded as a command begins: for speech, the request to chat
/// (its channel, whether it names a recipient and its length, never its
/// text); then the first call's start, or its refusal; and for refused
/// speech, the failed chat.
pub open spec fn start_events(
    command: BodyCommand,
    tool: &'static str,
    correlation_id: u128,
    prepared: Result<PreparedToolCall, GatewayError>,
) -> Seq<GatewayEvent> {
    match command {
        BodyCommand::Say { message, channel, to_player } => {
            let chat = chat_channel_of(channel);
            let opened = seq![
                chat_requested(chat, to_player is Some, message@.len(), correlation_id),
                requested_event(tool, correlation_id, prepared),
            ];
            if prepared is Ok {
                opened
            } else {
                opened.push(chat_finished(chat, to_player is Some, false, correlation_id))
            }
        },
        _ => seq![requested_event(tool, correlation_id, prepared)],
    }
}

/// The events recorded as a command's step is taken: the next call's start
/// or refusal; or, for speech, that the chat completed or failed.
pub open spec fn step_events(
    command: BodyCommand,
    correlation_id: u128,
    step: Result<GatewayStep, BodyGatewayError>,
    next: Option<Result<PreparedToolCall, GatewayError>>,
) -> Seq<GatewayEvent> {
    match (step, next) {
        (Ok(GatewayStep::Call(call)), Some(p)) => seq![requested_event(call.tool, correlation_id, p)],
        _ => ended_events(command, correlation_id, step is Ok),
    }
}

/// The events recorded as a command ends: for speech, that the chat
/// completed or failed; nothing for other commands.
pub open spec fn ended_events(command: BodyCommand, correlation_id: u128, succeeded: bool) -> Seq<GatewayEvent> {
    match command {
        BodyCommand::Say { channel, to_player, .. } => seq![
            chat_finished(chat_channel_of(channel), to_player is Some, succeeded, correlation_id),
        ],
        _ => Seq::empty(),
    }
}

/// The events recorded as a command ends, successfully or not.
pub fn command_end_events(command: &BodyCommand, correlation_id: u128, succeeded: bool) -> (events: Vec<
    GatewayEvent,
>)
    ensures
        events@ == ended_events(*command, correlation_id, succeeded),
{
    let mut events: Vec<GatewayEvent> = Vec::new();
    match command {
        BodyCommand::Say { channel, to_player, .. } => {
            let chat = match channel {
                crate::execution::gateway::BodySpeechChannel::Scene => ChatChannel::Scene,
                crate::execution::gateway::BodySpeechChannel::Global => ChatChannel::Global,
                crate::execution::gateway::BodySpeechChannel::Private => ChatChannel::Private,
            };
            events.push(chat_finished_event(chat, to_player.is_some(), succeeded, correlation_id));
        },
        _ => {},
    }
    assert(events@ =~= ended_events(*command, correlation_id, succeeded));
    events
}

/// The first call of a command: what to send, the call as the transport
/// carries it (or its refusal), and the events recorded so far.
#[derive(Debug)]
pub struct BodyCallStart {
    pub call: ToolCall,
    pub prepared: Result<PreparedToolCall, GatewayError>,
    pub events: Vec<GatewayEvent>,
}

/// A command after a reply: the next step, the next call as the transport
/// carries it (or its refusal) when the step is a call, and the events
/// recorded.
#[derive(Debug)]
pub struct BodyCallProgress {
    pub step: Result<GatewayStep, BodyGatewayError>,
    pub next: Option<Result<PreparedToolCall, GatewayError>>,
    pub events: Vec<GatewayEvent>,
}

impl ArenaGateway {
    /// Gate a body call on the character's capabilities and add its agent
    /// identity: the call the transport carries, or the refusal that keeps it
    /// from being sent.
    pub fn prepare_body_call(&self, call: &ToolCall) -> (result: Result<PreparedToolCall, GatewayError>)
        ensures
            prepared_call(self.agent(), self.allowed(), call.tool, call_arguments(call.arguments), true, result),
    {
        self.prepare(call.tool, body_call_arguments(&call.arguments), true)
    }

    /// Begin carrying out `command` for the action `context`: its first call,
    /// gated on the character's capabilities before anything is sent and
    /// carrying the agent identity, with the events that correlate to the
    /// action.
    pub fn begin_execute(&self, command: &BodyCommand, context: ExecutionContext) -> (start: BodyCallStart)
        ensures
            start.call.tool@ == first_tool(*command),
            first_arguments(*command, start.call.arguments),
            prepared_call(
                self.agent(),
                self.allowed(),
                start.call.tool,
                call_arguments(start.call.arguments),
                true,
                start.prepared,
            ),
            start.events@ == start_events(*command, start.call.tool, context.action_id, start.prepared),
    {
        let call = begin_command(command);
        let prepared = self.prepare_body_call(&call);
        let mut events: Vec<GatewayEvent> = Vec::new();
        match command {
            BodyCommand::Say { message, to_player, .. } => {
                let chat = match &call.arguments {
                    ToolArguments::Speech { channel, .. } => *channel,
                    _ => ChatChannel::Scene,
                };
                events.push(chat_requested_event(chat, message.as_str(), to_player.is_some(), context.action_id));
                events.push(call_requested_event(call.tool, context.action_id, &prepared));
                if prepared.is_err() {
                    events.push(chat_finished_event(chat, to_player.is_some(), false, context.action_id));
                }
            },
            _ => {
                events.push(call_requested_event(call.tool, context.action_id, &prepared));
            },
        }
        proof {
            assert(events@ =~= start_events(*command, call.tool, context.action_id, prepared));
        }
        BodyCallStart { call, prepared, events }
    }

    /// Take the next step of `command` after `reply` (and, for a move, the
    /// earlier path check `path`), as `continue_command` decides it; a next
    /// call is gated and carries the agent identity, and the events
    /// correlate to the action.
    pub fn continue_execute(
        &self,
        command: &BodyCommand,
        path: &Option<PathResult>,
        reply: &ToolReply,
        context: ExecutionContext,
    ) -> (progress: BodyCallProgress)
        ensures
            reply_outcome(*command, *path, *reply) matches Some(done) ==> progress.step == Ok::<
                GatewayStep,
                BodyGatewayError,
            >(GatewayStep::Finished(done)),
            move_to_proceeds(*command, *reply) ==> calls_move_to(*command, progress.step),
            reply_outcome(*command, *path, *reply) is None && !move_to_proceeds(*command, *reply)
                ==> refused_as_undecodable(progress.step),
            match progress.step {
                Ok(GatewayStep::Call(call)) => progress.next matches Some(p) && prepared_call(
                    self.agent(),
                    self.allowed(),
                    call.tool,
                    call_arguments(call.arguments),
                    true,
                    p,
                ),
                _ => progress.next is None,
            },
            progress.events@ == step_events(*command, context.action_id, progress.step, progress.next),
    {
        let step = continue_command(command, path, reply);
        let next = match &step {
            Ok(GatewayStep::Call(call)) => Some(self.prepare_body_call(call)),
            _ => None,
        };
        let events = match (&step, &next) {
            (Ok(GatewayStep::Call(call)), Some(p)) => {
                let mut events: Vec<GatewayEvent> = Vec::new();
                events.push(call_requested_event(call.tool, context.action_id, p));
                events
            },
            _ => command_end_events(command, context.action_id, step.is_ok()),
        };
        proof {
            assert(events@ =~= step_events(*command, context.action_id, step, next));
        }
        BodyCallProgress { step, next, events }
    }
}

/// Carrying out a command checks the character's capabilities before any
/// call: the first call is refused exactly when its tool needs a capability
/// the character lacks, and then nothing is sent and the refusal is
/// recorded; a call that is sent carries the agent identity as its last
/// argument; and every event recorded belongs to the action.
pub proof fn law_execute_gates_before_any_call(
    gateway: ArenaGateway,
    command: BodyCommand,
    correlation_id: u128,
    start: BodyCallStart,
)
    requires
        start.call.tool@ == first_tool(command),
        prepared_call(
            gateway.agent(),
            gateway.allowed(),
            start.call.tool,
            call_arguments(start.call.arguments),
            true,
            start.prepared,
        ),
        start.events@ == start_events(command, start.call.tool, correlation_id, start.prepared),
    ensures
        start.prepared is Err <==> (capability_for_tool(first_tool(command)) matches Some(needed)
            && !gateway.allowed().contains(needed)),
        start.prepared matches Err(e) ==> crate::execution::gateway::gateway_error_class(e) == "missing_capability"@,
        start.prepared matches Err(e) ==> e matches GatewayError::MissingCapability { capability, .. }
            && !gateway.allowed().contains(capability) && start.events@.contains(
            GatewayEvent {
                name: "mcp.tool_rejected",
                correlation_id,
                tool: start.call.tool,
                fact: crate::mcp::events::EventFact::MissingCapability { capability },
            },
        ),
        start.prepared matches Ok(call) ==> call.tool == start.call.tool && argument_views(call.arguments@).last()
            == text_arg("agent_id"@, gateway.agent()),
        forall|i: int| 0 <= i < start.events@.len() ==> (#[trigger] start.events@[i]).correlation_id == correlation_id,
{
    let r = requested_event(start.call.tool, correlation_id, start.prepared);
    match command {
        BodyCommand::Say { .. } => {
            assert(start.events@[1] == r);
        },
        _ => {
            assert(start.events@[0] == r);
        },
    }
}

/// Speech carries one channel throughout: the chat events name the channel
/// whose name the call sends as its `channel` argument, and the completion
/// (or failure) event names it too.
pub proof fn law_chat_events_name_the_sent_channel(
    gateway: ArenaGateway,
    message: String,
    channel: crate::execution::gateway::BodySpeechChannel,
    to_player: Option<String>,
    correlation_id: u128,
    start: BodyCallStart,
    succeeded: bool,
)
    requires
        ({
            let command = BodyCommand::Say { message, channel, to_player };
            &&& first_arguments(command, start.call.arguments)
            &&& prepared_call(
                gateway.agent(),
                gateway.allowed(),
                start.call.tool,
                call_arguments(start.call.arguments),
                true,
                start.prepared,
            )
            &&& start.events@ == start_events(command, start.call.tool, correlation_id, start.prepared)
        }),
    ensures
        start.events@[0].fact matches crate::mcp::events::EventFact::Chat { channel: c, .. } && {
            &&& call_arguments(start.call.arguments)[1] == text_arg("channel"@, channel_name(c))
            &&& start.prepared matches Ok(call) ==> argument_views(call.arguments@)[1] == text_arg(
                "channel"@,
                channel_name(c),
            )
            &&& ended_events(BodyCommand::Say { message, channel, to_player }, correlation_id, succeeded)[0].fact
                == (crate::mcp::events::EventFact::ChatOutcome { channel: c, recipient_known: to_player is Some })
        },
{
}

/// A move whose path check reports the destination unreachable ends there:
/// it is refused as not accepted and unreachable, with the reported path
/// length, and no move call follows.
pub proof fn law_unreachable_move_ends_at_the_path_check(
    gateway: ArenaGateway,
    destination: TilePosition,
    path: Option<PathResult>,
    check: PathResult,
    correlation_id: u128,
    progress: BodyCallProgress,
)
    requires
        check.reachable == Some(false),
        ({
            let command = BodyCommand::MoveTo { destination };
            let reply = ToolReply::Path(check);
            &&& reply_outcome(command, path, reply) matches Some(done) ==> progress.step == Ok::<
                GatewayStep,
                BodyGatewayError,
            >(GatewayStep::Finished(done))
            &&& match progress.step {
                Ok(GatewayStep::Call(call)) => progress.next is Some,
                _ => progress.next is None,
            }
            &&& progress.events@ == step_events(command, correlation_id, progress.step, progress.next)
        }),
    ensures
        progress.step == Ok::<GatewayStep, BodyGatewayError>(
            GatewayStep::Finished(
                crate::execution::gateway::BodyCommandResult {
                    accepted: Some(false),
                    reachable: Some(false),
                    path_length_tiles: check.path_length_tiles,
                    ..crate::execution::gateway::empty_result()
                },
            ),
        ),
        progress.next is None,
        progress.events@.len() == 0,
{
}

/// Every call a gateway prepares carries its agent identity as the last
/// argument (but the duel status read), and a refused call never reaches
/// the transport: it is an error naming the missing capability.
pub proof fn law_identity_is_injected_by_the_gateway(
    agent: Seq<char>,
    capabilities: Set<Capability>,
    tool: &'static str,
    arguments: Seq<ToolArgumentView>,
    result: Result<PreparedToolCall, GatewayError>,
)
    requires
        prepared_call(agent, capabilities, tool, arguments, true, result),
    ensures
        result matches Ok(call) ==> argument_views(call.arguments@).last() == text_arg("agent_id"@, agent),
        result matches Err(e) ==> e matches GatewayError::MissingCapability { capability, .. } && !capabilities.contains(
            capability,
        ),
{
}

} // verus!
