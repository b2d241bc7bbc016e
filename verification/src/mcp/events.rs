//! The analytics events of the body gateway. An event carries a name, the
//! correlation of the action it belongs to, the tool, and small facts: kinds,
//! counts and flags. No event has a field that could hold the free text of a
//! call (a message, a thought, a melody); such text is only ever counted.

use vstd::prelude::*;

use crate::character::Capability;
use crate::execution::gateway::GatewayError;
use crate::mcp::client::PreparedToolCall;
use crate::mcp::transport::mcp_error_class;
use crate::mcp::types::{ChatChannel, MelodyInstrument};

verus! {

/// The small facts one event records.
#[derive(Debug, Clone, Copy, PartialEq, Eq)]
pub enum EventFact {
    Nothing,
    /// A call refused because the character lacks `capability`.
    MissingCapability { capability: Capability },
    /// A call sent with this many arguments, the agent identity included.
    ArgumentCount { count: u64 },
    /// A call that failed, by the failure's stable class.
    ErrorClass { class: &'static str },
    /// A chat message: its channel, whether it names a recipient, and its
    /// length in characters.
    Chat { channel: ChatChannel, recipient_known: bool, message_character_count: u64 },
    /// The outcome of a chat message.
    ChatOutcome { channel: ChatChannel, recipient_known: bool },
    /// A melody: its instrument, repetitions, notes and length in characters.
    Melody { instrument: MelodyInstrument, times: u8, note_count: u64, melody_character_count: u64 },
    /// The outcome of a melody.
    MelodyOutcome { instrument: MelodyInstrument, times: u8, note_count: u64 },
}

/// One analytics event of the gateway.
#[derive(Debug, Clone, Copy, PartialEq, Eq)]
pub struct GatewayEvent {
    pub name: &'static str,
    pub correlation_id: u128,
    pub tool: &'static str,
    pub fact: EventFact,
}

/// The event recorded before a call is sent: the call started, with its
/// argument count; or the call was refused, naming the missing capability.
pub open spec fn requested_event(
    tool: &'static str,
    correlation_id: u128,
    prepared: Result<PreparedToolCall, GatewayError>,
) -> GatewayEvent {
    match prepared {
        Ok(call) => GatewayEvent {
            name: "mcp.tool_started",
            correlation_id,
            tool,
            fact: EventFact::ArgumentCount { count: call.arguments.len() as u64 },
        },
        Err(GatewayError::MissingCapability { capability, .. }) => GatewayEvent {
            name: "mcp.tool_rejected",
            correlation_id,
            tool,
            fact: EventFact::MissingCapability { capability },
        },
        Err(_) => GatewayEvent { name: "mcp.tool_rejected", correlation_id, tool, fact: EventFact::Nothing },
    }
}

/// The event recorded before a call is sent.
pub fn call_requested_event(
    tool: &'static str,
    correlation_id: u128,
    prepared: &Result<PreparedToolCall, GatewayError>,
) -> (event: GatewayEvent)
    ensures
        event == requested_event(tool, correlation_id, *prepared),
{
    match prepared {
        Ok(call) => GatewayEvent {
            name: "mcp.tool_started",
            correlation_id,
            tool,
            fact: EventFact::ArgumentCount { count: call.arguments.len() as u64 },
        },
        Err(GatewayError::MissingCapability { capability, .. }) => GatewayEvent {
            name: "mcp.tool_rejected",
            correlation_id,
            tool,
            fact: EventFact::MissingCapability { capability: *capability },
        },
        Err(_) => GatewayEvent { name: "mcp.tool_rejected", correlation_id, tool, fact: EventFact::Nothing },
    }
}

/// `event` is the one recorded once a call's reply is in: completed when it
/// decoded, decode-failed when it did not, failed (by the failure's class)
/// when the exchange failed.
pub open spec fn finished_event(
    event: GatewayEvent,
    tool: &'static str,
    correlation_id: u128,
    outcome: Result<(), GatewayError>,
) -> bool {
    &&& event.correlation_id == correlation_id
    &&& event.tool == tool
    &&& match outcome {
        Ok(()) => event.name@ == "mcp.tool_completed"@ && event.fact == EventFact::Nothing,
        Err(GatewayError::Decode { .. }) => event.name@ == "mcp.tool_decode_failed"@ && event.fact
            == EventFact::Nothing,
        Err(GatewayError::Mcp(e)) => event.name@ == "mcp.tool_failed"@ && (event.fact matches EventFact::ErrorClass {
            class,
        } && class@ == mcp_error_class(e)),
        Err(_) => event.name@ == "mcp.tool_failed"@ && event.fact == EventFact::Nothing,
    }
}

/// The event recorded once a call's reply is in.
pub fn call_finished_event(tool: &'static str, correlation_id: u128, outcome: &Result<(), GatewayError>) -> (event:
    GatewayEvent)
    ensures
        finished_event(event, tool, correlation_id, *outcome),
{
    match outcome {
        Ok(()) => GatewayEvent { name: "mcp.tool_completed", correlation_id, tool, fact: EventFact::Nothing },
        Err(GatewayError::Decode { .. }) => GatewayEvent {
            name: "mcp.tool_decode_failed",
            correlation_id,
            tool,
            fact: EventFact::Nothing,
        },
        Err(GatewayError::Mcp(e)) => GatewayEvent {
            name: "mcp.tool_failed",
            correlation_id,
            tool,
            fact: EventFact::ErrorClass { class: e.class() },
        },
        Err(_) => GatewayEvent { name: "mcp.tool_failed", correlation_id, tool, fact: EventFact::Nothing },
    }
}

/// The event recorded before a chat message is sent.
pub open spec fn chat_requested(
    channel: ChatChannel,
    recipient_known: bool,
    message_character_count: nat,
    correlation_id: u128,
) -> GatewayEvent {
    GatewayEvent {
        name: "chat.send_requested",
        correlation_id,
        tool: "arena_say",
        fact: EventFact::Chat {
            channel,
            recipient_known,
            message_character_count: message_character_count as u64,
        },
    }
}

/// The event recorded before a chat message is sent: its channel, whether
/// it names a recipient, and how many characters it has; never the message.
pub fn chat_requested_event(
    channel: ChatChannel,
    message: &str,
    recipient_known: bool,
    correlation_id: u128,
) -> (event: GatewayEvent)
    ensures
        event == chat_requested(channel, recipient_known, message@.len(), correlation_id),
{
    GatewayEvent {
        name: "chat.send_requested",
        correlation_id,
        tool: "arena_say",
        fact: EventFact::Chat {
            channel,
            recipient_known,
            message_character_count: message.unicode_len() as u64,
        },
    }
}

/// The event recorded once a chat message was sent, or failed.
pub open spec fn chat_finished(
    channel: ChatChannel,
    recipient_known: bool,
    succeeded: bool,
    correlation_id: u128,
) -> GatewayEvent {
    GatewayEvent {
        name: if succeeded {
            "chat.send_completed"
        } else {
            "chat.send_failed"
        },
        correlation_id,
        tool: "arena_say",
        fact: EventFact::ChatOutcome { channel, recipient_known },
    }
}

/// The event recorded once a chat message was sent, or failed.
pub fn chat_finished_event(channel: ChatChannel, recipient_known: bool, succeeded: bool, correlation_id: u128) -> (event:
    GatewayEvent)
    ensures
        event == chat_finished(channel, recipient_known, succeeded, correlation_id),
{
    GatewayEvent {
        name: if succeeded {
            "chat.send_completed"
        } else {
            "chat.send_failed"
        },
        correlation_id,
        tool: "arena_say",
        fact: EventFact::ChatOutcome { channel, recipient_known },
    }
}

/// The event recorded before a melody is performed: its instrument,
/// repetitions, note count and length in characters; never the melody.
pub fn melody_requested_event(
    instrument: MelodyInstrument,
    times: u8,
    melody: &str,
    correlation_id: u128,
) -> (event: GatewayEvent)
    ensures
        event.name@ == "music.performance_requested"@,
        event.correlation_id == correlation_id,
        event.tool@ == "arena_play_melody"@,
        event.fact == (EventFact::Melody {
            instrument,
            times,
            note_count: crate::mcp::client::word_count(melody@) as u64,
            melody_character_count: melody@.len() as u64,
        }),
{
    GatewayEvent {
        name: "music.performance_requested",
        correlation_id,
        tool: "arena_play_melody",
        fact: EventFact::Melody {
            instrument,
            times,
            note_count: crate::mcp::client::melody_note_count(melody) as u64,
            melody_character_count: melody.unicode_len() as u64,
        },
    }
}

/// The event recorded once a melody was performed, or failed.
pub fn melody_finished_event(
    instrument: MelodyInstrument,
    times: u8,
    note_count: u64,
    succeeded: bool,
    correlation_id: u128,
) -> (event: GatewayEvent)
    ensures
        event.name@ == (if succeeded {
            "music.performance_completed"@
        } else {
            "music.performance_failed"@
        }),
        event.correlation_id == correlation_id,
        event.tool@ == "arena_play_melody"@,
        event.fact == (EventFact::MelodyOutcome { instrument, times, note_count }),
{
    GatewayEvent {
        name: if succeeded {
            "music.performance_completed"
        } else {
            "music.performance_failed"
        },
        correlation_id,
        tool: "arena_play_melody",
        fact: EventFact::MelodyOutcome { instrument, times, note_count },
    }
}

} // verus!
