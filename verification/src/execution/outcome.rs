//! The recorded outcome of each physical action and of each whole packet.

use vstd::prelude::*;

use crate::world::TilePosition;

verus! {

#[derive(Debug, Clone, Copy, PartialEq, Eq, Structural)]
pub enum OutcomeStatus {
    Accepted,
    Succeeded,
    Failed,
    Rejected,
    Cancelled,
    Superseded,
}

/// The outcome of one action. Identifiers are 128-bit UUID values and
/// timestamps are milliseconds since the Unix epoch.
#[derive(Debug, Clone)]
pub struct ActionOutcome {
    pub packet_id: u128,
    pub decision_id: u128,
    pub action_id: u128,
    pub action_index: usize,
    pub action_kind: String,
    pub started_at_ms: i64,
    pub recorded_at_ms: i64,
    pub duration_ms: u64,
    pub status: OutcomeStatus,
    pub reason_code: Option<String>,
    pub detail: String,
    /// The requested movement destination, when this outcome concerns movement.
    pub destination_tile: Option<TilePosition>,
    pub source_frame_revision: u64,
    pub strategic_revision: u64,
    pub resulting_frame_revision: Option<u64>,
}

#[derive(Debug, Clone, Copy, PartialEq, Eq, Structural)]
pub enum PacketTerminalStatus {
    Completed,
    Failed,
    Aborted,
    Cancelled,
    Superseded,
}

pub open spec fn terminal_status_label(status: PacketTerminalStatus) -> Seq<char> {
    match status {
        PacketTerminalStatus::Completed => "completed"@,
        PacketTerminalStatus::Failed => "failed"@,
        PacketTerminalStatus::Aborted => "aborted"@,
        PacketTerminalStatus::Cancelled => "cancelled"@,
        PacketTerminalStatus::Superseded => "superseded"@,
    }
}

impl PacketTerminalStatus {
    /// The stable wire name of the status.
    pub fn as_str(self) -> (name: &'static str)
        ensures
            name@ == terminal_status_label(self),
    {
        match self {
            PacketTerminalStatus::Completed => "completed",
            PacketTerminalStatus::Failed => "failed",
            PacketTerminalStatus::Aborted => "aborted",
            PacketTerminalStatus::Cancelled => "cancelled",
            PacketTerminalStatus::Superseded => "superseded",
        }
    }
}

} // verus!
