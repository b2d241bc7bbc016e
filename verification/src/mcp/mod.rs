//! The arena's MCP surface: tool names and the capabilities they need, the
//! typed results of tools, and the classification of transport failures.

pub mod client;
pub mod events;
pub mod observation;
pub mod protocol;
pub mod session;
pub mod tools;
pub mod transport;
pub mod types;
