//! JSON-RPC framing facts of the MCP protocol.

use vstd::prelude::*;

use crate::json::JsonValue;
use crate::text::{decimal_text, text_equals};

verus! {

/// A JSON document held as `serde_json` parsed it. The library carries such
/// values through without looking inside them.
#[verifier::external_type_specification]
#[verifier::external_body]
pub struct ExJsonValue(serde_json::Value);

/// The MCP protocol revision this client speaks.
pub const PROTOCOL_VERSION: &'static str = "2025-06-18";

/// The error member of a JSON-RPC response.
#[derive(Debug)]
pub struct JsonRpcError {
    pub code: i64,
    pub message: String,
    pub data: Option<serde_json::Value>,
}

/// A JSON-RPC response: its id (as far as matching needs it), its result
/// and its error.
#[derive(Debug)]
pub struct JsonRpcResponse {
    pub id: Option<ResponseId>,
    pub result: Option<serde_json::Value>,
    pub error: Option<JsonRpcError>,
}

/// The envelope of a `tools/call` result.
#[derive(Debug)]
pub struct ToolCallEnvelope {
    pub is_error: bool,
    pub content: Vec<ToolContent>,
    pub structured_content: Option<JsonValue>,
}

/// The server's answer to `initialize`.
#[derive(Debug)]
pub struct InitializeResult {
    pub protocol_version: String,
    pub capabilities: serde_json::Value,
    pub server_info: Option<ImplementationInfo>,
}

/// One content block of a tool result.
#[derive(Debug, Clone, PartialEq, Eq)]
pub struct ToolContent {
    pub kind: String,
    pub text: Option<String>,
}

#[derive(Debug, Clone, PartialEq, Eq)]
pub struct ImplementationInfo {
    pub name: String,
    pub version: String,
}

#[derive(Debug, Clone, PartialEq, Eq)]
pub struct ToolSummary {
    pub name: String,
}

/// One page of the server's tool list.
#[derive(Debug, Clone, PartialEq, Eq)]
pub struct ToolListResult {
    pub tools: Vec<ToolSummary>,
    pub next_cursor: Option<String>,
}

/// The `id` of a JSON-RPC response, as far as matching it needs: a number
/// (with its value when it is an unsigned integer), a string, or anything else.
#[derive(Debug, Clone, PartialEq, Eq)]
pub enum ResponseId {
    Number(Option<u64>),
    Text(String),
    Other,
}

/// The response answers request `expected`: its id is that number, or that
/// number written as a decimal string.
pub open spec fn id_matches(id: Option<ResponseId>, expected: u64) -> bool {
    match id {
        Some(ResponseId::Number(Some(n))) => n == expected,
        Some(ResponseId::Text(text)) => text@ == decimal_text(expected as nat),
        _ => false,
    }
}

impl JsonRpcResponse {
    /// Whether this response answers request `expected`.
    pub fn has_id(&self, expected: u64) -> (matches: bool)
        ensures
            matches == id_matches(self.id, expected),
    {
        has_id(&self.id, expected)
    }
}

/// Whether a response with `id` answers request `expected`.
pub fn has_id(id: &Option<ResponseId>, expected: u64) -> (matches: bool)
    ensures
        matches == id_matches(*id, expected),
{
    match id {
        Some(ResponseId::Number(Some(n))) => *n == expected,
        Some(ResponseId::Text(text)) => {
            let mut expected_text = String::new();
            crate::text::append_decimal(&mut expected_text, expected);
            assert(expected_text@ =~= decimal_text(expected as nat));
            text_equals(text.as_str(), expected_text.as_str())
        },
        _ => false,
    }
}

} // verus!
