use arena_harness::character::Capability;
use arena_harness::mcp::protocol::{has_id, ResponseId, ToolCallEnvelope, ToolContent};
use arena_harness::mcp::tools::{expected_production_tools, required_capability};
use arena_harness::mcp::transport::{decode_tool_result, tool_error_message, McpError};
use arena_harness::mcp::types::{ChatChannel, MelodyInstrument, TacticsMode, TacticsStyle};

#[test]
fn classifies_the_production_invalid_http_session_response_as_session_loss() {
    let error = McpError::HttpStatus { status: 400, message: "Invalid or missing MCP session ID.".to_owned() };
    assert!(error.is_session_loss());
    assert!(!McpError::HttpStatus { status: 400, message: "ordinary invalid tool arguments".to_owned() }
        .is_session_loss());
}

#[test]
fn preserves_backend_error_code_for_session_loss_classification() {
    let envelope = ToolCallEnvelope {
        is_error: true,
        content: vec![ToolContent {
            kind: "text".to_owned(),
            text: Some("{\"error\":\"AGENT_NOT_CONNECTED\",\"message\":\"gone\"}".to_owned()),
        }],
        structured_content: None,
    };
    let error = decode_tool_result("arena_observe", envelope).expect_err("tool error");
    assert!(error.is_session_loss());
    assert!(error.message().contains("AGENT_NOT_CONNECTED"));
    assert_eq!(tool_error_message(Some("AGENT_NOT_CONNECTED"), Some("gone")), "AGENT_NOT_CONNECTED: gone");
}

#[test]
fn errors_have_stable_classes_and_texts() {
    assert_eq!(McpError::Timeout { timeout_ms: 30 }.message(), "MCP request timed out after 30 ms");
    assert_eq!(McpError::Timeout { timeout_ms: 30 }.class(), "timeout");
    assert_eq!(
        McpError::JsonRpc { code: -32601, message: "no such method".into() }.message(),
        "MCP JSON-RPC error -32601: no such method"
    );
    assert_eq!(McpError::HttpStatus { status: 404, message: "".into() }.class(), "http_status");
    assert!(McpError::HttpStatus { status: 404, message: "".into() }.is_session_loss());
    assert!(!McpError::Protocol { message: "bad".into() }.is_session_loss());
    assert_eq!(McpError::Tool { tool: "t".into(), message: "m".into() }.message(), "MCP tool t failed: m");
}

#[test]
fn tool_error_text_combines_code_and_message() {
    assert_eq!(tool_error_message(Some("E"), Some("E")), "E");
    assert_eq!(tool_error_message(Some("E"), None), "E");
    assert_eq!(tool_error_message(None, Some("m")), "m");
    assert_eq!(tool_error_message(None, None), "tool returned an error");
}

#[test]
fn tools_need_their_capabilities() {
    assert_eq!(required_capability("arena_say"), Some(Capability::Speak));
    assert_eq!(required_capability("arena_think"), Some(Capability::Purpose));
    assert_eq!(required_capability("arena_party_leave"), Some(Capability::TalkToFolk));
    assert_eq!(required_capability("arena_unstick"), Some(Capability::Walk));
    assert_eq!(required_capability("arena_enter_door"), Some(Capability::Doors));
    assert_eq!(required_capability("arena_set_tactics"), Some(Capability::Fight));
    assert_eq!(required_capability("arena_match_status"), Some(Capability::Duel));
    assert_eq!(required_capability("arena_credit_history"), Some(Capability::Money));
    assert_eq!(required_capability("arena_pick_up"), Some(Capability::Trade));
    assert_eq!(required_capability("arena_observe"), None);
    assert_eq!(required_capability("unknown"), None);
    assert_eq!(expected_production_tools().len(), 38);
}

#[test]
fn response_ids_match_as_number_or_decimal_text() {
    assert!(has_id(&Some(ResponseId::Number(Some(7))), 7));
    assert!(has_id(&Some(ResponseId::Text("7".into())), 7));
    assert!(!has_id(&Some(ResponseId::Text("07".into())), 7));
    assert!(!has_id(&Some(ResponseId::Number(None)), 7));
    assert!(!has_id(&None, 7));
}

#[test]
fn typed_arguments_use_the_contract_names() {
    assert_eq!(ChatChannel::Private.as_str(), "private");
    assert_eq!(MelodyInstrument::Horn.as_str(), "horn");
    assert_eq!(TacticsStyle::DuckAndWeave.as_str(), "duck_and_weave");
    assert_eq!(TacticsMode::SemiAuto.as_str(), "semi_auto");
}
