use arena_harness::mcp::protocol::{JsonRpcError, JsonRpcResponse, ResponseId, ToolCallEnvelope, ToolContent};
use arena_harness::mcp::transport::{
    decode_tool_result, invalid_envelope, is_event_stream, parse_matching_response, response_value,
    stream_closed_error, try_sse_value, McpError, SseReader,
};
use arena_harness::json::JsonValue;
use serde_json::Value;

fn plain(value: Value) -> JsonValue {
    match value {
        Value::Null => JsonValue::Null,
        Value::Bool(b) => JsonValue::Bool(b),
        Value::Number(n) => JsonValue::Number(n.to_string()),
        Value::String(t) => JsonValue::Text(t),
        Value::Array(items) => JsonValue::Array(items.into_iter().map(plain).collect()),
        Value::Object(members) => JsonValue::Object(members.into_iter().map(|(k, v)| (k, plain(v))).collect()),
    }
}

fn to_serde(value: JsonValue) -> Value {
    match value {
        JsonValue::Null => Value::Null,
        JsonValue::Bool(b) => Value::Bool(b),
        JsonValue::Number(text) => serde_json::from_str(&text).expect("number text"),
        JsonValue::Text(t) => Value::String(t),
        JsonValue::Array(items) => Value::Array(items.into_iter().map(to_serde).collect()),
        JsonValue::Object(members) => Value::Object(members.into_iter().map(|(k, v)| (k, to_serde(v))).collect()),
    }
}

fn json(text: &str) -> Value {
    serde_json::from_str(text).expect("test JSON")
}

fn text_envelope(text: &str) -> ToolCallEnvelope {
    ToolCallEnvelope {
        is_error: false,
        content: vec![ToolContent { kind: "text".to_owned(), text: Some(text.to_owned()) }],
        structured_content: None,
    }
}

/// A JSON-RPC response as the library reads it, from a parsed document.
fn response_of(value: &Value) -> Option<JsonRpcResponse> {
    let object = value.as_object()?;
    let id = object.get("id").map(|id| match id {
        Value::Number(n) => ResponseId::Number(n.as_u64()),
        Value::String(s) => ResponseId::Text(s.clone()),
        _ => ResponseId::Other,
    });
    let error = match object.get("error") {
        Some(e) => Some(JsonRpcError {
            code: e.get("code")?.as_i64()?,
            message: e.get("message")?.as_str()?.to_owned(),
            data: e.get("data").cloned(),
        }),
        None => None,
    };
    Some(JsonRpcResponse { id, result: object.get("result").cloned(), error })
}

fn read_sse(chunks: &[&[u8]], request_id: u64) -> Result<Value, McpError> {
    let mut reader = SseReader::new();
    for chunk in chunks {
        reader.push_chunk(chunk);
        while let Some(payload) = reader.next_payload() {
            let response = serde_json::from_str::<Value>(&payload).ok().and_then(|value| response_of(&value));
            if let Some(value) = try_sse_value(response, request_id)? {
                return Ok(value);
            }
        }
    }
    Err(stream_closed_error())
}

#[test]
fn decodes_text_and_structured_tool_results() {
    let text = text_envelope("{\"moved\":true}");
    assert_eq!(to_serde(decode_tool_result("move", text).expect("text"))["moved"], true);

    let structured =
        ToolCallEnvelope { is_error: false, content: Vec::new(), structured_content: Some(plain(json("{\"moved\":true}"))) };
    assert_eq!(to_serde(decode_tool_result("move", structured).expect("structured"))["moved"], true);

    let plain_text = text_envelope("Movement started.");
    assert_eq!(to_serde(decode_tool_result("move", plain_text).expect("plain text"))["message"], "Movement started.");
}

#[test]
fn tool_results_without_a_body_or_with_broken_json_are_protocol_errors() {
    let empty = ToolCallEnvelope {
        is_error: false,
        content: vec![ToolContent { kind: "image".to_owned(), text: Some("x".to_owned()) }],
        structured_content: None,
    };
    assert_eq!(
        decode_tool_result("look", empty).unwrap_err(),
        McpError::Protocol { message: "tool look returned no text or structured content".to_owned() }
    );
    let broken = decode_tool_result("look", text_envelope("  {\"moved\":")).unwrap_err();
    match broken {
        McpError::Protocol { message } => assert!(message.starts_with("tool look returned invalid JSON text: ")),
        other => panic!("expected a protocol error, got {other:?}"),
    }
    let failed = ToolCallEnvelope { is_error: true, ..text_envelope("plain failure") };
    assert_eq!(
        decode_tool_result("look", failed).unwrap_err(),
        McpError::Tool { tool: "look".to_owned(), message: "plain failure".to_owned() }
    );
    assert_eq!(
        invalid_envelope("bad").message(),
        "MCP protocol error: tools/call returned an invalid envelope: bad"
    );
}

#[test]
fn sse_ignores_notifications_and_joins_split_data_lines() {
    let value = read_sse(
        &[
            b"data: {\"jsonrpc\":\"2.0\",\"method\":\"note\"}\n\n",
            b"data: {\"jsonrpc\":\"2.0\",\"id\":7,\n",
            b"data: \"result\":{\"ok\":true}}\n\n",
        ],
        7,
    )
    .expect("matching event");
    assert_eq!(value["ok"], true);
}

#[test]
fn sse_returns_without_waiting_for_stream_closure() {
    let mut reader = SseReader::new();
    reader.push_chunk(b"data: {\"jsonrpc\":\"2.0\",\"id\":3,\"result\":{\"ok\":true}}\n\n");
    let payload = reader.next_payload().expect("payload");
    let value = try_sse_value(response_of(&json(&payload)), 3).expect("ok").expect("matching result");
    assert_eq!(value["ok"], true);
}

#[test]
fn sse_framing_handles_carriage_returns_comments_and_partial_lines() {
    let mut reader = SseReader::new();
    reader.push_chunk(b": keep-alive\r\nevent: message\r\ndata:  {\"a\":\r\r\n");
    assert_eq!(reader.next_payload().as_deref(), Some("{\"a\":"));
    reader.push_chunk(b"data: 1}");
    assert_eq!(reader.next_payload(), None);
    reader.push_chunk(b"\n");
    assert_eq!(reader.next_payload().as_deref(), Some("{\"a\":\n1}"));
    reader.push_chunk(b"\ndata: x\n");
    assert_eq!(reader.next_payload().as_deref(), Some("x"));
    assert_eq!(read_sse(&[b"data: {\"id\":9,\"result\":1}\n\n"], 8), Err(stream_closed_error()));
}

#[test]
fn responses_yield_their_error_their_result_or_a_protocol_error() {
    let error = response_of(&json("{\"id\":4,\"error\":{\"code\":-32601,\"message\":\"no such method\"}}")).unwrap();
    assert_eq!(
        parse_matching_response(error, 4),
        Err(McpError::JsonRpc { code: -32601, message: "no such method".to_owned() })
    );
    let other = response_of(&json("{\"id\":\"5\",\"result\":{}}")).unwrap();
    assert_eq!(
        parse_matching_response(other, 4),
        Err(McpError::Protocol { message: "response did not match request id 4".to_owned() })
    );
    let text_id = response_of(&json("{\"id\":\"4\",\"result\":{\"x\":2}}")).unwrap();
    assert_eq!(parse_matching_response(text_id, 4).unwrap()["x"], 2);
    let empty = response_of(&json("{\"id\":4}")).unwrap();
    assert_eq!(
        response_value(empty),
        Err(McpError::Protocol { message: "JSON-RPC response contained neither result nor error".to_owned() })
    );
    assert!(is_event_stream(Some("text/event-stream; charset=utf-8")));
    assert!(!is_event_stream(Some("application/json")));
    assert!(!is_event_stream(None));
}

use arena_harness::mcp::observation::player_id_from_json;
use arena_harness::text::{parse_i64, IntParseError};

#[test]
fn player_id_accepts_current_backend_string_representation() {
    assert_eq!(player_id_from_json(&Some(JsonValue::Text("2080".to_owned()))), Ok(Some(2_080)));
    assert_eq!(player_id_from_json(&Some(JsonValue::Number("2080".to_owned()))), Ok(Some(2_080)));
    assert_eq!(player_id_from_json(&None), Ok(None));
    assert_eq!(player_id_from_json(&Some(JsonValue::Null)), Ok(None));
    assert_eq!(
        player_id_from_json(&Some(JsonValue::Number("2.5".to_owned()))),
        Err("player id is outside the signed integer range".to_owned())
    );
    assert_eq!(
        player_id_from_json(&Some(JsonValue::Text("20x".to_owned()))),
        Err("invalid digit found in string".to_owned())
    );
    assert_eq!(
        player_id_from_json(&Some(JsonValue::Bool(true))),
        Err("player id must be an integer or integer string".to_owned())
    );
}

#[test]
fn signed_integers_parse_as_the_standard_library_does() {
    for text in ["0", "-0", "+17", "-9223372036854775808", "9223372036854775807", "", "-", "+", "1-", "99999999999999999999x", "-9223372036854775809", "ab"] {
        let expected = text.parse::<i64>().map_err(|e| e.to_string());
        let actual = parse_i64(text).map_err(|e| e.message().to_owned());
        assert_eq!(actual, expected, "parsing {text:?}");
    }
    assert_eq!(parse_i64(""), Err(IntParseError::Empty));
    assert_eq!(parse_i64("-9223372036854775809"), Err(IntParseError::NegOverflow));
}
