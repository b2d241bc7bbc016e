use arena_harness::brain::models::{
    generation_retry_delay, model_call_terminal, reasoning_additional_params, ModelCallEnd, ModelCallTerminal,
    ModelCallTerminalGuard, RequestFailureFacts,
};
use arena_harness::config::{ModelReasoningConfig, ReasoningEffort};
use arena_harness::json::{sanitize_schema, JsonValue};
use serde_json::Value;

/// A parsed JSON document as the library's plain JSON value.
fn from_serde(value: &Value) -> JsonValue {
    match value {
        Value::Null => JsonValue::Null,
        Value::Bool(b) => JsonValue::Bool(*b),
        Value::Number(n) => JsonValue::Number(n.to_string()),
        Value::String(s) => JsonValue::Text(s.clone()),
        Value::Array(items) => JsonValue::Array(items.iter().map(from_serde).collect()),
        Value::Object(members) => {
            JsonValue::Object(members.iter().map(|(k, v)| (k.clone(), from_serde(v))).collect())
        }
    }
}

fn get<'a>(value: &'a JsonValue, key: &str) -> Option<&'a JsonValue> {
    match value {
        JsonValue::Object(members) => members.iter().find(|(k, _)| k == key).map(|(_, v)| v),
        _ => None,
    }
}

fn text(value: Option<&JsonValue>) -> Option<&str> {
    match value {
        Some(JsonValue::Text(t)) => Some(t.as_str()),
        _ => None,
    }
}

fn number(value: Option<&JsonValue>) -> Option<&str> {
    match value {
        Some(JsonValue::Number(n)) => Some(n.as_str()),
        _ => None,
    }
}

fn flag(value: Option<&JsonValue>) -> Option<bool> {
    match value {
        Some(JsonValue::Bool(b)) => Some(*b),
        _ => None,
    }
}

#[test]
fn provider_schema_removes_non_string_formats_but_preserves_constraints() {
    let generated: Value = serde_json::from_str(
        r##"{
            "$schema": "https://json-schema.org/draft/2020-12/schema",
            "title": "TacticalProposal",
            "type": "object",
            "properties": {
                "intent": {"type": "string"},
                "valid_for_ms": {"type": "integer", "format": "uint64", "minimum": 100, "maximum": 5000},
                "expires_at": {"type": ["string", "null"], "format": "date-time"},
                "actions": {"type": "array", "maxItems": 4, "items": {"$ref": "#/$defs/TacticalAction"}}
            },
            "required": ["intent", "valid_for_ms"],
            "additionalProperties": false,
            "$defs": {
                "TacticalAction": {"type": "object", "properties": {"count": {"type": "integer", "format": "uint32"}}}
            }
        }"##,
    )
    .expect("schema JSON");
    let value = sanitize_schema(&from_serde(&generated));
    let properties = get(&value, "properties");
    let valid_for_ms = properties.and_then(|p| get(p, "valid_for_ms")).expect("valid_for_ms");

    assert_eq!(text(get(valid_for_ms, "type")), Some("integer"));
    assert!(get(valid_for_ms, "format").is_none());
    assert_eq!(number(get(valid_for_ms, "minimum")), Some("100"));
    assert_eq!(number(get(valid_for_ms, "maximum")), Some("5000"));
    assert_eq!(flag(get(&value, "additionalProperties")), Some(false));

    let expires_at = properties.and_then(|p| get(p, "expires_at")).expect("expires_at");
    assert_eq!(text(get(expires_at, "format")), Some("date-time"));
    let nested = get(&value, "$defs")
        .and_then(|d| get(d, "TacticalAction"))
        .and_then(|a| get(a, "properties"))
        .and_then(|p| get(p, "count"))
        .expect("nested count");
    assert!(get(nested, "format").is_none());
    assert_eq!(number(properties.and_then(|p| get(p, "actions")).and_then(|a| get(a, "maxItems"))), Some("4"));
}

#[test]
fn reasoning_parameters_use_rig_additional_parameter_shape_without_content_capture() {
    let params = reasoning_additional_params(
        ModelReasoningConfig { enabled: true, effort: ReasoningEffort::Medium, exclude: true },
        Some("guy-strategist"),
    );
    let reasoning = get(&params, "reasoning").expect("reasoning");

    assert_eq!(text(get(reasoning, "effort")), Some("medium"));
    assert_eq!(flag(get(reasoning, "exclude")), Some(true));
    assert!(get(reasoning, "enabled").is_none());
    assert_eq!(flag(get(get(&params, "provider").expect("provider"), "require_parameters")), Some(true));
    assert_eq!(text(get(&params, "session_id")), Some("guy-strategist"));
    assert!(!format!("{params:?}").contains("reasoning_details"));
}

#[test]
fn disabled_reasoning_is_explicit_for_latency_oriented_brains() {
    let params = reasoning_additional_params(
        ModelReasoningConfig { enabled: false, effort: ReasoningEffort::Minimal, exclude: true },
        None,
    );
    let reasoning = get(&params, "reasoning").expect("reasoning");

    assert_eq!(flag(get(reasoning, "enabled")), Some(false));
    assert_eq!(flag(get(reasoning, "exclude")), Some(true));
    assert!(get(reasoning, "effort").is_none());
    assert!(get(&params, "session_id").is_none());
}

#[test]
fn cancelled_model_call_records_one_terminal_failure() {
    let guard = ModelCallTerminalGuard::new();
    let record = guard.release();

    assert_eq!(
        record,
        Some(ModelCallTerminal::Failed {
            error_class: "cancelled",
            memory_operation: None,
            timeout_ms: None,
            response_received: false,
            usage_accounted: false,
        })
    );
    let mut finished = ModelCallTerminalGuard::new();
    finished.mark_terminal_recorded();
    assert_eq!(finished.release(), None);
}

#[test]
fn each_ending_of_a_model_call_has_its_terminal_record() {
    assert_eq!(model_call_terminal(&ModelCallEnd::Completed), ModelCallTerminal::Completed);
    assert_eq!(
        model_call_terminal(&ModelCallEnd::OutputParseFailed),
        ModelCallTerminal::Failed {
            error_class: "output_parse",
            memory_operation: None,
            timeout_ms: None,
            response_received: true,
            usage_accounted: true,
        }
    );
    assert_eq!(
        model_call_terminal(&ModelCallEnd::MemoryAppendFailed),
        ModelCallTerminal::Failed {
            error_class: "conversation_memory",
            memory_operation: Some("append"),
            timeout_ms: None,
            response_received: true,
            usage_accounted: true,
        }
    );
    assert_eq!(
        model_call_terminal(&ModelCallEnd::TimedOut { timeout_ms: 45_000 }),
        ModelCallTerminal::Failed {
            error_class: "timeout",
            memory_operation: None,
            timeout_ms: Some(45_000),
            response_received: false,
            usage_accounted: false,
        }
    );
    let facts = RequestFailureFacts::timeout(10);
    assert!(matches!(
        model_call_terminal(&ModelCallEnd::RequestFailed(facts)),
        ModelCallTerminal::Failed { error_class: "timeout", response_received: false, .. }
    ));
    assert!(matches!(
        model_call_terminal(&ModelCallEnd::HistoryLoadFailed),
        ModelCallTerminal::Failed { memory_operation: Some("load"), response_received: false, .. }
    ));
}

#[test]
fn generation_accounting_is_retried_six_times_with_growing_pauses() {
    let delays: Vec<_> = (1..=7).map(generation_retry_delay).collect();
    assert_eq!(
        delays,
        [Some(250), Some(750), Some(2_000), Some(5_000), Some(10_000), Some(30_000), None]
    );
    assert_eq!(generation_retry_delay(0), None);
}

use arena_harness::brain::models::{parse_model_output, safe_output_shape, ModelOutputError, ShapeValue};

#[test]
fn missing_text_has_a_stable_private_parse_failure() {
    let error = parse_model_output(None).expect_err("missing text must be rejected");

    assert_eq!(error.class(), "missing_text");
    assert!(error.json_diagnostics().is_none());
    assert_eq!(error, ModelOutputError::MissingText);
    assert_eq!(error.schema_error_kind(), "missing_text");
}

#[test]
fn accepts_one_json_document_and_rejects_wrappers() {
    let plain = parse_model_output(Some(r#"{"intent":"stop"}"#)).expect("plain JSON");
    assert_eq!(to_serde(plain)["intent"], "stop");
    assert!(parse_model_output(Some("```json\n{\"intent\":\"stop\"}\n```")).is_err());

    let encoded_object = r#""{\"intent\":\"stop\"}""#;
    let encoded = parse_model_output(Some(encoded_object)).expect("a JSON string");
    assert!(matches!(encoded, JsonValue::Text(_)), "an encoded object is a string, never a proposal object");
}

#[test]
fn invalid_output_is_classified_without_its_text() {
    let private_raw_output = "not-json PRIVATE_MODEL_OUTPUT_MUST_NOT_LEAK";
    let error = parse_model_output(Some(private_raw_output)).expect_err("invalid output must fail");
    assert_eq!(error.class(), "invalid_json");
    let (category, line, _column) = error.json_diagnostics().expect("diagnostics");
    assert_eq!(category, "syntax");
    assert_eq!(line, 1);
    assert_eq!(error.schema_error_kind(), "json_syntax");

    let shape = safe_output_shape(&Some(None));
    assert_eq!(shape.len(), 1);
    assert_eq!(shape[0].name, "untyped_json_valid");
    assert!(!format!("{shape:?}").contains("PRIVATE_MODEL_OUTPUT_MUST_NOT_LEAK"));
}

#[test]
fn output_shape_records_kinds_counts_and_short_labels_only() {
    assert!(safe_output_shape(&None).is_empty());
    let output: Value = serde_json::from_str(
        r#"{"intent":"attack the very long named spider queen of the northern caves","actions":[{"type":"basic_attack"},{"type":"move"},{"x":1},{"type":"a"},{"type":"b"},{"type":"c"},{"type":"d"}],"valid_for_ms":900,"rationale":"secret reasoning"}"#,
    )
    .expect("output JSON");
    let shape = safe_output_shape(&Some(Some(from_serde(&output))));
    let fact = |name: &str| shape.iter().find(|f| f.name == name).map(|f| f.value.clone());

    assert_eq!(fact("untyped_json_valid"), Some(ShapeValue::Flag(true)));
    assert_eq!(fact("root_json_kind"), Some(ShapeValue::Text("object".to_owned())));
    assert_eq!(fact("root_field_count"), Some(ShapeValue::Count(4)));
    assert_eq!(fact("intent_json_kind"), Some(ShapeValue::Text("string".to_owned())));
    assert_eq!(fact("valid_for_ms_json_kind"), Some(ShapeValue::Text("number".to_owned())));
    assert_eq!(fact("speech_json_kind"), Some(ShapeValue::Text("missing".to_owned())));
    assert_eq!(fact("intent_value"), Some(ShapeValue::Text("attack the very long named spider queen ".to_owned())));
    assert_eq!(fact("actions_count"), Some(ShapeValue::Count(7)));
    assert_eq!(fact("action_type_values"), Some(ShapeValue::Text("basic_attack,move,a,b,c".to_owned())));
    assert_eq!(shape.len(), 2 + 1 + 15 + 1 + 2);
    assert!(!format!("{shape:?}").contains("secret reasoning"));

    let list: Value = serde_json::from_str("[1,2]").expect("list");
    let shape = safe_output_shape(&Some(Some(from_serde(&list))));
    assert_eq!(shape.len(), 2);
    assert_eq!(shape[1].value, ShapeValue::Text("array".to_owned()));
}

fn to_serde(value: JsonValue) -> Value {
    match value {
        JsonValue::Null => Value::Null,
        JsonValue::Bool(b) => Value::Bool(b),
        JsonValue::Number(text) => serde_json::from_str(&text).expect("number text"),
        JsonValue::Text(t) => Value::String(t),
        JsonValue::Array(items) => Value::Array(items.into_iter().map(to_serde).collect()),
        JsonValue::Object(members) => Value::Object(members.into_iter().map(|(k, v)| (k, to_serde(v))).collect()),
    }
}

use arena_harness::json::push_json_text;

#[test]
fn provider_failures_read_code_and_quota_wording_from_the_body() {
    let body = from_serde(&parse(r#"{"error": {"code": "limit", "message": "Key limit EXCEEDED today"}}"#));
    let facts = RequestFailureFacts::from_provider_response(Some(403), Some(&body));
    assert_eq!(facts.error_class, "provider_quota_exhausted");
    assert_eq!(facts.provider_error_code.as_deref(), Some("limit"));
    assert!(facts.quota_exhausted);
    assert!(!facts.rate_limited);

    let numeric = from_serde(&parse(r#"{"error": {"code": 429, "message": "slow down"}}"#));
    let facts = RequestFailureFacts::from_provider_response(Some(429), Some(&numeric));
    assert_eq!(facts.error_class, "provider_rate_limited");
    assert_eq!(facts.provider_error_code.as_deref(), Some("429"));
    assert!(facts.rate_limited);
    assert!(!facts.quota_exhausted);

    let facts = RequestFailureFacts::from_provider_response(None, None);
    assert_eq!(facts.error_class, "provider_transport_or_response");
    assert_eq!(facts.provider_error_code, None);
}

#[test]
fn json_text_is_written_as_serde_json_writes_it() {
    let value = parse(r#"{"a": [1, true, null, "q\"\\\n\u0001é\u007f"], "b": {"c": -2.5, "d": {}}}"#);
    let mut text = String::new();
    push_json_text(&mut text, &from_serde(&value));
    assert_eq!(text, serde_json::to_string(&value).expect("serialize"));
}

fn parse(text: &str) -> Value {
    serde_json::from_str(text).expect("test JSON")
}
