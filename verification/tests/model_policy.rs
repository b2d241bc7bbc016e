use arena_harness::brain::models::{
    completion_budget_exhausted, known_reasoning_support, truncate_dimension, validate_reasoning_for_model,
    DisabledBrain, ModelReasoningError, RequestFailureFacts,
};
use arena_harness::config::{ModelReasoningConfig, ReasoningEffort};

#[test]
fn known_model_reasoning_capabilities_fail_instead_of_mapping_silently() {
    let medium = ModelReasoningConfig { enabled: true, effort: ReasoningEffort::Medium, exclude: true };
    assert!(validate_reasoning_for_model("openai/gpt-oss-120b", medium).expect("GPT-OSS medium is supported"));
    assert!(validate_reasoning_for_model(
        "nvidia/nemotron-3-super-120b-a12b",
        ModelReasoningConfig { effort: ReasoningEffort::High, ..medium }
    )
    .is_err());
    assert!(validate_reasoning_for_model("openai/gpt-oss-120b", ModelReasoningConfig { enabled: false, ..medium })
        .is_err());
    assert!(!validate_reasoning_for_model("future/provider-model", medium)
        .expect("unknown models defer to required provider-parameter validation"));
}

#[test]
fn finish_reason_exposes_shared_completion_budget_exhaustion() {
    assert!(completion_budget_exhausted(&Some("length".to_owned()), &Some("MAX_TOKENS".to_owned())));
    assert!(completion_budget_exhausted(&None, &Some("Max_Output_Tokens".to_owned())));
    assert!(!completion_budget_exhausted(&Some("stop".to_owned()), &Some("STOP".to_owned())));
    assert!(!completion_budget_exhausted(&None, &None));
}

#[test]
fn timeout_failure_has_stable_private_telemetry() {
    let facts = RequestFailureFacts::timeout(5_000);
    assert_eq!(facts.error_class, "timeout");
    assert_eq!(facts.timeout_ms, Some(5_000));
    assert_eq!(facts.http_status, None);
    assert!(!facts.rate_limited);
    assert!(!facts.quota_exhausted);
}

#[test]
fn provider_quota_failure_is_classified_without_recording_its_message() {
    let facts = RequestFailureFacts::from_provider_failure(
        Some(403),
        Some("403".to_owned()),
        "Key limit exceeded (total limit)",
    );
    assert_eq!(facts.error_class, "provider_quota_exhausted");
    assert_eq!(facts.http_status, Some(403));
    assert_eq!(facts.provider_error_code.as_deref(), Some("403"));
    assert!(!facts.rate_limited);
    assert!(facts.quota_exhausted);
}

#[test]
fn provider_statuses_have_stable_classes() {
    let class = |status: Option<u16>, message: &str| RequestFailureFacts::from_provider_failure(status, None, message).error_class;
    assert_eq!(class(Some(400), ""), "provider_bad_request");
    assert_eq!(class(Some(401), ""), "provider_authentication");
    assert_eq!(class(Some(403), "forbidden"), "provider_forbidden");
    assert_eq!(class(Some(403), "INSUFFICIENT CREDITS left"), "provider_quota_exhausted");
    assert_eq!(class(Some(404), ""), "provider_model_unavailable");
    assert_eq!(class(Some(429), ""), "provider_rate_limited");
    assert!(RequestFailureFacts::from_provider_failure(Some(429), None, "").rate_limited);
    assert_eq!(class(Some(503), ""), "provider_unavailable");
    assert_eq!(class(Some(418), ""), "provider_http_error");
    assert_eq!(class(None, ""), "provider_transport_or_response");
    assert_eq!(RequestFailureFacts::unclassified().error_class, "request_or_provider");
}

#[test]
fn model_variants_share_the_support_of_their_base_model() {
    let support = known_reasoning_support("openai/gpt-oss-20b:free").expect("known");
    assert!(support.mandatory);
    assert_eq!(support.efforts, [ReasoningEffort::Low, ReasoningEffort::Medium, ReasoningEffort::High]);
    assert!(known_reasoning_support("openai/gpt-oss-120bx").is_none());
    let gemini = known_reasoning_support("google/gemini-3.1-flash-lite").expect("known");
    assert!(!gemini.mandatory);
    assert_eq!(gemini.efforts.len(), 4);
}

#[test]
fn reasoning_mismatches_name_the_model_and_supported_efforts() {
    let high = ModelReasoningConfig { enabled: true, effort: ReasoningEffort::High, exclude: true };
    let error = validate_reasoning_for_model("nvidia/nemotron-3-super-120b-a12b", high).expect_err("high unsupported");
    assert_eq!(
        error.message(),
        "model nvidia/nemotron-3-super-120b-a12b does not support reasoning effort high; supported efforts: low, medium"
    );
    let safeguard = validate_reasoning_for_model("openai/gpt-oss-safeguard-20b", high).expect_err("no efforts");
    assert!(matches!(safeguard, ModelReasoningError::NoSelectableEffort { .. }));
    let disabled = ModelReasoningConfig { enabled: false, ..high };
    assert!(validate_reasoning_for_model("google/gemini-3.1-flash-lite", disabled).expect("optional reasoning"));
    assert_eq!(
        validate_reasoning_for_model("openai/gpt-oss-120b", disabled).expect_err("mandatory").message(),
        "model openai/gpt-oss-120b requires reasoning; enable it with the role-specific reasoning configuration"
    );
}

#[test]
fn dimensions_are_cut_to_forty_characters() {
    assert_eq!(truncate_dimension("short"), "short");
    let long = "é".repeat(50);
    assert_eq!(truncate_dimension(&long).chars().count(), 40);
    assert_eq!(DisabledBrain.refusal(), "brain is disabled during the Phase 1 runtime skeleton");
}
