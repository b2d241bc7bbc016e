use arena_harness::config::{
    ConfigCore, ConfigError, FloatSettingFindings, LiveActionBudget, ModelReasoningConfig, ReasoningEffort,
    TacticalRolloutMode,
};

fn env(pairs: &[(&str, &str)]) -> Vec<(String, String)> {
    pairs.iter().map(|(k, v)| (k.to_string(), v.to_string())).collect()
}

fn accepted_floats() -> FloatSettingFindings {
    FloatSettingFindings {
        tactical_max_hz: None,
        idle_tactical_hz: None,
        tactician_temperature: None,
        strategist_temperature: None,
        local_rag_minimum_score: None,
        run_max_openrouter_cost_usd: None,
    }
}

fn load(pairs: &[(&str, &str)]) -> Result<ConfigCore, ConfigError> {
    ConfigCore::from_lookup(&env(pairs), &accepted_floats())
}

fn invalid_name(error: ConfigError) -> &'static str {
    match error {
        ConfigError::InvalidValue { name, .. } => name,
        other => panic!("expected an invalid value, got {other:?}"),
    }
}

#[test]
fn loads_defaults_and_legacy_strategist_model() {
    let config = load(&[("ARENA_API_KEY", "arena"), ("OPENROUTER_API_KEY", "router"), ("NPC_MODEL", "legacy/model")])
        .expect("valid configuration");

    assert_eq!(config.character, "guy");
    assert_eq!(config.character_sheet_path, None);
    assert_eq!(config.strategist_model, "legacy/model");
    assert_eq!(config.tactician_model, "google/gemini-3.1-flash-lite");
    assert_eq!(config.live_action_budget, LiveActionBudget::Limited(0));
    assert_eq!(config.live_max_actions_per_packet, 1);
    assert_eq!(config.live_packet_max_age_ms, 1_000);
    assert_eq!(config.live_expected_character_id, None);
    assert_eq!(config.perception_inventory_every_cycles, 10);
    assert_eq!(config.tactician_request_timeout_ms, 5_000);
    assert_eq!(config.strategist_request_timeout_ms, 60_000);
    assert_eq!(config.strategist_memory_max_tokens, 8_000);
    assert_eq!(config.strategist_max_output_tokens, 4_000);
    assert_eq!(
        config.strategist_reasoning,
        ModelReasoningConfig { enabled: true, effort: ReasoningEffort::Medium, exclude: true }
    );
    assert_eq!(
        config.tactician_reasoning,
        ModelReasoningConfig { enabled: false, effort: ReasoningEffort::Minimal, exclude: true }
    );
    assert!(config.prompt_caching_enabled);
    assert_eq!(config.local_input_capture, None);
    assert!(config.local_rag_enabled);
}

#[test]
fn selects_an_external_character_sheet_and_character_specific_memory_default() {
    let config = load(&[
        ("ARENA_API_KEY", "arena"),
        ("NPC_CHARACTER", "ORIN"),
        ("NPC_CHARACTER_SHEET_PATH", "/run/characters/orin.json"),
    ])
    .expect("external character configuration");

    assert_eq!(config.character, "orin");
    assert_eq!(config.character_sheet_path.as_deref(), Some("/run/characters/orin.json"));
    assert_eq!(config.memory_path, "./var/orin.sqlite");
}

#[test]
fn rejects_zero_inventory_refresh_cadence() {
    let error = load(&[("ARENA_API_KEY", "arena"), ("NPC_PERCEPTION_INVENTORY_EVERY_CYCLES", "0")])
        .err()
        .expect("zero cadence should be rejected");
    assert_eq!(invalid_name(error), "NPC_PERCEPTION_INVENTORY_EVERY_CYCLES");
}

#[test]
fn rejects_zero_model_request_timeout() {
    let error = load(&[("ARENA_API_KEY", "arena"), ("NPC_TACTICIAN_TIMEOUT_MS", "0")])
        .err()
        .expect("zero timeout should be rejected");
    assert_eq!(invalid_name(error), "NPC_TACTICIAN_TIMEOUT_MS");
}

#[test]
fn rejects_unknown_reasoning_effort() {
    let error = load(&[("ARENA_API_KEY", "arena"), ("NPC_STRATEGIST_REASONING_EFFORT", "heroic")])
        .err()
        .expect("unknown reasoning effort must fail");
    assert_eq!(invalid_name(error), "NPC_STRATEGIST_REASONING_EFFORT");
}

#[test]
fn rejects_reasoning_budget_that_cannot_hold_thinking_and_output() {
    let error = load(&[
        ("ARENA_API_KEY", "arena"),
        ("NPC_STRATEGIST_REASONING_ENABLED", "true"),
        ("NPC_STRATEGIST_REASONING_EFFORT", "high"),
        ("NPC_STRATEGIST_MAX_OUTPUT_TOKENS", "3999"),
    ])
    .err()
    .expect("undersized shared completion budget must fail");
    match error {
        ConfigError::InvalidValue { name, value, .. } => {
            assert_eq!(name, "NPC_STRATEGIST_MAX_OUTPUT_TOKENS");
            assert_eq!(value, "3999 (minimum 4000 for high reasoning)");
        }
        other => panic!("unexpected {other:?}"),
    }
}

#[test]
fn permits_explicit_minimal_tactical_reasoning_with_a_bounded_budget() {
    let config = load(&[
        ("ARENA_API_KEY", "arena"),
        ("NPC_TACTICIAN_REASONING_ENABLED", "true"),
        ("NPC_TACTICIAN_REASONING_EFFORT", "minimal"),
        ("NPC_TACTICIAN_REASONING_EXCLUDE", "false"),
        ("NPC_TACTICIAN_MAX_OUTPUT_TOKENS", "512"),
    ])
    .expect("valid tactical reasoning configuration");
    assert_eq!(
        config.tactician_reasoning,
        ModelReasoningConfig { enabled: true, effort: ReasoningEffort::Minimal, exclude: false }
    );
}

#[test]
fn local_model_input_capture_is_default_off_and_explicitly_located() {
    let config = load(&[("ARENA_API_KEY", "arena")]).expect("default configuration");
    assert_eq!(config.local_input_capture, None);

    let config = load(&[
        ("ARENA_API_KEY", "arena"),
        ("NPC_LOCAL_MODEL_INPUT_CAPTURE_ENABLED", "true"),
        ("NPC_LOCAL_MODEL_INPUT_CAPTURE_PATH", "/tmp/private-model-inputs"),
    ])
    .expect("explicit capture configuration");
    assert_eq!(config.local_input_capture.as_deref(), Some("/tmp/private-model-inputs"));

    let config = load(&[("ARENA_API_KEY", "arena"), ("NPC_LOCAL_MODEL_INPUT_CAPTURE_ENABLED", "true")])
        .expect("default capture location");
    assert_eq!(config.local_input_capture.as_deref(), Some("./var/model-input-captures"));
}

#[test]
fn permits_disabling_idle_tactical_inference() {
    let config = load(&[("ARENA_API_KEY", "arena"), ("NPC_IDLE_TACTICAL_HZ", "0"), ("NPC_RUN_DURATION_SECONDS", "20")])
        .expect("valid bounded quiet runtime");
    assert_eq!(config.run_duration_seconds, Some(20));
}

#[test]
fn permits_mcp_only_runtime_without_model_credentials() {
    let config = load(&[("ARENA_API_KEY", "arena")]).expect("MCP configuration");
    assert_eq!(config.openrouter_api_key, None);
    assert!(matches!(config.openrouter_api_key(), Err(ConfigError::Missing("OPENROUTER_API_KEY"))));
}

#[test]
fn loads_explicit_live_mutation_safety_facts() {
    let config = load(&[
        ("ARENA_API_KEY", "arena"),
        ("NPC_LIVE_ACTION_BUDGET", "2"),
        ("NPC_LIVE_MAX_ACTIONS_PER_PACKET", "1"),
        ("NPC_LIVE_PACKET_MAX_AGE_MS", "750"),
        ("NPC_LIVE_EXPECTED_CHARACTER_ID", "guy"),
        ("NPC_LIVE_EXPECTED_PLAYER_NAME", "Guy Diagnostic"),
        ("NPC_LIVE_ALLOWED_SCENE", "combat-test"),
    ])
    .expect("live safety config");
    assert_eq!(config.live_action_budget, LiveActionBudget::Limited(2));
    assert_eq!(config.live_packet_max_age_ms, 750);
    assert_eq!(config.live_expected_player_name.as_deref(), Some("Guy Diagnostic"));
    assert_eq!(config.live_allowed_scene.as_deref(), Some("combat-test"));
}

#[test]
fn persistent_action_budget_requires_the_explicit_unlimited_literal() {
    let config = load(&[("ARENA_API_KEY", "arena"), ("NPC_LIVE_ACTION_BUDGET", "unlimited")]).expect("persistent budget");
    assert_eq!(config.live_action_budget, LiveActionBudget::Unlimited);

    let error = load(&[("ARENA_API_KEY", "arena"), ("NPC_LIVE_ACTION_BUDGET", "infinite")])
        .err()
        .expect("misspelled budget");
    assert_eq!(invalid_name(error), "NPC_LIVE_ACTION_BUDGET");
}

#[test]
fn a_missing_or_blank_arena_key_is_reported_first() {
    assert!(matches!(load(&[]), Err(ConfigError::Missing("ARENA_API_KEY"))));
    let error = load(&[("ARENA_API_KEY", "  "), ("NPC_TACTICIAN_TIMEOUT_MS", "0")]).err().expect("missing key");
    assert_eq!(error.message(), "required environment variable ARENA_API_KEY is not set");
}

#[test]
fn float_findings_are_reported_in_reading_order() {
    let mut floats = accepted_floats();
    floats.local_rag_minimum_score = Some(ConfigError::InvalidValue {
        name: "NPC_LOCAL_RAG_MINIMUM_SCORE",
        kind: "finite floating-point number between 0 and 1",
        value: "1.01".into(),
    });
    let env = env(&[("ARENA_API_KEY", "arena"), ("ARENA_MCP_TIMEOUT_MS", "0")]);
    let error = ConfigCore::from_lookup(&env, &floats).err().expect("score refused");
    assert_eq!(invalid_name(error), "NPC_LOCAL_RAG_MINIMUM_SCORE");

    floats.local_rag_minimum_score = None;
    floats.tactical_max_hz = Some(ConfigError::InvalidRate { name: "NPC_TACTICAL_MAX_HZ", value: "0".into() });
    let error = ConfigCore::from_lookup(&env, &floats).err().expect("rate refused");
    assert!(matches!(error, ConfigError::InvalidRate { name: "NPC_TACTICAL_MAX_HZ", .. }));
}

#[test]
fn full_rollout_needs_live_mutation_and_numerals_are_strict() {
    let error = load(&[("ARENA_API_KEY", "arena"), ("NPC_TACTICAL_ROLLOUT_MODE", "full")]).err().expect("unsafe");
    match error {
        ConfigError::InvalidValue { name, value, .. } => {
            assert_eq!(name, "NPC_TACTICAL_ROLLOUT_MODE");
            assert_eq!(value, "full");
        }
        other => panic!("unexpected {other:?}"),
    }
    let config = load(&[
        ("ARENA_API_KEY", "arena"),
        ("NPC_TACTICAL_ROLLOUT_MODE", "full"),
        ("NPC_ALLOW_LIVE_MUTATION", "true"),
    ])
    .expect("full with mutation");
    assert_eq!(config.tactical_rollout_mode, TacticalRolloutMode::Full);

    let config = load(&[("ARENA_API_KEY", "arena"), ("NPC_PERCEPTION_MAP_RADIUS", "+8")]).expect("plus sign");
    assert_eq!(config.perception_map_radius, 8);
    assert!(load(&[("ARENA_API_KEY", "arena"), ("NPC_PERCEPTION_MAP_RADIUS", " 8")]).is_err());
    assert!(load(&[("ARENA_API_KEY", "arena"), ("NPC_PERCEPTION_MAP_RADIUS", "4294967296")]).is_err());
    assert!(load(&[("ARENA_API_KEY", "arena"), ("NPC_STRATEGIST_ENABLED", "TRUE")]).is_err());
    let effort = load(&[("ARENA_API_KEY", "arena"), ("NPC_STRATEGIST_REASONING_EFFORT", "  HIGH ")]).expect("effort");
    assert_eq!(effort.strategist_reasoning.effort, ReasoningEffort::High);
}

#[test]
fn memory_path_prefers_explicit_settings() {
    let config = load(&[("ARENA_API_KEY", "arena"), ("NPC_MEMORY_DIR", "/srv/memory.sqlite")]).expect("dir");
    assert_eq!(config.memory_path, "/srv/memory.sqlite");
    let config = load(&[("ARENA_API_KEY", "arena"), ("NPC_MEMORY_PATH", " "), ("NPC_MEMORY_DIR", "/srv/x")]).expect("blank");
    assert_eq!(config.memory_path, "./var/guy.sqlite");
    let config = load(&[("ARENA_API_KEY", "arena"), ("NPC_STRATEGIST_MODEL", "a/b"), ("NPC_MODEL", "c/d")]).expect("model");
    assert_eq!(config.strategist_model, "a/b");
}

#[test]
fn reasoning_effort_reads_from_text() {
    assert_eq!(" High ".parse::<ReasoningEffort>(), Ok(ReasoningEffort::High));
    assert_eq!("minimal".parse::<ReasoningEffort>(), Ok(ReasoningEffort::Minimal));
    assert_eq!(
        "extreme".parse::<ReasoningEffort>(),
        Err("reasoning effort must be one of minimal, low, medium, or high")
    );
}

#[test]
fn effort_names_read_back_in_any_case() {
    for effort in [ReasoningEffort::Minimal, ReasoningEffort::Low, ReasoningEffort::Medium, ReasoningEffort::High] {
        assert_eq!(effort.as_str().parse::<ReasoningEffort>(), Ok(effort));
        assert_eq!(format!("  {}\n", effort.as_str().to_uppercase()).parse::<ReasoningEffort>(), Ok(effort));
    }
}

// The floating-point settings are judged where they are parsed, outside the
// library; the library takes each verdict and reports the first refusal in
// reading order. These tests hand it the verdicts those texts receive.

#[test]
fn rejects_zero_rate() {
    let values = env(&[("ARENA_API_KEY", "arena"), ("OPENROUTER_API_KEY", "router"), ("NPC_TACTICAL_MAX_HZ", "0")]);
    let floats = FloatSettingFindings {
        tactical_max_hz: Some(ConfigError::InvalidRate { name: "NPC_TACTICAL_MAX_HZ", value: "0".to_owned() }),
        ..accepted_floats()
    };
    let error = ConfigCore::from_lookup(&values, &floats).err().expect("rate should be rejected");
    assert!(matches!(error, ConfigError::InvalidRate { .. }));
}

#[test]
fn rejects_out_of_range_local_rag_score() {
    let values = env(&[("ARENA_API_KEY", "arena"), ("NPC_LOCAL_RAG_MINIMUM_SCORE", "1.01")]);
    let floats = FloatSettingFindings {
        local_rag_minimum_score: Some(ConfigError::InvalidValue {
            name: "NPC_LOCAL_RAG_MINIMUM_SCORE",
            kind: "finite floating-point number between 0 and 1",
            value: "1.01".to_owned(),
        }),
        ..accepted_floats()
    };
    let error = ConfigCore::from_lookup(&values, &floats).err().expect("out-of-range score should be rejected");
    assert!(matches!(error, ConfigError::InvalidValue { name: "NPC_LOCAL_RAG_MINIMUM_SCORE", .. }));
}

#[test]
fn loads_positive_run_cost_ceiling() {
    let values = env(&[("ARENA_API_KEY", "arena"), ("NPC_RUN_MAX_OPENROUTER_COST_USD", "0.025")]);
    let config = ConfigCore::from_lookup(&values, &accepted_floats()).expect("bounded cost configuration");
    assert_eq!(config.arena.api_key, "arena");
}

#[test]
fn rejects_invalid_run_cost_ceiling() {
    for invalid in ["0", "-1", "NaN", "inf", "not-money"] {
        let values = env(&[("ARENA_API_KEY", "arena"), ("NPC_RUN_MAX_OPENROUTER_COST_USD", invalid)]);
        let floats = FloatSettingFindings {
            run_max_openrouter_cost_usd: Some(ConfigError::InvalidValue {
                name: "NPC_RUN_MAX_OPENROUTER_COST_USD",
                kind: "finite number greater than zero",
                value: invalid.to_owned(),
            }),
            ..accepted_floats()
        };
        let error = ConfigCore::from_lookup(&values, &floats).err().expect("invalid cost ceiling");
        assert!(matches!(error, ConfigError::InvalidValue { name: "NPC_RUN_MAX_OPENROUTER_COST_USD", .. }));
    }
}
