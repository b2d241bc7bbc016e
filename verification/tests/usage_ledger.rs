use arena_harness::brain::models::{
    usage_anomaly, CompletionCallUsage, ModelCallMetrics, ModelUsageLedger, ModelUsageTotals, UsageAnomaly,
};

fn metrics(input: u64, output: u64, cached: u64, cost_known: bool) -> ModelCallMetrics {
    ModelCallMetrics {
        generation_id: "generation-native".to_owned(),
        actual_model: "openai/gpt-oss-120b".to_owned(),
        input_tokens: input,
        output_tokens: output,
        total_tokens: input + output,
        cached_input_tokens: cached,
        cache_creation_input_tokens: 0,
        tool_use_prompt_tokens: 0,
        reasoning_tokens: 0,
        exact_cost_known: cost_known,
        requested_max_output_tokens: 4_000,
        finish_reason: Some("stop".to_owned()),
        native_finish_reason: Some("STOP".to_owned()),
    }
}

#[test]
fn finalized_native_reasoning_and_cache_usage_reconcile_into_agent_totals() {
    let mut ledger = ModelUsageLedger::default();
    ledger.add(Some("guy"), &metrics(100, 50, 10, true));

    let reconciliation = ledger.reconcile_native_usage(Some("guy"), 0, 10, Some(700), Some(80));

    assert_eq!(reconciliation.reasoning_delta, 700);
    assert_eq!(reconciliation.cached_delta, 70);
    assert_eq!(reconciliation.updated_totals.reasoning_tokens, 700);
    assert_eq!(reconciliation.updated_totals.cached_input_tokens, 80);
    assert_eq!(reconciliation.updated_totals.calls, 1);
}

#[test]
fn accounting_is_per_character_and_advances_the_revision() {
    let mut ledger = ModelUsageLedger::new();
    assert_eq!(ledger.totals_for("guy"), ModelUsageTotals::default());

    let first = ledger.add(Some("guy"), &metrics(100, 50, 10, true));
    let second = ledger.add(Some("guy"), &metrics(10, 5, 0, false));
    ledger.add(None, &metrics(1, 1, 0, false));

    assert_eq!(first.calls, 1);
    assert_eq!(second.calls, 2);
    assert_eq!(second.input_tokens, 110);
    assert_eq!(second.output_tokens, 55);
    assert_eq!(second.total_tokens, 165);
    assert_eq!(second.cached_input_tokens, 10);
    assert_eq!(second.exact_cost_known_calls, 1);
    assert_eq!(ledger.totals_for("guy"), second);
    assert_eq!(ledger.totals_for("unbound").calls, 1);
    assert_eq!(ledger.totals_for("nobody"), ModelUsageTotals::default());
    assert_eq!(ledger.revision(), 3);
}

#[test]
fn reconciliation_adds_nothing_when_accounted_counts_already_reach_native_ones() {
    let mut ledger = ModelUsageLedger::new();
    ledger.add(Some("guy"), &metrics(100, 50, 10, true));
    let before = ledger.totals_for("guy");

    let reconciliation = ledger.reconcile_native_usage(Some("guy"), 900, 10, Some(700), None);

    assert_eq!(reconciliation.reasoning_delta, 0);
    assert_eq!(reconciliation.cached_delta, 0);
    assert_eq!(reconciliation.updated_totals, before);
    assert_eq!(ledger.revision(), 1);
}

#[test]
fn counts_saturate_instead_of_wrapping() {
    let mut ledger = ModelUsageLedger::new();
    ledger.add(Some("guy"), &metrics(u64::MAX - 1, 0, 0, false));
    let totals = ledger.add(Some("guy"), &metrics(5, 0, 0, false));
    assert_eq!(totals.input_tokens, u64::MAX);
}

#[test]
fn agent_runs_account_each_completion_without_a_known_cost() {
    let mut ledger = ModelUsageLedger::new();
    let usage = |call_index: u64, input: u64| CompletionCallUsage {
        call_index,
        input_tokens: input,
        output_tokens: 2,
        total_tokens: input + 2,
        cached_input_tokens: 0,
        cache_creation_input_tokens: 0,
        tool_use_prompt_tokens: 0,
        reasoning_tokens: 3,
    };
    let totals = ledger.record_rig_agent_usage("guy", "model", "decision", &vec![usage(0, 10), usage(1, 20)]);
    assert_eq!(totals.calls, 2);
    assert_eq!(totals.input_tokens, 30);
    assert_eq!(totals.reasoning_tokens, 6);
    assert_eq!(totals.exact_cost_known_calls, 0);
    assert_eq!(ledger.record_rig_agent_usage("guy", "model", "decision", &Vec::new()), ModelUsageTotals::default());
    assert_eq!(ledger.totals_for("guy").calls, 2);
}

#[test]
fn anomalies_prefer_budget_exhaustion_over_excess_output() {
    let mut call = metrics(10, 5_000, 0, false);
    assert_eq!(usage_anomaly(&call), Some(UsageAnomaly::ReportedOutputExceedsRequestedMax));
    call.native_finish_reason = Some("MAX_TOKENS".to_owned());
    assert_eq!(usage_anomaly(&call), Some(UsageAnomaly::CompletionBudgetExhausted));
    assert_eq!(UsageAnomaly::CompletionBudgetExhausted.as_str(), "completion_budget_exhausted");
    assert_eq!(usage_anomaly(&metrics(10, 10, 0, false)), None);
}

use arena_harness::brain::models::{ModelCallEnd, ModelCallTerminal};

#[test]
fn usage_is_accounted_exactly_when_a_response_arrived() {
    let mut ledger = ModelUsageLedger::new();
    let terminal = ledger.account_call(Some("guy"), &ModelCallEnd::OutputParseFailed, &metrics(100, 50, 0, true));
    assert_eq!(ledger.totals_for("guy").calls, 1);
    assert_eq!(ledger.totals_for("guy").input_tokens, 100);
    assert_eq!(ledger.revision(), 1);
    assert!(matches!(
        terminal,
        ModelCallTerminal::Failed { response_received: true, usage_accounted: true, .. }
    ));

    let terminal = ledger.account_call(Some("guy"), &ModelCallEnd::TimedOut { timeout_ms: 500 }, &metrics(7, 7, 0, false));
    assert_eq!(ledger.totals_for("guy").calls, 1);
    assert_eq!(ledger.revision(), 1);
    assert!(matches!(
        terminal,
        ModelCallTerminal::Failed { response_received: false, usage_accounted: false, .. }
    ));
}
