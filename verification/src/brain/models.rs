//! Model-call policy: which reasoning settings a known model accepts, how a
//! failed provider call is classified, and the small facts recorded about a
//! completed call.

use vstd::prelude::*;

use crate::config::{effort_name, ModelReasoningConfig, ReasoningEffort};
use crate::json::{
    find_member, json_document, json_text, push_json_text, json_parse_error, json_value_of, json_view, lemma_object_of, member, member_value,
    member_views, parse_json_document, JsonErrorCategory, JsonParseError, JsonValue, JsonView,
};
use crate::text::{trim, trimmed};
use crate::text::{
    append_decimal, ascii_lowercased, contains_text, eq_ignore_ascii_case, text_contains_lowered, text_equals,
};

verus! {

/// Provider-accounting tasks that a shutdown drain completed, saw fail, or aborted.
#[derive(Debug, Clone, Copy, Default, PartialEq, Eq, Structural)]
pub struct ModelBackgroundDrain {
    pub completed: usize,
    pub failed: usize,
    pub aborted: usize,
    pub active_model_calls_remaining: usize,
}

/// A brain that refuses every decision.
#[derive(Debug, Clone, Copy, Default, PartialEq, Eq, Structural)]
pub struct DisabledBrain;

impl DisabledBrain {
    /// Why every decision is refused.
    pub fn refusal(&self) -> (reason: &'static str)
        ensures
            reason@ == "brain is disabled during the Phase 1 runtime skeleton"@,
    {
        "brain is disabled during the Phase 1 runtime skeleton"
    }
}

// ---------------------------------------------------------------------------
// Known reasoning support
// ---------------------------------------------------------------------------

/// What a known model accepts: whether reasoning is mandatory, and the effort
/// levels it advertises (none means effort cannot be chosen).
#[derive(Debug, Clone)]
pub struct KnownReasoningSupport {
    pub mandatory: bool,
    pub efforts: Vec<ReasoningEffort>,
}

/// The model identifier without its variant suffix (what follows the first `:`).
pub open spec fn base_model(id: Seq<char>) -> Seq<char>
    decreases id.len(),
{
    if id.len() == 0 || id[0] == ':' {
        Seq::empty()
    } else {
        seq![id[0]] + base_model(id.drop_first())
    }
}

/// The reasoning support of the known models, by base identifier.
pub open spec fn reasoning_support(id: Seq<char>) -> Option<(bool, Seq<ReasoningEffort>)> {
    let base = base_model(id);
    if base == "openai/gpt-oss-120b"@ || base == "openai/gpt-oss-20b"@ {
        Some((true, seq![ReasoningEffort::Low, ReasoningEffort::Medium, ReasoningEffort::High]))
    } else if base == "openai/gpt-oss-safeguard-20b"@ {
        Some((true, Seq::empty()))
    } else if base == "nvidia/nemotron-3-super-120b-a12b"@ {
        Some((false, seq![ReasoningEffort::Low, ReasoningEffort::Medium]))
    } else if base == "google/gemini-3.1-flash-lite"@ || base == "google/gemini-3.1-flash-lite-20260507"@ {
        Some(
            (
                false,
                seq![
                    ReasoningEffort::Minimal,
                    ReasoningEffort::Low,
                    ReasoningEffort::Medium,
                    ReasoningEffort::High,
                ],
            ),
        )
    } else {
        None
    }
}

fn model_base(id: &str) -> (base: &str)
    ensures
        base@ == base_model(id@),
{
    let n = id.unicode_len();
    let mut k: usize = 0;
    proof {
        assert(id@.skip(0) =~= id@);
        assert(id@.take(0) + base_model(id@) =~= base_model(id@));
    }
    while k < n && id.get_char(k) != ':'
        invariant
            n == id@.len(),
            k <= n,
            forall|j: int| 0 <= j < k ==> id@[j] != ':',
            base_model(id@) == id@.take(k as int) + base_model(id@.skip(k as int)),
        decreases n - k,
    {
        proof {
            let rest = id@.skip(k as int);
            assert(rest[0] == id@[k as int]);
            assert(rest.drop_first() =~= id@.skip(k + 1));
            assert(id@.take(k + 1) =~= id@.take(k as int) + seq![id@[k as int]]);
            assert(id@.take(k as int) + (seq![rest[0]] + base_model(rest.drop_first())) =~= id@.take(k + 1)
                + base_model(id@.skip(k + 1)));
        }
        k = k + 1;
    }
    proof {
        assert(base_model(id@.skip(k as int)) =~= Seq::<char>::empty());
        assert(id@.take(k as int) + Seq::<char>::empty() =~= id@.take(k as int));
        assert(id@.take(k as int) =~= id@.subrange(0, k as int));
    }
    id.substring_char(0, k)
}

pub open spec fn support_matches(support: Option<KnownReasoningSupport>, expected: Option<(bool, Seq<ReasoningEffort>)>) -> bool {
    match (support, expected) {
        (Some(s), Some((mandatory, efforts))) => s.mandatory == mandatory && s.efforts@ == efforts,
        (None, None) => true,
        _ => false,
    }
}

/// What the model `model_id` is known to accept, if it is known.
pub fn known_reasoning_support(model_id: &str) -> (support: Option<KnownReasoningSupport>)
    ensures
        support_matches(support, reasoning_support(model_id@)),
{
    let base = model_base(model_id);
    if text_equals(base, "openai/gpt-oss-120b") || text_equals(base, "openai/gpt-oss-20b") {
        let efforts = vec![ReasoningEffort::Low, ReasoningEffort::Medium, ReasoningEffort::High];
        assert(efforts@ =~= seq![ReasoningEffort::Low, ReasoningEffort::Medium, ReasoningEffort::High]);
        Some(KnownReasoningSupport { mandatory: true, efforts })
    } else if text_equals(base, "openai/gpt-oss-safeguard-20b") {
        let efforts: Vec<ReasoningEffort> = Vec::new();
        assert(efforts@ =~= Seq::<ReasoningEffort>::empty());
        Some(KnownReasoningSupport { mandatory: true, efforts })
    } else if text_equals(base, "nvidia/nemotron-3-super-120b-a12b") {
        let efforts = vec![ReasoningEffort::Low, ReasoningEffort::Medium];
        assert(efforts@ =~= seq![ReasoningEffort::Low, ReasoningEffort::Medium]);
        Some(KnownReasoningSupport { mandatory: false, efforts })
    } else if text_equals(base, "google/gemini-3.1-flash-lite") || text_equals(
        base,
        "google/gemini-3.1-flash-lite-20260507",
    ) {
        let efforts = vec![
            ReasoningEffort::Minimal,
            ReasoningEffort::Low,
            ReasoningEffort::Medium,
            ReasoningEffort::High,
        ];
        assert(efforts@ =~= seq![
            ReasoningEffort::Minimal,
            ReasoningEffort::Low,
            ReasoningEffort::Medium,
            ReasoningEffort::High,
        ]);
        Some(KnownReasoningSupport { mandatory: false, efforts })
    } else {
        None
    }
}

/// Why a reasoning configuration does not fit a known model.
#[derive(Debug, Clone, PartialEq, Eq)]
pub enum ModelReasoningError {
    /// The model requires reasoning and it is disabled.
    RequiresReasoning { model_id: String },
    /// The configured effort is not among those the model advertises.
    UnsupportedEffort { model_id: String, effort: ReasoningEffort, supported: Vec<ReasoningEffort> },
    /// The model advertises no selectable effort, so none can be configured.
    NoSelectableEffort { model_id: String },
}

/// The kind of a reasoning mismatch, without its texts.
#[derive(Debug, Clone, Copy, PartialEq, Eq, Structural)]
pub enum ReasoningMismatch {
    RequiresReasoning,
    UnsupportedEffort,
    NoSelectableEffort,
}

pub open spec fn reasoning_mismatch_of(error: ModelReasoningError) -> ReasoningMismatch {
    match error {
        ModelReasoningError::RequiresReasoning { .. } => ReasoningMismatch::RequiresReasoning,
        ModelReasoningError::UnsupportedEffort { .. } => ReasoningMismatch::UnsupportedEffort,
        ModelReasoningError::NoSelectableEffort { .. } => ReasoningMismatch::NoSelectableEffort,
    }
}

/// Whether `reasoning` fits the model `model_id`: `Ok(true)` for a known model
/// it fits, `Ok(false)` for an unknown model (the provider then validates),
/// and otherwise the first mismatch.
pub open spec fn reasoning_fit(model_id: Seq<char>, reasoning: ModelReasoningConfig) -> Result<bool, ReasoningMismatch> {
    match reasoning_support(model_id) {
        None => Ok(false),
        Some((mandatory, efforts)) => if mandatory && !reasoning.enabled {
            Err(ReasoningMismatch::RequiresReasoning)
        } else if reasoning.enabled && efforts.len() > 0 && !efforts.contains(reasoning.effort) {
            Err(ReasoningMismatch::UnsupportedEffort)
        } else if reasoning.enabled && efforts.len() == 0 {
            Err(ReasoningMismatch::NoSelectableEffort)
        } else {
            Ok(true)
        },
    }
}

/// The efforts joined by `, `.
pub open spec fn effort_list_text(efforts: Seq<ReasoningEffort>) -> Seq<char>
    decreases efforts.len(),
{
    if efforts.len() == 0 {
        Seq::empty()
    } else if efforts.len() == 1 {
        effort_name(efforts[0])
    } else {
        effort_list_text(efforts.drop_last()) + ", "@ + effort_name(efforts.last())
    }
}

pub open spec fn reasoning_error_text(error: ModelReasoningError) -> Seq<char> {
    match error {
        ModelReasoningError::RequiresReasoning { model_id } => "model "@ + model_id@
            + " requires reasoning; enable it with the role-specific reasoning configuration"@,
        ModelReasoningError::UnsupportedEffort { model_id, effort, supported } => "model "@ + model_id@
            + " does not support reasoning effort "@ + effort_name(effort) + "; supported efforts: "@
            + effort_list_text(supported@),
        ModelReasoningError::NoSelectableEffort { model_id } => "model "@ + model_id@
            + " requires reasoning but does not advertise selectable effort levels; explicit effort configuration is unsupported"@,
    }
}

impl ModelReasoningError {
    /// The human-readable text of the mismatch.
    pub fn message(&self) -> (text: String)
        ensures
            text@ == reasoning_error_text(*self),
    {
        match self {
            ModelReasoningError::RequiresReasoning { model_id } => {
                let mut text = String::from_str("model ");
                text.append(model_id.as_str());
                text.append(" requires reasoning; enable it with the role-specific reasoning configuration");
                text
            },
            ModelReasoningError::UnsupportedEffort { model_id, effort, supported } => {
                let mut text = String::from_str("model ");
                text.append(model_id.as_str());
                text.append(" does not support reasoning effort ");
                text.append(effort.as_str());
                text.append("; supported efforts: ");
                let ghost prefix = text@;
                let mut i: usize = 0;
                while i < supported.len()
                    invariant
                        i <= supported@.len(),
                        text@ == prefix + effort_list_text(supported@.take(i as int)),
                    decreases supported@.len() - i,
                {
                    proof {
                        assert(supported@.take(i + 1).drop_last() =~= supported@.take(i as int));
                        assert(supported@.take(i + 1).last() == supported@[i as int]);
                    }
                    if i > 0 {
                        text.append(", ");
                    }
                    text.append(supported[i].as_str());
                    proof {
                        if i == 0 {
                            assert(effort_list_text(supported@.take(0)) =~= Seq::<char>::empty());
                            assert(supported@.take(1)[0] == supported@[0]);
                        }
                        assert(text@ =~= prefix + effort_list_text(supported@.take(i + 1)));
                    }
                    i = i + 1;
                }
                proof {
                    assert(supported@.take(i as int) =~= supported@);
                }
                text
            },
            ModelReasoningError::NoSelectableEffort { model_id } => {
                let mut text = String::from_str("model ");
                text.append(model_id.as_str());
                text.append(
                    " requires reasoning but does not advertise selectable effort levels; explicit effort configuration is unsupported",
                );
                text
            },
        }
    }
}

/// Check `reasoning` against what the model `model_id` is known to accept.
pub fn validate_reasoning_for_model(model_id: &str, reasoning: ModelReasoningConfig) -> (result: Result<
    bool,
    ModelReasoningError,
>)
    ensures
        match result {
            Ok(known) => reasoning_fit(model_id@, reasoning) == Ok::<bool, ReasoningMismatch>(known),
            Err(e) => reasoning_fit(model_id@, reasoning) == Err::<bool, ReasoningMismatch>(
                reasoning_mismatch_of(e),
            ) && match e {
                ModelReasoningError::RequiresReasoning { model_id: id } => id@ == model_id@,
                ModelReasoningError::UnsupportedEffort { model_id: id, effort, supported } => {
                    &&& id@ == model_id@
                    &&& effort == reasoning.effort
                    &&& reasoning_support(model_id@) matches Some((_, efforts))
                    &&& supported@ == efforts
                },
                ModelReasoningError::NoSelectableEffort { model_id: id } => id@ == model_id@,
            },
        },
{
    let support = match known_reasoning_support(model_id) {
        Some(support) => support,
        None => {
            return Ok(false);
        },
    };
    if support.mandatory && !reasoning.enabled {
        return Err(ModelReasoningError::RequiresReasoning { model_id: String::from_str(model_id) });
    }
    let mut listed = false;
    let mut i: usize = 0;
    while i < support.efforts.len()
        invariant
            i <= support.efforts@.len(),
            listed == exists|j: int| 0 <= j < i && support.efforts@[j] == reasoning.effort,
        decreases support.efforts@.len() - i,
    {
        if support.efforts[i] == reasoning.effort {
            listed = true;
        }
        i = i + 1;
    }
    proof {
        assert(listed == support.efforts@.contains(reasoning.effort));
    }
    if reasoning.enabled && support.efforts.len() > 0 && !listed {
        return Err(
            ModelReasoningError::UnsupportedEffort {
                model_id: String::from_str(model_id),
                effort: reasoning.effort,
                supported: support.efforts,
            },
        );
    }
    if reasoning.enabled && support.efforts.len() == 0 {
        return Err(ModelReasoningError::NoSelectableEffort { model_id: String::from_str(model_id) });
    }
    Ok(true)
}

// ---------------------------------------------------------------------------
// Failed and completed calls
// ---------------------------------------------------------------------------

/// The private facts recorded about a failed model call; the provider's own
/// message is never kept.
#[derive(Debug, Clone, PartialEq, Eq)]
pub struct RequestFailureFacts {
    pub error_class: &'static str,
    pub timeout_ms: Option<u64>,
    pub http_status: Option<u16>,
    pub provider_error_code: Option<String>,
    pub rate_limited: bool,
    pub quota_exhausted: bool,
}

/// The provider's message says a key, quota or credit limit was reached.
pub open spec fn quota_message(lowered: Seq<char>) -> bool {
    contains_text(lowered, "limit exceeded"@) || contains_text(lowered, "quota exceeded"@) || contains_text(
        lowered,
        "insufficient credits"@,
    )
}

/// The class of a failure with HTTP status `status` (when a response arrived).
pub open spec fn failure_class(status: Option<u16>, quota_exhausted: bool) -> Seq<char> {
    match status {
        Some(code) => if code == 400 {
            "provider_bad_request"@
        } else if code == 401 {
            "provider_authentication"@
        } else if code == 403 && quota_exhausted {
            "provider_quota_exhausted"@
        } else if code == 403 {
            "provider_forbidden"@
        } else if code == 404 {
            "provider_model_unavailable"@
        } else if code == 429 {
            "provider_rate_limited"@
        } else if 500 <= code <= 599 {
            "provider_unavailable"@
        } else {
            "provider_http_error"@
        },
        None => "provider_transport_or_response"@,
    }
}

impl RequestFailureFacts {
    /// A call that exceeded its `timeout_ms` deadline.
    pub fn timeout(timeout_ms: u64) -> (facts: RequestFailureFacts)
        ensures
            facts.error_class@ == "timeout"@,
            facts.timeout_ms == Some(timeout_ms),
            facts.http_status.is_none(),
            facts.provider_error_code.is_none(),
            !facts.rate_limited,
            !facts.quota_exhausted,
    {
        RequestFailureFacts {
            error_class: "timeout",
            timeout_ms: Some(timeout_ms),
            http_status: None,
            provider_error_code: None,
            rate_limited: false,
            quota_exhausted: false,
        }
    }

    /// A failure that did not come from the completion provider.
    pub fn unclassified() -> (facts: RequestFailureFacts)
        ensures
            facts.error_class@ == "request_or_provider"@,
            facts.timeout_ms.is_none(),
            facts.http_status.is_none(),
            facts.provider_error_code.is_none(),
            !facts.rate_limited,
            !facts.quota_exhausted,
    {
        RequestFailureFacts {
            error_class: "request_or_provider",
            timeout_ms: None,
            http_status: None,
            provider_error_code: None,
            rate_limited: false,
            quota_exhausted: false,
        }
    }

    /// Classify a completion-provider failure from its HTTP status, the
    /// provider's error code and the provider's message (read only for
    /// quota wording, ASCII case ignored).
    pub fn from_provider_failure(
        status: Option<u16>,
        provider_error_code: Option<String>,
        provider_message: &str,
    ) -> (facts: RequestFailureFacts)
        ensures
            facts.quota_exhausted == quota_message(ascii_lowercased(provider_message@)),
            facts.rate_limited == (status == Some(429u16)),
            facts.error_class@ == failure_class(status, facts.quota_exhausted),
            facts.http_status == status,
            facts.provider_error_code == provider_error_code,
            facts.timeout_ms.is_none(),
    {
        let quota_exhausted = text_contains_lowered(provider_message, "limit exceeded") || text_contains_lowered(
            provider_message,
            "quota exceeded",
        ) || text_contains_lowered(provider_message, "insufficient credits");
        let error_class = match status {
            Some(code) => if code == 400 {
                "provider_bad_request"
            } else if code == 401 {
                "provider_authentication"
            } else if code == 403 && quota_exhausted {
                "provider_quota_exhausted"
            } else if code == 403 {
                "provider_forbidden"
            } else if code == 404 {
                "provider_model_unavailable"
            } else if code == 429 {
                "provider_rate_limited"
            } else if 500 <= code && code <= 599 {
                "provider_unavailable"
            } else {
                "provider_http_error"
            },
            None => "provider_transport_or_response",
        };
        RequestFailureFacts {
            error_class,
            timeout_ms: None,
            http_status: status,
            provider_error_code,
            rate_limited: status == Some(429u16),
            quota_exhausted,
        }
    }
}

/// The member `key` of the `error` object of a provider's response body.
pub open spec fn provider_error_member(body: Option<JsonView>, key: Seq<char>) -> Option<JsonView> {
    match body {
        Some(JsonView::Object(top)) => match member_value(top, "error"@) {
            Some(JsonView::Object(error)) => member_value(error, key),
            _ => None,
        },
        _ => None,
    }
}

/// The provider's error code: its text when it is a string, else its JSON text.
pub open spec fn provider_code_text(body: Option<JsonView>) -> Option<Seq<char>> {
    match provider_error_member(body, "code"@) {
        Some(JsonView::Text(t)) => Some(t),
        Some(v) => Some(json_text(v)),
        None => None,
    }
}

/// The provider's error message when it is a string; else nothing.
pub open spec fn provider_message_text(body: Option<JsonView>) -> Seq<char> {
    match provider_error_member(body, "message"@) {
        Some(JsonView::Text(t)) => t,
        _ => Seq::empty(),
    }
}

pub open spec fn optional_json_view(body: Option<&JsonValue>) -> Option<JsonView> {
    match body {
        Some(v) => Some(json_view(*v)),
        None => None,
    }
}

fn provider_error_field<'a>(body: Option<&'a JsonValue>, key: &str) -> (member: Option<&'a JsonValue>)
    ensures
        match member {
            Some(m) => provider_error_member(optional_json_view(body), key@) == Some(json_view(*m)),
            None => provider_error_member(optional_json_view(body), key@) is None,
        },
{
    proof {
        reveal_strlit("error");
    }
    match body {
        Some(JsonValue::Object(top)) => {
            proof {
                lemma_object_of(*top);
            }
            match find_member(top, "error") {
                Some(JsonValue::Object(error)) => {
                    proof {
                        lemma_object_of(*error);
                    }
                    find_member(error, key)
                },
                _ => None,
            }
        },
        _ => None,
    }
}

impl RequestFailureFacts {
    /// Classify a completion-provider failure from its HTTP status and the
    /// provider's response body: the error code is read from `error.code`
    /// (a string as it is, any other value as its JSON text) and the quota
    /// wording from `error.message`.
    pub fn from_provider_response(status: Option<u16>, body: Option<&JsonValue>) -> (facts: RequestFailureFacts)
        ensures
            facts.quota_exhausted == quota_message(ascii_lowercased(provider_message_text(optional_json_view(body)))),
            facts.rate_limited == (status == Some(429u16)),
            facts.error_class@ == failure_class(status, facts.quota_exhausted),
            facts.http_status == status,
            crate::text::optional_text(facts.provider_error_code) == provider_code_text(optional_json_view(body)),
            facts.timeout_ms.is_none(),
    {
        proof {
            reveal_strlit("code");
            reveal_strlit("message");
        }
        let code = match provider_error_field(body, "code") {
            Some(JsonValue::Text(t)) => Some(t.clone()),
            Some(other) => {
                let mut text = String::new();
                push_json_text(&mut text, other);
                Some(text)
            },
            None => None,
        };
        let message: &str = match provider_error_field(body, "message") {
            Some(JsonValue::Text(t)) => t.as_str(),
            _ => "",
        };
        proof {
            reveal_strlit("");
            assert(message@ =~= provider_message_text(optional_json_view(body)));
        }
        RequestFailureFacts::from_provider_failure(status, code, message)
    }
}

/// The first forty characters of a dimension value.
pub fn truncate_dimension(value: &str) -> (short: String)
    ensures
        short@ == if value@.len() <= 40 {
            value@
        } else {
            value@.take(40)
        },
{
    let n = value.unicode_len();
    let end: usize = if n <= 40 {
        n
    } else {
        40
    };
    proof {
        assert(value@.subrange(0, n as int) =~= value@);
        assert(value@.subrange(0, 40) =~= value@.take(40));
    }
    String::from_str(value.substring_char(0, end))
}

/// A finish reason that says the completion budget ran out.
pub open spec fn budget_finish_reason(reason: Seq<char>) -> bool {
    let lowered = ascii_lowercased(reason);
    lowered == "length"@ || lowered == "max_tokens"@ || lowered == "max_output_tokens"@
}

proof fn lemma_finish_literals()
    ensures
        ascii_lowercased("length"@) == "length"@,
        ascii_lowercased("max_tokens"@) == "max_tokens"@,
        ascii_lowercased("max_output_tokens"@) == "max_output_tokens"@,
{
    reveal_strlit("length");
    reveal_strlit("max_tokens");
    reveal_strlit("max_output_tokens");
    assert(ascii_lowercased("length"@) =~= "length"@);
    assert(ascii_lowercased("max_tokens"@) =~= "max_tokens"@);
    assert(ascii_lowercased("max_output_tokens"@) =~= "max_output_tokens"@);
}

fn exhausts_budget(reason: &Option<String>) -> (exhausted: bool)
    ensures
        exhausted == (reason matches Some(r) && budget_finish_reason(r@)),
{
    proof {
        lemma_finish_literals();
    }
    match reason {
        Some(r) => eq_ignore_ascii_case(r.as_str(), "length") || eq_ignore_ascii_case(r.as_str(), "max_tokens")
            || eq_ignore_ascii_case(r.as_str(), "max_output_tokens"),
        None => false,
    }
}

/// Whether either finish reason of a call says its shared completion budget
/// (hidden reasoning and answer together) ran out.
pub fn completion_budget_exhausted(finish_reason: &Option<String>, native_finish_reason: &Option<String>) -> (exhausted:
    bool)
    ensures
        exhausted == ((finish_reason matches Some(r) && budget_finish_reason(r@)) || (
        native_finish_reason matches Some(r) && budget_finish_reason(r@))),
{
    exhausts_budget(finish_reason) || exhausts_budget(native_finish_reason)
}


// ---------------------------------------------------------------------------
// Usage accounting
// ---------------------------------------------------------------------------

/// Running token totals of one character. The exact cost in US dollars that
/// a provider reports is summed beside these by whoever holds the ledger;
/// here only the number of calls whose cost was known is counted.
#[derive(Debug, Clone, Copy, PartialEq, Eq, Structural)]
pub struct ModelUsageTotals {
    pub calls: u64,
    pub input_tokens: u64,
    pub output_tokens: u64,
    pub total_tokens: u64,
    pub cached_input_tokens: u64,
    pub cache_creation_input_tokens: u64,
    pub tool_use_prompt_tokens: u64,
    pub reasoning_tokens: u64,
    pub exact_cost_known_calls: u64,
}

/// What one completed provider call reported about itself.
#[derive(Debug, Clone)]
pub struct ModelCallMetrics {
    pub generation_id: String,
    pub actual_model: String,
    pub input_tokens: u64,
    pub output_tokens: u64,
    pub total_tokens: u64,
    pub cached_input_tokens: u64,
    pub cache_creation_input_tokens: u64,
    pub tool_use_prompt_tokens: u64,
    pub reasoning_tokens: u64,
    /// Whether the provider reported the exact cost of the call.
    pub exact_cost_known: bool,
    pub requested_max_output_tokens: u64,
    pub finish_reason: Option<String>,
    pub native_finish_reason: Option<String>,
}

/// Token usage of one completion inside a multi-turn agent run.
#[derive(Debug, Clone, Copy, PartialEq, Eq, Structural)]
pub struct CompletionCallUsage {
    pub call_index: u64,
    pub input_tokens: u64,
    pub output_tokens: u64,
    pub total_tokens: u64,
    pub cached_input_tokens: u64,
    pub cache_creation_input_tokens: u64,
    pub tool_use_prompt_tokens: u64,
    pub reasoning_tokens: u64,
}

/// What reconciling the provider's finalized counts added, and the totals after.
#[derive(Debug, Clone, Copy, PartialEq, Eq, Structural)]
pub struct NativeUsageReconciliation {
    pub reasoning_delta: u64,
    pub cached_delta: u64,
    pub updated_totals: ModelUsageTotals,
}

/// The key under which calls of no known character are accounted.
pub open spec fn unbound_key() -> Seq<char> {
    "unbound"@
}

pub open spec fn zero_totals() -> ModelUsageTotals {
    ModelUsageTotals {
        calls: 0,
        input_tokens: 0,
        output_tokens: 0,
        total_tokens: 0,
        cached_input_tokens: 0,
        cache_creation_input_tokens: 0,
        tool_use_prompt_tokens: 0,
        reasoning_tokens: 0,
        exact_cost_known_calls: 0,
    }
}

impl Default for ModelUsageTotals {
    /// No calls and no tokens.
    fn default() -> (totals: ModelUsageTotals)
        ensures
            totals == zero_totals(),
    {
        ModelUsageTotals {
            calls: 0,
            input_tokens: 0,
            output_tokens: 0,
            total_tokens: 0,
            cached_input_tokens: 0,
            cache_creation_input_tokens: 0,
            tool_use_prompt_tokens: 0,
            reasoning_tokens: 0,
            exact_cost_known_calls: 0,
        }
    }
}

/// `a + b`, held at the largest `u64`.
pub open spec fn saturating_sum(a: u64, b: u64) -> u64 {
    if a + b <= u64::MAX {
        (a + b) as u64
    } else {
        u64::MAX
    }
}

/// `a - b`, held at zero.
pub open spec fn saturating_difference(a: u64, b: u64) -> u64 {
    if a >= b {
        (a - b) as u64
    } else {
        0
    }
}

/// `totals` after accounting one call that reported `metrics`.
pub open spec fn accumulated(totals: ModelUsageTotals, metrics: ModelCallMetrics) -> ModelUsageTotals {
    ModelUsageTotals {
        calls: saturating_sum(totals.calls, 1),
        input_tokens: saturating_sum(totals.input_tokens, metrics.input_tokens),
        output_tokens: saturating_sum(totals.output_tokens, metrics.output_tokens),
        total_tokens: saturating_sum(totals.total_tokens, metrics.total_tokens),
        cached_input_tokens: saturating_sum(totals.cached_input_tokens, metrics.cached_input_tokens),
        cache_creation_input_tokens: saturating_sum(
            totals.cache_creation_input_tokens,
            metrics.cache_creation_input_tokens,
        ),
        tool_use_prompt_tokens: saturating_sum(totals.tool_use_prompt_tokens, metrics.tool_use_prompt_tokens),
        reasoning_tokens: saturating_sum(totals.reasoning_tokens, metrics.reasoning_tokens),
        exact_cost_known_calls: if metrics.exact_cost_known {
            saturating_sum(totals.exact_cost_known_calls, 1)
        } else {
            totals.exact_cost_known_calls
        },
    }
}

/// No count of `after` is below that of `before`.
pub open spec fn totals_at_least(after: ModelUsageTotals, before: ModelUsageTotals) -> bool {
    &&& after.calls >= before.calls
    &&& after.input_tokens >= before.input_tokens
    &&& after.output_tokens >= before.output_tokens
    &&& after.total_tokens >= before.total_tokens
    &&& after.cached_input_tokens >= before.cached_input_tokens
    &&& after.cache_creation_input_tokens >= before.cache_creation_input_tokens
    &&& after.tool_use_prompt_tokens >= before.tool_use_prompt_tokens
    &&& after.reasoning_tokens >= before.reasoning_tokens
    &&& after.exact_cost_known_calls >= before.exact_cost_known_calls
}

/// The ledger key of an optional character id.
pub open spec fn ledger_key(character_id: Option<&str>) -> Seq<char> {
    match character_id {
        Some(id) => id@,
        None => unbound_key(),
    }
}

/// The metrics that one completion of an agent run is accounted with.
pub open spec fn agent_call_metrics_match(usage: CompletionCallUsage, metrics: ModelCallMetrics) -> bool {
    &&& metrics.input_tokens == usage.input_tokens
    &&& metrics.output_tokens == usage.output_tokens
    &&& metrics.total_tokens == usage.total_tokens
    &&& metrics.cached_input_tokens == usage.cached_input_tokens
    &&& metrics.cache_creation_input_tokens == usage.cache_creation_input_tokens
    &&& metrics.tool_use_prompt_tokens == usage.tool_use_prompt_tokens
    &&& metrics.reasoning_tokens == usage.reasoning_tokens
    &&& !metrics.exact_cost_known
}

/// `totals` after accounting each of `calls` in turn.
pub open spec fn accumulated_calls(totals: ModelUsageTotals, calls: Seq<CompletionCallUsage>) -> ModelUsageTotals
    decreases calls.len(),
{
    if calls.len() == 0 {
        totals
    } else {
        let earlier = accumulated_calls(totals, calls.drop_last());
        let u = calls.last();
        ModelUsageTotals {
            calls: saturating_sum(earlier.calls, 1),
            input_tokens: saturating_sum(earlier.input_tokens, u.input_tokens),
            output_tokens: saturating_sum(earlier.output_tokens, u.output_tokens),
            total_tokens: saturating_sum(earlier.total_tokens, u.total_tokens),
            cached_input_tokens: saturating_sum(earlier.cached_input_tokens, u.cached_input_tokens),
            cache_creation_input_tokens: saturating_sum(
                earlier.cache_creation_input_tokens,
                u.cache_creation_input_tokens,
            ),
            tool_use_prompt_tokens: saturating_sum(earlier.tool_use_prompt_tokens, u.tool_use_prompt_tokens),
            reasoning_tokens: saturating_sum(earlier.reasoning_tokens, u.reasoning_tokens),
            exact_cost_known_calls: earlier.exact_cost_known_calls,
        }
    }
}

/// Process-local running totals, keyed by stable character id, with a
/// revision that advances whenever an accounted response changes them.
#[derive(Debug)]
pub struct ModelUsageLedger {
    keys: Vec<String>,
    totals: Vec<ModelUsageTotals>,
    revision: u64,
}

impl ModelUsageLedger {
    /// No character id is held twice, and each has its totals.
    #[verifier::type_invariant]
    pub closed spec fn well_formed(self) -> bool {
        &&& self.keys@.len() == self.totals@.len()
        &&& forall|i: int, j: int|
            0 <= i < self.keys@.len() && 0 <= j < self.keys@.len() && i != j ==> (#[trigger] self.keys@[i])@
                != (#[trigger] self.keys@[j])@
    }

    spec fn holds_key(self, key: Seq<char>) -> bool {
        exists|i: int| 0 <= i < self.keys@.len() && (#[trigger] self.keys@[i])@ == key
    }

    spec fn key_position(self, key: Seq<char>) -> int {
        choose|i: int| 0 <= i < self.keys@.len() && (#[trigger] self.keys@[i])@ == key
    }

    /// The totals accounted under `key` (zero where nothing was).
    pub closed spec fn totals_of(self, key: Seq<char>) -> ModelUsageTotals {
        if self.holds_key(key) {
            self.totals@[self.key_position(key)]
        } else {
            zero_totals()
        }
    }

    /// How many times accounted usage has changed.
    pub closed spec fn revision_of(self) -> u64 {
        self.revision
    }

    /// An empty ledger at revision zero.
    pub fn new() -> (ledger: ModelUsageLedger)
        ensures
            ledger.well_formed(),
            forall|key: Seq<char>| #[trigger] ledger.totals_of(key) == zero_totals(),
            ledger.revision_of() == 0,
    {
        ModelUsageLedger { keys: Vec::new(), totals: Vec::new(), revision: 0 }
    }

    fn position_of(&self, key: &str) -> (found: Option<usize>)
        requires
            self.well_formed(),
        ensures
            match found {
                Some(i) => i < self.keys@.len() && self.keys@[i as int]@ == key@ && self.holds_key(key@)
                    && self.key_position(key@) == i,
                None => !self.holds_key(key@),
            },
    {
        let mut i: usize = 0;
        while i < self.keys.len()
            invariant
                i <= self.keys@.len(),
                self.well_formed(),
                forall|j: int| 0 <= j < i ==> (#[trigger] self.keys@[j])@ != key@,
            decreases self.keys@.len() - i,
        {
            if text_equals(self.keys[i].as_str(), key) {
                proof {
                    assert(self.holds_key(key@));
                    let p = self.key_position(key@);
                    assert(self.keys@[p]@ == key@);
                    assert(self.keys@[i as int]@ == key@);
                    assert(p == i);
                }
                return Some(i);
            }
            i = i + 1;
        }
        None
    }

    /// Replace the totals of the key at position `i`, keeping all others.
    fn store(&mut self, i: usize, value: ModelUsageTotals)
        requires
            old(self).well_formed(),
            i < old(self).keys@.len(),
        ensures
            final(self).well_formed(),
            final(self).keys@ == old(self).keys@,
            final(self).totals@ == old(self).totals@.update(i as int, value),
            final(self).revision == old(self).revision,
    {
        let mut taken = ModelUsageLedger::new();
        std::mem::swap(&mut taken, self);
        let ModelUsageLedger { keys, mut totals, revision } = taken;
        totals.set(i, value);
        *self = ModelUsageLedger { keys, totals, revision };
    }

    /// Add a key that the ledger does not hold yet, with `value`.
    fn enroll(&mut self, key: &str, value: ModelUsageTotals)
        requires
            old(self).well_formed(),
            !old(self).holds_key(key@),
        ensures
            final(self).well_formed(),
            final(self).keys@.len() == old(self).keys@.len() + 1,
            final(self).keys@.drop_last() == old(self).keys@,
            final(self).keys@.last()@ == key@,
            final(self).totals@ == old(self).totals@.push(value),
            final(self).revision == old(self).revision,
    {
        let k = String::from_str(key);
        proof {
            assert forall|i: int, j: int|
                0 <= i < self.keys@.len() + 1 && 0 <= j < self.keys@.len() + 1 && i != j implies (
            #[trigger] self.keys@.push(k)[i])@ != (#[trigger] self.keys@.push(k)[j])@ by {
                if i < self.keys@.len() && j < self.keys@.len() {
                    assert(self.keys@.push(k)[i] == self.keys@[i]);
                    assert(self.keys@.push(k)[j] == self.keys@[j]);
                } else if i < self.keys@.len() {
                    assert(self.keys@.push(k)[i] == self.keys@[i]);
                } else {
                    assert(self.keys@.push(k)[j] == self.keys@[j]);
                }
            }
        }
        let ghost old_keys = self.keys@;
        let mut taken = ModelUsageLedger::new();
        std::mem::swap(&mut taken, self);
        let ModelUsageLedger { mut keys, mut totals, revision } = taken;
        keys.push(k);
        totals.push(value);
        assert(keys@.drop_last() =~= old_keys);
        *self = ModelUsageLedger { keys, totals, revision };
    }

    proof fn lemma_update_position(before: ModelUsageLedger, after: ModelUsageLedger, i: int, value: ModelUsageTotals)
        requires
            before.well_formed(),
            after.well_formed(),
            0 <= i < before.keys@.len(),
            after.keys@ == before.keys@,
            after.totals@ == before.totals@.update(i, value),
        ensures
            after.totals_of(before.keys@[i]@) == value,
            forall|key: Seq<char>|
                key != before.keys@[i]@ ==> #[trigger] after.totals_of(key) == before.totals_of(key),
    {
        let k = before.keys@[i]@;
        assert(after.holds_key(k));
        let p = after.key_position(k);
        assert(after.keys@[p]@ == k);
        assert(p == i);
        assert forall|key: Seq<char>| key != k implies #[trigger] after.totals_of(key) == before.totals_of(key) by {
            if before.holds_key(key) {
                let q = before.key_position(key);
                assert(after.keys@[q]@ == key);
                assert(after.holds_key(key));
                let r = after.key_position(key);
                assert(before.keys@[r]@ == key);
                assert(r == q);
            } else {
                if after.holds_key(key) {
                    let r = after.key_position(key);
                    assert(before.keys@[r]@ == key);
                }
            }
        }
    }

    proof fn lemma_enrolled_position(before: ModelUsageLedger, after: ModelUsageLedger, key: Seq<char>, value: ModelUsageTotals)
        requires
            before.well_formed(),
            after.well_formed(),
            !before.holds_key(key),
            after.keys@.len() == before.keys@.len() + 1,
            after.keys@.drop_last() == before.keys@,
            after.keys@.last()@ == key,
            after.totals@ == before.totals@.push(value),
        ensures
            after.totals_of(key) == value,
            forall|other: Seq<char>| other != key ==> #[trigger] after.totals_of(other) == before.totals_of(other),
    {
        let n = before.keys@.len() as int;
        assert(after.keys@[n]@ == key);
        assert(after.holds_key(key));
        let p = after.key_position(key);
        assert(after.keys@[p]@ == key);
        assert(p == n);
        assert forall|other: Seq<char>| other != key implies #[trigger] after.totals_of(other) == before.totals_of(
            other,
        ) by {
            if before.holds_key(other) {
                let q = before.key_position(other);
                assert(after.keys@[q] == before.keys@[q]);
                assert(after.holds_key(other));
                let r = after.key_position(other);
                assert(r != n);
                assert(after.keys@[r] == before.keys@[r]);
                assert(r == q);
            } else {
                if after.holds_key(other) {
                    let r = after.key_position(other);
                    assert(r != n);
                    assert(after.keys@[r] == before.keys@[r]);
                }
            }
        }
    }

    /// Set the totals of `key` to `value`, keeping every other key's totals
    /// and the revision.
    fn put(&mut self, key: &str, value: ModelUsageTotals)
        requires
            old(self).well_formed(),
        ensures
            final(self).well_formed(),
            final(self).totals_of(key@) == value,
            forall|other: Seq<char>|
                other != key@ ==> #[trigger] final(self).totals_of(other) == old(self).totals_of(other),
            final(self).revision_of() == old(self).revision_of(),
    {
        let ghost before = *self;
        match self.position_of(key) {
            Some(i) => {
                self.store(i, value);
                proof {
                    Self::lemma_update_position(before, *self, i as int, value);
                }
            },
            None => {
                self.enroll(key, value);
                proof {
                    Self::lemma_enrolled_position(before, *self, key@, value);
                }
            },
        }
    }

    /// The totals accounted under `key`.
    fn get(&self, key: &str) -> (totals: ModelUsageTotals)
        requires
            self.well_formed(),
        ensures
            totals == self.totals_of(key@),
    {
        match self.position_of(key) {
            Some(i) => self.totals[i],
            None => ModelUsageTotals::default(),
        }
    }

    fn advance_revision(&mut self)
        requires
            old(self).well_formed(),
        ensures
            final(self).well_formed(),
            final(self).revision_of() == saturating_sum(old(self).revision_of(), 1),
            forall|key: Seq<char>| #[trigger] final(self).totals_of(key) == old(self).totals_of(key),
    {
        let mut taken = ModelUsageLedger::new();
        std::mem::swap(&mut taken, self);
        let ModelUsageLedger { keys, totals, revision } = taken;
        *self = ModelUsageLedger { keys, totals, revision: revision.saturating_add(1) };
    }

    /// Account one completed call under `character_id` (or the unbound key),
    /// advance the revision, and return the character's new totals.
    pub fn add(&mut self, character_id: Option<&str>, metrics: &ModelCallMetrics) -> (totals: ModelUsageTotals)
        ensures
            final(self).well_formed(),
            totals == accumulated(old(self).totals_of(ledger_key(character_id)), *metrics),
            final(self).totals_of(ledger_key(character_id)) == totals,
            forall|other: Seq<char>|
                other != ledger_key(character_id) ==> #[trigger] final(self).totals_of(other) == old(
                    self,
                ).totals_of(other),
            final(self).revision_of() == saturating_sum(old(self).revision_of(), 1),
    {
        proof {
            use_type_invariant(&*self);
        }
        let key = match character_id {
            Some(id) => id,
            None => "unbound",
        };
        proof {
            reveal_strlit("unbound");
        }
        let current = self.get(key);
        let totals = ModelUsageTotals {
            calls: current.calls.saturating_add(1),
            input_tokens: current.input_tokens.saturating_add(metrics.input_tokens),
            output_tokens: current.output_tokens.saturating_add(metrics.output_tokens),
            total_tokens: current.total_tokens.saturating_add(metrics.total_tokens),
            cached_input_tokens: current.cached_input_tokens.saturating_add(metrics.cached_input_tokens),
            cache_creation_input_tokens: current.cache_creation_input_tokens.saturating_add(
                metrics.cache_creation_input_tokens,
            ),
            tool_use_prompt_tokens: current.tool_use_prompt_tokens.saturating_add(metrics.tool_use_prompt_tokens),
            reasoning_tokens: current.reasoning_tokens.saturating_add(metrics.reasoning_tokens),
            exact_cost_known_calls: if metrics.exact_cost_known {
                current.exact_cost_known_calls.saturating_add(1)
            } else {
                current.exact_cost_known_calls
            },
        };
        self.put(key, totals);
        self.advance_revision();
        totals
    }

    /// The totals accounted for `character_id`; zero for one never seen.
    pub fn totals_for(&self, character_id: &str) -> (totals: ModelUsageTotals)
        ensures
            totals == self.totals_of(character_id@),
    {
        proof {
            use_type_invariant(&*self);
        }
        self.get(character_id)
    }

    /// How many times accounted usage has changed.
    pub fn revision(&self) -> (revision: u64)
        ensures
            revision == self.revision_of(),
    {
        self.revision
    }

    /// Raise the reasoning and cached-input totals to the provider's finalized
    /// native counts where they exceed what the call was accounted with. The
    /// revision advances only when something was added.
    pub fn reconcile_native_usage(
        &mut self,
        character_id: Option<&str>,
        rig_reasoning_tokens: u64,
        rig_cached_input_tokens: u64,
        native_reasoning_tokens: Option<u64>,
        native_cached_input_tokens: Option<u64>,
    ) -> (reconciliation: NativeUsageReconciliation)
        ensures
            final(self).well_formed(),
            reconciliation.reasoning_delta == saturating_difference(
                native_reasoning_tokens.unwrap_or(0),
                rig_reasoning_tokens,
            ),
            reconciliation.cached_delta == saturating_difference(
                native_cached_input_tokens.unwrap_or(0),
                rig_cached_input_tokens,
            ),
            reconciliation.updated_totals == (ModelUsageTotals {
                reasoning_tokens: saturating_sum(
                    old(self).totals_of(ledger_key(character_id)).reasoning_tokens,
                    reconciliation.reasoning_delta,
                ),
                cached_input_tokens: saturating_sum(
                    old(self).totals_of(ledger_key(character_id)).cached_input_tokens,
                    reconciliation.cached_delta,
                ),
                ..old(self).totals_of(ledger_key(character_id))
            }),
            final(self).totals_of(ledger_key(character_id)) == reconciliation.updated_totals,
            forall|other: Seq<char>|
                other != ledger_key(character_id) ==> #[trigger] final(self).totals_of(other) == old(
                    self,
                ).totals_of(other),
            final(self).revision_of() == (if reconciliation.reasoning_delta > 0 || reconciliation.cached_delta > 0 {
                saturating_sum(old(self).revision_of(), 1)
            } else {
                old(self).revision_of()
            }),
    {
        proof {
            use_type_invariant(&*self);
        }
        let reasoning_delta = match native_reasoning_tokens {
            Some(n) => n,
            None => 0,
        }.saturating_sub(rig_reasoning_tokens);
        let cached_delta = match native_cached_input_tokens {
            Some(n) => n,
            None => 0,
        }.saturating_sub(rig_cached_input_tokens);
        let key = match character_id {
            Some(id) => id,
            None => "unbound",
        };
        proof {
            reveal_strlit("unbound");
        }
        let current = self.get(key);
        let updated_totals = ModelUsageTotals {
            reasoning_tokens: current.reasoning_tokens.saturating_add(reasoning_delta),
            cached_input_tokens: current.cached_input_tokens.saturating_add(cached_delta),
            ..current
        };
        self.put(key, updated_totals);
        if reasoning_delta > 0 || cached_delta > 0 {
            self.advance_revision();
        }
        NativeUsageReconciliation { reasoning_delta, cached_delta, updated_totals }
    }

    /// Account every completion of a multi-turn agent run for `character_id`.
    /// The agent runner reports no generation id and no billed cost, so no
    /// call counts toward those with a known cost. Returns the character's
    /// totals after the last call (zero totals when there was none).
    pub fn record_rig_agent_usage(
        &mut self,
        character_id: &str,
        model_id: &str,
        decision_id: &str,
        calls: &Vec<CompletionCallUsage>,
    ) -> (totals: ModelUsageTotals)
        ensures
            final(self).well_formed(),
            final(self).totals_of(character_id@) == accumulated_calls(old(self).totals_of(character_id@), calls@),
            calls@.len() > 0 ==> totals == final(self).totals_of(character_id@),
            calls@.len() == 0 ==> totals == zero_totals(),
            forall|other: Seq<char>|
                other != character_id@ ==> #[trigger] final(self).totals_of(other) == old(self).totals_of(other),
            final(self).revision_of() >= old(self).revision_of(),
    {
        proof {
            use_type_invariant(&*self);
        }
        let mut totals = ModelUsageTotals::default();
        let mut i: usize = 0;
        let ghost start = *self;
        while i < calls.len()
            invariant
                i <= calls@.len(),
                self.well_formed(),
                self.totals_of(character_id@) == accumulated_calls(start.totals_of(character_id@), calls@.take(i as int)),
                i > 0 ==> totals == self.totals_of(character_id@),
                i == 0 ==> totals == zero_totals(),
                forall|other: Seq<char>|
                    other != character_id@ ==> #[trigger] self.totals_of(other) == start.totals_of(other),
                self.revision_of() >= start.revision_of(),
            decreases calls@.len() - i,
        {
            let usage = calls[i];
            let mut generation_id = String::from_str("rig-agent-");
            generation_id.append(decision_id);
            generation_id.append("-");
            append_decimal(&mut generation_id, usage.call_index);
            let metrics = ModelCallMetrics {
                generation_id,
                actual_model: String::from_str(model_id),
                input_tokens: usage.input_tokens,
                output_tokens: usage.output_tokens,
                total_tokens: usage.total_tokens,
                cached_input_tokens: usage.cached_input_tokens,
                cache_creation_input_tokens: usage.cache_creation_input_tokens,
                tool_use_prompt_tokens: usage.tool_use_prompt_tokens,
                reasoning_tokens: usage.reasoning_tokens,
                exact_cost_known: false,
                requested_max_output_tokens: 0,
                finish_reason: None,
                native_finish_reason: None,
            };
            assert(calls@.take(i + 1).drop_last() =~= calls@.take(i as int));
            totals = self.add(Some(character_id), &metrics);
            i = i + 1;
        }
        assert(calls@.take(i as int) =~= calls@);
        totals
    }
}

impl Default for ModelUsageLedger {
    /// An empty ledger at revision zero.
    fn default() -> (ledger: ModelUsageLedger)
        ensures
            ledger.well_formed(),
            forall|key: Seq<char>| #[trigger] ledger.totals_of(key) == zero_totals(),
            ledger.revision_of() == 0,
    {
        ModelUsageLedger::new()
    }
}

/// Accounting a call never lowers any count of any character, changes only
/// the caller's totals, counts exactly one more call for it (until the count
/// saturates) and advances the revision (until it saturates).
pub proof fn law_accounting_only_grows(
    before: ModelUsageLedger,
    after: ModelUsageLedger,
    character_id: Option<&str>,
    metrics: ModelCallMetrics,
)
    requires
        after.totals_of(ledger_key(character_id)) == accumulated(before.totals_of(ledger_key(character_id)), metrics),
        forall|other: Seq<char>|
            other != ledger_key(character_id) ==> #[trigger] after.totals_of(other) == before.totals_of(other),
        after.revision_of() == saturating_sum(before.revision_of(), 1),
    ensures
        forall|key: Seq<char>| totals_at_least(#[trigger] after.totals_of(key), before.totals_of(key)),
        before.totals_of(ledger_key(character_id)).calls < u64::MAX ==> after.totals_of(
            ledger_key(character_id),
        ).calls == before.totals_of(ledger_key(character_id)).calls + 1,
        before.revision_of() < u64::MAX ==> after.revision_of() == before.revision_of() + 1,
{
    assert forall|key: Seq<char>| totals_at_least(#[trigger] after.totals_of(key), before.totals_of(key)) by {
        if key != ledger_key(character_id) {
            assert(after.totals_of(key) == before.totals_of(key));
        }
    }
}

/// Reconciling native counts never lowers a count, and adds nothing (leaving
/// the revision unchanged) when the accounted counts already reach the
/// provider's.
pub proof fn law_reconciliation_only_raises(
    before: ModelUsageLedger,
    after: ModelUsageLedger,
    character_id: Option<&str>,
    rig_reasoning_tokens: u64,
    rig_cached_input_tokens: u64,
    native_reasoning_tokens: Option<u64>,
    native_cached_input_tokens: Option<u64>,
    reconciliation: NativeUsageReconciliation,
)
    requires
        reconciliation.reasoning_delta == saturating_difference(
            native_reasoning_tokens.unwrap_or(0),
            rig_reasoning_tokens,
        ),
        reconciliation.cached_delta == saturating_difference(
            native_cached_input_tokens.unwrap_or(0),
            rig_cached_input_tokens,
        ),
        reconciliation.updated_totals == (ModelUsageTotals {
            reasoning_tokens: saturating_sum(
                before.totals_of(ledger_key(character_id)).reasoning_tokens,
                reconciliation.reasoning_delta,
            ),
            cached_input_tokens: saturating_sum(
                before.totals_of(ledger_key(character_id)).cached_input_tokens,
                reconciliation.cached_delta,
            ),
            ..before.totals_of(ledger_key(character_id))
        }),
        after.totals_of(ledger_key(character_id)) == reconciliation.updated_totals,
        forall|other: Seq<char>|
            other != ledger_key(character_id) ==> #[trigger] after.totals_of(other) == before.totals_of(other),
        after.revision_of() == (if reconciliation.reasoning_delta > 0 || reconciliation.cached_delta > 0 {
            saturating_sum(before.revision_of(), 1)
        } else {
            before.revision_of()
        }),
    ensures
        forall|key: Seq<char>| totals_at_least(#[trigger] after.totals_of(key), before.totals_of(key)),
        native_reasoning_tokens.unwrap_or(0) <= rig_reasoning_tokens && native_cached_input_tokens.unwrap_or(0)
            <= rig_cached_input_tokens ==> after.totals_of(ledger_key(character_id)) == before.totals_of(
            ledger_key(character_id),
        ) && after.revision_of() == before.revision_of(),
{
    assert forall|key: Seq<char>| totals_at_least(#[trigger] after.totals_of(key), before.totals_of(key)) by {
        if key != ledger_key(character_id) {
            assert(after.totals_of(key) == before.totals_of(key));
        }
    }
}

/// Why a completed call's reported usage is anomalous.
#[derive(Debug, Clone, Copy, PartialEq, Eq, Structural)]
pub enum UsageAnomaly {
    CompletionBudgetExhausted,
    ReportedOutputExceedsRequestedMax,
}

impl UsageAnomaly {
    /// The stable name of the anomaly class.
    pub fn as_str(&self) -> (name: &'static str)
        ensures
            name@ == (match self {
                UsageAnomaly::CompletionBudgetExhausted => "completion_budget_exhausted"@,
                UsageAnomaly::ReportedOutputExceedsRequestedMax => "reported_output_exceeds_requested_max"@,
            }),
    {
        match self {
            UsageAnomaly::CompletionBudgetExhausted => "completion_budget_exhausted",
            UsageAnomaly::ReportedOutputExceedsRequestedMax => "reported_output_exceeds_requested_max",
        }
    }
}

/// Whether a finish reason of `metrics` says the completion budget ran out.
pub open spec fn metrics_budget_exhausted(metrics: ModelCallMetrics) -> bool {
    (metrics.finish_reason matches Some(r) && budget_finish_reason(r@)) || (
    metrics.native_finish_reason matches Some(r) && budget_finish_reason(r@))
}

/// The anomaly a completed call reports, if any: an exhausted completion
/// budget first, else more output than was requested.
pub fn usage_anomaly(metrics: &ModelCallMetrics) -> (anomaly: Option<UsageAnomaly>)
    ensures
        anomaly == (if metrics_budget_exhausted(*metrics) {
            Some(UsageAnomaly::CompletionBudgetExhausted)
        } else if metrics.output_tokens > metrics.requested_max_output_tokens {
            Some(UsageAnomaly::ReportedOutputExceedsRequestedMax)
        } else {
            None
        }),
{
    if completion_budget_exhausted(&metrics.finish_reason, &metrics.native_finish_reason) {
        Some(UsageAnomaly::CompletionBudgetExhausted)
    } else if metrics.output_tokens > metrics.requested_max_output_tokens {
        Some(UsageAnomaly::ReportedOutputExceedsRequestedMax)
    } else {
        None
    }
}


// ---------------------------------------------------------------------------
// Provider parameters
// ---------------------------------------------------------------------------

/// The reasoning parameters a provider is sent: an effort to use, or reasoning
/// switched off, and whether reasoning text is excluded from the response.
pub open spec fn reasoning_member(reasoning: ModelReasoningConfig) -> JsonView {
    if reasoning.enabled {
        JsonView::Object(
            seq![
                ("effort"@, JsonView::Text(effort_name(reasoning.effort))),
                ("exclude"@, JsonView::Bool(reasoning.exclude)),
            ],
        )
    } else {
        JsonView::Object(seq![("enabled"@, JsonView::Bool(false)), ("exclude"@, JsonView::Bool(reasoning.exclude))])
    }
}

/// The additional provider parameters of a model request: the reasoning
/// parameters; a provider policy that makes an unsupported parameter fail
/// rather than be dropped; and the session, where one sticks requests together.
pub open spec fn reasoning_params(reasoning: ModelReasoningConfig, session_id: Option<Seq<char>>) -> JsonView {
    let base = seq![
        ("reasoning"@, reasoning_member(reasoning)),
        ("provider"@, JsonView::Object(seq![("require_parameters"@, JsonView::Bool(true))])),
    ];
    JsonView::Object(
        match session_id {
            Some(id) => base.push(("session_id"@, JsonView::Text(id))),
            None => base,
        },
    )
}

fn object2(a: (String, JsonValue), b: (String, JsonValue)) -> (value: JsonValue)
    ensures
        json_view(value) == JsonView::Object(seq![(a.0@, json_view(a.1)), (b.0@, json_view(b.1))]),
{
    let mut members: Vec<(String, JsonValue)> = Vec::new();
    members.push(a);
    members.push(b);
    proof {
        lemma_object_of(members);
        assert(member_views(members@) =~= seq![(a.0@, json_view(a.1)), (b.0@, json_view(b.1))]);
    }
    JsonValue::Object(members)
}

/// The additional provider parameters for `reasoning`, in the session
/// `session_id` when there is one.
pub fn reasoning_additional_params(reasoning: ModelReasoningConfig, session_id: Option<&str>) -> (params: JsonValue)
    ensures
        json_view(params) == reasoning_params(
            reasoning,
            match session_id {
                Some(id) => Some(id@),
                None => None,
            },
        ),
{
    let reasoning_value = if reasoning.enabled {
        object2(
            member("effort", JsonValue::Text(String::from_str(reasoning.effort.as_str()))),
            member("exclude", JsonValue::Bool(reasoning.exclude)),
        )
    } else {
        object2(member("enabled", JsonValue::Bool(false)), member("exclude", JsonValue::Bool(reasoning.exclude)))
    };
    let provider = {
        let mut members: Vec<(String, JsonValue)> = Vec::new();
        members.push(member("require_parameters", JsonValue::Bool(true)));
        proof {
            lemma_object_of(members);
            assert(member_views(members@) =~= seq![("require_parameters"@, JsonView::Bool(true))]);
        }
        JsonValue::Object(members)
    };
    let mut members: Vec<(String, JsonValue)> = Vec::new();
    members.push(member("reasoning", reasoning_value));
    members.push(member("provider", provider));
    let ghost base = member_views(members@);
    match session_id {
        Some(id) => {
            members.push(member("session_id", JsonValue::Text(String::from_str(id))));
        },
        None => {},
    }
    proof {
        lemma_object_of(members);
        let expected = reasoning_params(
            reasoning,
            match session_id {
                Some(id) => Some(id@),
                None => None,
            },
        )->Object_0;
        assert(member_views(members@) =~= expected);
    }
    JsonValue::Object(members)
}


// ---------------------------------------------------------------------------
// The life of one model call
// ---------------------------------------------------------------------------

/// How far one model call got before it ended.
#[derive(Debug, Clone, PartialEq, Eq)]
pub enum ModelCallEnd {
    /// The typed input could not be serialized into a prompt.
    InputSerializationFailed,
    /// The conversation history could not be loaded.
    HistoryLoadFailed,
    /// The provider request failed, as classified.
    RequestFailed(RequestFailureFacts),
    /// The request exceeded its deadline.
    TimedOut { timeout_ms: u64 },
    /// A response arrived and was accounted, but its output did not parse.
    OutputParseFailed,
    /// The output parsed, but the conversation turn could not be appended.
    MemoryAppendFailed,
    /// The output parsed and the turn was appended.
    Completed,
    /// The call was abandoned before any of the above was recorded.
    Cancelled,
}

/// The one terminal record of a model call: completed, or failed with a
/// stable class, saying whether a response arrived and whether its usage
/// was accounted.
#[derive(Debug, Clone, PartialEq, Eq)]
pub enum ModelCallTerminal {
    Completed,
    Failed {
        error_class: &'static str,
        memory_operation: Option<&'static str>,
        timeout_ms: Option<u64>,
        response_received: bool,
        usage_accounted: bool,
    },
}

/// The class under which an ended call is recorded.
pub open spec fn end_class(end: ModelCallEnd) -> Option<Seq<char>> {
    match end {
        ModelCallEnd::InputSerializationFailed => Some("input_serialization"@),
        ModelCallEnd::HistoryLoadFailed => Some("conversation_memory"@),
        ModelCallEnd::RequestFailed(facts) => Some(facts.error_class@),
        ModelCallEnd::TimedOut { .. } => Some("timeout"@),
        ModelCallEnd::OutputParseFailed => Some("output_parse"@),
        ModelCallEnd::MemoryAppendFailed => Some("conversation_memory"@),
        ModelCallEnd::Completed => None,
        ModelCallEnd::Cancelled => Some("cancelled"@),
    }
}

/// Whether a response had arrived (and so been accounted) when the call ended.
pub open spec fn response_arrived(end: ModelCallEnd) -> bool {
    end is OutputParseFailed || end is MemoryAppendFailed || end is Completed
}

/// The terminal record of an ended call.
pub open spec fn terminal_of(end: ModelCallEnd, terminal: ModelCallTerminal) -> bool {
    match end_class(end) {
        None => terminal is Completed,
        Some(class) => terminal matches ModelCallTerminal::Failed {
            error_class,
            memory_operation,
            timeout_ms,
            response_received,
            usage_accounted,
        } && error_class@ == class && response_received == response_arrived(end) && usage_accounted
            == response_arrived(end) && timeout_ms == (match end {
            ModelCallEnd::TimedOut { timeout_ms } => Some(timeout_ms),
            _ => None,
        }) && memory_operation == (match end {
            ModelCallEnd::HistoryLoadFailed => Some("load"),
            ModelCallEnd::MemoryAppendFailed => Some("append"),
            _ => None::<&'static str>,
        }),
    }
}

fn failed(error_class: &'static str, memory_operation: Option<&'static str>, timeout_ms: Option<u64>, response_received: bool) -> (terminal: ModelCallTerminal)
    ensures
        terminal == (ModelCallTerminal::Failed {
            error_class,
            memory_operation,
            timeout_ms,
            response_received,
            usage_accounted: response_received,
        }),
{
    ModelCallTerminal::Failed { error_class, memory_operation, timeout_ms, response_received, usage_accounted: response_received }
}

/// The terminal record of a call that ended as `end`.
pub fn model_call_terminal(end: &ModelCallEnd) -> (terminal: ModelCallTerminal)
    ensures
        terminal_of(*end, terminal),
{
    match end {
        ModelCallEnd::InputSerializationFailed => failed("input_serialization", None, None, false),
        ModelCallEnd::HistoryLoadFailed => failed("conversation_memory", Some("load"), None, false),
        ModelCallEnd::RequestFailed(facts) => failed(facts.error_class, None, None, false),
        ModelCallEnd::TimedOut { timeout_ms } => failed("timeout", None, Some(*timeout_ms), false),
        ModelCallEnd::OutputParseFailed => failed("output_parse", None, None, true),
        ModelCallEnd::MemoryAppendFailed => failed("conversation_memory", Some("append"), None, true),
        ModelCallEnd::Completed => ModelCallTerminal::Completed,
        ModelCallEnd::Cancelled => failed("cancelled", None, None, false),
    }
}

/// Makes sure a model call leaves exactly one terminal record: the one the
/// call recorded itself, or, when it was abandoned first, a cancellation.
#[derive(Debug, Clone, Copy, PartialEq, Eq, Structural)]
pub struct ModelCallTerminalGuard {
    pub terminal_recorded: bool,
}

impl ModelCallTerminalGuard {
    /// A guard for a call that has recorded nothing yet.
    pub fn new() -> (guard: ModelCallTerminalGuard)
        ensures
            !guard.terminal_recorded,
    {
        ModelCallTerminalGuard { terminal_recorded: false }
    }

    /// The call recorded its terminal record.
    pub fn mark_terminal_recorded(&mut self)
        ensures
            final(self).terminal_recorded,
    {
        self.terminal_recorded = true;
    }

    /// What the guard records when the call goes away: a cancellation, unless
    /// the call recorded its own terminal record.
    pub fn release(self) -> (record: Option<ModelCallTerminal>)
        ensures
            self.terminal_recorded ==> record is None,
            !self.terminal_recorded ==> (record matches Some(t) && terminal_of(ModelCallEnd::Cancelled, t)),
    {
        if self.terminal_recorded {
            None
        } else {
            Some(model_call_terminal(&ModelCallEnd::Cancelled))
        }
    }
}

/// A call whose own terminal record was made leaves no second one; a call
/// abandoned before it leaves exactly the cancellation.
pub proof fn law_one_terminal_record_per_call(guard: ModelCallTerminalGuard, record: Option<ModelCallTerminal>)
    requires
        guard.terminal_recorded ==> record is None,
        !guard.terminal_recorded ==> (record matches Some(t) && terminal_of(ModelCallEnd::Cancelled, t)),
    ensures
        guard.terminal_recorded <==> record is None,
        record matches Some(ModelCallTerminal::Failed { response_received, usage_accounted, .. })
            ==> !response_received && !usage_accounted,
{
}

impl ModelUsageLedger {
    /// Record how a model call ended: when its response arrived, account the
    /// response's usage to `character_id` (whether or not its output was then
    /// usable); and give the call's one terminal record.
    pub fn account_call(
        &mut self,
        character_id: Option<&str>,
        end: &ModelCallEnd,
        metrics: &ModelCallMetrics,
    ) -> (terminal: ModelCallTerminal)
        ensures
            final(self).well_formed(),
            terminal_of(*end, terminal),
            response_arrived(*end) ==> {
                &&& final(self).totals_of(ledger_key(character_id)) == accumulated(
                    old(self).totals_of(ledger_key(character_id)),
                    *metrics,
                )
                &&& forall|other: Seq<char>|
                    other != ledger_key(character_id) ==> #[trigger] final(self).totals_of(other) == old(
                        self,
                    ).totals_of(other)
                &&& final(self).revision_of() == saturating_sum(old(self).revision_of(), 1)
            },
            !response_arrived(*end) ==> {
                &&& forall|key: Seq<char>| #[trigger] final(self).totals_of(key) == old(self).totals_of(key)
                &&& final(self).revision_of() == old(self).revision_of()
            },
    {
        proof {
            use_type_invariant(&*self);
        }
        let arrived = match end {
            ModelCallEnd::OutputParseFailed | ModelCallEnd::MemoryAppendFailed | ModelCallEnd::Completed => true,
            _ => false,
        };
        if arrived {
            let _ = self.add(character_id, metrics);
        }
        model_call_terminal(end)
    }
}

/// A call's usage is accounted exactly when its response arrived: the
/// ledger counts one more call for the character when a response arrived
/// (until the count saturates), and is left as it was when none did; and the
/// terminal record says so. A failed call is never billed twice nor silently
/// dropped from the totals.
pub proof fn law_usage_accounted_exactly_when_a_response_arrived(
    before: ModelUsageLedger,
    after: ModelUsageLedger,
    key: Seq<char>,
    end: ModelCallEnd,
    metrics: ModelCallMetrics,
    terminal: ModelCallTerminal,
)
    requires
        before.well_formed(),
        terminal_of(end, terminal),
        response_arrived(end) ==> {
            &&& after.totals_of(key) == accumulated(before.totals_of(key), metrics)
            &&& forall|other: Seq<char>| other != key ==> #[trigger] after.totals_of(other) == before.totals_of(other)
        },
        !response_arrived(end) ==> forall|k: Seq<char>| #[trigger] after.totals_of(k) == before.totals_of(k),
    ensures
        response_arrived(end) ==> after.totals_of(key).calls == saturating_sum(before.totals_of(key).calls, 1),
        response_arrived(end) && before.totals_of(key).calls < u64::MAX ==> after.totals_of(key).calls
            == before.totals_of(key).calls + 1,
        !response_arrived(end) ==> after.totals_of(key) == before.totals_of(key),
        terminal matches ModelCallTerminal::Failed { response_received, usage_accounted, .. } ==> (
        response_received == usage_accounted && usage_accounted == response_arrived(end)),
{
}

/// Accounting a call adds each of its counts to the same-named total of the
/// character (held at the largest value), one call to the call count, and
/// one exactly-costed call when the provider reported the exact cost.
pub proof fn law_each_total_grows_by_its_own_count(
    before: ModelUsageLedger,
    after: ModelUsageLedger,
    key: Seq<char>,
    metrics: ModelCallMetrics,
)
    requires
        after.totals_of(key) == accumulated(before.totals_of(key), metrics),
    ensures
        after.totals_of(key).calls == (if before.totals_of(key).calls + 1 <= u64::MAX { before.totals_of(key).calls + 1 } else { u64::MAX as int }),
        after.totals_of(key).input_tokens == (if before.totals_of(key).input_tokens + metrics.input_tokens <= u64::MAX { before.totals_of(key).input_tokens + metrics.input_tokens } else { u64::MAX as int }),
        after.totals_of(key).output_tokens == (if before.totals_of(key).output_tokens + metrics.output_tokens <= u64::MAX { before.totals_of(key).output_tokens + metrics.output_tokens } else { u64::MAX as int }),
        after.totals_of(key).total_tokens == (if before.totals_of(key).total_tokens + metrics.total_tokens <= u64::MAX { before.totals_of(key).total_tokens + metrics.total_tokens } else { u64::MAX as int }),
        after.totals_of(key).cached_input_tokens == (if before.totals_of(key).cached_input_tokens + metrics.cached_input_tokens <= u64::MAX { before.totals_of(key).cached_input_tokens + metrics.cached_input_tokens } else { u64::MAX as int }),
        after.totals_of(key).cache_creation_input_tokens == (if before.totals_of(key).cache_creation_input_tokens + metrics.cache_creation_input_tokens <= u64::MAX { before.totals_of(key).cache_creation_input_tokens + metrics.cache_creation_input_tokens } else { u64::MAX as int }),
        after.totals_of(key).tool_use_prompt_tokens == (if before.totals_of(key).tool_use_prompt_tokens + metrics.tool_use_prompt_tokens <= u64::MAX { before.totals_of(key).tool_use_prompt_tokens + metrics.tool_use_prompt_tokens } else { u64::MAX as int }),
        after.totals_of(key).reasoning_tokens == (if before.totals_of(key).reasoning_tokens + metrics.reasoning_tokens <= u64::MAX { before.totals_of(key).reasoning_tokens + metrics.reasoning_tokens } else { u64::MAX as int }),
        after.totals_of(key).exact_cost_known_calls == if metrics.exact_cost_known {
            (if before.totals_of(key).exact_cost_known_calls + 1 <= u64::MAX { before.totals_of(key).exact_cost_known_calls + 1 } else { u64::MAX as int })
        } else {
            before.totals_of(key).exact_cost_known_calls as int
        },
{
}

/// Accounting one more completion call of an agent run adds each of its
/// counts to the same-named total (held at the largest value) and one call to
/// the call count.
pub proof fn law_agent_calls_add_each_count(
    totals: ModelUsageTotals,
    calls: Seq<CompletionCallUsage>,
    call: CompletionCallUsage,
)
    ensures
        accumulated_calls(totals, calls.push(call)).calls == (if accumulated_calls(totals, calls).calls + 1 <= u64::MAX { accumulated_calls(totals, calls).calls + 1 } else { u64::MAX as int }),
        accumulated_calls(totals, calls.push(call)).input_tokens == (if accumulated_calls(totals, calls).input_tokens + call.input_tokens <= u64::MAX { accumulated_calls(totals, calls).input_tokens + call.input_tokens } else { u64::MAX as int }),
        accumulated_calls(totals, calls.push(call)).output_tokens == (if accumulated_calls(totals, calls).output_tokens + call.output_tokens <= u64::MAX { accumulated_calls(totals, calls).output_tokens + call.output_tokens } else { u64::MAX as int }),
        accumulated_calls(totals, calls.push(call)).total_tokens == (if accumulated_calls(totals, calls).total_tokens + call.total_tokens <= u64::MAX { accumulated_calls(totals, calls).total_tokens + call.total_tokens } else { u64::MAX as int }),
        accumulated_calls(totals, calls.push(call)).cached_input_tokens == (if accumulated_calls(totals, calls).cached_input_tokens + call.cached_input_tokens <= u64::MAX { accumulated_calls(totals, calls).cached_input_tokens + call.cached_input_tokens } else { u64::MAX as int }),
        accumulated_calls(totals, calls.push(call)).cache_creation_input_tokens == (if accumulated_calls(totals, calls).cache_creation_input_tokens + call.cache_creation_input_tokens <= u64::MAX { accumulated_calls(totals, calls).cache_creation_input_tokens + call.cache_creation_input_tokens } else { u64::MAX as int }),
        accumulated_calls(totals, calls.push(call)).tool_use_prompt_tokens == (if accumulated_calls(totals, calls).tool_use_prompt_tokens + call.tool_use_prompt_tokens <= u64::MAX { accumulated_calls(totals, calls).tool_use_prompt_tokens + call.tool_use_prompt_tokens } else { u64::MAX as int }),
        accumulated_calls(totals, calls.push(call)).reasoning_tokens == (if accumulated_calls(totals, calls).reasoning_tokens + call.reasoning_tokens <= u64::MAX { accumulated_calls(totals, calls).reasoning_tokens + call.reasoning_tokens } else { u64::MAX as int }),
{
    assert(calls.push(call).drop_last() =~= calls);
}

/// The pauses, in milliseconds, between attempts to read a generation's
/// finalized accounting record.
pub open spec fn generation_retry_delays() -> Seq<u64> {
    seq![250, 750, 2000, 5000, 10000, 30000]
}

/// After failed attempt `attempt` (from one), the pause before the next
/// attempt, or none when the attempts are used up.
pub fn generation_retry_delay(attempt: u8) -> (delay_ms: Option<u64>)
    ensures
        1 <= attempt <= 6 ==> delay_ms == Some(generation_retry_delays()[attempt - 1]),
        !(1 <= attempt <= 6) ==> delay_ms is None,
{
    match attempt {
        1 => Some(250),
        2 => Some(750),
        3 => Some(2000),
        4 => Some(5000),
        5 => Some(10000),
        6 => Some(30000),
        _ => None,
    }
}

/// Each pause between attempts to read a generation's accounting record is
/// longer than the one before.
pub proof fn law_generation_retry_pauses_grow()
    ensures
        forall|i: int, j: int|
            0 <= i < j < generation_retry_delays().len() ==> generation_retry_delays()[i]
                < generation_retry_delays()[j],
{
}


// ---------------------------------------------------------------------------
// Model output
// ---------------------------------------------------------------------------

/// Why a model's output could not be used.
#[derive(Debug, Clone, PartialEq, Eq)]
pub enum ModelOutputError {
    MissingText,
    InvalidJson(JsonParseError),
}

pub open spec fn category_name(category: JsonErrorCategory) -> Seq<char> {
    match category {
        JsonErrorCategory::Io => "io"@,
        JsonErrorCategory::Syntax => "syntax"@,
        JsonErrorCategory::Data => "data"@,
        JsonErrorCategory::Eof => "eof"@,
    }
}

/// The kind of schema mismatch a decoder's message reports, checked in this order.
pub open spec fn schema_error_kind_of(error: ModelOutputError) -> Seq<char> {
    match error {
        ModelOutputError::MissingText => "missing_text"@,
        ModelOutputError::InvalidJson(e) => if contains_text(e.message@, "missing field"@) {
            "missing_field"@
        } else if contains_text(e.message@, "unknown variant"@) {
            "unknown_variant"@
        } else if contains_text(e.message@, "invalid type"@) {
            "invalid_type"@
        } else if contains_text(e.message@, "unknown field"@) {
            "unknown_field"@
        } else if e.category == JsonErrorCategory::Data {
            "schema_data"@
        } else {
            "json_syntax"@
        },
    }
}

impl ModelOutputError {
    /// The stable class of the error.
    pub fn class(&self) -> (class: &'static str)
        ensures
            class@ == (match self {
                ModelOutputError::MissingText => "missing_text"@,
                ModelOutputError::InvalidJson(_) => "invalid_json"@,
            }),
    {
        match self {
            ModelOutputError::MissingText => "missing_text",
            ModelOutputError::InvalidJson(_) => "invalid_json",
        }
    }

    /// The human-readable text of the error.
    pub fn message(&self) -> (text: String)
        ensures
            text@ == (match self {
                ModelOutputError::MissingText => "model returned no text content"@,
                ModelOutputError::InvalidJson(e) => "model output was not valid structured JSON: "@ + e.message@,
            }),
    {
        match self {
            ModelOutputError::MissingText => String::from_str("model returned no text content"),
            ModelOutputError::InvalidJson(e) => {
                let mut text = String::from_str("model output was not valid structured JSON: ");
                text.append(e.message.as_str());
                text
            },
        }
    }

    /// Where a JSON fault was found: its class, line and column.
    pub fn json_diagnostics(&self) -> (diagnostics: Option<(&'static str, usize, usize)>)
        ensures
            match self {
                ModelOutputError::MissingText => diagnostics is None,
                ModelOutputError::InvalidJson(e) => diagnostics matches Some((name, line, column)) && name@
                    == category_name(e.category) && line == e.line && column == e.column,
            },
    {
        match self {
            ModelOutputError::MissingText => None,
            ModelOutputError::InvalidJson(e) => {
                let name = match e.category {
                    JsonErrorCategory::Io => "io",
                    JsonErrorCategory::Syntax => "syntax",
                    JsonErrorCategory::Data => "data",
                    JsonErrorCategory::Eof => "eof",
                };
                Some((name, e.line, e.column))
            },
        }
    }

    /// The kind of schema mismatch, as far as the decoder's message says.
    pub fn schema_error_kind(&self) -> (kind: &'static str)
        ensures
            kind@ == schema_error_kind_of(*self),
    {
        match self {
            ModelOutputError::MissingText => "missing_text",
            ModelOutputError::InvalidJson(e) => {
                let message = e.message.as_str();
                if crate::text::text_contains(message, "missing field") {
                    "missing_field"
                } else if crate::text::text_contains(message, "unknown variant") {
                    "unknown_variant"
                } else if crate::text::text_contains(message, "invalid type") {
                    "invalid_type"
                } else if crate::text::text_contains(message, "unknown field") {
                    "unknown_field"
                } else if e.category == JsonErrorCategory::Data {
                    "schema_data"
                } else {
                    "json_syntax"
                }
            },
        }
    }
}

/// Parse a model's output as exactly one JSON document, after trimming
/// surrounding white space. Missing text is its own failure.
pub fn parse_model_output(text: Option<&str>) -> (parsed: Result<JsonValue, ModelOutputError>)
    ensures
        match text {
            None => parsed matches Err(ModelOutputError::MissingText),
            Some(t) => match parsed {
                Ok(v) => json_value_of(trimmed(t@)) == Some(json_view(v)),
                Err(e) => json_value_of(trimmed(t@)) is None && e is InvalidJson,
            },
        },
{
    match text {
        None => Err(ModelOutputError::MissingText),
        Some(t) => {
            let json = trim(t);
            match parse_json_document(json.as_str()) {
                Ok(value) => Ok(value),
                Err(error) => Err(ModelOutputError::InvalidJson(json_parse_error(&error))),
            }
        },
    }
}

/// One fact about the shape of a model's output, safe to record: it carries
/// JSON kinds, counts and short labels, never the output's free text.
#[derive(Debug, Clone, PartialEq, Eq)]
pub enum ShapeValue {
    Flag(bool),
    Text(String),
    Count(u64),
}

#[derive(Debug, Clone, PartialEq, Eq)]
pub struct ShapeFact {
    pub name: &'static str,
    pub value: ShapeValue,
}

pub enum ShapeValueView {
    Flag(bool),
    Text(Seq<char>),
    Count(u64),
}

pub struct ShapeFactView {
    pub name: Seq<char>,
    pub value: ShapeValueView,
}

impl View for ShapeFact {
    type V = ShapeFactView;

    open spec fn view(&self) -> ShapeFactView {
        ShapeFactView {
            name: self.name@,
            value: match self.value {
                ShapeValue::Flag(b) => ShapeValueView::Flag(b),
                ShapeValue::Text(t) => ShapeValueView::Text(t@),
                ShapeValue::Count(c) => ShapeValueView::Count(c),
            },
        }
    }
}

pub open spec fn fact_views(facts: Seq<ShapeFact>) -> Seq<ShapeFactView> {
    facts.map_values(|f: ShapeFact| f@)
}

/// The JSON kind of a value.
pub open spec fn kind_name(value: JsonView) -> Seq<char> {
    match value {
        JsonView::Null => "null"@,
        JsonView::Bool(_) => "boolean"@,
        JsonView::Number(_) => "number"@,
        JsonView::Text(_) => "string"@,
        JsonView::Array(_) => "array"@,
        JsonView::Object(_) => "object"@,
    }
}

/// The JSON kind of a value.
pub fn json_kind(value: &JsonValue) -> (kind: &'static str)
    ensures
        kind@ == kind_name(json_view(*value)),
{
    match value {
        JsonValue::Null => "null",
        JsonValue::Bool(_) => "boolean",
        JsonValue::Number(_) => "number",
        JsonValue::Text(_) => "string",
        JsonValue::Array(_) => "array",
        JsonValue::Object(_) => "object",
    }
}

/// The output fields whose kinds are recorded, with the name of each fact.
pub open spec fn shape_fields() -> Seq<(Seq<char>, Seq<char>)> {
    seq![
        ("intent"@, "intent_json_kind"@),
        ("actions"@, "actions_json_kind"@),
        ("valid_for_ms"@, "valid_for_ms_json_kind"@),
        ("abort_if"@, "abort_if_json_kind"@),
        ("rationale"@, "rationale_json_kind"@),
        ("objective"@, "objective_json_kind"@),
        ("subgoals"@, "subgoals_json_kind"@),
        ("priorities"@, "priorities_json_kind"@),
        ("constraints"@, "constraints_json_kind"@),
        ("risk_tolerance"@, "risk_tolerance_json_kind"@),
        ("preferred_targets"@, "preferred_targets_json_kind"@),
        ("avoid"@, "avoid_json_kind"@),
        ("navigation_goal"@, "navigation_goal_json_kind"@),
        ("speech"@, "speech_json_kind"@),
        ("expires_at"@, "expires_at_json_kind"@),
    ]
}

fn shape_field(i: usize) -> (field: (&'static str, &'static str))
    requires
        i < 15,
    ensures
        field.0@ == shape_fields()[i as int].0,
        field.1@ == shape_fields()[i as int].1,
{
    match i {
        0 => ("intent", "intent_json_kind"),
        1 => ("actions", "actions_json_kind"),
        2 => ("valid_for_ms", "valid_for_ms_json_kind"),
        3 => ("abort_if", "abort_if_json_kind"),
        4 => ("rationale", "rationale_json_kind"),
        5 => ("objective", "objective_json_kind"),
        6 => ("subgoals", "subgoals_json_kind"),
        7 => ("priorities", "priorities_json_kind"),
        8 => ("constraints", "constraints_json_kind"),
        9 => ("risk_tolerance", "risk_tolerance_json_kind"),
        10 => ("preferred_targets", "preferred_targets_json_kind"),
        11 => ("avoid", "avoid_json_kind"),
        12 => ("navigation_goal", "navigation_goal_json_kind"),
        13 => ("speech", "speech_json_kind"),
        _ => ("expires_at", "expires_at_json_kind"),
    }
}

/// The kind fact of field `i`: the kind of the member, or `missing`.
pub open spec fn field_kind_fact(members: Seq<(Seq<char>, JsonView)>, i: int) -> ShapeFactView {
    ShapeFactView {
        name: shape_fields()[i].1,
        value: ShapeValueView::Text(
            match member_value(members, shape_fields()[i].0) {
                Some(v) => kind_name(v),
                None => "missing"@,
            },
        ),
    }
}

/// A dimension value cut to its first forty characters.
pub open spec fn truncated(text: Seq<char>) -> Seq<char> {
    if text.len() <= 40 {
        text
    } else {
        text.take(40)
    }
}

/// The `type` texts of the items that have one, in order.
pub open spec fn action_types(items: Seq<JsonView>) -> Seq<Seq<char>>
    decreases items.len(),
{
    if items.len() == 0 {
        Seq::empty()
    } else {
        let earlier = action_types(items.drop_last());
        match items.last() {
            JsonView::Object(m) => match member_value(m, "type"@) {
                Some(JsonView::Text(t)) => earlier.push(t),
                _ => earlier,
            },
            _ => earlier,
        }
    }
}

/// Texts joined with commas.
pub open spec fn comma_joined(texts: Seq<Seq<char>>) -> Seq<char>
    decreases texts.len(),
{
    if texts.len() == 0 {
        Seq::empty()
    } else if texts.len() == 1 {
        texts[0]
    } else {
        comma_joined(texts.drop_last()) + ","@ + texts.last()
    }
}

/// The first (at most) five action types, each cut to forty characters.
pub open spec fn action_type_summary(items: Seq<JsonView>) -> Seq<char> {
    let types = action_types(items);
    let first = if types.len() <= 5 {
        types
    } else {
        types.take(5)
    };
    comma_joined(first.map_values(|t: Seq<char>| truncated(t)))
}

/// The facts recorded about an object root.
pub open spec fn object_facts(members: Seq<(Seq<char>, JsonView)>) -> Seq<ShapeFactView> {
    let count = seq![ShapeFactView { name: "root_field_count"@, value: ShapeValueView::Count(members.len() as u64) }];
    let kinds = Seq::new(15, |i: int| field_kind_fact(members, i));
    let intent = match member_value(members, "intent"@) {
        Some(JsonView::Text(t)) => seq![ShapeFactView { name: "intent_value"@, value: ShapeValueView::Text(truncated(t)) }],
        _ => Seq::empty(),
    };
    let actions = match member_value(members, "actions"@) {
        Some(JsonView::Array(items)) => seq![
            ShapeFactView { name: "actions_count"@, value: ShapeValueView::Count(items.len() as u64) },
            ShapeFactView { name: "action_type_values"@, value: ShapeValueView::Text(action_type_summary(items)) },
        ],
        _ => Seq::empty(),
    };
    count + kinds + intent + actions
}

/// What may be recorded about a model output that was absent, not JSON, or
/// the JSON `parsed`: whether it was JSON, its root kind, and for an object
/// its field count, each known field's kind, a short intent and the first
/// action types.
pub open spec fn output_shape(output: Option<Option<JsonView>>) -> Seq<ShapeFactView> {
    match output {
        None => Seq::empty(),
        Some(None) => seq![ShapeFactView { name: "untyped_json_valid"@, value: ShapeValueView::Flag(false) }],
        Some(Some(root)) => {
            let head = seq![
                ShapeFactView { name: "untyped_json_valid"@, value: ShapeValueView::Flag(true) },
                ShapeFactView { name: "root_json_kind"@, value: ShapeValueView::Text(kind_name(root)) },
            ];
            match root {
                JsonView::Object(members) => head + object_facts(members),
                _ => head,
            }
        },
    }
}

fn push_fact(facts: &mut Vec<ShapeFact>, fact: ShapeFact)
    ensures
        fact_views(final(facts)@) == fact_views(old(facts)@).push(fact@),
{
    facts.push(fact);
    assert(fact_views(final(facts)@) =~= fact_views(old(facts)@).push(fact@));
}

fn join_with_commas(texts: &Vec<String>) -> (joined: String)
    ensures
        joined@ == comma_joined(crate::text::text_views(texts@)),
{
    let mut joined = String::new();
    let mut i: usize = 0;
    while i < texts.len()
        invariant
            i <= texts@.len(),
            joined@ == comma_joined(crate::text::text_views(texts@.take(i as int))),
        decreases texts@.len() - i,
    {
        proof {
            assert(crate::text::text_views(texts@.take(i + 1)).drop_last() =~= crate::text::text_views(
                texts@.take(i as int),
            ));
            reveal_strlit(",");
        }
        if i > 0 {
            joined.append(",");
        }
        joined.append(texts[i].as_str());
        proof {
            if i == 0 {
                assert(joined@ =~= texts@[0]@);
            }
        }
        i = i + 1;
    }
    assert(texts@.take(i as int) =~= texts@);
    joined
}

proof fn lemma_action_types_prefix(items: Seq<JsonView>, n: int)
    requires
        0 <= n <= items.len(),
    ensures
        action_types(items.take(n)).len() <= action_types(items).len(),
        action_types(items).take(action_types(items.take(n)).len() as int) == action_types(items.take(n)),
    decreases items.len() - n,
{
    if n < items.len() {
        lemma_action_types_prefix(items, n + 1);
        assert(items.take(n + 1).drop_last() =~= items.take(n));
        let a = action_types(items.take(n));
        let b = action_types(items.take(n + 1));
        assert(b == a || b == a.push(b.last()));
        let all = action_types(items);
        if b.len() > a.len() {
            assert(all.take(a.len() as int) =~= b.take(a.len() as int));
            assert(b.take(a.len() as int) =~= a);
        } else {
            assert(b =~= a);
        }
    } else {
        assert(items.take(n) =~= items);
        assert(action_types(items).take(action_types(items).len() as int) =~= action_types(items));
    }
}

fn action_type_values(items: &Vec<JsonValue>) -> (summary: String)
    ensures
        summary@ == action_type_summary(crate::json::item_views(items@)),
{
    let ghost views = crate::json::item_views(items@);
    let mut shown: Vec<String> = Vec::new();
    let mut i: usize = 0;
    while i < items.len() && shown.len() < 5
        invariant
            i <= items@.len(),
            views == crate::json::item_views(items@),
            shown@.len() <= 5,
            crate::text::text_views(shown@) == action_types(views.take(i as int)).map_values(
                |t: Seq<char>| truncated(t),
            ),
        decreases items@.len() - i,
    {
        proof {
            assert(views.take(i + 1).drop_last() =~= views.take(i as int));
            assert(views.take(i + 1).last() == json_view(items@[i as int]));
        }
        let ghost before = shown@;
        match &items[i] {
            JsonValue::Object(members) => {
                proof {
                    crate::json::lemma_object_of(*members);
                }
                match find_member(members, "type") {
                    Some(JsonValue::Text(t)) => {
                        shown.push(truncate_dimension(t.as_str()));
                        proof {
                            reveal_strlit("type");
                            assert(crate::text::text_views(shown@) =~= crate::text::text_views(before).push(
                                truncated(t@),
                            ));
                        }
                    },
                    _ => {
                        proof {
                            reveal_strlit("type");
                        }
                    },
                }
            },
            _ => {},
        }
        proof {
            assert(action_types(views.take(i + 1)).map_values(|t: Seq<char>| truncated(t)) =~= crate::text::text_views(
                shown@,
            ));
        }
        i = i + 1;
    }
    proof {
        let all = action_types(views);
        let seen = action_types(views.take(i as int));
        lemma_action_types_prefix(views, i as int);
        let first = if all.len() <= 5 {
            all
        } else {
            all.take(5)
        };
        if i == items.len() {
            assert(views.take(i as int) =~= views);
        }
        assert(seen.len() == shown@.len());
        assert(first =~= seen);
        assert(first.map_values(|t: Seq<char>| truncated(t)) =~= crate::text::text_views(shown@));
    }
    join_with_commas(&shown)
}

/// The facts that may be recorded about a model output: absent (`None`), not
/// JSON (`Some(None)`), or the parsed JSON.
pub fn safe_output_shape(output: &Option<Option<JsonValue>>) -> (facts: Vec<ShapeFact>)
    ensures
        fact_views(facts@) == output_shape(
            match output {
                None => None,
                Some(None) => Some(None),
                Some(Some(v)) => Some(Some(json_view(*v))),
            },
        ),
{
    let mut facts: Vec<ShapeFact> = Vec::new();
    match output {
        None => {
            assert(fact_views(facts@) =~= Seq::<ShapeFactView>::empty());
            facts
        },
        Some(None) => {
            push_fact(&mut facts, ShapeFact { name: "untyped_json_valid", value: ShapeValue::Flag(false) });
            assert(fact_views(facts@) =~= output_shape(Some(None)));
            facts
        },
        Some(Some(root)) => {
            push_fact(&mut facts, ShapeFact { name: "untyped_json_valid", value: ShapeValue::Flag(true) });
            push_fact(
                &mut facts,
                ShapeFact { name: "root_json_kind", value: ShapeValue::Text(String::from_str(json_kind(root))) },
            );
            let ghost head = fact_views(facts@);
            match root {
                JsonValue::Object(members) => {
                    proof {
                        crate::json::lemma_object_of(*members);
                    }
                    let ghost m = member_views(members@);
                    push_fact(
                        &mut facts,
                        ShapeFact { name: "root_field_count", value: ShapeValue::Count(members.len() as u64) },
                    );
                    let mut i: usize = 0;
                    while i < 15
                        invariant
                            i <= 15,
                            m == member_views(members@),
                            fact_views(facts@) == head + seq![
                                ShapeFactView {
                                    name: "root_field_count"@,
                                    value: ShapeValueView::Count(m.len() as u64),
                                },
                            ] + Seq::new(i as nat, |k: int| field_kind_fact(m, k)),
                        decreases 15 - i,
                    {
                        let (field, name) = shape_field(i);
                        let kind: &'static str = match find_member(members, field) {
                            Some(v) => json_kind(v),
                            None => "missing",
                        };
                        let ghost before = fact_views(facts@);
                        push_fact(&mut facts, ShapeFact { name, value: ShapeValue::Text(String::from_str(kind)) });
                        proof {
                            assert(Seq::new((i + 1) as nat, |k: int| field_kind_fact(m, k)) =~= Seq::new(
                                i as nat,
                                |k: int| field_kind_fact(m, k),
                            ).push(field_kind_fact(m, i as int)));
                        }
                        i = i + 1;
                    }
                    let ghost after_kinds = fact_views(facts@);
                    proof {
                        reveal_strlit("intent");
                        reveal_strlit("actions");
                    }
                    match find_member(members, "intent") {
                        Some(JsonValue::Text(t)) => {
                            push_fact(
                                &mut facts,
                                ShapeFact { name: "intent_value", value: ShapeValue::Text(truncate_dimension(t.as_str())) },
                            );
                        },
                        _ => {},
                    }
                    let ghost after_intent = fact_views(facts@);
                    match find_member(members, "actions") {
                        Some(JsonValue::Array(items)) => {
                            proof {
                                crate::json::lemma_array_view(*items);
                            }
                            push_fact(
                                &mut facts,
                                ShapeFact { name: "actions_count", value: ShapeValue::Count(items.len() as u64) },
                            );
                            push_fact(
                                &mut facts,
                                ShapeFact { name: "action_type_values", value: ShapeValue::Text(action_type_values(items)) },
                            );
                        },
                        _ => {},
                    }
                    proof {
                        let expected = output_shape(Some(Some(json_view(*root))));
                        assert(json_view(*root) == JsonView::Object(m));
                        assert(fact_views(facts@) =~= expected);
                    }
                    facts
                },
                _ => {
                    assert(fact_views(facts@) =~= output_shape(Some(Some(json_view(*root)))));
                    facts
                },
            }
        },
    }
}

} // verus!
