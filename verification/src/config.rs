//! Harness configuration: how each setting is read from the environment, and
//! the order in which invalid settings are reported.
//!
//! The environment is handed over as a list of name and value pairs (the first
//! entry of a name counts). Settings that are floating-point numbers are judged
//! by the caller; this module is told only whether, and how, each was refused.

use vstd::prelude::*;

use crate::text::{
    append_decimal, ascii_lowercased, blank, decimal_text, eq_ignore_ascii_case, is_blank, law_decimal_round_trip,
    lowercase,
    optional_text, parsed_unsigned, parse_unsigned, text_equals, trim, trimmed, unicode_lowercase,
};

verus! {


/// Provider-independent reasoning effort levels used by this harness.
///
/// `max`, `xhigh` and `none` are deliberately excluded; a separate `enabled`
/// flag represents disabled reasoning.
#[derive(Debug, Clone, Copy, PartialEq, Eq, Structural)]
pub enum ReasoningEffort {
    Minimal,
    Low,
    Medium,
    High,
}

pub open spec fn effort_name(effort: ReasoningEffort) -> Seq<char> {
    match effort {
        ReasoningEffort::Minimal => "minimal"@,
        ReasoningEffort::Low => "low"@,
        ReasoningEffort::Medium => "medium"@,
        ReasoningEffort::High => "high"@,
    }
}

/// Smallest completion budget that leaves room for both hidden reasoning and
/// the structured answer.
pub open spec fn effort_minimum_tokens(effort: ReasoningEffort) -> u64 {
    match effort {
        ReasoningEffort::Minimal => 512,
        ReasoningEffort::Low => 1000,
        ReasoningEffort::Medium => 2000,
        ReasoningEffort::High => 4000,
    }
}

/// The effort a setting names: its trimmed text, ASCII case ignored.
pub open spec fn parsed_effort(text: Seq<char>) -> Option<ReasoningEffort> {
    let key = ascii_lowercased(trimmed(text));
    if key == "minimal"@ {
        Some(ReasoningEffort::Minimal)
    } else if key == "low"@ {
        Some(ReasoningEffort::Low)
    } else if key == "medium"@ {
        Some(ReasoningEffort::Medium)
    } else if key == "high"@ {
        Some(ReasoningEffort::High)
    } else {
        None
    }
}

impl ReasoningEffort {
    pub fn as_str(self) -> (name: &'static str)
        ensures
            name@ == effort_name(self),
    {
        match self {
            ReasoningEffort::Minimal => "minimal",
            ReasoningEffort::Low => "low",
            ReasoningEffort::Medium => "medium",
            ReasoningEffort::High => "high",
        }
    }

    pub fn minimum_completion_tokens(self) -> (tokens: u64)
        ensures
            tokens == effort_minimum_tokens(self),
    {
        match self {
            ReasoningEffort::Minimal => 512,
            ReasoningEffort::Low => 1000,
            ReasoningEffort::Medium => 2000,
            ReasoningEffort::High => 4000,
        }
    }

    /// Read an effort name; surrounding white space and ASCII case are ignored.
    pub fn parse(value: &str) -> (effort: Result<ReasoningEffort, &'static str>)
        ensures
            match effort {
                Ok(e) => parsed_effort(value@) == Some(e),
                Err(m) => parsed_effort(value@).is_none() && m@ == effort_refusal(),
            },
    {
        let key = trim(value);
        if eq_ignore_ascii_case(key.as_str(), "minimal") {
            proof {
                lemma_lowercase_literals();
            }
            Ok(ReasoningEffort::Minimal)
        } else if eq_ignore_ascii_case(key.as_str(), "low") {
            proof {
                lemma_lowercase_literals();
            }
            Ok(ReasoningEffort::Low)
        } else if eq_ignore_ascii_case(key.as_str(), "medium") {
            proof {
                lemma_lowercase_literals();
            }
            Ok(ReasoningEffort::Medium)
        } else if eq_ignore_ascii_case(key.as_str(), "high") {
            proof {
                lemma_lowercase_literals();
            }
            Ok(ReasoningEffort::High)
        } else {
            proof {
                lemma_lowercase_literals();
            }
            Err("reasoning effort must be one of minimal, low, medium, or high")
        }
    }
}

/// Reading an effort's own name gives that effort back, and so does any text
/// that differs from it only in surrounding white space and ASCII case.
pub proof fn law_effort_names_read_back(effort: ReasoningEffort, text: Seq<char>)
    ensures
        parsed_effort(effort_name(effort)) == Some(effort),
        ascii_lowercased(trimmed(text)) == effort_name(effort) ==> parsed_effort(text) == Some(effort),
{
    lemma_lowercase_literals();
    reveal_strlit("minimal");
    reveal_strlit("low");
    reveal_strlit("medium");
    reveal_strlit("high");
    let name = effort_name(effort);
    assert(!crate::text::is_white_space(name[0]));
    assert(!crate::text::is_white_space(name.last()));
    assert(crate::text::trim_start(name) == name);
    assert(trimmed(name) == name);
}

/// The text that refuses an unknown effort name.
pub open spec fn effort_refusal() -> Seq<char> {
    "reasoning effort must be one of minimal, low, medium, or high"@
}

proof fn lemma_lowercase_literals()
    ensures
        ascii_lowercased("minimal"@) == "minimal"@,
        ascii_lowercased("low"@) == "low"@,
        ascii_lowercased("medium"@) == "medium"@,
        ascii_lowercased("high"@) == "high"@,
        ascii_lowercased("unlimited"@) == "unlimited"@,
{
    reveal_strlit("minimal");
    reveal_strlit("low");
    reveal_strlit("medium");
    reveal_strlit("high");
    reveal_strlit("unlimited");
    assert(ascii_lowercased("minimal"@) =~= "minimal"@);
    assert(ascii_lowercased("low"@) =~= "low"@);
    assert(ascii_lowercased("medium"@) =~= "medium"@);
    assert(ascii_lowercased("high"@) =~= "high"@);
    assert(ascii_lowercased("unlimited"@) =~= "unlimited"@);
}

impl std::str::FromStr for ReasoningEffort {
    type Err = &'static str;

    /// Read an effort name; surrounding white space and ASCII case are ignored.
    fn from_str(value: &str) -> (effort: Result<ReasoningEffort, &'static str>)
        ensures
            match effort {
                Ok(e) => parsed_effort(value@) == Some(e),
                Err(m) => parsed_effort(value@).is_none() && m@ == effort_refusal(),
            },
    {
        ReasoningEffort::parse(value)
    }
}

/// Per-brain reasoning request policy. Reasoning content is excluded by
/// default: the harness records settings and token accounting, never private
/// reasoning text.
#[derive(Debug, Clone, Copy, PartialEq, Eq, Structural)]
pub struct ModelReasoningConfig {
    pub enabled: bool,
    pub effort: ReasoningEffort,
    pub exclude: bool,
}

/// Process-local authorization budget for world mutations.
///
/// The default, `Limited(0)`, disables mutation. Persistent deployments must
/// opt in with the literal `unlimited`; a misspelled value fails configuration
/// instead of accidentally enabling the body.
#[derive(Debug, Clone, Copy, PartialEq, Eq, Structural)]
pub enum LiveActionBudget {
    Limited(u32),
    Unlimited,
}

impl LiveActionBudget {
    pub fn allows_any(self) -> (allowed: bool)
        ensures
            allowed == (self is Unlimited || (self matches LiveActionBudget::Limited(n) && n >= 1)),
    {
        match self {
            LiveActionBudget::Unlimited => true,
            LiveActionBudget::Limited(n) => n >= 1,
        }
    }
}

/// How far tactical decisions reach the live world.
#[derive(Debug, Clone, Copy, PartialEq, Eq, Structural)]
pub enum TacticalRolloutMode {
    ObserveOnly,
    Shadow,
    Controlled,
    Full,
}

pub open spec fn rollout_name(mode: TacticalRolloutMode) -> Seq<char> {
    match mode {
        TacticalRolloutMode::ObserveOnly => "observe_only"@,
        TacticalRolloutMode::Shadow => "shadow"@,
        TacticalRolloutMode::Controlled => "controlled"@,
        TacticalRolloutMode::Full => "full"@,
    }
}

pub open spec fn parsed_rollout(text: Seq<char>) -> Option<TacticalRolloutMode> {
    if text == "observe_only"@ {
        Some(TacticalRolloutMode::ObserveOnly)
    } else if text == "shadow"@ {
        Some(TacticalRolloutMode::Shadow)
    } else if text == "controlled"@ {
        Some(TacticalRolloutMode::Controlled)
    } else if text == "full"@ {
        Some(TacticalRolloutMode::Full)
    } else {
        None
    }
}

impl TacticalRolloutMode {
    pub fn as_str(self) -> (name: &'static str)
        ensures
            name@ == rollout_name(self),
    {
        match self {
            TacticalRolloutMode::ObserveOnly => "observe_only",
            TacticalRolloutMode::Shadow => "shadow",
            TacticalRolloutMode::Controlled => "controlled",
            TacticalRolloutMode::Full => "full",
        }
    }

    /// Read a mode by its exact name.
    pub fn parse(value: &str) -> (mode: Option<TacticalRolloutMode>)
        ensures
            mode == parsed_rollout(value@),
    {
        if text_equals(value, "observe_only") {
            Some(TacticalRolloutMode::ObserveOnly)
        } else if text_equals(value, "shadow") {
            Some(TacticalRolloutMode::Shadow)
        } else if text_equals(value, "controlled") {
            Some(TacticalRolloutMode::Controlled)
        } else if text_equals(value, "full") {
            Some(TacticalRolloutMode::Full)
        } else {
            None
        }
    }
}

/// The arena connection. Durations are in milliseconds.
#[derive(Debug, Clone)]
pub struct ArenaConfig {
    pub mcp_url: String,
    pub api_key: String,
    pub request_timeout_ms: u64,
    pub reconnect_max_attempts: u32,
    pub reconnect_initial_backoff_ms: u64,
}

/// Why the configuration was refused.
#[derive(Debug, Clone)]
pub enum ConfigError {
    /// A required setting is absent or blank.
    Missing(&'static str),
    /// A rate is not a finite number greater than zero (or, for an idle rate, at least zero).
    InvalidRate { name: &'static str, value: String },
    /// A setting is not a valid value of its kind.
    InvalidValue { name: &'static str, kind: &'static str, value: String },
}

/// A configuration error with its texts as characters.
pub enum ConfigErrorView {
    Missing(Seq<char>),
    InvalidRate { name: Seq<char>, value: Seq<char> },
    InvalidValue { name: Seq<char>, kind: Seq<char>, value: Seq<char> },
}

impl View for ConfigError {
    type V = ConfigErrorView;

    open spec fn view(&self) -> ConfigErrorView {
        match self {
            ConfigError::Missing(name) => ConfigErrorView::Missing(name@),
            ConfigError::InvalidRate { name, value } => ConfigErrorView::InvalidRate {
                name: name@,
                value: value@,
            },
            ConfigError::InvalidValue { name, kind, value } => ConfigErrorView::InvalidValue {
                name: name@,
                kind: kind@,
                value: value@,
            },
        }
    }
}

pub open spec fn config_error_text(error: ConfigErrorView) -> Seq<char> {
    match error {
        ConfigErrorView::Missing(name) => "required environment variable "@ + name + " is not set"@,
        ConfigErrorView::InvalidRate { name, value } => name
            + " must be a finite number greater than zero, got \""@ + value + "\""@,
        ConfigErrorView::InvalidValue { name, kind, value } => name + " must be a valid "@ + kind
            + ", got \""@ + value + "\""@,
    }
}

impl ConfigError {
    /// The name of the setting at fault.
    pub fn setting_name(&self) -> (name: &'static str)
        ensures
            name@ == match self@ {
                ConfigErrorView::Missing(n) => n,
                ConfigErrorView::InvalidRate { name, .. } => name,
                ConfigErrorView::InvalidValue { name, .. } => name,
            },
    {
        match self {
            ConfigError::Missing(name) => name,
            ConfigError::InvalidRate { name, .. } => name,
            ConfigError::InvalidValue { name, .. } => name,
        }
    }

    /// The human-readable text of the error.
    pub fn message(&self) -> (text: String)
        ensures
            text@ == config_error_text(self@),
    {
        match self {
            ConfigError::Missing(name) => {
                let mut text = String::from_str("required environment variable ");
                text.append(name);
                text.append(" is not set");
                text
            },
            ConfigError::InvalidRate { name, value } => {
                let mut text = String::from_str(name);
                text.append(" must be a finite number greater than zero, got \"");
                text.append(value.as_str());
                text.append("\"");
                text
            },
            ConfigError::InvalidValue { name, kind, value } => {
                let mut text = String::from_str(name);
                text.append(" must be a valid ");
                text.append(kind);
                text.append(", got \"");
                text.append(value.as_str());
                text.append("\"");
                text
            },
        }
    }
}

// ---------------------------------------------------------------------------
// Reading one setting
// ---------------------------------------------------------------------------

/// The value of the first entry named `name`.
pub open spec fn env_value(env: Seq<(String, String)>, name: Seq<char>) -> Option<Seq<char>>
    decreases env.len(),
{
    if env.len() == 0 {
        None
    } else if env[0].0@ == name {
        Some(env[0].1@)
    } else {
        env_value(env.drop_first(), name)
    }
}

/// The value of `name`, or `default` when it is absent.
pub open spec fn raw_setting(env: Seq<(String, String)>, name: Seq<char>, default: Seq<char>) -> Seq<char> {
    match env_value(env, name) {
        Some(value) => value,
        None => default,
    }
}

/// The value of `name` when it is present and not blank.
pub open spec fn nonblank_setting(env: Seq<(String, String)>, name: Seq<char>) -> Option<Seq<char>> {
    match env_value(env, name) {
        Some(value) => if is_blank(value) {
            None
        } else {
            Some(value)
        },
        None => None,
    }
}

pub open spec fn invalid_value(name: Seq<char>, kind: Seq<char>, value: Seq<char>) -> ConfigErrorView {
    ConfigErrorView::InvalidValue { name, kind, value }
}

/// A positive integer no larger than `max`, defaulting to `default`: a numeral
/// that does not read is refused with its text, a zero with the text `0`.
pub open spec fn positive_setting(env: Seq<(String, String)>, name: Seq<char>, default: nat, max: nat) -> Result<
    nat,
    ConfigErrorView,
> {
    let raw = raw_setting(env, name, decimal_text(default));
    match parsed_unsigned(raw, max) {
        None => Err(invalid_value(name, "positive integer"@, raw)),
        Some(value) => if value == 0 {
            Err(invalid_value(name, "positive integer"@, decimal_text(0)))
        } else {
            Ok(value)
        },
    }
}

/// A non-negative integer defaulting to `default`.
pub open spec fn count_setting(env: Seq<(String, String)>, name: Seq<char>, default: nat) -> Result<
    nat,
    ConfigErrorView,
> {
    let raw = raw_setting(env, name, decimal_text(default));
    match parsed_unsigned(raw, u64::MAX as nat) {
        None => Err(invalid_value(name, "non-negative integer"@, raw)),
        Some(value) => Ok(value),
    }
}

/// A boolean: exactly `true` or `false`.
pub open spec fn bool_setting(env: Seq<(String, String)>, name: Seq<char>, default: bool) -> Result<
    bool,
    ConfigErrorView,
> {
    let raw = raw_setting(
        env,
        name,
        if default {
            "true"@
        } else {
            "false"@
        },
    );
    if raw == "true"@ {
        Ok(true)
    } else if raw == "false"@ {
        Ok(false)
    } else {
        Err(invalid_value(name, "boolean"@, raw))
    }
}

pub open spec fn effort_setting(env: Seq<(String, String)>, name: Seq<char>, default: ReasoningEffort) -> Result<
    ReasoningEffort,
    ConfigErrorView,
> {
    let raw = raw_setting(env, name, effort_name(default));
    match parsed_effort(raw) {
        Some(effort) => Ok(effort),
        None => Err(invalid_value(name, "one of minimal, low, medium, or high"@, raw)),
    }
}

/// An optional positive integer: absent or blank means none; otherwise a
/// numeral that does not read, or reads zero, is refused with its text.
pub open spec fn optional_positive_setting(env: Seq<(String, String)>, name: Seq<char>) -> Result<
    Option<nat>,
    ConfigErrorView,
> {
    match nonblank_setting(env, name) {
        None => Ok(None),
        Some(raw) => match parsed_unsigned(raw, u64::MAX as nat) {
            Some(value) => if value == 0 {
                Err(invalid_value(name, "positive integer"@, raw))
            } else {
                Ok(Some(value))
            },
            None => Err(invalid_value(name, "positive integer"@, raw)),
        },
    }
}

/// The live action budget: the literal `unlimited` in any ASCII case, or a count.
pub open spec fn budget_setting(env: Seq<(String, String)>) -> Result<LiveActionBudget, ConfigErrorView> {
    let raw = raw_setting(env, "NPC_LIVE_ACTION_BUDGET"@, "0"@);
    if ascii_lowercased(raw) == "unlimited"@ {
        Ok(LiveActionBudget::Unlimited)
    } else {
        match parsed_unsigned(raw, u32::MAX as nat) {
            Some(value) => Ok(LiveActionBudget::Limited(value as u32)),
            None => Err(
                invalid_value(
                    "NPC_LIVE_ACTION_BUDGET"@,
                    "non-negative integer or the literal unlimited"@,
                    raw,
                ),
            ),
        }
    }
}

pub open spec fn rollout_setting(env: Seq<(String, String)>) -> Result<TacticalRolloutMode, ConfigErrorView> {
    let raw = raw_setting(env, "NPC_TACTICAL_ROLLOUT_MODE"@, "observe_only"@);
    match parsed_rollout(raw) {
        Some(mode) => Ok(mode),
        None => Err(
            invalid_value(
                "NPC_TACTICAL_ROLLOUT_MODE"@,
                "one of observe_only, shadow, controlled, or full"@,
                raw,
            ),
        ),
    }
}

pub open spec fn error_view<T>(result: Result<T, ConfigError>) -> Result<T, ConfigErrorView> {
    match result {
        Ok(value) => Ok(value),
        Err(e) => Err(e@),
    }
}

/// The value of the first entry named `name`.
pub fn lookup(env: &Vec<(String, String)>, name: &str) -> (value: Option<String>)
    ensures
        match value {
            Some(v) => env_value(env@, name@) == Some(v@),
            None => env_value(env@, name@).is_none(),
        },
{
    let mut i: usize = 0;
    assert(env@.skip(0) =~= env@);
    while i < env.len()
        invariant
            i <= env@.len(),
            env_value(env@, name@) == env_value(env@.skip(i as int), name@),
        decreases env@.len() - i,
    {
        proof {
            assert(env@.skip(i as int).drop_first() =~= env@.skip(i + 1));
            assert(env@.skip(i as int)[0] == env@[i as int]);
        }
        if text_equals(env[i].0.as_str(), name) {
            return Some(env[i].1.clone());
        }
        i = i + 1;
    }
    None
}

fn raw_or(env: &Vec<(String, String)>, name: &str, default: &str) -> (raw: String)
    ensures
        raw@ == raw_setting(env@, name@, default@),
{
    match lookup(env, name) {
        Some(value) => value,
        None => String::from_str(default),
    }
}

fn decimal_string(n: u64) -> (text: String)
    ensures
        text@ == decimal_text(n as nat),
{
    let mut text = String::new();
    append_decimal(&mut text, n);
    assert(text@ =~= decimal_text(n as nat));
    text
}

/// The value of `name` when it is present and not blank.
pub fn optional_nonempty(env: &Vec<(String, String)>, name: &str) -> (value: Option<String>)
    ensures
        match value {
            Some(v) => nonblank_setting(env@, name@) == Some(v@),
            None => nonblank_setting(env@, name@).is_none(),
        },
{
    match lookup(env, name) {
        Some(value) => if blank(value.as_str()) {
            None
        } else {
            Some(value)
        },
        None => None,
    }
}

/// A required setting: present and not blank.
pub fn required(env: &Vec<(String, String)>, name: &'static str) -> (value: Result<String, ConfigError>)
    ensures
        match value {
            Ok(v) => nonblank_setting(env@, name@) == Some(v@),
            Err(e) => nonblank_setting(env@, name@).is_none() && e@ == ConfigErrorView::Missing(name@),
        },
{
    match optional_nonempty(env, name) {
        Some(value) => Ok(value),
        None => Err(ConfigError::Missing(name)),
    }
}

pub fn parse_positive_u64(env: &Vec<(String, String)>, name: &'static str, default: u64) -> (value: Result<
    u64,
    ConfigError,
>)
    ensures
        match value {
            Ok(v) => positive_setting(env@, name@, default as nat, u64::MAX as nat) == Ok::<
                nat,
                ConfigErrorView,
            >(v as nat),
            Err(e) => positive_setting(env@, name@, default as nat, u64::MAX as nat) == Err::<
                nat,
                ConfigErrorView,
            >(e@),
        },
{
    let raw = match lookup(env, name) {
        Some(value) => value,
        None => decimal_string(default),
    };
    match parse_unsigned(raw.as_str(), u64::MAX) {
        None => Err(ConfigError::InvalidValue { name, kind: "positive integer", value: raw }),
        Some(value) => if value == 0 {
            Err(ConfigError::InvalidValue { name, kind: "positive integer", value: decimal_string(0) })
        } else {
            Ok(value)
        },
    }
}

pub fn parse_positive_u32(env: &Vec<(String, String)>, name: &'static str, default: u32) -> (value: Result<
    u32,
    ConfigError,
>)
    ensures
        match value {
            Ok(v) => positive_setting(env@, name@, default as nat, u32::MAX as nat) == Ok::<
                nat,
                ConfigErrorView,
            >(v as nat),
            Err(e) => positive_setting(env@, name@, default as nat, u32::MAX as nat) == Err::<
                nat,
                ConfigErrorView,
            >(e@),
        },
{
    let raw = match lookup(env, name) {
        Some(value) => value,
        None => decimal_string(default as u64),
    };
    match parse_unsigned(raw.as_str(), u32::MAX as u64) {
        None => Err(ConfigError::InvalidValue { name, kind: "positive integer", value: raw }),
        Some(value) => if value == 0 {
            Err(ConfigError::InvalidValue { name, kind: "positive integer", value: decimal_string(0) })
        } else {
            Ok(value as u32)
        },
    }
}

fn parse_count(env: &Vec<(String, String)>, name: &'static str, default: u64) -> (value: Result<u64, ConfigError>)
    ensures
        match value {
            Ok(v) => count_setting(env@, name@, default as nat) == Ok::<nat, ConfigErrorView>(v as nat),
            Err(e) => count_setting(env@, name@, default as nat) == Err::<nat, ConfigErrorView>(e@),
        },
{
    let raw = match lookup(env, name) {
        Some(value) => value,
        None => decimal_string(default),
    };
    match parse_unsigned(raw.as_str(), u64::MAX) {
        None => Err(ConfigError::InvalidValue { name, kind: "non-negative integer", value: raw }),
        Some(value) => Ok(value),
    }
}

pub fn parse_bool(env: &Vec<(String, String)>, name: &'static str, default: bool) -> (value: Result<
    bool,
    ConfigError,
>)
    ensures
        error_view(value) == bool_setting(env@, name@, default),
{
    let raw = raw_or(
        env,
        name,
        if default {
            "true"
        } else {
            "false"
        },
    );
    if text_equals(raw.as_str(), "true") {
        Ok(true)
    } else if text_equals(raw.as_str(), "false") {
        Ok(false)
    } else {
        Err(ConfigError::InvalidValue { name, kind: "boolean", value: raw })
    }
}

fn parse_effort(env: &Vec<(String, String)>, name: &'static str, default: ReasoningEffort) -> (value: Result<
    ReasoningEffort,
    ConfigError,
>)
    ensures
        error_view(value) == effort_setting(env@, name@, default),
{
    let raw = raw_or(env, name, default.as_str());
    match ReasoningEffort::parse(raw.as_str()) {
        Ok(effort) => Ok(effort),
        Err(_) => Err(ConfigError::InvalidValue { name, kind: "one of minimal, low, medium, or high", value: raw }),
    }
}

/// The reasoning policy of one brain: whether it is enabled, its effort, and
/// whether returned reasoning is excluded (by default it is).
pub open spec fn reasoning_setting(
    env: Seq<(String, String)>,
    enabled_name: Seq<char>,
    enabled_default: bool,
    effort_name_: Seq<char>,
    effort_default: ReasoningEffort,
    exclude_name: Seq<char>,
) -> Result<ModelReasoningConfig, ConfigErrorView> {
    match bool_setting(env, enabled_name, enabled_default) {
        Err(e) => Err(e),
        Ok(enabled) => match effort_setting(env, effort_name_, effort_default) {
            Err(e) => Err(e),
            Ok(effort) => match bool_setting(env, exclude_name, true) {
                Err(e) => Err(e),
                Ok(exclude) => Ok(ModelReasoningConfig { enabled, effort, exclude }),
            },
        },
    }
}

pub fn parse_reasoning_config(
    env: &Vec<(String, String)>,
    enabled_name: &'static str,
    enabled_default: bool,
    effort_name_: &'static str,
    effort_default: ReasoningEffort,
    exclude_name: &'static str,
) -> (value: Result<ModelReasoningConfig, ConfigError>)
    ensures
        error_view(value) == reasoning_setting(
            env@,
            enabled_name@,
            enabled_default,
            effort_name_@,
            effort_default,
            exclude_name@,
        ),
{
    let enabled = match parse_bool(env, enabled_name, enabled_default) {
        Ok(v) => v,
        Err(e) => {
            return Err(e);
        },
    };
    let effort = match parse_effort(env, effort_name_, effort_default) {
        Ok(v) => v,
        Err(e) => {
            return Err(e);
        },
    };
    let exclude = match parse_bool(env, exclude_name, true) {
        Ok(v) => v,
        Err(e) => {
            return Err(e);
        },
    };
    Ok(ModelReasoningConfig { enabled, effort, exclude })
}

/// The text of a completion budget too small for the configured reasoning.
pub open spec fn budget_shortfall_text(max_output_tokens: u64, reasoning: ModelReasoningConfig) -> Seq<char> {
    decimal_text(max_output_tokens as nat) + " (minimum "@ + decimal_text(
        effort_minimum_tokens(reasoning.effort) as nat,
    ) + " for "@ + effort_name(reasoning.effort) + " reasoning)"@
}

/// Enabled reasoning needs at least the effort's minimum completion budget.
pub open spec fn reasoning_budget_check(name: Seq<char>, max_output_tokens: u64, reasoning: ModelReasoningConfig) -> Option<
    ConfigErrorView,
> {
    if reasoning.enabled && max_output_tokens < effort_minimum_tokens(reasoning.effort) {
        Some(
            invalid_value(
                name,
                "completion-token budget large enough for configured reasoning effort and structured output"@,
                budget_shortfall_text(max_output_tokens, reasoning),
            ),
        )
    } else {
        None
    }
}

pub fn validate_reasoning_budget(name: &'static str, max_output_tokens: u64, reasoning: ModelReasoningConfig) -> (result:
    Result<(), ConfigError>)
    ensures
        match result {
            Ok(()) => reasoning_budget_check(name@, max_output_tokens, reasoning).is_none(),
            Err(e) => reasoning_budget_check(name@, max_output_tokens, reasoning) == Some(e@),
        },
{
    let minimum = reasoning.effort.minimum_completion_tokens();
    if reasoning.enabled && max_output_tokens < minimum {
        let mut value = decimal_string(max_output_tokens);
        value.append(" (minimum ");
        append_decimal(&mut value, minimum);
        value.append(" for ");
        value.append(reasoning.effort.as_str());
        value.append(" reasoning)");
        return Err(
            ConfigError::InvalidValue {
                name,
                kind: "completion-token budget large enough for configured reasoning effort and structured output",
                value,
            },
        );
    }
    Ok(())
}

pub fn parse_live_action_budget(env: &Vec<(String, String)>) -> (value: Result<LiveActionBudget, ConfigError>)
    ensures
        error_view(value) == budget_setting(env@),
{
    let raw = raw_or(env, "NPC_LIVE_ACTION_BUDGET", "0");
    if eq_ignore_ascii_case(raw.as_str(), "unlimited") {
        proof {
            lemma_lowercase_literals();
        }
        return Ok(LiveActionBudget::Unlimited);
    }
    proof {
        lemma_lowercase_literals();
    }
    match parse_unsigned(raw.as_str(), u32::MAX as u64) {
        Some(value) => Ok(LiveActionBudget::Limited(value as u32)),
        None => Err(
            ConfigError::InvalidValue {
                name: "NPC_LIVE_ACTION_BUDGET",
                kind: "non-negative integer or the literal unlimited",
                value: raw,
            },
        ),
    }
}

pub fn optional_positive_u64(env: &Vec<(String, String)>, name: &'static str) -> (value: Result<
    Option<u64>,
    ConfigError,
>)
    ensures
        match value {
            Ok(Some(v)) => optional_positive_setting(env@, name@) == Ok::<Option<nat>, ConfigErrorView>(
                Some(v as nat),
            ),
            Ok(None) => optional_positive_setting(env@, name@) == Ok::<Option<nat>, ConfigErrorView>(None),
            Err(e) => optional_positive_setting(env@, name@) == Err::<Option<nat>, ConfigErrorView>(e@),
        },
{
    let raw = match optional_nonempty(env, name) {
        Some(raw) => raw,
        None => {
            return Ok(None);
        },
    };
    match parse_unsigned(raw.as_str(), u64::MAX) {
        Some(value) => if value == 0 {
            Err(ConfigError::InvalidValue { name, kind: "positive integer", value: raw })
        } else {
            Ok(Some(value))
        },
        None => Err(ConfigError::InvalidValue { name, kind: "positive integer", value: raw }),
    }
}

fn parse_rollout(env: &Vec<(String, String)>) -> (value: Result<TacticalRolloutMode, ConfigError>)
    ensures
        error_view(value) == rollout_setting(env@),
{
    let raw = raw_or(env, "NPC_TACTICAL_ROLLOUT_MODE", "observe_only");
    match TacticalRolloutMode::parse(raw.as_str()) {
        Some(mode) => Ok(mode),
        None => Err(
            ConfigError::InvalidValue {
                name: "NPC_TACTICAL_ROLLOUT_MODE",
                kind: "one of observe_only, shadow, controlled, or full",
                value: raw,
            },
        ),
    }
}

// ---------------------------------------------------------------------------
// The whole configuration
// ---------------------------------------------------------------------------

/// How the caller judged the settings that are floating-point numbers (the
/// tactical rates, the temperatures, the retrieval score and the cost ceiling):
/// for each, the error it was refused with, or none when it was accepted.
#[derive(Debug, Clone)]
pub struct FloatSettingFindings {
    pub tactical_max_hz: Option<ConfigError>,
    pub idle_tactical_hz: Option<ConfigError>,
    pub tactician_temperature: Option<ConfigError>,
    pub strategist_temperature: Option<ConfigError>,
    pub local_rag_minimum_score: Option<ConfigError>,
    pub run_max_openrouter_cost_usd: Option<ConfigError>,
}

/// Every setting of the harness that is not a floating-point number.
/// Durations are in milliseconds unless their name says otherwise.
#[derive(Debug, Clone)]
pub struct ConfigCore {
    pub arena: ArenaConfig,
    pub openrouter_api_key: Option<String>,
    pub strategist_model: String,
    pub tactician_model: String,
    pub tactician_max_output_tokens: u64,
    pub tactician_request_timeout_ms: u64,
    pub tactician_reasoning: ModelReasoningConfig,
    pub strategist_max_output_tokens: u64,
    pub strategist_request_timeout_ms: u64,
    pub strategist_reasoning: ModelReasoningConfig,
    pub strategist_min_interval_ms: u64,
    pub strategist_enabled: bool,
    pub strategist_memory_max_tokens: usize,
    pub local_input_capture: Option<String>,
    pub prompt_caching_enabled: bool,
    pub local_rag_enabled: bool,
    pub perception_interval_ms: u64,
    pub perception_map_radius: u32,
    pub perception_inventory_every_cycles: u64,
    pub tactical_rollout_mode: TacticalRolloutMode,
    pub allow_live_mutation: bool,
    pub live_action_budget: LiveActionBudget,
    pub live_max_actions_per_packet: u32,
    pub live_packet_max_age_ms: u64,
    pub live_expected_character_id: Option<String>,
    pub live_expected_player_name: Option<String>,
    pub live_allowed_scene: Option<String>,
    pub run_duration_seconds: Option<u64>,
    pub character: String,
    pub character_sheet_path: Option<String>,
    pub memory_path: String,
}

pub open spec fn first_error(first: Option<ConfigErrorView>, rest: Option<ConfigErrorView>) -> Option<ConfigErrorView> {
    if first is Some {
        first
    } else {
        rest
    }
}

pub open spec fn failure<T>(result: Result<T, ConfigErrorView>) -> Option<ConfigErrorView> {
    match result {
        Err(e) => Some(e),
        Ok(_) => None,
    }
}

pub open spec fn finding(found: Option<ConfigError>) -> Option<ConfigErrorView> {
    match found {
        Some(e) => Some(e@),
        None => None,
    }
}

pub open spec fn tactician_tokens(env: Seq<(String, String)>) -> Result<nat, ConfigErrorView> {
    positive_setting(env, "NPC_TACTICIAN_MAX_OUTPUT_TOKENS"@, 150, u64::MAX as nat)
}

pub open spec fn strategist_tokens(env: Seq<(String, String)>) -> Result<nat, ConfigErrorView> {
    positive_setting(env, "NPC_STRATEGIST_MAX_OUTPUT_TOKENS"@, 4000, u64::MAX as nat)
}

pub open spec fn tactician_reasoning(env: Seq<(String, String)>) -> Result<ModelReasoningConfig, ConfigErrorView> {
    reasoning_setting(
        env,
        "NPC_TACTICIAN_REASONING_ENABLED"@,
        false,
        "NPC_TACTICIAN_REASONING_EFFORT"@,
        ReasoningEffort::Minimal,
        "NPC_TACTICIAN_REASONING_EXCLUDE"@,
    )
}

pub open spec fn strategist_reasoning(env: Seq<(String, String)>) -> Result<ModelReasoningConfig, ConfigErrorView> {
    reasoning_setting(
        env,
        "NPC_STRATEGIST_REASONING_ENABLED"@,
        true,
        "NPC_STRATEGIST_REASONING_EFFORT"@,
        ReasoningEffort::Medium,
        "NPC_STRATEGIST_REASONING_EXCLUDE"@,
    )
}

/// The completion budget of one brain against its reasoning policy, once both read.
pub open spec fn budget_check(
    name: Seq<char>,
    tokens: Result<nat, ConfigErrorView>,
    reasoning: Result<ModelReasoningConfig, ConfigErrorView>,
) -> Option<ConfigErrorView> {
    match (tokens, reasoning) {
        (Ok(t), Ok(r)) => reasoning_budget_check(name, t as u64, r),
        _ => None,
    }
}

pub open spec fn memory_tokens(env: Seq<(String, String)>) -> Result<nat, ConfigErrorView> {
    positive_setting(env, "NPC_STRATEGIST_MEMORY_MAX_TOKENS"@, 8000, u64::MAX as nat)
}

/// The memory budget must also fit this platform's `usize`.
pub open spec fn memory_tokens_fit(env: Seq<(String, String)>) -> Option<ConfigErrorView> {
    match memory_tokens(env) {
        Ok(v) => if v > usize::MAX {
            Some(
                invalid_value(
                    "NPC_STRATEGIST_MEMORY_MAX_TOKENS"@,
                    "positive integer supported by this platform"@,
                    "out_of_range"@,
                ),
            )
        } else {
            None
        },
        Err(_) => None,
    }
}

/// Full rollout is refused unless live mutation is allowed.
pub open spec fn full_rollout_check(env: Seq<(String, String)>) -> Option<ConfigErrorView> {
    match (rollout_setting(env), bool_setting(env, "NPC_ALLOW_LIVE_MUTATION"@, false)) {
        (Ok(mode), Ok(allowed)) => if mode == TacticalRolloutMode::Full && !allowed {
            Some(
                invalid_value(
                    "NPC_TACTICAL_ROLLOUT_MODE"@,
                    "full only when NPC_ALLOW_LIVE_MUTATION=true"@,
                    rollout_name(mode),
                ),
            )
        } else {
            None
        },
        _ => None,
    }
}

pub open spec fn first_of4(
    a: Option<ConfigErrorView>,
    b: Option<ConfigErrorView>,
    c: Option<ConfigErrorView>,
    d: Option<ConfigErrorView>,
) -> Option<ConfigErrorView> {
    first_error(a, first_error(b, first_error(c, d)))
}

pub open spec fn api_key_check(env: Seq<(String, String)>) -> Option<ConfigErrorView> {
    if nonblank_setting(env, "ARENA_API_KEY"@) is None {
        Some(ConfigErrorView::Missing("ARENA_API_KEY"@))
    } else {
        None
    }
}

/// The error the configuration is refused with: the first invalid setting in
/// the fixed order in which settings are read, the floating-point ones
/// included where they are read.
pub open spec fn configuration_error(env: Seq<(String, String)>, floats: FloatSettingFindings) -> Option<
    ConfigErrorView,
> {
    first_of4(
        api_key_check(env),
        finding(floats.tactical_max_hz),
        finding(floats.idle_tactical_hz),
        tactician_errors(env, floats),
    )
}

pub open spec fn tactician_errors(env: Seq<(String, String)>, floats: FloatSettingFindings) -> Option<ConfigErrorView> {
    first_of4(
        finding(floats.tactician_temperature),
        failure(tactician_tokens(env)),
        failure(positive_setting(env, "NPC_TACTICIAN_TIMEOUT_MS"@, 5000, u64::MAX as nat)),
        first_error(failure(tactician_reasoning(env)), strategist_errors(env, floats)),
    )
}

pub open spec fn strategist_errors(env: Seq<(String, String)>, floats: FloatSettingFindings) -> Option<ConfigErrorView> {
    first_of4(
        finding(floats.strategist_temperature),
        failure(strategist_tokens(env)),
        failure(positive_setting(env, "NPC_STRATEGIST_TIMEOUT_MS"@, 60000, u64::MAX as nat)),
        first_error(failure(strategist_reasoning(env)), budget_errors(env, floats)),
    )
}

pub open spec fn budget_errors(env: Seq<(String, String)>, floats: FloatSettingFindings) -> Option<ConfigErrorView> {
    first_of4(
        budget_check("NPC_STRATEGIST_MAX_OUTPUT_TOKENS"@, strategist_tokens(env), strategist_reasoning(env)),
        budget_check("NPC_TACTICIAN_MAX_OUTPUT_TOKENS"@, tactician_tokens(env), tactician_reasoning(env)),
        failure(count_setting(env, "NPC_STRATEGIST_MIN_INTERVAL_MS"@, 30000)),
        first_error(failure(bool_setting(env, "NPC_STRATEGIST_ENABLED"@, false)), memory_errors(env, floats)),
    )
}

pub open spec fn memory_errors(env: Seq<(String, String)>, floats: FloatSettingFindings) -> Option<ConfigErrorView> {
    first_of4(
        failure(memory_tokens(env)),
        memory_tokens_fit(env),
        failure(bool_setting(env, "NPC_LOCAL_MODEL_INPUT_CAPTURE_ENABLED"@, false)),
        first_error(
            failure(bool_setting(env, "NPC_OPENROUTER_PROMPT_CACHING_ENABLED"@, true)),
            retrieval_errors(env, floats),
        ),
    )
}

pub open spec fn retrieval_errors(env: Seq<(String, String)>, floats: FloatSettingFindings) -> Option<ConfigErrorView> {
    first_of4(
        failure(bool_setting(env, "NPC_LOCAL_RAG_ENABLED"@, true)),
        finding(floats.local_rag_minimum_score),
        failure(positive_setting(env, "ARENA_MCP_TIMEOUT_MS"@, 60000, u64::MAX as nat)),
        first_error(
            failure(positive_setting(env, "ARENA_RECONNECT_MAX_ATTEMPTS"@, 5, u32::MAX as nat)),
            perception_errors(env, floats),
        ),
    )
}

pub open spec fn perception_errors(env: Seq<(String, String)>, floats: FloatSettingFindings) -> Option<ConfigErrorView> {
    first_of4(
        failure(positive_setting(env, "ARENA_RECONNECT_INITIAL_BACKOFF_MS"@, 250, u64::MAX as nat)),
        failure(positive_setting(env, "NPC_PERCEPTION_INTERVAL_MS"@, 500, u64::MAX as nat)),
        failure(positive_setting(env, "NPC_PERCEPTION_MAP_RADIUS"@, 16, u32::MAX as nat)),
        first_error(
            failure(positive_setting(env, "NPC_PERCEPTION_INVENTORY_EVERY_CYCLES"@, 10, u64::MAX as nat)),
            live_safety_errors(env, floats),
        ),
    )
}

pub open spec fn live_safety_errors(env: Seq<(String, String)>, floats: FloatSettingFindings) -> Option<ConfigErrorView> {
    first_of4(
        failure(rollout_setting(env)),
        failure(bool_setting(env, "NPC_ALLOW_LIVE_MUTATION"@, false)),
        failure(budget_setting(env)),
        first_error(
            failure(positive_setting(env, "NPC_LIVE_MAX_ACTIONS_PER_PACKET"@, 1, u32::MAX as nat)),
            run_bound_errors(env, floats),
        ),
    )
}

pub open spec fn run_bound_errors(env: Seq<(String, String)>, floats: FloatSettingFindings) -> Option<ConfigErrorView> {
    first_of4(
        failure(positive_setting(env, "NPC_LIVE_PACKET_MAX_AGE_MS"@, 1000, u64::MAX as nat)),
        failure(optional_positive_setting(env, "NPC_RUN_DURATION_SECONDS"@)),
        finding(floats.run_max_openrouter_cost_usd),
        full_rollout_check(env),
    )
}

/// The text of a setting that falls back to `default` when absent or blank.
pub open spec fn text_or(value: Option<Seq<char>>, default: Seq<char>) -> Seq<char> {
    match value {
        Some(v) => v,
        None => default,
    }
}

/// The first of two settings that is present, kept only when it is not blank.
pub open spec fn preferred_nonblank(env: Seq<(String, String)>, first: Seq<char>, second: Seq<char>) -> Option<
    Seq<char>,
> {
    let chosen = match env_value(env, first) {
        Some(v) => Some(v),
        None => env_value(env, second),
    };
    match chosen {
        Some(v) => if is_blank(v) {
            None
        } else {
            Some(v)
        },
        None => None,
    }
}

/// The character name before lowering: `NPC_CHARACTER`, or `guy`.
pub open spec fn character_source(env: Seq<(String, String)>) -> Seq<char> {
    text_or(nonblank_setting(env, "NPC_CHARACTER"@), "guy"@)
}

/// Where a character's memory lives: the configured path, or a database named
/// after the character.
pub open spec fn memory_path_text(env: Seq<(String, String)>, character: Seq<char>) -> Seq<char> {
    text_or(
        preferred_nonblank(env, "NPC_MEMORY_PATH"@, "NPC_MEMORY_DIR"@),
        "./var/"@ + character + ".sqlite"@,
    )
}

/// `c` holds every setting as `env` gives it.
pub open spec fn config_core_of(c: ConfigCore, env: Seq<(String, String)>) -> bool {
    &&& nonblank_setting(env, "ARENA_API_KEY"@) == Some(c.arena.api_key@)
    &&& c.arena.mcp_url@ == text_or(nonblank_setting(env, "ARENA_MCP_URL"@), "https://mcp.yougotserved.dev/mcp"@)
    &&& positive_setting(env, "ARENA_MCP_TIMEOUT_MS"@, 60000, u64::MAX as nat) == Ok::<nat, ConfigErrorView>(
        c.arena.request_timeout_ms as nat,
    )
    &&& positive_setting(env, "ARENA_RECONNECT_MAX_ATTEMPTS"@, 5, u32::MAX as nat) == Ok::<nat, ConfigErrorView>(
        c.arena.reconnect_max_attempts as nat,
    )
    &&& positive_setting(env, "ARENA_RECONNECT_INITIAL_BACKOFF_MS"@, 250, u64::MAX as nat) == Ok::<
        nat,
        ConfigErrorView,
    >(c.arena.reconnect_initial_backoff_ms as nat)
    &&& optional_text(c.openrouter_api_key) == nonblank_setting(env, "OPENROUTER_API_KEY"@)
    &&& c.strategist_model@ == text_or(
        preferred_nonblank(env, "NPC_STRATEGIST_MODEL"@, "NPC_MODEL"@),
        "openai/gpt-oss-120b"@,
    )
    &&& c.tactician_model@ == text_or(
        nonblank_setting(env, "NPC_TACTICIAN_MODEL"@),
        "google/gemini-3.1-flash-lite"@,
    )
    &&& tactician_tokens(env) == Ok::<nat, ConfigErrorView>(c.tactician_max_output_tokens as nat)
    &&& positive_setting(env, "NPC_TACTICIAN_TIMEOUT_MS"@, 5000, u64::MAX as nat) == Ok::<nat, ConfigErrorView>(
        c.tactician_request_timeout_ms as nat,
    )
    &&& tactician_reasoning(env) == Ok::<ModelReasoningConfig, ConfigErrorView>(c.tactician_reasoning)
    &&& strategist_tokens(env) == Ok::<nat, ConfigErrorView>(c.strategist_max_output_tokens as nat)
    &&& positive_setting(env, "NPC_STRATEGIST_TIMEOUT_MS"@, 60000, u64::MAX as nat) == Ok::<nat, ConfigErrorView>(
        c.strategist_request_timeout_ms as nat,
    )
    &&& strategist_reasoning(env) == Ok::<ModelReasoningConfig, ConfigErrorView>(c.strategist_reasoning)
    &&& count_setting(env, "NPC_STRATEGIST_MIN_INTERVAL_MS"@, 30000) == Ok::<nat, ConfigErrorView>(
        c.strategist_min_interval_ms as nat,
    )
    &&& bool_setting(env, "NPC_STRATEGIST_ENABLED"@, false) == Ok::<bool, ConfigErrorView>(c.strategist_enabled)
    &&& memory_tokens(env) == Ok::<nat, ConfigErrorView>(c.strategist_memory_max_tokens as nat)
    &&& optional_text(c.local_input_capture) == if bool_setting(env, "NPC_LOCAL_MODEL_INPUT_CAPTURE_ENABLED"@, false)
        == Ok::<bool, ConfigErrorView>(true) {
        Some(text_or(nonblank_setting(env, "NPC_LOCAL_MODEL_INPUT_CAPTURE_PATH"@), "./var/model-input-captures"@))
    } else {
        None
    }
    &&& bool_setting(env, "NPC_OPENROUTER_PROMPT_CACHING_ENABLED"@, true) == Ok::<bool, ConfigErrorView>(
        c.prompt_caching_enabled,
    )
    &&& bool_setting(env, "NPC_LOCAL_RAG_ENABLED"@, true) == Ok::<bool, ConfigErrorView>(c.local_rag_enabled)
    &&& positive_setting(env, "NPC_PERCEPTION_INTERVAL_MS"@, 500, u64::MAX as nat) == Ok::<nat, ConfigErrorView>(
        c.perception_interval_ms as nat,
    )
    &&& positive_setting(env, "NPC_PERCEPTION_MAP_RADIUS"@, 16, u32::MAX as nat) == Ok::<nat, ConfigErrorView>(
        c.perception_map_radius as nat,
    )
    &&& positive_setting(env, "NPC_PERCEPTION_INVENTORY_EVERY_CYCLES"@, 10, u64::MAX as nat) == Ok::<
        nat,
        ConfigErrorView,
    >(c.perception_inventory_every_cycles as nat)
    &&& rollout_setting(env) == Ok::<TacticalRolloutMode, ConfigErrorView>(c.tactical_rollout_mode)
    &&& bool_setting(env, "NPC_ALLOW_LIVE_MUTATION"@, false) == Ok::<bool, ConfigErrorView>(c.allow_live_mutation)
    &&& budget_setting(env) == Ok::<LiveActionBudget, ConfigErrorView>(c.live_action_budget)
    &&& positive_setting(env, "NPC_LIVE_MAX_ACTIONS_PER_PACKET"@, 1, u32::MAX as nat) == Ok::<nat, ConfigErrorView>(
        c.live_max_actions_per_packet as nat,
    )
    &&& positive_setting(env, "NPC_LIVE_PACKET_MAX_AGE_MS"@, 1000, u64::MAX as nat) == Ok::<nat, ConfigErrorView>(
        c.live_packet_max_age_ms as nat,
    )
    &&& optional_text(c.live_expected_character_id) == nonblank_setting(env, "NPC_LIVE_EXPECTED_CHARACTER_ID"@)
    &&& optional_text(c.live_expected_player_name) == nonblank_setting(env, "NPC_LIVE_EXPECTED_PLAYER_NAME"@)
    &&& optional_text(c.live_allowed_scene) == nonblank_setting(env, "NPC_LIVE_ALLOWED_SCENE"@)
    &&& optional_positive_setting(env, "NPC_RUN_DURATION_SECONDS"@) == Ok::<Option<nat>, ConfigErrorView>(
        match c.run_duration_seconds {
            Some(v) => Some(v as nat),
            None => None,
        },
    )
    &&& c.character@ == unicode_lowercase(character_source(env))
    &&& optional_text(c.character_sheet_path) == nonblank_setting(env, "NPC_CHARACTER_SHEET_PATH"@)
    &&& c.memory_path@ == memory_path_text(env, c.character@)
}

fn text_or_default(value: Option<String>, default: &str) -> (text: String)
    ensures
        text@ == text_or(optional_text(value), default@),
{
    match value {
        Some(v) => v,
        None => String::from_str(default),
    }
}

fn preferred_setting(env: &Vec<(String, String)>, first: &str, second: &str) -> (value: Option<String>)
    ensures
        optional_text(value) == preferred_nonblank(env@, first@, second@),
{
    let chosen = match lookup(env, first) {
        Some(v) => Some(v),
        None => lookup(env, second),
    };
    match chosen {
        Some(v) => if blank(v.as_str()) {
            None
        } else {
            Some(v)
        },
        None => None,
    }
}

/// Where the memory of `character` lives under `env`.
pub fn memory_path_for(env: &Vec<(String, String)>, character: &str) -> (path: String)
    ensures
        path@ == memory_path_text(env@, character@),
{
    match preferred_setting(env, "NPC_MEMORY_PATH", "NPC_MEMORY_DIR") {
        Some(path) => path,
        None => {
            let mut path = String::from_str("./var/");
            path.append(character);
            path.append(".sqlite");
            path
        },
    }
}

fn found(f: &Option<ConfigError>) -> (error: Option<ConfigError>)
    ensures
        finding(error) == finding(*f),
{
    match f {
        Some(e) => Some(
            match e {
                ConfigError::Missing(name) => ConfigError::Missing(name),
                ConfigError::InvalidRate { name, value } => ConfigError::InvalidRate { name, value: value.clone() },
                ConfigError::InvalidValue { name, kind, value } => ConfigError::InvalidValue {
                    name,
                    kind,
                    value: value.clone(),
                },
            },
        ),
        None => None,
    }
}

impl ConfigCore {
    /// Read and validate every setting from `env`, taking the verdicts on the
    /// floating-point settings from `floats`; refuse with the first invalid
    /// setting in reading order.
    pub fn from_lookup(env: &Vec<(String, String)>, floats: &FloatSettingFindings) -> (result: Result<
        ConfigCore,
        ConfigError,
    >)
        ensures
            match result {
                Ok(c) => configuration_error(env@, *floats).is_none() && config_core_of(c, env@),
                Err(e) => configuration_error(env@, *floats) == Some(e@),
            },
    {
        let api_key = match required(env, "ARENA_API_KEY") {
            Ok(v) => v,
            Err(e) => {
                return Err(e);
            },
        };
        let openrouter_api_key = optional_nonempty(env, "OPENROUTER_API_KEY");
        if let Some(e) = found(&floats.tactical_max_hz) {
            return Err(e);
        }
        if let Some(e) = found(&floats.idle_tactical_hz) {
            return Err(e);
        }
        if let Some(e) = found(&floats.tactician_temperature) {
            return Err(e);
        }
        let tactician_max_output_tokens = match parse_positive_u64(env, "NPC_TACTICIAN_MAX_OUTPUT_TOKENS", 150) {
            Ok(v) => v,
            Err(e) => {
                return Err(e);
            },
        };
        let tactician_timeout_ms = match parse_positive_u64(env, "NPC_TACTICIAN_TIMEOUT_MS", 5000) {
            Ok(v) => v,
            Err(e) => {
                return Err(e);
            },
        };
        let tactician_reasoning = match parse_reasoning_config(
            env,
            "NPC_TACTICIAN_REASONING_ENABLED",
            false,
            "NPC_TACTICIAN_REASONING_EFFORT",
            ReasoningEffort::Minimal,
            "NPC_TACTICIAN_REASONING_EXCLUDE",
        ) {
            Ok(v) => v,
            Err(e) => {
                return Err(e);
            },
        };
        if let Some(e) = found(&floats.strategist_temperature) {
            return Err(e);
        }
        let strategist_max_output_tokens = match parse_positive_u64(env, "NPC_STRATEGIST_MAX_OUTPUT_TOKENS", 4000) {
            Ok(v) => v,
            Err(e) => {
                return Err(e);
            },
        };
        let strategist_timeout_ms = match parse_positive_u64(env, "NPC_STRATEGIST_TIMEOUT_MS", 60000) {
            Ok(v) => v,
            Err(e) => {
                return Err(e);
            },
        };
        let strategist_reasoning = match parse_reasoning_config(
            env,
            "NPC_STRATEGIST_REASONING_ENABLED",
            true,
            "NPC_STRATEGIST_REASONING_EFFORT",
            ReasoningEffort::Medium,
            "NPC_STRATEGIST_REASONING_EXCLUDE",
        ) {
            Ok(v) => v,
            Err(e) => {
                return Err(e);
            },
        };
        if let Err(e) = validate_reasoning_budget(
            "NPC_STRATEGIST_MAX_OUTPUT_TOKENS",
            strategist_max_output_tokens,
            strategist_reasoning,
        ) {
            return Err(e);
        }
        if let Err(e) = validate_reasoning_budget(
            "NPC_TACTICIAN_MAX_OUTPUT_TOKENS",
            tactician_max_output_tokens,
            tactician_reasoning,
        ) {
            return Err(e);
        }
        let strategist_min_interval_ms = match parse_count(env, "NPC_STRATEGIST_MIN_INTERVAL_MS", 30000) {
            Ok(v) => v,
            Err(e) => {
                return Err(e);
            },
        };
        let strategist_enabled = match parse_bool(env, "NPC_STRATEGIST_ENABLED", false) {
            Ok(v) => v,
            Err(e) => {
                return Err(e);
            },
        };
        let memory_tokens_wide = match parse_positive_u64(env, "NPC_STRATEGIST_MEMORY_MAX_TOKENS", 8000) {
            Ok(v) => v,
            Err(e) => {
                return Err(e);
            },
        };
        if memory_tokens_wide > usize::MAX as u64 {
            return Err(
                ConfigError::InvalidValue {
                    name: "NPC_STRATEGIST_MEMORY_MAX_TOKENS",
                    kind: "positive integer supported by this platform",
                    value: String::from_str("out_of_range"),
                },
            );
        }
        let strategist_memory_max_tokens = memory_tokens_wide as usize;
        let capture_enabled = match parse_bool(env, "NPC_LOCAL_MODEL_INPUT_CAPTURE_ENABLED", false) {
            Ok(v) => v,
            Err(e) => {
                return Err(e);
            },
        };
        let local_input_capture = if capture_enabled {
            Some(
                text_or_default(
                    optional_nonempty(env, "NPC_LOCAL_MODEL_INPUT_CAPTURE_PATH"),
                    "./var/model-input-captures",
                ),
            )
        } else {
            None
        };
        let prompt_caching_enabled = match parse_bool(env, "NPC_OPENROUTER_PROMPT_CACHING_ENABLED", true) {
            Ok(v) => v,
            Err(e) => {
                return Err(e);
            },
        };
        let local_rag_enabled = match parse_bool(env, "NPC_LOCAL_RAG_ENABLED", true) {
            Ok(v) => v,
            Err(e) => {
                return Err(e);
            },
        };
        if let Some(e) = found(&floats.local_rag_minimum_score) {
            return Err(e);
        }
        let request_timeout_ms = match parse_positive_u64(env, "ARENA_MCP_TIMEOUT_MS", 60000) {
            Ok(v) => v,
            Err(e) => {
                return Err(e);
            },
        };
        let reconnect_max_attempts = match parse_positive_u32(env, "ARENA_RECONNECT_MAX_ATTEMPTS", 5) {
            Ok(v) => v,
            Err(e) => {
                return Err(e);
            },
        };
        let reconnect_initial_backoff_ms = match parse_positive_u64(env, "ARENA_RECONNECT_INITIAL_BACKOFF_MS", 250) {
            Ok(v) => v,
            Err(e) => {
                return Err(e);
            },
        };
        let perception_interval_ms = match parse_positive_u64(env, "NPC_PERCEPTION_INTERVAL_MS", 500) {
            Ok(v) => v,
            Err(e) => {
                return Err(e);
            },
        };
        let perception_map_radius = match parse_positive_u32(env, "NPC_PERCEPTION_MAP_RADIUS", 16) {
            Ok(v) => v,
            Err(e) => {
                return Err(e);
            },
        };
        let perception_inventory_every_cycles = match parse_positive_u64(
            env,
            "NPC_PERCEPTION_INVENTORY_EVERY_CYCLES",
            10,
        ) {
            Ok(v) => v,
            Err(e) => {
                return Err(e);
            },
        };
        let tactical_rollout_mode = match parse_rollout(env) {
            Ok(v) => v,
            Err(e) => {
                return Err(e);
            },
        };
        let allow_live_mutation = match parse_bool(env, "NPC_ALLOW_LIVE_MUTATION", false) {
            Ok(v) => v,
            Err(e) => {
                return Err(e);
            },
        };
        let live_action_budget = match parse_live_action_budget(env) {
            Ok(v) => v,
            Err(e) => {
                return Err(e);
            },
        };
        let live_max_actions_per_packet = match parse_positive_u32(env, "NPC_LIVE_MAX_ACTIONS_PER_PACKET", 1) {
            Ok(v) => v,
            Err(e) => {
                return Err(e);
            },
        };
        let live_packet_max_age_ms = match parse_positive_u64(env, "NPC_LIVE_PACKET_MAX_AGE_MS", 1000) {
            Ok(v) => v,
            Err(e) => {
                return Err(e);
            },
        };
        let live_expected_character_id = optional_nonempty(env, "NPC_LIVE_EXPECTED_CHARACTER_ID");
        let live_expected_player_name = optional_nonempty(env, "NPC_LIVE_EXPECTED_PLAYER_NAME");
        let live_allowed_scene = optional_nonempty(env, "NPC_LIVE_ALLOWED_SCENE");
        let run_duration_seconds = match optional_positive_u64(env, "NPC_RUN_DURATION_SECONDS") {
            Ok(v) => v,
            Err(e) => {
                return Err(e);
            },
        };
        if let Some(e) = found(&floats.run_max_openrouter_cost_usd) {
            return Err(e);
        }
        if tactical_rollout_mode == TacticalRolloutMode::Full && !allow_live_mutation {
            return Err(
                ConfigError::InvalidValue {
                    name: "NPC_TACTICAL_ROLLOUT_MODE",
                    kind: "full only when NPC_ALLOW_LIVE_MUTATION=true",
                    value: String::from_str(tactical_rollout_mode.as_str()),
                },
            );
        }
        let character_name = text_or_default(optional_nonempty(env, "NPC_CHARACTER"), "guy");
        let character = lowercase(character_name.as_str());
        let memory_path = memory_path_for(env, character.as_str());
        Ok(
            ConfigCore {
                arena: ArenaConfig {
                    mcp_url: text_or_default(
                        optional_nonempty(env, "ARENA_MCP_URL"),
                        "https://mcp.yougotserved.dev/mcp",
                    ),
                    api_key,
                    request_timeout_ms,
                    reconnect_max_attempts,
                    reconnect_initial_backoff_ms,
                },
                openrouter_api_key,
                strategist_model: text_or_default(
                    preferred_setting(env, "NPC_STRATEGIST_MODEL", "NPC_MODEL"),
                    "openai/gpt-oss-120b",
                ),
                tactician_model: text_or_default(
                    optional_nonempty(env, "NPC_TACTICIAN_MODEL"),
                    "google/gemini-3.1-flash-lite",
                ),
                tactician_max_output_tokens,
                tactician_request_timeout_ms: tactician_timeout_ms,
                tactician_reasoning,
                strategist_max_output_tokens,
                strategist_request_timeout_ms: strategist_timeout_ms,
                strategist_reasoning,
                strategist_min_interval_ms,
                strategist_enabled,
                strategist_memory_max_tokens,
                local_input_capture,
                prompt_caching_enabled,
                local_rag_enabled,
                perception_interval_ms,
                perception_map_radius,
                perception_inventory_every_cycles,
                tactical_rollout_mode,
                allow_live_mutation,
                live_action_budget,
                live_max_actions_per_packet,
                live_packet_max_age_ms,
                live_expected_character_id,
                live_expected_player_name,
                live_allowed_scene,
                run_duration_seconds,
                character,
                character_sheet_path: optional_nonempty(env, "NPC_CHARACTER_SHEET_PATH"),
                memory_path,
            },
        )
    }

    /// The model-provider key, for a component that needs one.
    pub fn openrouter_api_key(&self) -> (key: Result<&str, ConfigError>)
        ensures
            match key {
                Ok(k) => optional_text(self.openrouter_api_key) == Some(k@),
                Err(e) => self.openrouter_api_key.is_none() && e@ == ConfigErrorView::Missing(
                    "OPENROUTER_API_KEY"@,
                ),
            },
    {
        match &self.openrouter_api_key {
            Some(k) => Ok(k.as_str()),
            None => Err(ConfigError::Missing("OPENROUTER_API_KEY")),
        }
    }
}

// ---------------------------------------------------------------------------
// Laws
// ---------------------------------------------------------------------------

/// An absent numeric setting takes its default.
pub proof fn law_absent_setting_takes_default(env: Seq<(String, String)>, name: Seq<char>, default: nat, max: nat)
    requires
        env_value(env, name).is_none(),
        0 < default <= max,
    ensures
        positive_setting(env, name, default, max) == Ok::<nat, ConfigErrorView>(default),
        default <= u64::MAX ==> count_setting(env, name, default) == Ok::<nat, ConfigErrorView>(default),
{
    law_decimal_round_trip(default, max);
    if default <= u64::MAX {
        law_decimal_round_trip(default, u64::MAX as nat);
    }
}

/// A configuration that is accepted never runs the full tactical rollout
/// without allowing live mutation.
pub proof fn law_full_rollout_needs_live_mutation(
    c: ConfigCore,
    env: Seq<(String, String)>,
    floats: FloatSettingFindings,
)
    requires
        configuration_error(env, floats).is_none(),
        config_core_of(c, env),
    ensures
        c.tactical_rollout_mode == TacticalRolloutMode::Full ==> c.allow_live_mutation,
{
}

/// An accepted configuration gives every brain with reasoning enabled at least
/// the completion budget its effort needs.
pub proof fn law_reasoning_budgets_hold(c: ConfigCore, env: Seq<(String, String)>, floats: FloatSettingFindings)
    requires
        configuration_error(env, floats).is_none(),
        config_core_of(c, env),
    ensures
        c.strategist_reasoning.enabled ==> c.strategist_max_output_tokens >= effort_minimum_tokens(
            c.strategist_reasoning.effort,
        ),
        c.tactician_reasoning.enabled ==> c.tactician_max_output_tokens >= effort_minimum_tokens(
            c.tactician_reasoning.effort,
        ),
        c.tactician_max_output_tokens > 0 && c.strategist_max_output_tokens > 0,
{
}

/// Live mutation is enabled by the budget only through the literal `unlimited`
/// or a positive count; a word that is neither is refused.
pub proof fn law_budget_is_literal_or_count(env: Seq<(String, String)>)
    ensures
        budget_setting(env) == Ok::<LiveActionBudget, ConfigErrorView>(LiveActionBudget::Unlimited) ==> ascii_lowercased(
            raw_setting(env, "NPC_LIVE_ACTION_BUDGET"@, "0"@),
        ) == "unlimited"@,
        ascii_lowercased(raw_setting(env, "NPC_LIVE_ACTION_BUDGET"@, "0"@)) != "unlimited"@ && parsed_unsigned(
            raw_setting(env, "NPC_LIVE_ACTION_BUDGET"@, "0"@),
            u32::MAX as nat,
        ).is_none() ==> budget_setting(env) is Err,
{
}

} // verus!
