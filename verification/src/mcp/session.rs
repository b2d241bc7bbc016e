//! The decisions of an arena session: which registered agent a character is,
//! how it registers, what each connection generation announces, how a lost
//! session is retried, and how a disconnect settles.

use vstd::prelude::*;

use crate::character::CharacterSheet;
use crate::mcp::transport::{mcp_error_class, mcp_error_text, session_lost, McpError};
use crate::mcp::types::{DisconnectResult, RegisteredAgent};
use crate::text::{
    append_decimal, blank, decimal_text, insert_text_sorted, is_blank, lemma_sorted_is_canonical, sorted_texts,
    strictly_sorted, text_equals, text_views,
};

verus! {

/// What the session announces to the runtime.
#[derive(Debug, Clone, PartialEq, Eq)]
pub enum SessionEvent {
    Connected { generation: u64, agent_id: String },
    Disconnected { generation: u64 },
    Reconnected { generation: u64, agent_id: String },
    DecisionsInvalidated { generation: u64, reason: String },
}

/// A session event with its texts as characters.
pub enum SessionEventView {
    Connected { generation: u64, agent_id: Seq<char> },
    Disconnected { generation: u64 },
    Reconnected { generation: u64, agent_id: Seq<char> },
    DecisionsInvalidated { generation: u64, reason: Seq<char> },
}

impl View for SessionEvent {
    type V = SessionEventView;

    open spec fn view(&self) -> SessionEventView {
        match self {
            SessionEvent::Connected { generation, agent_id } => SessionEventView::Connected {
                generation: *generation,
                agent_id: agent_id@,
            },
            SessionEvent::Disconnected { generation } => SessionEventView::Disconnected { generation: *generation },
            SessionEvent::Reconnected { generation, agent_id } => SessionEventView::Reconnected {
                generation: *generation,
                agent_id: agent_id@,
            },
            SessionEvent::DecisionsInvalidated { generation, reason } => SessionEventView::DecisionsInvalidated {
                generation: *generation,
                reason: reason@,
            },
        }
    }
}

pub open spec fn event_views(events: Seq<SessionEvent>) -> Seq<SessionEventView> {
    events.map_values(|e: SessionEvent| e@)
}

/// Why a session operation failed.
#[derive(Debug, Clone, PartialEq, Eq)]
pub enum SessionError {
    Mcp(McpError),
    /// `message` is the decoder's own text.
    Decode { operation: &'static str, message: String },
    MissingAgentIdentity,
    ReconnectExhausted { attempts: u32, last_error: String },
}

/// The stable class of a session failure.
pub open spec fn session_error_class_of(error: SessionError) -> Seq<char> {
    match error {
        SessionError::Mcp(e) => mcp_error_class(e),
        SessionError::Decode { .. } => "decode"@,
        SessionError::MissingAgentIdentity => "missing_agent_identity"@,
        SessionError::ReconnectExhausted { .. } => "reconnect_exhausted"@,
    }
}

/// The human-readable text of a session failure.
pub open spec fn session_error_text(error: SessionError) -> Seq<char> {
    match error {
        SessionError::Mcp(e) => mcp_error_text(e),
        SessionError::Decode { operation, message } => "session response for "@ + operation@
            + " was incompatible: "@ + message@,
        SessionError::MissingAgentIdentity => "registration returned no usable agent identity"@,
        SessionError::ReconnectExhausted { attempts, last_error } => "MCP reconnect failed after "@ + decimal_text(
            attempts as nat,
        ) + " attempts: "@ + last_error@,
    }
}

impl SessionError {
    /// The stable class of the failure.
    pub fn class(&self) -> (class: &'static str)
        ensures
            class@ == session_error_class_of(*self),
    {
        match self {
            SessionError::Mcp(e) => e.class(),
            SessionError::Decode { .. } => "decode",
            SessionError::MissingAgentIdentity => "missing_agent_identity",
            SessionError::ReconnectExhausted { .. } => "reconnect_exhausted",
        }
    }

    /// The human-readable text of the failure.
    pub fn message(&self) -> (text: String)
        ensures
            text@ == session_error_text(*self),
    {
        match self {
            SessionError::Mcp(e) => e.message(),
            SessionError::Decode { operation, message } => {
                let mut text = String::from_str("session response for ");
                text.append(operation);
                text.append(" was incompatible: ");
                text.append(message.as_str());
                text
            },
            SessionError::MissingAgentIdentity => String::from_str("registration returned no usable agent identity"),
            SessionError::ReconnectExhausted { attempts, last_error } => {
                let mut text = String::from_str("MCP reconnect failed after ");
                append_decimal(&mut text, *attempts as u64);
                text.append(" attempts: ");
                text.append(last_error.as_str());
                text
            },
        }
    }
}

/// The session's own record of who it is connected as.
#[derive(Debug, Clone)]
pub struct SessionState {
    pub generation: u64,
    pub agent: Option<RegisteredAgent>,
    pub analytics_character_id: Option<String>,
    pub connected: bool,
}

impl Default for SessionState {
    /// Never connected: generation zero, no agent.
    fn default() -> (state: SessionState)
        ensures
            state.generation == 0,
            state.agent.is_none(),
            state.analytics_character_id.is_none(),
            !state.connected,
    {
        SessionState { generation: 0, agent: None, analytics_character_id: None, connected: false }
    }
}

/// The reason given when a reconnect invalidates earlier decisions.
pub open spec fn reconnect_reason() -> Seq<char> {
    "MCP session reconnected"@
}

/// What a new connection generation announces: a first connection is
/// connected; a reconnection is reconnected, and invalidates every decision
/// made under an earlier generation.
pub open spec fn establish_events(generation: u64, agent_id: Seq<char>, reconnect: bool) -> Seq<SessionEventView> {
    if reconnect {
        seq![
            SessionEventView::Reconnected { generation, agent_id },
            SessionEventView::DecisionsInvalidated { generation, reason: reconnect_reason() },
        ]
    } else {
        seq![SessionEventView::Connected { generation, agent_id }]
    }
}

impl SessionState {
    /// Attribute what follows to `character_id`.
    pub fn bind_character(&mut self, character_id: &str)
        ensures
            final(self).analytics_character_id matches Some(id) && id@ == character_id@,
            final(self).generation == old(self).generation,
            final(self).agent == old(self).agent,
            final(self).connected == old(self).connected,
    {
        self.analytics_character_id = Some(String::from_str(character_id));
    }

    /// Record a completed connection as `agent` for `character_id`: start the
    /// next generation and say what it announces.
    pub fn finish_establish(&mut self, character_id: &str, agent: RegisteredAgent, reconnect: bool) -> (events: Vec<
        SessionEvent,
    >)
        requires
            old(self).generation < u64::MAX,
        ensures
            final(self).generation == old(self).generation + 1,
            final(self).agent == Some(agent),
            final(self).analytics_character_id matches Some(id) && id@ == character_id@,
            final(self).connected,
            event_views(events@) == establish_events(final(self).generation, agent.id@, reconnect),
    {
        self.generation = self.generation + 1;
        let generation = self.generation;
        let agent_id = agent.id.clone();
        self.agent = Some(agent);
        self.analytics_character_id = Some(String::from_str(character_id));
        self.connected = true;
        let mut events: Vec<SessionEvent> = Vec::new();
        if reconnect {
            events.push(SessionEvent::Reconnected { generation, agent_id });
            events.push(
                SessionEvent::DecisionsInvalidated {
                    generation,
                    reason: String::from_str("MCP session reconnected"),
                },
            );
            assert(event_views(events@) =~= establish_events(generation, agent_id@, reconnect));
        } else {
            events.push(SessionEvent::Connected { generation, agent_id });
            assert(event_views(events@) =~= establish_events(generation, agent_id@, reconnect));
        }
        events
    }

    /// The agent to disconnect, if one is bound.
    pub fn disconnect_target(&self) -> (agent_id: Option<String>)
        ensures
            match agent_id {
                Some(id) => self.agent matches Some(a) && id@ == a.id@,
                None => self.agent is None,
            },
    {
        match &self.agent {
            Some(agent) => Some(agent.id.clone()),
            None => None,
        }
    }

    /// Record that the session is no longer connected, and announce it.
    pub fn mark_disconnected(&mut self) -> (event: SessionEvent)
        ensures
            !final(self).connected,
            final(self).generation == old(self).generation,
            final(self).agent == old(self).agent,
            final(self).analytics_character_id == old(self).analytics_character_id,
            event == (SessionEvent::Disconnected { generation: old(self).generation }),
    {
        self.connected = false;
        SessionEvent::Disconnected { generation: self.generation }
    }
}

/// A registration returned an agent the session can bind: its id is not blank.
pub fn check_agent_identity(agent: &RegisteredAgent) -> (result: Result<(), SessionError>)
    ensures
        result is Ok <==> !is_blank(agent.id@),
        result matches Err(e) ==> e == SessionError::MissingAgentIdentity,
{
    if blank(agent.id.as_str()) {
        Err(SessionError::MissingAgentIdentity)
    } else {
        Ok(())
    }
}

/// Settle the reply to a disconnect: a session that was already lost counts
/// as disconnected with no result; any other failure stands.
pub fn settle_disconnect(reply: Result<DisconnectResult, SessionError>) -> (settled: Result<
    Option<DisconnectResult>,
    SessionError,
>)
    ensures
        match reply {
            Ok(result) => settled == Ok::<Option<DisconnectResult>, SessionError>(Some(result)),
            Err(SessionError::Mcp(e)) => if session_lost(e) {
                settled == Ok::<Option<DisconnectResult>, SessionError>(None)
            } else {
                settled == Err::<Option<DisconnectResult>, SessionError>(SessionError::Mcp(e))
            },
            Err(e) => settled == Err::<Option<DisconnectResult>, SessionError>(e),
        },
{
    match reply {
        Ok(result) => Ok(Some(result)),
        Err(SessionError::Mcp(e)) => {
            if e.is_session_loss() {
                Ok(None)
            } else {
                Err(SessionError::Mcp(e))
            }
        },
        Err(e) => Err(e),
    }
}

/// The first agent registered under `player_name`.
pub open spec fn first_agent_named(agents: Seq<RegisteredAgent>, player_name: Seq<char>) -> Option<int>
    decreases agents.len(),
{
    if agents.len() == 0 {
        None
    } else if agents.last().player_name@ == player_name && first_agent_named(agents.drop_last(), player_name) is None {
        Some(agents.len() - 1)
    } else {
        first_agent_named(agents.drop_last(), player_name)
    }
}

proof fn lemma_first_agent_named(agents: Seq<RegisteredAgent>, player_name: Seq<char>)
    ensures
        match first_agent_named(agents, player_name) {
            Some(i) => 0 <= i < agents.len() && agents[i].player_name@ == player_name && forall|j: int|
                0 <= j < i ==> (#[trigger] agents[j]).player_name@ != player_name,
            None => forall|j: int| 0 <= j < agents.len() ==> (#[trigger] agents[j]).player_name@ != player_name,
        },
    decreases agents.len(),
{
    if agents.len() > 0 {
        lemma_first_agent_named(agents.drop_last(), player_name);
        assert forall|j: int| 0 <= j < agents.len() - 1 implies agents.drop_last()[j] == agents[j] by {}
    }
}

/// The position of the first agent that plays `player_name`, if any.
pub fn find_agent(agents: &Vec<RegisteredAgent>, player_name: &str) -> (found: Option<usize>)
    ensures
        match found {
            Some(i) => first_agent_named(agents@, player_name@) == Some(i as int),
            None => first_agent_named(agents@, player_name@) is None,
        },
{
    proof {
        lemma_first_agent_named(agents@, player_name@);
    }
    let mut i: usize = 0;
    while i < agents.len()
        invariant
            i <= agents@.len(),
            forall|j: int| 0 <= j < i ==> (#[trigger] agents@[j]).player_name@ != player_name@,
        decreases agents@.len() - i,
    {
        if text_equals(agents[i].player_name.as_str(), player_name) {
            proof {
                lemma_first_agent_named(agents@, player_name@);
                match first_agent_named(agents@, player_name@) {
                    Some(k) => {
                        if k > i {
                            assert(agents@[i as int].player_name@ == player_name@);
                        }
                    },
                    None => {
                        assert(agents@[i as int].player_name@ == player_name@);
                    },
                }
            }
            return Some(i);
        }
        i = i + 1;
    }
    None
}

/// What a character registers with.
#[derive(Debug, Clone, PartialEq, Eq)]
pub struct RegistrationRequest {
    pub agent_name: String,
    pub player_name: String,
    pub class_path: String,
    pub selected_scene: String,
    pub idempotency_key: String,
}

/// The key that makes repeated registrations of one sheet version the same
/// registration.
pub open spec fn idempotency_key_of(id: Seq<char>, registration_version: u32) -> Seq<char> {
    "npc-"@ + id + "-v"@ + decimal_text(registration_version as nat)
}

/// The class path a character without one registers with.
pub open spec fn default_class_path() -> Seq<char> {
    "journeyman"@
}

/// The registration of `character`: named by its id, as its player, in its
/// class (or the default one), starting in its home scene, under a key
/// that depends only on its id and registration version.
pub fn registration_request(character: &CharacterSheet) -> (request: RegistrationRequest)
    ensures
        request.agent_name@ == character.id@,
        request.player_name@ == character.player_name@,
        request.class_path@ == (match character.class_path {
            Some(c) => c@,
            None => default_class_path(),
        }),
        request.selected_scene@ == character.home_scene@,
        request.idempotency_key@ == idempotency_key_of(character.id@, character.registration_version),
{
    let mut key = String::from_str("npc-");
    key.append(character.id.as_str());
    key.append("-v");
    append_decimal(&mut key, character.registration_version as u64);
    RegistrationRequest {
        agent_name: character.id.clone(),
        player_name: character.player_name.clone(),
        class_path: match &character.class_path {
            Some(c) => c.clone(),
            None => String::from_str("journeyman"),
        },
        selected_scene: character.home_scene.clone(),
        idempotency_key: key,
    }
}

/// The longest pause between two reconnect attempts, in milliseconds.
pub open spec fn max_reconnect_delay_ms() -> u64 {
    8000
}

/// The pause after `delay_ms`: twice as long, at most the longest pause.
pub open spec fn doubled_delay(delay_ms: u64) -> u64 {
    if 2 * delay_ms < max_reconnect_delay_ms() {
        (2 * delay_ms) as u64
    } else {
        max_reconnect_delay_ms()
    }
}

/// What to do after a failed reconnect attempt.
#[derive(Debug, Clone, PartialEq, Eq)]
pub enum ReconnectStep {
    RetryAfter { delay_ms: u64 },
    Exhausted(SessionError),
}

/// Bounded exponential backoff for rebuilding a lost session.
#[derive(Debug, Clone)]
pub struct ReconnectSchedule {
    attempts: u32,
    attempt: u32,
    delay_ms: u64,
}

impl ReconnectSchedule {
    pub closed spec fn attempts_of(self) -> u32 {
        self.attempts
    }

    pub closed spec fn attempt_of(self) -> u32 {
        self.attempt
    }

    pub closed spec fn delay_of(self) -> u64 {
        self.delay_ms
    }

    pub closed spec fn well_formed(self) -> bool {
        1 <= self.attempt <= self.attempts
    }

    /// Plan at least one and at most `max_attempts` attempts, pausing
    /// `initial_backoff_ms` after the first failure.
    pub fn new(max_attempts: u32, initial_backoff_ms: u64) -> (schedule: ReconnectSchedule)
        ensures
            schedule.well_formed(),
            schedule.attempts_of() == (if max_attempts == 0 {
                1
            } else {
                max_attempts
            }),
            schedule.attempt_of() == 1,
            schedule.delay_of() == initial_backoff_ms,
    {
        let attempts = if max_attempts == 0 {
            1
        } else {
            max_attempts
        };
        ReconnectSchedule { attempts, attempt: 1, delay_ms: initial_backoff_ms }
    }

    /// The number of the attempt being made, from one.
    pub fn attempt(&self) -> (attempt: u32)
        ensures
            attempt == self.attempt_of(),
    {
        self.attempt
    }

    /// The attempt failed with `error_text`: pause and retry while attempts
    /// remain (each later pause twice the last, at most the longest pause),
    /// else give up with the last error.
    pub fn failed(&mut self, error_text: String) -> (step: ReconnectStep)
        requires
            old(self).well_formed(),
        ensures
            final(self).attempts_of() == old(self).attempts_of(),
            old(self).attempt_of() < old(self).attempts_of() ==> {
                &&& step == ReconnectStep::RetryAfter { delay_ms: old(self).delay_of() }
                &&& final(self).attempt_of() == old(self).attempt_of() + 1
                &&& final(self).delay_of() == doubled_delay(old(self).delay_of())
                &&& final(self).well_formed()
            },
            old(self).attempt_of() == old(self).attempts_of() ==> step == ReconnectStep::Exhausted(
                SessionError::ReconnectExhausted { attempts: old(self).attempts_of(), last_error: error_text },
            ),
    {
        if self.attempt < self.attempts {
            let delay_ms = self.delay_ms;
            self.attempt = self.attempt + 1;
            self.delay_ms = if delay_ms < 4000 {
                2 * delay_ms
            } else {
                8000
            };
            ReconnectStep::RetryAfter { delay_ms }
        } else {
            ReconnectStep::Exhausted(SessionError::ReconnectExhausted { attempts: self.attempts, last_error: error_text })
        }
    }
}

/// A schedule makes exactly as many attempts as it planned, and every pause
/// after the first is at most the longest pause.
pub proof fn law_reconnect_backoff_is_bounded(before: ReconnectSchedule, after: ReconnectSchedule)
    requires
        before.well_formed(),
        before.attempt_of() < before.attempts_of(),
        after.attempt_of() == before.attempt_of() + 1,
        after.delay_of() == doubled_delay(before.delay_of()),
        after.attempts_of() == before.attempts_of(),
    ensures
        after.delay_of() <= max_reconnect_delay_ms(),
        after.attempt_of() <= after.attempts_of(),
{
}

/// Successive connections announce strictly increasing generations, and a
/// reconnection always invalidates the decisions of earlier generations.
pub proof fn law_generations_increase(
    before: SessionState,
    after: SessionState,
    agent_id: Seq<char>,
    reconnect: bool,
    events: Seq<SessionEventView>,
)
    requires
        after.generation == before.generation + 1,
        events == establish_events(after.generation, agent_id, reconnect),
    ensures
        after.generation > before.generation,
        reconnect ==> events.contains(
            SessionEventView::DecisionsInvalidated { generation: after.generation, reason: reconnect_reason() },
        ),
        !reconnect ==> events.len() == 1 && events[0] is Connected,
{
    if reconnect {
        assert(events[1] == SessionEventView::DecisionsInvalidated {
            generation: after.generation,
            reason: reconnect_reason(),
        });
    }
}

/// The cursor of the next page of the tool list: present and not empty.
pub fn next_tool_page(next_cursor: Option<String>) -> (cursor: Option<String>)
    ensures
        match next_cursor {
            Some(c) => if c@.len() == 0 {
                cursor is None
            } else {
                cursor == Some(c)
            },
            None => cursor is None,
        },
{
    match next_cursor {
        Some(c) => if c.as_str().unicode_len() == 0 {
            None
        } else {
            Some(c)
        },
        None => None,
    }
}

/// Every advertised tool name once, in order.
pub fn sorted_tool_names(names: &Vec<String>) -> (sorted: Vec<String>)
    ensures
        text_views(sorted@) == sorted_texts(text_views(names@).to_set()),
{
    let mut sorted: Vec<String> = Vec::new();
    let mut i: usize = 0;
    assert(text_views(sorted@).to_set() =~= text_views(names@.take(0)).to_set());
    while i < names.len()
        invariant
            i <= names@.len(),
            strictly_sorted(text_views(sorted@)),
            text_views(sorted@).to_set() == text_views(names@.take(i as int)).to_set(),
        decreases names@.len() - i,
    {
        let ghost before = text_views(names@.take(i as int));
        insert_text_sorted(&mut sorted, names[i].clone());
        assert(text_views(names@.take(i + 1)) =~= before.push(names@[i as int]@));
        proof {
            before.lemma_push_to_set_commute(names@[i as int]@);
        }
        i = i + 1;
    }
    assert(names@.take(i as int) =~= names@);
    proof {
        lemma_sorted_is_canonical(text_views(sorted@));
    }
    sorted
}

} // verus!
