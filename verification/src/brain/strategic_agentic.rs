//! Typed checkpoint protocol for the persistent strategist loop.
//!
//! The runtime owns revisions and routing; a strategist session answers one
//! checkpoint at a time. This module holds the mailbox that decides when the
//! next checkpoint is due, and the checks applied to every checkpoint answer.

use vstd::prelude::*;
use std::collections::VecDeque;

use crate::brain::strategic_intent::{
    goal_views, optional_goal_view, priority_views, NamedDestination, NamedDestinationView, NavigationGoal,
    NavigationGoalView, StrategicIntent,
};
use crate::brain::strategic_output::{
    proposal_semantic_check, restates_intent, StrategicAction, StrategicProposal,
    StrategicProposalSemanticError,
};
use crate::text::{
    append_decimal, decimal_text, is_blank, lemma_decimal_text_injective, optional_text, text_equals,
    text_views,
};
use crate::world::TilePosition;

verus! {

/// The checkpoint protocol version that every answer must carry.
pub const STRATEGIC_CHECKPOINT_PROTOCOL_VERSION: u32 = 2;

/// One runtime fact waiting for the next strategic checkpoint.
#[derive(Debug, Clone, PartialEq, Eq)]
pub struct StrategicInboxFact {
    pub kind: String,
    pub summary: String,
    pub speaker: Option<String>,
    pub channel: Option<String>,
}

/// The content of an inbox fact, with its texts as character sequences.
pub struct InboxFactView {
    pub kind: Seq<char>,
    pub summary: Seq<char>,
    pub speaker: Option<Seq<char>>,
    pub channel: Option<Seq<char>>,
}

impl View for StrategicInboxFact {
    type V = InboxFactView;

    open spec fn view(&self) -> InboxFactView {
        InboxFactView {
            kind: self.kind@,
            summary: self.summary@,
            speaker: match self.speaker {
                Some(s) => Some(s@),
                None => None,
            },
            channel: match self.channel {
                Some(c) => Some(c@),
                None => None,
            },
        }
    }
}

pub open spec fn fact_views(facts: Seq<StrategicInboxFact>) -> Seq<InboxFactView> {
    facts.map_values(|fact: StrategicInboxFact| fact@)
}

/// A tile named by the strategist.
#[derive(Debug, Clone, Copy, PartialEq, Eq, Structural)]
pub struct StrategicTile {
    pub tile_x: i32,
    pub tile_y: i32,
}

/// One typed event of a checkpoint answer.
#[derive(Debug, Clone, PartialEq, Eq)]
pub enum StrategicEvent {
    ThoughtCheckpoint { summary: String },
    NavigationGoal { scene: String, destination: Option<StrategicTile>, reason: String },
    Speech { message: String, channel: Option<String>, recipient: Option<String> },
    Interact { target_id: String },
    QueueDuel,
    PlanUpdate { summary: String },
    GoalComplete { evidence: String },
}

/// The strategist's answer to one checkpoint.
#[derive(Debug, Clone, PartialEq, Eq)]
pub struct StrategicCheckpointOutput {
    pub protocol_version: u32,
    pub checkpoint_id: String,
    pub continue_thinking: bool,
    pub events: Vec<StrategicEvent>,
}

// ---------------------------------------------------------------------------
// The mailbox
// ---------------------------------------------------------------------------

/// Runtime-side mailbox for one persistent strategist session.
///
/// It implements latest-value semantics without cancelling the session: new
/// facts are coalesced while a checkpoint is in flight and become the input to
/// the next checkpoint, so an old world snapshot never builds an unbounded
/// queue of model calls.
#[derive(Debug)]
pub struct StrategicAgenticLoop {
    inbox: VecDeque<StrategicInboxFact>,
    checkpoint_sequence: u64,
    in_flight: Option<String>,
    continuation_requested: bool,
}

/// The mailbox as a value: the queued facts, the last checkpoint number handed
/// out, the identifier of the checkpoint in flight, and whether the strategist
/// asked to keep thinking.
pub struct LoopView {
    pub inbox: Seq<InboxFactView>,
    pub checkpoint_sequence: u64,
    pub in_flight: Option<Seq<char>>,
    pub continuation_requested: bool,
}

impl View for StrategicAgenticLoop {
    type V = LoopView;

    closed spec fn view(&self) -> LoopView {
        LoopView {
            inbox: fact_views(self.inbox@),
            checkpoint_sequence: self.checkpoint_sequence,
            in_flight: match self.in_flight {
                Some(id) => Some(id@),
                None => None,
            },
            continuation_requested: self.continuation_requested,
        }
    }
}

/// The empty mailbox.
pub open spec fn empty_loop() -> LoopView {
    LoopView {
        inbox: Seq::empty(),
        checkpoint_sequence: 0,
        in_flight: None,
        continuation_requested: false,
    }
}

pub open spec fn is_world_fact(fact: InboxFactView) -> bool {
    fact.kind == "world"@
}

/// `facts` without its world snapshots, the others in their order.
pub open spec fn without_world_facts(facts: Seq<InboxFactView>) -> Seq<InboxFactView>
    decreases facts.len(),
{
    if facts.len() == 0 {
        facts
    } else {
        let rest = without_world_facts(facts.drop_last());
        if is_world_fact(facts.last()) {
            rest
        } else {
            rest.push(facts.last())
        }
    }
}

/// The capacity actually kept: at least one fact.
pub open spec fn effective_capacity(capacity: usize) -> nat {
    if capacity == 0 {
        1
    } else {
        capacity as nat
    }
}

/// The newest `capacity` facts of `facts`.
pub open spec fn newest(facts: Seq<InboxFactView>, capacity: nat) -> Seq<InboxFactView> {
    if facts.len() > capacity {
        facts.skip(facts.len() - capacity)
    } else {
        facts
    }
}

/// The inbox after queuing `fact`: a world snapshot replaces every earlier one,
/// and the oldest facts are dropped beyond the capacity.
pub open spec fn inbox_after_push(
    inbox: Seq<InboxFactView>,
    fact: InboxFactView,
    capacity: usize,
) -> Seq<InboxFactView> {
    let kept = if is_world_fact(fact) {
        without_world_facts(inbox)
    } else {
        inbox
    };
    newest(kept.push(fact), effective_capacity(capacity))
}

pub open spec fn loop_after_push(state: LoopView, fact: InboxFactView, capacity: usize) -> LoopView {
    LoopView { inbox: inbox_after_push(state.inbox, fact, capacity), ..state }
}

/// The identifier of the checkpoint with number `sequence`.
pub open spec fn checkpoint_id_text(sequence: u64) -> Seq<char> {
    "strategic-checkpoint-"@ + decimal_text(sequence as nat)
}

pub open spec fn next_sequence(sequence: u64) -> u64 {
    if sequence < u64::MAX {
        (sequence + 1) as u64
    } else {
        sequence
    }
}

/// A checkpoint may begin: none is running, and there is something to think about.
pub open spec fn checkpoint_due(state: LoopView) -> bool {
    state.in_flight.is_none() && (state.inbox.len() > 0 || state.continuation_requested)
}

pub open spec fn loop_after_begin(state: LoopView) -> LoopView {
    if checkpoint_due(state) {
        LoopView {
            inbox: Seq::empty(),
            checkpoint_sequence: next_sequence(state.checkpoint_sequence),
            in_flight: Some(checkpoint_id_text(next_sequence(state.checkpoint_sequence))),
            continuation_requested: false,
        }
    } else {
        state
    }
}

/// Why a checkpoint completion was refused.
#[derive(Debug, Clone, Copy, PartialEq, Eq, Structural)]
pub enum CheckpointCompletionError {
    /// A completion arrived while no checkpoint was running.
    NothingInFlight,
    /// The completion names another checkpoint than the one running.
    MismatchedCheckpoint,
}

/// The human-readable text of a refused completion.
pub open spec fn completion_error_text(error: CheckpointCompletionError) -> Seq<char> {
    match error {
        CheckpointCompletionError::NothingInFlight => "strategic checkpoint completed without an in-flight request"@,
        CheckpointCompletionError::MismatchedCheckpoint => "strategic checkpoint completion does not match request"@,
    }
}

impl CheckpointCompletionError {
    /// The human-readable text of the refusal.
    pub fn message(&self) -> (text: &'static str)
        ensures
            text@ == completion_error_text(*self),
    {
        match self {
            CheckpointCompletionError::NothingInFlight => "strategic checkpoint completed without an in-flight request",
            CheckpointCompletionError::MismatchedCheckpoint => "strategic checkpoint completion does not match request",
        }
    }
}

pub open spec fn finish_result(state: LoopView, checkpoint_id: Seq<char>, continue_thinking: bool) -> Result<
    bool,
    CheckpointCompletionError,
> {
    match state.in_flight {
        None => Err(CheckpointCompletionError::NothingInFlight),
        Some(expected) => if expected == checkpoint_id {
            Ok(continue_thinking || state.inbox.len() > 0)
        } else {
            Err(CheckpointCompletionError::MismatchedCheckpoint)
        },
    }
}

/// The mailbox after a completion: the running checkpoint is over whether or
/// not the completion matched it; only a matching one records the strategist's
/// wish to continue.
pub open spec fn loop_after_finish(state: LoopView, checkpoint_id: Seq<char>, continue_thinking: bool) -> LoopView {
    match state.in_flight {
        None => state,
        Some(expected) => if expected == checkpoint_id {
            LoopView { in_flight: None, continuation_requested: continue_thinking, ..state }
        } else {
            LoopView { in_flight: None, ..state }
        },
    }
}

proof fn lemma_fact_views_push(facts: Seq<StrategicInboxFact>, fact: StrategicInboxFact)
    ensures
        fact_views(facts.push(fact)) == fact_views(facts).push(fact@),
{
    assert(fact_views(facts.push(fact)) =~= fact_views(facts).push(fact@));
}

proof fn lemma_fact_views_remove(facts: Seq<StrategicInboxFact>, i: int)
    requires
        0 <= i < facts.len(),
    ensures
        fact_views(facts.remove(i)) == fact_views(facts).remove(i),
{
    assert(fact_views(facts.remove(i)) =~= fact_views(facts).remove(i));
}

proof fn lemma_skip_one<A>(a: Seq<A>, b: Seq<A>, i: int, c: int)
    requires
        0 <= i < a.len(),
        0 <= c <= b.len(),
        a.skip(i) == b.skip(c),
    ensures
        c < b.len(),
        a[i] == b[c],
        a.skip(i + 1) == b.skip(c + 1),
{
    assert(a.skip(i).len() == a.len() - i);
    assert(b.skip(c).len() == b.len() - c);
    assert(c < b.len());
    assert(a.skip(i)[0] == b.skip(c)[0]);
    assert(a.skip(i)[0] == a[i]);
    assert(b.skip(c)[0] == b[c]);
    assert forall|j: int| 0 <= j < a.skip(i + 1).len() implies #[trigger] a.skip(i + 1)[j] == b.skip(c + 1)[j] by {
        assert(a.skip(i)[j + 1] == b.skip(c)[j + 1]);
        assert(a.skip(i + 1)[j] == a[i + 1 + j]);
        assert(a.skip(i)[j + 1] == a[i + (j + 1)]);
        assert(b.skip(c + 1)[j] == b[c + 1 + j]);
        assert(b.skip(c)[j + 1] == b[c + (j + 1)]);
    }
    assert(a.skip(i + 1) =~= b.skip(c + 1));
}

proof fn lemma_without_world_step(facts: Seq<InboxFactView>, k: int)
    requires
        0 <= k < facts.len(),
    ensures
        without_world_facts(facts.take(k + 1)) == if is_world_fact(facts[k]) {
            without_world_facts(facts.take(k))
        } else {
            without_world_facts(facts.take(k)).push(facts[k])
        },
{
    assert(facts.take(k + 1).drop_last() =~= facts.take(k));
}

impl Default for StrategicAgenticLoop {
    fn default() -> (state: StrategicAgenticLoop)
        ensures
            state@ == empty_loop(),
    {
        let state = StrategicAgenticLoop {
            inbox: VecDeque::new(),
            checkpoint_sequence: 0,
            in_flight: None,
            continuation_requested: false,
        };
        assert(state@.inbox =~= Seq::<InboxFactView>::empty());
        state
    }
}

impl StrategicAgenticLoop {
    /// An empty mailbox with room reserved for `capacity` facts.
    pub fn with_capacity(capacity: usize) -> (state: StrategicAgenticLoop)
        ensures
            state@ == empty_loop(),
    {
        let state = StrategicAgenticLoop {
            inbox: VecDeque::with_capacity(capacity),
            checkpoint_sequence: 0,
            in_flight: None,
            continuation_requested: false,
        };
        assert(state@.inbox =~= Seq::<InboxFactView>::empty());
        state
    }

    /// Add a fact for the next stopping point. Repeated world snapshots are
    /// coalesced; dialogue and failures are retained in order.
    pub fn push(&mut self, fact: StrategicInboxFact, capacity: usize)
        ensures
            final(self)@ == loop_after_push(old(self)@, fact@, capacity),
    {
        let ghost pending = fact_views(self.inbox@);
        let mut inbox: VecDeque<StrategicInboxFact> = VecDeque::new();
        std::mem::swap(&mut inbox, &mut self.inbox);
        if text_equals(fact.kind.as_str(), "world") {
            let mut i: usize = 0;
            let ghost mut consumed: int = 0;
            while i < inbox.len()
                invariant
                    0 <= i <= consumed <= pending.len(),
                    i <= inbox.len(),
                    fact_views(inbox@).take(i as int) == without_world_facts(pending.take(consumed)),
                    fact_views(inbox@).skip(i as int) == pending.skip(consumed),
                decreases inbox.len() - i,
            {
                proof {
                    lemma_skip_one(fact_views(inbox@), pending, i as int, consumed);
                    lemma_without_world_step(pending, consumed);
                }
                let is_world = text_equals(inbox[i].kind.as_str(), "world");
                if is_world {
                    let ghost before = inbox@;
                    let _ = inbox.remove(i);
                    proof {
                        lemma_fact_views_remove(before, i as int);
                        assert(fact_views(inbox@).take(i as int) =~= fact_views(before).take(i as int));
                        assert(fact_views(inbox@).skip(i as int) =~= fact_views(before).skip(i + 1));
                    }
                } else {
                    proof {
                        assert(fact_views(inbox@).take(i + 1) =~= fact_views(inbox@).take(i as int).push(
                            fact_views(inbox@)[i as int],
                        ));
                    }
                    i = i + 1;
                }
                proof {
                    consumed = consumed + 1;
                }
            }
            proof {
                assert(pending.skip(consumed).len() == 0);
                assert(pending.take(consumed) =~= pending);
                assert(fact_views(inbox@).take(i as int) =~= fact_views(inbox@));
            }
        }
        let ghost kept = fact_views(inbox@);
        proof {
            lemma_fact_views_push(inbox@, fact);
        }
        inbox.push_back(fact);
        let limit: usize = if capacity == 0 {
            1
        } else {
            capacity
        };
        let ghost appended = fact_views(inbox@);
        while inbox.len() > limit
            invariant
                limit == effective_capacity(capacity),
                appended.len() >= inbox.len(),
                inbox.len() == appended.len() || inbox.len() >= limit,
                fact_views(inbox@) == appended.skip(appended.len() - inbox.len()),
            decreases inbox.len(),
        {
            let ghost before = inbox@;
            let _ = inbox.pop_front();
            proof {
                assert(before.subrange(1, before.len() as int) =~= before.remove(0));
                lemma_fact_views_remove(before, 0);
                assert(fact_views(inbox@) =~= appended.skip(appended.len() - inbox.len()));
            }
        }
        proof {
            if inbox.len() == appended.len() {
                assert(appended.skip(0) =~= appended);
            }
            assert(appended == kept.push(fact@));
            assert(kept == (if is_world_fact(fact@) {
                without_world_facts(pending)
            } else {
                pending
            }));
            assert(fact_views(inbox@) == newest(appended, effective_capacity(capacity)));
        }
        self.inbox = inbox;
    }

    /// Begin a checkpoint if none is running: hand out its identifier and every
    /// queued fact, oldest first, and leave the inbox empty.
    pub fn begin(&mut self) -> (started: Option<(String, Vec<StrategicInboxFact>)>)
        ensures
            final(self)@ == loop_after_begin(old(self)@),
            checkpoint_due(old(self)@) <==> started.is_some(),
            match started {
                Some((id, facts)) => id@ == checkpoint_id_text(next_sequence(old(self)@.checkpoint_sequence))
                    && fact_views(facts@) == old(self)@.inbox,
                None => true,
            },
    {
        if self.in_flight.is_some() || (self.inbox.len() == 0 && !self.continuation_requested) {
            return None;
        }
        self.checkpoint_sequence = if self.checkpoint_sequence < u64::MAX {
            self.checkpoint_sequence + 1
        } else {
            self.checkpoint_sequence
        };
        let mut id = String::from_str("strategic-checkpoint-");
        append_decimal(&mut id, self.checkpoint_sequence);
        self.in_flight = Some(id.clone());
        self.continuation_requested = false;
        let mut queued: VecDeque<StrategicInboxFact> = VecDeque::new();
        std::mem::swap(&mut queued, &mut self.inbox);
        assert(fact_views(self.inbox@) =~= Seq::<InboxFactView>::empty());
        let ghost all = queued@;
        let mut facts: Vec<StrategicInboxFact> = Vec::new();
        while queued.len() > 0
            invariant
                facts@ + queued@ == all,
            decreases queued@.len(),
        {
            let ghost before = queued@;
            match queued.pop_front() {
                Some(fact) => {
                    facts.push(fact);
                    assert(facts@ + queued@ =~= all);
                },
                None => {},
            }
        }
        assert(facts@ =~= all);
        Some((id, facts))
    }

    /// Accept a validated result and report whether another checkpoint is due.
    pub fn finish(&mut self, output: &StrategicCheckpointOutput) -> (result: Result<
        bool,
        CheckpointCompletionError,
    >)
        ensures
            result == finish_result(old(self)@, output.checkpoint_id@, output.continue_thinking),
            final(self)@ == loop_after_finish(old(self)@, output.checkpoint_id@, output.continue_thinking),
    {
        let expected = match self.in_flight.take() {
            Some(expected) => expected,
            None => {
                return Err(CheckpointCompletionError::NothingInFlight);
            },
        };
        if !(expected == output.checkpoint_id) {
            return Err(CheckpointCompletionError::MismatchedCheckpoint);
        }
        self.continuation_requested = output.continue_thinking;
        Ok(self.continuation_requested || self.inbox.len() > 0)
    }

    pub fn continuation_requested(&self) -> (requested: bool)
        ensures
            requested == self@.continuation_requested,
    {
        self.continuation_requested
    }

    pub fn in_flight(&self) -> (running: bool)
        ensures
            running == self@.in_flight.is_some(),
    {
        self.in_flight.is_some()
    }
}

// ---------------------------------------------------------------------------
// Checking an answer
// ---------------------------------------------------------------------------

/// Why a checkpoint answer was refused.
#[derive(Debug, Clone, Copy, PartialEq, Eq, Structural)]
pub enum CheckpointOutputError {
    /// The answer speaks another protocol version.
    ProtocolMismatch { found: u32 },
    /// The answer names another checkpoint than the one asked.
    CheckpointIdMismatch,
}

pub open spec fn checkpoint_output_check(
    protocol_version: u32,
    checkpoint_id: Seq<char>,
    requested_checkpoint_id: Seq<char>,
) -> Result<(), CheckpointOutputError> {
    if protocol_version != STRATEGIC_CHECKPOINT_PROTOCOL_VERSION {
        Err(CheckpointOutputError::ProtocolMismatch { found: protocol_version })
    } else if checkpoint_id != requested_checkpoint_id {
        Err(CheckpointOutputError::CheckpointIdMismatch)
    } else {
        Ok(())
    }
}

pub open spec fn checkpoint_output_error_text(error: CheckpointOutputError) -> Seq<char> {
    match error {
        CheckpointOutputError::ProtocolMismatch { found } => "strategist checkpoint protocol "@
            + decimal_text(found as nat) + " does not match "@ + decimal_text(
            STRATEGIC_CHECKPOINT_PROTOCOL_VERSION as nat,
        ),
        CheckpointOutputError::CheckpointIdMismatch => "strategist checkpoint id does not match request"@,
    }
}

impl CheckpointOutputError {
    pub fn message(&self) -> (text: String)
        ensures
            text@ == checkpoint_output_error_text(*self),
    {
        match self {
            CheckpointOutputError::ProtocolMismatch { found } => {
                let mut text = String::from_str("strategist checkpoint protocol ");
                append_decimal(&mut text, *found as u64);
                text.append(" does not match ");
                append_decimal(&mut text, STRATEGIC_CHECKPOINT_PROTOCOL_VERSION as u64);
                text
            },
            CheckpointOutputError::CheckpointIdMismatch => String::from_str(
                "strategist checkpoint id does not match request",
            ),
        }
    }
}

/// Accept an answer only in the current protocol and for the checkpoint asked.
pub fn validate_checkpoint_output(output: &StrategicCheckpointOutput, requested_checkpoint_id: &str) -> (result:
    Result<(), CheckpointOutputError>)
    ensures
        result == checkpoint_output_check(
            output.protocol_version,
            output.checkpoint_id@,
            requested_checkpoint_id@,
        ),
{
    if output.protocol_version != STRATEGIC_CHECKPOINT_PROTOCOL_VERSION {
        return Err(CheckpointOutputError::ProtocolMismatch { found: output.protocol_version });
    }
    if !text_equals(output.checkpoint_id.as_str(), requested_checkpoint_id) {
        return Err(CheckpointOutputError::CheckpointIdMismatch);
    }
    Ok(())
}

/// The six classes in which checkpoint events are counted.
#[derive(Debug, Clone, Copy, PartialEq, Eq, Structural)]
pub enum StrategicEventClass {
    Thought,
    Navigation,
    Speech,
    Interaction,
    Plan,
    GoalCompletion,
}

/// The class of an event; a queued duel counts as an interaction.
pub open spec fn event_class(event: StrategicEvent) -> StrategicEventClass {
    match event {
        StrategicEvent::ThoughtCheckpoint { .. } => StrategicEventClass::Thought,
        StrategicEvent::NavigationGoal { .. } => StrategicEventClass::Navigation,
        StrategicEvent::Speech { .. } => StrategicEventClass::Speech,
        StrategicEvent::Interact { .. } => StrategicEventClass::Interaction,
        StrategicEvent::QueueDuel => StrategicEventClass::Interaction,
        StrategicEvent::PlanUpdate { .. } => StrategicEventClass::Plan,
        StrategicEvent::GoalComplete { .. } => StrategicEventClass::GoalCompletion,
    }
}

/// How many of `events` are of class `class`.
pub open spec fn class_count(events: Seq<StrategicEvent>, class: StrategicEventClass) -> nat
    decreases events.len(),
{
    if events.len() == 0 {
        0
    } else {
        class_count(events.drop_last(), class) + if event_class(events.last()) == class {
            1nat
        } else {
            0nat
        }
    }
}

/// Per-class counts of one answer's events.
#[derive(Debug, Clone, Copy, PartialEq, Eq, Structural)]
pub struct StrategicEventTally {
    pub event_count: u64,
    pub thought_count: u64,
    pub navigation_count: u64,
    pub speech_count: u64,
    pub interaction_count: u64,
    pub plan_count: u64,
    pub goal_completion_count: u64,
    /// Navigation, speech and interaction events together.
    pub actionable_event_count: u64,
}

proof fn lemma_class_counts_sum(events: Seq<StrategicEvent>)
    ensures
        class_count(events, StrategicEventClass::Thought) + class_count(events, StrategicEventClass::Navigation)
            + class_count(events, StrategicEventClass::Speech) + class_count(
            events,
            StrategicEventClass::Interaction,
        ) + class_count(events, StrategicEventClass::Plan) + class_count(
            events,
            StrategicEventClass::GoalCompletion,
        ) == events.len(),
    decreases events.len(),
{
    if events.len() > 0 {
        lemma_class_counts_sum(events.drop_last());
    }
}

/// Count an answer's events by class.
pub fn tally_events(events: &Vec<StrategicEvent>) -> (tally: StrategicEventTally)
    ensures
        tally.event_count == events@.len(),
        tally.thought_count == class_count(events@, StrategicEventClass::Thought),
        tally.navigation_count == class_count(events@, StrategicEventClass::Navigation),
        tally.speech_count == class_count(events@, StrategicEventClass::Speech),
        tally.interaction_count == class_count(events@, StrategicEventClass::Interaction),
        tally.plan_count == class_count(events@, StrategicEventClass::Plan),
        tally.goal_completion_count == class_count(events@, StrategicEventClass::GoalCompletion),
        tally.actionable_event_count == tally.navigation_count + tally.speech_count
            + tally.interaction_count,
{
    let mut thought: u64 = 0;
    let mut navigation: u64 = 0;
    let mut speech: u64 = 0;
    let mut interaction: u64 = 0;
    let mut plan: u64 = 0;
    let mut completion: u64 = 0;
    let mut i: usize = 0;
    while i < events.len()
        invariant
            i <= events@.len(),
            thought == class_count(events@.take(i as int), StrategicEventClass::Thought),
            navigation == class_count(events@.take(i as int), StrategicEventClass::Navigation),
            speech == class_count(events@.take(i as int), StrategicEventClass::Speech),
            interaction == class_count(events@.take(i as int), StrategicEventClass::Interaction),
            plan == class_count(events@.take(i as int), StrategicEventClass::Plan),
            completion == class_count(events@.take(i as int), StrategicEventClass::GoalCompletion),
            thought + navigation + speech + interaction + plan + completion == i,
        decreases events@.len() - i,
    {
        proof {
            assert(events@.take(i + 1).drop_last() =~= events@.take(i as int));
            lemma_class_counts_sum(events@.take(i as int));
        }
        match &events[i] {
            StrategicEvent::ThoughtCheckpoint { .. } => thought = thought + 1,
            StrategicEvent::NavigationGoal { .. } => navigation = navigation + 1,
            StrategicEvent::Speech { .. } => speech = speech + 1,
            StrategicEvent::Interact { .. } => interaction = interaction + 1,
            StrategicEvent::QueueDuel => interaction = interaction + 1,
            StrategicEvent::PlanUpdate { .. } => plan = plan + 1,
            StrategicEvent::GoalComplete { .. } => completion = completion + 1,
        }
        i = i + 1;
    }
    proof {
        assert(events@.take(i as int) =~= events@);
    }
    StrategicEventTally {
        event_count: events.len() as u64,
        thought_count: thought,
        navigation_count: navigation,
        speech_count: speech,
        interaction_count: interaction,
        plan_count: plan,
        goal_completion_count: completion,
        actionable_event_count: navigation + speech + interaction,
    }
}

// ---------------------------------------------------------------------------
// Laws of the mailbox
// ---------------------------------------------------------------------------

proof fn lemma_no_world_fact_left(facts: Seq<InboxFactView>)
    ensures
        forall|i: int| 0 <= i < without_world_facts(facts).len() ==> !is_world_fact(
            #[trigger] without_world_facts(facts)[i],
        ),
        without_world_facts(facts).len() <= facts.len(),
    decreases facts.len(),
{
    if facts.len() > 0 {
        lemma_no_world_fact_left(facts.drop_last());
    }
}

/// At most one checkpoint runs at a time: once one has begun, no queued fact
/// makes another due until its completion is recorded.
pub proof fn law_one_checkpoint_at_a_time(state: LoopView, fact: InboxFactView, capacity: usize)
    requires
        checkpoint_due(state),
    ensures
        loop_after_begin(state).in_flight.is_some(),
        !checkpoint_due(loop_after_begin(state)),
        !checkpoint_due(loop_after_push(loop_after_begin(state), fact, capacity)),
{
}

/// Whether a checkpoint is running: never in a fresh loop; always right after
/// a checkpoint begins, and then no other begins; never after any completion,
/// matching or not; and queuing a fact never changes it.
pub proof fn law_in_flight_tracks_the_running_checkpoint(
    state: LoopView,
    fact: InboxFactView,
    capacity: usize,
    checkpoint_id: Seq<char>,
    continue_thinking: bool,
)
    ensures
        empty_loop().in_flight is None,
        checkpoint_due(state) ==> loop_after_begin(state).in_flight is Some,
        state.in_flight is Some ==> loop_after_begin(state) == state,
        loop_after_begin(state).in_flight is Some ==> loop_after_begin(loop_after_begin(state)) == loop_after_begin(
            state,
        ),
        loop_after_finish(state, checkpoint_id, continue_thinking).in_flight is None,
        loop_after_push(state, fact, capacity).in_flight == state.in_flight,
{
}

/// Queuing a world snapshot leaves exactly one in the inbox: the newest, at the end.
pub proof fn law_world_snapshots_coalesce(inbox: Seq<InboxFactView>, fact: InboxFactView, capacity: usize)
    requires
        is_world_fact(fact),
    ensures
        inbox_after_push(inbox, fact, capacity).len() >= 1,
        inbox_after_push(inbox, fact, capacity).last() == fact,
        forall|i: int|
            0 <= i < inbox_after_push(inbox, fact, capacity).len() - 1 ==> !is_world_fact(
                #[trigger] inbox_after_push(inbox, fact, capacity)[i],
            ),
{
    lemma_no_world_fact_left(inbox);
    let appended = without_world_facts(inbox).push(fact);
    let cap = effective_capacity(capacity);
    let result = inbox_after_push(inbox, fact, capacity);
    if appended.len() > cap {
        assert forall|i: int| 0 <= i < result.len() - 1 implies !is_world_fact(#[trigger] result[i]) by {
            assert(result[i] == appended[i + (appended.len() - cap)]);
        }
        assert(result.last() == appended.last());
    }
}

/// Dialogue, failures and other facts that are not world snapshots are kept in
/// arrival order, and while there is room none is dropped.
pub proof fn law_other_facts_keep_their_order(inbox: Seq<InboxFactView>, fact: InboxFactView, capacity: usize)
    requires
        !is_world_fact(fact),
        inbox.len() < effective_capacity(capacity),
    ensures
        inbox_after_push(inbox, fact, capacity) == inbox.push(fact),
{
}

/// The inbox never holds more than its capacity (and at least the newest fact).
pub proof fn law_inbox_stays_within_capacity(inbox: Seq<InboxFactView>, fact: InboxFactView, capacity: usize)
    ensures
        1 <= inbox_after_push(inbox, fact, capacity).len() <= effective_capacity(capacity),
        inbox_after_push(inbox, fact, capacity).last() == fact,
{
    let kept = if is_world_fact(fact) {
        without_world_facts(inbox)
    } else {
        inbox
    };
    let appended = kept.push(fact);
    if appended.len() > effective_capacity(capacity) {
        let result = inbox_after_push(inbox, fact, capacity);
        assert(result.last() == appended.last());
    }
}

/// Completing the running checkpoint with its own identifier succeeds, ends it,
/// and asks for another exactly when the strategist wants to continue or new
/// facts arrived meanwhile.
pub proof fn law_matching_completion_succeeds(state: LoopView, continue_thinking: bool)
    requires
        state.in_flight.is_some(),
    ensures
        finish_result(state, state.in_flight.unwrap(), continue_thinking) == Ok::<
            bool,
            CheckpointCompletionError,
        >(continue_thinking || state.inbox.len() > 0),
        loop_after_finish(state, state.in_flight.unwrap(), continue_thinking).in_flight.is_none(),
        loop_after_finish(state, state.in_flight.unwrap(), continue_thinking).inbox == state.inbox,
        loop_after_finish(state, state.in_flight.unwrap(), continue_thinking).continuation_requested
            == continue_thinking,
{
}

/// A checkpoint that the strategist asked to continue is due again at once,
/// even with nothing new in the inbox.
pub proof fn law_continuation_makes_a_checkpoint_due(state: LoopView)
    requires
        state.in_flight.is_some(),
    ensures
        checkpoint_due(loop_after_finish(state, state.in_flight.unwrap(), true)),
{
}

/// Checkpoint numbers increase by one with each checkpoint begun, and different
/// numbers give different identifiers, so no identifier is handed out twice
/// before the counter is exhausted.
pub proof fn law_checkpoint_ids_are_fresh(state: LoopView, first: u64, second: u64)
    requires
        first != second,
    ensures
        checkpoint_due(state) && state.checkpoint_sequence < u64::MAX ==> loop_after_begin(
            state,
        ).checkpoint_sequence == state.checkpoint_sequence + 1,
        checkpoint_id_text(first) != checkpoint_id_text(second),
{
    let prefix = "strategic-checkpoint-"@;
    if checkpoint_id_text(first) == checkpoint_id_text(second) {
        assert(checkpoint_id_text(first).skip(prefix.len() as int) =~= decimal_text(first as nat));
        assert(checkpoint_id_text(second).skip(prefix.len() as int) =~= decimal_text(second as nat));
        lemma_decimal_text_injective(first as nat, second as nat);
    }
}

// ---------------------------------------------------------------------------
// From a checkpoint answer to a strategic proposal
// ---------------------------------------------------------------------------

/// The name given to a destination that a checkpoint names only by its tile.
pub open spec fn checkpoint_destination_name() -> Seq<char> {
    "strategic checkpoint destination"@
}

/// The navigation goal that one navigation event asks for.
pub open spec fn event_navigation_goal(
    scene: Seq<char>,
    destination: Option<StrategicTile>,
    reason: Seq<char>,
) -> NavigationGoalView {
    NavigationGoalView {
        scene,
        destination: match destination {
            Some(tile) => Some(
                NamedDestinationView {
                    name: checkpoint_destination_name(),
                    tile: Some(TilePosition { x: tile.tile_x, y: tile.tile_y }),
                },
            ),
            None => None,
        },
        reason,
    }
}

/// The navigation goals of `events`, in order.
pub open spec fn navigation_goals(events: Seq<StrategicEvent>) -> Seq<NavigationGoalView>
    decreases events.len(),
{
    if events.len() == 0 {
        Seq::empty()
    } else {
        let rest = navigation_goals(events.drop_last());
        match events.last() {
            StrategicEvent::NavigationGoal { scene, destination, reason } => rest.push(
                event_navigation_goal(scene@, destination, reason@),
            ),
            _ => rest,
        }
    }
}

/// The message and requested channel of the last speech event, if any.
pub open spec fn last_speech(events: Seq<StrategicEvent>) -> Option<(Seq<char>, Option<Seq<char>>)>
    decreases events.len(),
{
    if events.len() == 0 {
        None
    } else {
        match events.last() {
            StrategicEvent::Speech { message, channel, .. } => Some((message@, optional_text(channel))),
            _ => last_speech(events.drop_last()),
        }
    }
}

/// The target of the last interaction event, if any.
pub open spec fn last_interaction_target(events: Seq<StrategicEvent>) -> Option<Seq<char>>
    decreases events.len(),
{
    if events.len() == 0 {
        None
    } else {
        match events.last() {
            StrategicEvent::Interact { target_id } => Some(target_id@),
            _ => last_interaction_target(events.drop_last()),
        }
    }
}

/// How many duels `events` queue.
pub open spec fn queued_duels(events: Seq<StrategicEvent>) -> nat
    decreases events.len(),
{
    if events.len() == 0 {
        0
    } else {
        queued_duels(events.drop_last()) + if events.last() is QueueDuel {
            1nat
        } else {
            0nat
        }
    }
}

/// Some event of `events` claims that the goal is complete.
pub open spec fn claims_goal_completion(events: Seq<StrategicEvent>) -> bool {
    exists|i: int| 0 <= i < events.len() && #[trigger] events[i] is GoalComplete
}

/// The text of the last thought, plan update or completion claim, if any.
pub open spec fn last_progress_summary(events: Seq<StrategicEvent>) -> Option<Seq<char>>
    decreases events.len(),
{
    if events.len() == 0 {
        None
    } else {
        match events.last() {
            StrategicEvent::ThoughtCheckpoint { summary } => Some(summary@),
            StrategicEvent::PlanUpdate { summary } => Some(summary@),
            StrategicEvent::GoalComplete { evidence } => Some(evidence@),
            _ => last_progress_summary(events.drop_last()),
        }
    }
}

/// Most destinations a checkpoint may queue.
pub open spec fn max_queued_destinations() -> nat {
    5
}

/// `p` is the intent restated with the checkpoint's events applied: the first
/// navigation goal becomes the goal when the intent has none, the first five
/// are queued, the last speech, interaction target and progress text win,
/// every queued duel becomes an action, and any completion event claims the goal.
pub open spec fn proposal_from_events(
    p: StrategicProposal,
    intent: StrategicIntent,
    continue_thinking: bool,
    events: Seq<StrategicEvent>,
) -> bool {
    let goals = navigation_goals(events);
    &&& p.continue_thinking == continue_thinking
    &&& p.goal.aim@ == intent.objective@
    &&& p.goal.done.is_none()
    &&& p.goal.why.is_none()
    &&& p.plan@.len() == 0
    &&& p.reevaluate_when@.len() == 0
    &&& p.blocked_reason.is_none()
    &&& p.objective@ == intent.objective@
    &&& text_views(p.subgoals@) == text_views(intent.subgoals@)
    &&& priority_views(p.priorities@) == priority_views(intent.priorities@)
    &&& text_views(p.constraints@) == text_views(intent.constraints@)
    &&& p.risk_tolerance_permille == intent.risk_tolerance_permille
    &&& text_views(p.preferred_targets@) == text_views(intent.preferred_targets@)
    &&& text_views(p.avoid@) == text_views(intent.avoid@)
    &&& p.expires_at_ms == intent.expires_at_ms
    &&& p.goal_completion_claimed == claims_goal_completion(events)
    &&& p.progress_summary@ == match last_progress_summary(events) {
        Some(text) => text,
        None => Seq::empty(),
    }
    &&& optional_goal_view(p.navigation_goal) == if intent.navigation_goal.is_some() {
        optional_goal_view(intent.navigation_goal)
    } else if goals.len() > 0 {
        Some(goals[0])
    } else {
        None
    }
    &&& goal_views(p.navigation_queue@) == goals.take(
        if goals.len() < max_queued_destinations() {
            goals.len() as int
        } else {
            max_queued_destinations() as int
        },
    )
    &&& p.actions@.len() == queued_duels(events)
    &&& forall|i: int| 0 <= i < p.actions@.len() ==> #[trigger] p.actions@[i] is QueueDuel
    &&& optional_text(p.speech) == match last_speech(events) {
        Some(speech) => Some(speech.0),
        None => None,
    }
    &&& optional_text(p.speech_channel) == match last_speech(events) {
        Some(speech) => speech.1,
        None => None,
    }
    &&& optional_text(p.interaction_target_id) == last_interaction_target(events)
}

/// The semantic bound that the proposal built from `intent` and `events` breaks, if any.
pub open spec fn checkpoint_proposal_error(intent: StrategicIntent, events: Seq<StrategicEvent>) -> Option<
    StrategicProposalSemanticError,
> {
    if is_blank(intent.objective@) {
        Some(StrategicProposalSemanticError::BlankObjective)
    } else if intent.risk_tolerance_permille > 1000 {
        Some(StrategicProposalSemanticError::InvalidRiskTolerance)
    } else if last_speech(events) matches Some(speech) && speech.0.len() > 140 {
        Some(StrategicProposalSemanticError::SpeechTooLong)
    } else if last_interaction_target(events) matches Some(target) && is_blank(target) {
        Some(StrategicProposalSemanticError::BlankInteractionTarget)
    } else {
        None
    }
}

/// Turn a validated checkpoint answer into a strategic proposal under the
/// current intent, and hold it to the proposal's semantic bounds.
pub fn proposal_from_checkpoint(intent: &StrategicIntent, output: &StrategicCheckpointOutput) -> (result:
    Result<StrategicProposal, StrategicProposalSemanticError>)
    ensures
        match result {
            Ok(p) => proposal_from_events(p, *intent, output.continue_thinking, output.events@)
                && checkpoint_proposal_error(*intent, output.events@).is_none(),
            Err(e) => checkpoint_proposal_error(*intent, output.events@) == Some(e),
        },
{
    let mut proposal = StrategicProposal::from_intent(intent);
    proposal.continue_thinking = output.continue_thinking;
    let events = &output.events;
    proof {
        assert(events@.take(0) =~= Seq::<StrategicEvent>::empty());
        assert(goal_views(proposal.navigation_queue@) =~= navigation_goals(events@.take(0)).take(0));
        assert(proposal.progress_summary@ =~= Seq::<char>::empty());
        assert(navigation_goals(events@.take(0)).len() == 0);
        assert(!claims_goal_completion(events@.take(0)));
        assert(last_speech(events@.take(0)).is_none());
        assert(last_interaction_target(events@.take(0)).is_none());
        assert(last_progress_summary(events@.take(0)).is_none());
        assert(queued_duels(events@.take(0)) == 0);
    }
    let mut i: usize = 0;
    while i < events.len()
        invariant
            i <= events@.len(),
            events == &output.events,
            proposal_from_events(proposal, *intent, output.continue_thinking, events@.take(i as int)),
        decreases events@.len() - i,
    {
        let ghost before = events@.take(i as int);
        let ghost after = events@.take(i + 1);
        proof {
            assert(after.drop_last() =~= before);
            assert(after.last() == events@[i as int]);
        }
        match &events[i] {
            StrategicEvent::NavigationGoal { scene, destination, reason } => {
                let goal = NavigationGoal {
                    scene: scene.clone(),
                    destination: match destination {
                        Some(tile) => Some(
                            NamedDestination {
                                name: String::from_str("strategic checkpoint destination"),
                                tile: Some(TilePosition { x: tile.tile_x, y: tile.tile_y }),
                            },
                        ),
                        None => None,
                    },
                    reason: reason.clone(),
                };
                assert(goal@ == event_navigation_goal(scene@, *destination, reason@));
                if proposal.navigation_goal.is_none() {
                    proposal.navigation_goal = Some(goal.duplicate());
                }
                if proposal.navigation_queue.len() < 5 {
                    let ghost queued = proposal.navigation_queue@;
                    proposal.navigation_queue.push(goal);
                    proof {
                        assert(goal_views(proposal.navigation_queue@) =~= goal_views(queued).push(goal@));
                    }
                }
                proof {
                    let g = navigation_goals(after);
                    assert(g =~= navigation_goals(before).push(goal@));
                    let n = if g.len() < 5 {
                        g.len() as int
                    } else {
                        5
                    };
                    assert(goal_views(proposal.navigation_queue@) =~= g.take(n));
                    assert(forall|j: int| 0 <= j < after.len() && #[trigger] after[j] is GoalComplete
                        ==> 0 <= j < before.len() && before[j] is GoalComplete);
                }
            },
            StrategicEvent::Speech { message, channel, .. } => {
                proposal.speech = Some(message.clone());
                proposal.speech_channel = channel.clone();
                proof {
                    assert(forall|j: int| 0 <= j < after.len() && #[trigger] after[j] is GoalComplete
                        ==> 0 <= j < before.len() && before[j] is GoalComplete);
                }
            },
            StrategicEvent::Interact { target_id } => {
                proposal.interaction_target_id = Some(target_id.clone());
                proof {
                    assert(forall|j: int| 0 <= j < after.len() && #[trigger] after[j] is GoalComplete
                        ==> 0 <= j < before.len() && before[j] is GoalComplete);
                }
            },
            StrategicEvent::QueueDuel => {
                proposal.actions.push(StrategicAction::QueueDuel);
                proof {
                    assert(forall|j: int| 0 <= j < after.len() && #[trigger] after[j] is GoalComplete
                        ==> 0 <= j < before.len() && before[j] is GoalComplete);
                }
            },
            StrategicEvent::GoalComplete { evidence } => {
                proposal.goal_completion_claimed = true;
                proposal.progress_summary = evidence.clone();
                proof {
                    assert(after[i as int] is GoalComplete);
                }
            },
            StrategicEvent::PlanUpdate { summary } => {
                proposal.progress_summary = summary.clone();
                proof {
                    assert(forall|j: int| 0 <= j < after.len() && #[trigger] after[j] is GoalComplete
                        ==> 0 <= j < before.len() && before[j] is GoalComplete);
                }
            },
            StrategicEvent::ThoughtCheckpoint { summary } => {
                proposal.progress_summary = summary.clone();
                proof {
                    assert(forall|j: int| 0 <= j < after.len() && #[trigger] after[j] is GoalComplete
                        ==> 0 <= j < before.len() && before[j] is GoalComplete);
                }
            },
        }
        i = i + 1;
    }
    proof {
        assert(events@.take(i as int) =~= events@);
    }
    let checked = proposal.validate_semantics();
    proof {
        assert(!crate::brain::strategic_output::has_blank_action_target(proposal.actions@));
    }
    match checked {
        Ok(()) => Ok(proposal),
        Err(e) => Err(e),
    }
}

} // verus!
