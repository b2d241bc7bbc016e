//! Model-authored strategic content, and the semantic bounds it must meet
//! before the runtime turns it into an intent.

use vstd::prelude::*;

use crate::brain::strategic_intent::{
    copy_optional_goal, copy_priorities, goal_views, optional_goal_view, priority_views, same_optional_goal,
    same_priorities, NavigationGoal, Priority, StrategicIntent,
};
use crate::text::{
    blank, copy_optional_text, is_blank, optional_text, same_optional_text, same_texts, text_equals, text_views,
};

verus! {

/// The durable end condition of the strategist's work.
#[derive(Debug, Clone, PartialEq, Eq)]
pub struct Goal {
    pub aim: String,
    pub done: Option<String>,
    pub why: Option<String>,
}

/// Model-authored content for one durable plan step.
///
/// Status, attempt counts, identifiers and evidence are deliberately absent:
/// they are execution facts owned by the runtime.
#[derive(Debug, Clone, PartialEq, Eq)]
pub struct ProposedPlanStep {
    pub what: String,
    pub done_when: Option<String>,
    pub note: Option<String>,
    pub reevaluate_when: Vec<String>,
}

/// An immediate strategic operation.
#[derive(Debug, Clone, PartialEq, Eq)]
pub enum StrategicAction {
    Interact { target_id: String },
    QueueDuel,
}

#[derive(Debug, Clone, Copy, PartialEq, Eq, Structural)]
pub enum StrategicProposalSemanticError {
    BlankObjective,
    TooManyPlanSteps,
    BlankPlanStep,
    TooManyReevaluationConditions,
    InvalidRiskTolerance,
    SpeechTooLong,
    BlankInteractionTarget,
    BlankActionTarget,
}

/// The stable human-readable text of a semantic error.
pub open spec fn semantic_error_text(error: StrategicProposalSemanticError) -> Seq<char> {
    match error {
        StrategicProposalSemanticError::BlankObjective => "goal aim and objective must not be blank"@,
        StrategicProposalSemanticError::TooManyPlanSteps => "plan may contain at most 12 steps"@,
        StrategicProposalSemanticError::BlankPlanStep => "plan step descriptions must not be blank"@,
        StrategicProposalSemanticError::TooManyReevaluationConditions => "reevaluate_when may contain at most 12 conditions"@,
        StrategicProposalSemanticError::InvalidRiskTolerance => "risk_tolerance must be finite and between zero and one"@,
        StrategicProposalSemanticError::SpeechTooLong => "speech may contain at most 140 characters"@,
        StrategicProposalSemanticError::BlankInteractionTarget => "interaction_target_id must not be blank"@,
        StrategicProposalSemanticError::BlankActionTarget => "strategic action target must not be blank"@,
    }
}

impl StrategicProposalSemanticError {
    /// The stable human-readable text of the error.
    pub fn message(&self) -> (text: &'static str)
        ensures
            text@ == semantic_error_text(*self),
    {
        match self {
            StrategicProposalSemanticError::BlankObjective => "goal aim and objective must not be blank",
            StrategicProposalSemanticError::TooManyPlanSteps => "plan may contain at most 12 steps",
            StrategicProposalSemanticError::BlankPlanStep => "plan step descriptions must not be blank",
            StrategicProposalSemanticError::TooManyReevaluationConditions => "reevaluate_when may contain at most 12 conditions",
            StrategicProposalSemanticError::InvalidRiskTolerance => "risk_tolerance must be finite and between zero and one",
            StrategicProposalSemanticError::SpeechTooLong => "speech may contain at most 140 characters",
            StrategicProposalSemanticError::BlankInteractionTarget => "interaction_target_id must not be blank",
            StrategicProposalSemanticError::BlankActionTarget => "strategic action target must not be blank",
        }
    }
}

/// Model-authored strategic content.
///
/// Revisions are intentionally absent: the runtime converts an accepted
/// proposal into a [`StrategicIntent`] and assigns the next revision.
/// `risk_tolerance_permille` is the risk tolerance in thousandths.
#[derive(Debug, Clone)]
pub struct StrategicProposal {
    /// Hint to continue the self-directed checkpoint loop; the runtime decides.
    pub continue_thinking: bool,
    pub goal: Goal,
    pub plan: Vec<ProposedPlanStep>,
    pub progress_summary: String,
    pub reevaluate_when: Vec<String>,
    pub blocked_reason: Option<String>,
    /// True only when supplied evidence satisfies `goal.done`.
    pub goal_completion_claimed: bool,
    pub objective: String,
    pub subgoals: Vec<String>,
    pub priorities: Vec<Priority>,
    pub constraints: Vec<String>,
    pub risk_tolerance_permille: u32,
    pub preferred_targets: Vec<String>,
    pub avoid: Vec<String>,
    pub navigation_goal: Option<NavigationGoal>,
    /// Ordered destinations the body may pursue without another model call.
    pub navigation_queue: Vec<NavigationGoal>,
    pub actions: Vec<StrategicAction>,
    pub speech: Option<String>,
    pub speech_channel: Option<String>,
    pub interaction_target_id: Option<String>,
    pub expires_at_ms: Option<i64>,
}

/// Most plan steps, and most re-evaluation conditions, a proposal may carry.
pub open spec fn max_plan_entries() -> nat {
    12
}

/// Most characters of speech a proposal may carry.
pub open spec fn max_speech_chars() -> nat {
    140
}

/// The largest risk tolerance, one whole, in thousandths.
pub open spec fn max_risk_permille() -> u32 {
    1000
}

pub open spec fn has_blank_plan_step(plan: Seq<ProposedPlanStep>) -> bool {
    exists|i: int| 0 <= i < plan.len() && is_blank(#[trigger] plan[i].what@)
}

pub open spec fn has_blank_action_target(actions: Seq<StrategicAction>) -> bool {
    exists|i: int|
        0 <= i < actions.len() && (#[trigger] actions[i] matches StrategicAction::Interact { target_id }
            && is_blank(target_id@))
}

/// The first semantic bound that `p` breaks, in the order the bounds are checked.
pub open spec fn proposal_semantic_check(p: StrategicProposal) -> Result<(), StrategicProposalSemanticError> {
    if is_blank(p.goal.aim@) || is_blank(p.objective@) {
        Err(StrategicProposalSemanticError::BlankObjective)
    } else if p.plan@.len() > max_plan_entries() {
        Err(StrategicProposalSemanticError::TooManyPlanSteps)
    } else if has_blank_plan_step(p.plan@) {
        Err(StrategicProposalSemanticError::BlankPlanStep)
    } else if p.reevaluate_when@.len() > max_plan_entries() {
        Err(StrategicProposalSemanticError::TooManyReevaluationConditions)
    } else if p.risk_tolerance_permille > max_risk_permille() {
        Err(StrategicProposalSemanticError::InvalidRiskTolerance)
    } else if p.speech matches Some(speech) && speech@.len() > max_speech_chars() {
        Err(StrategicProposalSemanticError::SpeechTooLong)
    } else if p.interaction_target_id matches Some(target) && is_blank(target@) {
        Err(StrategicProposalSemanticError::BlankInteractionTarget)
    } else if has_blank_action_target(p.actions@) {
        Err(StrategicProposalSemanticError::BlankActionTarget)
    } else {
        Ok(())
    }
}

/// `proposal` restates `intent` and nothing more: same objective (also as the
/// goal's aim), constraints, targets, navigation goal and expiry; an empty
/// plan, no speech, no actions and no claims.
pub open spec fn restates_intent(proposal: StrategicProposal, intent: StrategicIntent) -> bool {
    &&& !proposal.continue_thinking
    &&& proposal.goal.aim@ == intent.objective@
    &&& proposal.goal.done.is_none()
    &&& proposal.goal.why.is_none()
    &&& proposal.plan@.len() == 0
    &&& proposal.progress_summary@.len() == 0
    &&& proposal.reevaluate_when@.len() == 0
    &&& proposal.blocked_reason.is_none()
    &&& !proposal.goal_completion_claimed
    &&& proposal.objective@ == intent.objective@
    &&& text_views(proposal.subgoals@) == text_views(intent.subgoals@)
    &&& priority_views(proposal.priorities@) == priority_views(intent.priorities@)
    &&& text_views(proposal.constraints@) == text_views(intent.constraints@)
    &&& proposal.risk_tolerance_permille == intent.risk_tolerance_permille
    &&& text_views(proposal.preferred_targets@) == text_views(intent.preferred_targets@)
    &&& text_views(proposal.avoid@) == text_views(intent.avoid@)
    &&& optional_goal_view(proposal.navigation_goal) == optional_goal_view(intent.navigation_goal)
    &&& proposal.navigation_queue@.len() == 0
    &&& proposal.actions@.len() == 0
    &&& proposal.speech.is_none()
    &&& proposal.speech_channel.is_none()
    &&& proposal.interaction_target_id.is_none()
    &&& proposal.expires_at_ms == intent.expires_at_ms
}

proof fn lemma_cloned_texts(source: Vec<String>, copy: Vec<String>)
    requires
        copy.len() == source.len(),
        forall|i| #![all_triggers] 0 <= i < source.len() ==> cloned::<String>(source[i], copy[i]),
    ensures
        text_views(copy@) == text_views(source@),
{
    assert forall|i: int| 0 <= i < source.len() implies text_views(copy@)[i] == text_views(source@)[i] by {
        assert(cloned::<String>(source[i], copy[i]));
    }
    assert(text_views(copy@) =~= text_views(source@));
}

/// A copy of a list of texts, with the same texts in the same order.
pub fn copy_texts(texts: &Vec<String>) -> (copy: Vec<String>)
    ensures
        text_views(copy@) == text_views(texts@),
{
    let copy = texts.clone();
    proof {
        lemma_cloned_texts(*texts, copy);
    }
    copy
}

impl StrategicProposal {
    /// The proposal that restates `intent` without changing its content.
    pub fn from_intent(intent: &StrategicIntent) -> (proposal: StrategicProposal)
        ensures
            restates_intent(proposal, *intent),
    {
        let proposal = StrategicProposal {
            continue_thinking: false,
            goal: Goal { aim: intent.objective.clone(), done: None, why: None },
            plan: Vec::new(),
            progress_summary: String::new(),
            reevaluate_when: Vec::new(),
            blocked_reason: None,
            goal_completion_claimed: false,
            objective: intent.objective.clone(),
            subgoals: copy_texts(&intent.subgoals),
            priorities: copy_priorities(&intent.priorities),
            constraints: copy_texts(&intent.constraints),
            risk_tolerance_permille: intent.risk_tolerance_permille,
            preferred_targets: copy_texts(&intent.preferred_targets),
            avoid: copy_texts(&intent.avoid),
            navigation_goal: copy_optional_goal(&intent.navigation_goal),
            navigation_queue: Vec::new(),
            actions: Vec::new(),
            speech: None,
            speech_channel: None,
            interaction_target_id: None,
            expires_at_ms: intent.expires_at_ms,
        };
        assert(proposal.plan@.len() == 0);
        proposal
    }

    /// Validate the bounds that the schema describes but parsing does not enforce.
    pub fn validate_semantics(&self) -> (result: Result<(), StrategicProposalSemanticError>)
        ensures
            result == proposal_semantic_check(*self),
    {
        if blank(self.goal.aim.as_str()) || blank(self.objective.as_str()) {
            return Err(StrategicProposalSemanticError::BlankObjective);
        }
        if self.plan.len() > 12 {
            return Err(StrategicProposalSemanticError::TooManyPlanSteps);
        }
        let mut i: usize = 0;
        while i < self.plan.len()
            invariant
                i <= self.plan@.len(),
                self.plan@.len() <= max_plan_entries(),
                !is_blank(self.goal.aim@) && !is_blank(self.objective@),
                forall|j: int| 0 <= j < i ==> !is_blank(#[trigger] self.plan@[j].what@),
            decreases self.plan@.len() - i,
        {
            if blank(self.plan[i].what.as_str()) {
                assert(is_blank(self.plan@[i as int].what@));
                return Err(StrategicProposalSemanticError::BlankPlanStep);
            }
            i = i + 1;
        }
        if self.reevaluate_when.len() > 12 {
            return Err(StrategicProposalSemanticError::TooManyReevaluationConditions);
        }
        if self.risk_tolerance_permille > 1000 {
            return Err(StrategicProposalSemanticError::InvalidRiskTolerance);
        }
        match &self.speech {
            Some(speech) => {
                if speech.as_str().unicode_len() > 140 {
                    return Err(StrategicProposalSemanticError::SpeechTooLong);
                }
            },
            None => {},
        }
        match &self.interaction_target_id {
            Some(target) => {
                if blank(target.as_str()) {
                    return Err(StrategicProposalSemanticError::BlankInteractionTarget);
                }
            },
            None => {},
        }
        assert(!has_blank_plan_step(self.plan@));
        let mut k: usize = 0;
        while k < self.actions.len()
            invariant
                k <= self.actions@.len(),
                proposal_semantic_check(*self) == (if has_blank_action_target(self.actions@) {
                    Err::<(), StrategicProposalSemanticError>(StrategicProposalSemanticError::BlankActionTarget)
                } else {
                    Ok(())
                }),
                forall|j: int|
                    0 <= j < k ==> !(#[trigger] self.actions@[j] matches StrategicAction::Interact { target_id }
                        && is_blank(target_id@)),
            decreases self.actions@.len() - k,
        {
            match &self.actions[k] {
                StrategicAction::Interact { target_id } => {
                    if blank(target_id.as_str()) {
                        assert(self.actions@[k as int] matches StrategicAction::Interact { target_id }
                            && is_blank(target_id@));
                        return Err(StrategicProposalSemanticError::BlankActionTarget);
                    }
                },
                StrategicAction::QueueDuel => {},
            }
            k = k + 1;
        }
        Ok(())
    }

    /// The intent this proposal becomes under the runtime-owned `revision`.
    pub fn into_intent(self, revision: u64) -> (intent: StrategicIntent)
        ensures
            intent.revision == revision,
            intent.objective == self.objective,
            intent.subgoals == self.subgoals,
            intent.priorities == self.priorities,
            intent.constraints == self.constraints,
            intent.risk_tolerance_permille == self.risk_tolerance_permille,
            intent.preferred_targets == self.preferred_targets,
            intent.avoid == self.avoid,
            intent.navigation_goal == self.navigation_goal,
            intent.expires_at_ms == self.expires_at_ms,
    {
        StrategicIntent {
            revision,
            objective: self.objective,
            subgoals: self.subgoals,
            priorities: self.priorities,
            constraints: self.constraints,
            risk_tolerance_permille: self.risk_tolerance_permille,
            preferred_targets: self.preferred_targets,
            avoid: self.avoid,
            navigation_goal: self.navigation_goal,
            expires_at_ms: self.expires_at_ms,
        }
    }
}


/// `proposal` differs from `intent` in content: objective, subgoals,
/// priorities, constraints, risk tolerance, targets, navigation goal or expiry.
pub open spec fn differs_from_intent(proposal: StrategicProposal, intent: StrategicIntent) -> bool {
    !{
        &&& proposal.objective@ == intent.objective@
        &&& text_views(proposal.subgoals@) == text_views(intent.subgoals@)
        &&& priority_views(proposal.priorities@) == priority_views(intent.priorities@)
        &&& text_views(proposal.constraints@) == text_views(intent.constraints@)
        &&& proposal.risk_tolerance_permille == intent.risk_tolerance_permille
        &&& text_views(proposal.preferred_targets@) == text_views(intent.preferred_targets@)
        &&& text_views(proposal.avoid@) == text_views(intent.avoid@)
        &&& optional_goal_view(proposal.navigation_goal) == optional_goal_view(intent.navigation_goal)
        &&& proposal.expires_at_ms == intent.expires_at_ms
    }
}

impl StrategicProposal {
    /// Whether this proposal changes the content of `current`.
    pub fn materially_differs_from(&self, current: &StrategicIntent) -> (differs: bool)
        ensures
            differs == differs_from_intent(*self, *current),
    {
        !(text_equals(self.objective.as_str(), current.objective.as_str()) && same_texts(
            &self.subgoals,
            &current.subgoals,
        ) && same_priorities(&self.priorities, &current.priorities) && same_texts(
            &self.constraints,
            &current.constraints,
        ) && self.risk_tolerance_permille == current.risk_tolerance_permille && same_texts(
            &self.preferred_targets,
            &current.preferred_targets,
        ) && same_texts(&self.avoid, &current.avoid) && same_optional_goal(
            &self.navigation_goal,
            &current.navigation_goal,
        ) && self.expires_at_ms == current.expires_at_ms)
    }
}

/// A proposal that restates an intent does not differ from it.
pub proof fn law_restated_intent_does_not_differ(proposal: StrategicProposal, intent: StrategicIntent)
    requires
        restates_intent(proposal, intent),
    ensures
        !differs_from_intent(proposal, intent),
{
}

/// Where a plan step stands.
#[derive(Debug, Clone, Copy, PartialEq, Eq, Structural)]
pub enum WorkStatus {
    Next,
    Doing,
    Done,
    Blocked,
}

/// One durable plan step. Its identifier, status, attempt count and evidence
/// are execution facts owned by the runtime.
#[derive(Debug, Clone)]
pub struct PlanStep {
    pub step_id: Option<u128>,
    pub what: String,
    pub status: WorkStatus,
    pub note: Option<String>,
    pub tries: u32,
    pub done_when: Option<String>,
    pub evidence: Vec<String>,
    pub reevaluate_when: Vec<String>,
}

/// The durable working state of the strategist.
#[derive(Debug, Clone)]
pub struct WorkingMemory {
    pub goal: Option<Goal>,
    pub plan: Vec<PlanStep>,
    pub plan_revision: u64,
    pub progress_summary: String,
    pub reevaluate_when: Vec<String>,
    pub blocked_reason: Option<String>,
    pub goal_complete: bool,
}

impl Default for WorkingMemory {
    /// No goal, no plan, revision zero.
    fn default() -> (memory: WorkingMemory)
        ensures
            memory.goal.is_none(),
            memory.plan@.len() == 0,
            memory.plan_revision == 0,
            memory.progress_summary@.len() == 0,
            memory.reevaluate_when@.len() == 0,
            memory.blocked_reason.is_none(),
            !memory.goal_complete,
    {
        WorkingMemory {
            goal: None,
            plan: Vec::new(),
            plan_revision: 0,
            progress_summary: String::new(),
            reevaluate_when: Vec::new(),
            blocked_reason: None,
            goal_complete: false,
        }
    }
}

/// Model-authored planning content after the runtime assigns a plan revision.
#[derive(Debug, Clone)]
pub struct StrategicWorkingUpdate {
    pub goal: Goal,
    pub plan: Vec<PlanStep>,
    pub plan_revision: u64,
    pub progress_summary: String,
    pub reevaluate_when: Vec<String>,
    pub blocked_reason: Option<String>,
    pub goal_completion_claimed: bool,
}

/// A goal with its texts as characters.
pub struct GoalView {
    pub aim: Seq<char>,
    pub done: Option<Seq<char>>,
    pub why: Option<Seq<char>>,
}

impl View for Goal {
    type V = GoalView;

    open spec fn view(&self) -> GoalView {
        GoalView { aim: self.aim@, done: optional_text(self.done), why: optional_text(self.why) }
    }
}

/// A plan step with its texts as characters.
pub struct PlanStepView {
    pub step_id: Option<u128>,
    pub what: Seq<char>,
    pub status: WorkStatus,
    pub note: Option<Seq<char>>,
    pub tries: u32,
    pub done_when: Option<Seq<char>>,
    pub evidence: Seq<Seq<char>>,
    pub reevaluate_when: Seq<Seq<char>>,
}

impl View for PlanStep {
    type V = PlanStepView;

    open spec fn view(&self) -> PlanStepView {
        PlanStepView {
            step_id: self.step_id,
            what: self.what@,
            status: self.status,
            note: optional_text(self.note),
            tries: self.tries,
            done_when: optional_text(self.done_when),
            evidence: text_views(self.evidence@),
            reevaluate_when: text_views(self.reevaluate_when@),
        }
    }
}

pub open spec fn plan_views(steps: Seq<PlanStep>) -> Seq<PlanStepView> {
    steps.map_values(|step: PlanStep| step@)
}

pub open spec fn optional_goal_of(goal: Option<Goal>) -> Option<GoalView> {
    match goal {
        Some(g) => Some(g@),
        None => None,
    }
}

/// The first step of `steps` that does `what`.
pub open spec fn first_step_named(steps: Seq<PlanStep>, what: Seq<char>) -> Option<PlanStep>
    decreases steps.len(),
{
    if steps.len() == 0 {
        None
    } else if steps[0].what@ == what {
        Some(steps[0])
    } else {
        first_step_named(steps.drop_first(), what)
    }
}

/// The text of `first`, or else that of `fallback`.
pub open spec fn text_or(first: Option<String>, fallback: Option<String>) -> Option<Seq<char>> {
    match first {
        Some(t) => Some(t@),
        None => optional_text(fallback),
    }
}

/// `step` is what the plan holds for `proposed`, given the step of the
/// current plan that does the same thing, if any. A new step starts with a
/// fresh identifier, no tries and no evidence; a known step keeps its
/// identifier (or gets a fresh one), status, tries and evidence, and takes the
/// proposal's note and completion condition where the proposal gives them.
pub open spec fn step_from_proposal(proposed: ProposedPlanStep, existing: Option<PlanStep>, step: PlanStep) -> bool {
    &&& step.step_id is Some
    &&& text_views(step.reevaluate_when@) == text_views(proposed.reevaluate_when@)
    &&& match existing {
        None => {
            &&& step.what@ == proposed.what@
            &&& step.status == WorkStatus::Next
            &&& optional_text(step.note) == optional_text(proposed.note)
            &&& step.tries == 0
            &&& optional_text(step.done_when) == optional_text(proposed.done_when)
            &&& step.evidence@.len() == 0
        },
        Some(e) => {
            &&& (e.step_id is Some ==> step.step_id == e.step_id)
            &&& step.what@ == e.what@
            &&& step.status == e.status
            &&& optional_text(step.note) == text_or(proposed.note, e.note)
            &&& step.tries == e.tries
            &&& optional_text(step.done_when) == text_or(proposed.done_when, e.done_when)
            &&& text_views(step.evidence@) == text_views(e.evidence@)
        },
    }
}

/// The update changes the durable working state: goal, plan, progress,
/// re-evaluation conditions or blocked reason.
pub open spec fn working_changed(current: WorkingMemory, update: StrategicWorkingUpdate) -> bool {
    ||| optional_goal_of(current.goal) != Some(update.goal@)
    ||| plan_views(current.plan@) != plan_views(update.plan@)
    ||| current.progress_summary@ != update.progress_summary@
    ||| text_views(current.reevaluate_when@) != text_views(update.reevaluate_when@)
    ||| optional_text(current.blocked_reason) != optional_text(update.blocked_reason)
}

/// The revision after `revision`, held at the largest value.
pub open spec fn next_revision(revision: u64) -> u64 {
    if revision < u64::MAX {
        (revision + 1) as u64
    } else {
        revision
    }
}

/// `update` is the working-state update that `proposal` makes of `current`.
pub open spec fn working_update_of(
    proposal: StrategicProposal,
    current: WorkingMemory,
    update: StrategicWorkingUpdate,
) -> bool {
    &&& update.goal@ == proposal.goal@
    &&& update.plan@.len() == proposal.plan@.len()
    &&& forall|i: int|
        0 <= i < proposal.plan@.len() ==> step_from_proposal(
            proposal.plan@[i],
            first_step_named(current.plan@, proposal.plan@[i].what@),
            #[trigger] update.plan@[i],
        )
    &&& update.progress_summary@ == proposal.progress_summary@
    &&& text_views(update.reevaluate_when@) == text_views(proposal.reevaluate_when@)
    &&& optional_text(update.blocked_reason) == optional_text(proposal.blocked_reason)
    &&& update.goal_completion_claimed == proposal.goal_completion_claimed
    &&& update.plan_revision == (if working_changed(current, update) {
        next_revision(current.plan_revision)
    } else {
        current.plan_revision
    })
}

impl Goal {
    /// A copy with the same texts.
    pub fn duplicate(&self) -> (copy: Goal)
        ensures
            copy@ == self@,
    {
        Goal { aim: self.aim.clone(), done: copy_optional_text(&self.done), why: copy_optional_text(&self.why) }
    }

    /// Whether two goals hold the same texts.
    pub fn same_as(&self, other: &Goal) -> (same: bool)
        ensures
            same == (self@ == other@),
    {
        text_equals(self.aim.as_str(), other.aim.as_str()) && same_optional_text(&self.done, &other.done)
            && same_optional_text(&self.why, &other.why)
    }
}

impl PlanStep {
    /// Whether two plan steps are the same, texts compared by content.
    pub fn same_as(&self, other: &PlanStep) -> (same: bool)
        ensures
            same == (self@ == other@),
    {
        self.step_id == other.step_id && text_equals(self.what.as_str(), other.what.as_str()) && self.status
            == other.status && same_optional_text(&self.note, &other.note) && self.tries == other.tries
            && same_optional_text(&self.done_when, &other.done_when) && same_texts(
            &self.evidence,
            &other.evidence,
        ) && same_texts(&self.reevaluate_when, &other.reevaluate_when)
    }
}

fn same_plan(left: &Vec<PlanStep>, right: &Vec<PlanStep>) -> (same: bool)
    ensures
        same == (plan_views(left@) == plan_views(right@)),
{
    if left.len() != right.len() {
        proof {
            assert(plan_views(left@).len() != plan_views(right@).len());
        }
        return false;
    }
    let mut i: usize = 0;
    while i < left.len()
        invariant
            i <= left@.len(),
            left@.len() == right@.len(),
            forall|j: int| 0 <= j < i ==> left@[j]@ == right@[j]@,
        decreases left@.len() - i,
    {
        if !left[i].same_as(&right[i]) {
            proof {
                assert(plan_views(left@)[i as int] != plan_views(right@)[i as int]);
            }
            return false;
        }
        i = i + 1;
    }
    proof {
        assert(plan_views(left@) =~= plan_views(right@));
    }
    true
}

fn find_step(steps: &Vec<PlanStep>, what: &str) -> (found: Option<usize>)
    ensures
        match found {
            Some(j) => j < steps@.len() && first_step_named(steps@, what@) == Some(steps@[j as int]),
            None => first_step_named(steps@, what@) is None,
        },
{
    let mut j: usize = 0;
    assert(steps@.skip(0) =~= steps@);
    while j < steps.len()
        invariant
            j <= steps@.len(),
            first_step_named(steps@, what@) == first_step_named(steps@.skip(j as int), what@),
        decreases steps@.len() - j,
    {
        assert(steps@.skip(j as int)[0] == steps@[j as int]);
        if text_equals(steps[j].what.as_str(), what) {
            return Some(j);
        }
        assert(steps@.skip(j as int).drop_first() =~= steps@.skip(j + 1));
        j = j + 1;
    }
    assert(steps@.skip(j as int).len() == 0);
    None
}

fn step_for(proposed: &ProposedPlanStep, current: &Vec<PlanStep>) -> (step: PlanStep)
    ensures
        step_from_proposal(*proposed, first_step_named(current@, proposed.what@), step),
{
    match find_step(current, proposed.what.as_str()) {
        None => PlanStep {
            step_id: Some(crate::runtime_clock::fresh_identifier()),
            what: proposed.what.clone(),
            status: WorkStatus::Next,
            note: copy_optional_text(&proposed.note),
            tries: 0,
            done_when: copy_optional_text(&proposed.done_when),
            evidence: Vec::new(),
            reevaluate_when: copy_texts(&proposed.reevaluate_when),
        },
        Some(j) => {
            let existing = &current[j];
            PlanStep {
                step_id: match existing.step_id {
                    Some(id) => Some(id),
                    None => Some(crate::runtime_clock::fresh_identifier()),
                },
                what: existing.what.clone(),
                status: existing.status,
                note: match &proposed.note {
                    Some(note) => Some(note.clone()),
                    None => copy_optional_text(&existing.note),
                },
                tries: existing.tries,
                done_when: match &proposed.done_when {
                    Some(done_when) => Some(done_when.clone()),
                    None => copy_optional_text(&existing.done_when),
                },
                evidence: copy_texts(&existing.evidence),
                reevaluate_when: copy_texts(&proposed.reevaluate_when),
            }
        },
    }
}

impl StrategicProposal {
    /// Turn accepted model content into an atomic durable working-state
    /// update. Steps the current plan already holds keep their runtime-owned
    /// facts; the plan revision advances only when the content changes.
    /// Completion stays a model claim.
    pub fn working_update(&self, current: &WorkingMemory) -> (update: StrategicWorkingUpdate)
        ensures
            working_update_of(*self, *current, update),
    {
        let mut plan: Vec<PlanStep> = Vec::new();
        let mut i: usize = 0;
        while i < self.plan.len()
            invariant
                i <= self.plan@.len(),
                plan@.len() == i,
                forall|k: int|
                    0 <= k < i ==> step_from_proposal(
                        self.plan@[k],
                        first_step_named(current.plan@, self.plan@[k].what@),
                        #[trigger] plan@[k],
                    ),
            decreases self.plan@.len() - i,
        {
            plan.push(step_for(&self.plan[i], &current.plan));
            i = i + 1;
        }
        let same_goal = match &current.goal {
            Some(goal) => goal.same_as(&self.goal),
            None => false,
        };
        let materially_changed = !same_goal || !same_plan(&current.plan, &plan) || !text_equals(
            current.progress_summary.as_str(),
            self.progress_summary.as_str(),
        ) || !same_texts(&current.reevaluate_when, &self.reevaluate_when) || !same_optional_text(
            &current.blocked_reason,
            &self.blocked_reason,
        );
        let update = StrategicWorkingUpdate {
            goal: self.goal.duplicate(),
            plan,
            plan_revision: if materially_changed {
                current.plan_revision.saturating_add(1)
            } else {
                current.plan_revision
            },
            progress_summary: self.progress_summary.clone(),
            reevaluate_when: copy_texts(&self.reevaluate_when),
            blocked_reason: copy_optional_text(&self.blocked_reason),
            goal_completion_claimed: self.goal_completion_claimed,
        };
        update
    }
}

/// Accepting a plan never erases what the runtime recorded of a step, nor
/// invents it: the plan has exactly the proposed steps, each with an
/// identifier; a step the current plan already holds keeps its tries, status,
/// evidence and identifier; a new step starts untried, with no evidence; and
/// the plan revision advances by one (held at its largest value) exactly when
/// the goal, plan, progress summary, reevaluation conditions or blocked
/// reason changed.
pub proof fn law_plan_update_keeps_runtime_facts(
    proposal: StrategicProposal,
    current: WorkingMemory,
    update: StrategicWorkingUpdate,
    i: int,
)
    requires
        working_update_of(proposal, current, update),
        0 <= i < proposal.plan@.len(),
    ensures
        update.plan@.len() == proposal.plan@.len(),
        update.plan@[i].step_id is Some,
        update.plan_revision == (if working_changed(current, update) {
            next_revision(current.plan_revision)
        } else {
            current.plan_revision
        }),
        match first_step_named(current.plan@, proposal.plan@[i].what@) {
            Some(existing) => {
                &&& update.plan@[i].tries == existing.tries
                &&& update.plan@[i].status == existing.status
                &&& text_views(update.plan@[i].evidence@) == text_views(existing.evidence@)
                &&& (existing.step_id is Some ==> update.plan@[i].step_id == existing.step_id)
            },
            None => {
                &&& update.plan@[i].tries == 0
                &&& update.plan@[i].status == WorkStatus::Next
                &&& update.plan@[i].evidence@.len() == 0
            },
        },
{
    assert(step_from_proposal(
        proposal.plan@[i],
        first_step_named(current.plan@, proposal.plan@[i].what@),
        update.plan@[i],
    ));
}

} // verus!
