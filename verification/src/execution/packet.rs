//! Tactical proposals authored by a model and the runtime packet that carries one.

use vstd::prelude::*;

use crate::runtime_clock::{fresh_identifier, unix_time_millis};
use crate::world::TilePosition;

verus! {

/// What a tactical proposal is trying to achieve.
#[derive(Debug, Clone, Copy, PartialEq, Eq, Structural)]
pub enum TacticalIntent {
    Continue,
    Attack,
    UseSkill,
    UseItem,
    Loot,
    Reposition,
    Disengage,
    Stop,
}

pub open spec fn intent_label(intent: TacticalIntent) -> Seq<char> {
    match intent {
        TacticalIntent::Continue => "continue"@,
        TacticalIntent::Attack => "attack"@,
        TacticalIntent::UseSkill => "use_skill"@,
        TacticalIntent::UseItem => "use_item"@,
        TacticalIntent::Loot => "loot"@,
        TacticalIntent::Reposition => "reposition"@,
        TacticalIntent::Disengage => "disengage"@,
        TacticalIntent::Stop => "stop"@,
    }
}

impl TacticalIntent {
    /// The stable wire name of the intent.
    pub fn as_str(self) -> (name: &'static str)
        ensures
            name@ == intent_label(self),
    {
        match self {
            TacticalIntent::Continue => "continue",
            TacticalIntent::Attack => "attack",
            TacticalIntent::UseSkill => "use_skill",
            TacticalIntent::UseItem => "use_item",
            TacticalIntent::Loot => "loot",
            TacticalIntent::Reposition => "reposition",
            TacticalIntent::Disengage => "disengage",
            TacticalIntent::Stop => "stop",
        }
    }
}

#[derive(Debug, Clone, Copy, PartialEq, Eq, Structural)]
pub enum TacticalStyle {
    CloseUp,
    LongRange,
    DuckAndWeave,
    Flee,
}

#[derive(Debug, Clone, Copy, PartialEq, Eq, Structural)]
pub enum TacticalMode {
    SemiAuto,
    Manual,
}

/// A material change that, when observed, should abort the packet.
#[derive(Debug, Clone, Copy, PartialEq, Eq, Structural)]
pub enum AbortCondition {
    HealthCritical,
    PathBlocked,
    NewHostile,
    StrategicIntentChanged,
    TargetUnavailable,
    SceneChanged,
    PlayerDied,
}

/// One physical operation requested by a tactical proposal.
#[derive(Debug, Clone)]
pub enum TacticalAction {
    MoveTo { tile_x: i32, tile_y: i32 },
    Attack { target_id: String },
    UseSkill { skill_id: String, target_id: Option<String> },
    UseItem { item_id: String },
    PickUp { drop_id: String },
    SetTactics { style: TacticalStyle, mode: TacticalMode },
    Stop,
}

/// The destination tile of a movement action.
pub open spec fn action_destination(action: TacticalAction) -> Option<TilePosition> {
    match action {
        TacticalAction::MoveTo { tile_x, tile_y } => Some(TilePosition { x: tile_x, y: tile_y }),
        _ => None,
    }
}

impl TacticalAction {
    /// The requested tile, for a `MoveTo` action; `None` for every other action.
    pub fn destination(&self) -> (tile: Option<TilePosition>)
        ensures
            tile == action_destination(*self),
    {
        match self {
            TacticalAction::MoveTo { tile_x, tile_y } => Some(TilePosition { x: *tile_x, y: *tile_y }),
            _ => None,
        }
    }
}

/// Model-owned tactical output. The runtime adds every identity and revision.
#[derive(Debug, Clone)]
pub struct TacticalProposal {
    pub intent: TacticalIntent,
    pub actions: Vec<TacticalAction>,
    pub valid_for_ms: u64,
    pub abort_if: Vec<AbortCondition>,
    pub rationale: Option<String>,
}

#[derive(Debug, Clone, Copy, PartialEq, Eq, Structural)]
pub enum TacticalProposalSemanticError {
    ContinueHasActions,
    MissingMatchingAction,
    InvalidLifetime,
    TooManyActions,
    TooManyAbortConditions,
}

/// Whether `action` performs the operation that `intent` announces.
pub open spec fn action_serves_intent(intent: TacticalIntent, action: TacticalAction) -> bool {
    match intent {
        TacticalIntent::Continue => false,
        TacticalIntent::Attack => action is Attack || action is UseSkill,
        TacticalIntent::UseSkill => action is UseSkill,
        TacticalIntent::UseItem => action is UseItem,
        TacticalIntent::Loot => action is PickUp,
        TacticalIntent::Reposition | TacticalIntent::Disengage => {
            action is MoveTo || (action matches TacticalAction::SetTactics { style, .. }
                && style == TacticalStyle::Flee)
        },
        TacticalIntent::Stop => action is Stop,
    }
}

/// The first semantic rule that `proposal` breaks, in the order they are checked.
pub open spec fn proposal_semantic_error(proposal: TacticalProposal) -> Option<
    TacticalProposalSemanticError,
> {
    if !(100 <= proposal.valid_for_ms <= 5000) {
        Some(TacticalProposalSemanticError::InvalidLifetime)
    } else if proposal.actions@.len() > 8 {
        Some(TacticalProposalSemanticError::TooManyActions)
    } else if proposal.abort_if@.len() > 7 {
        Some(TacticalProposalSemanticError::TooManyAbortConditions)
    } else if proposal.intent == TacticalIntent::Continue {
        if proposal.actions@.len() == 0 {
            None
        } else {
            Some(TacticalProposalSemanticError::ContinueHasActions)
        }
    } else if exists|i: int|
        0 <= i < proposal.actions@.len() && #[trigger] action_serves_intent(
            proposal.intent,
            proposal.actions@[i],
        ) {
        None
    } else {
        Some(TacticalProposalSemanticError::MissingMatchingAction)
    }
}

fn serves_intent(intent: TacticalIntent, action: &TacticalAction) -> (serves: bool)
    ensures
        serves == action_serves_intent(intent, *action),
{
    match intent {
        TacticalIntent::Continue => false,
        TacticalIntent::Attack => matches!(
            action,
            TacticalAction::Attack { .. } | TacticalAction::UseSkill { .. }
        ),
        TacticalIntent::UseSkill => matches!(action, TacticalAction::UseSkill { .. }),
        TacticalIntent::UseItem => matches!(action, TacticalAction::UseItem { .. }),
        TacticalIntent::Loot => matches!(action, TacticalAction::PickUp { .. }),
        TacticalIntent::Reposition | TacticalIntent::Disengage => match action {
            TacticalAction::MoveTo { .. } => true,
            TacticalAction::SetTactics { style, .. } => *style == TacticalStyle::Flee,
            _ => false,
        },
        TacticalIntent::Stop => matches!(action, TacticalAction::Stop),
    }
}

impl TacticalProposal {
    /// Verify that the structured intent and action list describe the same operation.
    pub fn validate_semantics(&self) -> (result: Result<(), TacticalProposalSemanticError>)
        ensures
            result == (match proposal_semantic_error(*self) {
                None => Ok(()),
                Some(error) => Err(error),
            }),
    {
        if !(100 <= self.valid_for_ms && self.valid_for_ms <= 5_000) {
            return Err(TacticalProposalSemanticError::InvalidLifetime);
        }
        if self.actions.len() > 8 {
            return Err(TacticalProposalSemanticError::TooManyActions);
        }
        if self.abort_if.len() > 7 {
            return Err(TacticalProposalSemanticError::TooManyAbortConditions);
        }
        if self.intent == TacticalIntent::Continue {
            return if self.actions.len() == 0 {
                Ok(())
            } else {
                Err(TacticalProposalSemanticError::ContinueHasActions)
            };
        }
        let mut i: usize = 0;
        while i < self.actions.len()
            invariant
                i <= self.actions@.len(),
                proposal_semantic_error(*self) == (if exists|j: int|
                    0 <= j < self.actions@.len() && #[trigger] action_serves_intent(
                        self.intent,
                        self.actions@[j],
                    ) {
                    None
                } else {
                    Some(TacticalProposalSemanticError::MissingMatchingAction)
                }),
                forall|j: int|
                    0 <= j < i ==> !#[trigger] action_serves_intent(
                        self.intent,
                        self.actions@[j],
                    ),
            decreases self.actions@.len() - i,
        {
            if serves_intent(self.intent, &self.actions[i]) {
                assert(action_serves_intent(self.intent, self.actions@[i as int]));
                return Ok(());
            }
            i = i + 1;
        }
        Err(TacticalProposalSemanticError::MissingMatchingAction)
    }
}

/// A tactical proposal bound to the decision, revisions and scene it was made for.
#[derive(Debug, Clone)]
pub struct ActionPacket {
    pub id: u128,
    pub decision_id: u128,
    pub frame_revision: u64,
    pub strategic_revision: u64,
    pub scene: Option<String>,
    /// Milliseconds since the Unix epoch at which the packet was created.
    pub created_at_ms: i64,
    pub proposal: TacticalProposal,
}

impl ActionPacket {
    /// Stamp a proposal with a fresh packet identity and the current time.
    pub fn from_proposal(
        decision_id: u128,
        frame_revision: u64,
        strategic_revision: u64,
        scene: Option<String>,
        proposal: TacticalProposal,
    ) -> (packet: ActionPacket)
        ensures
            packet.decision_id == decision_id,
            packet.frame_revision == frame_revision,
            packet.strategic_revision == strategic_revision,
            packet.scene == scene,
            packet.proposal == proposal,
    {
        ActionPacket {
            id: fresh_identifier(),
            decision_id,
            frame_revision,
            strategic_revision,
            scene,
            created_at_ms: unix_time_millis(),
            proposal,
        }
    }
}

} // verus!
