//! The model-facing protocols: frames, intents, proposals and checkpoints.

pub mod models;
pub mod strategic_agentic;
pub mod strategic_input;
pub mod strategic_intent;
pub mod strategic_output;
pub mod tactical_frame;
pub mod tactical_input;

use vstd::prelude::*;

verus! {

/// The causal identity of one brain call: the decision it makes, and the
/// character, frame and strategy it was made for when they are known.
#[derive(Debug, Clone, PartialEq, Eq)]
pub struct BrainCallContext {
    pub decision_id: u128,
    pub character_id: Option<String>,
    pub frame_revision: Option<u64>,
    pub strategic_revision: Option<u64>,
}

impl BrainCallContext {
    /// A context for a call made outside any runtime: a fresh decision
    /// identity, and nothing else known.
    pub fn standalone() -> (context: BrainCallContext)
        ensures
            crate::runtime_clock::is_random_uuid(context.decision_id),
            context.character_id is None,
            context.frame_revision is None,
            context.strategic_revision is None,
    {
        BrainCallContext {
            decision_id: crate::runtime_clock::fresh_identifier(),
            character_id: None,
            frame_revision: None,
            strategic_revision: None,
        }
    }
}

} // verus!
