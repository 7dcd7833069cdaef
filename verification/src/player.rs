//! The video player: a model of the one pipeline it owns and of the
//! transitions the UI asks of it.
use vstd::prelude::*;

use crate::pipeline::{plan_matches, recording_plan, FrameRate, PipelinePlan};

verus! {

/// The engine states a pipeline is driven through.
#[derive(Copy, Clone, Debug, Eq, PartialEq, Structural)]
pub enum EngineState {
    /// Torn down: the engine holds no resources for the pipeline.
    Null,
    Paused,
    Playing,
}

/// What a teardown asks of the engine.
#[derive(Copy, Clone, Debug, Eq, PartialEq, Structural)]
pub enum TeardownAction {
    /// The pipeline is live: request the transition to `Null`.
    RequestNull,
    /// The pipeline is already at `Null`: nothing to request.
    AlreadyNull,
}

/// Teardown decision: the next pipeline state is always `Null`, and the
/// engine is asked for a transition only when the pipeline is not there yet.
pub open spec fn teardown_transition(s: EngineState) -> (EngineState, TeardownAction) {
    match s {
        EngineState::Null => (EngineState::Null, TeardownAction::AlreadyNull),
        _ => (EngineState::Null, TeardownAction::RequestNull),
    }
}

/// Decide a teardown: move the tracked state to `Null` and report whether the
/// engine must be asked to transition.
pub fn teardown_request(state: &mut EngineState) -> (r: TeardownAction)
    ensures
        (*final (state), r) == teardown_transition(*old(state)),
{
    let was_null = matches!(*state, EngineState::Null);
    *state = EngineState::Null;
    if was_null {
        TeardownAction::AlreadyNull
    } else {
        TeardownAction::RequestNull
    }
}

/// Teardown is idempotent: after one teardown the state is `Null`, and a
/// second teardown asks nothing of the engine — so it can produce no second
/// error, whatever the first request came to.
pub proof fn lemma_teardown_idempotent(s: EngineState)
    ensures
        teardown_transition(s).0 == EngineState::Null,
        teardown_transition(teardown_transition(s).0).1 == TeardownAction::AlreadyNull,
{
}

/// The player that owns the recording pipeline. The pipeline itself lives in
/// the engine; the player tracks the state it has been driven to.
#[derive(Copy, Clone, Debug, Eq, PartialEq, Structural)]
pub struct VideoPlayer {
    pub paused: bool,
    pub muted: bool,
    pub state: EngineState,
}

impl VideoPlayer {
    /// The engine state the pipeline was last driven to.
    pub open spec fn pipeline_state(&self) -> EngineState {
        self.state
    }

    /// Create a player together with the plan of the pipeline it is to own:
    /// the recording graph writing to `uri`, at the default frame rate. The
    /// pipeline starts at `Null`, neither paused nor muted.
    pub fn new(uri: &str) -> (r: (VideoPlayer, PipelinePlan))
        ensures
            r.0.paused == false,
            r.0.muted == false,
            r.0.pipeline_state() == EngineState::Null,
            plan_matches(r.1, uri@, FrameRate::F24),
            r.1.wf(),
    {
        let plan = recording_plan(uri, FrameRate::default());
        (VideoPlayer { paused: false, muted: false, state: EngineState::Null }, plan)
    }

    /// Drive the pipeline to a state.
    pub fn set_state(&mut self, s: EngineState)
        ensures
            final (self).pipeline_state() == s,
            final (self).paused == old(self).paused,
            final (self).muted == old(self).muted,
    {
        self.state = s;
    }

    /// Tear the pipeline down before the player is released, so the engine
    /// stops emitting callbacks into it. Safe to repeat: the second call asks
    /// nothing of the engine.
    pub fn teardown(&mut self) -> (r: TeardownAction)
        ensures
            (final (self).pipeline_state(), r) == teardown_transition(
                old(self).pipeline_state(),
            ),
            final (self).paused == old(self).paused,
            final (self).muted == old(self).muted,
    {
        teardown_request(&mut self.state)
    }
}

} // verus!
