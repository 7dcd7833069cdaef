//! Thumbnail extraction: grab a single frame from a media file at a given
//! position.
//!
//! The engine decodes; what is verified here is the orchestration around it:
//! the pipeline description handed to the engine, the seconds arithmetic on
//! the queried duration, and the wait loop that watches the engine's message
//! bus — pause first, seek once the pipeline reports itself ready, play, and
//! stop on end-of-stream or error. The single captured frame crosses back
//! through the one-slot channel.
use vstd::prelude::*;
use vstd::string::StringExecFns;

use crate::channel::FrameChannel;
use crate::data::VideoError;
use crate::player::{teardown_request, teardown_transition, EngineState, TeardownAction};

verus! {

pub const NANOS_PER_SEC: u64 = 1_000_000_000;

/// The engine's pipeline-description string for thumbnail extraction: decode
/// the URI, convert colour, and hand BGRA samples to a named callback sink.
pub fn launch_description(uri: &str) -> (d: String)
    ensures
        d@ == "uridecodebin uri="@ + uri@
            + " ! videoconvert ! appsink name=sink caps=\"video/x-raw, format=BGRA\""@,
{
    let mut d = String::from_str("uridecodebin uri=");
    d.append(uri);
    d.append(" ! videoconvert ! appsink name=sink caps=\"video/x-raw, format=BGRA\"");
    d
}

/// The duration in whole seconds, from the engine's answer to a duration
/// query: the queried nanoseconds rounded down, or the query's failure.
pub fn duration_from_query(nanos: Option<u64>) -> (r: Result<u64, VideoError>)
    ensures
        nanos is None ==> r == Err::<u64, VideoError>(VideoError::Duration),
        nanos matches Some(n) ==> r == Ok::<u64, VideoError>((n / NANOS_PER_SEC) as u64),
{
    match nanos {
        Some(n) => Ok(n / NANOS_PER_SEC),
        None => Err(VideoError::Duration),
    }
}

/// A message drawn from the engine's bus while waiting for the thumbnail.
#[derive(Clone, Debug, Eq, PartialEq)]
pub enum BusMessage {
    /// An asynchronous state change has completed: the pipeline is ready.
    AsyncDone,
    /// The stream has ended.
    Eos,
    /// The engine reports a failure, with its message.
    Error(String),
    /// Anything else on the bus.
    Other,
}

/// What the wait loop does in reaction to one bus message.
#[derive(Clone, Debug, Eq, PartialEq)]
pub enum BusAction {
    /// Seek to the wanted position, in seconds, and set the pipeline playing.
    SeekThenPlay(u64),
    /// The thumbnail is in: leave the loop.
    Finish,
    /// The engine failed: tear down and report the message.
    Abort(String),
    /// Nothing to do; keep waiting.
    KeepWaiting,
}

/// The wait loop's transition: the first readiness report triggers the one
/// seek, end-of-stream finishes, an engine error aborts, and everything else
/// keeps waiting. `seeked` remembers whether the seek happened.
pub open spec fn bus_step_spec(seeked: bool, position: u64, msg: BusMessage) -> (bool, BusAction) {
    match msg {
        BusMessage::AsyncDone => if !seeked {
            (true, BusAction::SeekThenPlay(position))
        } else {
            (true, BusAction::KeepWaiting)
        },
        BusMessage::Eos => (seeked, BusAction::Finish),
        BusMessage::Error(s) => (seeked, BusAction::Abort(s)),
        BusMessage::Other => (seeked, BusAction::KeepWaiting),
    }
}

/// Decide the reaction to one bus message.
pub fn bus_step(seeked: bool, position: u64, msg: &BusMessage) -> (r: (bool, BusAction))
    ensures
        r == bus_step_spec(seeked, position, *msg),
{
    match msg {
        BusMessage::AsyncDone => {
            if !seeked {
                (true, BusAction::SeekThenPlay(position))
            } else {
                (true, BusAction::KeepWaiting)
            }
        },
        BusMessage::Eos => (seeked, BusAction::Finish),
        BusMessage::Error(s) => (seeked, BusAction::Abort(s.clone())),
        BusMessage::Other => (seeked, BusAction::KeepWaiting),
    }
}

/// How a run of the wait loop ends.
#[derive(Clone, Debug, Eq, PartialEq)]
pub enum WaitOutcome {
    /// End-of-stream arrived: the thumbnail was captured.
    Finished,
    /// The engine reported a failure, with its message.
    Aborted(String),
    /// The messages ran out with neither; carries whether the seek happened.
    StillWaiting(bool),
}

/// The wait loop over a whole message sequence, from a given `seeked` flag.
pub open spec fn wait_loop_spec(seeked: bool, position: u64, msgs: Seq<BusMessage>) -> WaitOutcome
    decreases msgs.len(),
{
    if msgs.len() == 0 {
        WaitOutcome::StillWaiting(seeked)
    } else {
        let step = bus_step_spec(seeked, position, msgs[0]);
        match step.1 {
            BusAction::Finish => WaitOutcome::Finished,
            BusAction::Abort(e) => WaitOutcome::Aborted(e),
            _ => wait_loop_spec(step.0, position, msgs.drop_first()),
        }
    }
}

/// Run the wait loop over a recorded message sequence, collecting the actions
/// the engine is to perform — at most one seek, by construction.
pub fn run_wait_loop(position: u64, msgs: &Vec<BusMessage>) -> (r: (WaitOutcome, Vec<BusAction>))
    ensures
        r.0 == wait_loop_spec(false, position, msgs@),
        forall|i: int|
            0 <= i < r.1@.len() ==> r.1@[i] == BusAction::SeekThenPlay(position),
        r.1@.len() <= 1,
{
    let mut seeked = false;
    let mut actions: Vec<BusAction> = Vec::new();
    let mut i: usize = 0;
    proof {
        assert(msgs@.skip(0) =~= msgs@);
    }
    loop
        invariant
            i <= msgs@.len(),
            wait_loop_spec(false, position, msgs@) == wait_loop_spec(
                seeked,
                position,
                msgs@.skip(i as int),
            ),
            forall|k: int|
                0 <= k < actions@.len() ==> actions@[k] == BusAction::SeekThenPlay(position),
            actions@.len() == (if seeked {
                1int
            } else {
                0int
            }),
        decreases msgs@.len() - i,
    {
        if i == msgs.len() {
            return (WaitOutcome::StillWaiting(seeked), actions);
        }
        proof {
            assert(msgs@.skip(i as int)[0] == msgs@[i as int]);
            assert(msgs@.skip(i as int).drop_first() =~= msgs@.skip(i as int + 1));
        }
        let step = bus_step(seeked, position, &msgs[i]);
        match step.1 {
            BusAction::Finish => {
                return (WaitOutcome::Finished, actions);
            },
            BusAction::Abort(e) => {
                return (WaitOutcome::Aborted(e), actions);
            },
            BusAction::SeekThenPlay(p) => {
                actions.push(BusAction::SeekThenPlay(p));
            },
            BusAction::KeepWaiting => {},
        }
        seeked = step.0;
        i = i + 1;
    }
}

/// The captured thumbnail's owner: the channel the frame crosses on, the
/// media duration in seconds, and the extraction pipeline's tracked state.
#[derive(Debug)]
pub struct Thumbnail {
    pub receiver: FrameChannel,
    pub duration: u64,
    pub state: EngineState,
}

impl Thumbnail {
    /// The engine state the extraction pipeline was last driven to.
    pub open spec fn pipeline_state(&self) -> EngineState {
        self.state
    }

    /// Build the thumbnail holder from the engine's duration query: a fresh
    /// channel for the one frame, the duration in whole seconds, and a
    /// pipeline taken as playing — the seek has set it so by the time the
    /// frame arrives. A failed query is the one construction failure.
    pub fn new(duration_nanos: Option<u64>) -> (r: Result<Thumbnail, VideoError>)
        ensures
            duration_nanos is None ==> r == Err::<Thumbnail, VideoError>(VideoError::Duration),
            duration_nanos matches Some(n) ==> r matches Ok(t) && t.duration == n / NANOS_PER_SEC
                && t.receiver.slot() is None && t.receiver.connected() && t.pipeline_state()
                == EngineState::Playing,
    {
        let secs = duration_from_query(duration_nanos)?;
        Ok(Thumbnail { receiver: FrameChannel::new(), duration: secs, state: EngineState::Playing })
    }

    /// Tear the extraction pipeline down before the holder is released.
    /// Safe to repeat: the second call asks nothing of the engine.
    pub fn teardown(&mut self) -> (r: TeardownAction)
        ensures
            (final (self).pipeline_state(), r) == teardown_transition(
                old(self).pipeline_state(),
            ),
            final (self).receiver == old(self).receiver,
            final (self).duration == old(self).duration,
    {
        teardown_request(&mut self.state)
    }
}

} // verus!
