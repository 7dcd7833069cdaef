//! The bounded one-slot frame handoff between the engine's sample callback
//! (the producer) and the UI or a synchronous caller (the consumer).
//!
//! The producer never blocks: a send into an occupied slot drops the new frame
//! (the existing frame wins), and a send after the consumer has gone reports
//! disconnection. The consumer drains the slot, taking whatever single frame
//! is pending.
use vstd::prelude::*;

use crate::frame::Frame;

verus! {

/// What a non-blocking send reports back to the producer.
#[derive(Copy, Clone, Debug, Eq, PartialEq, Structural)]
pub enum SendOutcome {
    /// The slot was free; the frame now sits in it.
    Delivered,
    /// The slot already held an undrained frame; the new frame was discarded.
    DroppedFull,
    /// The consumer is gone; the frame was discarded and no later send can
    /// deliver. An expected end-of-stream condition, not an error.
    Disconnected,
}

/// A channel of capacity one. At most one frame is ever in flight.
#[derive(Debug)]
pub struct FrameChannel {
    slot: Option<Frame>,
    connected: bool,
}

impl FrameChannel {
    /// The frame currently pending, if any.
    pub closed spec fn slot(&self) -> Option<Frame> {
        self.slot
    }

    /// Whether the consumer is still attached.
    pub closed spec fn connected(&self) -> bool {
        self.connected
    }

    /// A fresh channel: empty and connected.
    pub fn new() -> (c: FrameChannel)
        ensures
            c.slot() is None,
            c.connected(),
    {
        FrameChannel { slot: None, connected: true }
    }

    /// Non-blocking send. Delivers into a free slot; on a full slot the new
    /// frame is discarded and the pending one kept; after disconnection every
    /// frame is discarded. Returns immediately in every case.
    pub fn try_send(&mut self, frame: Frame) -> (r: SendOutcome)
        ensures
            !old(self).connected() ==> r == SendOutcome::Disconnected && *final (self) == *old(
                self,
            ),
            old(self).connected() && old(self).slot() is Some ==> r == SendOutcome::DroppedFull
                && *final (self) == *old(self),
            old(self).connected() && old(self).slot() is None ==> r == SendOutcome::Delivered
                && final (self).slot() == Some(frame) && final (self).connected(),
    {
        if !self.connected {
            SendOutcome::Disconnected
        } else if self.slot.is_some() {
            SendOutcome::DroppedFull
        } else {
            self.slot = Some(frame);
            SendOutcome::Delivered
        }
    }

    /// Non-blocking drain: takes the pending frame if there is one. This is
    /// the consumer's poll, run once per UI tick for live preview and once
    /// after the wait loop for a thumbnail.
    pub fn try_recv(&mut self) -> (r: Option<Frame>)
        ensures
            r == old(self).slot(),
            final (self).slot() is None,
            final (self).connected() == old(self).connected(),
    {
        self.slot.take()
    }

    /// The consumer leaves: any pending frame is discarded and every later
    /// send reports `Disconnected`.
    pub fn disconnect(&mut self)
        ensures
            final (self).slot() is None,
            !final (self).connected(),
    {
        self.slot = None;
        self.connected = false;
    }
}

/// One step of the handoff protocol, abstracted: the producer hands over its
/// next frame, or the consumer drains the slot.
#[derive(Copy, Clone, Debug, Eq, PartialEq, Structural)]
pub enum ChanOp {
    Produce,
    Drain,
}

/// Abstract state of a run of the handoff protocol. Frames are numbered in
/// production order; `produced` counts them, `slot` mirrors the channel's one
/// slot, and `drained` lists the numbers the consumer has observed, in order.
pub struct ChanTrace {
    pub produced: nat,
    pub slot: Option<nat>,
    pub drained: Seq<nat>,
}

pub open spec fn chan_init() -> ChanTrace {
    ChanTrace { produced: 0, slot: None, drained: Seq::empty() }
}

/// The protocol's transition: `Produce` fills a free slot with the next frame
/// number and drops the frame otherwise, exactly as `try_send` does; `Drain`
/// takes the slot's content, exactly as `try_recv` does.
pub open spec fn chan_step(s: ChanTrace, op: ChanOp) -> ChanTrace {
    match op {
        ChanOp::Produce => ChanTrace {
            produced: s.produced + 1,
            slot: if s.slot is None {
                Some(s.produced)
            } else {
                s.slot
            },
            drained: s.drained,
        },
        ChanOp::Drain => match s.slot {
            Some(i) => ChanTrace { produced: s.produced, slot: None, drained: s.drained.push(i) },
            None => s,
        },
    }
}

/// The state after running a whole sequence of operations from the start.
pub open spec fn chan_run(ops: Seq<ChanOp>) -> ChanTrace
    decreases ops.len(),
{
    if ops.len() == 0 {
        chan_init()
    } else {
        chan_step(chan_run(ops.drop_last()), ops.last())
    }
}

/// Invariant of every reachable state: frame numbers only move forward.
/// The pending frame is newer than everything drained, and everything drained
/// or pending was produced.
pub open spec fn chan_inv(s: ChanTrace) -> bool {
    &&& forall|i: int, j: int|
        0 <= i < j < s.drained.len() ==> s.drained[i] < s.drained[j]
    &&& forall|i: int| 0 <= i < s.drained.len() ==> s.drained[i] < s.produced
    &&& s.slot matches Some(p) ==> p < s.produced
    &&& s.slot matches Some(p) ==> (s.drained.len() > 0 ==> s.drained.last() < p)
}

/// Every run of the protocol keeps the invariant.
pub proof fn lemma_chan_run_inv(ops: Seq<ChanOp>)
    ensures
        chan_inv(chan_run(ops)),
    decreases ops.len(),
{
    if ops.len() > 0 {
        lemma_chan_run_inv(ops.drop_last());
    }
}

/// A run's slot is mirrored by a connected channel: both are empty, or the
/// channel holds exactly the already-produced frame the run numbers.
pub open spec fn mirrors(c: FrameChannel, frames: Seq<Frame>, s: ChanTrace) -> bool {
    &&& c.connected()
    &&& s.produced <= frames.len()
    &&& match s.slot {
        Option::None => c.slot() is None,
        Option::Some(k) => k < s.produced && c.slot() == Some(frames[k as int]),
    }
}

/// `try_send` refines `Produce`: a channel mirroring a run, taken through
/// what `try_send`'s contract says of sending the next produced frame,
/// mirrors the state `Produce` takes the run to.
pub proof fn lemma_try_send_refines_produce(
    pre: FrameChannel,
    post: FrameChannel,
    frames: Seq<Frame>,
    s: ChanTrace,
)
    requires
        mirrors(pre, frames, s),
        s.produced < frames.len(),
        post.connected() == pre.connected(),
        post.slot() == (if pre.slot() is None {
            Some(frames[s.produced as int])
        } else {
            pre.slot()
        }),
    ensures
        mirrors(post, frames, chan_step(s, ChanOp::Produce)),
{
}

/// `try_recv` refines `Drain`: a channel mirroring a run, taken through what
/// `try_recv`'s contract says, mirrors the state `Drain` takes the run to —
/// and the consumer receives exactly the frame the run records as drained.
pub proof fn lemma_try_recv_refines_drain(
    pre: FrameChannel,
    post: FrameChannel,
    r: Option<Frame>,
    frames: Seq<Frame>,
    s: ChanTrace,
)
    requires
        mirrors(pre, frames, s),
        r == pre.slot(),
        post.slot() is None,
        post.connected() == pre.connected(),
    ensures
        mirrors(post, frames, chan_step(s, ChanOp::Drain)),
        s.slot matches Some(k) ==> r == Some(frames[k as int]) && chan_step(
            s,
            ChanOp::Drain,
        ).drained.last() == k,
        s.slot is None ==> r is None && chan_step(s, ChanOp::Drain).drained == s.drained,
{
}

/// Over any sequence of productions and drains, the consumer never observes a
/// frame older than one it drained before: each drain takes the one frame
/// that is available — the slot's pending frame — and those frame numbers
/// strictly increase from drain to drain.
pub proof fn lemma_drained_frames_monotonic(ops: Seq<ChanOp>)
    ensures
        forall|i: int, j: int|
            0 <= i < j < chan_run(ops).drained.len() ==> chan_run(ops).drained[i] < chan_run(
                ops,
            ).drained[j],
{
    lemma_chan_run_inv(ops);
}

} // verus!
