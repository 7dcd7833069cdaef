//! What the engine's per-sample callbacks decide.
//!
//! The engine invokes these on its own worker threads, handing over a mapped
//! read-only pixel buffer and the negotiated width and height. The decisions —
//! whether the sample makes a frame, what the handoff does to the channel, and
//! what flow signal goes back to the engine — are verified here; the engine
//! call sites only convert and forward.
use vstd::prelude::*;

use crate::channel::FrameChannel;
use crate::data::VideoError;
use crate::frame::{Frame, PixelFormat};

verus! {

/// What a sample callback tells the engine about the stream.
#[derive(Copy, Clone, Debug, Eq, PartialEq, Structural)]
pub enum FlowDecision {
    /// Keep the samples coming.
    Continue,
    /// End the stream: the callback has everything it wants, or its consumer
    /// is gone. Expected, not an error.
    EndStream,
    /// The sample was unusable; report a flow error.
    Failed,
}

/// A sample makes a frame exactly when its dimensions are non-negative and
/// its buffer holds four bytes for each of its pixels.
pub open spec fn sample_frame_ok(data: Seq<u8>, width: i32, height: i32) -> bool {
    width >= 0 && height >= 0 && data.len() == width * height * 4
}

/// Turn a mapped sample buffer into a frame, rejecting dimensions the
/// capability query could not have produced and buffers of the wrong size.
pub fn frame_from_sample(data: Vec<u8>, width: i32, height: i32) -> (r: Result<
    Frame,
    VideoError,
>)
    ensures
        r is Ok <==> sample_frame_ok(data@, width, height),
        r matches Ok(f) ==> f == (Frame {
            format: PixelFormat::RgbaSeparate,
            width: width as usize,
            height: height as usize,
            data,
        }) && f.wf(),
        r is Err ==> r == Err::<Frame, VideoError>(VideoError::Caps),
{
    if width < 0 || height < 0 {
        Err(VideoError::Caps)
    } else {
        Frame::from_raw(data, PixelFormat::RgbaSeparate, width as usize, height as usize)
    }
}

/// What one handoff attempt leaves in the channel: the frame lands in a free
/// slot of a connected channel, and in every other case the channel keeps its
/// state and the frame is dropped.
pub open spec fn handed_off(pre: FrameChannel, post: FrameChannel, f: Frame) -> bool {
    &&& post.connected() == pre.connected()
    &&& post.slot() == (if pre.connected() && pre.slot() is None {
        Some(f)
    } else {
        pre.slot()
    })
}

/// One sample arriving at the live-preview sink. A good sample is handed to
/// the channel; a full slot drops the new frame and a disconnected consumer
/// turns further delivery off by ending the stream. A bad sample is a flow
/// error.
pub fn deliver_preview_sample(chan: &mut FrameChannel, data: Vec<u8>, width: i32, height: i32) -> (r:
    FlowDecision)
    ensures
        !sample_frame_ok(data@, width, height) ==> *final (chan) == *old(chan) && r
            == FlowDecision::Failed,
        sample_frame_ok(data@, width, height) ==> handed_off(
            *old(chan),
            *final (chan),
            (Frame {
                format: PixelFormat::RgbaSeparate,
                width: width as usize,
                height: height as usize,
                data,
            }),
        ) && r == (if old(chan).connected() {
            FlowDecision::Continue
        } else {
            FlowDecision::EndStream
        }),
{
    match frame_from_sample(data, width, height) {
        Ok(frame) => {
            match chan.try_send(frame) {
                crate::channel::SendOutcome::Disconnected => FlowDecision::EndStream,
                _ => FlowDecision::Continue,
            }
        },
        Err(_) => FlowDecision::Failed,
    }
}

/// One sample arriving at the thumbnail sink. A good sample is handed to the
/// channel and the stream is ended at once: a thumbnail needs one frame only,
/// so even a dropped or undeliverable frame ends the stream rather than
/// raising an error. A bad sample is a flow error.
pub fn deliver_thumbnail_sample(
    chan: &mut FrameChannel,
    data: Vec<u8>,
    width: i32,
    height: i32,
) -> (r: FlowDecision)
    ensures
        !sample_frame_ok(data@, width, height) ==> *final (chan) == *old(chan) && r
            == FlowDecision::Failed,
        sample_frame_ok(data@, width, height) ==> handed_off(
            *old(chan),
            *final (chan),
            (Frame {
                format: PixelFormat::RgbaSeparate,
                width: width as usize,
                height: height as usize,
                data,
            }),
        ) && r == FlowDecision::EndStream,
{
    match frame_from_sample(data, width, height) {
        Ok(frame) => {
            let _ = chan.try_send(frame);
            FlowDecision::EndStream
        },
        Err(_) => FlowDecision::Failed,
    }
}

} // verus!
