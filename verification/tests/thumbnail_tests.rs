use druid_camera::channel::FrameChannel;
use druid_camera::data::VideoError;
use druid_camera::player::{EngineState, TeardownAction};
use druid_camera::sample::{deliver_preview_sample, deliver_thumbnail_sample, frame_from_sample,
    FlowDecision};
use druid_camera::thumbnail::{bus_step, duration_from_query, launch_description, run_wait_loop,
    BusAction, BusMessage, Thumbnail, WaitOutcome, NANOS_PER_SEC};

#[test]
fn launch_description_names_the_uri() {
    let d = launch_description("file:///tmp/movie.mkv");
    assert_eq!(
        d,
        "uridecodebin uri=file:///tmp/movie.mkv ! videoconvert ! appsink name=sink \
         caps=\"video/x-raw, format=BGRA\""
    );
}

#[test]
fn duration_rounds_down_to_whole_seconds() {
    assert_eq!(duration_from_query(Some(2_500_000_000)).unwrap(), 2);
    assert_eq!(duration_from_query(Some(NANOS_PER_SEC - 1)).unwrap(), 0);
    assert_eq!(duration_from_query(Some(0)).unwrap(), 0);
}

#[test]
fn failed_duration_query_is_an_error() {
    assert_eq!(duration_from_query(None).unwrap_err(), VideoError::Duration);
}

#[test]
fn first_async_done_seeks_once() {
    let (seeked, action) = bus_step(false, 42, &BusMessage::AsyncDone);
    assert!(seeked);
    assert_eq!(action, BusAction::SeekThenPlay(42));
    let (still_seeked, action) = bus_step(seeked, 42, &BusMessage::AsyncDone);
    assert!(still_seeked);
    assert_eq!(action, BusAction::KeepWaiting);
}

#[test]
fn eos_finishes_and_errors_abort() {
    assert_eq!(bus_step(true, 5, &BusMessage::Eos).1, BusAction::Finish);
    assert_eq!(
        bus_step(false, 5, &BusMessage::Error(String::from("decode failed"))).1,
        BusAction::Abort(String::from("decode failed"))
    );
    assert_eq!(bus_step(false, 5, &BusMessage::Other).1, BusAction::KeepWaiting);
}

#[test]
fn wait_loop_seeks_then_finishes_on_eos() {
    let msgs = vec![
        BusMessage::Other,
        BusMessage::AsyncDone,
        BusMessage::AsyncDone,
        BusMessage::Eos,
        BusMessage::Other,
    ];
    let (outcome, actions) = run_wait_loop(7, &msgs);
    assert_eq!(outcome, WaitOutcome::Finished);
    assert_eq!(actions, vec![BusAction::SeekThenPlay(7)]);
}

#[test]
fn wait_loop_aborts_on_an_engine_error() {
    let msgs = vec![BusMessage::AsyncDone, BusMessage::Error(String::from("no such file"))];
    let (outcome, actions) = run_wait_loop(0, &msgs);
    assert_eq!(outcome, WaitOutcome::Aborted(String::from("no such file")));
    assert_eq!(actions.len(), 1);
}

#[test]
fn wait_loop_reports_exhausted_messages() {
    let (outcome, actions) = run_wait_loop(3, &Vec::new());
    assert_eq!(outcome, WaitOutcome::StillWaiting(false));
    assert!(actions.is_empty());
}

#[test]
fn thumbnail_new_carries_the_duration_in_seconds() {
    let t = Thumbnail::new(Some(5 * NANOS_PER_SEC + 123)).unwrap();
    assert_eq!(t.duration, 5);
    assert_eq!(t.state, EngineState::Playing);
}

#[test]
fn thumbnail_new_fails_without_a_duration() {
    assert_eq!(Thumbnail::new(None).unwrap_err(), VideoError::Duration);
}

#[test]
fn thumbnail_teardown_is_idempotent() {
    let mut t = Thumbnail::new(Some(NANOS_PER_SEC)).unwrap();
    assert_eq!(t.teardown(), TeardownAction::RequestNull);
    assert_eq!(t.state, EngineState::Null);
    assert_eq!(t.teardown(), TeardownAction::AlreadyNull);
    assert_eq!(t.state, EngineState::Null);
}

#[test]
fn good_sample_becomes_a_frame() {
    let f = frame_from_sample(vec![0u8; 8], 2, 1).unwrap();
    assert_eq!((f.width, f.height), (2, 1));
}

#[test]
fn negative_dimensions_are_a_caps_failure() {
    assert_eq!(frame_from_sample(vec![0u8; 8], -2, 1).unwrap_err(), VideoError::Caps);
    assert_eq!(frame_from_sample(vec![0u8; 8], 2, -1).unwrap_err(), VideoError::Caps);
}

#[test]
fn thumbnail_sample_ends_the_stream_after_one_frame() {
    let mut chan = FrameChannel::new();
    let r = deliver_thumbnail_sample(&mut chan, vec![1u8; 4], 1, 1);
    assert_eq!(r, FlowDecision::EndStream);
    assert_eq!(chan.try_recv().unwrap().data, vec![1u8; 4]);
    let r = deliver_thumbnail_sample(&mut chan, vec![0u8; 7], 1, 1);
    assert_eq!(r, FlowDecision::Failed);
    assert!(chan.try_recv().is_none());
}

#[test]
fn preview_sample_keeps_the_stream_running() {
    let mut chan = FrameChannel::new();
    assert_eq!(deliver_preview_sample(&mut chan, vec![1u8; 4], 1, 1), FlowDecision::Continue);
    // The slot is full: the next frame is dropped but the stream continues.
    assert_eq!(deliver_preview_sample(&mut chan, vec![2u8; 4], 1, 1), FlowDecision::Continue);
    assert_eq!(chan.try_recv().unwrap().data, vec![1u8; 4]);
}

#[test]
fn preview_sample_after_disconnect_ends_the_stream() {
    let mut chan = FrameChannel::new();
    chan.disconnect();
    assert_eq!(deliver_preview_sample(&mut chan, vec![1u8; 4], 1, 1), FlowDecision::EndStream);
}
