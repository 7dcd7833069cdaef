use druid_camera::pipeline::{framerate_fraction, recording_plan, CapsValue, ElementKind,
    FrameRate, PropValue};

#[test]
fn default_frame_rate_is_twenty_four() {
    assert_eq!(FrameRate::default(), FrameRate::F24);
    assert_eq!(FrameRate::F24.fps(), 24);
    assert_eq!(FrameRate::F30.fps(), 30);
}

#[test]
fn framerate_fraction_is_fps_over_one() {
    assert_eq!(framerate_fraction(FrameRate::F24), (24, 1));
    assert_eq!(framerate_fraction(FrameRate::F30), (30, 1));
}

#[test]
fn factory_names_match_the_engine_registry() {
    assert_eq!(ElementKind::VideoSource.factory_name(), "v4l2src");
    assert_eq!(ElementKind::Tee.factory_name(), "tee");
    assert_eq!(ElementKind::Queue.factory_name(), "queue2");
    assert_eq!(ElementKind::AppSink.factory_name(), "appsink");
    assert_eq!(ElementKind::RateAdjust.factory_name(), "videorate");
    assert_eq!(ElementKind::ColorConvert.factory_name(), "videoconvert");
    assert_eq!(ElementKind::CapsFilter.factory_name(), "capsfilter");
    assert_eq!(ElementKind::VideoEncoder.factory_name(), "x264enc");
    assert_eq!(ElementKind::AudioSource.factory_name(), "alsasrc");
    assert_eq!(ElementKind::AudioEncoder.factory_name(), "voaacenc");
    assert_eq!(ElementKind::Muxer.factory_name(), "matroskamux");
    assert_eq!(ElementKind::FileSink.factory_name(), "filesink");
}

#[test]
fn plan_has_the_fixed_topology() {
    let plan = recording_plan("out.mkv", FrameRate::F24);
    assert_eq!(plan.elements.len(), 19);
    assert_eq!(plan.links.len(), 16);
    assert_eq!(plan.pad_links.len(), 2);
    // The source feeds the tee, the muxer feeds the file sink.
    assert_eq!(plan.links[0].from, 0);
    assert_eq!(plan.links[0].to, 1);
    assert_eq!(plan.links[15].from, 17);
    assert_eq!(plan.links[15].to, 18);
    // The tee fans out to the recording queue and the preview queue.
    assert_eq!((plan.pad_links[0].tee, plan.pad_links[0].sink), (1, 2));
    assert_eq!((plan.pad_links[1].tee, plan.pad_links[1].sink), (1, 9));
    assert_eq!(plan.elements[1].kind, ElementKind::Tee);
    assert_eq!(plan.elements[12].kind, ElementKind::AppSink);
    assert_eq!(plan.elements[18].kind, ElementKind::FileSink);
}

#[test]
fn plan_element_names_are_unique() {
    let plan = recording_plan("out.mkv", FrameRate::F24);
    for (i, a) in plan.elements.iter().enumerate() {
        for (j, b) in plan.elements.iter().enumerate() {
            if i != j {
                assert_ne!(a.name, b.name);
            }
        }
    }
}

#[test]
fn file_sink_writes_to_the_given_location() {
    let plan = recording_plan("captures/session.mkv", FrameRate::F24);
    let sink = &plan.elements[18];
    assert_eq!(sink.name, "mkv-filesink");
    assert_eq!(sink.props.len(), 1);
    assert_eq!(sink.props[0].key, "location");
    assert_eq!(sink.props[0].value, PropValue::Text(String::from("captures/session.mkv")));
}

#[test]
fn raw_video_caps_carry_the_frame_rate() {
    let plan = recording_plan("out.mkv", FrameRate::F30);
    let filter = &plan.elements[5];
    assert_eq!(filter.name, "desktop-video-raw-caps");
    match &filter.props[0].value {
        PropValue::Caps(caps) => {
            assert_eq!(caps.media, "video/x-raw");
            assert_eq!(caps.fields.len(), 1);
            assert_eq!(caps.fields[0].key, "framerate");
            assert_eq!(caps.fields[0].value, CapsValue::Fraction(30, 1));
        },
        other => panic!("unexpected caps property: {:?}", other),
    }
}

#[test]
fn audio_caps_are_mono_at_forty_eight_khz() {
    let plan = recording_plan("out.mkv", FrameRate::F24);
    let filter = &plan.elements[14];
    assert_eq!(filter.name, "desktop-raw-audio-caps");
    match &filter.props[0].value {
        PropValue::Caps(caps) => {
            assert_eq!(caps.media, "audio/x-raw");
            assert_eq!(caps.fields[1].key, "channels");
            assert_eq!(caps.fields[1].value, CapsValue::Int(1));
            assert_eq!(caps.fields[2].key, "rate");
            assert_eq!(caps.fields[2].value, CapsValue::Int(48000));
        },
        other => panic!("unexpected caps property: {:?}", other),
    }
}

#[test]
fn encoder_knobs_match_the_recording_profile() {
    let plan = recording_plan("out.mkv", FrameRate::F24);
    let enc = &plan.elements[6];
    assert_eq!(enc.kind, ElementKind::VideoEncoder);
    assert_eq!(enc.props[0].key, "intra-refresh");
    assert_eq!(enc.props[0].value, PropValue::Bool(true));
    assert_eq!(enc.props[1].value, PropValue::U32(0));
    assert_eq!(enc.props[2].value, PropValue::U32(30));
    assert_eq!(enc.props[3].value, PropValue::U32(36));
}

#[test]
fn preview_sink_asks_for_rgba_square_pixels() {
    let plan = recording_plan("out.mkv", FrameRate::F24);
    assert_eq!(plan.appsink_caps.media, "video/x-raw");
    assert_eq!(plan.appsink_caps.fields[0].key, "format");
    assert_eq!(plan.appsink_caps.fields[0].value, CapsValue::Text(String::from("RGBA")));
    assert_eq!(plan.appsink_caps.fields[1].key, "pixel-aspect-ratio");
    assert_eq!(plan.appsink_caps.fields[1].value, CapsValue::Fraction(1, 1));
}

#[test]
fn queues_are_bounded_by_bytes_alone() {
    let plan = recording_plan("out.mkv", FrameRate::F24);
    let preview_queue = &plan.elements[9];
    assert_eq!(preview_queue.name, "video_queue1");
    assert_eq!(preview_queue.props[0].key, "max-size-bytes");
    assert_eq!(preview_queue.props[0].value, PropValue::U32(512000000));
    assert_eq!(preview_queue.props[1].value, PropValue::U32(0));
    assert_eq!(preview_queue.props[2].value, PropValue::U64(0));
    let record_queue = &plan.elements[8];
    assert_eq!(record_queue.name, "desktop-video-queue-1");
    assert_eq!(record_queue.props[0].value, PropValue::U32(0));
}
