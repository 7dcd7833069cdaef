use druid_camera::command::Command;
use druid_camera::data::VideoViewState;
use druid_camera::frame::{Frame, PixelFormat};
use druid_camera::player::EngineState;
use druid_camera::widget::{click_record, panel_widget, root_widget, LifeCycleEvent, VideoView,
    WidgetNode};

#[test]
fn panel_is_one_row_with_the_record_toggle() {
    let w = panel_widget();
    match w {
        WidgetNode::Row(children) => {
            assert_eq!(children.len(), 1);
            assert_eq!(children[0], WidgetNode::RecordToggle);
        },
        _ => panic!("panel is not a row"),
    }
}

#[test]
fn root_stacks_display_over_panel() {
    let w = root_widget();
    match w {
        WidgetNode::Column(rows) => {
            assert_eq!(rows.len(), 2);
            assert_eq!(rows[0], WidgetNode::VideoDisplay);
            assert!(matches!(rows[1], WidgetNode::Row(_)));
        },
        _ => panic!("root is not a column"),
    }
}

#[test]
fn three_record_clicks_alternate_resume_and_pause() {
    let mut state = VideoViewState { camara_record: false };
    let first = click_record(&mut state);
    assert_eq!(first, Command::PlayResume);
    assert!(state.camara_record);
    let second = click_record(&mut state);
    assert_eq!(second, Command::PlayPause);
    assert!(!state.camara_record);
    let third = click_record(&mut state);
    assert_eq!(third, Command::PlayResume);
    assert!(state.camara_record);
}

#[test]
fn fresh_view_is_empty() {
    let v = VideoView::new();
    assert!(v.frame.is_none());
    assert!(v.player.is_none());
}

#[test]
fn frame_command_replaces_the_display_and_repaints() {
    let mut v = VideoView::new();
    let frame = Frame::from_raw(vec![9u8; 4], PixelFormat::RgbaSeparate, 1, 1).unwrap();
    let repaint = v.event(Command::VideoFrame(frame));
    assert!(repaint);
    assert_eq!(v.frame.as_ref().unwrap().data, vec![9u8; 4]);
}

#[test]
fn pause_and_resume_drive_the_player() {
    let mut v = VideoView::new();
    let plan = v.lifecycle(LifeCycleEvent::WidgetAdded, ".media/druid.mkv");
    assert!(plan.is_some());
    assert_eq!(v.player.as_ref().unwrap().state, EngineState::Null);
    let repaint = v.event(Command::PlayResume);
    assert!(!repaint);
    assert_eq!(v.player.as_ref().unwrap().state, EngineState::Playing);
    let repaint = v.event(Command::PlayPause);
    assert!(!repaint);
    assert_eq!(v.player.as_ref().unwrap().state, EngineState::Paused);
}

#[test]
fn pause_without_a_player_changes_nothing() {
    let mut v = VideoView::new();
    let repaint = v.event(Command::PlayPause);
    assert!(!repaint);
    assert!(v.player.is_none());
    assert!(v.frame.is_none());
}

#[test]
fn unrelated_commands_leave_the_view_alone() {
    let mut v = VideoView::new();
    let repaint = v.event(Command::PlaybackStopped);
    assert!(!repaint);
    assert!(v.frame.is_none());
    assert!(v.player.is_none());
}

#[test]
fn other_lifecycle_events_do_nothing() {
    let mut v = VideoView::new();
    let plan = v.lifecycle(LifeCycleEvent::Other, ".media/druid.mkv");
    assert!(plan.is_none());
    assert!(v.player.is_none());
}
