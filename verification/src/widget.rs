//! The widget tree and what its event handlers decide.
//!
//! The toolkit draws the widgets; what is verified here is their composition
//! and the state changes and commands each interaction produces.
use vstd::prelude::*;

use crate::command::Command;
use crate::data::VideoViewState;
use crate::frame::Frame;
use crate::pipeline::{plan_matches, FrameRate, PipelinePlan};
use crate::player::{EngineState, VideoPlayer};

verus! {

/// The widget tree, declaratively: a node is a display region, a control, or
/// a stack of children.
#[derive(Debug, Eq, PartialEq)]
pub enum WidgetNode {
    /// The region the current frame is painted into.
    VideoDisplay,
    /// The record toggle: one button showing "Start Record" or "Stop Record".
    RecordToggle,
    /// Children stacked top to bottom.
    Column(Vec<WidgetNode>),
    /// Children laid out left to right.
    Row(Vec<WidgetNode>),
}

/// The transport-control panel: one row holding the record toggle.
pub fn panel_widget() -> (w: WidgetNode)
    ensures
        w matches WidgetNode::Row(children) && children@.len() == 1 && children@[0]
            == WidgetNode::RecordToggle,
{
    let mut children: Vec<WidgetNode> = Vec::new();
    children.push(WidgetNode::RecordToggle);
    WidgetNode::Row(children)
}

/// The root of the UI: a column stacking the flexible video display over the
/// fixed-height control panel.
pub fn root_widget() -> (w: WidgetNode)
    ensures
        w matches WidgetNode::Column(rows) && rows@.len() == 2 && rows@[0]
            == WidgetNode::VideoDisplay && (rows@[1] matches WidgetNode::Row(children)
            && children@.len() == 1 && children@[0] == WidgetNode::RecordToggle),
{
    let mut rows: Vec<WidgetNode> = Vec::new();
    rows.push(WidgetNode::VideoDisplay);
    rows.push(panel_widget());
    WidgetNode::Column(rows)
}

/// One click of the record toggle: flips the record flag and emits exactly
/// one transport command — resume when recording starts, pause when it stops.
pub fn click_record(state: &mut VideoViewState) -> (cmd: Command)
    ensures
        final (state).camara_record == !old(state).camara_record,
        cmd == (if old(state).camara_record {
            Command::PlayPause
        } else {
            Command::PlayResume
        }),
{
    if !state.camara_record {
        state.camara_record = true;
        Command::PlayResume
    } else {
        state.camara_record = false;
        Command::PlayPause
    }
}

/// The video view: the frame on display and the player it owns once the
/// widget has been added to the tree.
pub struct VideoView {
    pub frame: Option<Frame>,
    pub player: Option<VideoPlayer>,
}

/// The view's player, if present, was driven to `s`, all else untouched.
pub open spec fn player_driven_to(
    before: Option<VideoPlayer>,
    after: Option<VideoPlayer>,
    s: EngineState,
) -> bool {
    match before {
        Option::None => after is None,
        Option::Some(p) => after matches Option::Some(q) && q.pipeline_state() == s && q.paused
            == p.paused && q.muted == p.muted,
    }
}

/// The lifecycle notifications the view reacts to.
#[derive(Copy, Clone, Debug, Eq, PartialEq, Structural)]
pub enum LifeCycleEvent {
    /// The view has just been added to the widget tree.
    WidgetAdded,
    /// Anything else.
    Other,
}

impl VideoView {
    /// A fresh view: no frame on display, no player yet.
    pub fn new() -> (v: Self)
        ensures
            v.frame is None,
            v.player is None,
    {
        VideoView { frame: None, player: None }
    }

    /// Handle one command arriving at the view. A frame replaces the display
    /// and asks for a repaint; pause and resume drive the player's pipeline;
    /// everything else leaves the view untouched.
    pub fn event(&mut self, cmd: Command) -> (repaint: bool)
        ensures
            cmd matches Command::VideoFrame(f) ==> final (self).frame == Some(f)
                && final (self).player == old(self).player && repaint == true,
            cmd == Command::PlayPause ==> final (self).frame == old(self).frame
                && player_driven_to(old(self).player, final (self).player, EngineState::Paused)
                && repaint == false,
            cmd == Command::PlayResume ==> final (self).frame == old(self).frame
                && player_driven_to(old(self).player, final (self).player, EngineState::Playing)
                && repaint == false,
            !(cmd matches Command::VideoFrame(_)) && cmd != Command::PlayPause && cmd
                != Command::PlayResume ==> *final (self) == *old(self) && repaint == false,
    {
        match cmd {
            Command::VideoFrame(f) => {
                self.frame = Some(f);
                true
            },
            Command::PlayPause => {
                if let Some(player) = &mut self.player {
                    player.set_state(EngineState::Paused);
                }
                false
            },
            Command::PlayResume => {
                if let Some(player) = &mut self.player {
                    player.set_state(EngineState::Playing);
                }
                false
            },
            _ => false,
        }
    }

    /// React to a lifecycle notification: on being added to the tree the view
    /// creates its player and hands back the plan of the pipeline the engine
    /// is to assemble for it.
    pub fn lifecycle(&mut self, event: LifeCycleEvent, uri: &str) -> (plan: Option<PipelinePlan>)
        ensures
            event == LifeCycleEvent::WidgetAdded ==> (final (self).player matches Some(p)
                && p.paused == false && p.muted == false && p.pipeline_state()
                == EngineState::Null) && final (self).frame == old(self).frame
                && (plan matches Some(pl) && plan_matches(pl, uri@, FrameRate::F24) && pl.wf()),
            event == LifeCycleEvent::Other ==> *final (self) == *old(self) && plan is None,
    {
        match event {
            LifeCycleEvent::WidgetAdded => {
                let (player, plan) = VideoPlayer::new(uri);
                self.player = Some(player);
                Some(plan)
            },
            LifeCycleEvent::Other => None,
        }
    }
}

} // verus!
