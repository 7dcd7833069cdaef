//! Application state and the plain data types that playback works with.
use vstd::prelude::*;
use vstd::string::StringExecFns;

verus! {

/// Colour theme of the application window.
#[derive(Copy, Clone, Debug, Eq, PartialEq, Structural)]
pub enum Theme {
    Light,
    Dark,
}

impl Default for Theme {
    fn default() -> (r: Self)
        ensures
            r == Theme::Light,
    {
        Theme::Light
    }
}

/// State owned by the video view: the record toggle shown in the control panel.
#[derive(Copy, Clone, Debug, Eq, PartialEq, Structural)]
pub struct VideoViewState {
    pub camara_record: bool,
}

/// Top-level widget state: the video view's state and the chosen theme.
#[derive(Copy, Clone, Debug, Eq, PartialEq, Structural)]
pub struct AppState {
    pub video: VideoViewState,
    pub theme: Theme,
}

impl AppState {
    /// The state the application starts in: not recording, light theme.
    pub fn new() -> (r: Self)
        ensures
            r.video.camara_record == false,
            r.theme == Theme::Light,
    {
        AppState { video: VideoViewState { camara_record: false }, theme: Theme::Light }
    }
}

/// Coarse playback status, a terminal-free cycle: `Stopped` may re-enter `Playing`.
#[derive(Copy, Clone, Debug, Eq, PartialEq, Structural)]
pub enum VideoPlayerState {
    Playing,
    Paused,
    Stopped,
}

/// Preset playback-rate choices offered by the transport panel.
#[derive(Copy, Clone, Debug, Eq, PartialEq, Structural, PartialOrd, Ord)]
pub enum VideoRate {
    D2,
    D5,
    M,
    I2,
    I5,
    I20,
}

/// Position in the media, either as elapsed time or as a frame ordinal.
#[derive(Copy, Clone, Debug, Eq, PartialEq, Structural, Hash)]
pub enum Position {
    /// Position based on time, in nanoseconds.
    ///
    /// Not the most accurate format for videos.
    Time(u64),
    /// Position based on nth frame.
    Frame(u64),
}

/// A position expressed in the units the media engine seeks by: a clock time in
/// nanoseconds, or a count in the engine's default (frame) format.
#[derive(Copy, Clone, Debug, Eq, PartialEq, Structural)]
pub enum FormattedValue {
    ClockTimeNanos(u64),
    DefaultFrames(u64),
}

impl Position {
    /// Render the position in the engine's formatted units: time positions as
    /// clock nanoseconds, frame positions as default-format counts.
    pub fn to_formatted(&self) -> (r: FormattedValue)
        ensures
            r == (match *self {
                Position::Time(nanos) => FormattedValue::ClockTimeNanos(nanos),
                Position::Frame(f) => FormattedValue::DefaultFrames(f),
            }),
    {
        match *self {
            Position::Time(nanos) => FormattedValue::ClockTimeNanos(nanos),
            Position::Frame(f) => FormattedValue::DefaultFrames(f),
        }
    }
}

impl From<u64> for Position {
    /// A bare integer names the nth frame.
    fn from(f: u64) -> (r: Self) {
        Position::Frame(f)
    }
}

impl vstd::std_specs::convert::FromSpecImpl<u64> for Position {
    open spec fn obeys_from_spec() -> bool {
        true
    }

    open spec fn from_spec(f: u64) -> Self {
        Position::Frame(f)
    }
}

/// Everything that can go wrong while assembling or driving a pipeline.
/// Variants that wrap an engine-reported failure carry its message as text.
#[derive(Clone, Debug, Eq, PartialEq)]
pub enum VideoError {
    /// A general failure reported by the engine's runtime.
    Glib(String),
    /// A boolean-flavoured failure reported by the engine's runtime.
    Bool(String),
    /// The pipeline had no message bus.
    Bus,
    /// A state transition was refused.
    StateChange,
    /// An element could not be cast to the interface the caller needed.
    Cast,
    /// An input/output failure, with its message.
    Io(String),
    /// The media source string was not a valid URI.
    Uri,
    /// The media's capabilities could not be read.
    Caps,
    /// The media's duration or position could not be queried.
    Duration,
    /// Synchronising with playback failed.
    Sync,
    /// Delivery towards the UI event loop failed.
    ExtEventError,
    /// Linking two pads failed.
    PadLinkError,
    /// A per-sample callback reported a flow failure.
    FlowError,
    /// Any other wrapped failure, with its message.
    Other(String),
}

/// The text that `VideoError::message` returns for each variant.
pub open spec fn error_message_spec(e: VideoError) -> Seq<char> {
    match e {
        VideoError::Glib(s) => s@,
        VideoError::Bool(s) => s@,
        VideoError::Bus => "failed to get the gstreamer bus"@,
        VideoError::StateChange => "failed to change the pipeline state"@,
        VideoError::Cast => "failed to cast gstreamer element"@,
        VideoError::Io(s) => s@,
        VideoError::Uri => "invalid URI"@,
        VideoError::Caps => "failed to get media capabilities"@,
        VideoError::Duration => "failed to query media duration or position"@,
        VideoError::Sync => "failed to sync with playback"@,
        VideoError::ExtEventError => "failed to deliver an event to the UI"@,
        VideoError::PadLinkError => "failed to link pads"@,
        VideoError::FlowError => "flow error in a sample callback"@,
        VideoError::Other(s) => s@,
    }
}

impl VideoError {
    /// A human-readable description of the error.
    pub fn message(&self) -> (r: String)
        ensures
            r@ == error_message_spec(*self),
    {
        match self {
            VideoError::Glib(s) => s.clone(),
            VideoError::Bool(s) => s.clone(),
            VideoError::Bus => String::from_str("failed to get the gstreamer bus"),
            VideoError::StateChange => String::from_str("failed to change the pipeline state"),
            VideoError::Cast => String::from_str("failed to cast gstreamer element"),
            VideoError::Io(s) => s.clone(),
            VideoError::Uri => String::from_str("invalid URI"),
            VideoError::Caps => String::from_str("failed to get media capabilities"),
            VideoError::Duration => String::from_str("failed to query media duration or position"),
            VideoError::Sync => String::from_str("failed to sync with playback"),
            VideoError::ExtEventError => String::from_str("failed to deliver an event to the UI"),
            VideoError::PadLinkError => String::from_str("failed to link pads"),
            VideoError::FlowError => String::from_str("flow error in a sample callback"),
            VideoError::Other(s) => s.clone(),
        }
    }
}

} // verus!
