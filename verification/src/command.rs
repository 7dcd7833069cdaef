//! The command vocabulary between the widget tree and playback.
//!
//! Commands flow one way from widget handlers into playback control, and a
//! smaller set flows back carrying frames or status changes. Each command is
//! addressed by a selector string; the selectors are pairwise distinct, so no
//! two commands can collide on the event queue.
use vstd::prelude::*;

use crate::frame::Frame;

verus! {

/// A named, typed command. Times are carried in nanoseconds; volume and rate
/// are carried in permille of full scale and of natural speed.
#[derive(Clone, Debug, Eq, PartialEq)]
pub enum Command {
    /// Playback has started; carries the media duration.
    PlaybackPlaying(u64),
    /// Progress report, in elapsed seconds.
    PlaybackProgress(u64),
    /// Duration report, in seconds.
    PlaybackDuration(u64),
    PlaybackPausing,
    PlaybackResuming,
    PlaybackBlocked,
    PlaybackStopped,
    /// Play the media at this index of the play list.
    Play(usize),
    PlayPrevious,
    PlayPause,
    PlayResume,
    PlayNext,
    PlayStop,
    /// Seek to this position, in seconds.
    PlaySeek(u64),
    PlayVolume(u32),
    PlayRate(u32),
    /// A decoded frame on its way to the video display.
    VideoFrame(Frame),
}

/// The selector string that addresses each command.
pub open spec fn selector_id_spec(c: Command) -> Seq<char> {
    match c {
        Command::PlaybackPlaying(_) => "app.playback-playing"@,
        Command::PlaybackProgress(_) => "app.playback-progress"@,
        Command::PlaybackDuration(_) => "app.playback-duration"@,
        Command::PlaybackPausing => "app.playback-pausing"@,
        Command::PlaybackResuming => "app.playback-resuming"@,
        Command::PlaybackBlocked => "app.playback-blocked"@,
        Command::PlaybackStopped => "app.playback-stopped"@,
        Command::Play(_) => "app.play-index"@,
        Command::PlayPrevious => "app.play-previous"@,
        Command::PlayPause => "app.play-pause"@,
        Command::PlayResume => "app.play-resume"@,
        Command::PlayNext => "app.play-next"@,
        Command::PlayStop => "app.play-stop"@,
        Command::PlaySeek(_) => "app.play-seek"@,
        Command::PlayVolume(_) => "app.play-volume"@,
        Command::PlayRate(_) => "app.play-rate"@,
        Command::VideoFrame(_) => "app.video-frame"@,
    }
}

/// Which way a command flows between the widget tree and playback.
#[derive(Copy, Clone, Debug, Eq, PartialEq, Structural)]
pub enum CommandDirection {
    /// From a widget event handler into playback control.
    Control,
    /// From the pipeline back to the UI, carrying a frame or a status change.
    Status,
}

/// The flow of each command: the playback reports and the frames come back
/// from the pipeline; everything else is the UI steering playback.
pub open spec fn direction_spec(c: Command) -> CommandDirection {
    match c {
        Command::PlaybackPlaying(_) => CommandDirection::Status,
        Command::PlaybackProgress(_) => CommandDirection::Status,
        Command::PlaybackDuration(_) => CommandDirection::Status,
        Command::PlaybackPausing => CommandDirection::Status,
        Command::PlaybackResuming => CommandDirection::Status,
        Command::PlaybackBlocked => CommandDirection::Status,
        Command::PlaybackStopped => CommandDirection::Status,
        Command::VideoFrame(_) => CommandDirection::Status,
        _ => CommandDirection::Control,
    }
}

/// A number distinguishing the command's variant, ignoring its payload.
pub open spec fn selector_tag(c: Command) -> int {
    match c {
        Command::PlaybackPlaying(_) => 0,
        Command::PlaybackProgress(_) => 1,
        Command::PlaybackDuration(_) => 2,
        Command::PlaybackPausing => 3,
        Command::PlaybackResuming => 4,
        Command::PlaybackBlocked => 5,
        Command::PlaybackStopped => 6,
        Command::Play(_) => 7,
        Command::PlayPrevious => 8,
        Command::PlayPause => 9,
        Command::PlayResume => 10,
        Command::PlayNext => 11,
        Command::PlayStop => 12,
        Command::PlaySeek(_) => 13,
        Command::PlayVolume(_) => 14,
        Command::PlayRate(_) => 15,
        Command::VideoFrame(_) => 16,
    }
}

impl Command {
    /// The selector string that addresses this command on the event queue.
    pub fn selector_id(&self) -> (r: &'static str)
        ensures
            r@ == selector_id_spec(*self),
    {
        match self {
            Command::PlaybackPlaying(_) => "app.playback-playing",
            Command::PlaybackProgress(_) => "app.playback-progress",
            Command::PlaybackDuration(_) => "app.playback-duration",
            Command::PlaybackPausing => "app.playback-pausing",
            Command::PlaybackResuming => "app.playback-resuming",
            Command::PlaybackBlocked => "app.playback-blocked",
            Command::PlaybackStopped => "app.playback-stopped",
            Command::Play(_) => "app.play-index",
            Command::PlayPrevious => "app.play-previous",
            Command::PlayPause => "app.play-pause",
            Command::PlayResume => "app.play-resume",
            Command::PlayNext => "app.play-next",
            Command::PlayStop => "app.play-stop",
            Command::PlaySeek(_) => "app.play-seek",
            Command::PlayVolume(_) => "app.play-volume",
            Command::PlayRate(_) => "app.play-rate",
            Command::VideoFrame(_) => "app.video-frame",
        }
    }

    /// Which way this command flows.
    pub fn direction(&self) -> (r: CommandDirection)
        ensures
            r == direction_spec(*self),
    {
        match self {
            Command::PlaybackPlaying(_)
            | Command::PlaybackProgress(_)
            | Command::PlaybackDuration(_)
            | Command::PlaybackPausing
            | Command::PlaybackResuming
            | Command::PlaybackBlocked
            | Command::PlaybackStopped
            | Command::VideoFrame(_) => CommandDirection::Status,
            _ => CommandDirection::Control,
        }
    }
}

/// A decision tree that recovers a selector's command kind from its length
/// and a few of its characters. It exists only to drive the injectivity proof.
spec fn selector_fingerprint(s: Seq<char>) -> int {
    if s.len() == 20 {
        if s[13] == 'b' {
            5
        } else if s[13] == 's' {
            6
        } else if s[14] == 'a' {
            3
        } else {
            0
        }
    } else if s.len() == 21 {
        if s[13] == 'p' {
            1
        } else if s[13] == 'd' {
            2
        } else {
            4
        }
    } else if s.len() == 14 {
        if s[9] == 'i' {
            7
        } else {
            9
        }
    } else if s.len() == 17 {
        8
    } else if s.len() == 15 {
        if s[9] == 'r' {
            10
        } else if s[9] == 'v' {
            14
        } else {
            16
        }
    } else if s.len() == 13 {
        if s[9] == 'n' {
            11
        } else if s[9] == 'r' {
            15
        } else if s[10] == 't' {
            12
        } else {
            13
        }
    } else {
        -1
    }
}

/// Every command's selector fingerprints back to its own kind.
proof fn lemma_selector_fingerprint(c: Command)
    ensures
        selector_fingerprint(selector_id_spec(c)) == selector_tag(c),
{
    reveal_strlit("app.playback-playing");
    reveal_strlit("app.playback-progress");
    reveal_strlit("app.playback-duration");
    reveal_strlit("app.playback-pausing");
    reveal_strlit("app.playback-resuming");
    reveal_strlit("app.playback-blocked");
    reveal_strlit("app.playback-stopped");
    reveal_strlit("app.play-index");
    reveal_strlit("app.play-previous");
    reveal_strlit("app.play-pause");
    reveal_strlit("app.play-resume");
    reveal_strlit("app.play-next");
    reveal_strlit("app.play-stop");
    reveal_strlit("app.play-seek");
    reveal_strlit("app.play-volume");
    reveal_strlit("app.play-rate");
    reveal_strlit("app.video-frame");
}

/// Selectors are injective: two commands share a selector string only when
/// they are the same kind of command. In particular the progress and duration
/// reports, which the event queue must tell apart, have distinct selectors.
pub proof fn lemma_selector_ids_injective(a: Command, b: Command)
    requires
        selector_id_spec(a) == selector_id_spec(b),
    ensures
        selector_tag(a) == selector_tag(b),
{
    lemma_selector_fingerprint(a);
    lemma_selector_fingerprint(b);
}

} // verus!
