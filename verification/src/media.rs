//! What the controller and the operating system's media controls tell each other.

use crate::duration::Duration;
use crate::player::DoubleBits;
use vstd::prelude::*;

verus! {

/// A position in the item that plays.
#[derive(Clone, Copy, Debug, PartialEq, Eq, Structural)]
pub struct MediaPosition(pub Duration);

/// Which way to seek.
#[derive(Clone, Copy, Debug, PartialEq, Eq, Structural)]
pub enum SeekDirection {
    Forward,
    Backward,
}

/// A request that comes in from the media controls.
#[derive(Debug, PartialEq, Eq)]
pub enum MediaControlEvent {
    Play,
    Pause,
    Toggle,
    Next,
    Previous,
    Stop,
    Seek(SeekDirection),
    SeekBy(SeekDirection, Duration),
    SetPosition(MediaPosition),
    SetVolume(DoubleBits),
    OpenUri(String),
    Raise,
    Quit,
}

/// The state of playback as the media controls show it.
#[derive(Clone, Copy, Debug, PartialEq, Eq, Structural)]
pub enum MediaPlayback {
    Stopped,
    Paused { progress: Option<MediaPosition> },
    Playing { progress: Option<MediaPosition> },
}

/// What the media controls show of the item that plays.
#[derive(Debug, PartialEq, Eq)]
pub struct MediaMetadata {
    pub title: Option<String>,
    pub album: Option<String>,
    pub artist: Option<String>,
    pub duration: Option<Duration>,
    pub cover_url: Option<String>,
}

/// What the media controls are set up with.
#[derive(Debug, PartialEq, Eq)]
pub struct PlatformConfig {
    pub dbus_name: String,
    pub display_name: String,
    /// The address of the window's handle, on the systems that need one.
    pub hwnd: Option<usize>,
}

} // verus!
