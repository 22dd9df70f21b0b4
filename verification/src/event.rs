//! What reaches the controller from the user interface, and what it asks of it.

use crate::data::{NowPlaying, Playable, PlaybackOrigin, QueueBehavior, QueueEntry};
use crate::duration::Duration;
use crate::media::{MediaMetadata, MediaPlayback};
use crate::player::{DoubleBits, ItemId, PlaybackItem, PlayerEvent};
use vstd::prelude::*;

verus! {

/// A report of the player, as it is passed on to the user interface.
#[derive(Clone, Copy, Debug, PartialEq, Eq, Structural)]
pub enum PlayerNotice {
    Loading(ItemId),
    Playing(ItemId, Duration),
    Progress(Duration),
    Pausing,
    Resuming,
    Blocked,
    Stopped,
}

/// The physical keys that the controller knows.
#[derive(Clone, Copy, Debug, PartialEq, Eq, Structural)]
pub enum Code {
    Space,
    ArrowRight,
    ArrowLeft,
    Other,
}

/// What a key stands for in the keyboard layout.
#[derive(Debug, PartialEq, Eq)]
pub enum KbKey {
    Character(String),
    Other,
}

/// A key that goes down.
#[derive(Debug, PartialEq, Eq)]
pub struct KeyEvent {
    pub code: Code,
    pub key: KbKey,
    pub shift: bool,
}

/// A list of items to play, and the one to start with.
#[derive(Debug, PartialEq, Eq)]
pub struct PlaybackPayload {
    pub origin: PlaybackOrigin,
    pub items: Vec<Playable>,
    pub position: usize,
}

/// An event of the user interface.
#[derive(Debug, PartialEq, Eq)]
pub enum Event {
    SetFocus,
    /// A report of the player. If it names an item, `queued` is the entry that the application has
    /// for that item in its queue.
    Notice { notice: PlayerNotice, queued: Option<QueueEntry> },
    PlayTracks(PlaybackPayload),
    PlayPause,
    PlayResume,
    PlayPrevious,
    PlayNext,
    PlayStop,
    AddToQueue { entry: QueueEntry, item: PlaybackItem },
    PlayQueueBehavior(QueueBehavior),
    /// Seek to a fraction of the item that plays.
    PlaySeek(DoubleBits),
    /// Seek to a position in milliseconds.
    SkipToPosition(u64),
    KeyDown(KeyEvent),
    /// Any other event.
    Other,
}

/// A change that the application makes to its own state.
#[derive(Debug, PartialEq, Eq)]
pub enum StateChange {
    LoadingPlayback { item: Playable, origin: PlaybackOrigin },
    StartPlayback { item: Playable, origin: PlaybackOrigin, progress: Duration },
    ProgressPlayback(Duration),
    PausePlayback,
    ResumePlayback,
    BlockPlayback,
    StopPlayback,
    AddQueuedEntry(QueueEntry),
    SetQueueBehavior(QueueBehavior),
}

/// A step that the controller asks of its surroundings.
#[derive(Debug, PartialEq, Eq)]
pub enum Action {
    /// Take the keyboard focus.
    RequestFocus,
    /// Make the change, then ask the controller what follows from it.
    Apply(StateChange),
    /// Show this state of playback in the media controls.
    SetMediaPlayback(MediaPlayback),
    /// Show this item in the media controls.
    SetMediaMetadata(MediaMetadata),
    /// Show the lyrics of this item.
    ShowLyrics(NowPlaying),
    /// Seek to this fraction of this length.
    SeekToFraction { duration: Duration, fraction: DoubleBits },
    /// Turn the volume up by a tenth, to full volume at most.
    RaiseVolume,
    /// Turn the volume down by a tenth, to silence at most.
    LowerVolume,
    /// Mark the event as handled.
    SetHandled,
    /// Pass the event on to the child widget.
    ForwardToChild,
}

/// How the controller has reacted.
#[derive(Debug, PartialEq, Eq)]
pub struct Reaction {
    /// The order that did not reach the player because it is gone, to be logged.
    pub refused: Option<PlayerEvent>,
    /// The steps that are left to take, in their order.
    pub actions: Vec<Action>,
}

/// A step that a message on the player's channel calls for.
#[derive(Clone, Copy, Debug, PartialEq, Eq, Structural)]
pub enum ServiceAction {
    /// Send the controller's widget this notice.
    Forward(PlayerNotice),
    /// Let the player react to the message.
    Handle,
}

/// A step that a change of the application's state calls for.
#[derive(Clone, Copy, Debug, PartialEq, Eq, Structural)]
pub enum UpdateAction {
    /// Update the child widget.
    ForwardToChild,
}

/// How the controller has reacted to a change of the application's state.
#[derive(Debug, PartialEq, Eq)]
pub struct UpdateReaction {
    /// The order that did not reach the player because it is gone, to be logged.
    pub refused: Option<PlayerEvent>,
    /// The steps that are left to take, in their order.
    pub actions: Vec<UpdateAction>,
}

/// An event in the life of the controller's widget.
#[derive(Clone, Copy, Debug, PartialEq, Eq, Structural)]
pub enum LifeCycle {
    WidgetAdded,
    /// The keyboard focus has moved; `to_nowhere` if no widget has it now.
    RouteFocusChanged { to_nowhere: bool },
    Other,
}

/// A step that a [`LifeCycle`] event calls for.
#[derive(Clone, Copy, Debug, PartialEq, Eq, Structural)]
pub enum LifeCycleAction {
    /// Open the audio output and start the player, then tell the controller.
    OpenPlayer,
    /// Send the controller's widget a [`Event::SetFocus`].
    SubmitSetFocus,
    /// Pass the event on to the child widget.
    ForwardToChild,
}

} // verus!
