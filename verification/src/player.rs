//! What the controller and the player tell each other.

use crate::duration::Duration;
use vstd::prelude::*;

verus! {

/// The bit pattern of an IEEE 754 double. Two doubles are the same datum when their patterns are.
#[derive(Clone, Copy, Debug, PartialEq, Eq, Structural)]
pub struct DoubleBits {
    pub bits: u64,
}

/// What sort of media an item is.
#[derive(Clone, Copy, Debug, PartialEq, Eq, Structural)]
pub enum ItemIdType {
    Track,
    Podcast,
    Unknown,
}

/// The identity of a playable item.
#[derive(Clone, Copy, Debug, PartialEq, Eq, Structural)]
pub struct ItemId {
    pub id: u128,
    pub id_type: ItemIdType,
}

/// Whether loudness is evened out over an album or over a single track.
#[derive(Clone, Copy, Debug, PartialEq, Eq, Structural)]
pub enum NormalizationLevel {
    Track,
    Album,
}

/// One entry of the player's queue.
#[derive(Clone, Copy, Debug, PartialEq, Eq, Structural)]
pub struct PlaybackItem {
    pub item_id: ItemId,
    pub norm_level: NormalizationLevel,
}

/// The order in which the player goes through its queue.
#[derive(Clone, Copy, Debug, PartialEq, Eq, Structural)]
pub enum QueueBehavior {
    Sequential,
    Random,
    LoopTrack,
    LoopAll,
}

/// An order to the player.
#[allow(inconsistent_fields)]
#[derive(Debug, PartialEq, Eq)]
pub enum PlayerCommand {
    LoadQueue { items: Vec<PlaybackItem>, position: usize },
    Pause,
    Resume,
    PauseOrResume,
    Previous,
    Next,
    Stop,
    Seek { position: Duration },
    SetVolume { volume: DoubleBits },
    AddToQueue { item: PlaybackItem },
    SetQueueBehavior { behavior: QueueBehavior },
}

/// The media file that an item is played from.
#[derive(Clone, Copy, Debug, PartialEq, Eq, Structural)]
pub struct MediaPath {
    pub item_id: ItemId,
}

/// A message on the player's channel: an order to it, or a report of what it does.
#[derive(Debug, PartialEq, Eq)]
pub enum PlayerEvent {
    Command(PlayerCommand),
    Loading { item: PlaybackItem },
    Playing { path: MediaPath, position: Duration },
    Pausing,
    Resuming,
    Position { position: Duration },
    Blocked,
    Stopped,
    /// A message that concerns the player alone, which knows it by this number.
    Internal(u64),
}

/// [`PlayerCommand`] with its queue as a mathematical sequence.
#[allow(inconsistent_fields)]
pub enum CommandView {
    LoadQueue { items: Seq<PlaybackItem>, position: nat },
    Pause,
    Resume,
    PauseOrResume,
    Previous,
    Next,
    Stop,
    Seek { position: Duration },
    SetVolume { volume: DoubleBits },
    AddToQueue { item: PlaybackItem },
    SetQueueBehavior { behavior: QueueBehavior },
}

impl View for PlayerCommand {
    type V = CommandView;

    open spec fn view(&self) -> CommandView {
        match self {
            PlayerCommand::LoadQueue { items, position } => CommandView::LoadQueue {
                items: items@,
                position: *position as nat,
            },
            PlayerCommand::Pause => CommandView::Pause,
            PlayerCommand::Resume => CommandView::Resume,
            PlayerCommand::PauseOrResume => CommandView::PauseOrResume,
            PlayerCommand::Previous => CommandView::Previous,
            PlayerCommand::Next => CommandView::Next,
            PlayerCommand::Stop => CommandView::Stop,
            PlayerCommand::Seek { position } => CommandView::Seek { position: *position },
            PlayerCommand::SetVolume { volume } => CommandView::SetVolume { volume: *volume },
            PlayerCommand::AddToQueue { item } => CommandView::AddToQueue { item: *item },
            PlayerCommand::SetQueueBehavior { behavior } => CommandView::SetQueueBehavior {
                behavior: *behavior,
            },
        }
    }
}

/// [`PlayerEvent`] over [`CommandView`].
pub enum EventView {
    Command(CommandView),
    Loading { item: PlaybackItem },
    Playing { path: MediaPath, position: Duration },
    Pausing,
    Resuming,
    Position { position: Duration },
    Blocked,
    Stopped,
    Internal(u64),
}

impl View for PlayerEvent {
    type V = EventView;

    open spec fn view(&self) -> EventView {
        match self {
            PlayerEvent::Command(command) => EventView::Command(command@),
            PlayerEvent::Loading { item } => EventView::Loading { item: *item },
            PlayerEvent::Playing { path, position } => EventView::Playing {
                path: *path,
                position: *position,
            },
            PlayerEvent::Pausing => EventView::Pausing,
            PlayerEvent::Resuming => EventView::Resuming,
            PlayerEvent::Position { position } => EventView::Position { position: *position },
            PlayerEvent::Blocked => EventView::Blocked,
            PlayerEvent::Stopped => EventView::Stopped,
            PlayerEvent::Internal(number) => EventView::Internal(*number),
        }
    }
}

} // verus!
