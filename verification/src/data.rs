//! The part of the application's state that the controller reads.

use crate::duration::Duration;
use crate::player::{DoubleBits, ItemId};
use im::Vector;
use vstd::prelude::*;

verus! {

/// An album as a track refers to it.
#[derive(Debug, PartialEq, Eq)]
pub struct AlbumLink {
    pub name: String,
}

impl Clone for AlbumLink {
    fn clone(&self) -> (copy: Self)
        ensures
            copy == *self,
    {
        AlbumLink { name: self.name.clone() }
    }
}

/// What is known of an item that is a music track.
#[derive(Debug, PartialEq, Eq)]
pub struct Track {
    pub album: Option<AlbumLink>,
    pub artist_name: String,
}

impl Clone for Track {
    fn clone(&self) -> (copy: Self)
        ensures
            copy == *self,
    {
        Track {
            album: match &self.album {
                Some(album) => Some(album.clone()),
                None => None,
            },
            artist_name: self.artist_name.clone(),
        }
    }
}

/// Anything that can be played: a track, or an item without track data such as an episode.
#[derive(Debug, PartialEq, Eq)]
pub struct Playable {
    pub id: ItemId,
    pub name: String,
    pub duration: Duration,
    pub track: Option<Track>,
}

impl Clone for Playable {
    fn clone(&self) -> (copy: Self)
        ensures
            copy == *self,
    {
        Playable {
            id: self.id,
            name: self.name.clone(),
            duration: self.duration,
            track: match &self.track {
                Some(track) => Some(track.clone()),
                None => None,
            },
        }
    }
}

/// Where in the application an item was started from. The string tells one album, or one other
/// place, from the next.
#[derive(Debug, PartialEq, Eq)]
pub enum PlaybackOrigin {
    Album(String),
    Other(String),
}

impl Clone for PlaybackOrigin {
    fn clone(&self) -> (copy: Self)
        ensures
            copy == *self,
    {
        match self {
            PlaybackOrigin::Album(key) => PlaybackOrigin::Album(key.clone()),
            PlaybackOrigin::Other(key) => PlaybackOrigin::Other(key.clone()),
        }
    }
}

/// An item of the application's queue.
#[derive(Debug, PartialEq, Eq)]
pub struct QueueEntry {
    pub item: Playable,
    pub origin: PlaybackOrigin,
}

impl Clone for QueueEntry {
    fn clone(&self) -> (copy: Self)
        ensures
            copy == *self,
    {
        QueueEntry { item: self.item.clone(), origin: self.origin.clone() }
    }
}

/// The width and the height, in pixels, of the cover image that the media controls show.
pub const COVER_SIZE: u32 = 512;

/// The item that is loaded or playing, and how far it has come.
#[derive(Debug, PartialEq, Eq)]
pub struct NowPlaying {
    pub item: Playable,
    pub origin: PlaybackOrigin,
    pub progress: Duration,
    /// The address of the cover image that suits a square of [`COVER_SIZE`] pixels.
    pub cover_image_url: Option<String>,
}

impl Clone for NowPlaying {
    fn clone(&self) -> (copy: Self)
        ensures
            copy == *self,
    {
        NowPlaying {
            item: self.item.clone(),
            origin: self.origin.clone(),
            progress: self.progress,
            cover_image_url: match &self.cover_image_url {
                Some(url) => Some(url.clone()),
                None => None,
            },
        }
    }
}

/// What the player is doing, as the interface shows it.
#[derive(Clone, Copy, Debug, PartialEq, Eq, Structural)]
pub enum PlaybackState {
    Loading,
    Playing,
    Paused,
    Stopped,
}

/// The queue order that the user has chosen.
#[derive(Clone, Copy, Debug, PartialEq, Eq, Structural)]
pub enum QueueBehavior {
    Sequential,
    Random,
    LoopTrack,
    LoopAll,
}

/// The state of playback.
pub struct Playback {
    pub state: PlaybackState,
    pub now_playing: Option<NowPlaying>,
    pub queue_behavior: QueueBehavior,
    pub queue: Vector<QueueEntry>,
    pub volume: DoubleBits,
}

/// The page that the application shows.
#[derive(Clone, Copy, Debug, PartialEq, Eq, Structural)]
pub enum Nav {
    Lyrics,
    Elsewhere,
}

/// The user's settings.
#[derive(Clone, Copy, Debug, PartialEq, Eq, Structural)]
pub struct Config {
    /// How far an arrow key seeks, in seconds.
    pub seek_duration: usize,
}

/// The application's state.
pub struct AppState {
    pub playback: Playback,
    pub nav: Nav,
    pub config: Config,
}

} // verus!
