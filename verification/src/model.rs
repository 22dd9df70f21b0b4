//! What each event means: the orders that it gives the player and the steps that it calls for.

use crate::data::{
    AppState, NowPlaying, Playable, Playback, PlaybackOrigin, PlaybackState, QueueBehavior,
    QueueEntry,
};
use crate::duration::{Duration, MAX_NANOS, NANOS_PER_MILLI, NANOS_PER_SEC};
use crate::event::{
    Action, Code, Event, KbKey, KeyEvent, LifeCycle, LifeCycleAction, PlaybackPayload,
    PlayerNotice, ServiceAction, StateChange, UpdateAction,
};
use crate::media::{MediaControlEvent, MediaMetadata, MediaPlayback, MediaPosition};
use crate::player;
use crate::player::{CommandView, EventView, NormalizationLevel, PlaybackItem, PlayerEvent};
use crate::queue::queue_entries;
use vstd::prelude::*;

verus! {

/// The message that carries `command`.
pub open spec fn order(command: CommandView) -> EventView {
    EventView::Command(command)
}

/// Of `events`, one message or none, what the player's channel has taken if `refused` came back.
pub open spec fn taken(events: Seq<EventView>, refused: Option<PlayerEvent>) -> Seq<EventView> {
    if refused is None {
        events
    } else {
        seq![]
    }
}

/// The loudness level for an item of this origin.
pub open spec fn norm_level(origin: PlaybackOrigin) -> NormalizationLevel {
    match origin {
        PlaybackOrigin::Album(_) => NormalizationLevel::Album,
        _ => NormalizationLevel::Track,
    }
}

/// A queue entry as the player gets it.
pub open spec fn playback_item(entry: QueueEntry) -> PlaybackItem {
    PlaybackItem { item_id: entry.item.id, norm_level: norm_level(entry.origin) }
}

/// A queue as the player gets it.
pub open spec fn playback_items(entries: Seq<QueueEntry>) -> Seq<PlaybackItem> {
    entries.map_values(|entry: QueueEntry| playback_item(entry))
}

/// The position to start at in a queue of `len` items: the one asked for, or the front if there is
/// no such item.
pub open spec fn start_position(position: nat, len: nat) -> nat {
    if position < len {
        position
    } else {
        0
    }
}

/// The order to play `entries` from `position` on.
pub open spec fn load_queue(entries: Seq<QueueEntry>, position: nat) -> CommandView {
    CommandView::LoadQueue {
        items: playback_items(entries),
        position: start_position(position, entries.len()),
    }
}

/// The same queue order in the player's terms.
pub open spec fn player_behavior(behavior: QueueBehavior) -> player::QueueBehavior {
    match behavior {
        QueueBehavior::Sequential => player::QueueBehavior::Sequential,
        QueueBehavior::Random => player::QueueBehavior::Random,
        QueueBehavior::LoopTrack => player::QueueBehavior::LoopTrack,
        QueueBehavior::LoopAll => player::QueueBehavior::LoopAll,
    }
}

/// The time that one arrow key press seeks, in nanoseconds.
pub open spec fn seek_step(data: AppState) -> nat {
    (data.config.seek_duration * NANOS_PER_SEC) as nat
}

/// Where a seek by `step` nanoseconds from `progress` ends in an item of this `duration`: not
/// before the start of the item, and not behind its end.
pub open spec fn seek_position(
    progress: Duration,
    step: nat,
    duration: Duration,
    forward: bool,
) -> Duration {
    let moved: int = if forward {
        progress.nanos + step
    } else if progress.nanos >= step {
        progress.nanos - step
    } else {
        0
    };
    Duration {
        nanos: if duration.nanos < moved {
            duration.nanos
        } else {
            moved as u128
        },
    }
}

/// The time that the seek steps to, before it is held to the item's end, is one that a span can
/// have.
pub open spec fn seek_in_range(data: AppState, forward: bool) -> bool {
    match data.playback.now_playing {
        Some(now_playing) => forward ==> now_playing.progress.nanos + seek_step(data) <= MAX_NANOS,
        None => true,
    }
}

/// The orders that an arrow key gives.
pub open spec fn seek_orders(data: AppState, forward: bool) -> Seq<EventView> {
    match data.playback.now_playing {
        Some(now_playing) => seq![
            order(
                CommandView::Seek {
                    position: seek_position(
                        now_playing.progress,
                        seek_step(data),
                        now_playing.item.duration,
                        forward,
                    ),
                },
            ),
        ],
        None => seq![],
    }
}

/// What the media controls show of this state of playback.
pub open spec fn media_playback(playback: Playback) -> MediaPlayback {
    let progress = match playback.now_playing {
        Some(now_playing) => Some(MediaPosition(now_playing.progress)),
        None => None,
    };
    match playback.state {
        PlaybackState::Loading | PlaybackState::Stopped => MediaPlayback::Stopped,
        PlaybackState::Playing => MediaPlayback::Playing { progress },
        PlaybackState::Paused => MediaPlayback::Paused { progress },
    }
}

/// What the media controls show of this item.
pub open spec fn media_metadata(now_playing: NowPlaying) -> MediaMetadata {
    MediaMetadata {
        title: Some(now_playing.item.name),
        album: match now_playing.item.track {
            Some(track) => match track.album {
                Some(album) => Some(album.name),
                None => None,
            },
            None => None,
        },
        artist: match now_playing.item.track {
            Some(track) => Some(track.artist_name),
            None => None,
        },
        duration: Some(now_playing.item.duration),
        cover_url: now_playing.cover_image_url,
    }
}

/// The order that a media control event stands for, if it stands for one.
pub open spec fn media_control_order(event: MediaControlEvent) -> Option<CommandView> {
    match event {
        MediaControlEvent::Play => Some(CommandView::Resume),
        MediaControlEvent::Pause => Some(CommandView::Pause),
        MediaControlEvent::Toggle => Some(CommandView::PauseOrResume),
        MediaControlEvent::Next => Some(CommandView::Next),
        MediaControlEvent::Previous => Some(CommandView::Previous),
        MediaControlEvent::SetPosition(MediaPosition(duration)) => Some(
            CommandView::Seek { position: duration },
        ),
        _ => None,
    }
}

/// The notice that the user interface gets of a message on the player's channel, if any.
pub open spec fn notice_of(event: EventView) -> Option<PlayerNotice> {
    match event {
        EventView::Loading { item } => Some(PlayerNotice::Loading(item.item_id)),
        EventView::Playing { path, position } => Some(
            PlayerNotice::Playing(path.item_id, position),
        ),
        EventView::Pausing => Some(PlayerNotice::Pausing),
        EventView::Resuming => Some(PlayerNotice::Resuming),
        EventView::Position { position } => Some(PlayerNotice::Progress(position)),
        EventView::Blocked => Some(PlayerNotice::Blocked),
        EventView::Stopped => Some(PlayerNotice::Stopped),
        EventView::Command(_) | EventView::Internal(_) => None,
    }
}

/// The steps that a message on the player's channel calls for, in their order: the user interface
/// is told first, if it is to know, and the player reacts to every message.
pub open spec fn service_actions(event: EventView) -> Seq<ServiceAction> {
    match notice_of(event) {
        Some(notice) => seq![ServiceAction::Forward(notice), ServiceAction::Handle],
        None => seq![ServiceAction::Handle],
    }
}

/// The queue that plays the items of `payload`.
pub open spec fn payload_entries(payload: PlaybackPayload) -> Seq<QueueEntry> {
    payload.items@.map_values(|item: Playable| QueueEntry { item, origin: payload.origin })
}

/// The key stands for the character `character`.
pub open spec fn key_types(key: KeyEvent, character: Seq<char>) -> bool {
    key.key matches KbKey::Character(typed) && typed@ == character
}

/// The orders that a key gives.
pub open spec fn key_orders(key: KeyEvent, data: AppState) -> Seq<EventView> {
    match key.code {
        Code::Space => seq![order(CommandView::PauseOrResume)],
        Code::ArrowRight => if key.shift {
            seq![order(CommandView::Next)]
        } else {
            seek_orders(data, true)
        },
        Code::ArrowLeft => if key.shift {
            seq![order(CommandView::Previous)]
        } else {
            seek_orders(data, false)
        },
        Code::Other => seq![],
    }
}

/// The steps that a key calls for. One without a meaning to the controller goes to the child.
pub open spec fn key_actions(key: KeyEvent) -> Seq<Action> {
    if key.code != Code::Other {
        seq![Action::SetHandled]
    } else if key_types(key, "+"@) {
        seq![Action::RaiseVolume, Action::SetHandled]
    } else if key_types(key, "-"@) {
        seq![Action::LowerVolume, Action::SetHandled]
    } else {
        seq![Action::ForwardToChild]
    }
}

/// The change that a notice of the player calls for. One that names an item which is not in the
/// queue calls for none.
pub open spec fn notice_change(notice: PlayerNotice, queued: Option<QueueEntry>) -> Option<
    StateChange,
> {
    match (notice, queued) {
        (PlayerNotice::Loading(_), Some(entry)) => Some(
            StateChange::LoadingPlayback { item: entry.item, origin: entry.origin },
        ),
        (PlayerNotice::Playing(_, progress), Some(entry)) => Some(
            StateChange::StartPlayback { item: entry.item, origin: entry.origin, progress },
        ),
        (PlayerNotice::Loading(_), None) | (PlayerNotice::Playing(_, _), None) => None,
        (PlayerNotice::Progress(progress), _) => Some(StateChange::ProgressPlayback(progress)),
        (PlayerNotice::Pausing, _) => Some(StateChange::PausePlayback),
        (PlayerNotice::Resuming, _) => Some(StateChange::ResumePlayback),
        (PlayerNotice::Blocked, _) => Some(StateChange::BlockPlayback),
        (PlayerNotice::Stopped, _) => Some(StateChange::StopPlayback),
    }
}

/// The orders that an event gives the player at once.
pub open spec fn event_orders(event: Event, data: AppState) -> Seq<EventView> {
    match event {
        Event::PlayTracks(payload) => seq![
            order(load_queue(payload_entries(payload), payload.position as nat)),
        ],
        Event::PlayPause => seq![order(CommandView::Pause)],
        Event::PlayResume => seq![order(CommandView::Resume)],
        Event::PlayPrevious => seq![order(CommandView::Previous)],
        Event::PlayNext => seq![order(CommandView::Next)],
        Event::PlayStop => seq![order(CommandView::Stop)],
        Event::AddToQueue { item, .. } => seq![order(CommandView::AddToQueue { item })],
        Event::SkipToPosition(millis) => seq![
            order(
                CommandView::Seek {
                    position: Duration { nanos: (millis * NANOS_PER_MILLI) as u128 },
                },
            ),
        ],
        Event::KeyDown(key) => key_orders(key, data),
        _ => seq![],
    }
}

/// The steps that an event calls for, in their order.
pub open spec fn event_actions(event: Event, data: AppState) -> Seq<Action> {
    match event {
        Event::SetFocus => seq![Action::RequestFocus],
        Event::Notice { notice, queued } => match notice_change(notice, queued) {
            Some(change) => seq![Action::Apply(change), Action::SetHandled],
            None => seq![Action::SetHandled],
        },
        Event::AddToQueue { entry, .. } => seq![
            Action::Apply(StateChange::AddQueuedEntry(entry)),
            Action::SetHandled,
        ],
        Event::PlayQueueBehavior(behavior) => seq![
            Action::Apply(StateChange::SetQueueBehavior(behavior)),
            Action::SetHandled,
        ],
        Event::PlaySeek(fraction) => match data.playback.now_playing {
            Some(now_playing) => seq![
                Action::SeekToFraction { duration: now_playing.item.duration, fraction },
                Action::SetHandled,
            ],
            None => seq![Action::SetHandled],
        },
        Event::KeyDown(key) => key_actions(key),
        Event::Other => seq![Action::ForwardToChild],
        _ => seq![Action::SetHandled],
    }
}

/// The entries of the queue once the event is handled.
pub open spec fn event_queue(event: Event, data: AppState) -> Seq<QueueEntry> {
    match event {
        Event::PlayTracks(payload) => payload_entries(payload),
        _ => queue_entries(data.playback.queue),
    }
}

/// The event does not seek past the range of time spans.
pub open spec fn event_in_range(event: Event, data: AppState) -> bool {
    event matches Event::KeyDown(key) ==> key.code is ArrowRight && !key.shift ==> seek_in_range(
        data,
        true,
    )
}

/// Shows the state of playback in the media controls, if they are there.
pub open spec fn playback_shown(controls: bool, playback: Playback) -> Seq<Action> {
    if controls {
        seq![Action::SetMediaPlayback(media_playback(playback))]
    } else {
        seq![]
    }
}

/// Shows the item in the media controls, if they are there and there is one.
pub open spec fn metadata_shown(controls: bool, playback: Playback) -> Seq<Action> {
    match playback.now_playing {
        Some(now_playing) if controls => seq![
            Action::SetMediaMetadata(media_metadata(now_playing)),
        ],
        _ => seq![],
    }
}

/// Shows the lyrics of the item, if the lyrics page is open and there is one.
pub open spec fn lyrics_shown(data: AppState) -> Seq<Action> {
    match data.playback.now_playing {
        Some(now_playing) if data.nav is Lyrics => seq![Action::ShowLyrics(now_playing)],
        _ => seq![],
    }
}

/// The steps that follow once `change` has led to `data`, in their order.
pub open spec fn change_actions(change: StateChange, controls: bool, data: AppState) -> Seq<
    Action,
> {
    match change {
        StateChange::LoadingPlayback { .. } => playback_shown(controls, data.playback)
            + metadata_shown(controls, data.playback),
        StateChange::StartPlayback { .. } => playback_shown(controls, data.playback)
            + metadata_shown(controls, data.playback) + lyrics_shown(data),
        StateChange::ProgressPlayback(_)
        | StateChange::PausePlayback
        | StateChange::ResumePlayback
        | StateChange::StopPlayback => playback_shown(controls, data.playback),
        StateChange::BlockPlayback
        | StateChange::AddQueuedEntry(_)
        | StateChange::SetQueueBehavior(_) => seq![],
    }
}

/// The orders that follow a change.
pub open spec fn change_orders(change: StateChange) -> Seq<EventView> {
    match change {
        StateChange::SetQueueBehavior(behavior) => seq![
            order(CommandView::SetQueueBehavior { behavior: player_behavior(behavior) }),
        ],
        _ => seq![],
    }
}

/// The orders that bring a new player to the application's settings.
pub open spec fn settings_orders(data: AppState) -> Seq<EventView> {
    seq![
        order(CommandView::SetVolume { volume: data.playback.volume }),
        order(
            CommandView::SetQueueBehavior {
                behavior: player_behavior(data.playback.queue_behavior),
            },
        ),
    ]
}

/// The steps that an event in the widget's life calls for, in their order.
pub open spec fn lifecycle_actions(event: LifeCycle) -> Seq<LifeCycleAction> {
    match event {
        LifeCycle::WidgetAdded => seq![
            LifeCycleAction::OpenPlayer,
            LifeCycleAction::SubmitSetFocus,
            LifeCycleAction::ForwardToChild,
        ],
        LifeCycle::RouteFocusChanged { to_nowhere: true } => seq![
            LifeCycleAction::SubmitSetFocus,
            LifeCycleAction::ForwardToChild,
        ],
        _ => seq![LifeCycleAction::ForwardToChild],
    }
}

/// The orders that follow when the application's state changes from `old_data` to `data`.
pub open spec fn update_orders(old_data: AppState, data: AppState) -> Seq<EventView> {
    if old_data.playback.volume != data.playback.volume {
        seq![order(CommandView::SetVolume { volume: data.playback.volume })]
    } else {
        seq![]
    }
}

/// The steps that a change of the application's state calls for: the child gets to know of it,
/// whatever has changed.
pub open spec fn update_actions() -> Seq<UpdateAction> {
    seq![UpdateAction::ForwardToChild]
}

} // verus!
