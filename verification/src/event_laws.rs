//! What each event, change and report comes to, one by one.

use crate::channel::{events_accepted, events_offered, PlayerSender};
use crate::controller::PlaybackController;
use crate::data::{AppState, NowPlaying, Playback, QueueBehavior, QueueEntry, COVER_SIZE};
use crate::duration::{Duration, MAX_NANOS, NANOS_PER_MILLI, NANOS_PER_SEC};
use crate::event::{
    Action, Event, KbKey, KeyEvent, LifeCycle, LifeCycleAction, PlaybackPayload, PlayerNotice,
    ServiceAction, StateChange, UpdateAction,
};
use crate::media::{MediaControlEvent, MediaMetadata, MediaPlayback, MediaPosition};
use crate::model::{
    change_actions, change_orders, event_actions, event_in_range, event_orders, event_queue,
    lifecycle_actions, load_queue, media_control_order, media_metadata, media_playback, order,
    player_behavior, seek_in_range, seek_orders, service_actions, settings_orders, update_actions,
    update_orders,
};
use crate::player;
use crate::player::{
    CommandView, DoubleBits, EventView, ItemId, MediaPath, NormalizationLevel, PlaybackItem,
    PlayerCommand, PlayerEvent,
};
use crate::queue::queue_entries;
use vstd::prelude::*;

verus! {

/// The order to play a queue holds every entry of the queue at its own place, by its own identity,
/// evened out over the album exactly if it was started from one. It starts at the position asked
/// for, and at the front if the queue has no such position.
pub proof fn law_play_loads_every_entry(entries: Seq<QueueEntry>, position: nat)
    ensures
        order(load_queue(entries, position)) matches EventView::Command(
            CommandView::LoadQueue { items, position: start },
        ) && {
            &&& items.len() == entries.len()
            &&& forall|i: int|
                0 <= i < entries.len() ==> {
                    &&& (#[trigger] items[i]).item_id == entries[i].item.id
                    &&& entries[i].origin is Album ==> items[i].norm_level
                        == NormalizationLevel::Album
                    &&& !(entries[i].origin is Album) ==> items[i].norm_level
                        == NormalizationLevel::Track
                }
            &&& position < entries.len() ==> start == position
            &&& position >= entries.len() ==> start == 0
        },
{
}

/// Playing tracks makes the queue of exactly these items in this order, each with the origin that
/// was given, and gives the player one order: to load all of them, from the position asked for.
pub proof fn law_play_tracks(payload: PlaybackPayload, data: AppState)
    ensures
        event_queue(Event::PlayTracks(payload), data).len() == payload.items@.len(),
        forall|i: int|
            0 <= i < payload.items@.len() ==> {
                let entry = #[trigger] event_queue(Event::PlayTracks(payload), data)[i];
                entry.item == payload.items@[i] && entry.origin == payload.origin
            },
        event_orders(Event::PlayTracks(payload), data).len() == 1,
        event_orders(Event::PlayTracks(payload), data)[0] matches EventView::Command(
            CommandView::LoadQueue { items, position: start },
        ) && {
            &&& items.len() == payload.items@.len()
            &&& forall|i: int|
                0 <= i < payload.items@.len() ==> {
                    &&& (#[trigger] items[i]).item_id == payload.items@[i].id
                    &&& payload.origin is Album ==> items[i].norm_level
                        == NormalizationLevel::Album
                    &&& !(payload.origin is Album) ==> items[i].norm_level
                        == NormalizationLevel::Track
                }
            &&& payload.position < payload.items@.len() ==> start == payload.position
            &&& payload.position >= payload.items@.len() ==> start == 0
        },
        event_actions(Event::PlayTracks(payload), data) == seq![Action::SetHandled],
{
}

/// The events to pause, resume, go back, go on and stop each give the player that one order, in
/// every state, and are handled with that.
pub proof fn law_plain_events(data: AppState)
    ensures
        event_orders(Event::PlayPause, data) == seq![EventView::Command(CommandView::Pause)],
        event_orders(Event::PlayResume, data) == seq![EventView::Command(CommandView::Resume)],
        event_orders(Event::PlayPrevious, data) == seq![EventView::Command(CommandView::Previous)],
        event_orders(Event::PlayNext, data) == seq![EventView::Command(CommandView::Next)],
        event_orders(Event::PlayStop, data) == seq![EventView::Command(CommandView::Stop)],
        event_actions(Event::PlayPause, data) == seq![Action::SetHandled],
        event_actions(Event::PlayResume, data) == seq![Action::SetHandled],
        event_actions(Event::PlayPrevious, data) == seq![Action::SetHandled],
        event_actions(Event::PlayNext, data) == seq![Action::SetHandled],
        event_actions(Event::PlayStop, data) == seq![Action::SetHandled],
{
}

/// Only playing tracks replaces the queue; every other event leaves it as it is.
pub proof fn law_only_play_tracks_replaces_the_queue(event: Event, data: AppState)
    requires
        !(event is PlayTracks),
    ensures
        event_queue(event, data) == queue_entries(data.playback.queue),
{
}

/// Adding to the queue gives the player the very item, and the application the very entry.
pub proof fn law_add_to_queue(entry: QueueEntry, item: PlaybackItem, data: AppState)
    ensures
        event_orders(Event::AddToQueue { entry, item }, data) == seq![
            EventView::Command(CommandView::AddToQueue { item }),
        ],
        event_actions(Event::AddToQueue { entry, item }, data) == seq![
            Action::Apply(StateChange::AddQueuedEntry(entry)),
            Action::SetHandled,
        ],
        change_orders(StateChange::AddQueuedEntry(entry)) == Seq::<EventView>::empty(),
{
}

/// The queue order of the user is the player's of the same name.
pub proof fn law_queue_behaviors_keep_their_meaning()
    ensures
        player_behavior(QueueBehavior::Sequential) == player::QueueBehavior::Sequential,
        player_behavior(QueueBehavior::Random) == player::QueueBehavior::Random,
        player_behavior(QueueBehavior::LoopTrack) == player::QueueBehavior::LoopTrack,
        player_behavior(QueueBehavior::LoopAll) == player::QueueBehavior::LoopAll,
{
}

/// Choosing a queue order has the application store it, and only then is the player told, once,
/// and of that order.
pub proof fn law_choosing_a_queue_behavior(behavior: QueueBehavior, data: AppState)
    ensures
        event_orders(Event::PlayQueueBehavior(behavior), data) == Seq::<EventView>::empty(),
        event_actions(Event::PlayQueueBehavior(behavior), data) == seq![
            Action::Apply(StateChange::SetQueueBehavior(behavior)),
            Action::SetHandled,
        ],
        change_orders(StateChange::SetQueueBehavior(behavior)).len() == 1,
        change_orders(StateChange::SetQueueBehavior(behavior))[0] matches EventView::Command(
            CommandView::SetQueueBehavior { behavior: told },
        ) && {
            &&& behavior is Sequential <==> told is Sequential
            &&& behavior is Random <==> told is Random
            &&& behavior is LoopTrack <==> told is LoopTrack
            &&& behavior is LoopAll <==> told is LoopAll
        },
{
}

/// Seeking to a fraction asks for that fraction of the length of the item that plays, and for
/// nothing if none plays. The order follows from the position found.
pub proof fn law_seek_to_a_fraction(fraction: DoubleBits, data: AppState)
    ensures
        event_orders(Event::PlaySeek(fraction), data) == Seq::<EventView>::empty(),
        data.playback.now_playing matches Some(now_playing) ==> event_actions(
            Event::PlaySeek(fraction),
            data,
        ) == seq![
            Action::SeekToFraction { duration: now_playing.item.duration, fraction },
            Action::SetHandled,
        ],
        data.playback.now_playing is None ==> event_actions(Event::PlaySeek(fraction), data)
            == seq![Action::SetHandled],
{
}

/// Skipping to a position seeks to exactly that many milliseconds, whatever item plays and however
/// far it has come, and also if none plays.
pub proof fn law_skip_to_a_position(millis: u64, data: AppState)
    ensures
        event_orders(Event::SkipToPosition(millis), data).len() == 1,
        event_orders(Event::SkipToPosition(millis), data)[0] matches EventView::Command(
            CommandView::Seek { position },
        ) && position.nanos == millis * 1_000_000,
        event_actions(Event::SkipToPosition(millis), data) == seq![Action::SetHandled],
{
}

/// Two skips end as far apart as the positions asked for, in any two states.
pub proof fn law_skips_keep_their_distance(one: u64, other: u64, here: AppState, there: AppState)
    ensures
        event_orders(Event::SkipToPosition(one), here)[0] matches EventView::Command(
            CommandView::Seek { position: first },
        ) && event_orders(Event::SkipToPosition(other), there)[0] matches EventView::Command(
            CommandView::Seek { position: second },
        ) && first.nanos - second.nanos == (one - other) * 1_000_000,
{
}

/// The space key gives the one order to pause or resume, whatever it types and whatever plays.
pub proof fn law_space_key(key: KeyEvent, data: AppState)
    requires
        key.code is Space,
    ensures
        event_orders(Event::KeyDown(key), data) == seq![
            EventView::Command(CommandView::PauseOrResume),
        ],
        event_actions(Event::KeyDown(key), data) == seq![Action::SetHandled],
{
}

/// With shift, the right arrow goes on to the next item and the left arrow back to the previous
/// one, whatever plays.
pub proof fn law_shifted_arrow_keys(key: KeyEvent, data: AppState)
    requires
        key.code is ArrowRight || key.code is ArrowLeft,
        key.shift,
    ensures
        key.code is ArrowRight ==> event_orders(Event::KeyDown(key), data) == seq![
            EventView::Command(CommandView::Next),
        ],
        key.code is ArrowLeft ==> event_orders(Event::KeyDown(key), data) == seq![
            EventView::Command(CommandView::Previous),
        ],
        event_actions(Event::KeyDown(key), data) == seq![Action::SetHandled],
{
}

/// Without shift, an arrow key moves by exactly the configured number of seconds, forward or
/// backward. Where that leads behind the end of the item it seeks to the end; where it leads before
/// the start, to the start. (An item that has come further than its end is brought back to it.)
pub proof fn law_arrow_keys_seek_by_the_configured_time(key: KeyEvent, data: AppState)
    requires
        key.code is ArrowRight || key.code is ArrowLeft,
        !key.shift,
        data.playback.now_playing is Some,
        event_in_range(Event::KeyDown(key), data),
    ensures
        event_orders(Event::KeyDown(key), data).len() == 1,
        event_orders(Event::KeyDown(key), data)[0] matches EventView::Command(
            CommandView::Seek { position },
        ) && {
            let now_playing = data.playback.now_playing->0;
            let progress = now_playing.progress.nanos as int;
            let end = now_playing.item.duration.nanos as int;
            let step = data.config.seek_duration * 1_000_000_000;
            &&& key.code is ArrowRight && progress + step <= end ==> position.nanos == progress
                + step
            &&& key.code is ArrowRight && progress + step > end ==> position.nanos == end
            &&& key.code is ArrowLeft && 0 <= progress - step <= end ==> position.nanos == progress
                - step
            &&& key.code is ArrowLeft && progress - step > end ==> position.nanos == end
            &&& key.code is ArrowLeft && progress - step < 0 ==> position.nanos == 0
        },
        event_actions(Event::KeyDown(key), data) == seq![Action::SetHandled],
{
}

/// The same of a seek that is not a key's: it moves by the configured number of seconds, within the
/// item.
pub proof fn law_seek_moves_by_the_configured_time(data: AppState, forward: bool)
    requires
        data.playback.now_playing is Some,
        seek_in_range(data, forward),
    ensures
        seek_orders(data, forward).len() == 1,
        seek_orders(data, forward)[0] matches EventView::Command(CommandView::Seek { position })
            && {
            let now_playing = data.playback.now_playing->0;
            let progress = now_playing.progress.nanos as int;
            let end = now_playing.item.duration.nanos as int;
            let step = data.config.seek_duration * 1_000_000_000;
            let moved = if forward {
                progress + step
            } else {
                progress - step
            };
            &&& 0 <= moved <= end ==> position.nanos == moved
            &&& moved > end ==> position.nanos == end
            &&& moved < 0 ==> position.nanos == 0
        },
{
}

/// An arrow key without shift gives no order if no item plays.
pub proof fn law_arrow_keys_need_an_item(key: KeyEvent, data: AppState, forward: bool)
    requires
        key.code is ArrowRight || key.code is ArrowLeft,
        !key.shift,
        data.playback.now_playing is None,
    ensures
        event_orders(Event::KeyDown(key), data) == Seq::<EventView>::empty(),
        seek_orders(data, forward) == Seq::<EventView>::empty(),
        event_actions(Event::KeyDown(key), data) == seq![Action::SetHandled],
{
}

/// The only event that cannot be handled is a forward seek of an item that plays to a time past the
/// longest span.
pub proof fn law_all_but_endless_seeks_are_handled(event: Event, data: AppState, forward: bool)
    ensures
        seek_in_range(data, forward) <==> !(forward && data.playback.now_playing is Some
            && data.playback.now_playing->0.progress.nanos + data.config.seek_duration
            * 1_000_000_000 > 18_446_744_073_709_551_615_999_999_999int),
        event_in_range(event, data) <==> !(event is KeyDown && event->KeyDown_0.code is ArrowRight
            && !event->KeyDown_0.shift && data.playback.now_playing is Some
            && data.playback.now_playing->0.progress.nanos + data.config.seek_duration
            * 1_000_000_000 > 18_446_744_073_709_551_615_999_999_999int),
{
}

/// A key that is none of the controller's own places turns the volume up if it types a plus, down
/// if it types a minus, and goes to the child otherwise. It gives no order.
pub proof fn law_typed_keys(key: KeyEvent, data: AppState)
    requires
        key.code is Other,
    ensures
        event_orders(Event::KeyDown(key), data) == Seq::<EventView>::empty(),
        key.key matches KbKey::Character(typed) ==> {
            &&& typed@ == seq!['+'] ==> event_actions(Event::KeyDown(key), data) == seq![
                Action::RaiseVolume,
                Action::SetHandled,
            ]
            &&& typed@ == seq!['-'] ==> event_actions(Event::KeyDown(key), data) == seq![
                Action::LowerVolume,
                Action::SetHandled,
            ]
            &&& typed@ != seq!['+'] && typed@ != seq!['-'] ==> event_actions(
                Event::KeyDown(key),
                data,
            ) == seq![Action::ForwardToChild]
        },
        key.key is Other ==> event_actions(Event::KeyDown(key), data) == seq![
            Action::ForwardToChild,
        ],
{
    reveal_strlit("+");
    reveal_strlit("-");
    assert("+"@ =~= seq!['+']);
    assert("-"@ =~= seq!['-']);
    assert(seq!['+'][0] != seq!['-'][0]);
}

/// A request for the focus takes it, and an event of no concern goes to the child. Neither gives an
/// order.
pub proof fn law_focus_and_other_events(data: AppState)
    ensures
        event_actions(Event::SetFocus, data) == seq![Action::RequestFocus],
        event_orders(Event::SetFocus, data) == Seq::<EventView>::empty(),
        event_actions(Event::Other, data) == seq![Action::ForwardToChild],
        event_orders(Event::Other, data) == Seq::<EventView>::empty(),
{
}

/// A report that names an item has the application load it, or start it at the progress reported,
/// as the entry that the queue has for it; without an entry nothing changes. No order is given.
pub proof fn law_notices_of_items(
    item: ItemId,
    progress: Duration,
    queued: Option<QueueEntry>,
    data: AppState,
)
    ensures
        queued matches Some(entry) ==> {
            &&& event_actions(
                Event::Notice { notice: PlayerNotice::Loading(item), queued },
                data,
            ) == seq![
                Action::Apply(
                    StateChange::LoadingPlayback { item: entry.item, origin: entry.origin },
                ),
                Action::SetHandled,
            ]
            &&& event_actions(
                Event::Notice { notice: PlayerNotice::Playing(item, progress), queued },
                data,
            ) == seq![
                Action::Apply(
                    StateChange::StartPlayback { item: entry.item, origin: entry.origin, progress },
                ),
                Action::SetHandled,
            ]
        },
        queued is None ==> {
            &&& event_actions(
                Event::Notice { notice: PlayerNotice::Loading(item), queued },
                data,
            ) == seq![Action::SetHandled]
            &&& event_actions(
                Event::Notice { notice: PlayerNotice::Playing(item, progress), queued },
                data,
            ) == seq![Action::SetHandled]
        },
        event_orders(Event::Notice { notice: PlayerNotice::Loading(item), queued }, data)
            == Seq::<EventView>::empty(),
        event_orders(Event::Notice { notice: PlayerNotice::Playing(item, progress), queued }, data)
            == Seq::<EventView>::empty(),
{
}

/// A report that names no item has the application make the change of that name, whether or not an
/// entry comes with it. No order is given.
pub proof fn law_notices_without_an_item(
    progress: Duration,
    queued: Option<QueueEntry>,
    data: AppState,
)
    ensures
        event_actions(Event::Notice { notice: PlayerNotice::Progress(progress), queued }, data)
            == seq![Action::Apply(StateChange::ProgressPlayback(progress)), Action::SetHandled],
        event_actions(Event::Notice { notice: PlayerNotice::Pausing, queued }, data) == seq![
            Action::Apply(StateChange::PausePlayback),
            Action::SetHandled,
        ],
        event_actions(Event::Notice { notice: PlayerNotice::Resuming, queued }, data) == seq![
            Action::Apply(StateChange::ResumePlayback),
            Action::SetHandled,
        ],
        event_actions(Event::Notice { notice: PlayerNotice::Blocked, queued }, data) == seq![
            Action::Apply(StateChange::BlockPlayback),
            Action::SetHandled,
        ],
        event_actions(Event::Notice { notice: PlayerNotice::Stopped, queued }, data) == seq![
            Action::Apply(StateChange::StopPlayback),
            Action::SetHandled,
        ],
        event_orders(Event::Notice { notice: PlayerNotice::Progress(progress), queued }, data)
            == Seq::<EventView>::empty(),
        event_orders(Event::Notice { notice: PlayerNotice::Pausing, queued }, data)
            == Seq::<EventView>::empty(),
        event_orders(Event::Notice { notice: PlayerNotice::Resuming, queued }, data)
            == Seq::<EventView>::empty(),
        event_orders(Event::Notice { notice: PlayerNotice::Blocked, queued }, data)
            == Seq::<EventView>::empty(),
        event_orders(Event::Notice { notice: PlayerNotice::Stopped, queued }, data)
            == Seq::<EventView>::empty(),
{
}

/// `shown` is this state of playback: an item that plays, or is paused, with how far the item has
/// come, if there is one; stopped if it is loading or stopped.
pub open spec fn shows_playback(shown: MediaPlayback, playback: Playback) -> bool {
    &&& playback.state is Loading || playback.state is Stopped ==> shown is Stopped
    &&& playback.state is Playing ==> shown is Playing
    &&& playback.state is Paused ==> shown is Paused
    &&& shown matches MediaPlayback::Playing { progress } ==> shows_progress(progress, playback)
    &&& shown matches MediaPlayback::Paused { progress } ==> shows_progress(progress, playback)
}

/// `progress` is how far the item has come, and nothing if there is none.
pub open spec fn shows_progress(progress: Option<MediaPosition>, playback: Playback) -> bool {
    &&& progress is Some <==> playback.now_playing is Some
    &&& progress is Some ==> progress == Some(MediaPosition(playback.now_playing->0.progress))
}

/// `shown` is this item: its name, album, artist, length and cover. An item without track data has
/// neither album nor artist; a track without an album has an artist only.
pub open spec fn shows_item(shown: MediaMetadata, now_playing: NowPlaying) -> bool {
    &&& shown.title == Some(now_playing.item.name)
    &&& shown.duration == Some(now_playing.item.duration)
    &&& shown.cover_url == now_playing.cover_image_url
    &&& now_playing.item.track matches Some(track) ==> {
        &&& shown.artist == Some(track.artist_name)
        &&& track.album matches Some(album) ==> shown.album == Some(album.name)
        &&& track.album is None ==> shown.album is None
    }
    &&& now_playing.item.track is None ==> shown.artist is None && shown.album is None
}

/// What the media controls are told of playback and of the item is true of them.
pub proof fn law_media_controls_are_told_the_truth(playback: Playback, now_playing: NowPlaying)
    ensures
        shows_playback(media_playback(playback), playback),
        shows_item(media_metadata(now_playing), now_playing),
{
}

/// With media controls, the state of playback that a change leads to is shown in them, first of
/// all, after every change but three: a block, an added entry and a new queue order.
pub proof fn law_changes_are_shown_in_the_media_controls(change: StateChange, data: AppState)
    requires
        change is LoadingPlayback || change is StartPlayback || change is ProgressPlayback
            || change is PausePlayback || change is ResumePlayback || change is StopPlayback,
    ensures
        change_actions(change, true, data).len() > 0,
        change_actions(change, true, data)[0] matches Action::SetMediaPlayback(shown)
            && shows_playback(shown, data.playback),
{
}

/// After progress, a pause, a resumption and a stop, the state of playback is all that is shown,
/// and that only in media controls.
pub proof fn law_steps_after_progress_pause_resume_and_stop(
    change: StateChange,
    controls: bool,
    data: AppState,
)
    requires
        change is ProgressPlayback || change is PausePlayback || change is ResumePlayback
            || change is StopPlayback,
    ensures
        change_actions(change, controls, data).len() == if controls {
            1nat
        } else {
            0nat
        },
        controls ==> (change_actions(change, controls, data)[0] matches Action::SetMediaPlayback(
            shown,
        ) && shows_playback(shown, data.playback)),
{
}

/// After an item has begun to load, the media controls show the state and the item, if there is
/// one; without them nothing is shown.
pub proof fn law_steps_after_loading(change: StateChange, controls: bool, data: AppState)
    requires
        change is LoadingPlayback,
    ensures
        !controls ==> change_actions(change, controls, data).len() == 0,
        controls ==> {
            &&& change_actions(change, controls, data).len() == if data.playback.now_playing is Some {
                2nat
            } else {
                1nat
            }
            &&& (change_actions(change, controls, data)[0] matches Action::SetMediaPlayback(shown)
                && shows_playback(shown, data.playback))
            &&& data.playback.now_playing matches Some(now_playing) ==> (change_actions(
                change,
                controls,
                data,
            )[1] matches Action::SetMediaMetadata(shown) && shows_item(shown, now_playing))
        },
{
}

/// After an item has started, the media controls show the state and the item, as after loading;
/// then its lyrics are shown, if the lyrics page is open, with media controls or without.
pub proof fn law_steps_after_the_start(
    change: StateChange,
    loading: StateChange,
    controls: bool,
    data: AppState,
)
    requires
        change is StartPlayback,
        loading is LoadingPlayback,
    ensures
        data.playback.now_playing is Some && data.nav is Lyrics ==> change_actions(
            change,
            controls,
            data,
        ) == change_actions(loading, controls, data) + seq![
            Action::ShowLyrics(data.playback.now_playing->0),
        ],
        data.playback.now_playing is None || !(data.nav is Lyrics) ==> change_actions(
            change,
            controls,
            data,
        ) == change_actions(loading, controls, data),
{
    assert(change_actions(loading, controls, data) + Seq::<Action>::empty() =~= change_actions(
        loading,
        controls,
        data,
    ));
}

/// A block, an added entry and a new queue order call for no steps.
pub proof fn law_changes_that_are_not_shown(change: StateChange, controls: bool, data: AppState)
    requires
        change is BlockPlayback || change is AddQueuedEntry || change is SetQueueBehavior,
    ensures
        change_actions(change, controls, data) == Seq::<Action>::empty(),
{
}

/// No change but a new queue order gives the player an order.
pub proof fn law_other_changes_give_no_orders(change: StateChange)
    requires
        !(change is SetQueueBehavior),
    ensures
        change_orders(change) == Seq::<EventView>::empty(),
{
}

/// Adding the widget opens the player and then asks for the focus, losing the focus to no widget
/// asks for it again, and every event of this sort goes to the child in the end.
pub proof fn law_lifecycle(event: LifeCycle)
    ensures
        lifecycle_actions(LifeCycle::WidgetAdded) == seq![
            LifeCycleAction::OpenPlayer,
            LifeCycleAction::SubmitSetFocus,
            LifeCycleAction::ForwardToChild,
        ],
        event matches LifeCycle::RouteFocusChanged { to_nowhere } ==> {
            &&& to_nowhere ==> lifecycle_actions(event) == seq![
                LifeCycleAction::SubmitSetFocus,
                LifeCycleAction::ForwardToChild,
            ]
            &&& !to_nowhere ==> lifecycle_actions(event) == seq![LifeCycleAction::ForwardToChild]
        },
        lifecycle_actions(LifeCycle::Other) == seq![LifeCycleAction::ForwardToChild],
{
}

/// A new player is told the application's volume, then its queue order, and nothing more.
pub proof fn law_settings_of_a_new_player(data: AppState)
    ensures
        settings_orders(data).len() == 2,
        settings_orders(data)[0] == EventView::Command(
            CommandView::SetVolume { volume: data.playback.volume },
        ),
        settings_orders(data)[1] matches EventView::Command(
            CommandView::SetQueueBehavior { behavior: told },
        ) && {
            &&& data.playback.queue_behavior is Sequential <==> told is Sequential
            &&& data.playback.queue_behavior is Random <==> told is Random
            &&& data.playback.queue_behavior is LoopTrack <==> told is LoopTrack
            &&& data.playback.queue_behavior is LoopAll <==> told is LoopAll
        },
{
}

/// An update tells the player the new volume if its bits differ from the old one's, and nothing
/// otherwise. The child is updated either way.
pub proof fn law_update(old_data: AppState, data: AppState)
    ensures
        old_data.playback.volume.bits != data.playback.volume.bits ==> update_orders(old_data, data)
            == seq![EventView::Command(CommandView::SetVolume { volume: data.playback.volume })],
        old_data.playback.volume.bits == data.playback.volume.bits ==> update_orders(old_data, data)
            == Seq::<EventView>::empty(),
        update_actions() == seq![UpdateAction::ForwardToChild],
{
}

/// Six media control events stand for the order of that meaning, a new position for a seek to
/// exactly there. All others stand for none.
pub proof fn law_media_control_events(event: MediaControlEvent)
    ensures
        event is Play ==> media_control_order(event) == Some(CommandView::Resume),
        event is Pause ==> media_control_order(event) == Some(CommandView::Pause),
        event is Toggle ==> media_control_order(event) == Some(CommandView::PauseOrResume),
        event is Next ==> media_control_order(event) == Some(CommandView::Next),
        event is Previous ==> media_control_order(event) == Some(CommandView::Previous),
        event matches MediaControlEvent::SetPosition(position) ==> media_control_order(event)
            == Some(CommandView::Seek { position: position.0 }),
        event is Stop || event is Seek || event is SeekBy || event is SetVolume || event is OpenUri
            || event is Raise || event is Quit ==> media_control_order(event) is None,
{
}

/// Each report of the player is passed on with what it tells, before the player reacts to it. An
/// order and a message of the player's own are not passed on, only reacted to.
pub proof fn law_reports_are_passed_on(
    item: PlaybackItem,
    path: MediaPath,
    position: Duration,
    command: CommandView,
    number: u64,
)
    ensures
        service_actions(EventView::Loading { item }) == seq![
            ServiceAction::Forward(PlayerNotice::Loading(item.item_id)),
            ServiceAction::Handle,
        ],
        service_actions(EventView::Playing { path, position }) == seq![
            ServiceAction::Forward(PlayerNotice::Playing(path.item_id, position)),
            ServiceAction::Handle,
        ],
        service_actions(EventView::Position { position }) == seq![
            ServiceAction::Forward(PlayerNotice::Progress(position)),
            ServiceAction::Handle,
        ],
        service_actions(EventView::Pausing) == seq![
            ServiceAction::Forward(PlayerNotice::Pausing),
            ServiceAction::Handle,
        ],
        service_actions(EventView::Resuming) == seq![
            ServiceAction::Forward(PlayerNotice::Resuming),
            ServiceAction::Handle,
        ],
        service_actions(EventView::Blocked) == seq![
            ServiceAction::Forward(PlayerNotice::Blocked),
            ServiceAction::Handle,
        ],
        service_actions(EventView::Stopped) == seq![
            ServiceAction::Forward(PlayerNotice::Stopped),
            ServiceAction::Handle,
        ],
        service_actions(EventView::Command(command)) == seq![ServiceAction::Handle],
        service_actions(EventView::Internal(number)) == seq![ServiceAction::Handle],
{
}

/// What is said of a sending end is said of the messages handed to its channel, one by one.
pub proof fn law_offers_are_the_channels(sender: PlayerSender)
    ensures
        sender.offered().len() == events_offered(sender.end()).len(),
        forall|i: int|
            0 <= i < sender.offered().len() ==> #[trigger] sender.offered()[i] == events_offered(
                sender.end(),
            )[i]@,
        sender.accepted().len() == events_accepted(sender.end()).len(),
        forall|i: int|
            0 <= i < sender.accepted().len() ==> #[trigger] sender.accepted()[i]
                == events_accepted(sender.end())[i]@,
{
}

/// To tell the player something is to offer it exactly that, after all that was offered before. The
/// player's channel has taken it, or it comes back; without a player nothing happens. Media
/// controls and player stay as they are.
pub proof fn law_telling_the_player(
    before: PlaybackController,
    after: PlaybackController,
    event: EventView,
    refused: Option<PlayerEvent>,
)
    requires
        after.told_since(before, seq![event], refused),
    ensures
        after.has_media_controls() == before.has_media_controls(),
        after.channel() is Some <==> before.channel() is Some,
        before.channel() matches Some(sender) ==> {
            &&& after.channel()->0.offered() == sender.offered().push(event)
            &&& refused is None ==> after.channel()->0.accepted() == sender.accepted().push(event)
            &&& refused is Some ==> after.channel()->0.accepted() == sender.accepted()
            &&& refused is Some ==> refused->0@ == event
        },
        before.channel() is None ==> refused is None,
{
    if before.channel() is Some {
        let sender = before.channel()->0;
        assert(sender.offered() + seq![event] =~= sender.offered().push(event));
        assert(sender.accepted() + seq![event] =~= sender.accepted().push(event));
        assert(sender.accepted() + Seq::<EventView>::empty() =~= sender.accepted());
        if refused is Some {
            assert(seq![event][0] == event);
            assert(seq![refused->0@][0] == refused->0@);
        }
    }
}

/// A controller is sound exactly if its player's channel is, where it has one, and if it has no
/// media controls without a player.
pub proof fn law_sound_controllers(controller: PlaybackController)
    ensures
        controller.wf() <==> {
            &&& controller.channel() is Some ==> controller.channel()->0.wf()
            &&& controller.channel() is None ==> !controller.has_media_controls()
        },
{
}

/// To tell the player nothing leaves all that was offered and taken before as it was.
pub proof fn law_telling_the_player_nothing(
    before: PlaybackController,
    after: PlaybackController,
    refused: Option<PlayerEvent>,
)
    requires
        after.told_since(before, Seq::<EventView>::empty(), refused),
    ensures
        after.has_media_controls() == before.has_media_controls(),
        after.channel() is Some <==> before.channel() is Some,
        before.channel() matches Some(sender) ==> {
            &&& after.channel()->0.offered() == sender.offered()
            &&& after.channel()->0.accepted() == sender.accepted()
        },
        refused is None,
{
    if refused is Some {
        assert(seq![refused->0@].len() == 1);
    }
    if before.channel() is Some {
        let sender = before.channel()->0;
        assert(sender.offered() + Seq::<EventView>::empty() =~= sender.offered());
        assert(sender.accepted() + Seq::<EventView>::empty() =~= sender.accepted());
    }
}

/// The view of a command tells which one it is and all that it holds.
pub proof fn law_views_of_commands(command: PlayerCommand)
    ensures
        command matches PlayerCommand::LoadQueue { items, position } ==> (
        command@ matches CommandView::LoadQueue { items: viewed, position: start } && viewed
            == items@ && start == position),
        command is Pause <==> command@ is Pause,
        command is Resume <==> command@ is Resume,
        command is PauseOrResume <==> command@ is PauseOrResume,
        command is Previous <==> command@ is Previous,
        command is Next <==> command@ is Next,
        command is Stop <==> command@ is Stop,
        command matches PlayerCommand::Seek { position } ==> command@ == (CommandView::Seek {
            position,
        }),
        command matches PlayerCommand::SetVolume { volume } ==> command@
            == (CommandView::SetVolume { volume }),
        command matches PlayerCommand::AddToQueue { item } ==> command@
            == (CommandView::AddToQueue { item }),
        command matches PlayerCommand::SetQueueBehavior { behavior } ==> command@
            == (CommandView::SetQueueBehavior { behavior }),
{
}

/// The view of a message tells which one it is and all that it holds.
pub proof fn law_views_of_messages(event: PlayerEvent)
    ensures
        event matches PlayerEvent::Command(command) ==> event@ == EventView::Command(command@),
        event matches PlayerEvent::Loading { item } ==> event@ == (EventView::Loading { item }),
        event matches PlayerEvent::Playing { path, position } ==> event@ == (EventView::Playing {
            path,
            position,
        }),
        event is Pausing <==> event@ is Pausing,
        event is Resuming <==> event@ is Resuming,
        event matches PlayerEvent::Position { position } ==> event@ == (EventView::Position {
            position,
        }),
        event is Blocked <==> event@ is Blocked,
        event is Stopped <==> event@ is Stopped,
        event matches PlayerEvent::Internal(number) ==> event@ == EventView::Internal(number),
{
}

/// The units of time, the longest span and the size of a cover. A span in range is one up to the
/// longest.
pub proof fn law_units(span: Duration)
    ensures
        NANOS_PER_SEC == 1_000_000_000,
        NANOS_PER_MILLI == 1_000_000,
        MAX_NANOS == u64::MAX * 1_000_000_000 + 999_999_999,
        COVER_SIZE == 512,
        span.wf() <==> span.nanos <= u64::MAX * 1_000_000_000 + 999_999_999,
{
}

} // verus!
