//! What holds of the controller as a whole.

use crate::controller::PlaybackController;
use crate::data::{AppState, Playback, PlaybackState, QueueBehavior, QueueEntry};
use crate::duration::{Duration, MAX_NANOS};
use crate::event::{
    Action, Code, Event, KeyEvent, LifeCycle, LifeCycleAction, PlaybackPayload, PlayerNotice,
    ServiceAction, StateChange,
};
use crate::media::{MediaControlEvent, MediaPlayback};
use crate::model::{
    change_actions, change_orders, event_actions, event_orders, event_queue, key_types,
    lifecycle_actions, load_queue, media_control_order, media_playback, notice_change,
    notice_of, order, playback_items, player_behavior, seek_position,
    service_actions, settings_orders, update_orders,
};
use crate::player;
use crate::player::{CommandView, DoubleBits, EventView, NormalizationLevel};
use crate::queue::queue_entries;
use vstd::prelude::*;

verus! {

/// The start position that goes to the player is one of the queue's, whatever was asked for; an
/// empty queue starts at its front. A position of the queue goes through unchanged.
pub proof fn law_start_position_in_queue(entries: Seq<QueueEntry>, position: nat)
    ensures
        load_queue(entries, position) matches CommandView::LoadQueue { items, position: start } && {
            &&& items.len() == entries.len()
            &&& start < items.len() || start == items.len() == 0
            &&& position < entries.len() ==> start == position
        },
{
}

/// The player's queue has the entries of the application's queue in the same order. Loudness is
/// evened out over the album for the entries that were started from one, and for no others.
pub proof fn law_player_queue_matches(entries: Seq<QueueEntry>, index: int)
    requires
        0 <= index < entries.len(),
    ensures
        playback_items(entries)[index].item_id == entries[index].item.id,
        playback_items(entries)[index].norm_level == NormalizationLevel::Album
            <==> entries[index].origin is Album,
{
}

/// Playing tracks loads into the player the queue that the application then has, each item with
/// the origin that was given.
pub proof fn law_play_tracks_loads_the_queue(payload: PlaybackPayload, data: AppState)
    ensures
        event_orders(Event::PlayTracks(payload), data) == seq![
            order(
                load_queue(event_queue(Event::PlayTracks(payload), data), payload.position as nat),
            ),
        ],
        event_queue(Event::PlayTracks(payload), data).len() == payload.items@.len(),
        forall|i: int|
            #![trigger event_queue(Event::PlayTracks(payload), data)[i]]
            0 <= i < payload.items@.len() ==> {
                &&& event_queue(Event::PlayTracks(payload), data)[i].item == payload.items@[i]
                &&& event_queue(Event::PlayTracks(payload), data)[i].origin == payload.origin
            },
{
}

/// A seek by an arrow key ends within the item, and does not go the wrong way: forward it ends
/// where it began or later, unless the item has ended before that; backward, where it began or
/// earlier. From a span in range it ends at a span in range.
pub proof fn law_seek_stays_in_item(
    progress: Duration,
    step: nat,
    duration: Duration,
    forward: bool,
)
    requires
        forward ==> progress.nanos + step <= MAX_NANOS,
    ensures
        seek_position(progress, step, duration, forward).nanos <= duration.nanos,
        forward && progress.nanos <= duration.nanos ==> progress.nanos <= seek_position(
            progress,
            step,
            duration,
            forward,
        ).nanos,
        !forward ==> seek_position(progress, step, duration, forward).nanos <= progress.nanos,
        progress.wf() ==> seek_position(progress, step, duration, forward).wf(),
{
}

/// A seek back undoes a seek forward that did not reach the end of the item.
pub proof fn law_seek_back_undoes_forward(progress: Duration, step: nat, duration: Duration)
    requires
        progress.nanos + step <= MAX_NANOS,
        progress.nanos + step <= duration.nanos,
    ensures
        seek_position(seek_position(progress, step, duration, true), step, duration, false)
            == progress,
{
}

/// A seek forward undoes a seek back that did not reach the start of the item.
pub proof fn law_seek_forward_undoes_back(progress: Duration, step: nat, duration: Duration)
    requires
        step <= progress.nanos <= MAX_NANOS,
        progress.nanos <= duration.nanos,
    ensures
        seek_position(seek_position(progress, step, duration, false), step, duration, true)
            == progress,
{
}

/// The controller leaves the event to the child: it is no event of playback and no key that has a
/// meaning.
pub open spec fn is_left_to_child(event: Event) -> bool {
    match event {
        Event::Other => true,
        Event::KeyDown(key) => key.code == Code::Other && !key_types(key, "+"@) && !key_types(
            key,
            "-"@,
        ),
        _ => false,
    }
}

/// The step ends the handling of an event.
pub open spec fn ends_handling(action: Action) -> bool {
    action is RequestFocus || action is SetHandled || action is ForwardToChild
}

/// Among the steps that an event calls for at once, exactly one settles it, the last: the event is
/// passed on to the child if it is left to it, takes the focus if that is what it asks for, and is
/// marked as handled otherwise.
pub proof fn law_every_event_is_settled(event: Event, data: AppState)
    ensures
        event_actions(event, data).len() > 0,
        event_actions(event, data).last() == if is_left_to_child(event) {
            Action::ForwardToChild
        } else if event is SetFocus {
            Action::RequestFocus
        } else {
            Action::SetHandled
        },
        forall|i: int|
            0 <= i < event_actions(event, data).len() - 1 ==> !ends_handling(
                #[trigger] event_actions(event, data)[i],
            ),
{
}

/// The steps that follow from a change do not settle an event a second time.
pub proof fn law_changes_settle_nothing(
    change: StateChange,
    controls: bool,
    data: AppState,
    index: int,
)
    requires
        0 <= index < change_actions(change, controls, data).len(),
    ensures
        !ends_handling(change_actions(change, controls, data)[index]),
        !(change_actions(change, controls, data)[index] is Apply),
{
}

/// An event that is left to the child has no other effect: nothing goes to the player, and the
/// queue stays.
pub proof fn law_child_events_have_no_effect(event: Event, data: AppState)
    requires
        is_left_to_child(event),
    ensures
        event_actions(event, data) == seq![Action::ForwardToChild],
        event_orders(event, data) == Seq::<EventView>::empty(),
        event_queue(event, data) == queue_entries(data.playback.queue),
{
}

/// The change that an event has the application make, if any.
pub open spec fn event_change(event: Event) -> Option<StateChange> {
    match event {
        Event::Notice { notice, queued } => notice_change(notice, queued),
        Event::AddToQueue { entry, .. } => Some(StateChange::AddQueuedEntry(entry)),
        Event::PlayQueueBehavior(behavior) => Some(StateChange::SetQueueBehavior(behavior)),
        _ => None,
    }
}

/// The orders that an event gives in all, with those that follow from its change.
pub open spec fn all_orders(event: Event, data: AppState) -> Seq<EventView> {
    match event_change(event) {
        Some(change) => event_orders(event, data) + change_orders(change),
        None => event_orders(event, data),
    }
}

/// An event has the application make one change at most, which is the first step it calls for.
pub proof fn law_one_change_at_most(event: Event, data: AppState)
    ensures
        event_change(event) matches Some(change) ==> event_actions(event, data)[0]
            == Action::Apply(change),
        event_change(event) is None ==> forall|i: int|
            0 <= i < event_actions(event, data).len() ==> !(#[trigger] event_actions(
                event,
                data,
            )[i] is Apply),
        forall|i: int|
            1 <= i < event_actions(event, data).len() ==> !(#[trigger] event_actions(
                event,
                data,
            )[i] is Apply),
{
}

/// One event gives the player one order at most, counting what follows from its change. The
/// controller never sends a report of its own.
pub proof fn law_one_order_at_most(event: Event, data: AppState)
    ensures
        all_orders(event, data).len() <= 1,
        forall|i: int|
            0 <= i < all_orders(event, data).len() ==> (#[trigger] all_orders(event, data)[i])
                is Command,
{
}

/// A notice of the player never gives the player an order, so its reports cannot set off a chain
/// of orders.
pub proof fn law_notices_give_no_orders(
    notice: PlayerNotice,
    queued: Option<QueueEntry>,
    data: AppState,
)
    ensures
        all_orders(Event::Notice { notice, queued }, data) == Seq::<EventView>::empty(),
{
    assert(all_orders(Event::Notice { notice, queued }, data) =~= Seq::<EventView>::empty());
}

/// The player reacts to every message on its channel, once, as the last step. The user interface is
/// told before that, of the messages that it is to know of and of no others.
pub proof fn law_player_handles_every_message(event: EventView)
    ensures
        service_actions(event).last() == ServiceAction::Handle,
        !service_actions(event).drop_last().contains(ServiceAction::Handle),
        forall|notice: PlayerNotice|
            #[trigger] service_actions(event).contains(ServiceAction::Forward(notice))
                <==> notice_of(event) == Some(notice),
{
    let actions = service_actions(event);
    if notice_of(event) is Some {
        assert(actions[0] == ServiceAction::Forward(notice_of(event)->0));
    }
}

/// An order on the player's channel is not reported to the user interface.
pub proof fn law_orders_are_not_noticed(command: CommandView)
    ensures
        notice_of(order(command)) is None,
{
}

/// No two queue orders of the user become one in the player.
pub proof fn law_queue_behaviors_stay_apart(one: QueueBehavior, other: QueueBehavior)
    requires
        one != other,
    ensures
        player_behavior(one) != player_behavior(other),
{
}

/// No two media control events stand for the same order.
pub proof fn law_media_controls_stay_apart(one: MediaControlEvent, other: MediaControlEvent)
    requires
        media_control_order(one) is Some,
        media_control_order(one) == media_control_order(other),
    ensures
        one == other,
{
}

/// The media controls show an item as playing, or as paused, exactly when it is; while it is being
/// loaded they show that nothing plays.
pub proof fn law_media_controls_show_the_state(playback: Playback)
    ensures
        media_playback(playback) is Playing <==> playback.state == PlaybackState::Playing,
        media_playback(playback) is Paused <==> playback.state == PlaybackState::Paused,
        media_playback(playback) == MediaPlayback::Stopped <==> playback.state
            == PlaybackState::Loading || playback.state == PlaybackState::Stopped,
{
}

/// Without media controls, no step asks anything of them.
pub proof fn law_no_steps_for_absent_controls(change: StateChange, data: AppState, index: int)
    requires
        0 <= index < change_actions(change, false, data).len(),
    ensures
        !(change_actions(change, false, data)[index] is SetMediaPlayback),
        !(change_actions(change, false, data)[index] is SetMediaMetadata),
{
}

/// Lyrics are shown only on the lyrics page, only when an item starts to play, and only those of
/// the item that plays.
pub proof fn law_lyrics_follow_the_item(
    change: StateChange,
    controls: bool,
    data: AppState,
    index: int,
)
    requires
        0 <= index < change_actions(change, controls, data).len(),
        change_actions(change, controls, data)[index] is ShowLyrics,
    ensures
        data.nav is Lyrics,
        change is StartPlayback,
        data.playback.now_playing matches Some(now_playing) && change_actions(
            change,
            controls,
            data,
        )[index] == Action::ShowLyrics(now_playing),
{
}

/// Every event in the widget's life reaches the child, as the last step. The focus is asked for
/// when the widget is added and when no widget has the focus any more; the player is opened when
/// the widget is added, before anything else.
pub proof fn law_lifecycle_reaches_the_child(event: LifeCycle)
    ensures
        lifecycle_actions(event).last() == LifeCycleAction::ForwardToChild,
        lifecycle_actions(event).drop_last().contains(LifeCycleAction::SubmitSetFocus) <==> (event
            == LifeCycle::WidgetAdded || event == (LifeCycle::RouteFocusChanged {
            to_nowhere: true,
        })),
        lifecycle_actions(event)[0] == LifeCycleAction::OpenPlayer <==> event
            == LifeCycle::WidgetAdded,
{
    let earlier = lifecycle_actions(event).drop_last();
    if event == LifeCycle::WidgetAdded {
        assert(earlier[1] == LifeCycleAction::SubmitSetFocus);
    } else if event == (LifeCycle::RouteFocusChanged { to_nowhere: true }) {
        assert(earlier[0] == LifeCycleAction::SubmitSetFocus);
    } else {
        assert(earlier.len() == 0);
    }
}

/// `after` is `before` once it has offered the player something or nothing.
pub open spec fn follows(after: PlaybackController, before: PlaybackController) -> bool {
    exists|events: Seq<EventView>| #[trigger] after.offered_since(before, events)
}

/// `run` is what becomes of a new controller: at the calls that `openings` marks it takes over a
/// player, at all others it offers the player something or nothing.
pub open spec fn is_run(run: Seq<PlaybackController>, openings: Seq<bool>) -> bool {
    &&& run.len() == openings.len() + 1
    &&& run[0].channel() is None && !run[0].has_media_controls()
    &&& forall|i: int|
        0 <= i < openings.len() ==> if #[trigger] openings[i] {
            run[i + 1].channel() is Some
        } else {
            follows(run[i + 1], run[i])
        }
}

/// A controller has a player's channel exactly if it has taken over a player. Media controls are
/// there only with a player. No call but the one that takes over a player changes either.
pub proof fn law_player_comes_with_its_opening(run: Seq<PlaybackController>, openings: Seq<bool>)
    requires
        is_run(run, openings),
    ensures
        run.last().channel() is Some <==> openings.contains(true),
        run.last().has_media_controls() ==> run.last().channel() is Some,
        openings.len() > 0 && !openings.last() ==> {
            &&& run.last().channel() is Some <==> run[run.len() - 2].channel() is Some
            &&& run.last().has_media_controls() == run[run.len() - 2].has_media_controls()
        },
    decreases openings.len(),
{
    if openings.len() > 0 {
        let last = openings.len() - 1;
        let earlier = openings.drop_last();
        assert forall|i: int| 0 <= i < earlier.len() implies if #[trigger] earlier[i] {
            run.drop_last()[i + 1].channel() is Some
        } else {
            follows(run.drop_last()[i + 1], run.drop_last()[i])
        } by {
            assert(openings[i] == earlier[i]);
            assert(run.drop_last()[i + 1] == run[i + 1]);
            assert(run.drop_last()[i] == run[i]);
        }
        law_player_comes_with_its_opening(run.drop_last(), earlier);
        assert(run.drop_last().last() == run[last]);
        assert(openings =~= earlier.push(openings[last]));
        if openings[last] {
            assert(openings.contains(true));
        } else {
            if earlier.contains(true) {
                let i = earlier.index_of(true);
                assert(openings[i]);
            }
            if openings.contains(true) {
                let i = openings.index_of(true);
                assert(earlier[i]);
            }
        }
    }
}

/// A volume key and the update that follows it give the player one order if the volume has changed,
/// the one to take the new volume, and none if it has not.
pub proof fn law_volume_keys_tell_the_new_volume(
    key: KeyEvent,
    old_data: AppState,
    data: AppState,
)
    requires
        key.code == Code::Other,
        key_types(key, "+"@) || key_types(key, "-"@),
    ensures
        all_orders(Event::KeyDown(key), old_data) + update_orders(old_data, data) == if (
        data.playback.volume != old_data.playback.volume) {
            seq![order(CommandView::SetVolume { volume: data.playback.volume })]
        } else {
            seq![]
        },
{
    assert(all_orders(Event::KeyDown(key), old_data) + update_orders(old_data, data)
        =~= update_orders(old_data, data));
}

/// What the controller offers in two stretches is what it offers in one.
pub proof fn law_offers_add_up(
    first: PlaybackController,
    second: PlaybackController,
    third: PlaybackController,
    early: Seq<EventView>,
    late: Seq<EventView>,
)
    requires
        second.offered_since(first, early),
        third.offered_since(second, late),
    ensures
        third.offered_since(first, early + late),
{
    if first.channel() is Some {
        let offered = first.channel()->0.offered();
        assert((offered + early) + late =~= offered + (early + late));
    }
}

/// The volume that the last of these messages to set one has set.
pub open spec fn last_volume(events: Seq<EventView>) -> Option<DoubleBits>
    decreases events.len(),
{
    if events.len() == 0 {
        None
    } else {
        match events.last() {
            EventView::Command(CommandView::SetVolume { volume }) => Some(volume),
            _ => last_volume(events.drop_last()),
        }
    }
}

/// The queue order that the last of these messages to set one has set.
pub open spec fn last_behavior(events: Seq<EventView>) -> Option<player::QueueBehavior>
    decreases events.len(),
{
    if events.len() == 0 {
        None
    } else {
        match events.last() {
            EventView::Command(CommandView::SetQueueBehavior { behavior }) => Some(behavior),
            _ => last_behavior(events.drop_last()),
        }
    }
}

/// Appending one message.
proof fn lemma_last_of_push(events: Seq<EventView>, event: EventView)
    ensures
        last_volume(events + seq![event]) == match event {
            EventView::Command(CommandView::SetVolume { volume }) => Some(volume),
            _ => last_volume(events),
        },
        last_behavior(events + seq![event]) == match event {
            EventView::Command(CommandView::SetQueueBehavior { behavior }) => Some(behavior),
            _ => last_behavior(events),
        },
{
    assert((events + seq![event]).drop_last() =~= events);
}

/// A player that has just been opened is left with the application's volume and queue order.
pub proof fn law_new_player_gets_the_settings(events: Seq<EventView>, data: AppState)
    ensures
        last_volume(events + settings_orders(data)) == Some(data.playback.volume),
        last_behavior(events + settings_orders(data)) == Some(
            player_behavior(data.playback.queue_behavior),
        ),
{
    let first = order(CommandView::SetVolume { volume: data.playback.volume });
    let second = order(
        CommandView::SetQueueBehavior { behavior: player_behavior(data.playback.queue_behavior) },
    );
    lemma_last_of_push(events, first);
    lemma_last_of_push(events + seq![first], second);
    assert(events + settings_orders(data) =~= (events + seq![first]) + seq![second]);
}

/// A player that has the application's volume has it again after an update, and one that has the
/// queue order keeps it.
pub proof fn law_volume_follows_the_state(
    events: Seq<EventView>,
    old_data: AppState,
    data: AppState,
)
    requires
        last_volume(events) == Some(old_data.playback.volume),
    ensures
        last_volume(events + update_orders(old_data, data)) == Some(data.playback.volume),
        last_behavior(events + update_orders(old_data, data)) == last_behavior(events),
{
    if old_data.playback.volume != data.playback.volume {
        lemma_last_of_push(
            events,
            order(CommandView::SetVolume { volume: data.playback.volume }),
        );
    } else {
        assert(events + update_orders(old_data, data) =~= events);
    }
}

/// No event changes the player's volume, and only the choice of a queue order changes the player's
/// queue order, to the one that was chosen.
pub proof fn law_events_keep_the_settings(events: Seq<EventView>, event: Event, data: AppState)
    ensures
        last_volume(events + all_orders(event, data)) == last_volume(events),
        last_behavior(events + all_orders(event, data)) == match event {
            Event::PlayQueueBehavior(behavior) => Some(player_behavior(behavior)),
            _ => last_behavior(events),
        },
{
    let orders = all_orders(event, data);
    law_one_order_at_most(event, data);
    if orders.len() == 0 {
        assert(events + orders =~= events);
    } else {
        assert(orders =~= seq![orders[0]]);
        lemma_last_of_push(events, orders[0]);
    }
}

/// Something that happens to a controller whose player runs.
pub enum Step {
    /// An event is handled, with the change that it calls for.
    Handle { event: Event, data: AppState },
    /// The application's state has changed.
    Update { old_data: AppState, data: AppState },
}

/// The orders that the steps give, in their order.
pub open spec fn trace_orders(steps: Seq<Step>) -> Seq<EventView>
    decreases steps.len(),
{
    if steps.len() == 0 {
        seq![]
    } else {
        trace_orders(steps.drop_last()) + match steps.last() {
            Step::Handle { event, data } => all_orders(event, data),
            Step::Update { old_data, data } => update_orders(old_data, data),
        }
    }
}

/// The volume in the application's state as of the last update among the steps, if it was `volume`
/// before them.
pub open spec fn trace_volume(volume: DoubleBits, steps: Seq<Step>) -> DoubleBits
    decreases steps.len(),
{
    if steps.len() == 0 {
        volume
    } else {
        match steps.last() {
            Step::Update { data, .. } => data.playback.volume,
            Step::Handle { .. } => trace_volume(volume, steps.drop_last()),
        }
    }
}

/// The queue order that the user has chosen after the steps, if it was `behavior` before them.
pub open spec fn trace_behavior(behavior: QueueBehavior, steps: Seq<Step>) -> QueueBehavior
    decreases steps.len(),
{
    if steps.len() == 0 {
        behavior
    } else {
        match steps.last() {
            Step::Handle { event: Event::PlayQueueBehavior(chosen), .. } => chosen,
            _ => trace_behavior(behavior, steps.drop_last()),
        }
    }
}

/// Every update among the steps starts from the volume that the one before it has led to.
pub open spec fn trace_linked(volume: DoubleBits, steps: Seq<Step>) -> bool
    decreases steps.len(),
{
    steps.len() > 0 ==> {
        &&& trace_linked(volume, steps.drop_last())
        &&& steps.last() matches Step::Update { old_data, .. } ==> old_data.playback.volume
            == trace_volume(volume, steps.drop_last())
    }
}

/// From the moment the player is opened, whatever events and updates follow, the volume that the
/// player was last told is the application's as of the last update, and the queue order that it was
/// last told is the one that the user chose last.
pub proof fn law_player_keeps_up_with_the_settings(
    events: Seq<EventView>,
    data: AppState,
    steps: Seq<Step>,
)
    requires
        trace_linked(data.playback.volume, steps),
    ensures
        last_volume(events + settings_orders(data) + trace_orders(steps)) == Some(
            trace_volume(data.playback.volume, steps),
        ),
        last_behavior(events + settings_orders(data) + trace_orders(steps)) == Some(
            player_behavior(trace_behavior(data.playback.queue_behavior, steps)),
        ),
    decreases steps.len(),
{
    let opened = events + settings_orders(data);
    if steps.len() == 0 {
        law_new_player_gets_the_settings(events, data);
        assert(opened + trace_orders(steps) =~= opened);
    } else {
        let earlier = steps.drop_last();
        law_player_keeps_up_with_the_settings(events, data, earlier);
        let so_far = opened + trace_orders(earlier);
        match steps.last() {
            Step::Handle { event, data: at } => {
                law_events_keep_the_settings(so_far, event, at);
                assert(opened + trace_orders(steps) =~= so_far + all_orders(event, at));
            },
            Step::Update { old_data, data: at } => {
                law_volume_follows_the_state(so_far, old_data, at);
                assert(opened + trace_orders(steps) =~= so_far + update_orders(old_data, at));
            },
        }
    }
}

} // verus!
