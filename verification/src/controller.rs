//! The controller between the user interface, the media controls and the player.

use crate::channel::PlayerSender;
use crate::data::{
    AppState, Nav, NowPlaying, Playback, PlaybackOrigin, PlaybackState, QueueBehavior,
    QueueEntry,
};
use crate::duration::{Duration, MAX_NANOS};
use crate::event::{
    Action, Code, Event, KbKey, KeyEvent, LifeCycle, LifeCycleAction, PlaybackPayload,
    PlayerNotice, Reaction, ServiceAction, StateChange, UpdateAction, UpdateReaction,
};
use crate::media::{MediaControlEvent, MediaMetadata, MediaPlayback, MediaPosition, PlatformConfig};
use crate::model::{
    change_actions, change_orders, event_actions, event_in_range, event_orders, event_queue,
    key_actions, key_orders, lifecycle_actions, load_queue, media_control_order, media_metadata,
    media_playback, metadata_shown, notice_change, order, payload_entries,
    playback_items, playback_shown, player_behavior, seek_in_range, seek_orders,
    service_actions, settings_orders, taken, update_actions, update_orders,
};
use crate::player;
use crate::player::{
    CommandView, DoubleBits, EventView, NormalizationLevel, PlaybackItem, PlayerCommand,
    PlayerEvent,
};
use crate::queue::{queue_collect, queue_entries, queue_get, queue_len};
use im::Vector;
use vstd::prelude::*;

verus! {

/// Holds the player's channel once the player runs, and knows whether the media controls are
/// there.
pub struct PlaybackController {
    sender: Option<PlayerSender>,
    media_controls: bool,
}

impl PlaybackController {
    /// The player's channel, if the player runs.
    pub closed spec fn channel(self) -> Option<PlayerSender> {
        self.sender
    }

    /// The media controls are there.
    pub closed spec fn has_media_controls(self) -> bool {
        self.media_controls
    }

    /// The player's channel has room for every message, and media controls come only with a player.
    pub open spec fn wf(self) -> bool {
        &&& self.channel() matches Some(sender) ==> sender.wf()
        &&& self.has_media_controls() ==> self.channel() is Some
    }

    /// This is the controller `before` once it has offered `events`, in this order, to the player.
    /// Without a player they go nowhere.
    pub open spec fn offered_since(self, before: Self, events: Seq<EventView>) -> bool {
        &&& self.has_media_controls() == before.has_media_controls()
        &&& self.channel() is Some <==> before.channel() is Some
        &&& before.channel() is Some ==> self.channel()->0.offered()
            == before.channel()->0.offered() + events
    }

    /// This is the controller `before` once it has offered `events`, one message or none, to the
    /// player, and has `refused` to show for it: the message, if the player's channel has not taken
    /// it.
    pub open spec fn told_since(
        self,
        before: Self,
        events: Seq<EventView>,
        refused: Option<PlayerEvent>,
    ) -> bool {
        &&& self.offered_since(before, events)
        &&& refused matches Some(event) ==> events == seq![event@]
        &&& before.channel() is None ==> refused is None
        &&& before.channel() is Some ==> self.channel()->0.accepted()
            == before.channel()->0.accepted() + taken(events, refused)
    }

    /// A controller without a player and without media controls.
    pub fn new() -> (controller: Self)
        ensures
            controller.wf(),
            controller.channel() is None,
            !controller.has_media_controls(),
    {
        Self { sender: None, media_controls: false }
    }

    /// Offers `event` to the player, if it runs. The event comes back if the player is gone.
    pub fn send(&mut self, event: PlayerEvent) -> (refused: Option<PlayerEvent>)
        requires
            old(self).wf(),
        ensures
            final(self).wf(),
            final(self).told_since(*old(self), seq![event@], refused),
    {
        let ghost offer = event@;
        match &mut self.sender {
            Some(sender) => {
                let ghost offered = sender.offered();
                let ghost accepted = sender.accepted();
                let sent = sender.send(event);
                assert(offered.push(offer) =~= offered + seq![offer]);
                assert(accepted.push(offer) =~= accepted + seq![offer]);
                assert(accepted =~= accepted + Seq::<EventView>::empty());
                match sent {
                    Ok(()) => None,
                    Err(returned) => Some(returned),
                }
            },
            None => None,
        }
    }

    /// Has the player play `items` from `position` on, or from the front if there is no such item.
    /// This order, like all others, comes back if the player is gone.
    pub fn play(&mut self, items: &Vector<QueueEntry>, position: usize) -> (refused:
        Option<PlayerEvent>)
        requires
            old(self).wf(),
        ensures
            final(self).wf(),
            final(self).told_since(
                *old(self),
                seq![order(load_queue(queue_entries(*items), position as nat))],
                refused,
            ),
    {
        let ghost entries = queue_entries(*items);
        let len: usize = queue_len(items);
        let mut playback_items_vec: Vec<PlaybackItem> = Vec::new();
        let mut index: usize = 0;
        while index < len
            invariant
                entries == queue_entries(*items),
                len == entries.len(),
                index <= len,
                playback_items_vec@ =~= playback_items(entries).take(index as int),
            decreases len - index,
        {
            if let Some(queued) = queue_get(items, index) {
                playback_items_vec.push(
                    PlaybackItem {
                        item_id: queued.item.id,
                        norm_level: match queued.origin {
                            PlaybackOrigin::Album(_) => NormalizationLevel::Album,
                            _ => NormalizationLevel::Track,
                        },
                    },
                );
            }
            index += 1;
        }
        assert(playback_items_vec@ =~= playback_items(entries));
        // Make sure position is within bounds
        let position: usize = if position >= playback_items_vec.len() {
            0
        } else {
            position
        };
        self.send(
            PlayerEvent::Command(
                PlayerCommand::LoadQueue { items: playback_items_vec, position },
            ),
        )
    }

    /// Has the player pause.
    pub fn pause(&mut self) -> (refused: Option<PlayerEvent>)
        requires
            old(self).wf(),
        ensures
            final(self).wf(),
            final(self).told_since(*old(self), seq![order(CommandView::Pause)], refused),
    {
        self.send(PlayerEvent::Command(PlayerCommand::Pause))
    }

    /// Has the player go on after a pause.
    pub fn resume(&mut self) -> (refused: Option<PlayerEvent>)
        requires
            old(self).wf(),
        ensures
            final(self).wf(),
            final(self).told_since(*old(self), seq![order(CommandView::Resume)], refused),
    {
        self.send(PlayerEvent::Command(PlayerCommand::Resume))
    }

    /// Has the player pause if it plays, and go on if it is paused.
    pub fn pause_or_resume(&mut self) -> (refused: Option<PlayerEvent>)
        requires
            old(self).wf(),
        ensures
            final(self).wf(),
            final(self).told_since(*old(self), seq![order(CommandView::PauseOrResume)], refused),
    {
        self.send(PlayerEvent::Command(PlayerCommand::PauseOrResume))
    }

    /// Has the player go back to the previous item.
    pub fn previous(&mut self) -> (refused: Option<PlayerEvent>)
        requires
            old(self).wf(),
        ensures
            final(self).wf(),
            final(self).told_since(*old(self), seq![order(CommandView::Previous)], refused),
    {
        self.send(PlayerEvent::Command(PlayerCommand::Previous))
    }

    /// Has the player go on to the next item.
    pub fn next(&mut self) -> (refused: Option<PlayerEvent>)
        requires
            old(self).wf(),
        ensures
            final(self).wf(),
            final(self).told_since(*old(self), seq![order(CommandView::Next)], refused),
    {
        self.send(PlayerEvent::Command(PlayerCommand::Next))
    }

    /// Has the player stop.
    pub fn stop(&mut self) -> (refused: Option<PlayerEvent>)
        requires
            old(self).wf(),
        ensures
            final(self).wf(),
            final(self).told_since(*old(self), seq![order(CommandView::Stop)], refused),
    {
        self.send(PlayerEvent::Command(PlayerCommand::Stop))
    }

    /// Has the player seek to `position` in the item.
    pub fn seek(&mut self, position: Duration) -> (refused: Option<PlayerEvent>)
        requires
            old(self).wf(),
        ensures
            final(self).wf(),
            final(self).told_since(
                *old(self),
                seq![order(CommandView::Seek { position })],
                refused,
            ),
    {
        self.send(PlayerEvent::Command(PlayerCommand::Seek { position }))
    }

    /// Tells whether [`Self::seek_relative`] stays in the range of time spans.
    pub fn can_seek_relative(data: &AppState, forward: bool) -> (fits: bool)
        ensures
            fits == seek_in_range(*data, forward),
    {
        match &data.playback.now_playing {
            Some(now_playing) => {
                let step = Duration::from_secs(data.config.seek_duration as u64);
                !forward || now_playing.progress.nanos <= MAX_NANOS && step.nanos <= MAX_NANOS
                    - now_playing.progress.nanos
            },
            None => true,
        }
    }

    /// Has the player seek by the configured time from where it is, within the item. Nothing
    /// happens if there is no item.
    pub fn seek_relative(&mut self, data: &AppState, forward: bool) -> (refused:
        Option<PlayerEvent>)
        requires
            old(self).wf(),
            seek_in_range(*data, forward),
        ensures
            final(self).wf(),
            final(self).told_since(*old(self), seek_orders(*data, forward), refused),
    {
        if let Some(now_playing) = &data.playback.now_playing {
            let seek_duration = Duration::from_secs(data.config.seek_duration as u64);

            // Calculate new position, ensuring it does not exceed duration for forward seeks.
            let moved = if forward {
                now_playing.progress.plus(seek_duration)
            } else {
                now_playing.progress.saturating_sub(seek_duration)
            };
            // Safeguard to not exceed the track duration.
            let seek_position = moved.min(now_playing.item.duration);

            self.seek(seek_position)
        } else {
            proof {
                self.lemma_nothing_told();
            }
            None
        }
    }

    /// A controller that has done nothing since has told the player nothing.
    proof fn lemma_nothing_told(self)
        ensures
            self.told_since(self, seq![], None),
    {
        if self.channel() is Some {
            let offered = self.channel()->0.offered();
            let accepted = self.channel()->0.accepted();
            assert(offered + seq![] =~= offered);
            assert(accepted + seq![] =~= accepted);
        }
    }

    /// Sets the player's volume.
    pub fn set_volume(&mut self, volume: DoubleBits) -> (refused: Option<PlayerEvent>)
        requires
            old(self).wf(),
        ensures
            final(self).wf(),
            final(self).told_since(
                *old(self),
                seq![order(CommandView::SetVolume { volume })],
                refused,
            ),
    {
        self.send(PlayerEvent::Command(PlayerCommand::SetVolume { volume }))
    }

    /// Adds `item` to the player's queue.
    pub fn add_to_queue(&mut self, item: &PlaybackItem) -> (refused: Option<PlayerEvent>)
        requires
            old(self).wf(),
        ensures
            final(self).wf(),
            final(self).told_since(
                *old(self),
                seq![order(CommandView::AddToQueue { item: *item })],
                refused,
            ),
    {
        self.send(PlayerEvent::Command(PlayerCommand::AddToQueue { item: *item }))
    }

    /// Sets the order in which the player goes through its queue.
    pub fn set_queue_behavior(&mut self, behavior: QueueBehavior) -> (refused: Option<PlayerEvent>)
        requires
            old(self).wf(),
        ensures
            final(self).wf(),
            final(self).told_since(
                *old(self),
                seq![order(CommandView::SetQueueBehavior { behavior: player_behavior(behavior) })],
                refused,
            ),
    {
        self.send(
            PlayerEvent::Command(
                PlayerCommand::SetQueueBehavior {
                    behavior: match behavior {
                        QueueBehavior::Sequential => player::QueueBehavior::Sequential,
                        QueueBehavior::Random => player::QueueBehavior::Random,
                        QueueBehavior::LoopTrack => player::QueueBehavior::LoopTrack,
                        QueueBehavior::LoopAll => player::QueueBehavior::LoopAll,
                    },
                },
            ),
        )
    }

    /// The steps that a message on the player's channel calls for.
    pub fn service_event(event: &PlayerEvent) -> (actions: Vec<ServiceAction>)
        ensures
            actions@ == service_actions(event@),
    {
        let notice = match event {
            PlayerEvent::Loading { item } => Some(PlayerNotice::Loading(item.item_id)),
            PlayerEvent::Playing { path, position } => Some(
                PlayerNotice::Playing(path.item_id, *position),
            ),
            PlayerEvent::Pausing => Some(PlayerNotice::Pausing),
            PlayerEvent::Resuming => Some(PlayerNotice::Resuming),
            PlayerEvent::Position { position } => Some(PlayerNotice::Progress(*position)),
            PlayerEvent::Blocked => Some(PlayerNotice::Blocked),
            PlayerEvent::Stopped => Some(PlayerNotice::Stopped),
            _ => None,
        };
        let mut actions: Vec<ServiceAction> = Vec::new();
        // Forward events that affect the UI state to the UI thread.
        if let Some(notice) = notice {
            actions.push(ServiceAction::Forward(notice));
        }
        // Let the player react to its internal events.
        actions.push(ServiceAction::Handle);
        assert(actions@ =~= service_actions(event@));
        actions
    }

    /// What to set up the media controls with, given the window's handle where there is one.
    pub fn media_controls_config(hwnd: Option<usize>) -> (config: PlatformConfig)
        ensures
            config.dbus_name@ == "psst"@,
            config.display_name@ == "Psst"@,
            config.hwnd == hwnd,
    {
        PlatformConfig { dbus_name: "psst".to_string(), display_name: "Psst".to_string(), hwnd }
    }

    /// Hands the player the order that `event` stands for, if it stands for one. The order comes
    /// back if the player is gone.
    pub fn handle_media_control_event(event: MediaControlEvent, sender: &mut PlayerSender) -> (sent:
        Result<(), PlayerEvent>)
        requires
            old(sender).wf(),
        ensures
            final(sender).wf(),
            media_control_order(event) matches Some(command) ==> {
                &&& final(sender).offered() == old(sender).offered().push(order(command))
                &&& final(sender).accepted() == if sent is Ok {
                    old(sender).accepted().push(order(command))
                } else {
                    old(sender).accepted()
                }
                &&& sent matches Err(returned) ==> returned@ == order(command)
            },
            media_control_order(event) is None ==> *final(sender) == *old(sender) && sent is Ok,
    {
        let command = match event {
            MediaControlEvent::Play => PlayerEvent::Command(PlayerCommand::Resume),
            MediaControlEvent::Pause => PlayerEvent::Command(PlayerCommand::Pause),
            MediaControlEvent::Toggle => PlayerEvent::Command(PlayerCommand::PauseOrResume),
            MediaControlEvent::Next => PlayerEvent::Command(PlayerCommand::Next),
            MediaControlEvent::Previous => PlayerEvent::Command(PlayerCommand::Previous),
            MediaControlEvent::SetPosition(MediaPosition(duration)) => {
                PlayerEvent::Command(PlayerCommand::Seek { position: duration })
            },
            _ => {
                return Ok(());
            },
        };
        sender.send(command)
    }

    /// What the media controls are to show of the state of playback: nothing without them.
    pub fn update_media_control_playback(&self, playback: &Playback) -> (shown: Option<
        MediaPlayback,
    >)
        ensures
            shown == if self.has_media_controls() {
                Some(media_playback(*playback))
            } else {
                None
            },
    {
        if self.media_controls {
            let progress = match &playback.now_playing {
                Some(now_playing) => Some(MediaPosition(now_playing.progress)),
                None => None,
            };
            Some(
                match playback.state {
                    PlaybackState::Loading | PlaybackState::Stopped => MediaPlayback::Stopped,
                    PlaybackState::Playing => MediaPlayback::Playing { progress },
                    PlaybackState::Paused => MediaPlayback::Paused { progress },
                },
            )
        } else {
            None
        }
    }

    /// What the media controls are to show of the item that plays: nothing without them, or if
    /// there is no item.
    pub fn update_media_control_metadata(&self, playback: &Playback) -> (shown: Option<
        MediaMetadata,
    >)
        ensures
            shown == match playback.now_playing {
                Some(now_playing) if self.has_media_controls() => Some(
                    media_metadata(now_playing),
                ),
                _ => None,
            },
    {
        if self.media_controls {
            if let Some(now_playing) = &playback.now_playing {
                let title = now_playing.item.name.clone();
                let album = match &now_playing.item.track {
                    Some(track) => match &track.album {
                        Some(album) => Some(album.name.clone()),
                        None => None,
                    },
                    None => None,
                };
                let artist = match &now_playing.item.track {
                    Some(track) => Some(track.artist_name.clone()),
                    None => None,
                };
                let cover_url = match &now_playing.cover_image_url {
                    Some(url) => Some(url.clone()),
                    None => None,
                };
                return Some(
                    MediaMetadata {
                        title: Some(title),
                        album,
                        artist,
                        duration: Some(now_playing.item.duration),
                        cover_url,
                    },
                );
            }
        }
        None
    }

    /// The item whose lyrics are to be shown: the one that plays, if the lyrics page is open.
    pub fn update_lyrics(&self, data: &AppState, now_playing: &NowPlaying) -> (shown: Option<
        NowPlaying,
    >)
        ensures
            shown == if data.nav is Lyrics {
                Some(*now_playing)
            } else {
                None
            },
    {
        if matches!(data.nav, Nav::Lyrics) {
            Some(now_playing.clone())
        } else {
            None
        }
    }

    /// Takes over a player that has just been started: its channel, whether the media controls
    /// could be set up, and the values that the application has for it. Each of the two orders that
    /// carry these values comes back if the player is gone.
    pub fn player_opened(
        &mut self,
        sender: PlayerSender,
        media_controls: bool,
        data: &AppState,
    ) -> (refused: (Option<PlayerEvent>, Option<PlayerEvent>))
        requires
            sender.wf(),
        ensures
            final(self).wf(),
            final(self).has_media_controls() == media_controls,
            final(self).channel() is Some,
            final(self).channel()->0.offered() == sender.offered() + settings_orders(*data),
            final(self).channel()->0.accepted() == sender.accepted() + taken(
                seq![settings_orders(*data)[0]],
                refused.0,
            ) + taken(seq![settings_orders(*data)[1]], refused.1),
            refused.0 matches Some(event) ==> event@ == settings_orders(*data)[0],
            refused.1 matches Some(event) ==> event@ == settings_orders(*data)[1],
    {
        self.media_controls = media_controls;
        self.sender = Some(sender);

        // Initialize values loaded from the config.
        let volume = self.set_volume(data.playback.volume);
        let behavior = self.set_queue_behavior(data.playback.queue_behavior);
        proof {
            let orders = settings_orders(*data);
            assert(self.channel()->0.offered() =~= sender.offered() + orders);
            assert(seq![orders[0]][0] == orders[0]);
            assert(volume matches Some(event) ==> seq![event@][0] == event@);
            assert(behavior matches Some(event) ==> seq![event@][0] == event@);
        }
        (volume, behavior)
    }

    /// The steps that an event in the widget's life calls for.
    pub fn lifecycle(event: LifeCycle) -> (actions: Vec<LifeCycleAction>)
        ensures
            actions@ == lifecycle_actions(event),
    {
        let mut actions: Vec<LifeCycleAction> = Vec::new();
        match event {
            LifeCycle::WidgetAdded => {
                actions.push(LifeCycleAction::OpenPlayer);
                // Request focus so we can receive keyboard events.
                actions.push(LifeCycleAction::SubmitSetFocus);
            },
            LifeCycle::RouteFocusChanged { to_nowhere: true } => {
                // There is no ambient focus, so catch the situation when the focus is being lost
                // and sign up to get focused.
                actions.push(LifeCycleAction::SubmitSetFocus);
            },
            _ => {},
        }
        actions.push(LifeCycleAction::ForwardToChild);
        assert(actions@ =~= lifecycle_actions(event));
        actions
    }

    /// Passes a change of the volume on to the player, and returns the steps that are left to take.
    pub fn update(&mut self, old_data: &AppState, data: &AppState) -> (reaction: UpdateReaction)
        requires
            old(self).wf(),
        ensures
            final(self).wf(),
            final(self).told_since(
                *old(self),
                update_orders(*old_data, *data),
                reaction.refused,
            ),
            reaction.actions@ == update_actions(),
    {
        let refused = if old_data.playback.volume.bits != data.playback.volume.bits {
            self.set_volume(data.playback.volume)
        } else {
            proof {
                self.lemma_nothing_told();
            }
            None
        };
        let mut actions: Vec<UpdateAction> = Vec::new();
        actions.push(UpdateAction::ForwardToChild);
        assert(actions@ =~= update_actions());
        UpdateReaction { refused, actions }
    }

    /// Tells whether `event` keeps to the range of time spans.
    pub fn can_handle(event: &Event, data: &AppState) -> (fits: bool)
        ensures
            fits == event_in_range(*event, *data),
    {
        match event {
            Event::KeyDown(key) => match key.code {
                Code::ArrowRight => key.shift || Self::can_seek_relative(data, true),
                _ => true,
            },
            _ => true,
        }
    }

    /// Reacts to a key.
    fn key_down(&mut self, key: KeyEvent, data: &AppState) -> (reaction: Reaction)
        requires
            old(self).wf(),
            key.code is ArrowRight && !key.shift ==> seek_in_range(*data, true),
        ensures
            final(self).wf(),
            final(self).told_since(*old(self), key_orders(key, *data), reaction.refused),
            reaction.actions@ == key_actions(key),
    {
        let mut refused = None;
        let mut actions: Vec<Action> = Vec::new();
        match key.code {
            Code::Space => {
                refused = self.pause_or_resume();
                actions.push(Action::SetHandled);
            },
            Code::ArrowRight => {
                if key.shift {
                    refused = self.next();
                } else {
                    refused = self.seek_relative(data, true);
                }
                actions.push(Action::SetHandled);
            },
            Code::ArrowLeft => {
                if key.shift {
                    refused = self.previous();
                } else {
                    refused = self.seek_relative(data, false);
                }
                actions.push(Action::SetHandled);
            },
            Code::Other => {
                proof {
                    self.lemma_nothing_told();
                    reveal_strlit("+");
                    reveal_strlit("-");
                }
                match key.key {
                    KbKey::Character(typed) => {
                        if typed == "+".to_string() {
                            actions.push(Action::RaiseVolume);
                            actions.push(Action::SetHandled);
                        } else if typed == "-".to_string() {
                            actions.push(Action::LowerVolume);
                            actions.push(Action::SetHandled);
                        } else {
                            actions.push(Action::ForwardToChild);
                        }
                    },
                    KbKey::Other => {
                        actions.push(Action::ForwardToChild);
                    },
                }
            },
        }
        assert(actions@ =~= key_actions(key));
        Reaction { refused, actions }
    }

    /// The steps that a notice of the player calls for.
    fn notice_received(notice: PlayerNotice, queued: Option<QueueEntry>) -> (actions: Vec<Action>)
        ensures
            actions@ == match notice_change(notice, queued) {
                Some(change) => seq![Action::Apply(change), Action::SetHandled],
                None => seq![Action::SetHandled],
            },
    {
        let mut actions: Vec<Action> = Vec::new();
        match notice {
            PlayerNotice::Loading(_) => {
                if let Some(queued) = queued {
                    actions.push(
                        Action::Apply(
                            StateChange::LoadingPlayback {
                                item: queued.item,
                                origin: queued.origin,
                            },
                        ),
                    );
                }
            },
            PlayerNotice::Playing(_, progress) => {
                if let Some(queued) = queued {
                    actions.push(
                        Action::Apply(
                            StateChange::StartPlayback {
                                item: queued.item,
                                origin: queued.origin,
                                progress,
                            },
                        ),
                    );
                }
            },
            PlayerNotice::Progress(progress) => {
                actions.push(Action::Apply(StateChange::ProgressPlayback(progress)));
            },
            PlayerNotice::Pausing => {
                actions.push(Action::Apply(StateChange::PausePlayback));
            },
            PlayerNotice::Resuming => {
                actions.push(Action::Apply(StateChange::ResumePlayback));
            },
            PlayerNotice::Blocked => {
                actions.push(Action::Apply(StateChange::BlockPlayback));
            },
            PlayerNotice::Stopped => {
                actions.push(Action::Apply(StateChange::StopPlayback));
            },
        }
        actions.push(Action::SetHandled);
        actions
    }

    /// The queue that plays the items of `payload`.
    fn queue_of(payload: &PlaybackPayload) -> (queue: Vector<QueueEntry>)
        ensures
            queue_entries(queue) == payload_entries(*payload),
    {
        let mut entries: Vec<QueueEntry> = Vec::new();
        let mut index: usize = 0;
        while index < payload.items.len()
            invariant
                index <= payload.items.len(),
                entries@ =~= payload_entries(*payload).take(index as int),
            decreases payload.items.len() - index,
        {
            entries.push(
                QueueEntry {
                    origin: payload.origin.clone(),
                    item: payload.items[index].clone(),
                },
            );
            index += 1;
        }
        assert(entries@ =~= payload_entries(*payload));
        queue_collect(entries)
    }

    /// Reacts to an event of the user interface: gives the player its orders, replaces the queue
    /// if there is a new one to play, and returns the steps that are left to take.
    pub fn event(&mut self, event: Event, data: &mut AppState) -> (reaction: Reaction)
        requires
            old(self).wf(),
            event_in_range(event, *old(data)),
        ensures
            final(self).wf(),
            final(self).told_since(
                *old(self),
                event_orders(event, *old(data)),
                reaction.refused,
            ),
            reaction.actions@ == event_actions(event, *old(data)),
            queue_entries(final(data).playback.queue) == event_queue(event, *old(data)),
            !(event is PlayTracks) ==> *final(data) == *old(data),
            final(data).playback.state == old(data).playback.state,
            final(data).playback.now_playing == old(data).playback.now_playing,
            final(data).playback.queue_behavior == old(data).playback.queue_behavior,
            final(data).playback.volume == old(data).playback.volume,
            final(data).nav == old(data).nav,
            final(data).config == old(data).config,
    {
        proof {
            self.lemma_nothing_told();
        }
        let mut refused = None;
        let mut actions: Vec<Action> = Vec::new();
        match event {
            Event::SetFocus => {
                actions.push(Action::RequestFocus);
            },
            // Player events.
            Event::Notice { notice, queued } => {
                actions = Self::notice_received(notice, queued);
            },
            // Playback actions.
            Event::PlayTracks(payload) => {
                data.playback.queue = Self::queue_of(&payload);
                refused = self.play(&data.playback.queue, payload.position);
                actions.push(Action::SetHandled);
            },
            Event::PlayPause => {
                refused = self.pause();
                actions.push(Action::SetHandled);
            },
            Event::PlayResume => {
                refused = self.resume();
                actions.push(Action::SetHandled);
            },
            Event::PlayPrevious => {
                refused = self.previous();
                actions.push(Action::SetHandled);
            },
            Event::PlayNext => {
                refused = self.next();
                actions.push(Action::SetHandled);
            },
            Event::PlayStop => {
                refused = self.stop();
                actions.push(Action::SetHandled);
            },
            Event::AddToQueue { entry, item } => {
                refused = self.add_to_queue(&item);
                actions.push(Action::Apply(StateChange::AddQueuedEntry(entry)));
                actions.push(Action::SetHandled);
            },
            Event::PlayQueueBehavior(behavior) => {
                actions.push(Action::Apply(StateChange::SetQueueBehavior(behavior)));
                actions.push(Action::SetHandled);
            },
            Event::PlaySeek(fraction) => {
                if let Some(now_playing) = &data.playback.now_playing {
                    actions.push(
                        Action::SeekToFraction { duration: now_playing.item.duration, fraction },
                    );
                }
                actions.push(Action::SetHandled);
            },
            Event::SkipToPosition(location) => {
                refused = self.seek(Duration::from_millis(location));
                actions.push(Action::SetHandled);
            },
            // Keyboard shortcuts.
            Event::KeyDown(key) => {
                return self.key_down(key, data);
            },
            Event::Other => {
                actions.push(Action::ForwardToChild);
            },
        }
        assert(actions@ =~= event_actions(event, *old(data)));
        Reaction { refused, actions }
    }

    /// What follows once the application has made `change`, with `data` the state that it led to.
    pub fn applied(&mut self, change: &StateChange, data: &AppState) -> (reaction: Reaction)
        requires
            old(self).wf(),
        ensures
            final(self).wf(),
            final(self).told_since(*old(self), change_orders(*change), reaction.refused),
            reaction.actions@ == change_actions(*change, old(self).has_media_controls(), *data),
    {
        proof {
            self.lemma_nothing_told();
        }
        let mut refused = None;
        let mut actions: Vec<Action> = Vec::new();
        match change {
            StateChange::LoadingPlayback { .. } => {
                self.show_playback(&mut actions, data);
                self.show_metadata(&mut actions, data);
            },
            StateChange::StartPlayback { .. } => {
                self.show_playback(&mut actions, data);
                self.show_metadata(&mut actions, data);
                if let Some(now_playing) = &data.playback.now_playing {
                    if let Some(shown) = self.update_lyrics(data, now_playing) {
                        actions.push(Action::ShowLyrics(shown));
                    }
                }
            },
            StateChange::ProgressPlayback(_)
            | StateChange::PausePlayback
            | StateChange::ResumePlayback
            | StateChange::StopPlayback => {
                self.show_playback(&mut actions, data);
            },
            StateChange::BlockPlayback | StateChange::AddQueuedEntry(_) => {},
            StateChange::SetQueueBehavior(behavior) => {
                refused = self.set_queue_behavior(*behavior);
            },
        }
        assert(actions@ =~= change_actions(*change, old(self).has_media_controls(), *data));
        Reaction { refused, actions }
    }

    /// Adds the step that shows the state of playback in the media controls.
    fn show_playback(&self, actions: &mut Vec<Action>, data: &AppState)
        ensures
            final(actions)@ == old(actions)@ + playback_shown(
                self.has_media_controls(),
                data.playback,
            ),
    {
        if let Some(shown) = self.update_media_control_playback(&data.playback) {
            actions.push(Action::SetMediaPlayback(shown));
        }
        assert(actions@ =~= old(actions)@ + playback_shown(
            self.has_media_controls(),
            data.playback,
        ));
    }

    /// Adds the step that shows the item in the media controls.
    fn show_metadata(&self, actions: &mut Vec<Action>, data: &AppState)
        ensures
            final(actions)@ == old(actions)@ + metadata_shown(
                self.has_media_controls(),
                data.playback,
            ),
    {
        if let Some(shown) = self.update_media_control_metadata(&data.playback) {
            actions.push(Action::SetMediaMetadata(shown));
        }
        assert(actions@ =~= old(actions)@ + metadata_shown(
            self.has_media_controls(),
            data.playback,
        ));
    }
}

} // verus!
