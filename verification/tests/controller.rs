use crossbeam_channel::{bounded, unbounded, Receiver};
use im::Vector;
use psst_gui::channel::PlayerSender;
use psst_gui::controller::PlaybackController;
use psst_gui::data::{
    AlbumLink, AppState, Config, Nav, NowPlaying, Playable, Playback, PlaybackOrigin,
    PlaybackState, QueueBehavior, QueueEntry, Track,
};
use psst_gui::duration::Duration;
use psst_gui::event::{
    Action, Code, Event, KbKey, KeyEvent, LifeCycle, LifeCycleAction, PlaybackPayload,
    PlayerNotice, Reaction, ServiceAction, StateChange, UpdateAction, UpdateReaction,
};
use psst_gui::media::{
    MediaControlEvent, MediaMetadata, MediaPlayback, MediaPosition, SeekDirection,
};
use psst_gui::player;
use psst_gui::player::{
    DoubleBits, ItemId, ItemIdType, MediaPath, NormalizationLevel, PlaybackItem, PlayerCommand,
    PlayerEvent,
};

fn id(number: u128) -> ItemId {
    ItemId { id: number, id_type: ItemIdType::Track }
}

fn item(number: u128) -> Playable {
    Playable {
        id: id(number),
        name: format!("Track {}", number),
        duration: Duration::from_secs(200),
        track: Some(Track {
            album: Some(AlbumLink { name: "An Album".to_string() }),
            artist_name: "An Artist".to_string(),
        }),
    }
}

fn album() -> PlaybackOrigin {
    PlaybackOrigin::Album("album:1".to_string())
}

fn playlist() -> PlaybackOrigin {
    PlaybackOrigin::Other("playlist:1".to_string())
}

fn entry(number: u128, origin: PlaybackOrigin) -> QueueEntry {
    QueueEntry { item: item(number), origin }
}

fn now_playing(progress: Duration) -> NowPlaying {
    NowPlaying {
        item: item(1),
        origin: album(),
        progress,
        cover_image_url: Some("https://covers.test/1".to_string()),
    }
}

fn volume(level: f64) -> DoubleBits {
    DoubleBits { bits: level.to_bits() }
}

fn state(now_playing: Option<NowPlaying>) -> AppState {
    AppState {
        playback: Playback {
            state: PlaybackState::Playing,
            now_playing,
            queue_behavior: QueueBehavior::LoopAll,
            queue: Vector::new(),
            volume: volume(0.5),
        },
        nav: Nav::Elsewhere,
        config: Config { seek_duration: 10 },
    }
}

/// A controller whose player has just been opened, and the player's end of the channel with the
/// first orders taken off it.
fn connected(media_controls: bool) -> (PlaybackController, Receiver<PlayerEvent>) {
    let (sender, receiver) = unbounded();
    let sender = PlayerSender::new(sender).ok().unwrap();
    let mut controller = PlaybackController::new();
    assert_eq!(controller.player_opened(sender, media_controls, &state(None)), (None, None));
    assert_eq!(received(&receiver).len(), 2);
    (controller, receiver)
}

/// The steps of a reaction in which no order was refused.
fn steps(reaction: Reaction) -> Vec<Action> {
    assert_eq!(reaction.refused, None);
    reaction.actions
}

fn received(receiver: &Receiver<PlayerEvent>) -> Vec<PlayerEvent> {
    receiver.try_iter().collect()
}

fn command(command: PlayerCommand) -> PlayerEvent {
    PlayerEvent::Command(command)
}

fn seek_to(nanos: u128) -> PlayerEvent {
    command(PlayerCommand::Seek { position: Duration { nanos } })
}

fn key(code: Code, shift: bool) -> Event {
    Event::KeyDown(KeyEvent { code, key: KbKey::Other, shift })
}

fn typed(character: &str) -> Event {
    Event::KeyDown(KeyEvent {
        code: Code::Other,
        key: KbKey::Character(character.to_string()),
        shift: false,
    })
}

#[test]
fn a_new_controller_reaches_no_player() {
    let mut controller = PlaybackController::new();
    let mut data = state(Some(now_playing(Duration::from_secs(5))));
    assert_eq!(steps(controller.event(Event::PlayPause, &mut data)), vec![Action::SetHandled]);
    let shown = steps(controller.applied(&StateChange::PausePlayback, &data));
    assert_eq!(shown, vec![]);
}

#[test]
fn opening_the_player_hands_it_the_settings() {
    let (sender, receiver) = unbounded();
    let sender = PlayerSender::new(sender).ok().unwrap();
    let mut controller = PlaybackController::new();
    controller.player_opened(sender, false, &state(None));
    assert_eq!(
        received(&receiver),
        vec![
            command(PlayerCommand::SetVolume { volume: volume(0.5) }),
            command(PlayerCommand::SetQueueBehavior {
                behavior: player::QueueBehavior::LoopAll
            }),
        ]
    );
}

#[test]
fn a_bounded_channel_is_given_back() {
    let (sender, receiver) = bounded(3);
    let returned = PlayerSender::new(sender).err().unwrap();
    assert_eq!(returned.capacity(), Some(3));
    returned.send(PlayerEvent::Stopped).unwrap();
    assert_eq!(received(&receiver), vec![PlayerEvent::Stopped]);
}

#[test]
fn an_order_for_a_player_that_is_gone_comes_back() {
    let (mut controller, receiver) = connected(false);
    assert_eq!(controller.pause(), None);
    drop(receiver);
    assert_eq!(controller.pause(), Some(command(PlayerCommand::Pause)));
    let mut data = state(None);
    assert_eq!(
        controller.event(Event::PlayNext, &mut data),
        Reaction {
            refused: Some(command(PlayerCommand::Next)),
            actions: vec![Action::SetHandled]
        }
    );
    let behavior = QueueBehavior::Random;
    assert_eq!(
        controller.applied(&StateChange::SetQueueBehavior(behavior), &data),
        Reaction {
            refused: Some(command(PlayerCommand::SetQueueBehavior {
                behavior: player::QueueBehavior::Random
            })),
            actions: vec![]
        }
    );
    let mut louder = state(None);
    louder.playback.volume = volume(0.9);
    assert_eq!(
        controller.update(&data, &louder),
        UpdateReaction {
            refused: Some(command(PlayerCommand::SetVolume { volume: volume(0.9) })),
            actions: vec![UpdateAction::ForwardToChild]
        }
    );
    assert_eq!(controller.event(Event::Other, &mut data).refused, None);
}

#[test]
fn the_settings_come_back_from_a_player_that_is_gone() {
    let (sender, receiver) = unbounded();
    let sender = PlayerSender::new(sender).ok().unwrap();
    drop(receiver);
    let mut controller = PlaybackController::new();
    assert_eq!(
        controller.player_opened(sender, true, &state(None)),
        (
            Some(command(PlayerCommand::SetVolume { volume: volume(0.5) })),
            Some(command(PlayerCommand::SetQueueBehavior {
                behavior: player::QueueBehavior::LoopAll
            })),
        )
    );
}

#[test]
fn plain_orders_reach_the_player() {
    let (mut controller, receiver) = connected(false);
    let mut data = state(None);
    for event in [
        Event::PlayPause,
        Event::PlayResume,
        Event::PlayPrevious,
        Event::PlayNext,
        Event::PlayStop,
    ] {
        assert_eq!(steps(controller.event(event, &mut data)), vec![Action::SetHandled]);
    }
    assert_eq!(
        received(&receiver),
        vec![
            command(PlayerCommand::Pause),
            command(PlayerCommand::Resume),
            command(PlayerCommand::Previous),
            command(PlayerCommand::Next),
            command(PlayerCommand::Stop),
        ]
    );
}

#[test]
fn playing_tracks_replaces_the_queue_and_loads_it() {
    let (mut controller, receiver) = connected(false);
    let mut data = state(None);
    data.playback.queue = Vector::unit(entry(9, playlist()));
    let payload = PlaybackPayload { origin: album(), items: vec![item(1), item(2)], position: 1 };
    let actions = steps(controller.event(Event::PlayTracks(payload), &mut data));
    assert_eq!(actions, vec![Action::SetHandled]);
    let queue: Vec<QueueEntry> = data.playback.queue.iter().cloned().collect();
    assert_eq!(queue, vec![entry(1, album()), entry(2, album())]);
    let items = vec![
        PlaybackItem { item_id: id(1), norm_level: NormalizationLevel::Album },
        PlaybackItem { item_id: id(2), norm_level: NormalizationLevel::Album },
    ];
    assert_eq!(
        received(&receiver),
        vec![command(PlayerCommand::LoadQueue { items, position: 1 })]
    );
}

#[test]
fn a_start_position_past_the_queue_becomes_its_front() {
    let (mut controller, receiver) = connected(false);
    let queue: Vector<QueueEntry> =
        vec![entry(1, playlist()), entry(2, album())].into_iter().collect();
    controller.play(&queue, 2);
    controller.play(&queue, usize::MAX);
    controller.play(&queue, 1);
    controller.play(&Vector::new(), 4);
    let positions: Vec<(usize, usize)> = received(&receiver)
        .into_iter()
        .map(|event| match event {
            PlayerEvent::Command(PlayerCommand::LoadQueue { items, position }) => {
                (items.len(), position)
            }
            _ => panic!("no queue"),
        })
        .collect();
    assert_eq!(positions, vec![(2, 0), (2, 0), (2, 1), (0, 0)]);
}

#[test]
fn only_album_origins_are_normalized_by_album() {
    let (mut controller, receiver) = connected(false);
    let queue: Vector<QueueEntry> =
        vec![entry(1, playlist()), entry(2, album())].into_iter().collect();
    controller.play(&queue, 0);
    let items = vec![
        PlaybackItem { item_id: id(1), norm_level: NormalizationLevel::Track },
        PlaybackItem { item_id: id(2), norm_level: NormalizationLevel::Album },
    ];
    assert_eq!(
        received(&receiver),
        vec![command(PlayerCommand::LoadQueue { items, position: 0 })]
    );
}

#[test]
fn a_long_queue_keeps_its_order() {
    let (mut controller, receiver) = connected(false);
    let mut data = state(None);
    let items: Vec<Playable> = (0..300).map(item).collect();
    let payload = PlaybackPayload { origin: playlist(), items, position: 299 };
    controller.event(Event::PlayTracks(payload), &mut data);
    assert_eq!(data.playback.queue.len(), 300);
    match received(&receiver).pop() {
        Some(PlayerEvent::Command(PlayerCommand::LoadQueue { items, position })) => {
            assert_eq!(position, 299);
            let ids: Vec<u128> = items.iter().map(|item| item.item_id.id).collect();
            assert_eq!(ids, (0..300).collect::<Vec<u128>>());
        }
        _ => panic!("no queue"),
    }
}

#[test]
fn adding_to_the_queue_tells_the_player_and_the_application() {
    let (mut controller, receiver) = connected(false);
    let mut data = state(None);
    let added = PlaybackItem { item_id: id(3), norm_level: NormalizationLevel::Track };
    let event = Event::AddToQueue { entry: entry(3, playlist()), item: added };
    let actions = steps(controller.event(event, &mut data));
    assert_eq!(
        actions,
        vec![
            Action::Apply(StateChange::AddQueuedEntry(entry(3, playlist()))),
            Action::SetHandled
        ]
    );
    assert_eq!(received(&receiver), vec![command(PlayerCommand::AddToQueue { item: added })]);
    let change = StateChange::AddQueuedEntry(entry(3, playlist()));
    let follow_up = steps(controller.applied(&change, &data));
    assert_eq!(follow_up, vec![]);
    assert_eq!(received(&receiver), vec![]);
}

#[test]
fn a_queue_behavior_is_stored_before_the_player_gets_it() {
    let (mut controller, receiver) = connected(true);
    let mut data = state(None);
    for (chosen, told) in [
        (QueueBehavior::Sequential, player::QueueBehavior::Sequential),
        (QueueBehavior::Random, player::QueueBehavior::Random),
        (QueueBehavior::LoopTrack, player::QueueBehavior::LoopTrack),
        (QueueBehavior::LoopAll, player::QueueBehavior::LoopAll),
    ] {
        let actions = steps(controller.event(Event::PlayQueueBehavior(chosen), &mut data));
        let change = StateChange::SetQueueBehavior(chosen);
        assert_eq!(received(&receiver), vec![]);
        assert_eq!(steps(controller.applied(&change, &data)), vec![]);
        assert_eq!(actions, vec![Action::Apply(change), Action::SetHandled]);
        assert_eq!(
            received(&receiver),
            vec![command(PlayerCommand::SetQueueBehavior { behavior: told })]
        );
    }
}

#[test]
fn a_fraction_is_left_to_the_caller() {
    let (mut controller, receiver) = connected(false);
    let mut data = state(Some(now_playing(Duration::from_secs(5))));
    let half = DoubleBits { bits: (0.5f64).to_bits() };
    assert_eq!(
        steps(controller.event(Event::PlaySeek(half), &mut data)),
        vec![
            Action::SeekToFraction { duration: Duration::from_secs(200), fraction: half },
            Action::SetHandled
        ]
    );
    let mut idle = state(None);
    assert_eq!(steps(controller.event(Event::PlaySeek(half), &mut idle)), vec![Action::SetHandled]);
    assert_eq!(received(&receiver), vec![]);
}

#[test]
fn skipping_to_a_position_counts_milliseconds() {
    let (mut controller, receiver) = connected(false);
    let mut data = state(None);
    assert_eq!(
        steps(controller.event(Event::SkipToPosition(61_500), &mut data)),
        vec![Action::SetHandled]
    );
    assert_eq!(received(&receiver), vec![seek_to(61_500_000_000)]);
}

#[test]
fn the_space_key_pauses_or_resumes() {
    let (mut controller, receiver) = connected(false);
    let mut data = state(None);
    let space_with_plus = Event::KeyDown(KeyEvent {
        code: Code::Space,
        key: KbKey::Character("+".to_string()),
        shift: false,
    });
    assert_eq!(steps(controller.event(space_with_plus, &mut data)), vec![Action::SetHandled]);
    assert_eq!(received(&receiver), vec![command(PlayerCommand::PauseOrResume)]);
}

#[test]
fn shifted_arrows_change_the_item() {
    let (mut controller, receiver) = connected(false);
    let mut data = state(Some(now_playing(Duration::from_secs(5))));
    let actions = steps(controller.event(key(Code::ArrowRight, true), &mut data));
    assert_eq!(actions, vec![Action::SetHandled]);
    let actions = steps(controller.event(key(Code::ArrowLeft, true), &mut data));
    assert_eq!(actions, vec![Action::SetHandled]);
    assert_eq!(
        received(&receiver),
        vec![command(PlayerCommand::Next), command(PlayerCommand::Previous)]
    );
}

#[test]
fn arrows_seek_within_the_item() {
    let (mut controller, receiver) = connected(false);
    for (progress, forward, nanos) in [
        (Duration::from_millis(50_250), true, 60_250_000_000),
        (Duration::from_millis(50_250), false, 40_250_000_000),
        (Duration::from_secs(195), true, 200_000_000_000),
        (Duration::from_secs(4), false, 0),
        (Duration::from_secs(300), false, 200_000_000_000),
    ] {
        let mut data = state(Some(now_playing(progress)));
        let code = if forward { Code::ArrowRight } else { Code::ArrowLeft };
        assert!(PlaybackController::can_handle(&key(code, false), &data));
        assert_eq!(steps(controller.event(key(code, false), &mut data)), vec![Action::SetHandled]);
        assert_eq!(received(&receiver), vec![seek_to(nanos)]);
    }
}

#[test]
fn arrows_without_an_item_do_nothing() {
    let (mut controller, receiver) = connected(false);
    let mut data = state(None);
    let actions = steps(controller.event(key(Code::ArrowRight, false), &mut data));
    assert_eq!(actions, vec![Action::SetHandled]);
    let actions = steps(controller.event(key(Code::ArrowLeft, false), &mut data));
    assert_eq!(actions, vec![Action::SetHandled]);
    assert_eq!(received(&receiver), vec![]);
}

#[test]
fn seeking_back_undoes_seeking_forward() {
    let (mut controller, receiver) = connected(false);
    let data = state(Some(now_playing(Duration::from_secs(50))));
    controller.seek_relative(&data, true);
    let data = state(Some(now_playing(Duration::from_secs(60))));
    controller.seek_relative(&data, false);
    assert_eq!(received(&receiver), vec![seek_to(60_000_000_000), seek_to(50_000_000_000)]);
}

#[test]
fn a_seek_past_the_range_of_spans_is_told_apart() {
    let longest = Duration::new(u64::MAX, 999_999_999);
    let mut data = state(Some(now_playing(longest)));
    assert!(!PlaybackController::can_seek_relative(&data, true));
    assert!(PlaybackController::can_seek_relative(&data, false));
    assert!(!PlaybackController::can_handle(&key(Code::ArrowRight, false), &data));
    assert!(PlaybackController::can_handle(&key(Code::ArrowRight, true), &data));
    data.config.seek_duration = 0;
    assert!(PlaybackController::can_seek_relative(&data, true));
}

#[test]
fn plus_and_minus_turn_the_volume() {
    let (mut controller, receiver) = connected(false);
    let mut data = state(None);
    assert_eq!(
        steps(controller.event(typed("+"), &mut data)),
        vec![Action::RaiseVolume, Action::SetHandled]
    );
    assert_eq!(
        steps(controller.event(typed("-"), &mut data)),
        vec![Action::LowerVolume, Action::SetHandled]
    );
    assert_eq!(received(&receiver), vec![]);
}

#[test]
fn other_events_go_to_the_child() {
    let (mut controller, receiver) = connected(true);
    let mut data = state(None);
    for event in [Event::Other, typed("x"), typed("++"), key(Code::Other, true)] {
        assert_eq!(steps(controller.event(event, &mut data)), vec![Action::ForwardToChild]);
    }
    assert_eq!(steps(controller.event(Event::SetFocus, &mut data)), vec![Action::RequestFocus]);
    assert_eq!(received(&receiver), vec![]);
}

#[test]
fn notices_change_the_state_and_send_nothing() {
    let (mut controller, receiver) = connected(true);
    let mut data = state(None);
    let progress = Duration::from_secs(7);
    for (notice, change) in [
        (
            PlayerNotice::Loading(id(1)),
            StateChange::LoadingPlayback { item: item(1), origin: album() },
        ),
        (
            PlayerNotice::Playing(id(1), progress),
            StateChange::StartPlayback { item: item(1), origin: album(), progress },
        ),
        (PlayerNotice::Progress(progress), StateChange::ProgressPlayback(progress)),
        (PlayerNotice::Pausing, StateChange::PausePlayback),
        (PlayerNotice::Resuming, StateChange::ResumePlayback),
        (PlayerNotice::Blocked, StateChange::BlockPlayback),
        (PlayerNotice::Stopped, StateChange::StopPlayback),
    ] {
        let event = Event::Notice { notice, queued: Some(entry(1, album())) };
        assert_eq!(
            steps(controller.event(event, &mut data)),
            vec![Action::Apply(change), Action::SetHandled]
        );
    }
    assert_eq!(received(&receiver), vec![]);
}

#[test]
fn notices_of_unknown_items_change_nothing() {
    let (mut controller, _receiver) = connected(true);
    let mut data = state(None);
    for notice in [
        PlayerNotice::Loading(id(8)),
        PlayerNotice::Playing(id(8), Duration::from_secs(1)),
    ] {
        let event = Event::Notice { notice, queued: None };
        assert_eq!(steps(controller.event(event, &mut data)), vec![Action::SetHandled]);
    }
}

#[test]
fn loading_shows_the_item_as_stopped() {
    let (mut controller, _receiver) = connected(true);
    let mut data = state(Some(now_playing(Duration::from_secs(0))));
    data.playback.state = PlaybackState::Loading;
    data.nav = Nav::Lyrics;
    let change = StateChange::LoadingPlayback { item: item(1), origin: album() };
    assert_eq!(
        steps(controller.applied(&change, &data)),
        vec![
            Action::SetMediaPlayback(MediaPlayback::Stopped),
            Action::SetMediaMetadata(MediaMetadata {
                title: Some("Track 1".to_string()),
                album: Some("An Album".to_string()),
                artist: Some("An Artist".to_string()),
                duration: Some(Duration::from_secs(200)),
                cover_url: Some("https://covers.test/1".to_string()),
            }),
        ]
    );
}

#[test]
fn starting_shows_the_item_and_its_lyrics() {
    let (mut controller, _receiver) = connected(true);
    let progress = Duration::from_secs(3);
    let mut data = state(Some(now_playing(progress)));
    let change = StateChange::StartPlayback { item: item(1), origin: album(), progress };
    assert_eq!(steps(controller.applied(&change, &data)).len(), 2);
    data.nav = Nav::Lyrics;
    let actions = steps(controller.applied(&change, &data));
    assert_eq!(actions.len(), 3);
    assert_eq!(
        actions[0],
        Action::SetMediaPlayback(MediaPlayback::Playing {
            progress: Some(MediaPosition(progress))
        })
    );
    assert_eq!(actions[2], Action::ShowLyrics(now_playing(progress)));
}

#[test]
fn without_media_controls_only_lyrics_are_shown() {
    let (mut controller, _receiver) = connected(false);
    let progress = Duration::from_secs(3);
    let mut data = state(Some(now_playing(progress)));
    data.nav = Nav::Lyrics;
    let change = StateChange::StartPlayback { item: item(1), origin: album(), progress };
    assert_eq!(
        steps(controller.applied(&change, &data)),
        vec![Action::ShowLyrics(now_playing(progress))]
    );
    assert_eq!(controller.update_media_control_playback(&data.playback), None);
    assert_eq!(controller.update_media_control_metadata(&data.playback), None);
}

#[test]
fn pausing_progress_and_stopping_show_the_state_alone() {
    let (mut controller, _receiver) = connected(true);
    let progress = Duration::from_secs(3);
    let mut data = state(Some(now_playing(progress)));
    data.playback.state = PlaybackState::Paused;
    let paused = MediaPlayback::Paused { progress: Some(MediaPosition(progress)) };
    for change in [
        StateChange::ProgressPlayback(progress),
        StateChange::PausePlayback,
        StateChange::ResumePlayback,
    ] {
        assert_eq!(
            steps(controller.applied(&change, &data)),
            vec![Action::SetMediaPlayback(paused)]
        );
    }
    assert_eq!(steps(controller.applied(&StateChange::BlockPlayback, &data)), vec![]);
    let mut stopped = state(None);
    stopped.playback.state = PlaybackState::Stopped;
    assert_eq!(
        steps(controller.applied(&StateChange::StopPlayback, &stopped)),
        vec![Action::SetMediaPlayback(MediaPlayback::Stopped)]
    );
    stopped.playback.state = PlaybackState::Playing;
    assert_eq!(
        controller.update_media_control_playback(&stopped.playback),
        Some(MediaPlayback::Playing { progress: None })
    );
    assert_eq!(controller.update_media_control_metadata(&stopped.playback), None);
}

#[test]
fn an_item_without_track_data_has_a_title_only() {
    let (controller, _receiver) = connected(true);
    let mut playing = now_playing(Duration::from_secs(0));
    playing.item.track = None;
    playing.cover_image_url = None;
    let data = state(Some(playing));
    assert_eq!(
        controller.update_media_control_metadata(&data.playback),
        Some(MediaMetadata {
            title: Some("Track 1".to_string()),
            album: None,
            artist: None,
            duration: Some(Duration::from_secs(200)),
            cover_url: None,
        })
    );
    let mut playing = now_playing(Duration::from_secs(0));
    playing.item.track = Some(Track { album: None, artist_name: "An Artist".to_string() });
    let data = state(Some(playing));
    let shown = controller.update_media_control_metadata(&data.playback).unwrap();
    assert_eq!(shown.album, None);
    assert_eq!(shown.artist, Some("An Artist".to_string()));
}

#[test]
fn the_volume_follows_the_state() {
    let (mut controller, receiver) = connected(false);
    let before = state(None);
    let mut after = state(None);
    assert_eq!(
        controller.update(&before, &after),
        UpdateReaction { refused: None, actions: vec![UpdateAction::ForwardToChild] }
    );
    assert_eq!(received(&receiver), vec![]);
    after.playback.volume = volume(0.6);
    controller.update(&before, &after);
    assert_eq!(
        received(&receiver),
        vec![command(PlayerCommand::SetVolume { volume: volume(0.6) })]
    );
    let mut zero = state(None);
    zero.playback.volume = volume(0.0);
    let mut minus_zero = state(None);
    minus_zero.playback.volume = volume(-0.0);
    controller.update(&zero, &minus_zero);
    assert_eq!(received(&receiver).len(), 1);
}

#[test]
fn the_widget_asks_for_the_focus() {
    assert_eq!(
        PlaybackController::lifecycle(LifeCycle::WidgetAdded),
        vec![
            LifeCycleAction::OpenPlayer,
            LifeCycleAction::SubmitSetFocus,
            LifeCycleAction::ForwardToChild
        ]
    );
    assert_eq!(
        PlaybackController::lifecycle(LifeCycle::RouteFocusChanged { to_nowhere: true }),
        vec![LifeCycleAction::SubmitSetFocus, LifeCycleAction::ForwardToChild]
    );
    for event in [LifeCycle::RouteFocusChanged { to_nowhere: false }, LifeCycle::Other] {
        assert_eq!(PlaybackController::lifecycle(event), vec![LifeCycleAction::ForwardToChild]);
    }
}

#[test]
fn reports_of_the_player_become_notices() {
    let position = Duration::from_secs(9);
    let queued = PlaybackItem { item_id: id(4), norm_level: NormalizationLevel::Track };
    for (event, notice) in [
        (PlayerEvent::Loading { item: queued }, Some(PlayerNotice::Loading(id(4)))),
        (
            PlayerEvent::Playing { path: MediaPath { item_id: id(4) }, position },
            Some(PlayerNotice::Playing(id(4), position)),
        ),
        (PlayerEvent::Pausing, Some(PlayerNotice::Pausing)),
        (PlayerEvent::Resuming, Some(PlayerNotice::Resuming)),
        (PlayerEvent::Position { position }, Some(PlayerNotice::Progress(position))),
        (PlayerEvent::Blocked, Some(PlayerNotice::Blocked)),
        (PlayerEvent::Stopped, Some(PlayerNotice::Stopped)),
        (PlayerEvent::Internal(12), None),
        (command(PlayerCommand::Stop), None),
    ] {
        let mut steps = vec![];
        if let Some(notice) = notice {
            steps.push(ServiceAction::Forward(notice));
        }
        steps.push(ServiceAction::Handle);
        assert_eq!(PlaybackController::service_event(&event), steps);
    }
}

#[test]
fn media_control_events_become_orders() {
    let (sender, receiver) = unbounded();
    let mut sender = PlayerSender::new(sender).ok().unwrap();
    for event in [
        MediaControlEvent::Play,
        MediaControlEvent::Pause,
        MediaControlEvent::Toggle,
        MediaControlEvent::Next,
        MediaControlEvent::Previous,
        MediaControlEvent::SetPosition(MediaPosition(Duration::from_secs(2))),
    ] {
        assert!(PlaybackController::handle_media_control_event(event, &mut sender).is_ok());
    }
    assert_eq!(
        received(&receiver),
        vec![
            command(PlayerCommand::Resume),
            command(PlayerCommand::Pause),
            command(PlayerCommand::PauseOrResume),
            command(PlayerCommand::Next),
            command(PlayerCommand::Previous),
            seek_to(2_000_000_000),
        ]
    );
}

#[test]
fn other_media_control_events_are_ignored() {
    let (sender, receiver) = unbounded();
    let mut sender = PlayerSender::new(sender).ok().unwrap();
    for event in [
        MediaControlEvent::Stop,
        MediaControlEvent::Seek(SeekDirection::Forward),
        MediaControlEvent::SeekBy(SeekDirection::Backward, Duration::from_secs(1)),
        MediaControlEvent::SetVolume(volume(1.0)),
        MediaControlEvent::OpenUri("file:///a".to_string()),
        MediaControlEvent::Raise,
        MediaControlEvent::Quit,
    ] {
        assert!(PlaybackController::handle_media_control_event(event, &mut sender).is_ok());
    }
    assert_eq!(received(&receiver), vec![]);
}

#[test]
fn a_media_control_order_comes_back_from_a_player_that_is_gone() {
    let (sender, receiver) = unbounded();
    let mut sender = PlayerSender::new(sender).ok().unwrap();
    drop(receiver);
    assert_eq!(
        PlaybackController::handle_media_control_event(MediaControlEvent::Play, &mut sender),
        Err(command(PlayerCommand::Resume))
    );
    assert_eq!(
        PlaybackController::handle_media_control_event(MediaControlEvent::Quit, &mut sender),
        Ok(())
    );
}

#[test]
fn the_media_controls_are_registered_by_name() {
    let config = PlaybackController::media_controls_config(Some(77));
    assert_eq!(config.dbus_name, "psst");
    assert_eq!(config.display_name, "Psst");
    assert_eq!(config.hwnd, Some(77));
    assert_eq!(PlaybackController::media_controls_config(None).hwnd, None);
}

#[test]
fn seeking_forward_undoes_seeking_back() {
    let (mut controller, receiver) = connected(false);
    let data = state(Some(now_playing(Duration::from_secs(50))));
    controller.seek_relative(&data, false);
    let data = state(Some(now_playing(Duration::from_secs(40))));
    controller.seek_relative(&data, true);
    assert_eq!(received(&receiver), vec![seek_to(40_000_000_000), seek_to(50_000_000_000)]);
}

#[test]
fn the_player_keeps_up_with_the_settings() {
    let (sender, receiver) = unbounded();
    let sender = PlayerSender::new(sender).ok().unwrap();
    let mut controller = PlaybackController::new();
    let mut data = state(None);
    controller.player_opened(sender, false, &data);
    controller.event(Event::PlayNext, &mut data);
    controller.event(Event::PlayQueueBehavior(QueueBehavior::Random), &mut data);
    controller.applied(&StateChange::SetQueueBehavior(QueueBehavior::Random), &data);
    let mut louder = state(None);
    louder.playback.volume = volume(0.75);
    controller.update(&data, &louder);
    controller.event(Event::PlayPause, &mut louder);
    let mut last_volume = None;
    let mut last_behavior = None;
    for event in received(&receiver) {
        match event {
            PlayerEvent::Command(PlayerCommand::SetVolume { volume }) => last_volume = Some(volume),
            PlayerEvent::Command(PlayerCommand::SetQueueBehavior { behavior }) => {
                last_behavior = Some(behavior)
            }
            _ => {}
        }
    }
    assert_eq!(last_volume, Some(volume(0.75)));
    assert_eq!(last_behavior, Some(player::QueueBehavior::Random));
}
