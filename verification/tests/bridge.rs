use ethist::color_resolved;
use ethist::cover_resolved;
use ethist::decode_color;
use ethist::session::setup_failure_action;
use ethist::session::supervise;
use ethist::session::RecoveryPolicy;
use ethist::session::SetupFailure;
use ethist::translate::extract_artist;
use ethist::translate::translate;
use ethist::AudioItem;
use ethist::LoopAction;
use ethist::LoopEvent;
use ethist::LoopState;
use ethist::Music;
use ethist::MusicMessage;
use ethist::PlayerEvent;
use ethist::Rgb;
use ethist::Song;
use ethist::UniqueFields;

fn sample_item() -> AudioItem {
    AudioItem {
        track_id: String::from("t1"),
        name: String::from("Song A"),
        duration_ms: 200000,
        covers: vec![String::from("http://img/a.png")],
        unique_fields: UniqueFields::Track {
            artists: vec![String::from("X"), String::from("Y")],
        },
    }
}

fn sample_song() -> Song {
    let (message, _request) = translate(PlayerEvent::TrackChanged { audio_item: sample_item() });
    match message {
        Some(MusicMessage::UpdateSong(song)) => song,
        _ => panic!("a track change must announce a song"),
    }
}

#[test]
fn track_change_announces_song() {
    let (message, request) = translate(PlayerEvent::TrackChanged { audio_item: sample_item() });
    let song = match message {
        Some(MusicMessage::UpdateSong(song)) => song,
        _ => panic!("a track change must announce a song"),
    };
    assert_eq!(song.name, "Song A");
    assert_eq!(song.artist, "X, Y");
    assert_eq!(song.length, 200000);
    assert_eq!(song.at, 0);
    assert!(!song.paused);
    assert!(song.cover.is_none());
    assert!(song.color.is_none());
    assert_eq!(song.cover_url, "http://img/a.png");
    assert_eq!(song.track_id, "t1");

    let request = request.expect("a track change must request enrichment");
    assert_eq!(request.track_id, "t1");
    assert_eq!(request.cover_url, "http://img/a.png");
}

#[test]
fn stop_translates_to_remove() {
    let (message, request) = translate(PlayerEvent::Stopped);
    assert!(matches!(message, Some(MusicMessage::RemoveSong)));
    assert!(request.is_none());
}

#[test]
fn other_events_are_ignored() {
    let (message, request) = translate(PlayerEvent::Other);
    assert!(message.is_none());
    assert!(request.is_none());
}

#[test]
fn artist_of_episode_is_show_name() {
    let artist = extract_artist(UniqueFields::Episode { show_name: String::from("A Show") });
    assert_eq!(artist, "A Show");
}

#[test]
fn artist_of_local_item_defaults_to_local() {
    let named = extract_artist(UniqueFields::Local { artists: Some(String::from("Someone")) });
    assert_eq!(named, "Someone");
    let unnamed = extract_artist(UniqueFields::Local { artists: None });
    assert_eq!(unnamed, "local");
}

#[test]
fn artists_are_joined_with_commas() {
    let none = extract_artist(UniqueFields::Track { artists: vec![] });
    assert_eq!(none, "");
    let one = extract_artist(UniqueFields::Track { artists: vec![String::from("X")] });
    assert_eq!(one, "X");
    let three = extract_artist(UniqueFields::Track {
        artists: vec![String::from("X"), String::from("Y"), String::from("Z")],
    });
    assert_eq!(three, "X, Y, Z");
}

#[test]
fn packed_color_unpacks_to_channels() {
    assert_eq!(decode_color(0xFF8040), (255, 128, 64));
    assert_eq!(decode_color(0), (0, 0, 0));
    assert_eq!(decode_color(-1), (255, 255, 255));
}

#[test]
fn resolved_color_is_decoded_and_dimmed() {
    let message = color_resolved(String::from("t1"), Some(0xFF8040));
    match message {
        Some(MusicMessage::UpdateColor { track_id, color }) => {
            assert_eq!(track_id, "t1");
            assert_eq!(color, Rgb { r: 85, g: 42, b: 21 });
        }
        _ => panic!("a successful lookup must yield a color update"),
    }
}

#[test]
fn failed_lookups_emit_nothing() {
    assert!(color_resolved(String::from("t1"), None).is_none());
    assert!(cover_resolved(String::from("t1"), None).is_none());
}

#[test]
fn resolved_cover_carries_path_and_tag() {
    let message = cover_resolved(String::from("t1"), Some(String::from(".http_cache/17")));
    match message {
        Some(MusicMessage::UpdateCover { track_id, path }) => {
            assert_eq!(track_id, "t1");
            assert_eq!(path, ".http_cache/17");
        }
        _ => panic!("a successful fetch must yield a cover update"),
    }
}

#[test]
fn announcement_replaces_current_song() {
    let mut music = Music::new();
    assert!(music.song.is_none());
    music.update(MusicMessage::UpdateSong(sample_song()));
    assert_eq!(music.song.as_ref().unwrap().name, "Song A");
}

#[test]
fn stop_clears_current_song() {
    let mut music = Music::new();
    music.update(MusicMessage::UpdateSong(sample_song()));
    assert!(music.song.is_some());
    music.update(MusicMessage::RemoveSong);
    assert!(music.song.is_none());
}

#[test]
fn matching_enrichment_is_applied() {
    let mut music = Music::new();
    music.update(MusicMessage::UpdateSong(sample_song()));
    music.update(MusicMessage::UpdateCover {
        track_id: String::from("t1"),
        path: String::from(".http_cache/17"),
    });
    music.update(MusicMessage::UpdateColor {
        track_id: String::from("t1"),
        color: Rgb { r: 85, g: 42, b: 21 },
    });
    let song = music.song.as_ref().unwrap();
    assert_eq!(song.cover.as_deref(), Some(".http_cache/17"));
    assert_eq!(song.color, Some(Rgb { r: 85, g: 42, b: 21 }));
}

#[test]
fn stale_enrichment_does_not_resurrect_song() {
    let mut music = Music::new();
    music.update(MusicMessage::UpdateSong(sample_song()));
    music.update(MusicMessage::RemoveSong);
    music.update(MusicMessage::UpdateCover {
        track_id: String::from("t1"),
        path: String::from(".http_cache/17"),
    });
    assert!(music.song.is_none());
    music.update(MusicMessage::UpdateColor {
        track_id: String::from("t1"),
        color: Rgb { r: 85, g: 42, b: 21 },
    });
    assert!(music.song.is_none());
}

#[test]
fn enrichment_for_older_track_is_dropped() {
    let mut music = Music::new();
    music.update(MusicMessage::UpdateSong(sample_song()));
    let mut newer = sample_song();
    newer.track_id = String::from("t2");
    newer.name = String::from("Song B");
    newer.cover_url = String::from("http://img/b.png");
    music.update(MusicMessage::UpdateSong(newer));

    // The cover fetched for the first track resolves late: it must not touch
    // the song announced after it.
    music.update(MusicMessage::UpdateCover {
        track_id: String::from("t1"),
        path: String::from(".http_cache/17"),
    });
    let song = music.song.as_ref().unwrap();
    assert_eq!(song.name, "Song B");
    assert!(song.cover.is_none());
}

#[test]
fn credentials_open_exactly_one_session() {
    let (state, action) = supervise(LoopState::AwaitingCredentials, LoopEvent::CredentialsReady);
    assert_eq!(state, LoopState::SessionRunning);
    assert_eq!(action, LoopAction::OpenSession);

    // While a session runs, further credentials open nothing.
    let (state, action) = supervise(state, LoopEvent::CredentialsReady);
    assert_eq!(state, LoopState::SessionRunning);
    assert_eq!(action, LoopAction::AwaitNext);
}

#[test]
fn session_end_returns_loop_to_waiting() {
    let (state, action) = supervise(LoopState::SessionRunning, LoopEvent::SessionEnded);
    assert_eq!(state, LoopState::AwaitingCredentials);
    assert_eq!(action, LoopAction::AwaitNext);

    // The next pairing cycle can then begin.
    let (state, action) = supervise(state, LoopEvent::CredentialsReady);
    assert_eq!(state, LoopState::SessionRunning);
    assert_eq!(action, LoopAction::OpenSession);
}

#[test]
fn stock_policy_treats_setup_failures_as_fatal() {
    let policy = RecoveryPolicy::default();
    for failure in [
        SetupFailure::DiscoveryLaunch,
        SetupFailure::SinkUnavailable,
        SetupFailure::MixerUnavailable,
        SetupFailure::SessionCreate,
    ] {
        let (state, action) = setup_failure_action(&policy, failure);
        assert_eq!(state, LoopState::Finished);
        assert_eq!(action, LoopAction::Shutdown);
    }
}

#[test]
fn retrying_policy_returns_loop_to_waiting() {
    let policy = RecoveryPolicy {
        retry_discovery: false,
        retry_sink: false,
        retry_mixer: true,
        retry_session: true,
    };
    let (state, action) = setup_failure_action(&policy, SetupFailure::SessionCreate);
    assert_eq!(state, LoopState::AwaitingCredentials);
    assert_eq!(action, LoopAction::AwaitNext);
    let (state, action) = setup_failure_action(&policy, SetupFailure::SinkUnavailable);
    assert_eq!(state, LoopState::Finished);
    assert_eq!(action, LoopAction::Shutdown);
}

#[test]
fn closed_discovery_finishes_loop() {
    let (state, action) = supervise(LoopState::AwaitingCredentials, LoopEvent::DiscoveryClosed);
    assert_eq!(state, LoopState::Finished);
    assert_eq!(action, LoopAction::Shutdown);
    let (state, action) = supervise(LoopState::SessionRunning, LoopEvent::DiscoveryClosed);
    assert_eq!(state, LoopState::Finished);
    assert_eq!(action, LoopAction::Shutdown);
    let (state, action) = supervise(LoopState::Finished, LoopEvent::CredentialsReady);
    assert_eq!(state, LoopState::Finished);
    assert_eq!(action, LoopAction::Shutdown);
}
