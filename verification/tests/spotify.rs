//! The Connect device and its session's lifecycle.

use spotibot::player::state::{Input, PlayOptions, SpircCmd, TransportEvent};
use spotibot::path::Host;
use spotibot::runtime::{Paths, Profile, Settings};
use spotibot::spotify::metadata::{bearer, described_track, track_url};
use spotibot::spotify::player::{
    episode_lookup, join_unique, lookup_kind, queued_by_hand, spirc_calls, spirc_command,
    track_info_from_audio_item, track_lookup, Artists, AudioItem, Cover, EventFeed, LookupKind,
    PlayerReport, QueuedTrack, Reconnects, SpircCall, SpircCommand, SpotifyPlayer, DeviceEvent,
    DeviceNext, DeviceRun,
};
use spotibot::spotify::session::{
    ensure_refreshed, ensure_session, ensure_waited, refresh_wait, token_lifetime, EnsureOutcome,
    EnsureStep, LinkReport, LinkWait, Refreshed, SessionAction, SessionSupervisor, SessionTask,
    TokenState,
};
use spotibot::uri::SpotifyUri;
use spotibot::users::UserCredentials;

fn uri(n: u64) -> SpotifyUri {
    SpotifyUri::from_uri(&format!("spotify:track:{n:022}")).unwrap()
}

fn names(list: &[&str]) -> Vec<String> {
    list.iter().map(|s| s.to_string()).collect()
}

fn cover(name: &str, width: i32) -> Cover {
    Cover { name: name.into(), width }
}

fn item(n: u64) -> AudioItem {
    AudioItem {
        track_id: uri(n),
        name: format!("track {n}"),
        artists: Artists::Track(names(&["A", "B", "A"])),
        covers: vec![cover("small", 64), cover("big", 640), cover("twin", 640), cover("mid", 300)],
    }
}

fn user(id: &str, active: bool) -> UserCredentials {
    UserCredentials {
        discord_user_id: id.into(),
        discord_name: "n".into(),
        spotify_username: "s".into(),
        access_token: "at".into(),
        refresh_token: "rt".into(),
        active,
    }
}

#[test]
fn repeated_artists_are_listed_once() {
    assert_eq!(
        join_unique(names(&["Oliver Tree", "Georgie Riot", "Georgie Riot"])),
        "Oliver Tree, Georgie Riot"
    );
}

#[test]
fn distinct_artists_keep_spotifys_order() {
    assert_eq!(join_unique(names(&["Ed:it", "Pola & Bryson"])), "Ed:it, Pola & Bryson");
}

#[test]
fn no_artists_joins_to_nothing() {
    assert_eq!(join_unique(Vec::<String>::new()), "");
}

#[test]
fn identity_is_stable_per_cache_and_separate_between_hosts() {
    let first = SpotifyPlayer::resolve_device_id(None, None);
    assert!(first.fresh);
    assert_eq!(first.id.len(), 40);
    let again = SpotifyPlayer::resolve_device_id(None, Some(&first.id));
    assert_eq!(first.id, again.id);
    assert!(!again.fresh);
    assert_ne!(first.id, SpotifyPlayer::resolve_device_id(None, None).id);
    let explicit = SpotifyPlayer::resolve_device_id(Some("explicit-test-id"), Some(&first.id));
    assert_eq!(explicit.id, "explicit-test-id");
    assert_eq!(first.id, SpotifyPlayer::resolve_device_id(None, Some(&first.id)).id);
}

#[test]
fn a_made_up_identity_is_lower_case_hexadecimal() {
    let made = SpotifyPlayer::resolve_device_id_from(None, Some(" \n"), &[0, 0xab, 0xff]);
    assert_eq!(made.id, "00abff");
    assert!(made.fresh);
    let kept = SpotifyPlayer::resolve_device_id_from(None, Some(" id\n"), &[]);
    assert_eq!(kept.id, "id");
    assert!(!kept.fresh);
}

#[test]
fn the_identity_lies_in_the_cache() {
    let settings = Settings::merge(Profile::Nob, Vec::new(), Vec::new());
    let paths = Paths::resolve(&settings, Host::Unix, "/srv").unwrap();
    let dir = SpotifyPlayer::cache_dir(&paths);
    assert_eq!(dir, "/srv/.nob/.spotify_cache");
    assert_eq!(SpotifyPlayer::device_id_path(Host::Unix, &dir), "/srv/.nob/.spotify_cache/device_id");
}

#[test]
fn the_widest_cover_is_shown_and_the_last_of_equals() {
    let info = track_info_from_audio_item(item(1));
    assert_eq!(info.album_art_url.as_deref(), Some("twin"));
    assert_eq!(info.artist, "A, B");
    assert_eq!(info.title, "track 1");
    let mut local = item(2);
    local.artists = Artists::Local(Some("A, A".into()));
    local.covers = Vec::new();
    let info = track_info_from_audio_item(local);
    assert_eq!(info.artist, "A, A");
    assert_eq!(info.album_art_url, None);
    let mut episode = item(3);
    episode.artists = Artists::Episode;
    assert_eq!(track_info_from_audio_item(episode).artist, "");
}

#[test]
fn lookups_describe_tracks_and_episodes() {
    assert_eq!(lookup_kind(&uri(1)), LookupKind::Track);
    let episode = SpotifyUri::from_uri("spotify:episode:0000000000000000000001").unwrap();
    assert_eq!(lookup_kind(&episode), LookupKind::Episode);
    let album = SpotifyUri::from_uri("spotify:album:0000000000000000000001").unwrap();
    assert_eq!(lookup_kind(&album), LookupKind::Nothing);
    let found = track_lookup("T".into(), Vec::new(), None, &vec![cover("f1", 1), cover("f2", 2)]);
    assert_eq!(found.artist, "Unknown artist");
    assert_eq!(found.album_art_url.as_deref(), Some("https://i.scdn.co/image/f2"));
    let templated = SpotifyPlayer::largest_cover_url(
        Some("https://x/{file_id}/{file_id}?".into()),
        &vec![cover("f", 1)],
    );
    assert_eq!(templated.as_deref(), Some("https://x/f/f?"));
    assert_eq!(SpotifyPlayer::largest_cover_url(None, &Vec::new()), None);
    let found = episode_lookup("E".into());
    assert_eq!((found.artist.as_str(), found.album_art_url), ("Podcast", None));
}

#[test]
fn playing_carries_only_its_own_tracks_metadata() {
    let mut feed = EventFeed::new();
    assert!(matches!(
        feed.take(PlayerReport::Playing { track_id: uri(1) }),
        Some(TransportEvent::Playing { meta: None, .. })
    ));
    assert!(matches!(
        feed.take(PlayerReport::TrackChanged(item(1))),
        Some(TransportEvent::TrackChanged { .. })
    ));
    match feed.take(PlayerReport::Playing { track_id: uri(1) }) {
        Some(TransportEvent::Playing { meta: Some(meta), .. }) => assert_eq!(meta.title, "track 1"),
        other => panic!("{other:?}"),
    }
    assert!(matches!(
        feed.take(PlayerReport::Playing { track_id: uri(2) }),
        Some(TransportEvent::Playing { meta: None, .. })
    ));
}

#[test]
fn options_wait_for_both_halves() {
    let mut feed = EventFeed::new();
    assert!(feed.take(PlayerReport::ShuffleChanged { shuffle: true }).is_none());
    assert!(feed.take(PlayerReport::Other).is_none());
    assert_eq!(
        feed.take(PlayerReport::RepeatChanged { context: true, track: false }),
        Some(TransportEvent::OptionsChanged {
            shuffle: true,
            repeat_context: true,
            repeat_track: false
        })
    );
    assert_eq!(
        feed.take(PlayerReport::ShuffleChanged { shuffle: false }),
        Some(TransportEvent::OptionsChanged {
            shuffle: false,
            repeat_context: true,
            repeat_track: false
        })
    );
}

#[test]
fn only_hand_queued_readable_entries_confirm_an_arm() {
    let entry = |uri: &str, provider: &str| QueuedTrack { uri: uri.into(), provider: provider.into() };
    let next = vec![
        entry("spotify:track:0000000000000000000001", "queue"),
        entry("spotify:track:0000000000000000000002", "context"),
        entry("nonsense", "queue"),
        entry("spotify:track:0000000000000000000003", "queue"),
    ];
    assert_eq!(queued_by_hand(&next), vec![uri(1), uri(3)]);
    let mut feed = EventFeed::new();
    match feed.take(PlayerReport::SetQueue {
        current: Some("nonsense".into()),
        next,
        context_uri: String::new(),
    }) {
        Some(TransportEvent::SetQueue { current, queued, context_uri }) => {
            assert_eq!(current, None);
            assert_eq!(queued.len(), 2);
            assert_eq!(context_uri, None);
        }
        other => panic!("{other:?}"),
    }
}

#[test]
fn loads_claim_the_device_and_releases_pause() {
    let (calls, goes_on) = spirc_calls(SpircCommand::Load(uri(1)));
    assert!(goes_on);
    assert!(matches!(calls.as_slice(), [SpircCall::Activate, SpircCall::LoadTrack(_)]));
    let (calls, goes_on) = spirc_calls(SpircCommand::Shutdown);
    assert!(!goes_on);
    assert!(matches!(calls.as_slice(), [SpircCall::Shutdown]));
    let (calls, _) = spirc_calls(SpircCommand::Disconnect);
    assert!(matches!(calls.as_slice(), [SpircCall::Disconnect { pause: true }]));
    let command = spirc_command(SpircCmd::LoadContext {
        context_uri: "spotify:playlist:test".into(),
        track_uri: uri(1),
        options: PlayOptions { shuffle: true, repeat_context: false, repeat_track: true },
    });
    let (calls, _) = spirc_calls(command);
    assert!(matches!(
        calls.as_slice(),
        [SpircCall::Activate, SpircCall::LoadContext { options: Some((true, false, true)), .. }]
    ));
}

#[test]
fn fast_reconnects_back_off_and_end() {
    let mut reconnects = Reconnects::new();
    let waits: Vec<_> = (0..6).map(|_| reconnects.ended(1)).collect();
    assert_eq!(waits, [Some(2), Some(4), Some(6), Some(8), Some(10), None]);
    assert_eq!(reconnects.ended(60_000_000_000), Some(2));
}

#[test]
fn a_device_runs_until_it_is_told_to_stop_or_fails_too_often() {
    let mut run = DeviceRun::new();
    assert!(matches!(
        run.on(DeviceEvent::Command(SpircCommand::Pause)),
        (calls, DeviceNext::Serve) if matches!(calls.as_slice(), [SpircCall::Pause])
    ));
    assert!(matches!(run.on(DeviceEvent::CommandsClosed).1, DeviceNext::Serve));
    assert!(!run.commanded);
    for wait in [2, 4, 6, 8, 10] {
        let (calls, next) = run.on(DeviceEvent::Ended { lived: 0 });
        assert!(matches!(calls.as_slice(), [SpircCall::Shutdown]));
        assert!(matches!(next, DeviceNext::Reconnect { after } if after == wait));
    }
    assert!(matches!(run.on(DeviceEvent::Ended { lived: 0 }).1, DeviceNext::GiveBack));
    assert!(matches!(
        run.on(DeviceEvent::Command(SpircCommand::Shutdown)).1,
        DeviceNext::Stopped
    ));
    assert!(matches!(
        run.on(DeviceEvent::ConnectTimedOut).1,
        DeviceNext::Fail(text) if text == "spirc connect timeout"
    ));
    assert!(matches!(
        run.on(DeviceEvent::ConnectFailed("no".into())).1,
        DeviceNext::Fail(text) if text == "no"
    ));
}

#[test]
fn tokens_are_refreshed_ahead_of_their_end() {
    assert_eq!(token_lifetime(0), 3600);
    assert_eq!(refresh_wait(3600), 3300);
    assert_eq!(refresh_wait(100), 30);
    assert_eq!(refresh_wait(u64::MAX), u64::MAX - 300);
    let mut tokens = TokenState::new("a".into(), "r".into(), 0);
    assert_eq!(tokens.wait(), 3300);
    tokens.refreshed(None);
    assert_eq!((tokens.wait(), tokens.access_token.as_str()), (30, "a"));
    tokens.refreshed(Some(Refreshed {
        access_token: "a2".into(),
        refresh_token: None,
        expires_in: 1000,
    }));
    assert_eq!(
        (tokens.wait(), tokens.access_token.as_str(), tokens.refresh_token.as_str()),
        (700, "a2", "r")
    );
}

#[test]
fn a_switch_replaces_a_session_without_reporting_it_down() {
    let mut supervisor = SessionSupervisor::new();
    assert_eq!(supervisor.switch(7), [SessionAction::Start { generation: 0 }]);
    assert_eq!(
        supervisor.started(0),
        [
            SessionAction::Watch(Some(0)),
            SessionAction::Tell(LinkReport::Up { generation: 0 })
        ]
    );
    assert_eq!(supervisor.link_up_watch(), Some(0));
    assert_eq!(
        supervisor.switch(8),
        [
            SessionAction::SayGoodbye,
            SessionAction::Abort { generation: 0 },
            SessionAction::Start { generation: 1 },
        ]
    );
}

#[test]
fn only_the_owner_stops_a_session() {
    let mut supervisor = SessionSupervisor::new();
    supervisor.switch(7);
    assert!(supervisor.stop(8).is_empty());
    assert_eq!(
        supervisor.stop(7),
        [
            SessionAction::SayGoodbye,
            SessionAction::Abort { generation: 0 },
            SessionAction::Watch(None),
            SessionAction::Tell(LinkReport::Down { generation: 0 }),
        ]
    );
    assert!(supervisor.stop(7).is_empty());
}

#[test]
fn a_session_that_gives_up_clears_only_its_own_slot() {
    let mut supervisor = SessionSupervisor::new();
    supervisor.switch(7);
    supervisor.switch(8);
    let (published, link_up) = (supervisor.published, supervisor.link_up);
    assert!(supervisor.gave_up(0).is_empty(), "a replaced session changes nothing");
    assert!(supervisor.live.is_some());
    assert_eq!((supervisor.published, supervisor.link_up), (published, link_up));
    let actions = supervisor.gave_up(1);
    assert_eq!(actions[0], SessionAction::Abort { generation: 1 });
    assert!(supervisor.live.is_none());
    assert!(matches!(
        LinkReport::Down { generation: 1 }.input(),
        Input::LinkDown { gen: 1 }
    ));
}

#[test]
fn restarts_are_budgeted_and_a_stable_run_resets_them() {
    let mut task = SessionTask::new(3);
    for _ in 0..9 {
        assert_eq!(
            task.run_ended(1),
            [
                SessionAction::Tell(LinkReport::Reconnecting { generation: 3 }),
                SessionAction::RefreshNow,
                SessionAction::RetryAfter(2),
            ]
        );
    }
    assert_eq!(task.run_ended(60_000_000_000).len(), 3);
    for _ in 0..9 {
        assert_eq!(task.run_ended(1).len(), 3);
    }
    assert!(task.run_ended(1).is_empty());
}

#[test]
fn a_session_is_ensured_from_the_first_active_account() {
    assert!(matches!(
        ensure_session(Some(4), vec![user("1", true)]),
        EnsureStep::Done(EnsureOutcome::Ready(4))
    ));
    assert!(matches!(
        ensure_session(None, vec![user("1", false)]),
        EnsureStep::Done(EnsureOutcome::NoAccount)
    ));
    match ensure_session(None, vec![user("1", false), user("22", true), user("3", true)]) {
        EnsureStep::Refresh { discord_user_id, .. } => assert_eq!(discord_user_id, 22),
        _ => panic!("the active account is refreshed"),
    }
    match ensure_session(None, vec![user("me", true)]) {
        EnsureStep::Done(EnsureOutcome::Failed(text)) => {
            assert_eq!(text, "unparseable stored discord user id: me")
        }
        _ => panic!("an id that is no number cannot start"),
    }
}

#[test]
fn an_ensured_session_keeps_a_refresh_token_that_was_not_rotated() {
    let fresh = Refreshed { access_token: "a2".into(), refresh_token: None, expires_in: 9 };
    let (updated, expires_in) = ensure_refreshed(user("1", true), Ok(fresh)).unwrap();
    assert_eq!((updated.access_token.as_str(), updated.refresh_token.as_str()), ("a2", "rt"));
    assert_eq!(expires_in, 9);
    match ensure_refreshed(user("1", true), Err("revoked".into())) {
        Err(EnsureOutcome::Failed(text)) => assert_eq!(text, "token refresh failed: revoked"),
        _ => panic!("a failed refresh cannot start a session"),
    }
    assert!(ensure_waited(LinkWait::Sees(None)).is_none());
    assert!(matches!(ensure_waited(LinkWait::Sees(Some(2))), Some(EnsureOutcome::Ready(2))));
    assert!(matches!(ensure_waited(LinkWait::TimedOut), Some(EnsureOutcome::Failed(_))));
    match ensure_waited(LinkWait::Closed) {
        Some(EnsureOutcome::Failed(text)) => assert_eq!(text, "session link watch closed"),
        _ => panic!("a closed watch cannot come up"),
    }
}

#[test]
fn web_metadata_keeps_every_artist_and_the_first_image() {
    assert_eq!(track_url("abc"), "https://api.spotify.com/v1/tracks/abc");
    assert_eq!(bearer("t"), "Bearer t");
    let track =
        described_track("abc", "T".into(), &names(&["A", "A", "B"]), names(&["first", "second"]));
    assert_eq!(track.artist, "A, A, B");
    assert_eq!(track.album_art_url.as_deref(), Some("first"));
    assert_eq!(track.spotify_track_id, "abc");
}
