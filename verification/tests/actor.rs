//! The shell around the player core.

use spotibot::player::actor::{
    addressed, authorize_input, authorize_previous_completion, empty_snapshot, feed_for,
    feed_report, is_spotify_row, music_pause_for_transport, plan_batch, prepare_next,
    previous_track, Action, Actor, Admission, BackCompletion, Feed, HistoryRow, Mail, Preparation,
    PreviousAuthorization, StoreRequest, UiEvent, VoiceGuard,
};
use spotibot::player::state::{
    step, Active, AiredSource, AiredTrack, Effect, EnqueuePos, Input, MediaOutcome, NowPlaying,
    PlayerState, PreviousTrack, SpDevice, SpircCmd, TransportEvent,
};
use spotibot::queue::{MediaSource, QueueItem};
use spotibot::uri::SpotifyUri;
use spotibot::youtube::feeder::FeederError;
use tokio::sync::oneshot;

/// Membership as the voice layer judges it: the same session, the bot in the
/// guard's room (or free to join it), and the user there too.
fn allows(guard: &VoiceGuard, generation: u64, bot: Option<u64>, user: Option<u64>) -> bool {
    guard.generation == generation
        && user == Some(guard.room)
        && (bot == Some(guard.room) || (guard.may_join && bot.is_none()))
}

fn refused(admission: Admission) -> Option<(oneshot::Sender<String>, String)> {
    match admission {
        Admission::Refused(answer) => answer,
        Admission::Run { .. } => panic!("no playback input may emerge"),
    }
}

fn media(title: &str) -> QueueItem {
    QueueItem::new(
        MediaSource::YouTube {
            url: "https://youtu.be/x".into(),
            video_id: "x".into(),
            title: title.into(),
            channel: "c".into(),
            thumbnail_url: None,
            duration_secs: 5,
        },
        "someone".into(),
        77,
    )
}

#[test]
fn spotify_telemetry_cannot_unpause_media_or_silence_its_overlay() {
    let item = QueueItem::new(
        MediaSource::File {
            filename: "test.wav".into(),
            attachment_url: "https://example.invalid/test.wav".into(),
        },
        "test".into(),
        1,
    );
    let active = Active::Media { item, paused: true, epoch: 1 };
    let uri = SpotifyUri::from_uri("spotify:track:0000000000000000000001").unwrap();
    let playing = TransportEvent::Playing { uri: uri.clone(), meta: None };
    assert_eq!(music_pause_for_transport(&active, &playing), Some(true));
    assert_eq!(music_pause_for_transport(&active, &TransportEvent::Paused { uri }), None);
}

#[test]
fn stop_and_voice_loss_cancel_audio_and_reject_delayed_dj_synthesis() {
    let (reply, _waiting) = oneshot::channel();
    for input in [Input::Stop { reply, leave_voice: true }, Input::VoiceLost] {
        let mut actor = Actor::new();
        let actions = actor.handle(input, None, 0, false);
        assert!(actions.iter().any(|a| matches!(a, Action::ClearBridge)));
    }
}

#[test]
fn spotify_pause_leaves_a_running_soundboard_clip_alive() {
    let uri = SpotifyUri::from_uri("spotify:track:0000000000000000000001").unwrap();
    let ev = TransportEvent::Paused { uri };
    assert_eq!(music_pause_for_transport(&Active::Spotify { track: None }, &ev), Some(true));
    let mut actor = Actor::new();
    let actions = actor.handle(Input::Transport { gen: 0, ev }, None, 0, false);
    assert!(!actions.iter().any(|a| matches!(a, Action::ClearBridge)));
}

#[test]
fn queued_command_rechecks_membership_when_the_actor_receives_it() {
    let (reply, mut received) = oneshot::channel();
    let guard = VoiceGuard { generation: 3, room: 10, user: 1, may_join: true };
    let mail = Mail::Guarded { guard, input: Input::Stop { reply, leave_voice: true } };
    // The caller was in room 10 when it sent the message, but has left
    // by the time the actor consumes it. No playback input may emerge.
    let answer = authorize_input(mail, |guard: &VoiceGuard| allows(guard, 3, Some(10), None));
    let (tx, text) = refused(answer).unwrap();
    tx.send(text).unwrap();
    assert!(received.try_recv().unwrap().contains("voice room"));
}

#[test]
fn another_room_claiming_voice_invalidates_a_queued_idle_request() {
    let (reply, mut received) = oneshot::channel();
    let guard = VoiceGuard { generation: 1, room: 10, user: 1, may_join: true };
    let mail = Mail::Guarded { guard, input: Input::Play { reply } };
    let answer = authorize_input(mail, |guard: &VoiceGuard| allows(guard, 2, Some(20), Some(10)));
    let (tx, text) = refused(answer).unwrap();
    tx.send(text).unwrap();
    assert!(received.try_recv().is_ok());
}

#[test]
fn late_account_activation_cannot_undo_stop() {
    let guard = VoiceGuard { generation: 3, room: 10, user: 1, may_join: false };
    let mail = Mail::Guarded { guard, input: Input::ActivateDevice };
    let answer = authorize_input(mail, |guard: &VoiceGuard| allows(guard, 4, None, Some(10)));
    assert!(refused(answer).is_none());
}

#[test]
fn back_completion_rechecks_the_requesters_voice_before_navigation() {
    for (generation, bot_room, user_room, allowed) in [
        (3, Some(10), Some(10), true),
        (3, Some(10), None, false),
        (3, Some(10), Some(20), false),
        (4, Some(20), Some(10), false),
    ] {
        let mut state = PlayerState::new();
        state.device_active = true;
        state.sp = SpDevice::Playing(SpotifyUri::from_uri(&aired(9).track_ref).unwrap());
        state.active = Active::Spotify { track: None };
        let (reply, mut received) = oneshot::channel();
        let guard = VoiceGuard { generation: 3, room: 10, user: 1, may_join: false };
        let mail = Mail::Guarded { guard, input: Input::Previous { reply } };
        let admitted =
            authorize_input(mail, |guard: &VoiceGuard| allows(guard, 3, Some(10), Some(10)));
        let Admission::Run { input, guard } = admitted else {
            panic!("the caller is in the room");
        };
        let effects = step(&mut state, input, 0);
        assert!(
            effects.iter().any(|effect| matches!(effect, Effect::ResolvePrevious { .. })),
            "the admitted Back starts a history read"
        );
        let mut pending = Some(PreviousAuthorization { request_id: 1, guard });
        let mut completion = BackCompletion {
            request_id: 1,
            track: Some(PreviousTrack {
                id: 7,
                uri: SpotifyUri::from_uri(&aired(7).track_ref).unwrap(),
                context_uri: Some("spotify:playlist:test".into()),
            }),
            authorized: true,
        };
        authorize_previous_completion(&mut completion, &mut pending, |guard: &VoiceGuard| {
            allows(guard, generation, bot_room, user_room)
        });
        let track = if completion.authorized { completion.track } else { None };
        let effects = step(&mut state, Input::PreviousResolved { track }, 0);
        assert_eq!(
            effects
                .iter()
                .any(|effect| matches!(effect, Effect::Spirc(SpircCmd::LoadContext { .. }))),
            allowed
        );
        for effect in effects {
            if let Effect::Reply(reply, text) = effect {
                reply.send(text).unwrap();
            }
        }
        assert!(!received.try_recv().expect("the caller always gets a reply").is_empty());
        assert!(pending.is_none());
    }
}

#[test]
fn stale_back_completion_cannot_steal_a_newer_callers_voice_guard() {
    let mut pending = Some(PreviousAuthorization {
        request_id: 2,
        guard: Some(VoiceGuard { generation: 3, room: 10, user: 1, may_join: false }),
    });
    let mut stale = BackCompletion { request_id: 1, track: None, authorized: true };
    authorize_previous_completion(&mut stale, &mut pending, |_: &VoiceGuard| {
        panic!("a stale completion cannot authorize against another caller")
    });
    assert!(!stale.authorized);
    assert_eq!(pending.as_ref().unwrap().request_id, 2);
    let mut current = BackCompletion { request_id: 2, track: None, authorized: true };
    authorize_previous_completion(&mut current, &mut pending, |guard: &VoiceGuard| {
        allows(guard, 3, Some(10), Some(10))
    });
    assert!(current.authorized);
    assert!(pending.is_none());
    authorize_previous_completion(&mut current, &mut pending, |_: &VoiceGuard| {
        panic!("a duplicate completion cannot reuse authorization")
    });
    assert!(!current.authorized);
}

#[test]
fn trusted_internal_back_reads_preserve_existing_rejection() {
    for authorized in [false, true] {
        let mut pending = Some(PreviousAuthorization { request_id: 1, guard: None });
        let mut input = BackCompletion { request_id: 1, track: None, authorized };
        authorize_previous_completion(&mut input, &mut pending, |_: &VoiceGuard| {
            panic!("an internal request has no Discord caller")
        });
        assert_eq!(input.authorized, authorized);
        assert!(pending.is_none());
    }
}

fn aired(n: u64) -> AiredTrack {
    AiredTrack {
        source: AiredSource::Baseline,
        track_ref: format!("spotify:track:{n:022}"),
        context_uri: Some("spotify:playlist:test".into()),
        title: None,
        artist: None,
        queued_by: None,
        queued_by_id: None,
    }
}

/// An append-only log whose rows are numbered from one.
struct History {
    rows: Vec<AiredTrack>,
}

impl History {
    fn open() -> History {
        History { rows: Vec::new() }
    }

    /// The newest row before `before`, or before the newest, that `wanted`
    /// accepts.
    fn aired_before(&self, before: Option<i64>, wanted: fn(&str) -> bool) -> Option<HistoryRow> {
        let end = before.map_or(self.rows.len(), |id| id as usize).saturating_sub(1);
        (0..end).rev().find(|i| wanted(&self.rows[*i].track_ref)).map(|i| HistoryRow {
            id: i as i64 + 1,
            track_ref: self.rows[i].track_ref.clone(),
            context_uri: self.rows[i].context_uri.clone(),
        })
    }
}

fn lookup(before: Option<i64>) -> StoreRequest {
    StoreRequest::ResolvePrevious { request_id: 1, before }
}

/// Run one drained batch: the answers, in order, with their request ids.
fn run_batch(
    mut history: Option<History>,
    requests: Vec<StoreRequest>,
) -> Vec<(u64, Option<PreviousTrack>)> {
    let mut answers = Vec::new();
    for request in plan_batch(requests).history {
        match request {
            StoreRequest::Aired(track) => {
                if let Some(history) = &mut history {
                    history.rows.push(track);
                }
            }
            StoreRequest::ResolvePrevious { request_id, before } => {
                let row = history.as_ref().and_then(|h| h.aired_before(before, is_spotify_row));
                answers.push((request_id, row.and_then(previous_track)));
            }
            StoreRequest::Queue(_) => panic!("a queue is not history"),
        }
    }
    answers
}

#[test]
fn history_replies_keep_distinct_request_ids_for_populated_empty_and_missing_stores() {
    for mode in 0..3 {
        let history = (mode != 0).then(History::open);
        let mut requests = Vec::new();
        if mode == 2 {
            requests.extend([StoreRequest::Aired(aired(1)), StoreRequest::Aired(aired(2))]);
        }
        requests.extend([
            StoreRequest::ResolvePrevious { request_id: 17, before: None },
            StoreRequest::ResolvePrevious { request_id: 42, before: Some(1) },
        ]);
        let answers = run_batch(history, requests);
        assert_eq!(answers.len(), 2);
        for (answer, (expected_id, expected_track)) in
            answers.into_iter().zip([(17, (mode == 2).then_some(1)), (42, None)])
        {
            assert_eq!(answer.0, expected_id);
            assert_eq!(answer.1.map(|track| track.id), expected_track);
        }
    }
}

#[test]
fn a_back_read_sees_earlier_airings_but_not_later_ones_in_the_same_batch() {
    let mut answers = run_batch(
        Some(History::open()),
        vec![
            StoreRequest::Aired(aired(1)),
            StoreRequest::Aired(aired(2)),
            lookup(None),
            StoreRequest::Aired(aired(3)),
            lookup(None),
        ],
    )
    .into_iter();
    let first = answers.next().unwrap().1.unwrap();
    assert_eq!(first.uri.to_uri(), aired(1).track_ref);
    assert_eq!(first.context_uri, aired(1).context_uri);
    assert_eq!(answers.next().unwrap().1.unwrap().uri.to_uri(), aired(2).track_ref);
}

#[test]
fn back_reads_skip_more_than_fifty_media_rows_and_bad_references() {
    let mut requests = vec![StoreRequest::Aired(aired(1))];
    for n in 0..60 {
        let mut media = aired(n);
        media.source = AiredSource::Request;
        media.track_ref = format!("https://example.invalid/media/{n}");
        requests.push(StoreRequest::Aired(media));
    }
    let mut invalid = aired(9);
    invalid.track_ref = "spotify:track:!".into();
    requests.push(StoreRequest::Aired(invalid));
    requests.push(StoreRequest::Aired(aired(2)));
    requests.push(lookup(None));
    let answers = run_batch(Some(History::open()), requests);
    assert_eq!(answers[0].1.as_ref().unwrap().uri.to_uri(), aired(1).track_ref);
}

#[test]
fn a_replay_does_not_move_an_explicit_history_cursor_forward() {
    let answers = run_batch(
        Some(History::open()),
        vec![
            StoreRequest::Aired(aired(1)),
            StoreRequest::Aired(aired(2)),
            StoreRequest::Aired(aired(3)),
            lookup(None),
            StoreRequest::Aired(aired(2)),
            lookup(Some(2)),
            lookup(Some(1)),
        ],
    );
    let ids: Vec<_> = answers.into_iter().map(|(_, track)| track.map(|t| t.id)).collect();
    assert_eq!(ids, [Some(2), Some(1), None]);
}

#[test]
fn missing_empty_and_media_only_history_all_answer_without_a_track() {
    assert!(run_batch(None, vec![lookup(None)])[0].1.is_none());
    let mut media = aired(1);
    media.track_ref = "https://example.invalid/media".into();
    let mut again = aired(1);
    again.track_ref = media.track_ref.clone();
    let answers = run_batch(
        Some(History::open()),
        vec![
            lookup(None),
            StoreRequest::Aired(media),
            lookup(None),
            StoreRequest::Aired(again),
            lookup(None),
        ],
    );
    assert_eq!(answers.len(), 3);
    assert!(answers.iter().all(|(_, track)| track.is_none()));
}

#[test]
fn only_the_newest_queue_of_a_batch_is_written() {
    let plan = plan_batch(vec![
        StoreRequest::Queue(vec![media("old")]),
        StoreRequest::Aired(aired(1)),
        StoreRequest::Queue(vec![media("new"), media("newer")]),
    ]);
    assert_eq!(plan.history.len(), 1);
    assert_eq!(plan.queue.unwrap().len(), 2);
}

#[test]
fn a_handle_without_a_guard_sends_plain_mail() {
    let guard = VoiceGuard { generation: 1, room: 2, user: 3, may_join: false };
    assert!(matches!(addressed(None, Input::VoiceLost), Mail::Plain(Input::VoiceLost)));
    assert!(matches!(
        addressed(Some(guard), Input::VoiceLost),
        Mail::Guarded { input: Input::VoiceLost, .. }
    ));
    let never = |_: &VoiceGuard| panic!("plain mail has no guard");
    assert!(matches!(
        authorize_input(Mail::Plain(Input::VoiceLost), never),
        Admission::Run { guard: None, .. }
    ));
    assert!(matches!(empty_snapshot().now, NowPlaying::Nothing));
}

#[test]
fn a_started_item_is_fed_and_the_queue_saved() {
    let mut actor = Actor::new();
    assert!(actor.has_room());
    let (reply, _waiting) = oneshot::channel();
    let input = Input::Enqueue {
        item: media("first"),
        pos: EnqueuePos::Tail,
        start_if_idle: true,
        reply,
    };
    let actions = actor.handle(input, None, 0, false);
    assert!(matches!(actor.state.active, Active::Media { .. }));
    assert!(actions.iter().any(|a| matches!(a, Action::SetSpotifyMuted(true))));
    assert!(actions.iter().any(|a| matches!(a, Action::Reply(_, _))));
    assert!(!format!("{actions:?}").is_empty());
}

#[test]
fn a_read_nobody_waits_for_is_dropped() {
    let mut actor = Actor::new();
    let done = BackCompletion { request_id: 1, track: None, authorized: true };
    assert!(actor.previous_read(done, |_: &VoiceGuard| true).is_none());
}

#[test]
fn a_cancelled_preparation_ends_where_it_is() {
    let mut stage = Preparation::Gate;
    for next in [Preparation::Announcing, Preparation::Announced, Preparation::Ready] {
        assert_eq!(prepare_next(stage, true), Err(MediaOutcome::Cancelled));
        stage = prepare_next(stage, false).unwrap();
        assert_eq!(stage, next);
    }
}

#[test]
fn feeds_follow_their_source_and_report_their_end() {
    let item = media("A title");
    assert!(matches!(feed_for(&item.source), Feed::YouTube { url } if url == "https://youtu.be/x"));
    let file = MediaSource::File { filename: "a.b.MP3".into(), attachment_url: "u".into() };
    assert!(matches!(feed_for(&file), Feed::File { ext, .. } if ext == "MP3"));
    let (outcome, actions) = feed_report(&item, Ok(()));
    assert_eq!(outcome, MediaOutcome::Finished);
    assert!(matches!(actions.as_slice(), [Action::Ui(UiEvent::HistoryMedia { .. })]));
    let (outcome, actions) = feed_report(&item, Err(FeederError::Cancelled));
    assert_eq!((outcome, actions.len()), (MediaOutcome::Cancelled, 0));
    let (outcome, actions) = feed_report(&item, Err(FeederError::ConvertFailed("x".into())));
    assert_eq!(outcome, MediaOutcome::Finished);
    match actions.as_slice() {
        [Action::Notice(text), Action::Ui(UiEvent::IdleCard)] => assert_eq!(
            text,
            "⚠️ <@77> Couldn't play **A title** — the download or decode failed."
        ),
        other => panic!("{other:?}"),
    }
}

#[test]
fn a_second_cancel_finds_no_runner() {
    let mut actor = Actor::new();
    let (reply, _waiting) = oneshot::channel();
    let input =
        Input::Enqueue { item: media("a"), pos: EnqueuePos::Tail, start_if_idle: true, reply };
    let cancels = |actions: &[Action]| {
        actions.iter().filter(|a| matches!(a, Action::CancelRunner)).count()
    };
    assert_eq!(cancels(&actor.handle(input, None, 0, false)), 0);
    for expected in [1, 0] {
        let (reply, _waiting) = oneshot::channel();
        let input = Input::Stop { reply, leave_voice: true };
        assert_eq!(cancels(&actor.handle(input, None, 0, false)), expected);
    }
}

#[test]
fn batches_may_be_split_anywhere() {
    let requests = || {
        vec![
            StoreRequest::Queue(vec![media("old")]),
            StoreRequest::Aired(aired(1)),
            lookup(None),
            StoreRequest::Queue(vec![media("new"), media("newer")]),
            StoreRequest::Aired(aired(2)),
        ]
    };
    let whole = plan_batch(requests());
    for at in 0..=5 {
        let mut first = requests();
        let rest = first.split_off(at);
        let (first, second) = (plan_batch(first), plan_batch(rest));
        assert_eq!(first.history.len() + second.history.len(), whole.history.len());
        let kept = second.queue.or(first.queue).unwrap();
        assert_eq!(kept.len(), whole.queue.as_ref().unwrap().len());
    }
}
