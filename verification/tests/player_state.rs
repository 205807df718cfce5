//! The player's decisions, driven through `step`.

use spotibot::player::state::{
    head_of, start_media, step, Ack, Active, AiredSource, AiredTrack, Armed, Effect, EnqueuePos, Head, Input, MediaOutcome,
    NowPlaying, PauseOwner, PendingJump, PlayOptions, PlayerSnapshot, PlayerState, PreviousTrack, SpDevice,
    SpircCmd, StartGate, TimerKind, TrackHandleCmd, TrackMeta, TransportEvent, UiMsg, VoiceStatus,
};
use spotibot::queue::{MediaSource, QueueItem};
use spotibot::uri::SpotifyUri;
use tokio::sync::oneshot;

const SECOND: u64 = 1_000_000_000;
const MILLI: u64 = 1_000_000;

// --- fixtures -------------------------------------------------------

fn uri(n: u64) -> SpotifyUri {
    SpotifyUri::from_uri(&format!("spotify:track:{n:022}")).unwrap()
}

fn meta(title: &str) -> TrackMeta {
    TrackMeta { title: title.into(), artist: "artist".into(), album_art_url: None }
}

fn media_item(title: &str) -> QueueItem {
    QueueItem::new(
        MediaSource::YouTube {
            url: "u".into(),
            video_id: "v".into(),
            title: title.into(),
            channel: "c".into(),
            thumbnail_url: None,
            duration_secs: 60,
        },
        "dj".into(),
        1,
    )
}

fn spotify_item(n: u64, title: &str) -> QueueItem {
    QueueItem::new(
        MediaSource::Spotify {
            uri: uri(n),
            title: title.into(),
            artist: "artist".into(),
            album_art_url: None,
        },
        "dj".into(),
        1,
    )
}

/// A `PlayerState` plus a fake clock, driven through `step` only.
/// Situation constructors set the state up; assertions stay on the
/// returned effects wherever possible.
struct Sim {
    s: PlayerState,
    now: u64,
}

impl Sim {
    fn new() -> Self {
        let mut s = PlayerState::new();
        s.voice = VoiceStatus::Ready;
        s.link_gen = 1;
        Self { s, now: 1_000_000_000_000 }
    }

    /// Active Spotify baseline playing track 9, device active.
    fn baseline_playing() -> Self {
        let mut sim = Self::new();
        sim.s.device_active = true;
        sim.s.sp = SpDevice::Playing(uri(9));
        sim.s.active = Active::Spotify { track: None };
        sim.s.last_heard_track = Some(uri(9).to_uri());
        sim
    }

    /// Baseline paused on track 9 with the given pause owner.
    fn baseline_paused(owner: Option<PauseOwner>) -> Self {
        let mut sim = Self::baseline_playing();
        sim.s.sp = SpDevice::Paused(uri(9));
        sim.s.pause_owner = owner;
        sim
    }

    /// Device active but nothing loaded (`sp == Idle`), no turn holder.
    fn idle_device() -> Self {
        let mut sim = Self::new();
        sim.s.device_active = true;
        sim.s.sp = SpDevice::Idle;
        sim
    }

    /// A media item holds the turn over a bot-paused baseline (the
    /// normal mid-drain situation).
    fn media_over_paused_baseline() -> Self {
        let mut sim = Self::baseline_paused(Some(PauseOwner::BotForMedia));
        sim.s.queue.push(media_item("active-item"));
        let item = sim.s.queue.pop().unwrap();
        sim.s.media_epoch = 1;
        sim.s.active =
            Active::Media { item, paused: false, epoch: 1 };
        sim
    }

    fn step(&mut self, input: Input) -> Vec<Effect> {
        step(&mut self.s, input, self.now)
    }

    fn advance(&mut self, d: u64) {
        self.now += d;
    }

    fn transport(&mut self, ev: TransportEvent) -> Vec<Effect> {
        let gen = self.s.link_gen;
        self.step(Input::Transport { gen, ev })
    }

    fn enqueue(&mut self, item: QueueItem) -> Vec<Effect> {
        let (tx, _rx) = oneshot::channel();
        self.step(Input::Enqueue { item, pos: EnqueuePos::Tail, start_if_idle: false, reply: tx })
    }

    fn enqueue_start(&mut self, item: QueueItem) -> Vec<Effect> {
        let (tx, _rx) = oneshot::channel();
        self.step(Input::Enqueue { item, pos: EnqueuePos::Tail, start_if_idle: true, reply: tx })
    }

    fn skip(&mut self) -> Vec<Effect> {
        let (tx, _rx) = oneshot::channel();
        self.step(Input::Skip { reply: tx })
    }

    fn stop(&mut self) -> Vec<Effect> {
        let (tx, _rx) = oneshot::channel();
        self.step(Input::Stop { reply: tx, leave_voice: true })
    }

    /// The teardown shape: `VoiceLost` then a stop that owns no leave.
    fn teardown(&mut self) -> Vec<Effect> {
        let mut fx = self.step(Input::VoiceLost);
        let (tx, _rx) = oneshot::channel();
        fx.extend(self.step(Input::Stop { reply: tx, leave_voice: false }));
        fx
    }

    fn toggle(&mut self) -> Vec<Effect> {
        let (tx, _rx) = oneshot::channel();
        self.step(Input::TogglePause { reply: tx })
    }

    fn previous(&mut self) -> Vec<Effect> {
        let (tx, _rx) = oneshot::channel();
        self.step(Input::Previous { reply: tx })
    }

    fn media_ended(&mut self, outcome: MediaOutcome) -> Vec<Effect> {
        let epoch = self.s.media_epoch;
        self.step(Input::MediaEnded { epoch, outcome })
    }

    /// Push a Spotify item and return its stamped id.
    fn push_spotify(&mut self, n: u64, title: &str) -> u64 {
        assert!(self.s.queue.push(spotify_item(n, title)));
        self.s.queue.snapshot().last().unwrap().item_id
    }

    fn arm(&mut self, n: u64, item_id: u64, ack: Ack) {
        self.s.armed = Some(Armed { item_id, uri: uri(n), ack });
    }
}

// --- effect assertions ----------------------------------------------

fn spircs(fx: &[Effect]) -> Vec<SpircCmd> {
    fx.iter()
        .filter_map(|e| match e {
            Effect::Spirc(c) => Some(c.clone()),
            _ => None,
        })
        .collect()
}

fn add_to_queue_count(fx: &[Effect]) -> usize {
    spircs(fx).iter().filter(|c| matches!(c, SpircCmd::AddToQueue(_))).count()
}

fn has_start_media(fx: &[Effect]) -> bool {
    fx.iter().any(|e| matches!(e, Effect::StartMedia { .. }))
}

fn start_gate(fx: &[Effect]) -> Option<StartGate> {
    fx.iter().find_map(|e| match e {
        Effect::StartMedia { gate, .. } => Some(*gate),
        _ => None,
    })
}

fn has_cancel(fx: &[Effect]) -> bool {
    fx.iter().any(|e| matches!(e, Effect::CancelMedia))
}

fn has_leave(fx: &[Effect]) -> bool {
    fx.iter().any(|e| matches!(e, Effect::LeaveVoice))
}

fn has_join(fx: &[Effect]) -> bool {
    fx.iter().any(|e| matches!(e, Effect::JoinVoice))
}

fn has_clear(fx: &[Effect]) -> bool {
    fx.iter().any(|e| matches!(e, Effect::ClearBridge))
}

fn has_spotify_card(fx: &[Effect]) -> bool {
    fx.iter().any(|e| matches!(e, Effect::Ui(UiMsg::NowPlayingSpotify { .. })))
}

fn has_presence(fx: &[Effect]) -> bool {
    fx.iter().any(|e| matches!(e, Effect::Presence(_)))
}

fn has_takeover_prompt(fx: &[Effect]) -> bool {
    fx.iter().any(|e| matches!(e, Effect::Ui(UiMsg::TakeoverPrompt)))
}

fn has_notice(fx: &[Effect]) -> bool {
    fx.iter().any(|e| matches!(e, Effect::Ui(UiMsg::Notice(_))))
}

fn timer_set(fx: &[Effect], kind: TimerKind) -> bool {
    fx.iter().any(|e| matches!(e, Effect::SetTimer(k, _) if *k == kind))
}

fn reply_text(fx: &[Effect]) -> String {
    fx.iter()
        .find_map(|e| match e {
            Effect::Reply(_, t) => Some(t.clone()),
            _ => None,
        })
        .expect("a command always replies")
}

fn reply_snapshot(fx: &[Effect]) -> PlayerSnapshot {
    fx.iter()
        .find_map(|e| match e {
            Effect::ReplySnapshot(_, s) => Some(s.clone()),
            _ => None,
        })
        .expect("a query always replies")
}

/// Effects minus the reply — for "this input does nothing" assertions
/// on command inputs, which always answer their caller.
fn without_reply(fx: Vec<Effect>) -> Vec<Effect> {
    fx.into_iter().filter(|e| !matches!(e, Effect::Reply(..))).collect()
}

// --- arming at enqueue (old enqueue_* table rows) ---------------------

#[test]
fn enqueue_arms_first_spotify_anywhere_while_playing() {
    // Arming looks past the media head for the first Spotify item.
    let mut sim = Sim::baseline_playing();
    sim.s.queue.push(media_item("m1"));
    let fx = sim.enqueue(spotify_item(1, "s1"));
    assert_eq!(spircs(&fx), vec![SpircCmd::AddToQueue(uri(1))]);
    assert!(timer_set(&fx, TimerKind::ArmAck));
    assert!(matches!(sim.s.armed, Some(Armed { ack: Ack::Sent(_), .. })));
}

#[test]
fn enqueue_never_double_arms() {
    // One armed track at a time: a second enqueue changes nothing
    // device-side.
    let mut sim = Sim::baseline_playing();
    let id = sim.push_spotify(1, "s1");
    sim.arm(1, id, Ack::Confirmed);
    let fx = sim.enqueue(spotify_item(2, "s2"));
    assert_eq!(add_to_queue_count(&fx), 0, "one armed track at a time");
}

#[test]
fn enqueue_during_media_arms_but_never_disturbs_the_media() {
    // Arming while the baseline sits bot-paused under a media item is
    // deliberate: it sets up the paused-at-0:00 handoff, and it is the
    // frozen-skip fix. Arming is not disturbing — an enqueue during
    // media still never starts or silences anything.
    let mut sim = Sim::media_over_paused_baseline();
    let fx = sim.enqueue(spotify_item(1, "s1"));
    assert_eq!(spircs(&fx), vec![SpircCmd::AddToQueue(uri(1))]);
    assert!(!has_start_media(&fx) && !has_cancel(&fx) && !has_clear(&fx));
    assert!(matches!(sim.s.active, Active::Media { .. }));
}

#[test]
fn enqueue_does_not_arm_while_spotify_is_idle() {
    // An idle device holds no context, so there is nothing to queue
    // behind — compare the paused case below, which does arm.
    let mut sim = Sim::idle_device();
    let fx = sim.enqueue(spotify_item(1, "s1"));
    assert!(spircs(&fx).is_empty());
    assert!(sim.s.armed.is_none());
    assert_eq!(
        reply_text(&fx),
        "➕ Queued. Nothing is playing right now — press ▶ or use `/play` to start."
    );
}

#[test]
fn enqueue_arms_while_the_baseline_is_paused() {
    // A paused context is still a context. Arming into it is
    // deliberate: it is what makes a later skip or resume air the
    // request rather than freeze on it.
    let mut sim = Sim::baseline_paused(Some(PauseOwner::Human));
    let fx = sim.enqueue(spotify_item(1, "s1"));
    assert_eq!(spircs(&fx), vec![SpircCmd::AddToQueue(uri(1))]);
}

#[test]
fn enqueue_next_while_playing_reports_playing_next() {
    // `next: true` from `/play` maps to `EnqueuePos::Head`; something
    // already holds the turn, so the item queues at the front without
    // starting.
    let mut sim = Sim::baseline_playing();
    let (tx, _rx) = oneshot::channel();
    let fx = sim.step(Input::Enqueue {
        item: spotify_item(1, "s1"),
        pos: EnqueuePos::Head,
        start_if_idle: true,
        reply: tx,
    });
    assert_eq!(reply_text(&fx), "➕ Playing next");
}

#[test]
fn enqueue_start_when_an_earlier_queued_item_wins_the_head() {
    // A `/queue`'d item sits unstarted while idle (queuing never
    // starts); a later `/play` finds it still at the head and starts
    // that instead — the new item queues in behind it.
    let mut sim = Sim::idle_device();
    sim.enqueue(media_item("a"));
    let fx = sim.enqueue_start(media_item("b"));
    assert_eq!(reply_text(&fx), "➕ Queued. **a** is starting first.");
    assert!(matches!(sim.s.active, Active::Media { .. }));
    assert_eq!(sim.s.queue.len(), 1, "b is still waiting");
}

// --- EndOfTrack boundaries (old track_end_* rows) ---------------------

#[test]
fn end_of_track_with_armed_head_is_hands_off() {
    // Auto-advance lands on the armed track by itself.
    let mut sim = Sim::baseline_playing();
    let id = sim.push_spotify(1, "s1");
    sim.arm(1, id, Ack::Confirmed);
    let fx = sim.transport(TransportEvent::EndOfTrack);
    assert!(spircs(&fx).is_empty());
    assert_eq!(sim.s.sp, SpDevice::Boundary);
}

#[test]
fn end_of_track_arms_an_unarmed_spotify_head() {
    let mut sim = Sim::baseline_playing();
    sim.push_spotify(1, "s1");
    let fx = sim.transport(TransportEvent::EndOfTrack);
    assert_eq!(spircs(&fx), vec![SpircCmd::AddToQueue(uri(1))]);
}

#[test]
fn end_of_track_with_media_head_starts_it_behind_the_pause_ack() {
    // No Pause at the boundary —
    // librespot ignores one in its EndOfTrack state; the advancing
    // next track is caught by the Playing-under-Media arm, and the
    // media item starts behind that pause's ack.
    let mut sim = Sim::baseline_playing();
    sim.s.queue.push(media_item("m"));
    let fx = sim.transport(TransportEvent::EndOfTrack);
    assert!(spircs(&fx).is_empty(), "no pause at a boundary");
    assert_eq!(start_gate(&fx), Some(StartGate::AfterSpotifyPauseAck));
    assert_eq!(sim.s.pause_owner, Some(PauseOwner::BotForMedia));
    assert!(matches!(sim.s.active, Active::Media { .. }));
    // The auto-advance lands: it's not its turn, so it is paused back.
    let fx = sim.transport(TransportEvent::Playing { uri: uri(10), meta: None });
    assert_eq!(spircs(&fx), vec![SpircCmd::Pause]);
    assert!(matches!(sim.s.active, Active::Media { .. }));
}

#[test]
fn dead_arm_clears_and_rearms_when_our_next_lands_elsewhere() {
    // The live stuck-queue bug: an arm that never acks (dropped
    // AddToQueue) stayed `Some` forever, so nothing re-armed and every
    // skip played the context. Our own advance landing on a non-armed
    // track proves the arm is dead.
    let mut sim = Sim::baseline_playing();
    let id = sim.push_spotify(1, "s1");
    sim.arm(1, id, Ack::Lost);
    let fx = sim.skip();
    assert_eq!(add_to_queue_count(&fx), 0, "still armed: no second AddToQueue");
    assert!(matches!(sim.s.active, Active::SpotifyPending { .. }));
    // Spotify advanced onto a context track instead of s1.
    let fx = sim.transport(TransportEvent::Playing { uri: uri(42), meta: None });
    assert_eq!(sim.s.queue.len(), 1, "s1 is still a request");
    assert!(
        matches!(&sim.s.armed, Some(Armed { uri: u, ack: Ack::Sent(_), .. }) if *u == uri(1)),
        "a fresh arm was issued: {:?}",
        sim.s.armed
    );
    assert_eq!(add_to_queue_count(&fx), 1);
}

#[test]
fn activate_device_input_activates_once_and_arms() {
    let mut sim = Sim::new();
    sim.s.sp = SpDevice::Paused(uri(9));
    sim.push_spotify(1, "s1");
    let fx = sim.step(Input::ActivateDevice);
    assert_eq!(spircs(&fx), vec![SpircCmd::ActivateDevice, SpircCmd::AddToQueue(uri(1))]);
    assert!(sim.s.device_active);
    let fx = sim.step(Input::ActivateDevice);
    assert!(fx.is_empty(), "already active: nothing to do");
}

#[test]
fn activating_a_fresh_session_makes_it_idle_so_a_spotify_head_loads() {
    // Live H: logout → login during a media item, then skip onto a
    // queued Spotify track did nothing — `sp` stayed Inactive after
    // ActivateDevice, so the post-media boundary had no Load path.
    let mut sim = Sim::media_over_paused_baseline();
    sim.s.sp = SpDevice::Inactive;
    sim.s.device_active = false;
    sim.step(Input::ActivateDevice);
    assert_eq!(sim.s.sp, SpDevice::Idle);
    sim.push_spotify(1, "s1");
    sim.skip();
    let fx = sim.media_ended(MediaOutcome::Cancelled);
    assert_eq!(spircs(&fx), vec![SpircCmd::Load(uri(1))]);
}

#[test]
fn track_changed_under_baseline_repaints_the_card_once() {
    // pause(); next() cues the next track without a Playing: the card
    // follows TrackChanged, and the later Playing doesn't repost.
    let mut sim = Sim::baseline_playing();
    let meta = TrackMeta { title: "t".into(), artist: "a".into(), album_art_url: None };
    let fx = sim.transport(TransportEvent::TrackChanged { uri: uri(10), meta: meta.clone() });
    assert!(fx.iter().any(|e| matches!(e, Effect::Ui(UiMsg::NowPlayingSpotify { .. }))));
    let fx = sim.transport(TransportEvent::Playing { uri: uri(10), meta: Some(meta) });
    assert!(!fx.iter().any(|e| matches!(e, Effect::Ui(UiMsg::NowPlayingSpotify { .. }))));
}

#[test]
fn track_changed_under_media_is_ignored() {
    let mut sim = Sim::media_over_paused_baseline();
    let meta = TrackMeta { title: "t".into(), artist: "a".into(), album_art_url: None };
    let fx = sim.transport(TransportEvent::TrackChanged { uri: uri(10), meta });
    assert!(fx.is_empty());
}

#[test]
fn end_of_track_during_media_changes_nothing() {
    let mut sim = Sim::media_over_paused_baseline();
    let fx = sim.transport(TransportEvent::EndOfTrack);
    assert!(fx.is_empty());
    assert!(matches!(sim.s.active, Active::Media { .. }));
}

#[test]
fn end_of_track_with_empty_queue_lets_the_baseline_roll() {
    let mut sim = Sim::baseline_playing();
    let fx = sim.transport(TransportEvent::EndOfTrack);
    assert!(fx.is_empty());
}

// --- media-end boundaries (old media_end_* rows) ----------------------

#[test]
fn media_end_resumes_an_armed_spotify_head() {
    // The cued track
    // (9) isn't the confirmed head (1): advance onto the head, then
    // play — the request beats the context track the skip cued.
    let mut sim = Sim::media_over_paused_baseline();
    let id = sim.push_spotify(1, "s1");
    sim.arm(1, id, Ack::Confirmed);
    let fx = sim.media_ended(MediaOutcome::Finished);
    assert_eq!(spircs(&fx), vec![SpircCmd::Next, SpircCmd::Play]);
    assert!(matches!(sim.s.active, Active::SpotifyPending { .. }));
    assert_eq!(sim.s.pause_owner, None);
}

#[test]
fn media_end_arms_and_resumes_an_unarmed_spotify_head() {
    // Queue it behind the context, then resume.
    let mut sim = Sim::media_over_paused_baseline();
    sim.push_spotify(1, "s1");
    let fx = sim.media_ended(MediaOutcome::Finished);
    assert_eq!(spircs(&fx), vec![SpircCmd::AddToQueue(uri(1)), SpircCmd::Play]);
}

#[test]
fn media_end_loads_a_spotify_head_while_idle() {
    // No context to lose, so load() is allowed.
    let mut sim = Sim::media_over_paused_baseline();
    sim.s.sp = SpDevice::Idle;
    sim.s.pause_owner = None;
    sim.push_spotify(1, "s1");
    let fx = sim.media_ended(MediaOutcome::Finished);
    assert_eq!(spircs(&fx), vec![SpircCmd::Load(uri(1))]);
    assert!(matches!(sim.s.active, Active::SpotifyPending { .. }));
    assert!(timer_set(&fx, TimerKind::SpotifyPending));
}

#[test]
fn media_end_with_empty_queue_resumes_the_bot_paused_baseline() {
    // Nothing queued, so the boundary is quiet: whether the baseline
    // comes back is the pause owner's decision, not the boundary's.
    let mut sim = Sim::media_over_paused_baseline();
    let fx = sim.media_ended(MediaOutcome::Finished);
    assert_eq!(spircs(&fx), vec![SpircCmd::Play]);
    assert_eq!(sim.s.pause_owner, None);
    assert!(matches!(sim.s.active, Active::Spotify { .. }));
}

#[test]
fn media_end_with_empty_queue_and_idle_baseline_goes_quiet() {
    let mut sim = Sim::media_over_paused_baseline();
    sim.s.sp = SpDevice::Idle;
    sim.s.pause_owner = None;
    let fx = sim.media_ended(MediaOutcome::Finished);
    assert!(spircs(&fx).is_empty());
    assert!(matches!(sim.s.active, Active::Nobody));
}

// --- human skip (old skip_* rows) -------------------------------------

#[test]
fn skip_with_armed_head_sends_next() {
    let mut sim = Sim::baseline_playing();
    let id = sim.push_spotify(1, "s1");
    sim.arm(1, id, Ack::Confirmed);
    let fx = sim.skip();
    assert_eq!(spircs(&fx), vec![SpircCmd::Next]);
    assert!(
        matches!(&sim.s.active, Active::SpotifyPending { uri: u, .. } if *u == uri(1)),
        "the skip expects exactly that uri to start"
    );
}

#[test]
fn skip_with_unarmed_spotify_head_arms_then_nexts() {
    let mut sim = Sim::baseline_playing();
    sim.push_spotify(1, "s1");
    let fx = sim.skip();
    let cmds = spircs(&fx);
    assert_eq!(cmds[0], SpircCmd::AddToQueue(uri(1)), "queue behind current first");
    assert!(cmds.contains(&SpircCmd::Next));
}

#[test]
fn skip_onto_a_media_head_pauses_advances_and_starts_it() {
    // pause() then next() is librespot's silent advance: it loads the
    // skipped track
    // paused at 0:00 — no blip, exactly one track consumed.
    let mut sim = Sim::baseline_playing();
    sim.s.queue.push(media_item("m"));
    let fx = sim.skip();
    assert_eq!(spircs(&fx), vec![SpircCmd::Pause, SpircCmd::Next]);
    assert!(has_clear(&fx));
    assert_eq!(start_gate(&fx), Some(StartGate::AfterSpotifyPauseAck));
    assert_eq!(sim.s.pause_owner, Some(PauseOwner::BotForMedia));
}

#[test]
fn skip_with_empty_queue_nexts_the_baseline() {
    let mut sim = Sim::baseline_playing();
    let fx = sim.skip();
    assert_eq!(spircs(&fx), vec![SpircCmd::Next]);
}

// --- the play button (old play_button_* rows) -------------------------

#[test]
fn play_when_paused_with_armed_head_resumes() {
    let mut sim = Sim::baseline_paused(None);
    let id = sim.push_spotify(1, "s1");
    sim.arm(1, id, Ack::Confirmed);
    let fx = sim.toggle();
    assert_eq!(spircs(&fx), vec![SpircCmd::Play]);
    assert!(matches!(sim.s.active, Active::Spotify { .. }));
}

#[test]
fn play_when_idle_loads_the_spotify_head() {
    let mut sim = Sim::idle_device();
    sim.push_spotify(1, "s1");
    let fx = sim.toggle();
    assert_eq!(spircs(&fx), vec![SpircCmd::Load(uri(1))]);
    assert!(matches!(sim.s.active, Active::SpotifyPending { .. }));
    assert!(timer_set(&fx, TimerKind::SpotifyPending));
}

#[test]
fn play_with_a_paused_baseline_arms_and_resumes_never_loads() {
    // A paused context is still the DJ's: queue behind it and resume,
    // never Load.
    let mut sim = Sim::baseline_paused(Some(PauseOwner::Human));
    sim.push_spotify(1, "s1");
    let fx = sim.toggle();
    assert_eq!(spircs(&fx), vec![SpircCmd::AddToQueue(uri(1)), SpircCmd::Play]);
}

#[test]
fn play_with_a_media_head_starts_it_and_leaves_the_baseline_alone() {
    // The baseline stays paused and keeps its owner, so a human pause
    // still blocks the auto-resume once the media item ends.
    let mut sim = Sim::baseline_paused(Some(PauseOwner::Human));
    sim.s.queue.push(media_item("m"));
    let fx = sim.toggle();
    assert!(spircs(&fx).is_empty());
    assert!(has_start_media(&fx));
    assert_eq!(sim.s.pause_owner, Some(PauseOwner::Human));
}

#[test]
fn play_with_empty_queue_resumes_the_baseline() {
    // An explicit Discord command overrides even a human phone pause.
    let mut sim = Sim::baseline_paused(Some(PauseOwner::Human));
    let fx = sim.toggle();
    assert_eq!(spircs(&fx), vec![SpircCmd::Play]);
    assert_eq!(sim.s.pause_owner, None);
}

// --- regressions, each named after its bug ----------------------------

#[test]
fn frozen_skip_phone_pause_then_skip_still_plays() {
    // The live repro: phone pause → ⏭ onto media → ⏭ again → the next
    // queued Spotify track must PLAY, not sit armed and silent.
    let mut sim = Sim::baseline_playing();

    // Phone pause — no inflight entry, so it's the human's.
    sim.transport(TransportEvent::Paused { uri: uri(9) });
    assert_eq!(sim.s.pause_owner, Some(PauseOwner::Human));

    // Queue a media item, then the Spotify track: arming while paused
    // is what stages the fix.
    sim.enqueue(media_item("sc"));
    let fx = sim.enqueue(spotify_item(1, "s1"));
    assert_eq!(add_to_queue_count(&fx), 1);

    // ⏭ onto the media head: pause(); next() — and the *skip* hands the
    // pause to the bot, superseding the human pause.
    let fx = sim.skip();
    assert_eq!(spircs(&fx), vec![SpircCmd::Pause, SpircCmd::Next]);
    assert_eq!(sim.s.pause_owner, Some(PauseOwner::BotForMedia));

    // Librespot echoes the pause on the advanced-to armed track.
    sim.transport(TransportEvent::Paused { uri: uri(1) });
    assert_eq!(
        sim.s.pause_owner,
        Some(PauseOwner::BotForMedia),
        "our echo must not read as a human pause"
    );

    // ⏭ again cancels the media item...
    let fx = sim.skip();
    assert!(has_cancel(&fx));

    // ...and the boundary decision must make sound — the old bot's
    // `resume_spotify_after_drain` said "wasn't playing" and froze here.
    let fx = sim.media_ended(MediaOutcome::Cancelled);
    assert_eq!(spircs(&fx), vec![SpircCmd::Play], "the armed track plays");
}

#[test]
fn login_during_media_does_not_cancel_media() {
    // The session lifecycle cycling (as /login does) can't reach the
    // media path: no CancelMedia, no ClearBridge, turn untouched.
    let mut sim = Sim::media_over_paused_baseline();
    let down = sim.step(Input::LinkDown { gen: 1 });
    sim.advance(2 * SECOND);
    let up = sim.step(Input::LinkUp { gen: 2 });
    for fx in [&down, &up] {
        assert!(!has_cancel(fx) && !has_clear(fx));
    }
    assert!(matches!(sim.s.active, Active::Media { .. }));
    assert_eq!(sim.s.link_gen, 2);
}

#[test]
fn phone_play_during_media_pauses_spotify_and_keeps_card_suppressed() {
    let mut sim = Sim::media_over_paused_baseline();
    let fx = sim.transport(TransportEvent::Playing { uri: uri(9), meta: Some(meta("x")) });
    assert_eq!(spircs(&fx), vec![SpircCmd::Pause]);
    assert!(!has_spotify_card(&fx) && !has_presence(&fx));
    assert!(matches!(sim.s.active, Active::Media { .. }), "no incoming event moves the turn");
    assert_eq!(sim.s.pause_owner, Some(PauseOwner::BotForMedia), "it airs after the queue");
}

#[test]
fn armed_track_never_queued_twice() {
    // Lost is advisory: a slow ack plus a blind retry would queue the
    // track twice, and librespot has no dequeue.
    let mut sim = Sim::baseline_playing();
    let fx = sim.enqueue(spotify_item(1, "s1"));
    assert_eq!(add_to_queue_count(&fx), 1);

    sim.advance(2500 * MILLI);
    let fx = sim.step(Input::Tick(TimerKind::ArmAck));
    assert_eq!(add_to_queue_count(&fx), 0, "Lost never blind-retries");
    assert!(matches!(sim.s.armed, Some(Armed { ack: Ack::Lost, .. })));

    // The slow ack finally lands: recovered, still exactly one queue.
    let fx = sim.transport(TransportEvent::SetQueue {
        current: Some(uri(9)),
        queued: vec![uri(1)],
        context_uri: None,
    });
    assert_eq!(add_to_queue_count(&fx), 0);
    assert!(matches!(sim.s.armed, Some(Armed { ack: Ack::Confirmed, .. })));
}

#[test]
fn end_of_track_does_not_clear_armed() {
    // Armed clears on exactly one predicate family (its own Playing, a
    // phone deletion, link-down snapshot, void-by-disconnect, stop) —
    // never on a boundary.
    let mut sim = Sim::baseline_playing();
    let id = sim.push_spotify(1, "s1");
    sim.arm(1, id, Ack::Confirmed);
    sim.transport(TransportEvent::EndOfTrack);
    assert!(matches!(sim.s.armed, Some(Armed { ack: Ack::Confirmed, .. })));
    assert_eq!(sim.s.sp, SpDevice::Boundary, "a boundary, never Idle");
}

#[test]
fn skipping_a_media_item_after_a_stop_resumes_the_spotify_head() {
    // Live E': a pause the bot did not own for the media item once
    // froze the next skip — the media item's ⏭ honoured it and nothing
    // played. A human skip is an advance regardless of who paused.
    let mut sim = Sim::baseline_paused(Some(PauseOwner::Human));
    sim.s.queue.push(media_item("m"));
    let item = sim.s.queue.pop().unwrap();
    sim.s.media_epoch = 1;
    sim.s.active = Active::Media { item, paused: false, epoch: 1 };
    let id = sim.push_spotify(1, "s1");
    sim.arm(1, id, Ack::Confirmed);
    sim.skip();
    let fx = sim.media_ended(MediaOutcome::Cancelled);
    // Cued track (9) isn't the head: advance onto the confirmed head.
    assert_eq!(spircs(&fx), vec![SpircCmd::Next, SpircCmd::Play], "the skip advances: {fx:?}");
    assert!(matches!(sim.s.active, Active::SpotifyPending { .. }));
}

#[test]
fn takeover_on_a_fresh_session_loads_the_spotify_head_at_once() {
    // Live I': ▶ activated the device but left it Inactive, so the
    // second ▶ sent Play to a device with nothing loaded.
    let mut sim = Sim::new();
    sim.s.sp = SpDevice::Inactive;
    sim.push_spotify(1, "s1");
    let fx = sim.toggle();
    assert_eq!(spircs(&fx), vec![SpircCmd::ActivateDevice, SpircCmd::Load(uri(1))]);
    assert!(matches!(sim.s.active, Active::SpotifyPending { .. }));
}

#[test]
fn bare_play_never_pauses() {
    let mut sim = Sim::baseline_playing();
    let (tx, _rx) = oneshot::channel();
    let fx = sim.step(Input::Play { reply: tx });
    assert!(spircs(&fx).is_empty(), "audible: refused, no Pause");
    // Paused baseline: it is ⏯'s ▶ half.
    let mut sim = Sim::baseline_paused(Some(PauseOwner::Human));
    let (tx, _rx) = oneshot::channel();
    let fx = sim.step(Input::Play { reply: tx });
    assert_eq!(spircs(&fx), vec![SpircCmd::Play]);
}

#[test]
fn playing_without_meta_resolves_instead_of_posting_an_unknown_card() {
    let mut sim = Sim::baseline_playing();
    let fx = sim.transport(TransportEvent::Playing { uri: uri(2), meta: None });
    assert!(!fx.iter().any(|e| matches!(e, Effect::Ui(UiMsg::NowPlayingSpotify { .. }))));
    assert!(fx.iter().any(|e| matches!(e, Effect::ResolveMeta(u) if *u == uri(2))));
    // The resolved metadata arrives as TrackChanged and posts the card.
    let meta = TrackMeta { title: "t".into(), artist: "a".into(), album_art_url: None };
    let fx = sim.transport(TransportEvent::TrackChanged { uri: uri(2), meta });
    assert!(fx.iter().any(|e| matches!(e, Effect::Ui(UiMsg::NowPlayingSpotify { .. }))));
}

#[test]
fn spotify_pending_times_out() {
    // An F2-dropped Load must not park the player: retry once while
    // idle, then surface an error and free the turn.
    let mut sim = Sim::idle_device();
    sim.push_spotify(1, "s1");
    let fx = sim.toggle();
    assert_eq!(spircs(&fx), vec![SpircCmd::Load(uri(1))]);

    sim.advance(5100 * MILLI);
    let fx = sim.step(Input::Tick(TimerKind::SpotifyPending));
    assert_eq!(spircs(&fx), vec![SpircCmd::Load(uri(1))], "one retry while idle");
    assert!(timer_set(&fx, TimerKind::SpotifyPending));

    sim.advance(5100 * MILLI);
    let fx = sim.step(Input::Tick(TimerKind::SpotifyPending));
    assert!(spircs(&fx).is_empty(), "never a second retry");
    assert!(has_notice(&fx));
    assert!(matches!(sim.s.active, Active::Nobody));
}

#[test]
fn spotify_pending_timeout_while_inactive_prompts_takeover() {
    let mut sim = Sim::idle_device();
    sim.push_spotify(1, "s1");
    sim.toggle();
    sim.s.device_active = false; // lost the device while waiting
    sim.advance(5100 * MILLI);
    let fx = sim.step(Input::Tick(TimerKind::SpotifyPending));
    assert!(has_takeover_prompt(&fx));
    assert!(matches!(sim.s.active, Active::Nobody));
}

#[test]
fn stop_keeps_the_queue_and_leaves_the_channel() {
    // Stop is stop, not clear: /clear is the only thing that empties.
    let mut sim = Sim::baseline_playing();
    let id = sim.push_spotify(1, "s1");
    sim.arm(1, id, Ack::Confirmed);
    let fx = sim.stop();

    assert_eq!(sim.s.queue.len(), 1, "the request survives a stop");
    assert!(has_leave(&fx), "the bot leaves the channel");
    assert_eq!(spircs(&fx), vec![SpircCmd::Disconnect]);
    assert!(!sim.s.device_active, "the Connect device is released");
    assert!(matches!(sim.s.voice, VoiceStatus::Down));
    assert!(reply_text(&fx).contains("kept"), "got: {}", reply_text(&fx));
}

#[test]
fn a_bare_play_after_a_stop_brings_the_bot_back_into_voice() {
    // Live 2026-09-01: `/stop` leaves the channel but keeps the session,
    // so a bare `/play` is how you restart. It re-claimed the Connect
    // device and replied "▶ Taking over the Spotify device" without
    // rejoining, so the next track decoded into a bridge no call was
    // draining — the card said playing, the channel was silent, and
    // only `/login` brought the bot back.
    let mut sim = Sim::baseline_playing();
    sim.stop();
    sim.transport(TransportEvent::SessionDisconnected);
    assert!(matches!(sim.s.voice, VoiceStatus::Down));
    assert!(!sim.s.device_active, "the stop released the device");

    let (tx, _rx) = oneshot::channel();
    let fx = sim.step(Input::Play { reply: tx });
    assert!(has_join(&fx), "the takeover rejoins the channel: {fx:?}");
    assert!(matches!(sim.s.voice, VoiceStatus::Joining));
    assert!(sim.s.device_active, "and still claims the device");
}

#[test]
fn spotify_taking_the_turn_with_voice_down_joins_the_channel() {
    // The other half of the same hole: the DJ presses play on their
    // phone after a takeover. Our librespot decodes, so audio exists —
    // it needs a call to drain into, whoever started it.
    let mut sim = Sim::idle_device();
    sim.s.voice = VoiceStatus::Down;
    let fx = sim.transport(TransportEvent::Playing { uri: uri(9), meta: None });
    assert!(has_join(&fx), "audio with no call is silence: {fx:?}");
    assert!(matches!(sim.s.active, Active::Spotify { .. }));
}

#[test]
fn resuming_a_paused_baseline_with_an_empty_queue_joins_voice() {
    // ⏯'s ▶ half with nothing queued: a resume is still audio.
    let mut sim = Sim::baseline_paused(Some(PauseOwner::Human));
    sim.s.voice = VoiceStatus::Down;
    let fx = sim.toggle();
    assert!(has_join(&fx), "{fx:?}");
    assert!(spircs(&fx).contains(&SpircCmd::Play));
}

#[test]
fn a_refused_play_never_joins_voice() {
    // The one ▶ outcome that makes no sound must not drag the bot into
    // a channel: nothing is queued and the device is idle, so there is
    // nothing to resume.
    let mut sim = Sim::idle_device();
    sim.s.voice = VoiceStatus::Down;
    let fx = sim.toggle();
    assert!(!has_join(&fx), "nothing to play: no join: {fx:?}");
    assert!(reply_text(&fx).contains("Nothing is playing"), "{}", reply_text(&fx));
}

#[test]
fn teardown_stop_never_asks_to_leave_voice() {
    // Live 2026-09-01: a force disconnect ran the teardown, whose Stop
    // emitted LeaveVoice; the shell armed its deliberate-leave guard and
    // removed a call Discord had already dropped, so no echo ever
    // consumed the guard and the next force disconnect would have been
    // read as deliberate. Teardown owns voice itself — the core must not.
    let mut sim = Sim::baseline_playing();
    let id = sim.push_spotify(1, "s1");
    sim.arm(1, id, Ack::Confirmed);
    let fx = sim.teardown();

    assert!(!has_leave(&fx), "voice is already gone: nothing to leave");
    assert!(has_clear(&fx), "the bridge is still silenced");
    assert_eq!(spircs(&fx), vec![SpircCmd::Disconnect], "the device is still released");
    assert!(!sim.s.device_active);
    assert!(matches!(sim.s.active, Active::Nobody));
    assert!(matches!(sim.s.voice, VoiceStatus::Down));
    assert_eq!(sim.s.queue.len(), 1, "the queue survives a teardown too");
}

#[test]
fn stop_drops_the_arm_because_the_disconnect_resets_the_device() {
    // `Disconnect` resets librespot's device state, queue included, so a
    // surviving arm is a ghost: `maybe_arm` refuses to re-arm behind one,
    // and the next `SetQueue` reads its absence as "deleted on the phone"
    // and drops the very request the stop promised to keep.
    let mut sim = Sim::baseline_playing();
    let id = sim.push_spotify(1, "s1");
    sim.arm(1, id, Ack::Confirmed);
    sim.stop();
    assert!(sim.s.armed.is_none(), "the arm cannot outlive the device");
    assert_eq!(sim.s.queue.len(), 1, "but the request itself is kept");
}

#[test]
fn media_end_while_link_down_resumes_after_reconnect() {
    let mut sim = Sim::media_over_paused_baseline();
    let id = sim.push_spotify(1, "s1");
    sim.arm(1, id, Ack::Confirmed);

    sim.step(Input::LinkDown { gen: 1 });
    assert!(sim.s.armed.is_none(), "a Confirmed ghost would wedge arming forever");

    let fx = sim.media_ended(MediaOutcome::Finished);
    assert!(spircs(&fx).is_empty(), "no one to talk to while the link is down");
    assert_eq!(sim.s.pause_owner, Some(PauseOwner::BotForMedia), "the resume debt is kept");
    assert!(matches!(sim.s.active, Active::Nobody));

    sim.advance(30 * SECOND);
    let fx = sim.step(Input::LinkUp { gen: 2 });
    assert_eq!(
        spircs(&fx),
        vec![SpircCmd::Transfer, SpircCmd::Play],
        "restore the device state, then pay the resume debt"
    );
    assert!(
        matches!(sim.s.armed, Some(Armed { ack: Ack::Sent(_), .. })),
        "the restored arm awaits re-confirmation by the post-transfer SetQueue"
    );
    assert!(matches!(sim.s.active, Active::Spotify { .. }));
}

#[test]
fn takeover_stopped_is_not_idle() {
    // A takeover emits SessionDisconnected then Stopped; that Stopped
    // must not enable load() over the device that took over.
    let mut sim = Sim::media_over_paused_baseline();
    sim.push_spotify(1, "s1");
    sim.transport(TransportEvent::SessionDisconnected);
    sim.transport(TransportEvent::Stopped);
    assert_eq!(sim.s.sp, SpDevice::Inactive, "Inactive, not Idle");
    let fx = sim.media_ended(MediaOutcome::Finished);
    assert!(spircs(&fx).is_empty(), "no Load over another device's playback");
    assert!(matches!(sim.s.active, Active::Nobody));
}

// --- bridge ownership: only Spotify's own turn clears it ---------------
//
// The shared-bridge hazard: `AudioBridge` is also written by the media
// feeder and the DJ overlay. These mirror the four raw
// `bridge.clear()` calls deleted from `spotify/player.rs` as gated
// `Effect::ClearBridge` emissions here — they must fire when Spotify's
// own transport reports it stopped being audible, and must never fire
// while a media item holds the turn (that was the bug: a librespot
// reconnect or a phone-side pause wiping a YouTube track mid-play).

#[test]
fn paused_does_not_clear_the_bridge_while_media_holds_the_turn() {
    let mut sim = Sim::media_over_paused_baseline();
    let fx = sim.transport(TransportEvent::Paused { uri: uri(9) });
    assert!(!has_clear(&fx));
}

#[test]
fn paused_clears_the_bridge_while_spotify_holds_the_turn() {
    let mut sim = Sim::baseline_playing();
    let fx = sim.transport(TransportEvent::Paused { uri: uri(9) });
    assert!(has_clear(&fx));
}

#[test]
fn stopped_does_not_clear_the_bridge_while_media_holds_the_turn() {
    let mut sim = Sim::media_over_paused_baseline();
    let fx = sim.transport(TransportEvent::Stopped);
    assert!(!has_clear(&fx));
}

#[test]
fn stopped_clears_the_bridge_while_spotify_holds_the_turn() {
    let mut sim = Sim::baseline_playing();
    let fx = sim.transport(TransportEvent::Stopped);
    assert!(has_clear(&fx));
}

#[test]
fn unavailable_does_not_clear_the_bridge_while_media_holds_the_turn() {
    let mut sim = Sim::media_over_paused_baseline();
    let fx = sim.transport(TransportEvent::Unavailable { uri: uri(9) });
    assert!(!has_clear(&fx));
}

#[test]
fn unavailable_clears_the_bridge_while_spotify_holds_the_turn() {
    let mut sim = Sim::baseline_playing();
    let fx = sim.transport(TransportEvent::Unavailable { uri: uri(9) });
    assert!(has_clear(&fx));
}

#[test]
fn unavailable_for_a_preloaded_track_leaves_the_playing_one_alone() {
    // Seen live: librespot failed the key fetch for the track it was
    // preloading and reported it unavailable while a different track
    // played on. Clearing there cut the playing track's buffer.
    let mut sim = Sim::baseline_playing();
    let fx = sim.transport(TransportEvent::Unavailable { uri: uri(7) });
    assert!(!has_clear(&fx));
    // Still surfaced to the channel — it just doesn't touch the audio.
    assert!(fx
        .iter()
        .any(|e| matches!(e, Effect::Ui(UiMsg::Notice(_)))));
}

#[test]
fn link_down_does_not_clear_the_bridge_while_media_holds_the_turn() {
    let mut sim = Sim::media_over_paused_baseline();
    let fx = sim.step(Input::LinkDown { gen: 1 });
    assert!(!has_clear(&fx));
}

#[test]
fn link_down_clears_the_bridge_while_spotify_holds_the_turn() {
    let mut sim = Sim::baseline_playing();
    let fx = sim.step(Input::LinkDown { gen: 1 });
    assert!(has_clear(&fx));
}

#[test]
fn link_reconnecting_does_not_clear_the_bridge_while_media_holds_the_turn() {
    let mut sim = Sim::media_over_paused_baseline();
    let fx = sim.step(Input::LinkReconnecting { gen: 1 });
    assert!(!has_clear(&fx));
}

// --- Playing bookkeeping ----------------------------------------------

#[test]
fn playing_pops_a_matching_queued_item_anywhere() {
    // Today's behaviour, kept: a track the DJ's own playlist reaches
    // isn't also aired later as a request.
    let mut sim = Sim::baseline_playing();
    sim.s.queue.push(media_item("m"));
    sim.push_spotify(2, "s2");
    sim.transport(TransportEvent::Playing { uri: uri(2), meta: None });
    assert_eq!(sim.s.queue.len(), 1);
    assert!(
        matches!(head_of(&sim.s.queue), Head::Media),
        "the media item is untouched; the matching request is consumed"
    );
}

#[test]
fn playing_the_armed_track_pops_it_and_rearms_the_next() {
    // Gapless Spotify→Spotify: the next arm goes out a whole track
    // ahead of the preload window.
    let mut sim = Sim::baseline_playing();
    let id = sim.push_spotify(1, "s1");
    sim.arm(1, id, Ack::Confirmed);
    sim.push_spotify(2, "s2");
    let fx = sim.transport(TransportEvent::Playing { uri: uri(1), meta: Some(meta("s1")) });
    assert_eq!(sim.s.queue.len(), 1);
    assert!(matches!(&sim.s.armed, Some(Armed { uri: u, .. }) if *u == uri(2)));
    assert_eq!(add_to_queue_count(&fx), 1);
    assert!(has_spotify_card(&fx));
}

#[test]
fn pause_echo_within_window_is_not_a_human_pause() {
    let mut sim = Sim::baseline_playing();
    sim.s.queue.push(media_item("m"));
    sim.skip(); // sends Pause, records it inflight
    sim.transport(TransportEvent::Paused { uri: uri(9) });
    assert_eq!(
        sim.s.pause_owner,
        Some(PauseOwner::BotForMedia),
        "our own echo keeps the bot's ownership"
    );
}

#[test]
fn human_pause_before_media_blocks_the_auto_resume() {
    // Live smoke 8: phone-pause before a media item → media ends → the
    // baseline STAYS paused.
    let mut sim = Sim::baseline_playing();
    sim.transport(TransportEvent::Paused { uri: uri(9) });
    assert_eq!(sim.s.pause_owner, Some(PauseOwner::Human));
    sim.s.queue.push(media_item("m"));
    let fx = sim.toggle(); // ▶ starts the media head, baseline untouched
    assert!(has_start_media(&fx));
    assert!(spircs(&fx).is_empty());
    let fx = sim.media_ended(MediaOutcome::Finished);
    assert!(spircs(&fx).is_empty(), "the phone's pause is honoured");
    assert_eq!(sim.s.pause_owner, Some(PauseOwner::Human));
}

fn prev_track(id: i64, n: u64, context: Option<&str>) -> PreviousTrack {
    PreviousTrack {
        id,
        uri: uri(n),
        context_uri: context.map(|c| c.to_string()),
    }
}

#[test]
fn previous_asks_the_history_rather_than_spotify() {
    let mut sim = Sim::baseline_playing();
    let fx = sim.previous();
    assert!(
        fx.iter()
            .any(|e| matches!(e, Effect::ResolvePrevious { before: None })),
        "walks from live the first time"
    );
    assert!(spircs(&fx).is_empty(), "nothing is sent until it resolves");
}

#[test]
fn a_resolved_previous_reopens_the_playlist_at_that_track() {
    let mut sim = Sim::baseline_playing();
    sim.previous();
    let fx = sim.step(Input::PreviousResolved {
        track: Some(prev_track(7, 3, Some("spotify:playlist:abc"))),
    });

    assert_eq!(
        spircs(&fx),
        vec![SpircCmd::LoadContext {
            context_uri: "spotify:playlist:abc".to_string(),
            track_uri: uri(3),
            options: PlayOptions::default(),
        }],
        "reopens the context instead of replacing it with one track"
    );
    assert_eq!(sim.s.history_cursor, Some(7), "the cursor advances back");
}

#[test]
fn a_back_jump_leaves_an_armed_request_armed() {
    // The whole promise of going back is that it costs you nothing:
    // whoever queued a track still hears it after the detour. Librespot
    // keeps its queue across a context load (`clear_next_tracks` is
    // queue-preserving), so the arm is still live on Spotify's side —
    // dropping or re-issuing it here would either lose the request or
    // queue it twice, and librespot has no dequeue to undo that with.
    let mut sim = Sim::baseline_playing();
    let id = sim.push_spotify(1, "s1");
    sim.arm(1, id, Ack::Confirmed);

    sim.previous();
    let fx = sim.step(Input::PreviousResolved {
        track: Some(prev_track(7, 3, Some("spotify:playlist:abc"))),
    });

    assert_eq!(
        spircs(&fx),
        vec![SpircCmd::LoadContext {
            context_uri: "spotify:playlist:abc".to_string(),
            track_uri: uri(3),
            options: PlayOptions::default(),
        }],
        "the jump alone — no re-arm, and nothing that would double-queue"
    );
    let armed = sim.s.armed.as_ref().expect("the request stays armed");
    assert_eq!(armed.item_id, id);
    assert_eq!(armed.uri, uri(1));
    assert!(matches!(armed.ack, Ack::Confirmed), "and stays acked");
    assert_eq!(sim.s.queue.len(), 1, "and stays in the queue");
}

#[test]
fn the_armed_request_still_airs_after_the_jumped_to_track() {
    // The other half: the detour ends and the request is next, exactly
    // as it would have been without it.
    let mut sim = Sim::baseline_playing();
    let id = sim.push_spotify(1, "s1");
    sim.arm(1, id, Ack::Confirmed);
    sim.previous();
    sim.step(Input::PreviousResolved {
        track: Some(prev_track(7, 3, Some("spotify:playlist:abc"))),
    });
    // The jump lands.
    sim.transport(TransportEvent::Playing { uri: uri(3), meta: None });
    assert!(sim.s.armed.is_some(), "landing on the jump is not the request");
    assert_eq!(sim.s.queue.len(), 1);

    // Spotify's own advance reaches the armed track.
    sim.transport(TransportEvent::EndOfTrack);
    sim.transport(TransportEvent::Playing { uri: uri(1), meta: None });
    assert!(sim.s.armed.is_none(), "the arm is consumed by its own track");
    assert_eq!(sim.s.queue.len(), 0, "and the request leaves the queue");
}

#[test]
fn a_back_jump_hands_the_djs_shuffle_and_repeat_back() {
    // Loading a context resets these on librespot's side, so the jump
    // has to restore them or it silently turns the DJ's shuffle off.
    let mut sim = Sim::baseline_playing();
    sim.transport(TransportEvent::OptionsChanged {
        shuffle: true,
        repeat_context: true,
        repeat_track: false,
    });
    sim.previous();
    let fx = sim.step(Input::PreviousResolved {
        track: Some(prev_track(7, 3, Some("spotify:playlist:abc"))),
    });

    assert_eq!(
        spircs(&fx),
        vec![SpircCmd::LoadContext {
            context_uri: "spotify:playlist:abc".to_string(),
            track_uri: uri(3),
            options: PlayOptions {
                shuffle: true,
                repeat_context: true,
                repeat_track: false,
            },
        }]
    );
}

#[test]
fn shuffle_and_repeat_arrive_separately_but_are_tracked_together() {
    // Spotify sends each half in its own event; neither may clobber the
    // other's value.
    let mut sim = Sim::baseline_playing();
    sim.transport(TransportEvent::OptionsChanged {
        shuffle: true,
        repeat_context: false,
        repeat_track: false,
    });
    sim.transport(TransportEvent::OptionsChanged {
        shuffle: true,
        repeat_context: false,
        repeat_track: true,
    });
    assert_eq!(
        sim.s.play_options,
        PlayOptions { shuffle: true, repeat_context: false, repeat_track: true }
    );
}

#[test]
fn a_track_with_no_recorded_context_falls_back_to_spotifys_own_previous() {
    let mut sim = Sim::baseline_playing();
    sim.previous();
    let fx = sim.step(Input::PreviousResolved {
        track: Some(prev_track(7, 3, None)),
    });
    assert_eq!(spircs(&fx), vec![SpircCmd::Previous]);
}

#[test]
fn a_context_less_back_jump_still_walks_backwards() {
    // The fallback hands the step to Spotify, so it names no track — but
    // it must still move the walk, or the next press re-anchors on the
    // newest row (the one this jump is about to write) and lands on the
    // track we started from.
    let mut sim = Sim::baseline_playing();
    sim.previous();
    sim.step(Input::PreviousResolved { track: Some(prev_track(7, 3, None)) });
    assert_eq!(sim.s.history_cursor, None, "not committed until it lands");

    sim.transport(TransportEvent::Playing { uri: uri(3), meta: Some(meta("Third")) });
    assert_eq!(
        sim.s.history_cursor,
        Some(7),
        "a different track arrived, so the step really happened"
    );
}

#[test]
fn a_back_jump_that_only_seeks_to_zero_leaves_the_walk_where_it_was() {
    // F16: librespot's `Previous` steps back only under 3 s into a
    // track; at or over 3 s it seeks to zero and keeps playing the same
    // one. Re-emitting the same track is not a step, so the walk must
    // not claim a move it did not make. This is what stops the
    // `moved` check being "simplified" into an unconditional commit,
    // which would leave the cursor a whole track ahead of the truth.
    let mut sim = Sim::baseline_playing();
    sim.s.history_cursor = Some(11);
    sim.previous();
    sim.step(Input::PreviousResolved { track: Some(prev_track(7, 9, None)) });

    sim.transport(TransportEvent::Playing { uri: uri(9), meta: None });
    assert_eq!(
        sim.s.history_cursor,
        Some(11),
        "same track back at 0:00 — the walk stays put"
    );
}

#[test]
fn reaching_the_start_of_the_history_says_so() {
    let mut sim = Sim::baseline_playing();
    sim.previous();
    let fx = sim.step(Input::PreviousResolved { track: None });
    assert!(spircs(&fx).is_empty());
    assert!(reply_text(&fx).contains("Nothing further back"));
}

#[test]
fn a_jump_that_lands_on_the_wrong_track_is_reported_not_swallowed() {
    // Librespot starts a context at track 1 when the requested track
    // isn't in it, and only logs about it — so we check the arrival.
    let mut sim = Sim::baseline_playing();
    sim.previous();
    sim.step(Input::PreviousResolved {
        track: Some(prev_track(7, 3, Some("spotify:playlist:abc"))),
    });

    let fx = sim.transport(TransportEvent::Playing {
        uri: uri(99),
        meta: Some(meta("Not What Was Asked For")),
    });
    assert!(
        fx.iter().any(|e| matches!(e, Effect::Ui(UiMsg::Notice(_)))),
        "the mismatch surfaces"
    );
    assert_eq!(sim.s.history_cursor, None, "and the walk is abandoned");
}

#[test]
fn the_playlist_moving_on_puts_us_back_live() {
    let mut sim = Sim::baseline_playing();
    sim.previous();
    sim.step(Input::PreviousResolved {
        track: Some(prev_track(7, 3, Some("spotify:playlist:abc"))),
    });
    // The jump lands.
    sim.transport(TransportEvent::Playing { uri: uri(3), meta: Some(meta("jumped-to")) });
    assert_eq!(sim.s.history_cursor, Some(7), "still positioned there");

    // The context then advances on its own: no longer browsing history.
    sim.transport(TransportEvent::Playing { uri: uri(4), meta: Some(meta("next")) });
    assert_eq!(sim.s.history_cursor, None);
}

#[test]
fn a_second_back_press_waits_instead_of_stealing_the_first_reply() {
    // Overwriting `pending_reply` would drop the first caller's channel
    // (their interaction times out) and walk back twice for one intent.
    let mut sim = Sim::baseline_playing();
    let first = sim.previous();
    assert!(first
        .iter()
        .any(|e| matches!(e, Effect::ResolvePrevious { .. })));

    let second = sim.previous();
    assert!(
        !second
            .iter()
            .any(|e| matches!(e, Effect::ResolvePrevious { .. })),
        "the second press does not start a second walk"
    );
    assert!(reply_text(&second).contains("Already going back"));
}

#[test]
fn a_media_item_records_the_reference_its_own_kind_is_played_from() {
    // The feeder fetches the url; back-navigation parses the ref. A
    // swapped field here is junk in the history and unplayable later.
    let mut sim = Sim::new();
    sim.s.voice = VoiceStatus::Ready;

    let mut fx = Vec::new();
    start_media(&mut sim.s, media_item("a-track"), StartGate::Immediate, &mut fx);
    let rows = aired(&fx);
    // The fixture's url is "u", its title "a-track" and its id "v", so
    // this distinguishes the url field from every neighbour it could be
    // confused with.
    assert_eq!(rows[0].track_ref, "u", "a YouTube item records its url");

    let file = QueueItem::new(
        MediaSource::File {
            filename: "clip.mp3".into(),
            attachment_url: "https://cdn.discord/attachment".into(),
        },
        "Papos".into(),
        1,
    );
    let mut fx = Vec::new();
    start_media(&mut sim.s, file, StartGate::Immediate, &mut fx);
    let rows = aired(&fx);
    assert_eq!(
        rows[0].track_ref, "https://cdn.discord/attachment",
        "a file item records the url it is fetched from, not its name"
    );
}

#[test]
fn resuming_the_jumped_to_track_does_not_throw_the_walk_away() {
    // Librespot re-emits Playing on a resume or seek. Treating that as
    // "the playlist moved on" reset the cursor, bringing back the very
    // two-track bounce the cursor exists to prevent.
    let mut sim = Sim::baseline_playing();
    sim.previous();
    sim.step(Input::PreviousResolved {
        track: Some(prev_track(7, 3, Some("spotify:playlist:abc"))),
    });
    sim.transport(TransportEvent::Playing { uri: uri(3), meta: Some(meta("jumped-to")) });
    assert_eq!(sim.s.history_cursor, Some(7));

    // Pause, resume: the same track plays again.
    sim.transport(TransportEvent::Playing { uri: uri(3), meta: Some(meta("jumped-to")) });
    assert_eq!(sim.s.history_cursor, Some(7), "a resume is not movement");
}

#[test]
fn a_jump_resolved_after_a_stop_is_dropped_rather_than_replayed() {
    // The history read is asynchronous. A /stop in the meantime released
    // the device and left the channel; loading a context then would
    // re-claim the device and play from outside the call.
    let mut sim = Sim::baseline_playing();
    sim.previous();
    sim.stop();
    let fx = sim.step(Input::PreviousResolved {
        track: Some(prev_track(7, 3, Some("spotify:playlist:abc"))),
    });
    assert!(spircs(&fx).is_empty(), "nothing is sent to a released device");
}

#[test]
fn a_pending_jump_does_not_outlive_the_session() {
    // Left set, a stale marker makes some later unrelated track report a
    // mismatch for a jump nobody remembers asking for.
    let mut sim = Sim::baseline_playing();
    sim.previous();
    sim.step(Input::PreviousResolved {
        track: Some(prev_track(7, 3, Some("spotify:playlist:abc"))),
    });
    sim.transport(TransportEvent::SessionDisconnected);

    let fx = sim.transport(TransportEvent::Playing {
        uri: uri(99),
        meta: Some(meta("something much later")),
    });
    assert!(
        !fx.iter().any(|e| matches!(e, Effect::Ui(UiMsg::Notice(_)))),
        "no warning for a jump the session already cancelled"
    );
}

#[test]
fn the_failed_jump_notice_reads_as_one_sentence() {
    // A rustfmt line-join once left a 26-space run mid-sentence in this
    // string, and it shipped to the channel that way.
    let mut sim = Sim::baseline_playing();
    sim.previous();
    sim.step(Input::PreviousResolved {
        track: Some(prev_track(7, 3, Some("spotify:playlist:abc"))),
    });
    let fx = sim.transport(TransportEvent::Playing { uri: uri(99), meta: Some(meta("x")) });
    let notice = fx
        .iter()
        .find_map(|e| match e {
            Effect::Ui(UiMsg::Notice(t)) => Some(t.clone()),
            _ => None,
        })
        .expect("a notice");
    assert!(!notice.contains("  "), "double space in: {notice:?}");
}

#[test]
fn previous_still_refuses_during_a_queue_item() {
    let mut sim = Sim::media_over_paused_baseline();
    let fx = sim.previous();
    assert!(!fx
        .iter()
        .any(|e| matches!(e, Effect::ResolvePrevious { .. })));
    assert!(reply_text(&fx).contains("isn't available"));
}

#[test]
fn clearing_empties_the_queue_and_leaves_playback_alone() {
    // The whole difference from /stop: nothing goes quiet.
    let mut sim = Sim::baseline_playing();
    sim.enqueue(media_item("a"));
    sim.enqueue(media_item("b"));

    let (tx, _rx) = oneshot::channel();
    let fx = sim.step(Input::ClearQueue { reply: tx });

    assert_eq!(sim.s.queue.len(), 0);
    assert!(
        matches!(sim.s.active, Active::Spotify { .. }),
        "the baseline keeps the turn"
    );
    assert!(spircs(&fx).is_empty(), "clearing sends Spotify nothing");
    assert!(!has_clear(&fx), "and never touches the bridge");
}

#[test]
fn clearing_warns_when_a_track_is_already_committed_to_spotify() {
    // Librespot has no dequeue, so an armed track still airs once.
    let mut sim = Sim::baseline_playing();
    sim.enqueue(spotify_item(1, "s1"));
    assert!(sim.s.armed.is_some(), "precondition: something is armed");

    let (tx, _rx) = oneshot::channel();
    let fx = sim.step(Input::ClearQueue { reply: tx });

    assert!(sim.s.armed.is_none());
    let text = reply_text(&fx);
    assert!(text.contains("still play once"), "got: {text}");
}

#[test]
fn clearing_an_empty_queue_says_so_rather_than_claiming_a_clear() {
    let mut sim = Sim::baseline_playing();
    let (tx, _rx) = oneshot::channel();
    let fx = sim.step(Input::ClearQueue { reply: tx });
    assert_eq!(reply_text(&fx), "The queue is already empty.");
}

#[test]
fn restoring_refills_the_queue_without_playing_anything() {
    let mut sim = Sim::new();
    let fx = sim.step(Input::RestoreQueue {
        items: vec![media_item("a"), media_item("b")],
    });

    assert_eq!(sim.s.queue.len(), 2);
    assert!(matches!(sim.s.active, Active::Nobody), "restoring is silent");
    assert!(
        !fx.iter().any(|e| matches!(e, Effect::StartMedia { .. })),
        "a restored queue must not start itself"
    );
}

#[test]
fn restoring_stamps_fresh_ids_rather_than_reusing_stored_ones() {
    let mut sim = Sim::new();
    sim.step(Input::RestoreQueue { items: vec![media_item("a"), media_item("b")] });
    let ids: Vec<u64> = sim.s.queue.snapshot().iter().map(|i| i.item_id).collect();
    assert_eq!(ids, vec![1, 2], "an id names a residency, not a track");
}

#[test]
fn restoring_never_overwrites_a_queue_someone_is_already_using() {
    // The restore is asynchronous at boot; anything queued by a person
    // in the meantime is newer than the record and outranks it.
    let mut sim = Sim::new();
    sim.enqueue(media_item("queued-by-a-human"));
    sim.step(Input::RestoreQueue { items: vec![media_item("from-disk")] });

    assert_eq!(sim.s.queue.len(), 1);
    assert_eq!(
        sim.s.queue.peek().unwrap().source.display_title(),
        "queued-by-a-human"
    );
}

#[test]
fn an_armed_request_is_recorded_without_a_context() {
    // A request reaches the device through Spotify's queue, not through
    // the playlist that happens to be loaded. Stamping that playlist on
    // its row makes a later ⏮ ask for a track the context does not hold,
    // which librespot answers by restarting the context from the top.
    let mut sim = Sim::baseline_playing();
    sim.transport(TransportEvent::SetQueue {
        current: Some(uri(9)),
        queued: vec![],
        context_uri: Some("spotify:playlist:abc".into()),
    });
    let id = sim.push_spotify(4, "requested");
    sim.arm(4, id, Ack::Confirmed);

    let fx = sim.transport(TransportEvent::Playing {
        uri: uri(4),
        meta: Some(meta("Requested")),
    });

    let rows = aired(&fx);
    assert_eq!(rows.len(), 1);
    assert_eq!(rows[0].source, AiredSource::Request);
    assert_eq!(rows[0].context_uri, None, "it was never in that playlist");
}

#[test]
fn a_track_the_playlist_reaches_keeps_its_context_even_though_it_was_queued() {
    // The narrow half of the same rule: the pop also fires when the DJ's
    // own context reaches a track someone had queued. That airing really
    // is inside the context, so it keeps it.
    let mut sim = Sim::baseline_playing();
    sim.transport(TransportEvent::SetQueue {
        current: Some(uri(9)),
        queued: vec![],
        context_uri: Some("spotify:playlist:abc".into()),
    });
    sim.push_spotify(5, "also-queued");

    let fx = sim.transport(TransportEvent::Playing {
        uri: uri(5),
        meta: Some(meta("Also queued")),
    });

    let rows = aired(&fx);
    assert_eq!(rows.len(), 1);
    assert_eq!(rows[0].source, AiredSource::Request, "someone did queue it");
    assert_eq!(
        rows[0].context_uri.as_deref(),
        Some("spotify:playlist:abc"),
        "but the playlist is what reached it"
    );
}

#[test]
fn a_request_that_surfaces_under_a_media_turn_still_names_its_requester() {
    // Spotify starts the armed request while a media item holds the
    // turn: it is popped there (it must be, or it could be armed twice)
    // and paused straight back down. The airing history records is the
    // later one, and it has to carry who asked for it.
    let mut sim = Sim::media_over_paused_baseline();
    let id = sim.push_spotify(4, "requested");
    sim.arm(4, id, Ack::Confirmed);

    let early = sim.transport(TransportEvent::Playing {
        uri: uri(4),
        meta: Some(meta("Requested")),
    });
    assert!(aired(&early).is_empty(), "it is not audible yet");
    assert!(sim.s.pending_request.is_some(), "its requester is held");

    sim.media_ended(MediaOutcome::Finished);
    let fx = sim.transport(TransportEvent::Playing {
        uri: uri(4),
        meta: Some(meta("Requested")),
    });

    let rows = aired(&fx);
    assert_eq!(rows.len(), 1);
    assert_eq!(rows[0].source, AiredSource::Request);
    assert_eq!(rows[0].queued_by.as_deref(), Some("dj"));
    assert!(sim.s.pending_request.is_none(), "and consumed once");
}

fn aired(fx: &[Effect]) -> Vec<&AiredTrack> {
    fx.iter()
        .filter_map(|e| match e {
            Effect::RecordAired(a) => Some(a),
            _ => None,
        })
        .collect()
}

#[test]
fn a_baseline_track_is_recorded_with_the_context_it_aired_from() {
    let mut sim = Sim::baseline_playing();
    sim.transport(TransportEvent::SetQueue {
        current: Some(uri(9)),
        queued: vec![],
        context_uri: Some("spotify:playlist:abc".into()),
    });

    let fx = sim.transport(TransportEvent::Playing {
        uri: uri(3),
        meta: Some(meta("Something")),
    });

    let rows = aired(&fx);
    assert_eq!(rows.len(), 1);
    assert_eq!(rows[0].source, AiredSource::Baseline, "nobody queued it");
    assert_eq!(rows[0].track_ref, uri(3).to_uri());
    assert_eq!(rows[0].context_uri.as_deref(), Some("spotify:playlist:abc"));
    assert_eq!(rows[0].queued_by, None);
}

#[test]
fn an_aired_request_records_who_asked_for_it() {
    // Librespot sends TrackChanged and THEN Playing for the same track,
    // and the card (so the history row) is written at the first of the
    // two. Driving only Playing hid a bug where every Spotify track was
    // logged as the baseline with no requester.
    let mut sim = Sim::baseline_playing();
    sim.enqueue(spotify_item(1, "s1"));

    let fx = sim.transport(TransportEvent::TrackChanged {
        uri: uri(1),
        meta: meta("s1"),
    });
    let rows = aired(&fx);
    assert_eq!(rows.len(), 1, "recorded when the card goes up");
    assert_eq!(rows[0].source, AiredSource::Request, "it was queued here");
    assert!(rows[0].queued_by.is_some(), "and names who asked");

    // The Playing that follows pops the request but must not log it twice.
    let fx = sim.transport(TransportEvent::Playing {
        uri: uri(1),
        meta: Some(meta("s1")),
    });
    assert!(aired(&fx).is_empty(), "one row per airing");
}

#[test]
fn a_baseline_track_is_still_recorded_as_baseline_in_event_order() {
    // The mirror of the above: nothing queued, so nobody asked for it.
    let mut sim = Sim::baseline_playing();
    let fx = sim.transport(TransportEvent::TrackChanged {
        uri: uri(3),
        meta: meta("whatever the playlist reached"),
    });
    let rows = aired(&fx);
    assert_eq!(rows.len(), 1);
    assert_eq!(rows[0].source, AiredSource::Baseline);
    assert_eq!(rows[0].queued_by, None);
}

#[test]
fn the_same_track_repeating_playing_is_only_recorded_once() {
    // Librespot re-emits Playing on a seek or a resume; history is a log
    // of airings, not of transport events.
    let mut sim = Sim::baseline_playing();
    let first = sim.transport(TransportEvent::Playing {
        uri: uri(3),
        meta: Some(meta("Something")),
    });
    assert_eq!(aired(&first).len(), 1);

    let again = sim.transport(TransportEvent::Playing {
        uri: uri(3),
        meta: Some(meta("Something")),
    });
    assert_eq!(aired(&again).len(), 0, "same track, no second row");
}

#[test]
fn a_spotify_play_under_a_media_item_records_nothing() {
    // It never became audible — the actor pauses it straight back down.
    let mut sim = Sim::media_over_paused_baseline();
    let fx = sim.transport(TransportEvent::Playing {
        uri: uri(3),
        meta: Some(meta("Something")),
    });
    assert!(aired(&fx).is_empty());
}

#[test]
fn starting_a_media_item_records_it_as_a_request() {
    let mut sim = Sim::new();
    sim.s.voice = VoiceStatus::Ready;
    let mut fx = Vec::new();
    start_media(&mut sim.s, media_item("a-track"), StartGate::Immediate, &mut fx);

    let rows = aired(&fx);
    assert_eq!(rows.len(), 1);
    assert_eq!(rows[0].source, AiredSource::Request);
    assert_eq!(rows[0].context_uri, None, "media has no Spotify context");
    assert!(rows[0].queued_by.is_some());
}

#[test]
fn set_queue_remembers_the_context_and_keeps_it_across_silent_ones() {
    let mut sim = Sim::baseline_playing();
    assert_eq!(sim.s.context_uri, None);

    sim.transport(TransportEvent::SetQueue {
        current: Some(uri(9)),
        queued: vec![],
        context_uri: Some("spotify:playlist:abc".into()),
    });
    assert_eq!(sim.s.context_uri.as_deref(), Some("spotify:playlist:abc"));

    // Spotify names the context only on a load or queue mutation, so a
    // later event without one must not erase what we know.
    sim.transport(TransportEvent::SetQueue {
        current: Some(uri(9)),
        queued: vec![],
        context_uri: None,
    });
    assert_eq!(sim.s.context_uri.as_deref(), Some("spotify:playlist:abc"));

    // A genuine context change replaces it.
    sim.transport(TransportEvent::SetQueue {
        current: Some(uri(9)),
        queued: vec![],
        context_uri: Some("spotify:album:xyz".into()),
    });
    assert_eq!(sim.s.context_uri.as_deref(), Some("spotify:album:xyz"));
}

// --- SetQueue ack machine ---------------------------------------------

#[test]
fn set_queue_confirms_a_sent_arm() {
    let mut sim = Sim::baseline_playing();
    sim.enqueue(spotify_item(1, "s1")); // arms, Sent
    let fx = sim.transport(TransportEvent::SetQueue {
        current: Some(uri(9)),
        queued: vec![uri(1)],
        context_uri: None,
    });
    assert!(fx.is_empty());
    assert!(matches!(sim.s.armed, Some(Armed { ack: Ack::Confirmed, .. })));
}

#[test]
fn set_queue_deletion_pops_the_item_and_rearms_the_next() {
    // Deleting the request on the phone is a cancel.
    let mut sim = Sim::baseline_playing();
    let id = sim.push_spotify(1, "s1");
    sim.arm(1, id, Ack::Confirmed);
    sim.push_spotify(2, "s2");
    let fx = sim.transport(TransportEvent::SetQueue { current: Some(uri(9)), queued: vec![], context_uri: None });
    assert_eq!(sim.s.queue.len(), 1, "the cancelled request is dropped");
    assert!(matches!(&sim.s.armed, Some(Armed { uri: u, .. }) if *u == uri(2)));
    assert_eq!(add_to_queue_count(&fx), 1, "the next item arms in its place");
    assert!(has_notice(&fx));
}

#[test]
fn set_queue_absence_while_current_is_not_a_deletion() {
    // Absent from next_tracks BUT equal to current_track: auto-advance
    // just landed on the armed track — the exact misfire the
    // current-track check exists for.
    let mut sim = Sim::baseline_playing();
    let id = sim.push_spotify(1, "s1");
    sim.arm(1, id, Ack::Confirmed);
    let fx = sim.transport(TransportEvent::SetQueue { current: Some(uri(1)), queued: vec![], context_uri: None });
    assert!(fx.is_empty());
    assert!(sim.s.armed.is_some());
    assert_eq!(sim.s.queue.len(), 1);
}

// --- staleness guards -------------------------------------------------

#[test]
fn stale_generation_transport_is_ignored() {
    let mut sim = Sim::baseline_playing();
    let fx = sim.step(Input::Transport {
        gen: 7,
        ev: TransportEvent::Playing { uri: uri(2), meta: None },
    });
    assert!(fx.is_empty());
    assert_eq!(sim.s.sp, SpDevice::Playing(uri(9)), "a dead session can't touch the mirror");
}

#[test]
fn stale_media_epoch_is_ignored() {
    let mut sim = Sim::media_over_paused_baseline();
    sim.s.queue.push(media_item("next"));
    sim.skip(); // cancels epoch 1; active stays Media until the report
    let fx = sim.media_ended(MediaOutcome::Cancelled); // starts "next" as epoch 2
    assert!(has_start_media(&fx));
    let fx = sim.step(Input::MediaEnded { epoch: 1, outcome: MediaOutcome::Finished });
    assert!(fx.is_empty(), "the superseded runner's late report is dropped");
    assert!(matches!(sim.s.active, Active::Media { epoch: 2, .. }));
}

// --- stop -------------------------------------------------------------

#[test]
fn stop_during_media_cancels_it_and_still_keeps_the_queue() {
    let mut sim = Sim::media_over_paused_baseline();
    sim.s.queue.push(media_item("m2"));
    sim.push_spotify(1, "s1");
    let fx = sim.stop();
    assert!(has_cancel(&fx));
    assert!(has_leave(&fx));
    assert_eq!(sim.s.queue.len(), 2, "queued items outlive the stop");
    // The runner's cancel report lands after the bot has already left:
    // nothing starts, because the turn and the voice call are both gone.
    let fx = sim.media_ended(MediaOutcome::Cancelled);
    assert!(!has_start_media(&fx), "a stopped bot does not start the next item");
    assert!(matches!(sim.s.active, Active::Nobody));
}

// --- explicit activation ----------------------------------------------

#[test]
fn enqueue_spotify_head_with_no_session_prompts() {
    // No link at all: nothing to claim through, so the prompt.
    let mut sim = Sim::new();
    let fx = sim.enqueue_start(spotify_item(1, "s1"));
    assert!(has_takeover_prompt(&fx));
    assert!(spircs(&fx).is_empty());
}

#[test]
fn after_media_the_request_plays_before_the_cued_context_track() {
    // Live E: skipping S0 onto a media item cued the playlist's next
    // track paused at 0:00; resuming after the item played that track
    // before the queued request. With the request confirmed in
    // Spotify's queue, advance onto it instead.
    let mut sim = Sim::media_over_paused_baseline(); // cued: 9, paused BotForMedia
    let id = sim.push_spotify(1, "s1");
    sim.arm(1, id, Ack::Confirmed);
    let fx = sim.media_ended(MediaOutcome::Finished);
    assert_eq!(spircs(&fx), vec![SpircCmd::Next, SpircCmd::Play]);
    assert!(matches!(&sim.s.active, Active::SpotifyPending { uri: u, .. } if *u == uri(1)));

    // Cued track IS the head (arm landed on it already): plain resume.
    let mut sim = Sim::media_over_paused_baseline();
    sim.s.sp = SpDevice::Paused(uri(1));
    let id = sim.push_spotify(1, "s1");
    sim.arm(1, id, Ack::Confirmed);
    let fx = sim.media_ended(MediaOutcome::Finished);
    assert_eq!(spircs(&fx), vec![SpircCmd::Play]);

    // Arm not confirmed: resume and let the arm land at the boundary.
    let mut sim = Sim::media_over_paused_baseline();
    let id = sim.push_spotify(1, "s1");
    sim.arm(1, id, Ack::Lost);
    let fx = sim.media_ended(MediaOutcome::Finished);
    assert_eq!(spircs(&fx), vec![SpircCmd::Play]);
}

#[test]
fn spotify_head_reaching_its_turn_claims_the_device() {
    // Live E'' on a fresh boot: the session came up without claiming
    // the device (F15) and a queued Spotify track then needed a manual
    // ▶. The request itself is the claim — enqueue-start, skip and the
    // post-media boundary all activate and load.
    let mut sim = Sim::new();
    sim.s.link_up = true;
    let fx = sim.enqueue_start(spotify_item(1, "s1"));
    assert_eq!(spircs(&fx), vec![SpircCmd::ActivateDevice, SpircCmd::Load(uri(1))]);
    assert!(matches!(sim.s.active, Active::SpotifyPending { .. }));

    let mut sim = Sim::media_over_paused_baseline();
    sim.s.link_up = true;
    sim.s.device_active = false;
    sim.s.sp = SpDevice::Inactive;
    sim.push_spotify(2, "s2");
    sim.skip();
    let fx = sim.media_ended(MediaOutcome::Cancelled);
    assert_eq!(spircs(&fx), vec![SpircCmd::ActivateDevice, SpircCmd::Load(uri(2))]);
}

#[test]
fn play_takeover_activates_the_device_explicitly() {
    // ▶ is the takeover gesture; nothing else ever claims the device.
    // A never-loaded session is idle once claimed, so a Spotify head
    // loads in the same press.
    let mut sim = Sim::new();
    sim.push_spotify(1, "s1");
    let fx = sim.toggle();
    assert_eq!(spircs(&fx), vec![SpircCmd::ActivateDevice, SpircCmd::Load(uri(1))]);
    assert!(sim.s.device_active);
    // With nothing queued: activation alone.
    let mut sim = Sim::new();
    let fx = sim.toggle();
    assert_eq!(spircs(&fx), vec![SpircCmd::ActivateDevice]);
}

// --- controls during media --------------------------------------------

#[test]
fn previous_refuses_during_a_queue_item() {
    let mut sim = Sim::media_over_paused_baseline();
    let fx = sim.previous();
    assert!(spircs(&fx).is_empty());
    assert_eq!(reply_text(&fx), "❌ Previous isn't available during queue playback.");
}

#[test]
fn toggle_pause_during_media_uses_the_track_handle() {
    let mut sim = Sim::media_over_paused_baseline();
    let fx = sim.toggle();
    assert!(fx.iter().any(|e| matches!(e, Effect::TrackHandle(TrackHandleCmd::Pause))));
    assert!(spircs(&fx).is_empty(), "the baseline is not touched");
    assert!(matches!(sim.s.active, Active::Media { paused: true, .. }));
    let fx = sim.toggle();
    assert!(fx.iter().any(|e| matches!(e, Effect::TrackHandle(TrackHandleCmd::Resume))));
    assert!(matches!(sim.s.active, Active::Media { paused: false, .. }));
}

// --- voice ------------------------------------------------------------

#[test]
fn voice_lost_during_media_cancels_it_and_stales_the_runner() {
    let mut sim = Sim::media_over_paused_baseline();
    let fx = sim.step(Input::VoiceLost);
    assert!(has_cancel(&fx) && has_clear(&fx));
    assert!(matches!(sim.s.active, Active::Nobody));
    let fx = sim.step(Input::MediaEnded { epoch: 1, outcome: MediaOutcome::Cancelled });
    assert!(fx.is_empty(), "the dead runner's report is stale");
}

#[test]
fn a_load_without_voice_joins_first() {
    // The Spotify half of the same rule as the media case below. This
    // path had no test, and it is one of the two that shipped the live
    // 2026-09-01 silence — audio decoding into a bridge no call drains.
    let mut sim = Sim::idle_device();
    sim.s.voice = VoiceStatus::Down;
    let fx = sim.enqueue_start(spotify_item(1, "s1"));
    let join = fx.iter().position(|e| matches!(e, Effect::JoinVoice));
    let load = fx
        .iter()
        .position(|e| matches!(e, Effect::Spirc(SpircCmd::Load(_))));
    assert!(join.is_some() && load.is_some());
    assert!(join < load, "the join is requested before the load");
    assert_eq!(sim.s.voice, VoiceStatus::Joining);
}

#[test]
fn a_bare_load_drops_the_playlist_it_replaces() {
    // A `Load` replaces the device's context, and Spotify reports a bare
    // track's context as absent — which never overwrites. Left standing,
    // the old playlist is stamped on this track's history row and a
    // later ⏮ reopens a playlist it was never in.
    let mut sim = Sim::idle_device();
    sim.s.context_uri = Some("spotify:playlist:old".into());
    sim.enqueue_start(spotify_item(1, "s1"));
    assert_eq!(sim.s.context_uri, None);
}

#[test]
fn arming_is_refused_once_the_device_is_released() {
    // The F2 half of `maybe_arm`'s guard, on its own: a command sent
    // while this device is not the active one is silently dropped, so an
    // arm issued there is void rather than queued.
    //
    // The mirror is deliberately left reporting a live context, because
    // that is the only other thing that could refuse the arm. With it
    // saying `Playing`, the device check is the sole reason nothing goes
    // out — so deleting that check fails this test.
    let mut sim = Sim::baseline_playing();
    sim.s.device_active = false;
    assert!(matches!(sim.s.sp, SpDevice::Playing(_)));

    let fx = sim.enqueue(spotify_item(1, "s1"));

    assert!(spircs(&fx).is_empty(), "nothing is sent to a released device");
    assert!(sim.s.armed.is_none());
}

#[test]
fn stop_releases_the_device_mirror_with_the_device() {
    let mut sim = Sim::baseline_playing();
    sim.stop();
    assert_eq!(
        sim.s.sp,
        SpDevice::Inactive,
        "the mirror must not claim a released device is playing"
    );
}

#[test]
fn stop_lets_the_same_track_be_recorded_again() {
    // The card is gone after a stop, so the next airing is new even if
    // it is the same track. Without clearing this, the duplicate-card
    // guard also swallows that airing's history row.
    let mut sim = Sim::baseline_playing();
    sim.stop();
    assert_eq!(sim.s.last_heard_track, None);
}

#[test]
fn stop_keeps_an_arm_it_sends_no_disconnect_for() {
    // Clearing the arm is justified only by `Disconnect` resetting
    // librespot's own queue. With the device already released no
    // `Disconnect` goes out, so the track really is still queued there —
    // and dropping the arm would let `maybe_arm` queue it a second time,
    // which librespot has no way to undo.
    let mut sim = Sim::baseline_playing();
    let id = sim.push_spotify(1, "s1");
    sim.arm(1, id, Ack::Confirmed);
    sim.s.device_active = false;

    let fx = sim.stop();
    assert!(
        !spircs(&fx).contains(&SpircCmd::Disconnect),
        "nothing to disconnect from"
    );
    assert!(sim.s.armed.is_some(), "so the arm is still real device state");
}

#[test]
fn a_new_session_drops_the_previous_djs_walk() {
    // An account switch arrives as a bare `LinkUp` with no `LinkDown`
    // before it, so anything the previous session left in flight has to
    // be dropped here — a jump into a session that no longer exists can
    // never land, and a walk position points at another DJ's listening.
    let mut sim = Sim::baseline_playing();
    sim.s.history_cursor = Some(42);
    sim.s.awaiting_jump = Some(PendingJump::Context(uri(3)));
    sim.s.pending_request = Some(spotify_item(4, "held"));

    sim.step(Input::LinkUp { gen: sim.s.link_gen });

    assert_eq!(sim.s.history_cursor, None);
    assert_eq!(sim.s.awaiting_jump, None);
    assert!(sim.s.pending_request.is_none());
}

#[test]
fn media_start_without_voice_joins_first() {
    let mut sim = Sim::idle_device();
    sim.s.voice = VoiceStatus::Down;
    sim.s.queue.push(media_item("m"));
    let fx = sim.toggle();
    let join = fx.iter().position(|e| matches!(e, Effect::JoinVoice));
    let start = fx.iter().position(|e| matches!(e, Effect::StartMedia { .. }));
    assert!(join.is_some() && start.is_some());
    assert!(join < start, "the join is requested before the start");
    assert_eq!(sim.s.voice, VoiceStatus::Joining);
}

// --- pending resolution -----------------------------------------------

#[test]
fn spotify_pending_wrong_uri_hands_the_turn_to_the_baseline() {
    // Something other than the loaded uri started: the turn passes to
    // the baseline and the head decision re-runs (the queued track
    // re-enters via arming, so it still airs).
    let mut sim = Sim::idle_device();
    sim.push_spotify(1, "s1");
    sim.toggle(); // Load(uri 1), pending
    let fx = sim.transport(TransportEvent::Playing { uri: uri(3), meta: None });
    assert!(matches!(sim.s.active, Active::Spotify { .. }));
    assert_eq!(add_to_queue_count(&fx), 1, "the queued track re-arms");
    sim.advance(5100 * MILLI);
    let fx = sim.step(Input::Tick(TimerKind::SpotifyPending));
    assert!(fx.is_empty(), "the resolved pending's timer is a no-op");
}

// --- misc guards ------------------------------------------------------

#[test]
fn enqueue_media_start_if_idle_starts_the_head() {
    let mut sim = Sim::idle_device();
    let fx = sim.enqueue_start(media_item("m"));
    assert!(has_start_media(&fx));
    assert_eq!(start_gate(&fx), Some(StartGate::Immediate));
    assert!(matches!(sim.s.active, Active::Media { .. }));
    assert_eq!(reply_text(&fx), "▶ Playing now");
}

#[test]
fn enqueue_start_if_idle_never_steals_the_turn() {
    // With a turn holder the enqueue only queues (and arms) — the old
    // Enqueue trigger's whole contract.
    let mut sim = Sim::baseline_playing();
    let fx = sim.enqueue_start(media_item("m"));
    assert!(!has_start_media(&fx));
    assert_eq!(reply_text(&fx), "➕ Added to queue #1");
    assert!(without_reply(fx).iter().all(|e| !matches!(e, Effect::Spirc(_))));
    assert_eq!(sim.s.queue.len(), 1);
}

#[test]
fn link_reconnecting_is_not_link_down() {
    let mut sim = Sim::baseline_playing();
    let id = sim.push_spotify(1, "s1");
    sim.arm(1, id, Ack::Confirmed);
    let fx = sim.step(Input::LinkReconnecting { gen: 1 });
    // Only the bridge clear (Spotify held the turn) — no armed-clearing,
    // no turn change on a fast reconnect.
    assert!(matches!(fx.as_slice(), [Effect::ClearBridge]));
    assert!(sim.s.armed.is_some(), "no armed-clearing on a fast reconnect");
    assert!(matches!(sim.s.active, Active::Spotify { .. }));
}

#[test]
fn session_disconnect_voids_an_unacked_arm_but_keeps_a_confirmed_one() {
    // F2: an unacked add_to_queue was void — clear it so the next
    // opportunity re-arms. A Confirmed arm is real device-side state.
    let mut sim = Sim::baseline_playing();
    let id = sim.push_spotify(1, "s1");
    sim.arm(1, id, Ack::Sent(sim.now));
    sim.transport(TransportEvent::SessionDisconnected);
    assert!(sim.s.armed.is_none());
    assert!(!sim.s.device_active);

    let mut sim = Sim::baseline_playing();
    let id = sim.push_spotify(1, "s1");
    sim.arm(1, id, Ack::Confirmed);
    sim.transport(TransportEvent::SessionDisconnected);
    assert!(sim.s.armed.is_some(), "clearing a Confirmed arm would double-queue on restore");
}

#[test]
fn playing_same_track_again_does_not_repost_the_card() {
    // Seek/resume re-emits Playing for the same track; presence updates
    // but the card does not repost (the double-card/double-announce
    // guard).
    let mut sim = Sim::baseline_playing();
    sim.s.last_heard_track = None; // nothing carded yet
    let fx = sim.transport(TransportEvent::Playing { uri: uri(9), meta: Some(meta("t")) });
    assert!(has_spotify_card(&fx), "first Playing for a track posts the card");
    let fx = sim.transport(TransportEvent::Playing { uri: uri(9), meta: Some(meta("t")) });
    assert!(!has_spotify_card(&fx));
    assert!(has_presence(&fx));
}

// --- now playing (/np) -------------------------------------------------

#[test]
fn query_reports_nothing_playing_right_now() {
    let mut sim = Sim::new();
    let (tx, _rx) = oneshot::channel();
    let fx = sim.step(Input::Query { reply: tx });
    let snap = reply_snapshot(&fx);
    assert_eq!(snap.now, NowPlaying::Nothing);
    assert_eq!(snap.queue_len, 0);
    assert_eq!(snap.more, 0);
    assert!(snap.preview.is_empty());
}

#[test]
fn query_reports_the_media_track_and_queued_by() {
    let mut sim = Sim::media_over_paused_baseline();
    let (tx, _rx) = oneshot::channel();
    let fx = sim.step(Input::Query { reply: tx });
    let snap = reply_snapshot(&fx);
    assert_eq!(
        snap.now,
        NowPlaying::Media {
            title: "active-item".into(),
            subtitle: "c".into(),
            queued_by: "dj".into(),
            paused: false,
        }
    );
}

#[test]
fn query_reports_a_paused_media_track() {
    let mut sim = Sim::new();
    let item = media_item("paused-item");
    sim.s.active = Active::Media { item, paused: true, epoch: 0 };
    let (tx, _rx) = oneshot::channel();
    let fx = sim.step(Input::Query { reply: tx });
    let snap = reply_snapshot(&fx);
    assert_eq!(
        snap.now,
        NowPlaying::Media {
            title: "paused-item".into(),
            subtitle: "c".into(),
            queued_by: "dj".into(),
            paused: true,
        }
    );
}

#[test]
fn query_reports_the_spotify_track() {
    let mut sim = Sim::baseline_playing();
    sim.s.active = Active::Spotify { track: Some(meta("t")) };
    let (tx, _rx) = oneshot::channel();
    let fx = sim.step(Input::Query { reply: tx });
    let snap = reply_snapshot(&fx);
    assert_eq!(
        snap.now,
        NowPlaying::Spotify { title: "t".into(), artist: "artist".into(), paused: false }
    );
}

#[test]
fn query_maps_spotify_pending_to_starting() {
    let mut sim = Sim::idle_device();
    sim.push_spotify(1, "s1");
    sim.toggle(); // begin_load -> SpotifyPending
    let (tx, _rx) = oneshot::channel();
    let fx = sim.step(Input::Query { reply: tx });
    assert_eq!(reply_snapshot(&fx).now, NowPlaying::SpotifyStarting);
}

#[test]
fn query_preview_caps_at_five_and_reports_the_remainder() {
    let mut sim = Sim::new();
    for i in 0..8 {
        assert!(sim.s.queue.push(media_item(&format!("t{i}"))));
    }
    let (tx, _rx) = oneshot::channel();
    let fx = sim.step(Input::Query { reply: tx });
    let snap = reply_snapshot(&fx);
    assert_eq!(snap.queue_len, 8);
    assert_eq!(snap.preview.len(), 5);
    assert_eq!(snap.more, 3);
    assert_eq!(snap.preview[0].title, "t0");
    assert_eq!(snap.preview[4].title, "t4");
}

#[test]
fn query_flags_the_armed_entry_in_the_preview() {
    let mut sim = Sim::baseline_playing();
    let id1 = sim.push_spotify(1, "s1");
    let id2 = sim.push_spotify(2, "s2");
    sim.arm(2, id2, Ack::Confirmed);
    let (tx, _rx) = oneshot::channel();
    let fx = sim.step(Input::Query { reply: tx });
    let snap = reply_snapshot(&fx);
    let armed: Vec<u64> = snap.preview.iter().filter(|e| e.armed).map(|e| e.item_id).collect();
    assert_eq!(armed, vec![id2]);
    assert!(!snap.preview.iter().find(|e| e.item_id == id1).unwrap().armed);
}

#[test]
fn aired_source_words_read_back() {
    assert_eq!(AiredSource::Request.as_str(), "request");
    assert_eq!(AiredSource::Baseline.as_str(), "baseline");
    assert_eq!(AiredSource::from_str("request"), AiredSource::Request);
    assert_eq!(AiredSource::from_str("baseline"), AiredSource::Baseline);
    assert_eq!(AiredSource::from_str("something newer"), AiredSource::Baseline);
    assert_eq!(spotify_item(1, "s").source.embed_color(), 0x1DB954);
}

#[test]
fn a_skip_without_a_session_says_so_and_changes_nothing() {
    let mut sim = Sim::new();
    let id = sim.push_spotify(1, "a");
    let fx = sim.skip();
    assert_eq!(fx.len(), 1, "{fx:?}");
    assert_eq!(reply_text(&fx), "No Spotify session — run `/login` to connect.");
    assert_eq!(sim.s.queue.snapshot()[0].item_id, id);
}

#[test]
fn replies_lead_with_a_glyph_or_stand_bare() {
    let mut sim = Sim::new();
    sim.push_spotify(1, "a");
    let (tx, _rx) = oneshot::channel();
    let fx = sim.step(Input::ClearQueue { reply: tx });
    assert_eq!(reply_text(&fx), "✅ Cleared 1 queued track(s).");
    let (tx, _rx) = oneshot::channel();
    let fx = sim.step(Input::ClearQueue { reply: tx });
    assert_eq!(reply_text(&fx), "The queue is already empty.");
    assert_eq!(reply_text(&Sim::idle_device().toggle()), "Nothing is playing right now.");
}

#[test]
fn voice_is_asked_for_once() {
    let mut sim = Sim::new();
    sim.s.voice = VoiceStatus::Down;
    let fx = sim.enqueue_start(media_item("a"));
    assert_eq!(fx.iter().filter(|e| matches!(e, Effect::JoinVoice)).count(), 1);
    let fx = sim.enqueue_start(media_item("b"));
    assert!(!has_join(&fx), "{fx:?}");
}

#[test]
fn telemetry_leaves_the_media_turn_alone() {
    let mut sim = Sim::media_over_paused_baseline();
    for ev in [
        TransportEvent::Playing { uri: uri(9), meta: None },
        TransportEvent::Paused { uri: uri(9) },
        TransportEvent::EndOfTrack,
        TransportEvent::Stopped,
    ] {
        sim.transport(ev);
        assert!(matches!(sim.s.active, Active::Media { paused: false, epoch: 1, .. }));
    }
}
