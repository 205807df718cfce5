//! Pure player-decision core: one owned [`PlayerState`], advanced by [`step`].
//!
//! This file is the bot's notion of playback intent: who is entitled to be
//! audible and what has to happen next. `step` mutates the state and returns
//! [`Effect`]s for the actor to run. It never sleeps, spawns or performs IO,
//! and it reads time only from its `now` parameter: nanoseconds on the
//! actor's monotonic clock.

use tokio::sync::oneshot;
use vstd::prelude::*;

use crate::player::model::{
    AiredModel, EffectModel, EntryModel, NowModel, Run, SnapshotModel, StateModel, UiModel,
};
use crate::queue::{MediaSource, PriorityQueue, QueueItem};
use crate::text::{cat, cat3, clone_text, decimal_text};
use crate::uri::SpotifyUri;

verus! {

/// The sending half of tokio's one-shot channel, carried from a command to
/// the reply that answers it; nothing here looks inside.
#[verifier::external_type_specification]
#[verifier::external_body]
#[verifier::reject_recursive_types(T)]
pub struct ExOneshotSender<T>(oneshot::Sender<T>);

/// How long a `Sent` arm may go unacknowledged by a `SetQueue` before it is
/// marked `Lost` (advisory only, never retried blind).
pub const ARM_ACK_TIMEOUT: u64 = 2_000_000_000;

/// How long `Active::SpotifyPending` may wait for its `Playing` before the
/// fallback runs (retry the load once while idle, else surface an error).
pub const PENDING_TIMEOUT: u64 = 5_000_000_000;

/// How long a link-down arm snapshot stays eligible for restore-by-transfer.
pub const SNAPSHOT_TTL: u64 = 60_000_000_000;

/// Echo window for pause provenance: a `Paused` event arriving within this
/// long of a `Pause` we sent is read as our own echo, not a human pause.
pub const INFLIGHT_TTL: u64 = 2_000_000_000;

/// Track metadata as the core carries it.
#[derive(Debug, PartialEq, Eq)]
pub struct TrackMeta {
    pub title: String,
    pub artist: String,
    pub album_art_url: Option<String>,
}

impl Clone for TrackMeta {
    fn clone(&self) -> (r: Self)
        ensures
            r == *self,
    {
        TrackMeta {
            title: self.title.clone(),
            artist: self.artist.clone(),
            album_art_url: clone_text(&self.album_art_url),
        }
    }
}

/// The turn token: who is entitled to be audible right now. The turn changes
/// only at boundaries the bot defines: media end, Spotify
/// `EndOfTrack`/`Stopped`, human skip, explicit human play.
#[derive(Clone, Debug)]
pub enum Active {
    Nobody,
    /// A queue (YouTube/file) item is playing through a media runner.
    Media { item: QueueItem, paused: bool, epoch: u64 },
    /// We asked Spotify to start this exact uri (`Load`/`Next`) and are
    /// awaiting its `Playing`; `Tick(SpotifyPending)` is the escape hatch.
    SpotifyPending { uri: SpotifyUri, sent: u64, retried: bool },
    /// The Spotify Connect baseline holds the turn.
    Spotify { track: Option<TrackMeta> },
}

/// Who paused the Spotify baseline, which decides who may auto-resume it:
/// the bot resumes only what it paused for a media item; a human pause is
/// honoured but never blocks an explicit Discord command.
#[derive(Clone, Copy, Debug, PartialEq, Eq, Structural)]
pub enum PauseOwner {
    BotForMedia,
    Human,
}

/// `SetQueue`-driven acknowledgement of an arm. `Lost` is advisory only:
/// librespot has no dequeue, so a blind retry after a slow ack would queue
/// the track twice.
#[derive(Clone, Copy, Debug, PartialEq, Eq, Structural)]
pub enum Ack {
    Sent(u64),
    Confirmed,
    Lost,
}

/// The one queue item pre-queued into Spotify's own queue via `AddToQueue`,
/// so librespot's auto-advance lands on it at the next boundary.
#[derive(Clone, Debug)]
pub struct Armed {
    pub item_id: u64,
    pub uri: SpotifyUri,
    pub ack: Ack,
}

/// A back-jump that has been sent to Spotify and not yet landed, with what
/// the arrival has to be checked against.
#[derive(Clone, Debug, PartialEq, Eq)]
pub enum PendingJump {
    /// A context jump named one exact track. Librespot silently starts a
    /// context at track 1 when it cannot find that track, so the arrival is
    /// checked rather than assumed.
    Context(SpotifyUri),
    /// Spotify's own `Previous`, which chooses the track itself: under 3 s
    /// into a track it steps back, at or over 3 s it seeks to zero and stays
    /// put. Carries where the walk lands if it moves, so the cursor is
    /// committed only once a different track actually arrives.
    Previous { cursor: i64 },
}

/// Telemetry mirror of the Spotify device: an input, never the intent.
///
/// `Idle` means "ours, and holding no context", which is the one state
/// `Load` may overwrite. Two things reach it: an explicit claim on a session
/// that never loaded anything, and a `Stopped` while `device_active`. That
/// guard on `Stopped` is the load-safety invariant: a takeover by another
/// device emits `SessionDisconnected` then `Stopped`, and without it that
/// pair would invite a `Load` over the DJ's context on a device we no longer
/// own.
#[derive(Clone, Debug, PartialEq, Eq)]
pub enum SpDevice {
    Inactive,
    Idle,
    /// `EndOfTrack` seen; librespot's auto-advance is imminent.
    Boundary,
    Playing(SpotifyUri),
    Paused(SpotifyUri),
}

/// Mirror of the Discord voice connection. Anything that makes the bot
/// audible while this is not `Ready` emits `JoinVoice` first.
#[derive(Clone, Copy, Debug, PartialEq, Eq, Structural)]
pub enum VoiceStatus {
    Down,
    Joining,
    Ready,
}

/// Arm state snapshotted at `LinkDown`, restorable by `Transfer` at the next
/// `LinkUp` while fresh (see `SNAPSHOT_TTL`).
#[derive(Clone, Debug)]
pub struct ArmSnapshot {
    pub armed: Armed,
    pub at: u64,
}

/// Ring of `Pause` commands this core just sent. A `Paused` transport event
/// that consumes an entry is our own echo; one that doesn't is a human
/// pausing on their device. A real phone pause landing inside the window
/// reads as an echo and may be overridden once.
#[derive(Debug)]
pub struct InflightRing {
    pub pauses: Vec<u64>,
}

/// Time from `since` to `now`, zero when `since` lies ahead.
fn elapsed(now: u64, since: u64) -> (r: u64)
    ensures
        r == crate::player::model::elapsed(now, since),
{
    if now >= since {
        now - since
    } else {
        0
    }
}

impl InflightRing {
    pub fn new() -> (r: Self)
        ensures
            r.pauses@ == Seq::<u64>::empty(),
    {
        InflightRing { pauses: Vec::new() }
    }

    /// Remember a pause that was just sent, unless eight are outstanding.
    pub fn record_pause(&mut self, now: u64)
        ensures
            final(self).pauses@ == crate::player::model::with_pause(old(self).pauses@, now),
    {
        self.prune(now);
        if self.pauses.len() < 8 {
            self.pauses.push(now);
        }
    }

    /// Consume one live entry if any; `true` means "this was our echo".
    pub fn consume_pause(&mut self, now: u64) -> (r: bool)
        ensures
            r == (crate::player::model::live_pauses(old(self).pauses@, now).len() > 0),
            final(self).pauses@ == crate::player::model::echoed_pause(old(self).pauses@, now),
    {
        self.prune(now);
        if self.pauses.len() == 0 {
            false
        } else {
            let ghost live = self.pauses@;
            let _ = self.pauses.remove(0);
            assert(live.remove(0) =~= live.drop_first());
            true
        }
    }

    /// Forget pauses too old to be echoed.
    pub fn prune(&mut self, now: u64)
        ensures
            final(self).pauses@ == crate::player::model::live_pauses(old(self).pauses@, now),
    {
        let mut kept: Vec<u64> = Vec::new();
        let mut i: usize = 0;
        while i < self.pauses.len()
            invariant
                i <= self.pauses@.len(),
                self.pauses@ == old(self).pauses@,
                kept@ == crate::player::model::live_pauses(self.pauses@.take(i as int), now),
            decreases self.pauses@.len() - i,
        {
            let t: u64 = self.pauses[i];
            proof {
                let next = self.pauses@.take(i + 1);
                assert(next.drop_last() =~= self.pauses@.take(i as int));
                assert(next.last() == t);
            }
            if elapsed(now, t) < INFLIGHT_TTL {
                kept.push(t);
            }
            i += 1;
        }
        assert(self.pauses@.take(i as int) =~= self.pauses@);
        self.pauses = kept;
    }

    pub fn clear(&mut self)
        ensures
            final(self).pauses@ == Seq::<u64>::empty(),
    {
        self.pauses.clear();
    }
}

/// The player's owned state. The actor holds exactly one of these; nothing
/// else reads or writes it.
pub struct PlayerState {
    /// The unified queue (radio rules: strict order across all sources; the
    /// bot never skips anything on its own).
    pub queue: PriorityQueue,
    pub active: Active,
    /// Telemetry mirror: an input, never the intent.
    pub sp: SpDevice,
    pub armed: Option<Armed>,
    pub pause_owner: Option<PauseOwner>,
    pub inflight: InflightRing,
    /// Whether this device is the active Connect device. Commands are
    /// silently dropped by librespot while it isn't, so audibility commands
    /// gate on this. Activation is explicit, never on connect.
    pub device_active: bool,
    pub voice: VoiceStatus,
    /// Session generation; `Transport`/`LinkDown` inputs carrying another
    /// gen are stale and ignored.
    pub link_gen: u64,
    /// Whether the Spotify session link is currently up.
    pub link_up: bool,
    /// Media-runner generation; a `MediaEnded` carrying another epoch is a
    /// stale runner's report and is ignored.
    pub media_epoch: u64,
    /// Uri (as text) of the last track a turn-approved `Playing` was
    /// accepted for; suppresses duplicate cards when librespot re-emits
    /// `Playing` for the same track (seek, resume).
    pub last_heard_track: Option<String>,
    /// The DJ's shuffle/repeat settings, mirrored from Spotify so a context
    /// jump can put them back.
    pub play_options: PlayOptions,
    /// Where back-navigation has walked to in the play history. `None` means
    /// "live": the next ⏮ starts from whatever is playing.
    pub history_cursor: Option<i64>,
    /// The back-jump in flight, until a transport event settles it.
    pub awaiting_jump: Option<PendingJump>,
    /// The ⏮ reply, held while the shell reads the history.
    pub pending_reply: Option<oneshot::Sender<String>>,
    /// A request Spotify started while a media item held the turn: popped
    /// from the queue and paused straight back down. This holds who asked
    /// for it until it airs.
    pub pending_request: Option<QueueItem>,
    /// The context the Spotify baseline is playing from, as last reported
    /// by `SetQueue`. Stamped onto history rows so a later back-jump can
    /// reopen the playlist at a track.
    pub context_uri: Option<String>,
    pub armed_snapshot: Option<ArmSnapshot>,
}

impl View for PlayerState {
    type V = StateModel;

    open spec fn view(&self) -> StateModel {
        StateModel {
            queue: self.queue@,
            active: self.active,
            sp: self.sp,
            armed: self.armed,
            pause_owner: self.pause_owner,
            pauses: self.inflight.pauses@,
            device_active: self.device_active,
            voice: self.voice,
            link_gen: self.link_gen,
            link_up: self.link_up,
            media_epoch: self.media_epoch,
            last_heard_track: crate::text::text_of(self.last_heard_track),
            play_options: self.play_options,
            history_cursor: self.history_cursor,
            awaiting_jump: self.awaiting_jump,
            pending_reply: self.pending_reply,
            pending_request: self.pending_request,
            context_uri: crate::text::text_of(self.context_uri),
            armed_snapshot: self.armed_snapshot,
        }
    }
}

impl StateModel {
    /// A player nothing has happened to yet.
    pub open spec fn fresh() -> StateModel {
        StateModel {
            queue: crate::queue::QueueModel { items: Seq::empty(), last_id: 0 },
            active: Active::Nobody,
            sp: SpDevice::Inactive,
            armed: None,
            pause_owner: None,
            pauses: Seq::empty(),
            device_active: false,
            voice: VoiceStatus::Down,
            link_gen: 0,
            link_up: false,
            media_epoch: 0,
            last_heard_track: None,
            play_options: PlayOptions {
                shuffle: false,
                repeat_context: false,
                repeat_track: false,
            },
            history_cursor: None,
            awaiting_jump: None,
            pending_reply: None,
            pending_request: None,
            context_uri: None,
            armed_snapshot: None,
        }
    }
}

impl PlayerState {
    pub open spec fn wf(&self) -> bool {
        self@.wf()
    }

    pub fn new() -> (r: Self)
        ensures
            r.wf(),
            r@ == StateModel::fresh(),
    {
        PlayerState {
            queue: PriorityQueue::new(),
            active: Active::Nobody,
            sp: SpDevice::Inactive,
            link_up: false,
            context_uri: None,
            play_options: PlayOptions::default(),
            history_cursor: None,
            awaiting_jump: None,
            pending_reply: None,
            pending_request: None,
            armed: None,
            pause_owner: None,
            inflight: InflightRing::new(),
            device_active: false,
            voice: VoiceStatus::Down,
            link_gen: 0,
            media_epoch: 0,
            last_heard_track: None,
            armed_snapshot: None,
        }
    }

    /// Whether the item and epoch counters have values left for one more
    /// input; both start at zero and move by at most a few hundred per input.
    pub fn has_room(&self) -> (r: bool)
        ensures
            r == self@.room(),
    {
        self.queue.last_id() <= u64::MAX - 500 && self.media_epoch < u64::MAX
    }
}

/// Where an enqueue lands in the queue.
#[derive(Clone, Copy, Debug, PartialEq, Eq, Structural)]
pub enum EnqueuePos {
    Tail,
    Head,
    At(usize),
}

/// How a media runner ended. Both run the same boundary decision.
#[derive(Clone, Copy, Debug, PartialEq, Eq, Structural)]
pub enum MediaOutcome {
    Finished,
    Cancelled,
}

/// Timers the actor spawns as sleeps that come back as `Input::Tick`.
/// Handlers re-validate against the state, so a stale timer is a no-op.
#[derive(Clone, Copy, Debug, PartialEq, Eq, Structural)]
pub enum TimerKind {
    ArmAck,
    SpotifyPending,
    SnapshotExpiry,
}

/// Where an aired track came from: a request aired because someone asked for
/// it here; a baseline track because the DJ's own context reached it.
#[derive(Clone, Copy, Debug, PartialEq, Eq, Structural)]
pub enum AiredSource {
    Request,
    Baseline,
}

impl AiredSource {
    /// The word a history row stores.
    pub open spec fn word(self) -> Seq<char> {
        match self {
            AiredSource::Request => "request"@,
            AiredSource::Baseline => "baseline"@,
        }
    }

    pub fn as_str(self) -> (r: &'static str)
        ensures
            r@ == self.word(),
    {
        match self {
            AiredSource::Request => "request",
            AiredSource::Baseline => "baseline",
        }
    }

    /// What a stored word stands for. Unknown strings read as `Baseline`: a row
    /// written by a newer version should degrade to "something played", never
    /// fail a listing.
    pub open spec fn read(s: Seq<char>) -> Self {
        if s == "request"@ {
            AiredSource::Request
        } else {
            AiredSource::Baseline
        }
    }

    pub fn from_str(s: &str) -> (r: Self)
        ensures
            r == Self::read(s@),
    {
        if crate::text::same_text(s, "request") {
            AiredSource::Request
        } else {
            AiredSource::Baseline
        }
    }
}

/// Shuffle/repeat, as Spotify reports them and as a context load must
/// restore them.
#[derive(Clone, Copy, Debug, PartialEq, Eq, Structural)]
pub struct PlayOptions {
    pub shuffle: bool,
    pub repeat_context: bool,
    pub repeat_track: bool,
}

impl Default for PlayOptions {
    fn default() -> (r: Self)
        ensures
            r == (PlayOptions { shuffle: false, repeat_context: false, repeat_track: false }),
    {
        PlayOptions { shuffle: false, repeat_context: false, repeat_track: false }
    }
}

/// A track found in the play history by a ⏮, handed back to the core.
#[derive(Clone, Debug, PartialEq, Eq)]
pub struct PreviousTrack {
    /// History row id: the cursor the next ⏮ walks back from.
    pub id: i64,
    pub uri: SpotifyUri,
    /// The context it aired from, when one was recorded.
    pub context_uri: Option<String>,
}

/// One track becoming audible, handed to the history store by the actor.
#[derive(Clone, Debug, PartialEq, Eq)]
pub struct AiredTrack {
    pub source: AiredSource,
    /// A Spotify uri, or the URL/filename for a media item.
    pub track_ref: String,
    /// The Spotify context it aired from, when there was one.
    pub context_uri: Option<String>,
    pub title: Option<String>,
    pub artist: Option<String>,
    pub queued_by: Option<String>,
    pub queued_by_id: Option<String>,
}

impl View for AiredTrack {
    type V = AiredModel;

    open spec fn view(&self) -> AiredModel {
        AiredModel {
            source: self.source,
            track_ref: self.track_ref@,
            context_uri: crate::text::text_of(self.context_uri),
            title: crate::text::text_of(self.title),
            artist: crate::text::text_of(self.artist),
            queued_by: crate::text::text_of(self.queued_by),
            queued_by_id: crate::text::text_of(self.queued_by_id),
        }
    }
}

/// Gen-tagged Spotify telemetry, made from librespot player events by
/// the session layer. `SetQueue.queued` carries only the entries `AddToQueue`
/// creates; `current` is unfiltered.
#[derive(Clone, Debug, PartialEq, Eq)]
#[allow(inconsistent_fields)]
pub enum TransportEvent {
    Playing { uri: SpotifyUri, meta: Option<TrackMeta> },
    Paused { uri: SpotifyUri },
    Stopped,
    EndOfTrack,
    Unavailable { uri: SpotifyUri },
    TrackChanged { uri: SpotifyUri, meta: TrackMeta },
    SetQueue {
        current: Option<SpotifyUri>,
        queued: Vec<SpotifyUri>,
        /// The context (playlist/album/station) the baseline is playing
        /// from, when Spotify names one.
        context_uri: Option<String>,
    },
    /// Shuffle/repeat as Spotify reports them. Tracked so a context jump
    /// can restore them.
    OptionsChanged { shuffle: bool, repeat_context: bool, repeat_track: bool },
    SessionConnected,
    SessionDisconnected,
}

/// One row of the `/queue` listing.
#[derive(Clone, Debug, PartialEq, Eq)]
pub struct QueueEntry {
    pub item_id: u64,
    pub title: String,
    pub subtitle: String,
    pub duration: Option<String>,
    pub queued_by: String,
    pub armed: bool,
}

impl View for QueueEntry {
    type V = EntryModel;

    open spec fn view(&self) -> EntryModel {
        EntryModel {
            item_id: self.item_id,
            title: self.title@,
            subtitle: self.subtitle@,
            duration: crate::text::text_of(self.duration),
            queued_by: self.queued_by@,
            armed: self.armed,
        }
    }
}

/// What's currently audible, as `/np` reports it.
#[derive(Clone, Debug, PartialEq, Eq)]
pub enum NowPlaying {
    Nothing,
    Media { title: String, subtitle: String, queued_by: String, paused: bool },
    Spotify { title: String, artist: String, paused: bool },
    /// The baseline holds (or is about to hold) the turn but no track is
    /// known yet.
    SpotifyStarting,
}

impl View for NowPlaying {
    type V = NowModel;

    open spec fn view(&self) -> NowModel {
        match *self {
            NowPlaying::Nothing => NowModel::Nothing,
            NowPlaying::Media { title, subtitle, queued_by, paused } => NowModel::Media {
                title: title@,
                subtitle: subtitle@,
                queued_by: queued_by@,
                paused,
            },
            NowPlaying::Spotify { title, artist, paused } => NowModel::Spotify {
                title: title@,
                artist: artist@,
                paused,
            },
            NowPlaying::SpotifyStarting => NowModel::SpotifyStarting,
        }
    }
}

/// Reply payload for [`Input::Query`]: everything `/np` and `/queue` need
/// to render.
#[derive(Clone, Debug, PartialEq, Eq)]
pub struct PlayerSnapshot {
    pub now: NowPlaying,
    pub queue_len: usize,
    /// At most `QUEUE_PREVIEW` entries, in play order.
    pub preview: Vec<QueueEntry>,
    /// `queue_len - preview.len()`, i.e. how many the preview omits.
    pub more: usize,
    pub device_active: bool,
    pub link_up: bool,
}

impl View for PlayerSnapshot {
    type V = SnapshotModel;

    open spec fn view(&self) -> SnapshotModel {
        SnapshotModel {
            now: self.now@,
            queue_len: self.queue_len as nat,
            preview: Seq::new(self.preview@.len(), |i: int| self.preview@[i]@),
            more: self.more as nat,
            device_active: self.device_active,
            link_up: self.link_up,
        }
    }
}

/// How many queue entries [`PlayerSnapshot::preview`] carries.
pub const QUEUE_PREVIEW: usize = 5;

/// Everything that can happen to the player. Command inputs carry their own
/// reply channel; `step` answers them via `Effect::Reply`
/// (`Effect::ReplySnapshot` for `Query`).
#[derive(Debug)]
#[allow(inconsistent_fields)]
pub enum Input {
    Enqueue {
        item: QueueItem,
        pos: EnqueuePos,
        /// Start the queue head right away when nothing holds the turn.
        start_if_idle: bool,
        reply: oneshot::Sender<String>,
    },
    Skip { reply: oneshot::Sender<String> },
    Stop {
        reply: oneshot::Sender<String>,
        /// `true` for a human `/stop`: the bot is in the channel and must
        /// leave it. `false` from the teardown paths, which own the voice
        /// connection's fate themselves.
        leave_voice: bool,
    },
    TogglePause { reply: oneshot::Sender<String> },
    Previous { reply: oneshot::Sender<String> },
    /// A media runner's terminal report, epoch-tagged against stale runners.
    MediaEnded { epoch: u64, outcome: MediaOutcome },
    Transport { gen: u64, ev: TransportEvent },
    LinkUp { gen: u64 },
    LinkDown { gen: u64 },
    /// Fast reconnect in progress: informational, never an armed-clearing
    /// event.
    LinkReconnecting { gen: u64 },
    VoiceReady,
    VoiceLost,
    /// Bare `/play`: the ▶ half of ⏯, refused while something is audible.
    Play { reply: oneshot::Sender<String> },
    /// An explicit human claim on the Connect device (`/login`).
    ActivateDevice,
    /// The history row the shell found for a ⏮, or `None` when there is
    /// nothing further back.
    PreviousResolved { track: Option<PreviousTrack> },
    /// Empty the queue without touching what is currently audible.
    ClearQueue { reply: oneshot::Sender<String> },
    /// The queue as it was when the process last stopped, replayed at boot.
    /// Restoring never starts playback on its own.
    RestoreQueue { items: Vec<QueueItem> },
    Query { reply: oneshot::Sender<PlayerSnapshot> },
    Tick(TimerKind),
}

/// Spirc commands as the core names them.
#[derive(Clone, Debug, PartialEq, Eq)]
pub enum SpircCmd {
    Pause,
    Play,
    Next,
    Previous,
    AddToQueue(SpotifyUri),
    /// Start this uri now, replacing the device's context; only ever issued
    /// while `sp == Idle && device_active`.
    Load(SpotifyUri),
    /// Claim the active-device slot.
    ActivateDevice,
    /// Restore context, position, pause state and the queue after a
    /// reconnect.
    Transfer,
    /// Reopen a context positioned at one of its tracks.
    LoadContext { context_uri: String, track_uri: SpotifyUri, options: PlayOptions },
    /// Give up the active-device slot, pausing.
    Disconnect,
}

/// Commands for the live track handle of the active media item.
#[derive(Clone, Copy, Debug, PartialEq, Eq, Structural)]
pub enum TrackHandleCmd {
    Pause,
    Resume,
}

/// Runner-side gate on a `StartMedia`: the runner spawns immediately and
/// awaits it before feeding audio.
#[derive(Clone, Copy, Debug, PartialEq, Eq, Structural)]
pub enum StartGate {
    Immediate,
    /// Await the actor's notify for the matching `Transport(Paused)`, with a
    /// 500ms fallback (the actor pre-fires when `sp` is already paused).
    AfterSpotifyPauseAck,
}

/// Channel-facing messages; the UI task renders them.
#[derive(Clone, Debug)]
pub enum UiMsg {
    NowPlayingSpotify { uri: SpotifyUri, meta: Option<TrackMeta> },
    NowPlayingMedia { item: QueueItem },
    /// "Spotify is in use on another device — press play to take over."
    TakeoverPrompt,
    Notice(String),
}

impl View for UiMsg {
    type V = UiModel;

    open spec fn view(&self) -> UiModel {
        match *self {
            UiMsg::NowPlayingSpotify { uri, meta } => UiModel::NowPlayingSpotify { uri, meta },
            UiMsg::NowPlayingMedia { item } => UiModel::NowPlayingMedia { item },
            UiMsg::TakeoverPrompt => UiModel::TakeoverPrompt,
            UiMsg::Notice(text) => UiModel::Notice(text@),
        }
    }
}

/// DJ announce requests; the actor drops them when announcements are off.
#[derive(Clone, Debug, PartialEq, Eq)]
pub enum AnnounceKind {
    Track { title: String, artist: String },
}

/// Presence snapshot for the bot's Discord status, Spotify-side only.
#[derive(Clone, Debug, PartialEq, Eq)]
pub enum PresenceState {
    Idle,
    Playing { uri: SpotifyUri, meta: TrackMeta },
    Paused { uri: SpotifyUri, meta: TrackMeta },
}

/// What the actor must do after a `step`. Every effect is a synchronous
/// send or a spawn.
#[derive(Debug)]
pub enum Effect {
    Spirc(SpircCmd),
    StartMedia { item: QueueItem, epoch: u64, gate: StartGate },
    CancelMedia,
    ClearBridge,
    JoinVoice,
    /// A track just became audible: append it to the play history. Emitted
    /// once per airing, alongside the card that announces it.
    RecordAired(AiredTrack),
    /// Leave the voice channel. Only `/stop` asks for this.
    LeaveVoice,
    /// Read the play history for the track aired before `before` (or before
    /// whatever is playing, when `None`) and feed it back as
    /// `Input::PreviousResolved`.
    ResolvePrevious { before: Option<i64> },
    /// Spotify reported a track playing without metadata: resolve it
    /// through the live session and feed the answer back as
    /// `TransportEvent::TrackChanged` (which posts the card).
    ResolveMeta(SpotifyUri),
    TrackHandle(TrackHandleCmd),
    Ui(UiMsg),
    Presence(PresenceState),
    Announce(AnnounceKind),
    /// A timer and the nanoseconds until it fires.
    SetTimer(TimerKind, u64),
    Reply(oneshot::Sender<String>, String),
    /// `Query`'s reply: structured data instead of a formatted string.
    ReplySnapshot(oneshot::Sender<PlayerSnapshot>, PlayerSnapshot),
}

impl View for Effect {
    type V = EffectModel;

    open spec fn view(&self) -> EffectModel {
        match *self {
            Effect::Spirc(cmd) => EffectModel::Spirc(cmd),
            Effect::StartMedia { item, epoch, gate } => EffectModel::StartMedia {
                item,
                epoch,
                gate,
            },
            Effect::CancelMedia => EffectModel::CancelMedia,
            Effect::ClearBridge => EffectModel::ClearBridge,
            Effect::JoinVoice => EffectModel::JoinVoice,
            Effect::RecordAired(track) => EffectModel::RecordAired(track@),
            Effect::LeaveVoice => EffectModel::LeaveVoice,
            Effect::ResolvePrevious { before } => EffectModel::ResolvePrevious { before },
            Effect::ResolveMeta(uri) => EffectModel::ResolveMeta(uri),
            Effect::TrackHandle(cmd) => EffectModel::TrackHandle(cmd),
            Effect::Ui(msg) => EffectModel::Ui(msg@),
            Effect::Presence(p) => EffectModel::Presence(p),
            Effect::Announce(a) => EffectModel::Announce(a),
            Effect::SetTimer(kind, nanos) => EffectModel::SetTimer(kind, nanos),
            Effect::Reply(tx, text) => EffectModel::Reply(tx, text@),
            Effect::ReplySnapshot(tx, snap) => EffectModel::ReplySnapshot(tx, snap@),
        }
    }
}

/// What sits at the head of the queue.
pub enum Head {
    Empty,
    Media,
    Spotify(SpotifyUri),
}

/// Append an effect.
fn emit(fx: &mut Vec<Effect>, e: Effect)
    ensures
        crate::player::model::effects(final(fx)@) == crate::player::model::effects(
            old(fx)@,
        ).push(e@),
{
    fx.push(e);
    proof {
        assert(crate::player::model::effects(fx@) =~= crate::player::model::effects(
            old(fx)@,
        ).push(e@));
    }
}

/// House style for every string handed back to a human. A prefix glyph carries
/// exactly one meaning, and nothing else ever leads a reply: `✅` a thing was
/// done, `➕` added to the queue, `▶`/`⏸`/`⏭`/`⏮`/`⏹` a transport action, `⚠️`
/// (always with the variation selector) something didn't work, `❌` the request
/// was invalid or refused. Commands are backticked (`/login`, `/play`); track
/// and user names are **bold**. Every state gets exactly one phrasing: a missing
/// session always reads ``No Spotify session — run `/login` to connect.``,
/// nothing audible always reads `Nothing is playing right now.`, and every
/// failure names the next action instead of just stating that it failed.
fn reply(fx: &mut Vec<Effect>, tx: oneshot::Sender<String>, text: String)
    ensures
        crate::player::model::effects(final(fx)@) == crate::player::model::effects(
            old(fx)@,
        ).push(EffectModel::Reply(tx, text@)),
{
    emit(fx, Effect::Reply(tx, text));
}

/// A channel notice.
fn notice(fx: &mut Vec<Effect>, text: String)
    ensures
        crate::player::model::effects(final(fx)@) == crate::player::model::effects(
            old(fx)@,
        ).push(EffectModel::Ui(UiModel::Notice(text@))),
{
    emit(fx, Effect::Ui(UiMsg::Notice(text)));
}

/// What sits at the head of the queue, with a Spotify head's uri cloned out
/// so callers can mutate the queue afterwards.
pub fn head_of(queue: &PriorityQueue) -> (r: Head)
    ensures
        r == (if queue@.items.len() == 0 {
            Head::Empty
        } else {
            match queue@.items[0].source {
                MediaSource::Spotify { uri, .. } => Head::Spotify(uri),
                _ => Head::Media,
            }
        }),
{
    match queue.peek() {
        None => Head::Empty,
        Some(item) => match &item.source {
            MediaSource::Spotify { uri, .. } => Head::Spotify(uri.clone()),
            _ => Head::Media,
        },
    }
}

/// The title of the queue head.
fn head_title(queue: &PriorityQueue) -> (r: String)
    requires
        queue@.items.len() > 0,
    ensures
        r@ == queue@.items[0].source.title(),
{
    match queue.peek() {
        Some(item) => item.source.display_title().to_owned(),
        None => String::new(),
    }
}

/// The first Spotify item anywhere in the queue (arming looks past media
/// heads on purpose).
pub fn first_spotify(queue: &PriorityQueue) -> (r: Option<(u64, SpotifyUri)>)
    ensures
        ({
            let k = crate::queue::first_index(
                queue@.items,
                crate::player::model::spotify_requests(),
            );
            match r {
                Some((item_id, uri)) => {
                    &&& 0 <= k < queue@.items.len()
                    &&& item_id == queue@.items[k].item_id
                    &&& queue@.items[k].source matches MediaSource::Spotify { uri: u, .. }
                    &&& u == uri
                },
                None => k >= queue@.items.len(),
            }
        }),
{
    let ghost p = crate::player::model::spotify_requests();
    proof {
        crate::queue::lemma_first_index(queue@.items, p);
    }
    let wanted = |i: &QueueItem| -> (b: bool)
        ensures
            b == (i.source is Spotify),
    { i.is_spotify() };
    let found = queue.find_first(wanted);
    match found {
        Some(item) => {
            proof {
                let items = queue@.items;
                let k = choose|k: int|
                    0 <= k < items.len() && *item == #[trigger] items[k] && items[k].source is Spotify
                        && forall|j: int| 0 <= j < k ==> !(#[trigger] items[j].source is Spotify);
                crate::queue::lemma_first_index_unique(items, p, k);
            }
            match &item.source {
                MediaSource::Spotify { uri, .. } => Some((item.item_id, uri.clone())),
                _ => None,
            }
        },
        None => None,
    }
}

/// Take the first request for `uri` out of the queue.
fn take_request(queue: &mut PriorityQueue, uri: &SpotifyUri) -> (r: Option<QueueItem>)
    requires
        old(queue).wf(),
    ensures
        final(queue).wf(),
        ({
            let k = crate::queue::first_index(
                old(queue)@.items,
                crate::player::model::requests_of(*uri),
            );
            &&& final(queue)@ == old(queue)@.without(k)
            &&& r == (if k < old(queue)@.items.len() {
                Some(old(queue)@.items[k])
            } else {
                None
            })
        }),
{
    let ghost items = queue@.items;
    let ghost p = crate::player::model::requests_of(*uri);
    proof {
        crate::queue::lemma_first_index(items, p);
    }
    let wanted = |i: &QueueItem| -> (b: bool)
        ensures
            b == (i.spotify_uri() == Some(uri@)),
    { i.requests(uri) };
    let r = queue.remove_first(wanted);
    proof {
        if r is Some {
            let k = choose|k: int|
                0 <= k < items.len() && r->0 == #[trigger] items[k] && p(items[k]) && (forall|j: int|
                    0 <= j < k ==> !p(#[trigger] items[j])) && queue@ == old(queue)@.without(k);
            crate::queue::lemma_first_index_unique(items, p, k);
        }
    }
    r
}

/// A copy of the first request for `uri`.
fn copy_request(queue: &PriorityQueue, uri: &SpotifyUri) -> (r: Option<QueueItem>)
    ensures
        ({
            let k = crate::queue::first_index(
                queue@.items,
                crate::player::model::requests_of(*uri),
            );
            r == (if k < queue@.items.len() {
                Some(queue@.items[k])
            } else {
                None
            })
        }),
{
    let ghost items = queue@.items;
    let ghost p = crate::player::model::requests_of(*uri);
    proof {
        crate::queue::lemma_first_index(items, p);
    }
    let wanted = |i: &QueueItem| -> (b: bool)
        ensures
            b == (i.spotify_uri() == Some(uri@)),
    { i.requests(uri) };
    let found = queue.find_first(wanted);
    match found {
        Some(item) => {
            proof {
                let k = choose|k: int|
                    0 <= k < items.len() && *item == #[trigger] items[k] && p(items[k]) && forall|j: int|
                        0 <= j < k ==> !p(#[trigger] items[j]);
                crate::queue::lemma_first_index_unique(items, p, k);
            }
            Some(item.clone())
        },
        None => None,
    }
}

/// Whether a queued item carries this id.
fn queues_id(queue: &PriorityQueue, item_id: u64) -> (r: bool)
    ensures
        r == (exists|k: int|
            0 <= k < queue@.items.len() && (#[trigger] queue@.items[k]).item_id == item_id),
{
    let wanted = |i: &QueueItem| -> (b: bool)
        ensures
            b == (i.item_id == item_id),
    { i.item_id == item_id };
    queue.find_first(wanted).is_some()
}

/// Bring the voice connection up for audio that is about to exist.
/// Idempotent. Spotify audio needs this exactly as much as a media item
/// does: it reaches Discord through the same bridge, and the bridge is only
/// drained by a live call.
pub fn ensure_voice(state: &mut PlayerState, fx: &mut Vec<Effect>)
    ensures
        Run::of(*final(state), final(fx)@) == Run::of(*old(state), old(fx)@).ensure_voice(),
{
    match state.voice {
        VoiceStatus::Ready => {},
        VoiceStatus::Joining => {},
        VoiceStatus::Down => {
            emit(fx, Effect::JoinVoice);
            state.voice = VoiceStatus::Joining;
        },
    }
}

/// What a history row names a media item by.
fn source_ref(source: &MediaSource) -> (r: String)
    ensures
        r@ == crate::player::model::source_ref(*source),
{
    match source {
        MediaSource::YouTube { url, .. } => url.clone(),
        MediaSource::File { attachment_url, .. } => attachment_url.clone(),
        MediaSource::Spotify { uri, .. } => uri.to_uri(),
    }
}

/// Hand the turn to a media item: bump the epoch, make sure voice is coming
/// up, and emit the gated start plus its card.
pub fn start_media(
    state: &mut PlayerState,
    item: QueueItem,
    gate: StartGate,
    fx: &mut Vec<Effect>,
)
    requires
        old(state).media_epoch < u64::MAX,
    ensures
        Run::of(*final(state), final(fx)@) == Run::of(*old(state), old(fx)@).start_media(
            item,
            gate,
        ),
{
    state.media_epoch = state.media_epoch + 1;
    // The media card replaces whatever was up: the next Spotify `Playing`
    // is new to the card even if it's the same track as before.
    state.last_heard_track = None;
    ensure_voice(state, fx);
    emit(fx, Effect::StartMedia { item: item.clone(), epoch: state.media_epoch, gate });
    emit(fx, Effect::Ui(UiMsg::NowPlayingMedia { item: item.clone() }));
    emit(
        fx,
        Effect::RecordAired(
            AiredTrack {
                source: AiredSource::Request,
                track_ref: source_ref(&item.source),
                context_uri: None,
                title: Some(item.source.display_title().to_owned()),
                artist: Some(item.source.display_subtitle()),
                queued_by: Some(item.queued_by.clone()),
                queued_by_id: Some(decimal_text(item.queued_by_id)),
            },
        ),
    );
    state.active = Active::Media { item, paused: false, epoch: state.media_epoch };
}

/// Take the head off the queue and hand it the turn.
fn start_head(state: &mut PlayerState, gate: StartGate, fx: &mut Vec<Effect>)
    requires
        old(state).wf(),
        old(state)@.queue.items.len() > 0,
        old(state).media_epoch < u64::MAX,
    ensures
        final(state).wf(),
        Run::of(*final(state), final(fx)@) == Run::of(*old(state), old(fx)@).start_head(gate),
{
    if let Some(item) = state.queue.pop() {
        start_media(state, item, gate, fx);
    }
}

/// Take the turn with a `Load`: only ever called while `sp == Idle &&
/// device_active` (a load destroys the DJ's context otherwise). Sets up the
/// pending state and its escape-hatch timer.
fn begin_load(state: &mut PlayerState, uri: SpotifyUri, now: u64, fx: &mut Vec<Effect>)
    requires
        old(state).sp is Idle,
        old(state).device_active,
    ensures
        Run::of(*final(state), final(fx)@) == Run::of(*old(state), old(fx)@).begin_load(uri, now),
{
    ensure_voice(state, fx);
    state.pause_owner = None;
    // A `Load` replaces the device's context, so the name we are holding is
    // stale the moment it is sent.
    state.context_uri = None;
    state.active = Active::SpotifyPending { uri: uri.clone(), sent: now, retried: false };
    emit(fx, Effect::Spirc(SpircCmd::Load(uri)));
    emit(fx, Effect::SetTimer(TimerKind::SpotifyPending, PENDING_TIMEOUT));
}

/// Make this the active Connect device.
fn activate(state: &mut PlayerState, fx: &mut Vec<Effect>)
    ensures
        Run::of(*final(state), final(fx)@) == Run::of(*old(state), old(fx)@).activated(),
{
    emit(fx, Effect::Spirc(SpircCmd::ActivateDevice));
    state.device_active = true;
    if matches!(state.sp, SpDevice::Inactive) {
        // A session that never loaded anything has no transport state to
        // report; once activated it is an idle device, the one state a
        // Spotify head may be loaded onto.
        state.sp = SpDevice::Idle;
    }
}

/// A Spotify request reaching its turn claims the Connect device: queuing
/// the track *was* the request to hear it here. Returns `false` when there
/// is no session to claim through.
fn claim_device(state: &mut PlayerState, fx: &mut Vec<Effect>) -> (r: bool)
    ensures
        r == Run::of(*old(state), old(fx)@).claimable(),
        r ==> final(state).device_active,
        Run::of(*final(state), final(fx)@) == Run::of(*old(state), old(fx)@).claim_device(),
{
    if state.device_active {
        return true;
    }
    if !state.link_up {
        return false;
    }
    activate(state, fx);
    true
}

/// Whether the device has a context it is playing from.
fn has_context(sp: &SpDevice) -> (r: bool)
    ensures
        r == (sp is Playing || sp is Paused || sp is Boundary),
{
    matches!(sp, SpDevice::Playing(_) | SpDevice::Paused(_) | SpDevice::Boundary)
}

/// Whether Spotify holds the turn, or is about to.
fn spotify_turn(active: &Active) -> (r: bool)
    ensures
        r == (active is Spotify || active is SpotifyPending),
{
    matches!(active, Active::Spotify { .. } | Active::SpotifyPending { .. })
}

/// Arm exactly one track: when nothing is armed, this device is active, the
/// baseline has a context and the queue holds a Spotify item anywhere, queue
/// the first such item behind the current context. No-op while a load is
/// pending (arming the pending uri would double it).
pub fn maybe_arm(state: &mut PlayerState, now: u64, fx: &mut Vec<Effect>)
    ensures
        Run::of(*final(state), final(fx)@) == Run::of(*old(state), old(fx)@).maybe_arm(now),
{
    if state.armed.is_some() || !state.device_active {
        return;
    }
    if matches!(state.active, Active::SpotifyPending { .. }) {
        return;
    }
    if !has_context(&state.sp) {
        return;
    }
    if let Some((item_id, uri)) = first_spotify(&state.queue) {
        state.armed = Some(Armed { item_id, uri: uri.clone(), ack: Ack::Sent(now) });
        emit(fx, Effect::Spirc(SpircCmd::AddToQueue(uri)));
        emit(fx, Effect::SetTimer(TimerKind::ArmAck, ARM_ACK_TIMEOUT));
    }
}

/// Ask Spotify to pause, remembering that we asked.
fn send_pause(state: &mut PlayerState, now: u64, fx: &mut Vec<Effect>)
    ensures
        Run::of(*final(state), final(fx)@) == Run::of(*old(state), old(fx)@).pause(now),
{
    emit(fx, Effect::Spirc(SpircCmd::Pause));
    state.inflight.record_pause(now);
}

/// What a media start waits on.
fn start_gate(after_pause: bool) -> (r: StartGate)
    ensures
        r == Run::gate(after_pause),
{
    if after_pause {
        StartGate::AfterSpotifyPauseAck
    } else {
        StartGate::Immediate
    }
}

/// Start the queue head on a silent player; returns the title of what
/// started.
fn start_silent(state: &mut PlayerState, now: u64, fx: &mut Vec<Effect>) -> (r: Option<String>)
    requires
        old(state).wf(),
        old(state).media_epoch < u64::MAX,
    ensures
        final(state).wf(),
        crate::text::text_of(r) == Run::of(*old(state), old(fx)@).started_title(),
        Run::of(*final(state), final(fx)@) == Run::of(*old(state), old(fx)@).start_silent(now),
{
    proof {
        reveal(Run::start_silent);
    }
    match head_of(&state.queue) {
        Head::Media => {
            // Nothing holds the turn but the baseline may still be audible
            // (e.g. post-stop race): pause it before the media item takes
            // over.
            let pausing = state.device_active && matches!(state.sp, SpDevice::Playing(_));
            if pausing {
                send_pause(state, now, fx);
                state.pause_owner = Some(PauseOwner::BotForMedia);
                emit(fx, Effect::ClearBridge);
            }
            let title = head_title(&state.queue);
            start_head(state, start_gate(pausing), fx);
            Some(title)
        },
        Head::Spotify(uri) => {
            if !claim_device(state, fx) {
                // No session to play through: a link that just died.
                emit(fx, Effect::Ui(UiMsg::TakeoverPrompt));
                None
            } else if matches!(state.sp, SpDevice::Idle) {
                let title = head_title(&state.queue);
                begin_load(state, uri, now, fx);
                Some(title)
            } else {
                // Paused/Boundary/Playing: arming covers it; an enqueue
                // never unpauses the baseline.
                None
            }
        },
        Head::Empty => None,
    }
}

/// Add a request to the queue, and start the head when asked to and nothing
/// holds the turn.
fn enqueue(
    state: &mut PlayerState,
    item: QueueItem,
    pos: EnqueuePos,
    start_if_idle: bool,
    tx: oneshot::Sender<String>,
    now: u64,
    fx: &mut Vec<Effect>,
)
    requires
        old(state).wf(),
        old(state)@.room(),
    ensures
        final(state).wf(),
        Run::of(*final(state), final(fx)@) == Run::of(*old(state), old(fx)@).enqueue(
            item,
            pos,
            start_if_idle,
            tx,
            now,
        ),
{
    proof {
        reveal(Run::enqueue);
    }
    let queued_title = item.source.display_title().to_owned();
    let accepted = match pos {
        EnqueuePos::Tail => state.queue.push(item),
        EnqueuePos::Head => state.queue.push_front(item),
        EnqueuePos::At(idx) => state.queue.insert(idx, item),
    };
    if !accepted {
        reply(
            fx,
            tx,
            cat3(
                "⚠️ Queue is full (",
                &decimal_text(500),
                " items) — try again once some have played.",
            ),
        );
        return;
    }
    let queue_len_after_push: usize = state.queue.len();
    let starting = start_if_idle && matches!(state.active, Active::Nobody);
    let started_title = if starting {
        start_silent(state, now, fx)
    } else {
        None
    };
    maybe_arm(state, now, fx);
    let text = match started_title {
        Some(t) => {
            if t == queued_title {
                "▶ Playing now".to_owned()
            } else {
                cat3("➕ Queued. **", &t, "** is starting first.")
            }
        },
        None => {
            if matches!(pos, EnqueuePos::Head) {
                "➕ Playing next".to_owned()
            } else if !matches!(state.active, Active::Nobody) {
                cat("➕ Added to queue #", &decimal_text(queue_len_after_push as u64))
            } else {
                "➕ Queued. Nothing is playing right now — press ▶ or use `/play` to start.".to_owned()
            }
        },
    };
    reply(fx, tx, text);
}

/// Empty the queue and nothing else: whatever is audible keeps playing.
fn clear_queue(state: &mut PlayerState, tx: oneshot::Sender<String>, fx: &mut Vec<Effect>)
    requires
        old(state).wf(),
    ensures
        final(state).wf(),
        Run::of(*final(state), final(fx)@) == Run::of(*old(state), old(fx)@).clear_queue(tx),
{
    proof {
        reveal(Run::clear_queue);
    }
    let cleared: usize = state.queue.len();
    let orphaned = state.armed.is_some();
    state.armed = None;
    state.armed_snapshot = None;
    state.queue.clear();
    let text = if cleared == 0 {
        "The queue is already empty.".to_owned()
    } else if !orphaned {
        cat3("✅ Cleared ", &decimal_text(cleared as u64), " queued track(s).")
    } else {
        // Librespot has no dequeue, so an armed track cannot be withdrawn:
        // it may still air once when Spotify advances.
        cat3(
            "✅ Cleared ",
            &decimal_text(cleared as u64),
            " queued track(s). (a track already handed to Spotify will still play once)",
        )
    };
    reply(fx, tx, text);
}

/// Put the items of the last process back, in order, as far as they fit.
fn refill(queue: &mut PriorityQueue, items: Vec<QueueItem>)
    requires
        old(queue).wf(),
        old(queue)@.last_id + crate::queue::MAX_QUEUE_LEN <= u64::MAX,
    ensures
        final(queue).wf(),
        final(queue)@ == Run::restored(old(queue)@, items@),
{
    let mut k: usize = 0;
    assert(queue@.items =~= Run::restored(old(queue)@, items@.take(0)).items);
    while k < items.len() && queue.len() < crate::queue::MAX_QUEUE_LEN
        invariant
            k <= items@.len(),
            queue.wf(),
            old(queue)@.last_id + crate::queue::MAX_QUEUE_LEN <= u64::MAX,
            old(queue)@.items.len() + k <= crate::queue::MAX_QUEUE_LEN,
            queue@ == Run::restored(old(queue)@, items@.take(k as int)),
        decreases items@.len() - k,
    {
        // `push` stamps a fresh item_id: a restored item is a new residency,
        // not a resurrected one.
        let ghost before = queue@;
        let _ = queue.push(items[k].clone());
        proof {
            assert(queue@.items =~= Run::restored(old(queue)@, items@.take(k + 1)).items);
        }
        k += 1;
    }
    proof {
        assert(queue@.items =~= Run::restored(old(queue)@, items@).items);
    }
}

/// Restore the queue at boot, onto an untouched queue only: anything already
/// queued was added by someone present just now. Deliberately no playback.
fn restore_queue(state: &mut PlayerState, items: Vec<QueueItem>, now: u64, fx: &mut Vec<Effect>)
    requires
        old(state).wf(),
        old(state)@.room(),
    ensures
        final(state).wf(),
        Run::of(*final(state), final(fx)@) == Run::of(*old(state), old(fx)@).restore_queue(
            items@,
            now,
        ),
{
    proof {
        reveal(Run::restore_queue);
    }
    if !state.queue.is_empty() {
        return;
    }
    refill(&mut state.queue, items);
    maybe_arm(state, now, fx);
}

/// Step Spotify past its current track. A user-initiated advance always
/// emits an audibility command; `Next` alone keeps pause state.
fn advance(state: &mut PlayerState, fx: &mut Vec<Effect>)
    ensures
        Run::of(*final(state), final(fx)@) == Run::of(*old(state), old(fx)@).advance(),
{
    emit(fx, Effect::Spirc(SpircCmd::Next));
    if matches!(state.sp, SpDevice::Paused(_)) {
        emit(fx, Effect::Spirc(SpircCmd::Play));
    }
    if matches!(state.sp, SpDevice::Playing(_)) {
        emit(fx, Effect::ClearBridge);
    }
    state.pause_owner = None;
}

/// A human skip.
fn skip(state: &mut PlayerState, tx: oneshot::Sender<String>, now: u64, fx: &mut Vec<Effect>)
    requires
        old(state).wf(),
        old(state)@.room(),
    ensures
        final(state).wf(),
        Run::of(*final(state), final(fx)@) == Run::of(*old(state), old(fx)@).skip(tx, now),
{
    proof {
        reveal(Run::skip);
    }
    if matches!(state.active, Active::Media { .. }) {
        // A media skip cancels only; the next start comes from
        // `MediaEnded{epoch, Cancelled}`: feeder cancellation is
        // asynchronous, and an immediate start would let the old feeder's
        // tail bleed into the new item.
        emit(fx, Effect::CancelMedia);
        emit(fx, Effect::ClearBridge);
        // A human skip is an explicit advance: whatever paused the baseline,
        // the next thing plays. The bot owns the pause from here, so the
        // post-media boundary resumes instead of honouring it.
        if state.device_active && matches!(state.sp, SpDevice::Paused(_) | SpDevice::Boundary) {
            state.pause_owner = Some(PauseOwner::BotForMedia);
        }
        reply(fx, tx, "⏭ Skipped.".to_owned());
        return;
    }
    match head_of(&state.queue) {
        Head::Media => {
            // pause(); next() is a silent advance: the skipped track loads
            // paused at 0:00, so exactly one Spotify track is consumed and
            // the resume after the media item is deterministic.
            let pausing = state.device_active && has_context(&state.sp);
            if pausing {
                send_pause(state, now, fx);
                emit(fx, Effect::Spirc(SpircCmd::Next));
                // The bot owns the pause now even if a human paused first.
                state.pause_owner = Some(PauseOwner::BotForMedia);
            }
            emit(fx, Effect::ClearBridge);
            start_head(state, start_gate(pausing), fx);
            reply(fx, tx, "⏭ Skipped.".to_owned());
        },
        Head::Spotify(uri) => {
            if !claim_device(state, fx) {
                reply(
                    fx,
                    tx,
                    "No Spotify session — run `/login` to connect.".to_owned(),
                );
                return;
            }
            if matches!(state.sp, SpDevice::Idle) {
                begin_load(state, uri, now, fx);
                reply(fx, tx, "⏭ Skipped.".to_owned());
                return;
            }
            // Queue the head behind the current context if it isn't armed
            // yet, then advance onto it.
            maybe_arm(state, now, fx);
            advance(state, fx);
            state.active = Active::SpotifyPending { uri, sent: now, retried: false };
            emit(fx, Effect::SetTimer(TimerKind::SpotifyPending, PENDING_TIMEOUT));
            reply(fx, tx, "⏭ Skipped.".to_owned());
        },
        Head::Empty => {
            if state.device_active && has_context(&state.sp) {
                advance(state, fx);
                reply(fx, tx, "⏭ Skipped.".to_owned());
            } else {
                reply(fx, tx, "Nothing is playing right now.".to_owned());
            }
        },
    }
}

/// Stop is stop: the bot goes quiet and leaves the channel. It keeps the
/// queue and never touches the Spotify session or the account.
fn stop(
    state: &mut PlayerState,
    tx: oneshot::Sender<String>,
    leave_voice: bool,
    now: u64,
    fx: &mut Vec<Effect>,
)
    requires
        old(state).wf(),
    ensures
        final(state).wf(),
        Run::of(*final(state), final(fx)@) == Run::of(*old(state), old(fx)@).stop(
            tx,
            leave_voice,
            now,
        ),
{
    proof {
        reveal(Run::stop);
    }
    if matches!(state.active, Active::Media { .. }) {
        emit(fx, Effect::CancelMedia);
    }
    state.armed_snapshot = None;
    // A jump still resolving is abandoned along with everything else, and a
    // request whose airing was being held will never air now.
    state.awaiting_jump = None;
    state.history_cursor = None;
    state.pending_request = None;
    // The card is gone, so the next airing is new even if it is the same
    // track.
    state.last_heard_track = None;
    // Audibility, not the turn: Spotify reaches the bridge whenever no media
    // item holds it.
    if state.device_active {
        if matches!(state.sp, SpDevice::Playing(_)) {
            state.inflight.record_pause(now);
        }
        emit(fx, Effect::Spirc(SpircCmd::Disconnect));
        state.device_active = false;
        // `Disconnect` resets librespot's device state, queue included, so a
        // surviving arm is a ghost. With no `Disconnect` sent the track
        // really is still in Spotify's queue, and dropping the arm would let
        // `maybe_arm` queue it a second time.
        state.armed = None;
        // The device is released, so the mirror must not go on claiming it
        // is playing.
        state.sp = SpDevice::Inactive;
    }
    emit(fx, Effect::ClearBridge);
    // A teardown reacting to a force disconnect has no echo of a leave
    // coming, so it must not ask for one.
    if leave_voice {
        emit(fx, Effect::LeaveVoice);
    }
    state.active = Active::Nobody;
    state.voice = VoiceStatus::Down;
    state.pause_owner = None;
    emit(fx, Effect::Presence(PresenceState::Idle));
    let queued: usize = state.queue.len();
    let text = if queued == 0 {
        "⏹ Stopped and left the channel.".to_owned()
    } else {
        cat3(
            "⏹ Stopped and left the channel. ",
            &decimal_text(queued as u64),
            " queued track(s) kept — use `/clear` to drop them.",
        )
    };
    reply(fx, tx, text);
}

/// Resume the baseline from its context.
fn resume_baseline(state: &mut PlayerState, fx: &mut Vec<Effect>)
    ensures
        Run::of(*final(state), final(fx)@) == Run::of(*old(state), old(fx)@).resume_baseline(),
{
    ensure_voice(state, fx);
    emit(fx, Effect::Spirc(SpircCmd::Play));
    state.pause_owner = None;
    state.active = Active::Spotify { track: None };
}

/// Explicit human play is the takeover gesture. Optimistically flips
/// `device_active`; gen-tagged telemetry corrects us if the claim failed.
/// Claiming the device is a claim on the bot, so it joins the channel now.
fn take_over(state: &mut PlayerState, tx: oneshot::Sender<String>, now: u64, fx: &mut Vec<Effect>)
    requires
        old(state).wf(),
        old(state)@.room(),
    ensures
        final(state).wf(),
        Run::of(*final(state), final(fx)@) == Run::of(*old(state), old(fx)@).take_over(tx, now),
{
    proof {
        reveal(Run::take_over);
    }
    activate(state, fx);
    ensure_voice(state, fx);
    match head_of(&state.queue) {
        Head::Media => {
            let title = head_title(&state.queue);
            start_head(state, StartGate::Immediate, fx);
            reply(
                fx,
                tx,
                cat3("▶ Taking over the Spotify device — starting **", &title, "**."),
            );
        },
        Head::Spotify(uri) => {
            if matches!(state.sp, SpDevice::Idle) {
                let title = head_title(&state.queue);
                begin_load(state, uri, now, fx);
                reply(
                    fx,
                    tx,
                    cat3("▶ Taking over the Spotify device — starting **", &title, "**."),
                );
            } else {
                reply(fx, tx, "▶ Taking over the Spotify device.".to_owned());
            }
        },
        Head::Empty => reply(fx, tx, "▶ Taking over the Spotify device.".to_owned()),
    }
}

/// ⏯: pause what is audible, else play.
fn toggle_pause(
    state: &mut PlayerState,
    tx: oneshot::Sender<String>,
    now: u64,
    fx: &mut Vec<Effect>,
)
    requires
        old(state).wf(),
        old(state)@.room(),
    ensures
        final(state).wf(),
        Run::of(*final(state), final(fx)@) == Run::of(*old(state), old(fx)@).toggle_pause(tx, now),
{
    proof {
        reveal(Run::toggle_pause);
    }
    if let Active::Media { paused, .. } = &mut state.active {
        *paused = !*paused;
        let now_paused = *paused;
        if now_paused {
            emit(fx, Effect::TrackHandle(TrackHandleCmd::Pause));
            reply(fx, tx, "⏸ Paused".to_owned());
        } else {
            emit(fx, Effect::TrackHandle(TrackHandleCmd::Resume));
            reply(fx, tx, "▶ Resumed".to_owned());
        }
        return;
    }
    if matches!(state.sp, SpDevice::Playing(_)) {
        send_pause(state, now, fx);
        state.pause_owner = Some(PauseOwner::Human);
        reply(fx, tx, "⏸ Paused".to_owned());
        return;
    }
    // The ▶ half: nothing is audible.
    if !state.device_active {
        take_over(state, tx, now, fx);
        return;
    }
    match head_of(&state.queue) {
        Head::Media => {
            // The head airs; a pre-existing pause keeps its owner, so a
            // phone pause still blocks the auto-resume afterwards.
            let advancing = matches!(state.sp, SpDevice::Boundary);
            if advancing {
                send_pause(state, now, fx);
                state.pause_owner = Some(PauseOwner::BotForMedia);
            }
            start_head(state, start_gate(advancing), fx);
            reply(fx, tx, "▶ Playing now".to_owned());
        },
        Head::Spotify(uri) => {
            if matches!(state.sp, SpDevice::Idle) {
                begin_load(state, uri, now, fx);
                reply(fx, tx, "▶ Playing now".to_owned());
            } else {
                // Never Load over a paused baseline: arm the head and
                // resume; auto-advance airs it at the boundary.
                maybe_arm(state, now, fx);
                resume_baseline(state, fx);
                reply(fx, tx, "▶ Resumed".to_owned());
            }
        },
        Head::Empty => {
            if matches!(state.sp, SpDevice::Paused(_) | SpDevice::Boundary) {
                resume_baseline(state, fx);
                reply(fx, tx, "▶ Resumed".to_owned());
            } else {
                reply(fx, tx, "Nothing is playing right now.".to_owned());
            }
        },
    }
}

/// The ▶ half only: never pauses. With something audible it asks for a link
/// instead; otherwise it is exactly ⏯.
fn play(state: &mut PlayerState, tx: oneshot::Sender<String>, now: u64, fx: &mut Vec<Effect>)
    requires
        old(state).wf(),
        old(state)@.room(),
    ensures
        final(state).wf(),
        Run::of(*final(state), final(fx)@) == Run::of(*old(state), old(fx)@).play(tx, now),
{
    proof {
        reveal(Run::play);
    }
    let audible = match &state.active {
        Active::Media { paused, .. } => !*paused,
        _ => matches!(state.sp, SpDevice::Playing(_)),
    };
    if audible {
        reply(
            fx,
            tx,
            "❌ Something is already playing — give `/play` a link or file, or use ⏯ to pause.".to_owned(),
        );
        return;
    }
    toggle_pause(state, tx, now, fx);
}

/// ⏮: our own history decides what "previous" means, not Spotify's. The
/// answer comes back as `PreviousResolved`.
fn previous(state: &mut PlayerState, tx: oneshot::Sender<String>, fx: &mut Vec<Effect>)
    ensures
        final(state)@.queue == old(state)@.queue,
        Run::of(*final(state), final(fx)@) == Run::of(*old(state), old(fx)@).previous(tx),
{
    proof {
        reveal(Run::previous);
    }
    if matches!(state.active, Active::Media { .. }) {
        reply(fx, tx, "❌ Previous isn't available during queue playback.".to_owned());
    } else if state.device_active && has_context(&state.sp) {
        if state.pending_reply.is_some() {
            // A ⏮ is already being resolved; answering this one separately
            // would walk back twice for one intent.
            reply(fx, tx, "⏮ Already going back — one moment.".to_owned());
        } else {
            emit(fx, Effect::ResolvePrevious { before: state.history_cursor });
            state.pending_reply = Some(tx);
        }
    } else {
        reply(fx, tx, "Nothing is playing right now.".to_owned());
    }
}

/// The history row for a ⏮ has been read.
fn previous_resolved(state: &mut PlayerState, track: Option<PreviousTrack>, fx: &mut Vec<Effect>)
    ensures
        final(state)@.queue == old(state)@.queue,
        Run::of(*final(state), final(fx)@) == Run::of(*old(state), old(fx)@).previous_resolved(
            track,
        ),
{
    proof {
        reveal(Run::previous_resolved);
    }
    match state.pending_reply.take() {
        None => {
            // The reply channel is gone; resolving twice is harmless,
            // answering twice is not.
        },
        Some(tx) => {
            // The read is asynchronous, so the world may have moved on: a
            // `/stop` in the meantime released the device.
            if !state.device_active {
                reply(fx, tx, "Nothing is playing right now.".to_owned());
                return;
            }
            match track {
                // A track we heard, and we know the context it came from:
                // reopen the playlist positioned there.
                Some(PreviousTrack { id, uri, context_uri: Some(context_uri) }) => {
                    state.history_cursor = Some(id);
                    state.awaiting_jump = Some(PendingJump::Context(uri.clone()));
                    emit(
                        fx,
                        Effect::Spirc(
                            SpircCmd::LoadContext {
                                context_uri,
                                track_uri: uri,
                                options: state.play_options,
                            },
                        ),
                    );
                    reply(fx, tx, "⏮ Previous track.".to_owned());
                },
                // Heard, but with no context to reopen: Spotify's own
                // history is the only honest fallback. The cursor rides on
                // the jump; the arrival decides whether it moved.
                Some(PreviousTrack { id, .. }) => {
                    state.awaiting_jump = Some(PendingJump::Previous { cursor: id });
                    emit(fx, Effect::Spirc(SpircCmd::Previous));
                    reply(fx, tx, "⏮ Previous track.".to_owned());
                },
                None => {
                    reply(
                        fx,
                        tx,
                        "❌ Nothing further back — this is the earliest track I have a record of.".to_owned(),
                    );
                },
            }
        },
    }
}

/// What is audible, for a query.
fn now_playing(state: &PlayerState) -> (r: NowPlaying)
    ensures
        r@ == state@.now_playing(),
{
    match &state.active {
        Active::Media { item, paused, .. } => NowPlaying::Media {
            title: item.source.display_title().to_owned(),
            subtitle: item.source.display_subtitle(),
            queued_by: item.queued_by.clone(),
            paused: *paused,
        },
        Active::Spotify { track: Some(m) } => NowPlaying::Spotify {
            title: m.title.clone(),
            artist: m.artist.clone(),
            paused: matches!(state.sp, SpDevice::Paused(_)),
        },
        Active::Spotify { track: None } => NowPlaying::SpotifyStarting,
        Active::SpotifyPending { .. } => NowPlaying::SpotifyStarting,
        Active::Nobody => NowPlaying::Nothing,
    }
}

/// Answer a query.
fn snapshot(state: &PlayerState) -> (r: PlayerSnapshot)
    ensures
        r@ == state@.snapshot(),
{
    let items = state.queue.snapshot();
    let queue_len: usize = items.len();
    let mut preview: Vec<QueueEntry> = Vec::new();
    let mut i: usize = 0;
    while i < items.len() && i < QUEUE_PREVIEW
        invariant
            i <= items@.len(),
            i <= QUEUE_PREVIEW,
            items@ == state@.queue.items,
            preview@.len() == i,
            forall|j: int|
                0 <= j < i ==> (#[trigger] preview@[j])@ == state@.entry(state@.queue.items[j]),
        decreases items@.len() - i,
    {
        let item = &items[i];
        let armed = match &state.armed {
            Some(a) => a.item_id == item.item_id,
            None => false,
        };
        preview.push(
            QueueEntry {
                item_id: item.item_id,
                title: item.source.display_title().to_owned(),
                subtitle: item.source.display_subtitle(),
                duration: item.source.display_duration(),
                queued_by: item.queued_by.clone(),
                armed,
            },
        );
        i += 1;
    }
    let r = PlayerSnapshot {
        now: now_playing(state),
        queue_len,
        more: queue_len - i,
        preview,
        device_active: state.device_active,
        link_up: state.link_up,
    };
    proof {
        assert(r@.preview =~= state@.snapshot().preview);
    }
    r
}

/// The boundary decision after a media item finished or was cancelled:
/// decide who plays next, honouring `pause_owner`.
pub fn after_media_boundary(state: &mut PlayerState, now: u64, fx: &mut Vec<Effect>)
    requires
        old(state).wf(),
        old(state)@.room(),
    ensures
        final(state).wf(),
        Run::of(*final(state), final(fx)@) == Run::of(*old(state), old(fx)@).after_media(now),
{
    proof {
        reveal(Run::after_media);
    }
    match head_of(&state.queue) {
        Head::Media => {
            // Media to media: the baseline stays paused (owner unchanged);
            // no bridge clear, so the finished item's tail plays out.
            start_head(state, StartGate::Immediate, fx);
            maybe_arm(state, now, fx);
        },
        Head::Spotify(uri) => {
            if !claim_device(state, fx) {
                // Nobody to talk to (link down). Keep `pause_owner`: LinkUp
                // reconciliation pays the resume debt.
                state.active = Active::Nobody;
                return;
            }
            if matches!(state.sp, SpDevice::Idle) {
                // No context to lose: the only situation a load is allowed.
                begin_load(state, uri, now, fx);
                return;
            }
            maybe_arm(state, now, fx);
            match state.pause_owner {
                Some(PauseOwner::BotForMedia) => {
                    // The bot paused it for the media item, so the bot
                    // resumes. If what's cued on the device isn't the head
                    // and the head is confirmed in Spotify's queue, advance
                    // onto it instead: the request plays before the context.
                    let cued_is_head = match &state.sp {
                        SpDevice::Paused(u) => u.same(&uri),
                        SpDevice::Playing(u) => u.same(&uri),
                        _ => false,
                    };
                    let head_confirmed = match &state.armed {
                        Some(a) => a.uri.same(&uri) && matches!(a.ack, Ack::Confirmed),
                        None => false,
                    };
                    state.pause_owner = None;
                    if !cued_is_head && head_confirmed {
                        emit(fx, Effect::Spirc(SpircCmd::Next));
                        emit(fx, Effect::Spirc(SpircCmd::Play));
                        state.active = Active::SpotifyPending { uri, sent: now, retried: false };
                        emit(fx, Effect::SetTimer(TimerKind::SpotifyPending, PENDING_TIMEOUT));
                    } else {
                        emit(fx, Effect::Spirc(SpircCmd::Play));
                        state.active = Active::Spotify { track: None };
                    }
                },
                Some(PauseOwner::Human) => {
                    // Honoured: the baseline stays paused; the armed head
                    // airs whenever a human resumes.
                    state.active = Active::Nobody;
                },
                None => {
                    state.active = if matches!(state.sp, SpDevice::Playing(_)) {
                        Active::Spotify { track: None }
                    } else {
                        Active::Nobody
                    };
                },
            }
        },
        Head::Empty => {
            if matches!(state.pause_owner, Some(PauseOwner::BotForMedia)) && state.device_active
                && matches!(state.sp, SpDevice::Paused(_) | SpDevice::Boundary) {
                emit(fx, Effect::Spirc(SpircCmd::Play));
                state.pause_owner = None;
                state.active = Active::Spotify { track: None };
            } else if matches!(state.sp, SpDevice::Playing(_)) {
                state.active = Active::Spotify { track: None };
            } else {
                // A human pause stays honoured, and so does no owner at all;
                // a BotForMedia debt while the device is unreachable stays
                // recorded for LinkUp.
                state.active = Active::Nobody;
                emit(fx, Effect::Presence(PresenceState::Idle));
            }
        },
    }
}

/// The voice connection is gone.
fn voice_lost(state: &mut PlayerState, fx: &mut Vec<Effect>)
    requires
        old(state)@.room(),
    ensures
        final(state)@.queue == old(state)@.queue,
        Run::of(*final(state), final(fx)@) == Run::of(*old(state), old(fx)@).voice_lost(),
{
    proof {
        reveal(Run::voice_lost);
    }
    state.voice = VoiceStatus::Down;
    if matches!(state.active, Active::Media { .. }) {
        emit(fx, Effect::CancelMedia);
        emit(fx, Effect::ClearBridge);
        state.active = Active::Nobody;
        // Stale-ify the runner's coming `MediaEnded` so nothing tries to
        // start the next item into a dead voice connection.
        state.media_epoch = state.media_epoch + 1;
    }
}

/// `Lost` is advisory only, never a blind retry: a slow ack plus a retry
/// would queue the track twice.
fn arm_ack_tick(state: &mut PlayerState, now: u64)
    ensures
        final(state)@.queue == old(state)@.queue,
        forall|fx: Seq<EffectModel>|
            (Run { s: final(state)@, fx }) == #[trigger] (Run { s: old(state)@, fx }).arm_ack_tick(
                now,
            ),
{
    proof {
        reveal(Run::arm_ack_tick);
    }
    if let Some(a) = &mut state.armed {
        if let Ack::Sent(at) = a.ack {
            if elapsed(now, at) >= ARM_ACK_TIMEOUT {
                a.ack = Ack::Lost;
            }
        }
    }
}

/// `SpotifyPending` always has an exit: without this, a dropped command
/// parks the player forever.
fn pending_tick(state: &mut PlayerState, now: u64, fx: &mut Vec<Effect>)
    ensures
        final(state)@.queue == old(state)@.queue,
        Run::of(*final(state), final(fx)@) == Run::of(*old(state), old(fx)@).pending_tick(now),
{
    proof {
        reveal(Run::pending_tick);
    }
    let (uri, retried) = match &state.active {
        Active::SpotifyPending { uri, sent, retried } => {
            if elapsed(now, *sent) < PENDING_TIMEOUT {
                return;
            }
            (uri.clone(), *retried)
        },
        _ => {
            return;
        },
    };
    if !state.device_active {
        state.active = Active::Nobody;
        emit(fx, Effect::Ui(UiMsg::TakeoverPrompt));
    } else if matches!(state.sp, SpDevice::Idle) && !retried {
        state.active = Active::SpotifyPending { uri: uri.clone(), sent: now, retried: true };
        emit(fx, Effect::Spirc(SpircCmd::Load(uri)));
        emit(fx, Effect::SetTimer(TimerKind::SpotifyPending, PENDING_TIMEOUT));
    } else if matches!(state.sp, SpDevice::Playing(_)) {
        // Something started and we missed the promote: self-heal into the
        // baseline turn.
        state.active = Active::Spotify { track: None };
    } else {
        state.active = Active::Nobody;
        notice(
            fx,
            "Couldn't start the queued Spotify track — skipping it for now.".to_owned(),
        );
    }
}

/// A snapshotted arm has outlived its welcome.
fn snapshot_tick(state: &mut PlayerState, now: u64)
    ensures
        final(state)@.queue == old(state)@.queue,
        forall|fx: Seq<EffectModel>|
            (Run { s: final(state)@, fx }) == #[trigger] (Run { s: old(state)@, fx }).snapshot_tick(
                now,
            ),
{
    proof {
        reveal(Run::snapshot_tick);
    }
    let expired = match &state.armed_snapshot {
        Some(s) => elapsed(now, s.at) >= SNAPSHOT_TTL,
        None => false,
    };
    if expired {
        state.armed_snapshot = None;
    }
}

/// A session came up. Explicit activation only: connecting never claims the
/// active device away from the DJ's phone. The context and the shuffle/repeat
/// flags describe one account's listening, and a new session may be a
/// different DJ, so they are dropped, as is anything left in flight.
fn link_up(state: &mut PlayerState, gen: u64, now: u64, fx: &mut Vec<Effect>)
    ensures
        final(state)@.queue == old(state)@.queue,
        Run::of(*final(state), final(fx)@) == Run::of(*old(state), old(fx)@).link_up(gen, now),
{
    proof {
        reveal(Run::link_up);
    }
    state.link_gen = gen;
    state.link_up = true;
    state.device_active = false;
    state.sp = SpDevice::Inactive;
    state.inflight.clear();
    state.context_uri = None;
    state.play_options = PlayOptions::default();
    state.awaiting_jump = None;
    state.history_cursor = None;
    state.pending_request = None;
    let snapshot_ok = match &state.armed_snapshot {
        Some(s) => elapsed(now, s.at) < SNAPSHOT_TTL && queues_id(&state.queue, s.armed.item_id),
        None => false,
    };
    assert(snapshot_ok == old(state)@.snapshot_restorable(now));
    let owe_resume = matches!(state.pause_owner, Some(PauseOwner::BotForMedia)) && matches!(
        state.active,
        Active::Nobody
    );
    assert(owe_resume == old(state)@.owes_resume());
    if snapshot_ok || owe_resume {
        // Transfer restores context, position, pause state and the queue,
        // instead of activate, so the restored arm stays queued device-side.
        emit(fx, Effect::Spirc(SpircCmd::Transfer));
    }
    let snapshot = state.armed_snapshot.take();
    if snapshot_ok {
        if let Some(s) = snapshot {
            // Re-confirm the restored arm against the post-transfer
            // `SetQueue` rather than trusting the old ack.
            state.armed = Some(
                Armed { item_id: s.armed.item_id, uri: s.armed.uri, ack: Ack::Sent(now) },
            );
            emit(fx, Effect::SetTimer(TimerKind::ArmAck, ARM_ACK_TIMEOUT));
        }
    }
    if owe_resume {
        // Media-end reconciliation: a media item that ended during the
        // outage must not leave the baseline paused forever.
        emit(fx, Effect::Spirc(SpircCmd::Play));
        state.pause_owner = None;
        state.active = Active::Spotify { track: None };
    }
}

/// The session died. The media path is untouchable from here; Spotify's own
/// buffered audio is cleared when it held the turn.
fn link_down(state: &mut PlayerState, gen: u64, now: u64, fx: &mut Vec<Effect>)
    requires
        old(state).wf(),
        old(state)@.room(),
    ensures
        final(state).wf(),
        Run::of(*final(state), final(fx)@) == Run::of(*old(state), old(fx)@).link_down(gen, now),
{
    proof {
        reveal(Run::link_down);
    }
    if gen != state.link_gen {
        return;
    }
    state.device_active = false;
    state.sp = SpDevice::Inactive;
    state.link_up = false;
    // A pending jump can no longer land, and a held request will never air.
    state.awaiting_jump = None;
    state.history_cursor = None;
    state.pending_request = None;
    // Snapshot the arm and clear it: a `Confirmed` ghost would wedge arming
    // forever, but a fresh reconnect can restore it.
    if let Some(a) = state.armed.take() {
        state.armed_snapshot = Some(ArmSnapshot { armed: a, at: now });
        emit(fx, Effect::SetTimer(TimerKind::SnapshotExpiry, SNAPSHOT_TTL));
    }
    if spotify_turn(&state.active) {
        emit(fx, Effect::ClearBridge);
        if matches!(head_of(&state.queue), Head::Media) {
            start_head(state, StartGate::Immediate, fx);
        } else {
            state.active = Active::Nobody;
            notice(
                fx,
                "Spotify session lost — reconnecting. Queued items stay queued.".to_owned(),
            );
            emit(fx, Effect::Presence(PresenceState::Idle));
        }
    }
}

/// A history row for a Spotify track that just became audible. `popped` is
/// the request this airing consumed, when there was one. `from_arm` says the
/// track came out of Spotify's own queue rather than out of the context, so
/// it is recorded with no context: stamping one makes a later ⏮ ask for a
/// track the context does not contain.
fn aired_spotify(
    context_uri: &Option<String>,
    uri_text: &String,
    meta: &TrackMeta,
    popped: &Option<QueueItem>,
    from_arm: bool,
) -> (r: AiredTrack)
    ensures
        r@ == crate::player::model::aired_spotify(
            crate::text::text_of(*context_uri),
            uri_text@,
            *meta,
            *popped,
            from_arm,
        ),
{
    let (source, queued_by, queued_by_id) = match popped {
        Some(i) => (
            AiredSource::Request,
            Some(i.queued_by.clone()),
            Some(decimal_text(i.queued_by_id)),
        ),
        None => (AiredSource::Baseline, None, None),
    };
    AiredTrack {
        source,
        track_ref: uri_text.clone(),
        context_uri: if from_arm {
            None
        } else {
            clone_text(context_uri)
        },
        title: Some(meta.title.clone()),
        artist: Some(meta.artist.clone()),
        queued_by,
        queued_by_id,
    }
}

fn spotify_meta(source: &MediaSource) -> (r: Option<TrackMeta>)
    ensures
        r == crate::player::model::request_meta(*source),
{
    match source {
        MediaSource::Spotify { title, artist, album_art_url, .. } => Some(
            TrackMeta {
                title: title.clone(),
                artist: artist.clone(),
                album_art_url: clone_text(album_art_url),
            },
        ),
        _ => None,
    }
}

fn current_meta(active: &Active) -> (r: Option<TrackMeta>)
    ensures
        r == (match *active {
            Active::Spotify { track } => track,
            _ => None,
        }),
{
    match active {
        Active::Spotify { track: Some(m) } => Some(m.clone()),
        _ => None,
    }
}

/// Whether this is the track last heard.
fn was_heard(last_heard: &Option<String>, uri_text: &String) -> (r: bool)
    ensures
        r == (crate::text::text_of(*last_heard) == Some(uri_text@)),
{
    match last_heard {
        Some(t) => *t == *uri_text,
        None => false,
    }
}

/// Whether the arm is for this track.
fn armed_for(armed: &Option<Armed>, uri: &SpotifyUri) -> (r: bool)
    ensures
        r == (armed matches Some(a) && a.uri@ == uri@),
{
    match armed {
        Some(a) => a.uri.same(uri),
        None => false,
    }
}

/// Settle a back-jump now that `uri` plays. A different track is the only
/// thing that counts as movement: librespot re-emits `Playing` on a resume
/// or a seek.
fn settle_jump(state: &mut PlayerState, uri: &SpotifyUri, moved: bool, fx: &mut Vec<Effect>)
    requires
        moved == (old(state)@.last_heard_track != Some(uri@.text)),
    ensures
        final(state)@ == (StateModel {
            awaiting_jump: None,
            history_cursor: Run::of(*old(state), old(fx)@).settled_cursor(*uri),
            ..old(state)@
        }),
        crate::player::model::effects(final(fx)@) == (if Run::of(
            *old(state),
            old(fx)@,
        ).jump_missed(*uri) {
            Run::of(*old(state), old(fx)@).notice(
                "⚠️ Spotify couldn't find that track in the playlist and started from the beginning instead."@,
            ).fx
        } else {
            crate::player::model::effects(old(fx)@)
        }),
{
    match state.awaiting_jump.take() {
        Some(PendingJump::Context(wanted)) => {
            if !wanted.same(uri) {
                notice(
                    fx,
                    "⚠️ Spotify couldn't find that track in the playlist and started from the beginning instead.".to_owned(),
                );
                state.history_cursor = None;
            }
        },
        // Spotify picked the track. Over 3 s into one it seeks to zero
        // instead of stepping back, which re-emits the same track: no step
        // happened, so the walk stays where it was.
        Some(PendingJump::Previous { cursor }) => {
            if moved {
                state.history_cursor = Some(cursor);
            }
        },
        // Nothing in flight: the playlist moved on past wherever ⏮ walked
        // to, so we are live again.
        None => {
            if moved {
                state.history_cursor = None;
            }
        },
    }
}

/// The bookkeeping of a `Playing`: a matching request is consumed wherever it
/// sits, or taken back from the media turn that held it, and a dead or
/// answered arm is cleared. Returns the request this airing answers.
fn note_playing(state: &mut PlayerState, uri: &SpotifyUri, fx: &mut Vec<Effect>) -> (r: Option<
    QueueItem,
>)
    requires
        old(state).wf(),
    ensures
        final(state).wf(),
        r == Run::of(*old(state), old(fx)@).answered_request(*uri),
        Run::of(*final(state), final(fx)@) == Run::of(*old(state), old(fx)@).playing_noted(*uri),
{
    proof {
        reveal(Run::playing_noted);
    }
    let uri_text = uri.to_uri();
    let moved = !was_heard(&state.last_heard_track, &uri_text);
    settle_jump(state, uri, moved, fx);
    state.sp = SpDevice::Playing(uri.clone());
    // Playing on this device is proof it holds the active slot.
    state.device_active = true;
    let mut popped = take_request(&mut state.queue, uri);
    let held = match &state.pending_request {
        Some(i) => i.requests(uri),
        None => false,
    };
    if popped.is_none() && held {
        popped = state.pending_request.take();
    }
    // Our own advance landing somewhere other than the armed track means
    // the arm isn't at the front of Spotify's queue: a dead arm.
    let strayed = match &state.active {
        Active::SpotifyPending { uri: wanted, .. } => !wanted.same(uri),
        _ => false,
    };
    if armed_for(&state.armed, uri) || strayed {
        state.armed = None;
    }
    popped
}

/// Spotify reports a track playing on this device.
fn playing(
    state: &mut PlayerState,
    uri: SpotifyUri,
    meta: Option<TrackMeta>,
    now: u64,
    fx: &mut Vec<Effect>,
)
    requires
        old(state).wf(),
    ensures
        final(state).wf(),
        Run::of(*final(state), final(fx)@) == Run::of(*old(state), old(fx)@).playing(
            uri,
            meta,
            now,
        ),
{
    proof {
        reveal(Run::playing);
        reveal(Run::playing_noted);
    }
    let uri_text = uri.to_uri();
    // Read before the arm is cleared: it decides whether this airing came
    // out of Spotify's queue or out of the context.
    let from_arm = armed_for(&state.armed, &uri);
    let same_track = was_heard(&state.last_heard_track, &uri_text);
    let popped = note_playing(state, &uri, fx);
    let existing = if same_track {
        current_meta(&state.active)
    } else {
        None
    };
    let meta = match meta {
        Some(m) => Some(m),
        None => match existing {
            Some(m) => Some(m),
            None => match &popped {
                Some(i) => spotify_meta(&i.source),
                None => None,
            },
        },
    };
    if matches!(state.active, Active::Media { .. }) {
        // Not its turn: pause it back, keep the card suppressed, leave the
        // turn with the media item. The later airing is the one history
        // records, so its requester is held here.
        if popped.is_some() {
            state.pending_request = popped;
        }
        send_pause(state, now, fx);
        state.pause_owner = Some(PauseOwner::BotForMedia);
        return;
    }
    // Turn-approved: the baseline holds the turn now.
    state.active = Active::Spotify {
        track: match &meta {
            Some(m) => Some(m.clone()),
            None => None,
        },
    };
    state.pause_owner = None;
    // Our own librespot is decoding, so there is audio in the bridge and it
    // needs a call to drain into.
    ensure_voice(state, fx);
    match meta {
        Some(m) => {
            if !same_track {
                emit(
                    fx,
                    Effect::Ui(
                        UiMsg::NowPlayingSpotify { uri: uri.clone(), meta: Some(m.clone()) },
                    ),
                );
                emit(
                    fx,
                    Effect::RecordAired(
                        aired_spotify(&state.context_uri, &uri_text, &m, &popped, from_arm),
                    ),
                );
                emit(
                    fx,
                    Effect::Announce(
                        AnnounceKind::Track { title: m.title.clone(), artist: m.artist.clone() },
                    ),
                );
                state.last_heard_track = Some(uri_text);
            }
            emit(fx, Effect::Presence(PresenceState::Playing { uri, meta: m }));
        },
        None => {
            if !same_track {
                // No card for an unknown track; resolve the metadata and let
                // the resulting `TrackChanged` post it.
                emit(fx, Effect::ResolveMeta(uri));
            }
        },
    }
    // Re-arm on every turn-approved Playing: the next arm is issued a whole
    // track ahead of the preload window.
    maybe_arm(state, now, fx);
}

/// Spotify reports the device paused.
fn paused(state: &mut PlayerState, uri: SpotifyUri, now: u64, fx: &mut Vec<Effect>)
    ensures
        final(state)@.queue == old(state)@.queue,
        Run::of(*final(state), final(fx)@) == Run::of(*old(state), old(fx)@).paused(uri, now),
{
    proof {
        reveal(Run::paused);
    }
    state.sp = SpDevice::Paused(uri.clone());
    state.device_active = true;
    if spotify_turn(&state.active) {
        // Spotify holds the turn, so whatever it left buffered in the shared
        // bridge is stale. Gated on the turn: this must never fire while a
        // media item holds it.
        emit(fx, Effect::ClearBridge);
    }
    if !state.inflight.consume_pause(now) {
        // Nobody here asked for it: a human paused on their device.
        state.pause_owner = Some(PauseOwner::Human);
    }
    if let Active::Spotify { track: Some(m) } = &state.active {
        emit(fx, Effect::Presence(PresenceState::Paused { uri, meta: m.clone() }));
    }
}

/// Spotify reports the device stopped. The `device_active` guard is load
/// safety (see [`SpDevice`]).
fn stopped(state: &mut PlayerState, fx: &mut Vec<Effect>)
    requires
        old(state).wf(),
        old(state)@.room(),
    ensures
        final(state).wf(),
        Run::of(*final(state), final(fx)@) == Run::of(*old(state), old(fx)@).stopped(),
{
    proof {
        reveal(Run::stopped);
    }
    state.sp = if state.device_active {
        SpDevice::Idle
    } else {
        SpDevice::Inactive
    };
    state.pause_owner = None;
    if spotify_turn(&state.active) {
        emit(fx, Effect::ClearBridge);
        if matches!(head_of(&state.queue), Head::Media) {
            start_head(state, StartGate::Immediate, fx);
        } else {
            state.active = Active::Nobody;
            emit(fx, Effect::Presence(PresenceState::Idle));
        }
    }
}

/// A track ended: always a boundary, never `Idle`, for auto-advance is
/// imminent.
fn end_of_track(state: &mut PlayerState, now: u64, fx: &mut Vec<Effect>)
    requires
        old(state).wf(),
        old(state)@.room(),
    ensures
        final(state).wf(),
        Run::of(*final(state), final(fx)@) == Run::of(*old(state), old(fx)@).end_of_track(now),
{
    proof {
        reveal(Run::end_of_track);
    }
    state.sp = SpDevice::Boundary;
    if matches!(state.active, Active::Media { .. } | Active::SpotifyPending { .. }) {
        return;
    }
    match head_of(&state.queue) {
        Head::Media => {
            // No `Pause` here: librespot ignores one in its EndOfTrack
            // state, so the advancing next track is caught by a `Playing`
            // under the media turn. No bridge clear: the ending track's
            // buffered tail plays out.
            let pausing = state.device_active;
            if pausing {
                state.pause_owner = Some(PauseOwner::BotForMedia);
            }
            start_head(state, start_gate(pausing), fx);
        },
        Head::Spotify(_) => {
            // Arm before the boundary resolves, so librespot's auto-advance
            // can't eat a context track first.
            maybe_arm(state, now, fx);
        },
        Head::Empty => {},
    }
}

/// Librespot could not play a track, perhaps one it was only preloading.
fn unavailable(state: &mut PlayerState, uri: SpotifyUri, now: u64, fx: &mut Vec<Effect>)
    requires
        old(state).wf(),
    ensures
        final(state).wf(),
        Run::of(*final(state), final(fx)@) == Run::of(*old(state), old(fx)@).unavailable(uri, now),
{
    proof {
        reveal(Run::unavailable);
    }
    // Only the track we believe is audible left stale audio in the bridge.
    let was_audible = match (&state.active, &state.sp) {
        (Active::SpotifyPending { uri: pending, .. }, _) => pending.same(&uri),
        (Active::Spotify { .. }, SpDevice::Playing(cur)) => cur.same(&uri),
        (Active::Spotify { .. }, SpDevice::Paused(cur)) => cur.same(&uri),
        _ => false,
    };
    if was_audible {
        emit(fx, Effect::ClearBridge);
    }
    let uri_text = uri.to_uri();
    if armed_for(&state.armed, &uri) {
        // Librespot self-skips unavailable tracks: surface it, drop the
        // request, and arm the next one.
        state.armed = None;
        let _ = take_request(&mut state.queue, &uri);
        notice(
            fx,
            cat3("A queued Spotify track is unavailable and was dropped (", &uri_text, ")."),
        );
        maybe_arm(state, now, fx);
    } else {
        notice(fx, cat3("Spotify reports a track as unavailable (", &uri_text, ")."));
    }
}

/// Spotify cued another track. Never moves the turn; while the baseline
/// holds it, the change is shown on the card at once.
fn track_changed(state: &mut PlayerState, uri: SpotifyUri, meta: TrackMeta, fx: &mut Vec<Effect>)
    ensures
        final(state)@.queue == old(state)@.queue,
        Run::of(*final(state), final(fx)@) == Run::of(*old(state), old(fx)@).track_changed(
            uri,
            meta,
        ),
{
    proof {
        reveal(Run::track_changed);
    }
    if matches!(state.active, Active::Media { .. }) {
        return;
    }
    let ours = spotify_turn(&state.active);
    if matches!(state.active, Active::Spotify { .. }) {
        state.active = Active::Spotify { track: Some(meta.clone()) };
    }
    let uri_text = uri.to_uri();
    if !was_heard(&state.last_heard_track, &uri_text) && ours {
        // `TrackChanged` arrives before the `Playing` that pops the request
        // and clears the arm, so both are still to be found here.
        let queued = copy_request(&state.queue, &uri);
        let from_arm = armed_for(&state.armed, &uri);
        let aired = aired_spotify(&state.context_uri, &uri_text, &meta, &queued, from_arm);
        emit(fx, Effect::Ui(UiMsg::NowPlayingSpotify { uri, meta: Some(meta) }));
        emit(fx, Effect::RecordAired(aired));
        state.last_heard_track = Some(uri_text);
    }
}

/// Whether the list names this item.
fn lists(uris: &Vec<SpotifyUri>, uri: &SpotifyUri) -> (r: bool)
    ensures
        r == Run::lists(uris@, *uri),
{
    let mut k: usize = 0;
    while k < uris.len()
        invariant
            k <= uris@.len(),
            forall|j: int| 0 <= j < k ==> (#[trigger] uris@[j])@ != uri@,
        decreases uris@.len() - k,
    {
        if uris[k].same(uri) {
            return true;
        }
        k += 1;
    }
    false
}

/// Spotify reports its own queue: the acknowledgement of an arm, or its
/// deletion on the phone.
fn set_queue(
    state: &mut PlayerState,
    current: Option<SpotifyUri>,
    queued: Vec<SpotifyUri>,
    context_uri: Option<String>,
    now: u64,
    fx: &mut Vec<Effect>,
)
    requires
        old(state).wf(),
    ensures
        final(state).wf(),
        Run::of(*final(state), final(fx)@) == Run::of(*old(state), old(fx)@).set_queue(
            current,
            queued@,
            context_uri,
            now,
        ),
{
    proof {
        reveal(Run::set_queue);
    }
    // Spotify only names the context on a load or a queue mutation, so hold
    // the last one seen.
    if context_uri.is_some() {
        state.context_uri = context_uri;
    }
    let (item_id, ack, armed_uri) = match &state.armed {
        Some(a) => (a.item_id, a.ack, a.uri.clone()),
        None => {
            return;
        },
    };
    let present = lists(&queued, &armed_uri);
    let is_current = match &current {
        Some(c) => c.same(&armed_uri),
        None => false,
    };
    if present {
        // Sent to Confirmed, and a late ack on a Lost arm also confirms:
        // never a second AddToQueue.
        state.armed = Some(Armed { item_id, uri: armed_uri, ack: Ack::Confirmed });
    } else if matches!(ack, Ack::Confirmed) && !is_current {
        // Deleted on the phone: absent from the queue AND not the current
        // track. Deleting a request there is a cancel: drop the item too,
        // then arm the next one.
        state.armed = None;
        let _ = take_request(&mut state.queue, &armed_uri);
        notice(
            fx,
            "A queued Spotify track was removed from the device's queue — dropped here too.".to_owned(),
        );
        maybe_arm(state, now, fx);
    }
}

/// Another device took over, or the session's device state is gone. A
/// `Confirmed` arm is real device-side state and survives; an unacked one was
/// void.
fn session_disconnected(state: &mut PlayerState)
    ensures
        final(state)@.queue == old(state)@.queue,
        forall|fx: Seq<EffectModel>|
            (Run { s: final(state)@, fx }) == #[trigger] (Run {
                s: old(state)@,
                fx,
            }).session_disconnected(),
{
    proof {
        reveal(Run::session_disconnected);
    }
    state.device_active = false;
    state.sp = SpDevice::Inactive;
    state.awaiting_jump = None;
    state.history_cursor = None;
    state.pending_request = None;
    let void = match &state.armed {
        Some(a) => !matches!(a.ack, Ack::Confirmed),
        None => false,
    };
    if void {
        state.armed = None;
    }
}

/// Gen-current Spotify telemetry. Bookkeeping (queue pops, arm clears, the
/// `sp` mirror) always runs; the turn only moves at bot-defined boundaries.
pub fn handle_transport(state: &mut PlayerState, ev: TransportEvent, now: u64, fx: &mut Vec<Effect>)
    requires
        old(state).wf(),
        old(state)@.room(),
    ensures
        final(state).wf(),
        Run::of(*final(state), final(fx)@) == Run::of(*old(state), old(fx)@).transport(ev, now),
{
    match ev {
        TransportEvent::Playing { uri, meta } => playing(state, uri, meta, now, fx),
        TransportEvent::Paused { uri } => paused(state, uri, now, fx),
        TransportEvent::Stopped => stopped(state, fx),
        TransportEvent::EndOfTrack => end_of_track(state, now, fx),
        TransportEvent::Unavailable { uri } => unavailable(state, uri, now, fx),
        TransportEvent::TrackChanged { uri, meta } => track_changed(state, uri, meta, fx),
        TransportEvent::SetQueue { current, queued, context_uri } => set_queue(
            state,
            current,
            queued,
            context_uri,
            now,
            fx,
        ),
        TransportEvent::OptionsChanged { shuffle, repeat_context, repeat_track } => {
            // Mirror only: the DJ owns these.
            state.play_options = PlayOptions { shuffle, repeat_context, repeat_track };
        },
        TransportEvent::SessionConnected => {
            // Mirror only: `LinkUp` is the canonical reconnect signal.
        },
        TransportEvent::SessionDisconnected => session_disconnected(state),
    }
}

/// Advance the player by one input. Pure and synchronous: mutates `state`,
/// returns the effects in the order the actor must run them, and reads time
/// only from `now`.
pub fn step(state: &mut PlayerState, input: Input, now: u64) -> (r: Vec<Effect>)
    requires
        old(state).wf(),
        old(state)@.room(),
    ensures
        final(state).wf(),
        Run::of(*final(state), r@) == Run::start(old(state)@).input(input, now),
{
    proof {
        reveal(Run::input);
    }
    let mut fx: Vec<Effect> = Vec::new();
    assert(crate::player::model::effects(fx@) =~= Seq::<EffectModel>::empty());
    match input {
        Input::Enqueue { item, pos, start_if_idle, reply: tx } => enqueue(
            state,
            item,
            pos,
            start_if_idle,
            tx,
            now,
            &mut fx,
        ),
        Input::Skip { reply: tx } => skip(state, tx, now, &mut fx),
        Input::Stop { reply: tx, leave_voice } => stop(state, tx, leave_voice, now, &mut fx),
        Input::Play { reply: tx } => play(state, tx, now, &mut fx),
        Input::TogglePause { reply: tx } => toggle_pause(state, tx, now, &mut fx),
        Input::Previous { reply: tx } => previous(state, tx, &mut fx),
        Input::PreviousResolved { track } => previous_resolved(state, track, &mut fx),
        Input::MediaEnded { epoch, outcome: _ } => {
            // A stale runner or an already-resolved turn has nothing to say.
            let current = match &state.active {
                Active::Media { epoch: e, .. } => *e == epoch,
                _ => false,
            };
            if current {
                after_media_boundary(state, now, &mut fx);
            }
        },
        Input::Transport { gen, ev } => {
            if gen == state.link_gen {
                handle_transport(state, ev, now, &mut fx);
            }
        },
        Input::LinkUp { gen } => link_up(state, gen, now, &mut fx),
        Input::LinkDown { gen } => link_down(state, gen, now, &mut fx),
        Input::LinkReconnecting { gen } => {
            // Fast reconnects are not link-down: no armed-clearing, no turn
            // change. Whatever Spotify left buffered is stale, though.
            if gen == state.link_gen && spotify_turn(&state.active) {
                emit(&mut fx, Effect::ClearBridge);
            }
        },
        Input::VoiceReady => {
            state.voice = VoiceStatus::Ready;
        },
        Input::VoiceLost => voice_lost(state, &mut fx),
        Input::ClearQueue { reply: tx } => clear_queue(state, tx, &mut fx),
        Input::RestoreQueue { items } => restore_queue(state, items, now, &mut fx),
        Input::ActivateDevice => {
            proof {
                reveal(Run::activate_device);
            }
            if !state.device_active {
                activate(state, &mut fx);
                maybe_arm(state, now, &mut fx);
            }
        },
        Input::Query { reply: tx } => {
            proof {
                reveal(Run::query);
            }
            let answer = snapshot(state);
            emit(&mut fx, Effect::ReplySnapshot(tx, answer));
        },
        Input::Tick(kind) => match kind {
            TimerKind::ArmAck => arm_ack_tick(state, now),
            TimerKind::SpotifyPending => pending_tick(state, now, &mut fx),
            TimerKind::SnapshotExpiry => snapshot_tick(state, now),
        },
    }
    fx
}

} // verus!
