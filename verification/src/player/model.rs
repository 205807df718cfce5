//! The player as mathematics: what every input does to the player's state and
//! which effects it asks for, in order.

use tokio::sync::oneshot;
use vstd::prelude::*;

use crate::player::state::{
    Ack, Active, AiredSource, AnnounceKind, ArmSnapshot, Armed, Effect, EnqueuePos, Head, Input,
    PauseOwner, PendingJump, PlayOptions, PlayerState, PresenceState, PreviousTrack, SpDevice,
    SpircCmd, StartGate, TimerKind, TrackHandleCmd, TrackMeta, TransportEvent, VoiceStatus,
};
use crate::queue::{MediaSource, QueueItem, QueueModel};
use crate::uri::SpotifyUri;

verus! {

/// The player's state with its collections and texts as sequences.
pub struct StateModel {
    pub queue: QueueModel,
    pub active: Active,
    pub sp: SpDevice,
    pub armed: Option<Armed>,
    pub pause_owner: Option<PauseOwner>,
    pub pauses: Seq<u64>,
    pub device_active: bool,
    pub voice: VoiceStatus,
    pub link_gen: u64,
    pub link_up: bool,
    pub media_epoch: u64,
    pub last_heard_track: Option<Seq<char>>,
    pub play_options: PlayOptions,
    pub history_cursor: Option<i64>,
    pub awaiting_jump: Option<PendingJump>,
    pub pending_reply: Option<oneshot::Sender<String>>,
    pub pending_request: Option<QueueItem>,
    pub context_uri: Option<Seq<char>>,
    pub armed_snapshot: Option<ArmSnapshot>,
}

/// A track becoming audible, as the history store records it.
pub struct AiredModel {
    pub source: AiredSource,
    pub track_ref: Seq<char>,
    pub context_uri: Option<Seq<char>>,
    pub title: Option<Seq<char>>,
    pub artist: Option<Seq<char>>,
    pub queued_by: Option<Seq<char>>,
    pub queued_by_id: Option<Seq<char>>,
}

/// One row of a queue listing.
pub struct EntryModel {
    pub item_id: u64,
    pub title: Seq<char>,
    pub subtitle: Seq<char>,
    pub duration: Option<Seq<char>>,
    pub queued_by: Seq<char>,
    pub armed: bool,
}

/// What is audible.
pub enum NowModel {
    Nothing,
    Media { title: Seq<char>, subtitle: Seq<char>, queued_by: Seq<char>, paused: bool },
    Spotify { title: Seq<char>, artist: Seq<char>, paused: bool },
    SpotifyStarting,
}

/// The answer to a query.
pub struct SnapshotModel {
    pub now: NowModel,
    pub queue_len: nat,
    pub preview: Seq<EntryModel>,
    pub more: nat,
    pub device_active: bool,
    pub link_up: bool,
}

/// A channel-facing message.
pub enum UiModel {
    NowPlayingSpotify { uri: SpotifyUri, meta: Option<TrackMeta> },
    NowPlayingMedia { item: QueueItem },
    TakeoverPrompt,
    Notice(Seq<char>),
}

/// An effect with its texts as sequences of characters.
pub enum EffectModel {
    Spirc(SpircCmd),
    StartMedia { item: QueueItem, epoch: u64, gate: StartGate },
    CancelMedia,
    ClearBridge,
    JoinVoice,
    RecordAired(AiredModel),
    LeaveVoice,
    ResolvePrevious { before: Option<i64> },
    ResolveMeta(SpotifyUri),
    TrackHandle(TrackHandleCmd),
    Ui(UiModel),
    Presence(PresenceState),
    Announce(AnnounceKind),
    SetTimer(TimerKind, u64),
    Reply(oneshot::Sender<String>, Seq<char>),
    ReplySnapshot(oneshot::Sender<crate::player::state::PlayerSnapshot>, SnapshotModel),
}

/// Time from `since` to `now`, zero when `since` lies ahead.
pub open spec fn elapsed(now: u64, since: u64) -> int {
    if now >= since {
        now - since
    } else {
        0
    }
}

/// The pauses young enough to still be echoed.
pub open spec fn live_pauses(pauses: Seq<u64>, now: u64) -> Seq<u64>
    decreases pauses.len(),
{
    if pauses.len() == 0 {
        pauses
    } else {
        let rest = live_pauses(pauses.drop_last(), now);
        if elapsed(now, pauses.last()) < crate::player::state::INFLIGHT_TTL {
            rest.push(pauses.last())
        } else {
            rest
        }
    }
}

/// A pause we just sent, remembered unless eight are already outstanding.
pub open spec fn with_pause(pauses: Seq<u64>, now: u64) -> Seq<u64> {
    let live = live_pauses(pauses, now);
    if live.len() < 8 {
        live.push(now)
    } else {
        live
    }
}

/// The pauses left once one of them has been echoed.
pub open spec fn echoed_pause(pauses: Seq<u64>, now: u64) -> Seq<u64> {
    let live = live_pauses(pauses, now);
    if live.len() == 0 {
        live
    } else {
        live.drop_first()
    }
}

/// Requests for exactly this Spotify item.
pub open spec fn requests_of(uri: SpotifyUri) -> spec_fn(QueueItem) -> bool {
    |i: QueueItem| i.spotify_uri() == Some(uri@)
}

/// Requests for any Spotify item.
pub open spec fn spotify_requests() -> spec_fn(QueueItem) -> bool {
    |i: QueueItem| i.source is Spotify
}

/// Effects with their texts as sequences.
pub open spec fn effects(fx: Seq<Effect>) -> Seq<EffectModel> {
    Seq::new(fx.len(), |i: int| fx[i]@)
}

/// The card title and artist of a Spotify request.
pub open spec fn request_meta(source: MediaSource) -> Option<TrackMeta> {
    match source {
        MediaSource::Spotify { uri, title, artist, album_art_url } => Some(
            TrackMeta { title, artist, album_art_url },
        ),
        _ => None,
    }
}

/// What a history row names a media item by.
pub open spec fn source_ref(source: MediaSource) -> Seq<char> {
    match source {
        MediaSource::YouTube { url, .. } => url@,
        MediaSource::File { attachment_url, .. } => attachment_url@,
        MediaSource::Spotify { uri, .. } => uri@.text,
    }
}

/// The history row of a Spotify track that just became audible. `popped` is
/// the request it answers, if any; a track that came off the arm is in no
/// context.
pub open spec fn aired_spotify(
    context_uri: Option<Seq<char>>,
    uri_text: Seq<char>,
    meta: TrackMeta,
    popped: Option<QueueItem>,
    from_arm: bool,
) -> AiredModel {
    AiredModel {
        source: if popped is Some {
            AiredSource::Request
        } else {
            AiredSource::Baseline
        },
        track_ref: uri_text,
        context_uri: if from_arm {
            None
        } else {
            context_uri
        },
        title: Some(meta.title@),
        artist: Some(meta.artist@),
        queued_by: match popped {
            Some(i) => Some(i.queued_by@),
            None => None,
        },
        queued_by_id: match popped {
            Some(i) => Some(crate::text::decimal(i.queued_by_id as nat)),
            None => None,
        },
    }
}

/// The history row of a media item that starts.
pub open spec fn aired_media(item: QueueItem) -> AiredModel {
    AiredModel {
        source: AiredSource::Request,
        track_ref: source_ref(item.source),
        context_uri: None,
        title: Some(item.source.title()),
        artist: Some(item.source.subtitle()),
        queued_by: Some(item.queued_by@),
        queued_by_id: Some(crate::text::decimal(item.queued_by_id as nat)),
    }
}

impl StateModel {
    /// The queue is well-formed.
    pub open spec fn wf(self) -> bool {
        self.queue.wf()
    }

    /// The counters still have values left for one more input.
    pub open spec fn room(self) -> bool {
        &&& self.queue.last_id + crate::queue::MAX_QUEUE_LEN <= u64::MAX
        &&& self.media_epoch < u64::MAX
    }

    /// What sits at the head of the queue.
    pub open spec fn head(self) -> Head {
        if self.queue.items.len() == 0 {
            Head::Empty
        } else {
            match self.queue.items[0].source {
                MediaSource::Spotify { uri, .. } => Head::Spotify(uri),
                _ => Head::Media,
            }
        }
    }

    /// The Spotify device has a context it is playing from.
    pub open spec fn has_context(self) -> bool {
        self.sp is Playing || self.sp is Paused || self.sp is Boundary
    }

    /// Spotify is entitled to be audible, or about to be.
    pub open spec fn spotify_turn(self) -> bool {
        self.active is Spotify || self.active is SpotifyPending
    }

    /// Something reaches the voice channel right now.
    pub open spec fn audible(self) -> bool {
        match self.active {
            Active::Media { paused, .. } => !paused,
            _ => self.sp is Playing,
        }
    }

    /// Position of the first request for `uri`, or the queue's length.
    pub open spec fn request_index(self, uri: SpotifyUri) -> int {
        crate::queue::first_index(self.queue.items, requests_of(uri))
    }

    /// The first request for `uri`.
    pub open spec fn request_for(self, uri: SpotifyUri) -> Option<QueueItem> {
        let k = self.request_index(uri);
        if k < self.queue.items.len() {
            Some(self.queue.items[k])
        } else {
            None
        }
    }

    /// An arm exists and is for `uri`.
    pub open spec fn armed_for(self, uri: SpotifyUri) -> bool {
        self.armed matches Some(a) && a.uri@ == uri@
    }

    /// Some queued item carries this id.
    pub open spec fn queues_id(self, item_id: u64) -> bool {
        exists|k: int| 0 <= k < self.queue.items.len() && (#[trigger] self.queue.items[k]).item_id == item_id
    }

    /// An arm snapshotted at a link loss may be restored.
    pub open spec fn snapshot_restorable(self, now: u64) -> bool {
        self.armed_snapshot matches Some(s) && {
            &&& elapsed(now, s.at) < crate::player::state::SNAPSHOT_TTL
            &&& self.queues_id(s.armed.item_id)
        }
    }

    /// The bot paused the baseline for a media item that has since ended.
    pub open spec fn owes_resume(self) -> bool {
        self.pause_owner == Some(PauseOwner::BotForMedia) && self.active is Nobody
    }

    /// The metadata on the card of the baseline's current track.
    pub open spec fn current_meta(self) -> Option<TrackMeta> {
        match self.active {
            Active::Spotify { track } => track,
            _ => None,
        }
    }

    /// One row of the queue listing.
    pub open spec fn entry(self, item: QueueItem) -> EntryModel {
        EntryModel {
            item_id: item.item_id,
            title: item.source.title(),
            subtitle: item.source.subtitle(),
            duration: item.source.duration(),
            queued_by: item.queued_by@,
            armed: self.armed matches Some(a) && a.item_id == item.item_id,
        }
    }

    /// What `/np` reports.
    pub open spec fn now_playing(self) -> NowModel {
        match self.active {
            Active::Media { item, paused, .. } => NowModel::Media {
                title: item.source.title(),
                subtitle: item.source.subtitle(),
                queued_by: item.queued_by@,
                paused,
            },
            Active::Spotify { track: Some(m) } => NowModel::Spotify {
                title: m.title@,
                artist: m.artist@,
                paused: self.sp is Paused,
            },
            Active::Spotify { track: None } => NowModel::SpotifyStarting,
            Active::SpotifyPending { .. } => NowModel::SpotifyStarting,
            Active::Nobody => NowModel::Nothing,
        }
    }

    /// The answer to a query.
    pub open spec fn snapshot(self) -> SnapshotModel {
        let len = self.queue.items.len();
        let shown = if len < crate::player::state::QUEUE_PREVIEW {
            len
        } else {
            crate::player::state::QUEUE_PREVIEW as nat
        };
        SnapshotModel {
            now: self.now_playing(),
            queue_len: len,
            preview: Seq::new(shown, |i: int| self.entry(self.queue.items[i])),
            more: (len - shown) as nat,
            device_active: self.device_active,
            link_up: self.link_up,
        }
    }
}

impl EnqueuePos {
    /// The position in `queue` this names.
    pub open spec fn index(self, queue: QueueModel) -> int {
        match self {
            EnqueuePos::Tail => queue.items.len() as int,
            EnqueuePos::Head => 0,
            EnqueuePos::At(idx) => idx as int,
        }
    }
}

/// A player part-way through handling an input: its state, and the effects
/// asked for so far.
pub struct Run {
    pub s: StateModel,
    pub fx: Seq<EffectModel>,
}

impl Run {
    pub open spec fn of(state: PlayerState, fx: Seq<Effect>) -> Run {
        Run { s: state@, fx: effects(fx) }
    }

    /// A player that has asked for nothing yet.
    pub open spec fn start(s: StateModel) -> Run {
        Run { s, fx: Seq::empty() }
    }

    pub open spec fn emit(self, e: EffectModel) -> Run {
        Run { fx: self.fx.push(e), ..self }
    }

    pub open spec fn spirc(self, cmd: SpircCmd) -> Run {
        self.emit(EffectModel::Spirc(cmd))
    }

    pub open spec fn notice(self, text: Seq<char>) -> Run {
        self.emit(EffectModel::Ui(UiModel::Notice(text)))
    }

    pub open spec fn idle_presence(self) -> Run {
        self.emit(EffectModel::Presence(PresenceState::Idle))
    }

    pub open spec fn reply(self, tx: oneshot::Sender<String>, text: Seq<char>) -> Run {
        self.emit(EffectModel::Reply(tx, text))
    }

    pub open spec fn with(self, s: StateModel) -> Run {
        Run { s, ..self }
    }

    pub open spec fn active(self, active: Active) -> Run {
        Run { s: StateModel { active, ..self.s }, ..self }
    }

    pub open spec fn owner(self, pause_owner: Option<PauseOwner>) -> Run {
        Run { s: StateModel { pause_owner, ..self.s }, ..self }
    }

    /// Ask Spotify to pause, remembering that we asked.
    pub open spec fn pause(self, now: u64) -> Run {
        self.spirc(SpircCmd::Pause).recorded_pause(now)
    }

    pub open spec fn recorded_pause(self, now: u64) -> Run {
        Run { s: StateModel { pauses: with_pause(self.s.pauses, now), ..self.s }, ..self }
    }

    /// Bring the voice connection up for audio that is about to exist.
    pub open spec fn ensure_voice(self) -> Run {
        match self.s.voice {
            VoiceStatus::Ready => self,
            VoiceStatus::Joining => self,
            VoiceStatus::Down => Run {
                s: StateModel { voice: VoiceStatus::Joining, ..self.s },
                ..self.emit(EffectModel::JoinVoice)
            },
        }
    }

    /// Hand the turn to `item`.
    pub open spec fn start_media(self, item: QueueItem, gate: StartGate) -> Run {
        let epoch = (self.s.media_epoch + 1) as u64;
        let r = Run {
            s: StateModel { media_epoch: epoch, last_heard_track: None, ..self.s },
            ..self
        }.ensure_voice();
        r.emit(EffectModel::StartMedia { item, epoch, gate }).emit(
            EffectModel::Ui(UiModel::NowPlayingMedia { item }),
        ).emit(EffectModel::RecordAired(aired_media(item))).active(
            Active::Media { item, paused: false, epoch },
        )
    }

    /// Take the head off the queue and hand it the turn.
    pub open spec fn start_head(self, gate: StartGate) -> Run {
        let item = self.s.queue.items[0];
        self.with(StateModel { queue: self.s.queue.popped(), ..self.s }).start_media(item, gate)
    }

    /// Take the turn by loading `uri` on an idle device.
    pub open spec fn begin_load(self, uri: SpotifyUri, now: u64) -> Run {
        let r = self.ensure_voice();
        r.with(
            StateModel {
                pause_owner: None,
                context_uri: None,
                active: Active::SpotifyPending { uri, sent: now, retried: false },
                ..r.s
            },
        ).spirc(SpircCmd::Load(uri)).pending_timer()
    }

    pub open spec fn pending_timer(self) -> Run {
        self.emit(
            EffectModel::SetTimer(TimerKind::SpotifyPending, crate::player::state::PENDING_TIMEOUT),
        )
    }

    /// There is a session to claim the Connect device through.
    pub open spec fn claimable(self) -> bool {
        self.s.device_active || self.s.link_up
    }

    /// Make this the active Connect device; a session that never loaded
    /// anything is then an idle device.
    pub open spec fn activated(self) -> Run {
        self.spirc(SpircCmd::ActivateDevice).with(
            StateModel {
                device_active: true,
                sp: if self.s.sp is Inactive {
                    SpDevice::Idle
                } else {
                    self.s.sp
                },
                ..self.s
            },
        )
    }

    /// Claim the Connect device for a request that reached its turn.
    pub open spec fn claim_device(self) -> Run {
        if self.s.device_active || !self.s.link_up {
            self
        } else {
            self.activated()
        }
    }

    /// Hand the first Spotify request to Spotify's own queue, when nothing is
    /// armed and the device has a context to queue it behind.
    pub open spec fn maybe_arm(self, now: u64) -> Run {
        let k = crate::queue::first_index(self.s.queue.items, spotify_requests());
        if self.s.armed is None && self.s.device_active && !(self.s.active is SpotifyPending)
            && self.s.has_context() && k < self.s.queue.items.len() {
            match self.s.queue.items[k].source {
                MediaSource::Spotify { uri, .. } => self.with(
                    StateModel {
                        armed: Some(
                            Armed {
                                item_id: self.s.queue.items[k].item_id,
                                uri,
                                ack: Ack::Sent(now),
                            },
                        ),
                        ..self.s
                    },
                ).spirc(SpircCmd::AddToQueue(uri)).arm_timer(),
                _ => self,
            }
        } else {
            self
        }
    }

    pub open spec fn arm_timer(self) -> Run {
        self.emit(EffectModel::SetTimer(TimerKind::ArmAck, crate::player::state::ARM_ACK_TIMEOUT))
    }

    /// What a media start waits on.
    pub open spec fn gate(after_pause: bool) -> StartGate {
        if after_pause {
            StartGate::AfterSpotifyPauseAck
        } else {
            StartGate::Immediate
        }
    }

    // --- the queue ------------------------------------------------------

    /// The title of what an enqueue onto a silent player starts.
    pub open spec fn started_title(self) -> Option<Seq<char>> {
        match self.s.head() {
            Head::Empty => None,
            Head::Media => Some(self.s.queue.items[0].source.title()),
            Head::Spotify(_) => if self.claimable() && self.claim_device().s.sp is Idle {
                Some(self.s.queue.items[0].source.title())
            } else {
                None
            },
        }
    }

    /// Start the queue head on a silent player.
    #[verifier::opaque]
    pub open spec fn start_silent(self, now: u64) -> Run {
        match self.s.head() {
            Head::Empty => self,
            Head::Media => {
                let pausing = self.s.device_active && self.s.sp is Playing;
                let r = if pausing {
                    self.pause(now).owner(Some(PauseOwner::BotForMedia)).emit(
                        EffectModel::ClearBridge,
                    )
                } else {
                    self
                };
                r.start_head(Run::gate(pausing))
            },
            Head::Spotify(uri) => {
                let r = self.claim_device();
                if !self.claimable() {
                    r.emit(EffectModel::Ui(UiModel::TakeoverPrompt))
                } else if r.s.sp is Idle {
                    r.begin_load(uri, now)
                } else {
                    r
                }
            },
        }
    }

    #[verifier::opaque]
    pub open spec fn enqueue(
        self,
        item: QueueItem,
        pos: EnqueuePos,
        start_if_idle: bool,
        tx: oneshot::Sender<String>,
        now: u64,
    ) -> Run {
        let at = pos.index(self.s.queue);
        if self.s.queue.full() {
            self.reply(
                tx,
                "⚠️ Queue is full ("@ + crate::text::decimal(crate::queue::MAX_QUEUE_LEN as nat)
                    + " items) — try again once some have played."@,
            )
        } else {
            let queued = self.with(
                StateModel { queue: self.s.queue.inserted(at, item), ..self.s },
            );
            let starting = start_if_idle && self.s.active is Nobody;
            let started = if starting {
                queued.started_title()
            } else {
                None
            };
            let r = (if starting {
                queued.start_silent(now)
            } else {
                queued
            }).maybe_arm(now);
            let text = match started {
                Some(t) => if t == item.source.title() {
                    "▶ Playing now"@
                } else {
                    "➕ Queued. **"@ + t + "** is starting first."@
                },
                None => if pos is Head {
                    "➕ Playing next"@
                } else if !(r.s.active is Nobody) {
                    "➕ Added to queue #"@ + crate::text::decimal(queued.s.queue.items.len())
                } else {
                    "➕ Queued. Nothing is playing right now — press ▶ or use `/play` to start."@
                },
            };
            r.reply(tx, text)
        }
    }

    #[verifier::opaque]
    pub open spec fn clear_queue(self, tx: oneshot::Sender<String>) -> Run {
        let n = self.s.queue.items.len();
        let text = if n == 0 {
            "The queue is already empty."@
        } else if self.s.armed is None {
            "✅ Cleared "@ + crate::text::decimal(n) + " queued track(s)."@
        } else {
            "✅ Cleared "@ + crate::text::decimal(n)
                + " queued track(s). (a track already handed to Spotify will still play once)"@
        };
        self.with(
            StateModel {
                queue: self.s.queue.cleared(),
                armed: None,
                armed_snapshot: None,
                ..self.s
            },
        ).reply(tx, text)
    }

    /// The items of the last process, in order, as far as they fit.
    pub open spec fn restored(queue: QueueModel, items: Seq<QueueItem>) -> QueueModel {
        let room = crate::queue::MAX_QUEUE_LEN - queue.items.len();
        let kept = if items.len() < room {
            items.len() as int
        } else {
            room
        };
        QueueModel {
            items: queue.items + Seq::new(
                kept as nat,
                |i: int| QueueItem { item_id: (queue.last_id + 1 + i) as u64, ..items[i] },
            ),
            last_id: (queue.last_id + kept) as nat,
        }
    }

    #[verifier::opaque]
    pub open spec fn restore_queue(self, items: Seq<QueueItem>, now: u64) -> Run {
        if self.s.queue.items.len() > 0 {
            self
        } else {
            self.with(
                StateModel { queue: Run::restored(self.s.queue, items), ..self.s },
            ).maybe_arm(now)
        }
    }

    // --- transport controls ---------------------------------------------

    /// Step Spotify past its current track.
    pub open spec fn advance(self) -> Run {
        let r = self.spirc(SpircCmd::Next);
        let r = if self.s.sp is Paused {
            r.spirc(SpircCmd::Play)
        } else {
            r
        };
        let r = if self.s.sp is Playing {
            r.emit(EffectModel::ClearBridge)
        } else {
            r
        };
        r.owner(None)
    }

    #[verifier::opaque]
    pub open spec fn skip(self, tx: oneshot::Sender<String>, now: u64) -> Run {
        let skipped = "⏭ Skipped."@;
        if self.s.active is Media {
            let r = self.emit(EffectModel::CancelMedia).emit(EffectModel::ClearBridge);
            let r = if self.s.device_active && (self.s.sp is Paused || self.s.sp is Boundary) {
                r.owner(Some(PauseOwner::BotForMedia))
            } else {
                r
            };
            r.reply(tx, skipped)
        } else {
            match self.s.head() {
                Head::Media => {
                    let pausing = self.s.device_active && self.s.has_context();
                    let r = if pausing {
                        self.pause(now).spirc(SpircCmd::Next).owner(Some(PauseOwner::BotForMedia))
                    } else {
                        self
                    };
                    r.emit(EffectModel::ClearBridge).start_head(Run::gate(pausing)).reply(
                        tx,
                        skipped,
                    )
                },
                Head::Spotify(uri) => {
                    let r = self.claim_device();
                    if !self.claimable() {
                        r.reply(
                            tx,
                            "No Spotify session — run `/login` to connect."@,
                        )
                    } else if r.s.sp is Idle {
                        r.begin_load(uri, now).reply(tx, skipped)
                    } else {
                        r.maybe_arm(now).advance().active(
                            Active::SpotifyPending { uri, sent: now, retried: false },
                        ).pending_timer().reply(tx, skipped)
                    }
                },
                Head::Empty => if self.s.device_active && self.s.has_context() {
                    self.advance().reply(tx, skipped)
                } else {
                    self.reply(tx, "Nothing is playing right now."@)
                },
            }
        }
    }

    #[verifier::opaque]
    pub open spec fn stop(self, tx: oneshot::Sender<String>, leave_voice: bool, now: u64) -> Run {
        let n = self.s.queue.items.len();
        let text = if n == 0 {
            "⏹ Stopped and left the channel."@
        } else {
            "⏹ Stopped and left the channel. "@ + crate::text::decimal(n)
                + " queued track(s) kept — use `/clear` to drop them."@
        };
        let r = if self.s.active is Media {
            self.emit(EffectModel::CancelMedia)
        } else {
            self
        };
        let r = if self.s.device_active {
            r.with(
                StateModel {
                    pauses: if self.s.sp is Playing {
                        with_pause(self.s.pauses, now)
                    } else {
                        self.s.pauses
                    },
                    device_active: false,
                    armed: None,
                    sp: SpDevice::Inactive,
                    ..self.s
                },
            ).spirc(SpircCmd::Disconnect)
        } else {
            r
        };
        let r = r.emit(EffectModel::ClearBridge);
        let r = if leave_voice {
            r.emit(EffectModel::LeaveVoice)
        } else {
            r
        };
        r.with(
            StateModel {
                armed_snapshot: None,
                awaiting_jump: None,
                history_cursor: None,
                pending_request: None,
                last_heard_track: None,
                active: Active::Nobody,
                voice: VoiceStatus::Down,
                pause_owner: None,
                ..r.s
            },
        ).idle_presence().reply(tx, text)
    }

    #[verifier::opaque]
    pub open spec fn play(self, tx: oneshot::Sender<String>, now: u64) -> Run {
        if self.s.audible() {
            self.reply(
                tx,
                "❌ Something is already playing — give `/play` a link or file, or use ⏯ to pause."@,
            )
        } else {
            self.toggle_pause(tx, now)
        }
    }

    /// Resume the baseline from its context.
    pub open spec fn resume_baseline(self) -> Run {
        self.ensure_voice().spirc(SpircCmd::Play).owner(None).active(
            Active::Spotify { track: None },
        )
    }

    /// ▶ by a human while this is not the active Connect device.
    #[verifier::opaque]
    pub open spec fn take_over(self, tx: oneshot::Sender<String>, now: u64) -> Run {
        let r = self.activated().ensure_voice();
        let starting = "▶ Taking over the Spotify device — starting **"@;
        match r.s.head() {
            Head::Media => r.start_head(StartGate::Immediate).reply(
                tx,
                starting + r.s.queue.items[0].source.title() + "**."@,
            ),
            Head::Spotify(uri) => if r.s.sp is Idle {
                r.begin_load(uri, now).reply(
                    tx,
                    starting + r.s.queue.items[0].source.title() + "**."@,
                )
            } else {
                r.reply(tx, "▶ Taking over the Spotify device."@)
            },
            Head::Empty => r.reply(tx, "▶ Taking over the Spotify device."@),
        }
    }

    #[verifier::opaque]
    pub open spec fn toggle_pause(self, tx: oneshot::Sender<String>, now: u64) -> Run {
        match self.s.active {
            Active::Media { item, paused, epoch } => self.active(
                Active::Media { item, paused: !paused, epoch },
            ).emit(
                EffectModel::TrackHandle(
                    if paused {
                        TrackHandleCmd::Resume
                    } else {
                        TrackHandleCmd::Pause
                    },
                ),
            ).reply(
                tx,
                if paused {
                    "▶ Resumed"@
                } else {
                    "⏸ Paused"@
                },
            ),
            _ => if self.s.sp is Playing {
                self.pause(now).owner(Some(PauseOwner::Human)).reply(tx, "⏸ Paused"@)
            } else if !self.s.device_active {
                self.take_over(tx, now)
            } else {
                match self.s.head() {
                    Head::Media => {
                        let advancing = self.s.sp is Boundary;
                        let r = if advancing {
                            self.pause(now).owner(Some(PauseOwner::BotForMedia))
                        } else {
                            self
                        };
                        r.start_head(Run::gate(advancing)).reply(tx, "▶ Playing now"@)
                    },
                    Head::Spotify(uri) => if self.s.sp is Idle {
                        self.begin_load(uri, now).reply(tx, "▶ Playing now"@)
                    } else {
                        self.maybe_arm(now).resume_baseline().reply(tx, "▶ Resumed"@)
                    },
                    Head::Empty => if self.s.sp is Paused || self.s.sp is Boundary {
                        self.resume_baseline().reply(tx, "▶ Resumed"@)
                    } else {
                        self.reply(tx, "Nothing is playing right now."@)
                    },
                }
            },
        }
    }

    #[verifier::opaque]
    pub open spec fn previous(self, tx: oneshot::Sender<String>) -> Run {
        if self.s.active is Media {
            self.reply(tx, "❌ Previous isn't available during queue playback."@)
        } else if !(self.s.device_active && self.s.has_context()) {
            self.reply(tx, "Nothing is playing right now."@)
        } else if self.s.pending_reply is Some {
            self.reply(tx, "⏮ Already going back — one moment."@)
        } else {
            self.emit(EffectModel::ResolvePrevious { before: self.s.history_cursor }).with(
                StateModel { pending_reply: Some(tx), ..self.s },
            )
        }
    }

    #[verifier::opaque]
    pub open spec fn previous_resolved(self, track: Option<PreviousTrack>) -> Run {
        match self.s.pending_reply {
            None => self,
            Some(tx) => {
                let r = self.with(StateModel { pending_reply: None, ..self.s });
                if !self.s.device_active {
                    r.reply(tx, "Nothing is playing right now."@)
                } else {
                    match track {
                        Some(PreviousTrack { id, uri, context_uri: Some(context_uri) }) => r.with(
                            StateModel {
                                history_cursor: Some(id),
                                awaiting_jump: Some(PendingJump::Context(uri)),
                                ..r.s
                            },
                        ).spirc(
                            SpircCmd::LoadContext {
                                context_uri,
                                track_uri: uri,
                                options: self.s.play_options,
                            },
                        ).reply(tx, "⏮ Previous track."@),
                        Some(PreviousTrack { id, uri, context_uri: None }) => r.with(
                            StateModel {
                                awaiting_jump: Some(PendingJump::Previous { cursor: id }),
                                ..r.s
                            },
                        ).spirc(SpircCmd::Previous).reply(tx, "⏮ Previous track."@),
                        None => r.reply(
                            tx,
                            "❌ Nothing further back — this is the earliest track I have a record of."@,
                        ),
                    }
                }
            },
        }
    }

    #[verifier::opaque]
    pub open spec fn activate_device(self, now: u64) -> Run {
        if self.s.device_active {
            self
        } else {
            self.activated().maybe_arm(now)
        }
    }

    #[verifier::opaque]
    pub open spec fn query(
        self,
        tx: oneshot::Sender<crate::player::state::PlayerSnapshot>,
    ) -> Run {
        self.emit(EffectModel::ReplySnapshot(tx, self.s.snapshot()))
    }

    // --- boundaries and timers ------------------------------------------

    /// Who plays next once a media item finished or was cancelled.
    #[verifier::opaque]
    pub open spec fn after_media(self, now: u64) -> Run {
        match self.s.head() {
            Head::Media => self.start_head(StartGate::Immediate).maybe_arm(now),
            Head::Spotify(uri) => {
                let r = self.claim_device();
                if !self.claimable() {
                    r.active(Active::Nobody)
                } else if r.s.sp is Idle {
                    r.begin_load(uri, now)
                } else {
                    let r = r.maybe_arm(now);
                    match r.s.pause_owner {
                        Some(PauseOwner::BotForMedia) => {
                            let cued_is_head = match r.s.sp {
                                SpDevice::Paused(u) => u@ == uri@,
                                SpDevice::Playing(u) => u@ == uri@,
                                _ => false,
                            };
                            let head_confirmed = r.s.armed matches Some(a) && a.uri@ == uri@
                                && a.ack is Confirmed;
                            if !cued_is_head && head_confirmed {
                                r.owner(None).spirc(SpircCmd::Next).spirc(SpircCmd::Play).active(
                                    Active::SpotifyPending { uri, sent: now, retried: false },
                                ).pending_timer()
                            } else {
                                r.owner(None).spirc(SpircCmd::Play).active(
                                    Active::Spotify { track: None },
                                )
                            }
                        },
                        Some(PauseOwner::Human) => r.active(Active::Nobody),
                        None => r.active(
                            if r.s.sp is Playing {
                                Active::Spotify { track: None }
                            } else {
                                Active::Nobody
                            },
                        ),
                    }
                }
            },
            Head::Empty => if self.s.pause_owner == Some(PauseOwner::BotForMedia)
                && self.s.device_active && (self.s.sp is Paused || self.s.sp is Boundary) {
                self.spirc(SpircCmd::Play).owner(None).active(Active::Spotify { track: None })
            } else if self.s.sp is Playing {
                self.active(Active::Spotify { track: None })
            } else {
                self.active(Active::Nobody).idle_presence()
            },
        }
    }

    pub open spec fn media_ended(self, epoch: u64, now: u64) -> Run {
        match self.s.active {
            Active::Media { epoch: e, .. } => if e == epoch {
                self.after_media(now)
            } else {
                self
            },
            _ => self,
        }
    }

    #[verifier::opaque]
    pub open spec fn voice_lost(self) -> Run {
        let r = self.with(StateModel { voice: VoiceStatus::Down, ..self.s });
        if self.s.active is Media {
            r.emit(EffectModel::CancelMedia).emit(EffectModel::ClearBridge).with(
                StateModel {
                    active: Active::Nobody,
                    media_epoch: (self.s.media_epoch + 1) as u64,
                    ..r.s
                },
            )
        } else {
            r
        }
    }

    #[verifier::opaque]
    pub open spec fn arm_ack_tick(self, now: u64) -> Run {
        match self.s.armed {
            Some(Armed { item_id, uri, ack: Ack::Sent(at) }) => if elapsed(now, at)
                >= crate::player::state::ARM_ACK_TIMEOUT {
                self.with(
                    StateModel { armed: Some(Armed { item_id, uri, ack: Ack::Lost }), ..self.s },
                )
            } else {
                self
            },
            _ => self,
        }
    }

    #[verifier::opaque]
    pub open spec fn pending_tick(self, now: u64) -> Run {
        match self.s.active {
            Active::SpotifyPending { uri, sent, retried } => if elapsed(now, sent)
                < crate::player::state::PENDING_TIMEOUT {
                self
            } else if !self.s.device_active {
                self.active(Active::Nobody).emit(EffectModel::Ui(UiModel::TakeoverPrompt))
            } else if self.s.sp is Idle && !retried {
                self.active(Active::SpotifyPending { uri, sent: now, retried: true }).spirc(
                    SpircCmd::Load(uri),
                ).pending_timer()
            } else if self.s.sp is Playing {
                self.active(Active::Spotify { track: None })
            } else {
                self.active(Active::Nobody).notice(
                    "Couldn't start the queued Spotify track — skipping it for now."@,
                )
            },
            _ => self,
        }
    }

    #[verifier::opaque]
    pub open spec fn snapshot_tick(self, now: u64) -> Run {
        match self.s.armed_snapshot {
            Some(s) => if elapsed(now, s.at) >= crate::player::state::SNAPSHOT_TTL {
                self.with(StateModel { armed_snapshot: None, ..self.s })
            } else {
                self
            },
            None => self,
        }
    }

    pub open spec fn tick(self, kind: TimerKind, now: u64) -> Run {
        match kind {
            TimerKind::ArmAck => self.arm_ack_tick(now),
            TimerKind::SpotifyPending => self.pending_tick(now),
            TimerKind::SnapshotExpiry => self.snapshot_tick(now),
        }
    }

    // --- the session link -----------------------------------------------

    #[verifier::opaque]
    pub open spec fn link_up(self, gen: u64, now: u64) -> Run {
        let restore = self.s.snapshot_restorable(now);
        let owed = self.s.owes_resume();
        let r = self.with(
            StateModel {
                link_gen: gen,
                link_up: true,
                device_active: false,
                sp: SpDevice::Inactive,
                pauses: Seq::empty(),
                context_uri: None,
                play_options: PlayOptions {
                    shuffle: false,
                    repeat_context: false,
                    repeat_track: false,
                },
                awaiting_jump: None,
                history_cursor: None,
                pending_request: None,
                armed_snapshot: None,
                ..self.s
            },
        );
        let r = if restore || owed {
            r.spirc(SpircCmd::Transfer)
        } else {
            r
        };
        let r = if restore {
            let a = self.s.armed_snapshot->0.armed;
            r.with(
                StateModel {
                    armed: Some(Armed { item_id: a.item_id, uri: a.uri, ack: Ack::Sent(now) }),
                    ..r.s
                },
            ).arm_timer()
        } else {
            r
        };
        if owed {
            r.spirc(SpircCmd::Play).owner(None).active(Active::Spotify { track: None })
        } else {
            r
        }
    }

    #[verifier::opaque]
    pub open spec fn link_down(self, gen: u64, now: u64) -> Run {
        if gen != self.s.link_gen {
            self
        } else {
            let r = self.with(
                StateModel {
                    device_active: false,
                    sp: SpDevice::Inactive,
                    link_up: false,
                    awaiting_jump: None,
                    history_cursor: None,
                    pending_request: None,
                    ..self.s
                },
            );
            let r = match self.s.armed {
                Some(a) => r.with(
                    StateModel {
                        armed: None,
                        armed_snapshot: Some(ArmSnapshot { armed: a, at: now }),
                        ..r.s
                    },
                ).emit(
                    EffectModel::SetTimer(
                        TimerKind::SnapshotExpiry,
                        crate::player::state::SNAPSHOT_TTL,
                    ),
                ),
                None => r,
            };
            if self.s.spotify_turn() {
                let r = r.emit(EffectModel::ClearBridge);
                if r.s.head() is Media {
                    r.start_head(StartGate::Immediate)
                } else {
                    r.active(Active::Nobody).notice(
                        "Spotify session lost — reconnecting. Queued items stay queued."@,
                    ).idle_presence()
                }
            } else {
                r
            }
        }
    }

    pub open spec fn link_reconnecting(self, gen: u64) -> Run {
        if gen == self.s.link_gen && self.s.spotify_turn() {
            self.emit(EffectModel::ClearBridge)
        } else {
            self
        }
    }

    // --- Spotify telemetry ----------------------------------------------

    /// Where back-navigation stands once `uri` plays.
    pub open spec fn settled_cursor(self, uri: SpotifyUri) -> Option<i64> {
        let moved = self.s.last_heard_track != Some(uri@.text);
        match self.s.awaiting_jump {
            Some(PendingJump::Context(wanted)) => if wanted@ != uri@ {
                None
            } else {
                self.s.history_cursor
            },
            Some(PendingJump::Previous { cursor }) => if moved {
                Some(cursor)
            } else {
                self.s.history_cursor
            },
            None => if moved {
                None
            } else {
                self.s.history_cursor
            },
        }
    }

    /// A back-jump asked for another track than the one that plays.
    pub open spec fn jump_missed(self, uri: SpotifyUri) -> bool {
        self.s.awaiting_jump matches Some(PendingJump::Context(wanted)) && wanted@ != uri@
    }

    /// The request this airing answers: one still queued, else the one held
    /// over from a media turn.
    pub open spec fn answered_request(self, uri: SpotifyUri) -> Option<QueueItem> {
        let queued = self.s.request_for(uri);
        if queued is Some {
            queued
        } else if self.s.pending_request matches Some(i) && i.spotify_uri() == Some(uri@) {
            self.s.pending_request
        } else {
            None
        }
    }

    /// The bookkeeping of a `Playing`: device mirror, jump, request, arm.
    #[verifier::opaque]
    pub open spec fn playing_noted(self, uri: SpotifyUri) -> Run {
        let r = if self.jump_missed(uri) {
            self.notice(
                "⚠️ Spotify couldn't find that track in the playlist and started from the beginning instead."@,
            )
        } else {
            self
        };
        let queued = self.s.request_for(uri);
        let held = self.s.pending_request matches Some(i) && i.spotify_uri() == Some(uri@);
        let strayed = self.s.active matches Active::SpotifyPending { uri: wanted, .. } && wanted@
            != uri@;
        r.with(
            StateModel {
                sp: SpDevice::Playing(uri),
                device_active: true,
                awaiting_jump: None,
                history_cursor: self.settled_cursor(uri),
                queue: self.s.queue.without(self.s.request_index(uri)),
                pending_request: if queued is None && held {
                    None
                } else {
                    self.s.pending_request
                },
                armed: if self.s.armed_for(uri) || strayed {
                    None
                } else {
                    self.s.armed
                },
                ..self.s
            },
        )
    }

    #[verifier::opaque]
    pub open spec fn playing(self, uri: SpotifyUri, meta: Option<TrackMeta>, now: u64) -> Run {
        let popped = self.answered_request(uri);
        let from_arm = self.s.armed_for(uri);
        let same_track = self.s.last_heard_track == Some(uri@.text);
        let known = if meta is Some {
            meta
        } else if same_track && self.s.current_meta() is Some {
            self.s.current_meta()
        } else {
            match popped {
                Some(i) => request_meta(i.source),
                None => None,
            }
        };
        let r = self.playing_noted(uri);
        if self.s.active is Media {
            r.with(
                StateModel {
                    pending_request: if popped is Some {
                        popped
                    } else {
                        r.s.pending_request
                    },
                    ..r.s
                },
            ).pause(now).owner(Some(PauseOwner::BotForMedia))
        } else {
            let r = r.active(Active::Spotify { track: known }).owner(None).ensure_voice();
            let r = match known {
                Some(m) => {
                    let r = if same_track {
                        r
                    } else {
                        r.emit(
                            EffectModel::Ui(
                                UiModel::NowPlayingSpotify { uri, meta: Some(m) },
                            ),
                        ).emit(
                            EffectModel::RecordAired(
                                aired_spotify(r.s.context_uri, uri@.text, m, popped, from_arm),
                            ),
                        ).emit(
                            EffectModel::Announce(
                                AnnounceKind::Track { title: m.title, artist: m.artist },
                            ),
                        ).with(StateModel { last_heard_track: Some(uri@.text), ..r.s })
                    };
                    r.emit(EffectModel::Presence(PresenceState::Playing { uri, meta: m }))
                },
                None => if same_track {
                    r
                } else {
                    r.emit(EffectModel::ResolveMeta(uri))
                },
            };
            r.maybe_arm(now)
        }
    }

    #[verifier::opaque]
    pub open spec fn paused(self, uri: SpotifyUri, now: u64) -> Run {
        let echo = live_pauses(self.s.pauses, now).len() > 0;
        let r = self.with(
            StateModel {
                sp: SpDevice::Paused(uri),
                device_active: true,
                pauses: echoed_pause(self.s.pauses, now),
                pause_owner: if echo {
                    self.s.pause_owner
                } else {
                    Some(PauseOwner::Human)
                },
                ..self.s
            },
        );
        let r = if self.s.spotify_turn() {
            r.emit(EffectModel::ClearBridge)
        } else {
            r
        };
        match self.s.active {
            Active::Spotify { track: Some(m) } => r.emit(
                EffectModel::Presence(PresenceState::Paused { uri, meta: m }),
            ),
            _ => r,
        }
    }

    #[verifier::opaque]
    pub open spec fn stopped(self) -> Run {
        let r = self.with(
            StateModel {
                sp: if self.s.device_active {
                    SpDevice::Idle
                } else {
                    SpDevice::Inactive
                },
                pause_owner: None,
                ..self.s
            },
        );
        if self.s.spotify_turn() {
            let r = r.emit(EffectModel::ClearBridge);
            if r.s.head() is Media {
                r.start_head(StartGate::Immediate)
            } else {
                r.active(Active::Nobody).idle_presence()
            }
        } else {
            r
        }
    }

    #[verifier::opaque]
    pub open spec fn end_of_track(self, now: u64) -> Run {
        let r = self.with(StateModel { sp: SpDevice::Boundary, ..self.s });
        if self.s.active is Media || self.s.active is SpotifyPending {
            r
        } else {
            match self.s.head() {
                Head::Media => {
                    let pausing = self.s.device_active;
                    let r = if pausing {
                        r.owner(Some(PauseOwner::BotForMedia))
                    } else {
                        r
                    };
                    r.start_head(Run::gate(pausing))
                },
                Head::Spotify(_) => r.maybe_arm(now),
                Head::Empty => r,
            }
        }
    }

    /// The track we believe is audible.
    pub open spec fn believed_audible(self, uri: SpotifyUri) -> bool {
        match self.s.active {
            Active::SpotifyPending { uri: pending, .. } => pending@ == uri@,
            Active::Spotify { .. } => match self.s.sp {
                SpDevice::Playing(cur) => cur@ == uri@,
                SpDevice::Paused(cur) => cur@ == uri@,
                _ => false,
            },
            _ => false,
        }
    }

    #[verifier::opaque]
    pub open spec fn unavailable(self, uri: SpotifyUri, now: u64) -> Run {
        let r = if self.believed_audible(uri) {
            self.emit(EffectModel::ClearBridge)
        } else {
            self
        };
        if self.s.armed_for(uri) {
            r.with(
                StateModel {
                    armed: None,
                    queue: self.s.queue.without(self.s.request_index(uri)),
                    ..self.s
                },
            ).notice(
                "A queued Spotify track is unavailable and was dropped ("@ + uri@.text + ")."@,
            ).maybe_arm(now)
        } else {
            r.notice("Spotify reports a track as unavailable ("@ + uri@.text + ")."@)
        }
    }

    #[verifier::opaque]
    pub open spec fn track_changed(self, uri: SpotifyUri, meta: TrackMeta) -> Run {
        if self.s.active is Media {
            self
        } else {
            let r = if self.s.active is Spotify {
                self.active(Active::Spotify { track: Some(meta) })
            } else {
                self
            };
            if self.s.last_heard_track != Some(uri@.text) && self.s.spotify_turn() {
                r.emit(
                    EffectModel::Ui(UiModel::NowPlayingSpotify { uri, meta: Some(meta) }),
                ).emit(
                    EffectModel::RecordAired(
                        aired_spotify(
                            self.s.context_uri,
                            uri@.text,
                            meta,
                            self.s.request_for(uri),
                            self.s.armed_for(uri),
                        ),
                    ),
                ).with(StateModel { last_heard_track: Some(uri@.text), ..r.s })
            } else {
                r
            }
        }
    }

    /// Some listed uri names this item.
    pub open spec fn lists(uris: Seq<SpotifyUri>, uri: SpotifyUri) -> bool {
        exists|k: int| 0 <= k < uris.len() && (#[trigger] uris[k])@ == uri@
    }

    #[verifier::opaque]
    pub open spec fn set_queue(
        self,
        current: Option<SpotifyUri>,
        queued: Seq<SpotifyUri>,
        context_uri: Option<String>,
        now: u64,
    ) -> Run {
        let r = if context_uri is Some {
            self.with(StateModel { context_uri: crate::text::text_of(context_uri), ..self.s })
        } else {
            self
        };
        match self.s.armed {
            None => r,
            Some(a) => {
                let is_current = current matches Some(c) && c@ == a.uri@;
                if Run::lists(queued, a.uri) {
                    r.with(
                        StateModel {
                            armed: Some(
                                Armed { item_id: a.item_id, uri: a.uri, ack: Ack::Confirmed },
                            ),
                            ..r.s
                        },
                    )
                } else if a.ack is Confirmed && !is_current {
                    r.with(
                        StateModel {
                            armed: None,
                            queue: self.s.queue.without(self.s.request_index(a.uri)),
                            ..r.s
                        },
                    ).notice(
                        "A queued Spotify track was removed from the device's queue — dropped here too."@,
                    ).maybe_arm(now)
                } else {
                    r
                }
            },
        }
    }

    #[verifier::opaque]
    pub open spec fn session_disconnected(self) -> Run {
        self.with(
            StateModel {
                device_active: false,
                sp: SpDevice::Inactive,
                awaiting_jump: None,
                history_cursor: None,
                pending_request: None,
                armed: match self.s.armed {
                    Some(a) => if a.ack is Confirmed {
                        Some(a)
                    } else {
                        None
                    },
                    None => None,
                },
                ..self.s
            },
        )
    }

    /// Telemetry of the current session.
    pub open spec fn transport(self, ev: TransportEvent, now: u64) -> Run {
        match ev {
            TransportEvent::Playing { uri, meta } => self.playing(uri, meta, now),
            TransportEvent::Paused { uri } => self.paused(uri, now),
            TransportEvent::Stopped => self.stopped(),
            TransportEvent::EndOfTrack => self.end_of_track(now),
            TransportEvent::Unavailable { uri } => self.unavailable(uri, now),
            TransportEvent::TrackChanged { uri, meta } => self.track_changed(uri, meta),
            TransportEvent::SetQueue { current, queued, context_uri } => self.set_queue(
                current,
                queued@,
                context_uri,
                now,
            ),
            TransportEvent::OptionsChanged { shuffle, repeat_context, repeat_track } => self.with(
                StateModel {
                    play_options: PlayOptions { shuffle, repeat_context, repeat_track },
                    ..self.s
                },
            ),
            TransportEvent::SessionConnected => self,
            TransportEvent::SessionDisconnected => self.session_disconnected(),
        }
    }

    /// What one input does to the player.
    #[verifier::opaque]
    pub open spec fn input(self, input: Input, now: u64) -> Run {
        match input {
            Input::Enqueue { item, pos, start_if_idle, reply } => self.enqueue(
                item,
                pos,
                start_if_idle,
                reply,
                now,
            ),
            Input::Skip { reply } => self.skip(reply, now),
            Input::Stop { reply, leave_voice } => self.stop(reply, leave_voice, now),
            Input::TogglePause { reply } => self.toggle_pause(reply, now),
            Input::Previous { reply } => self.previous(reply),
            Input::MediaEnded { epoch, outcome } => self.media_ended(epoch, now),
            Input::Transport { gen, ev } => if gen == self.s.link_gen {
                self.transport(ev, now)
            } else {
                self
            },
            Input::LinkUp { gen } => self.link_up(gen, now),
            Input::LinkDown { gen } => self.link_down(gen, now),
            Input::LinkReconnecting { gen } => self.link_reconnecting(gen),
            Input::VoiceReady => self.with(StateModel { voice: VoiceStatus::Ready, ..self.s }),
            Input::VoiceLost => self.voice_lost(),
            Input::Play { reply } => self.play(reply, now),
            Input::ActivateDevice => self.activate_device(now),
            Input::PreviousResolved { track } => self.previous_resolved(track),
            Input::ClearQueue { reply } => self.clear_queue(reply),
            Input::RestoreQueue { items } => self.restore_queue(items@, now),
            Input::Query { reply } => self.query(reply),
            Input::Tick(kind) => self.tick(kind, now),
        }
    }
}

} // verus!
