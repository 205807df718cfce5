//! The shell around the core: what is done with an input before and after
//! [`step`], as a list of actions for the process to carry out.
//!
//! One task owns an [`Actor`] and a mailbox. The actor awaits nothing, ever:
//! every action is a synchronous send, a store, a cancel or a spawn, so a
//! step can never park the mailbox behind IO. Asynchronous completions come
//! back as inputs, tagged so that the core ignores stale ones.
//!
//! Two things are shell state rather than core state: the bridge's music
//! drain follows raw transport telemetry while its reader stays live for
//! overlays, and the status line's view of a running media item.

use tokio::sync::oneshot;
use vstd::prelude::*;

use crate::player::model::{AiredModel, EffectModel, Run, SnapshotModel, StateModel, UiModel};
use crate::player::state::{
    step, Active, AiredTrack, AnnounceKind, Effect, Input, MediaOutcome, NowPlaying, PlayerSnapshot,
    PlayerState, PresenceState, PreviousTrack, SpDevice, SpircCmd, StartGate, TimerKind,
    TrackHandleCmd, TrackMeta, TransportEvent, UiMsg,
};
use crate::presence::{PresenceUpdate, StatusModel};
use crate::queue::{MediaSource, PriorityQueue, QueueItem};
use crate::text::{cat3, decimal_text, tail_after};
use crate::uri::SpotifyUri;
use crate::youtube::feeder::FeederError;

verus! {

/// Reply used when the actor task is gone.
pub const NO_ACTOR_REPLY: &'static str = "⚠️ The player didn't respond — try again.";

/// How long a gated media runner waits for the Spotify pause ack before
/// starting anyway.
pub const PAUSE_ACK_FALLBACK_MS: u64 = 500;

/// Discord-side UI requests.
#[derive(Debug)]
pub enum UiEvent {
    /// A queue (YouTube/file) item took the turn: post its card.
    NowPlayingMedia { item: QueueItem },
    /// The Spotify baseline took the turn on a new track: post its card.
    NowPlayingSpotify { uri: SpotifyUri, meta: Option<TrackMeta> },
    /// A queue item finished naturally: post its history embed.
    HistoryMedia { item: QueueItem },
    /// Delete the current card and post the idle controls card.
    IdleCard,
    /// Repaint the card's pause/resume button.
    Buttons { paused: bool },
}

/// Membership a request was made under, checked again when it runs.
#[derive(Clone, Copy, Debug, PartialEq, Eq, Structural)]
pub struct VoiceGuard {
    pub generation: u64,
    pub room: u64,
    pub user: u64,
    pub may_join: bool,
}

/// What arrives in the actor's mailbox: an input, perhaps on behalf of
/// someone in a voice room.
#[derive(Debug)]
pub enum Mail {
    Plain(Input),
    Guarded { guard: VoiceGuard, input: Input },
}

/// An input under the guard of the handle it is sent through.
pub fn addressed(guard: Option<VoiceGuard>, input: Input) -> (r: Mail)
    ensures
        r == (match guard {
            Some(guard) => Mail::Guarded { guard, input },
            None => Mail::Plain(input),
        }),
{
    match guard {
        Some(guard) => Mail::Guarded { guard, input },
        None => Mail::Plain(input),
    }
}

/// A snapshot of a player that is not there.
pub fn empty_snapshot() -> (r: PlayerSnapshot)
    ensures
        r@ == StateModel::fresh().snapshot(),
{
    let r = PlayerSnapshot {
        now: NowPlaying::Nothing,
        queue_len: 0,
        preview: Vec::new(),
        more: 0,
        device_active: false,
        link_up: false,
    };
    assert(r@.preview =~= StateModel::fresh().snapshot().preview);
    r
}

/// What became of a piece of mail.
#[derive(Debug)]
pub enum Admission {
    /// Run it, on behalf of the guard's user if there is one.
    Run { input: Input, guard: Option<VoiceGuard> },
    /// The guard no longer holds; whoever waits is told so.
    Refused(Option<(oneshot::Sender<String>, String)>),
}

/// The channel a refused command is answered on.
pub open spec fn refused_reply(input: Input) -> Option<oneshot::Sender<String>> {
    match input {
        Input::Enqueue { reply, .. } => Some(reply),
        Input::Play { reply } => Some(reply),
        Input::Skip { reply } => Some(reply),
        Input::Stop { reply, .. } => Some(reply),
        Input::TogglePause { reply } => Some(reply),
        Input::Previous { reply } => Some(reply),
        Input::ClearQueue { reply } => Some(reply),
        _ => None,
    }
}

/// Guard failure releases the waiting command without ever touching playback.
pub fn reject_guarded(input: Input) -> (r: Option<(oneshot::Sender<String>, String)>)
    ensures
        match r {
            Some((tx, text)) => refused_reply(input) == Some(tx) && text@
                == "Your voice room or this music session changed. Open a fresh menu."@,
            None => refused_reply(input) is None,
        },
{
    let reply = match input {
        Input::Enqueue { reply, .. } => reply,
        Input::Play { reply } => reply,
        Input::Skip { reply } => reply,
        Input::Stop { reply, .. } => reply,
        Input::TogglePause { reply } => reply,
        Input::Previous { reply } => reply,
        Input::ClearQueue { reply } => reply,
        _ => return None,
    };
    Some(
        (
            reply,
            "Your voice room or this music session changed. Open a fresh menu.".to_owned(),
        ),
    )
}

/// `r` is what becomes of a piece of mail under this check.
pub open spec fn admits<F: Fn(&VoiceGuard) -> bool>(
    authorize: F,
    mail: Mail,
    r: Admission,
) -> bool {
    match mail {
        Mail::Plain(input) => r == (Admission::Run { input, guard: None }),
        Mail::Guarded { guard, input } => match r {
            Admission::Run { input: i, guard: g } => {
                &&& call_ensures(authorize, (&guard,), true)
                &&& i == input
                &&& g == Some(guard)
            },
            Admission::Refused(answer) => {
                &&& call_ensures(authorize, (&guard,), false)
                &&& match answer {
                    Some((tx, text)) => refused_reply(input) == Some(tx) && text@
                        == "Your voice room or this music session changed. Open a fresh menu."@,
                    None => refused_reply(input) is None,
                }
            },
        },
    }
}

/// Admit a piece of mail: a guarded one only while its guard still holds.
pub fn authorize_input(mail: Mail, authorize: impl Fn(&VoiceGuard) -> bool) -> (r: Admission)
    requires
        forall|g: VoiceGuard| #[trigger] call_requires(authorize, (&g,)),
    ensures
        admits(authorize, mail, r),
{
    match mail {
        Mail::Plain(input) => Admission::Run { input, guard: None },
        Mail::Guarded { guard, input } => {
            if !authorize(&guard) {
                return Admission::Refused(reject_guarded(input));
            }
            Admission::Run { input, guard: Some(guard) }
        },
    }
}

/// Who the one back-read still allowed to finish was made for.
#[derive(Clone, Copy, Debug, PartialEq, Eq, Structural)]
pub struct PreviousAuthorization {
    pub request_id: u64,
    pub guard: Option<VoiceGuard>,
}

/// A history read that came back.
#[derive(Debug)]
pub struct BackCompletion {
    pub request_id: u64,
    pub track: Option<PreviousTrack>,
    pub authorized: bool,
}

/// What `authorize` says of the guard; without one, everything is allowed.
pub open spec fn granted<F: Fn(&VoiceGuard) -> bool>(
    authorize: F,
    guard: Option<VoiceGuard>,
    allowed: bool,
) -> bool {
    match guard {
        Some(guard) => call_ensures(authorize, (&guard,), allowed),
        None => allowed,
    }
}

/// `after` is what is left of a read that came back, and `left` of the
/// authorization it was waited for under.
pub open spec fn settles_read<F: Fn(&VoiceGuard) -> bool>(
    authorize: F,
    done: BackCompletion,
    pending: Option<PreviousAuthorization>,
    after: BackCompletion,
    left: Option<PreviousAuthorization>,
) -> bool {
    &&& after.request_id == done.request_id
    &&& after.track == done.track
    &&& match pending {
        Some(p) => if p.request_id == done.request_id {
            &&& left is None
            &&& exists|allowed: bool| #[trigger]
                granted(authorize, p.guard, allowed) && after.authorized == (done.authorized
                    && allowed)
        } else {
            left == pending && !after.authorized
        },
        None => left is None && !after.authorized,
    }
}

/// A stale result must never consume a newer caller's authorization. Trusted
/// internal requests have no guard; guarded requests recheck membership.
pub fn authorize_previous_completion(
    done: &mut BackCompletion,
    pending: &mut Option<PreviousAuthorization>,
    authorize: impl Fn(&VoiceGuard) -> bool,
)
    requires
        forall|g: VoiceGuard| #[trigger] call_requires(authorize, (&g,)),
    ensures
        settles_read(authorize, *old(done), *old(pending), *final(done), *final(pending)),
{
    let matched = match pending {
        Some(p) => p.request_id == done.request_id,
        None => false,
    };
    if !matched {
        done.authorized = false;
        return;
    }
    if let Some(p) = pending.take() {
        let allowed = match p.guard {
            Some(guard) => authorize(&guard),
            None => true,
        };
        assert(granted(authorize, p.guard, allowed));
        done.authorized = done.authorized && allowed;
    }
}

/// Spotify echoes may not release a media item's human pause. All other
/// transport pause decisions affect only music; overlay consumption is live.
pub open spec fn music_pause(active: Active, ev: TransportEvent) -> Option<bool> {
    match active {
        Active::Media { paused, .. } => if ev is Playing {
            Some(paused)
        } else {
            None
        },
        _ => if ev is Playing {
            Some(false)
        } else if ev is Paused || ev is Stopped || ev is EndOfTrack || ev is Unavailable {
            Some(true)
        } else {
            None
        },
    }
}

/// Whether telemetry freezes or releases the music in the bridge.
pub fn music_pause_for_transport(active: &Active, ev: &TransportEvent) -> (r: Option<bool>)
    ensures
        r == music_pause(*active, *ev),
{
    if let Active::Media { paused, .. } = active {
        return if matches!(ev, TransportEvent::Playing { .. }) {
            Some(*paused)
        } else {
            None
        };
    }
    match ev {
        TransportEvent::Playing { .. } => Some(false),
        TransportEvent::Paused { .. } => Some(true),
        TransportEvent::Stopped => Some(true),
        TransportEvent::EndOfTrack => Some(true),
        TransportEvent::Unavailable { .. } => Some(true),
        _ => None,
    }
}

/// One thing for the process to do.
#[derive(Debug)]
pub enum Action {
    /// Drop all buffered audio, overlays included.
    ClearBridge,
    /// Drop buffered music; a running overlay keeps playing.
    ClearMusic,
    SetMusicPaused(bool),
    /// Spotify samples reach the bridge only when no media item holds the
    /// turn.
    SetSpotifyMuted(bool),
    /// Let the shared bridge reader run.
    PlayReader,
    /// Release the media runner that waits for a pause ack.
    OpenGate,
    Ui(UiEvent),
    Notice(String),
    Status(PresenceUpdate),
    /// Persist the queue as it stands.
    SaveQueue(Vec<QueueItem>),
    RecordAired(AiredTrack),
    /// Read the history and report back under this id.
    ReadPrevious { request_id: u64, before: Option<i64> },
    Spirc(SpircCmd),
    /// Start a media runner; `Some(open)` gives it a gate, already open when
    /// no pause ack is coming.
    StartRunner { item: QueueItem, epoch: u64, gate: Option<bool> },
    SetFeederPaused(bool),
    CancelRunner,
    /// Look a track up and report it as changed, under this generation.
    LookupTrack { uri: SpotifyUri, gen: u64 },
    LeaveVoice,
    /// Join voice, following this user when a fresh join is needed.
    JoinVoice { hint: Option<u64> },
    AnnounceTrack { title: String, artist: String },
    StartTimer(TimerKind, u64),
    Reply(oneshot::Sender<String>, String),
    ReplySnapshot(oneshot::Sender<PlayerSnapshot>, PlayerSnapshot),
}

/// An action with its texts as characters.
pub enum ActionModel {
    ClearBridge,
    ClearMusic,
    SetMusicPaused(bool),
    SetSpotifyMuted(bool),
    PlayReader,
    OpenGate,
    Ui(UiEvent),
    Notice(Seq<char>),
    Status(StatusModel),
    SaveQueue(Seq<QueueItem>),
    RecordAired(AiredModel),
    ReadPrevious { request_id: u64, before: Option<i64> },
    Spirc(SpircCmd),
    StartRunner { item: QueueItem, epoch: u64, gate: Option<bool> },
    SetFeederPaused(bool),
    CancelRunner,
    LookupTrack { uri: SpotifyUri, gen: u64 },
    LeaveVoice,
    JoinVoice { hint: Option<u64> },
    AnnounceTrack { title: Seq<char>, artist: Seq<char> },
    StartTimer(TimerKind, u64),
    Reply(oneshot::Sender<String>, Seq<char>),
    ReplySnapshot(oneshot::Sender<PlayerSnapshot>, SnapshotModel),
}

impl View for Action {
    type V = ActionModel;

    open spec fn view(&self) -> ActionModel {
        match *self {
            Action::ClearBridge => ActionModel::ClearBridge,
            Action::ClearMusic => ActionModel::ClearMusic,
            Action::SetMusicPaused(b) => ActionModel::SetMusicPaused(b),
            Action::SetSpotifyMuted(b) => ActionModel::SetSpotifyMuted(b),
            Action::PlayReader => ActionModel::PlayReader,
            Action::OpenGate => ActionModel::OpenGate,
            Action::Ui(e) => ActionModel::Ui(e),
            Action::Notice(t) => ActionModel::Notice(t@),
            Action::Status(u) => ActionModel::Status(u@),
            Action::SaveQueue(items) => ActionModel::SaveQueue(items@),
            Action::RecordAired(t) => ActionModel::RecordAired(t@),
            Action::ReadPrevious { request_id, before } => ActionModel::ReadPrevious {
                request_id,
                before,
            },
            Action::Spirc(cmd) => ActionModel::Spirc(cmd),
            Action::StartRunner { item, epoch, gate } => ActionModel::StartRunner {
                item,
                epoch,
                gate,
            },
            Action::SetFeederPaused(b) => ActionModel::SetFeederPaused(b),
            Action::CancelRunner => ActionModel::CancelRunner,
            Action::LookupTrack { uri, gen } => ActionModel::LookupTrack { uri, gen },
            Action::LeaveVoice => ActionModel::LeaveVoice,
            Action::JoinVoice { hint } => ActionModel::JoinVoice { hint },
            Action::AnnounceTrack { title, artist } => ActionModel::AnnounceTrack {
                title: title@,
                artist: artist@,
            },
            Action::StartTimer(kind, nanos) => ActionModel::StartTimer(kind, nanos),
            Action::Reply(tx, text) => ActionModel::Reply(tx, text@),
            Action::ReplySnapshot(tx, snap) => ActionModel::ReplySnapshot(tx, snap@),
        }
    }
}

/// Actions with their texts as characters.
pub open spec fn actions(list: Seq<Action>) -> Seq<ActionModel> {
    Seq::new(list.len(), |i: int| list[i]@)
}

/// Append an action.
fn act(out: &mut Vec<Action>, a: Action)
    ensures
        actions(final(out)@) == actions(old(out)@).push(a@),
{
    out.push(a);
    assert(actions(out@) =~= actions(old(out)@).push(a@));
}

/// What the shell remembers between inputs.
#[derive(Debug)]
pub struct Shell {
    /// Voice membership captured for the one back-read still allowed to
    /// finish.
    pub previous_authorization: Option<PreviousAuthorization>,
    /// Reads of the history asked for so far.
    pub reads: u64,
    /// A media runner waits for a pause ack; the next one releases it.
    pub gate_pending: bool,
    /// A media runner is live and can be cancelled.
    pub feeder_live: bool,
    /// Title and artist of the running media item as last shown on the status
    /// line.
    pub media_status: Option<(String, String)>,
    /// Last pause state painted onto the card's ⏯ button, so telemetry echoes
    /// don't repaint an unchanged card.
    pub buttons_paused: bool,
}

/// The shell's memory with its texts as characters.
pub struct ShellModel {
    pub previous_authorization: Option<PreviousAuthorization>,
    pub reads: u64,
    pub gate_pending: bool,
    pub feeder_live: bool,
    pub media_status: Option<(Seq<char>, Seq<char>)>,
    pub buttons_paused: bool,
}

impl View for Shell {
    type V = ShellModel;

    open spec fn view(&self) -> ShellModel {
        ShellModel {
            previous_authorization: self.previous_authorization,
            reads: self.reads,
            gate_pending: self.gate_pending,
            feeder_live: self.feeder_live,
            media_status: match self.media_status {
                Some((title, artist)) => Some((title@, artist@)),
                None => None,
            },
            buttons_paused: self.buttons_paused,
        }
    }
}

/// The shell part-way through an input: its memory and the actions so far.
pub struct Work {
    pub sh: ShellModel,
    pub out: Seq<ActionModel>,
}

impl Work {
    pub open spec fn of(sh: Shell, out: Seq<Action>) -> Work {
        Work { sh: sh@, out: actions(out) }
    }

    pub open spec fn act(self, a: ActionModel) -> Work {
        Work { out: self.out.push(a), ..self }
    }

    pub open spec fn with(self, sh: ShellModel) -> Work {
        Work { sh, ..self }
    }

    /// A stop or the loss of voice silences both lanes before the core runs.
    pub open spec fn reset_audio(self, input: Input) -> Work {
        if input is Stop || input is VoiceLost {
            self.act(ActionModel::ClearBridge)
        } else {
            self
        }
    }

    /// Gate music drainage from raw Spotify telemetry, and mirror the
    /// baseline's pause state onto the card's button while it owns the card.
    #[verifier::opaque]
    pub open spec fn drive_reader(self, active: Active, ev: TransportEvent) -> Work {
        let w = match music_pause(active, ev) {
            Some(paused) => self.act(ActionModel::SetMusicPaused(paused)),
            None => self,
        };
        if ev is Playing {
            let w = w.act(ActionModel::PlayReader);
            if !(active is Media) && w.sh.buttons_paused {
                w.with(ShellModel { buttons_paused: false, ..w.sh }).act(
                    ActionModel::Ui(UiEvent::Buttons { paused: false }),
                )
            } else {
                w
            }
        } else if ev is Paused && !(active is Media) && !w.sh.buttons_paused {
            w.with(ShellModel { buttons_paused: true, ..w.sh }).act(
                ActionModel::Ui(UiEvent::Buttons { paused: true }),
            )
        } else {
            w
        }
    }

    /// What is done with an input before the core sees it.
    #[verifier::opaque]
    pub open spec fn receive(self, s: StateModel, input: Input) -> Work {
        let w = self.reset_audio(input);
        match input {
            Input::Transport { gen, ev } => if gen == s.link_gen {
                let w = if ev is Paused && w.sh.gate_pending {
                    w.with(ShellModel { gate_pending: false, ..w.sh }).act(ActionModel::OpenGate)
                } else {
                    w
                };
                w.drive_reader(s.active, ev)
            } else {
                w
            },
            _ => w,
        }
    }

    pub open spec fn start_media(
        self,
        s: StateModel,
        item: QueueItem,
        epoch: u64,
        gate: StartGate,
    ) -> Work {
        let title = item.source.title();
        let artist = item.source.subtitle();
        let gated = gate is AfterSpotifyPauseAck;
        self.with(
            ShellModel {
                feeder_live: true,
                gate_pending: if gated {
                    true
                } else {
                    self.sh.gate_pending
                },
                media_status: Some((title, artist)),
                buttons_paused: false,
                ..self.sh
            },
        ).act(ActionModel::SetFeederPaused(false)).act(ActionModel::SetMusicPaused(false)).act(
            ActionModel::Status(StatusModel::Playing { title, artist }),
        ).act(
            ActionModel::StartRunner {
                item,
                epoch,
                gate: if gated {
                    Some(s.sp is Paused)
                } else {
                    None
                },
            },
        )
    }

    pub open spec fn track_handle(self, cmd: TrackHandleCmd) -> Work {
        let paused = cmd is Pause;
        let w = self.act(ActionModel::SetFeederPaused(paused)).act(
            ActionModel::SetMusicPaused(paused),
        ).act(ActionModel::PlayReader).with(ShellModel { buttons_paused: paused, ..self.sh }).act(
            ActionModel::Ui(UiEvent::Buttons { paused }),
        );
        if paused {
            w.act(ActionModel::Status(StatusModel::Paused))
        } else {
            match self.sh.media_status {
                Some((title, artist)) => w.act(
                    ActionModel::Status(StatusModel::Playing { title, artist }),
                ),
                None => w,
            }
        }
    }

    /// Run one effect of the core, whose state is `s` by now.
    pub open spec fn effect(
        self,
        s: StateModel,
        e: EffectModel,
        hint: Option<u64>,
        announce: bool,
    ) -> Work {
        match e {
            EffectModel::Spirc(cmd) => self.act(ActionModel::Spirc(cmd)),
            EffectModel::StartMedia { item, epoch, gate } => self.start_media(s, item, epoch, gate),
            EffectModel::CancelMedia => if self.sh.feeder_live {
                self.with(ShellModel { feeder_live: false, ..self.sh }).act(
                    ActionModel::CancelRunner,
                )
            } else {
                self
            },
            EffectModel::ClearBridge => self.act(ActionModel::ClearMusic),
            EffectModel::JoinVoice => self.act(ActionModel::JoinVoice { hint }),
            EffectModel::RecordAired(track) => self.act(ActionModel::RecordAired(track)),
            EffectModel::LeaveVoice => self.act(ActionModel::LeaveVoice),
            EffectModel::ResolvePrevious { before } => self.act(
                ActionModel::ReadPrevious { request_id: self.sh.reads, before },
            ),
            EffectModel::ResolveMeta(uri) => self.act(
                ActionModel::LookupTrack { uri, gen: s.link_gen },
            ),
            EffectModel::TrackHandle(cmd) => self.track_handle(cmd),
            EffectModel::Ui(UiModel::NowPlayingMedia { item }) => self.act(
                ActionModel::Ui(UiEvent::NowPlayingMedia { item }),
            ),
            EffectModel::Ui(UiModel::NowPlayingSpotify { uri, meta }) => self.act(
                ActionModel::Ui(UiEvent::NowPlayingSpotify { uri, meta }),
            ),
            EffectModel::Ui(UiModel::TakeoverPrompt) => self.act(
                ActionModel::Notice("Spotify is in use on another device — press ▶ to take over."@),
            ),
            EffectModel::Ui(UiModel::Notice(text)) => self.act(ActionModel::Notice(text)),
            EffectModel::Presence(p) => self.with(
                ShellModel { media_status: None, ..self.sh },
            ).act(
                ActionModel::Status(
                    match p {
                        PresenceState::Idle => StatusModel::Idle,
                        PresenceState::Playing { uri, meta } => StatusModel::Playing {
                            title: meta.title@,
                            artist: meta.artist@,
                        },
                        PresenceState::Paused { .. } => StatusModel::Paused,
                    },
                ),
            ),
            EffectModel::Announce(AnnounceKind::Track { title, artist }) => if announce {
                self.act(ActionModel::AnnounceTrack { title: title@, artist: artist@ })
            } else {
                self
            },
            EffectModel::SetTimer(kind, nanos) => self.act(ActionModel::StartTimer(kind, nanos)),
            EffectModel::Reply(tx, text) => self.act(ActionModel::Reply(tx, text)),
            EffectModel::ReplySnapshot(tx, snap) => self.act(
                ActionModel::ReplySnapshot(tx, snap),
            ),
        }
    }

    /// Run the core's effects in order.
    pub open spec fn effects(
        self,
        s: StateModel,
        fx: Seq<EffectModel>,
        hint: Option<u64>,
        announce: bool,
    ) -> Work
        decreases fx.len(),
    {
        if fx.len() == 0 {
            self
        } else {
            self.effects(s, fx.drop_last(), hint, announce).effect(s, fx.last(), hint, announce)
        }
    }

    /// The media turn can end without a presence effect: reflect it on the
    /// status line. When the baseline takes over, its own report repaints it.
    #[verifier::opaque]
    pub open spec fn settle_status(self, s: StateModel) -> Work {
        if self.sh.media_status is Some && !(s.active is Media) {
            let w = self.with(ShellModel { media_status: None, ..self.sh });
            if s.active is Nobody {
                w.act(ActionModel::Status(StatusModel::Idle))
            } else {
                w
            }
        } else {
            self
        }
    }
}

/// The reader stays live so overlays remain audible while music is paused; a
/// media item's own pause state takes precedence over Spotify telemetry.
fn drive_reader(shell: &mut Shell, active: &Active, ev: &TransportEvent, out: &mut Vec<Action>)
    ensures
        final(shell).reads == old(shell).reads,
        Work::of(*final(shell), final(out)@) == Work::of(*old(shell), old(out)@).drive_reader(
            *active,
            *ev,
        ),
{
    proof {
        reveal(Work::drive_reader);
    }
    let media_turn = matches!(active, Active::Media { .. });
    if let Some(paused) = music_pause_for_transport(active, ev) {
        act(out, Action::SetMusicPaused(paused));
    }
    match ev {
        TransportEvent::Playing { .. } => {
            act(out, Action::PlayReader);
            if !media_turn && shell.buttons_paused {
                shell.buttons_paused = false;
                act(out, Action::Ui(UiEvent::Buttons { paused: false }));
            }
        },
        TransportEvent::Paused { .. } => {
            if !media_turn && !shell.buttons_paused {
                shell.buttons_paused = true;
                act(out, Action::Ui(UiEvent::Buttons { paused: true }));
            }
        },
        _ => {},
    }
}

/// What is done with an input before the core sees it.
fn receive(shell: &mut Shell, state: &PlayerState, input: &Input, out: &mut Vec<Action>)
    ensures
        final(shell).reads == old(shell).reads,
        Work::of(*final(shell), final(out)@) == Work::of(*old(shell), old(out)@).receive(
            state@,
            *input,
        ),
{
    proof {
        reveal(Work::receive);
    }
    if matches!(input, Input::Stop { .. } | Input::VoiceLost) {
        act(out, Action::ClearBridge);
    }
    if let Input::Transport { gen, ev } = input {
        if *gen == state.link_gen {
            if matches!(ev, TransportEvent::Paused { .. }) && shell.gate_pending {
                shell.gate_pending = false;
                act(out, Action::OpenGate);
            }
            drive_reader(shell, &state.active, ev, out);
        }
    }
}

/// A runner is registered as live before it exists, so a cancel landing
/// during its wait still reaches it.
fn start_media(
    shell: &mut Shell,
    sp: &SpDevice,
    item: QueueItem,
    epoch: u64,
    gate: StartGate,
    out: &mut Vec<Action>,
)
    ensures
        forall|s: StateModel|
            s.sp == *sp ==> Work::of(*final(shell), final(out)@) == #[trigger] Work::of(
                *old(shell),
                old(out)@,
            ).start_media(s, item, epoch, gate),
{
    shell.feeder_live = true;
    act(out, Action::SetFeederPaused(false));
    act(out, Action::SetMusicPaused(false));
    let gate = match gate {
        StartGate::Immediate => None,
        StartGate::AfterSpotifyPauseAck => {
            shell.gate_pending = true;
            // Already paused: no ack is coming.
            Some(matches!(sp, SpDevice::Paused(_)))
        },
    };
    // The core's presence effects are Spotify-only; the status line's media
    // view starts here. The fresh card posts with an unpaused ⏯.
    let title = item.source.display_title().to_owned();
    let artist = item.source.display_subtitle();
    shell.media_status = Some((title.clone(), artist.clone()));
    shell.buttons_paused = false;
    act(out, Action::Status(PresenceUpdate::Playing { title, artist }));
    act(out, Action::StartRunner { item, epoch, gate });
}

/// Freeze or release only music: the shared reader stays live for overlays,
/// and the feeder stops advancing beyond what is buffered.
fn track_handle(shell: &mut Shell, cmd: TrackHandleCmd, out: &mut Vec<Action>)
    ensures
        Work::of(*final(shell), final(out)@) == Work::of(*old(shell), old(out)@).track_handle(cmd),
{
    let paused = matches!(cmd, TrackHandleCmd::Pause);
    act(out, Action::SetFeederPaused(paused));
    act(out, Action::SetMusicPaused(paused));
    act(out, Action::PlayReader);
    shell.buttons_paused = paused;
    act(out, Action::Ui(UiEvent::Buttons { paused }));
    if paused {
        act(out, Action::Status(PresenceUpdate::Paused));
    } else if let Some((title, artist)) = &shell.media_status {
        act(
            out,
            Action::Status(
                PresenceUpdate::Playing { title: title.clone(), artist: artist.clone() },
            ),
        );
    }
}

/// Run one effect. Synchronous by contract: sends, stores, cancels and
/// spawns only.
pub fn run_effect(
    shell: &mut Shell,
    state: &PlayerState,
    effect: Effect,
    hint: Option<u64>,
    announce: bool,
    out: &mut Vec<Action>,
)
    ensures
        Work::of(*final(shell), final(out)@) == Work::of(*old(shell), old(out)@).effect(
            state@,
            effect@,
            hint,
            announce,
        ),
{
    match effect {
        Effect::Spirc(cmd) => act(out, Action::Spirc(cmd)),
        Effect::StartMedia { item, epoch, gate } => start_media(
            shell,
            &state.sp,
            item,
            epoch,
            gate,
            out,
        ),
        Effect::CancelMedia => {
            if shell.feeder_live {
                shell.feeder_live = false;
                act(out, Action::CancelRunner);
            }
        },
        // Music transitions fence delayed DJ synthesis, but a soundboard clip
        // already mixing into this call keeps playing.
        Effect::ClearBridge => act(out, Action::ClearMusic),
        Effect::RecordAired(aired) => act(out, Action::RecordAired(aired)),
        Effect::ResolveMeta(uri) => act(out, Action::LookupTrack { uri, gen: state.link_gen }),
        Effect::ResolvePrevious { before } => act(
            out,
            Action::ReadPrevious { request_id: shell.reads, before },
        ),
        Effect::LeaveVoice => act(out, Action::LeaveVoice),
        Effect::JoinVoice => act(out, Action::JoinVoice { hint }),
        Effect::TrackHandle(cmd) => track_handle(shell, cmd, out),
        Effect::Ui(msg) => match msg {
            UiMsg::NowPlayingMedia { item } => act(
                out,
                Action::Ui(UiEvent::NowPlayingMedia { item }),
            ),
            UiMsg::NowPlayingSpotify { uri, meta } => act(
                out,
                Action::Ui(UiEvent::NowPlayingSpotify { uri, meta }),
            ),
            UiMsg::TakeoverPrompt => act(
                out,
                Action::Notice(
                    "Spotify is in use on another device — press ▶ to take over.".to_owned(),
                ),
            ),
            UiMsg::Notice(text) => act(out, Action::Notice(text)),
        },
        Effect::Presence(p) => {
            // A core presence effect is the baseline speaking for itself; it
            // supersedes any shell-fed media status.
            shell.media_status = None;
            let update = match p {
                PresenceState::Idle => PresenceUpdate::Idle,
                PresenceState::Playing { meta, .. } => PresenceUpdate::Playing {
                    title: meta.title,
                    artist: meta.artist,
                },
                PresenceState::Paused { .. } => PresenceUpdate::Paused,
            };
            act(out, Action::Status(update));
        },
        Effect::Announce(AnnounceKind::Track { title, artist }) => {
            if announce {
                act(out, Action::AnnounceTrack { title, artist });
            }
        },
        Effect::SetTimer(kind, nanos) => act(out, Action::StartTimer(kind, nanos)),
        Effect::Reply(tx, text) => act(out, Action::Reply(tx, text)),
        Effect::ReplySnapshot(tx, snap) => act(out, Action::ReplySnapshot(tx, snap)),
    }
}

/// The ids of the queued items, in order.
pub open spec fn ids(items: Seq<QueueItem>) -> Seq<u64> {
    Seq::new(items.len(), |i: int| items[i].item_id)
}

fn queue_ids(queue: &PriorityQueue) -> (r: Vec<u64>)
    ensures
        r@ == ids(queue@.items),
{
    let items = queue.snapshot();
    let mut out: Vec<u64> = Vec::new();
    let mut i: usize = 0;
    while i < items.len()
        invariant
            i <= items@.len(),
            items@ == queue@.items,
            out@ == ids(items@).take(i as int),
        decreases items@.len() - i,
    {
        out.push(items[i].item_id);
        assert(ids(items@).take(i as int).push(items@[i as int].item_id) =~= ids(items@).take(
            i + 1,
        ));
        i += 1;
    }
    assert(ids(items@).take(i as int) =~= ids(items@));
    out
}

fn same_ids(a: &Vec<u64>, b: &Vec<u64>) -> (r: bool)
    ensures
        r == (a@ == b@),
{
    if a.len() != b.len() {
        return false;
    }
    let mut i: usize = 0;
    while i < a.len()
        invariant
            i <= a@.len(),
            a@.len() == b@.len(),
            forall|j: int| 0 <= j < i ==> a@[j] == b@[j],
        decreases a@.len() - i,
    {
        if a[i] != b[i] {
            return false;
        }
        i += 1;
    }
    assert(a@ =~= b@);
    true
}

/// Whose item the last media start among `fx` airs.
pub open spec fn started_for(fx: Seq<EffectModel>) -> Option<u64>
    decreases fx.len(),
{
    if fx.len() == 0 {
        None
    } else {
        match fx.last() {
            EffectModel::StartMedia { item, .. } => Some(item.queued_by_id),
            _ => started_for(fx.drop_last()),
        }
    }
}

/// The core asked for a read of the history.
pub open spec fn asks_history(fx: Seq<EffectModel>) -> bool
    decreases fx.len(),
{
    fx.len() > 0 && (fx.last() is ResolvePrevious || asks_history(fx.drop_last()))
}

/// Who to follow into voice: whoever asked, else whose item starts, else who
/// queued something.
pub open spec fn join_hint(
    requester: Option<VoiceGuard>,
    input: Input,
    fx: Seq<EffectModel>,
) -> Option<u64> {
    match requester {
        Some(guard) => Some(guard.user),
        None => match started_for(fx) {
            Some(user) => Some(user),
            None => match input {
                Input::Enqueue { item, .. } => Some(item.queued_by_id),
                _ => None,
            },
        },
    }
}

/// Look the effects over before they run.
fn survey(fx: &Vec<Effect>) -> (r: (Option<u64>, bool))
    ensures
        r.0 == started_for(crate::player::model::effects(fx@)),
        r.1 == asks_history(crate::player::model::effects(fx@)),
{
    let ghost all = crate::player::model::effects(fx@);
    let mut started: Option<u64> = None;
    let mut asks = false;
    let mut i: usize = 0;
    while i < fx.len()
        invariant
            i <= fx@.len(),
            all == crate::player::model::effects(fx@),
            started == started_for(all.take(i as int)),
            asks == asks_history(all.take(i as int)),
        decreases fx@.len() - i,
    {
        proof {
            assert(all.take(i + 1).drop_last() =~= all.take(i as int));
            assert(all.take(i + 1).last() == fx@[i as int]@);
        }
        match &fx[i] {
            Effect::StartMedia { item, .. } => {
                started = Some(item.queued_by_id);
            },
            Effect::ResolvePrevious { .. } => {
                asks = true;
            },
            _ => {},
        }
        i += 1;
    }
    assert(all.take(i as int) =~= all);
    (started, asks)
}

/// Run the core's effects in order.
fn run_effects(
    shell: &mut Shell,
    state: &PlayerState,
    effects: Vec<Effect>,
    hint: Option<u64>,
    announce: bool,
    out: &mut Vec<Action>,
)
    ensures
        Work::of(*final(shell), final(out)@) == Work::of(*old(shell), old(out)@).effects(
            state@,
            crate::player::model::effects(effects@),
            hint,
            announce,
        ),
{
    let ghost fx = crate::player::model::effects(effects@);
    let mut effects = effects;
    let ghost base = Work::of(*shell, out@);
    let ghost done: int = 0;
    assert(fx.skip(0) =~= fx);
    assert(fx.take(0) =~= Seq::empty());
    while effects.len() > 0
        invariant
            0 <= done <= fx.len(),
            crate::player::model::effects(effects@) == fx.skip(done),
            effects@.len() == fx.len() - done,
            Work::of(*shell, out@) == base.effects(state@, fx.take(done), hint, announce),
        decreases effects@.len(),
    {
        let ghost rest = effects@;
        let effect = effects.remove(0);
        proof {
            assert(crate::player::model::effects(rest)[0] == effect@);
            assert(fx.skip(done)[0] == fx[done]);
            assert forall|i: int| 0 <= i < effects@.len() implies effects@[i]@ == fx.skip(
                done + 1,
            )[i] by {
                assert(effects@[i] == rest[i + 1]);
                assert(crate::player::model::effects(rest)[i + 1] == fx.skip(done)[i + 1]);
            }
            assert(crate::player::model::effects(effects@) =~= fx.skip(done + 1));
            assert(fx.take(done + 1).drop_last() =~= fx.take(done));
            assert(fx.take(done + 1).last() == fx[done]);
        }
        run_effect(shell, state, effect, hint, announce, out);
        proof {
            done = done + 1;
        }
    }
    assert(fx.take(done) =~= fx);
}

/// Reflect a media turn that ended without a presence effect.
fn settle_status(shell: &mut Shell, state: &PlayerState, out: &mut Vec<Action>)
    ensures
        Work::of(*final(shell), final(out)@) == Work::of(*old(shell), old(out)@).settle_status(
            state@,
        ),
{
    proof {
        reveal(Work::settle_status);
    }
    if shell.media_status.is_some() && !matches!(state.active, Active::Media { .. }) {
        shell.media_status = None;
        if matches!(state.active, Active::Nobody) {
            act(out, Action::Status(PresenceUpdate::Idle));
        }
    }
}

/// One actor: the shell's memory and the core's state.
pub struct Actor {
    pub shell: Shell,
    pub state: PlayerState,
}

impl StateModel {
    /// An account switch never reports the session it replaces as down: the
    /// old device queue, and any armed track on it, died with that session,
    /// so an arm still set when a link comes up is a ghost.
    pub open spec fn received(self, input: Input) -> StateModel {
        if input is LinkUp {
            StateModel { armed: None, ..self }
        } else {
            self
        }
    }
}

impl ShellModel {
    /// A new back-read is numbered and remembers whom it is for; one the core
    /// no longer waits for is forgotten.
    pub open spec fn noted(
        self,
        r: Run,
        guard: Option<VoiceGuard>,
    ) -> ShellModel {
        if r.s.pending_reply is None {
            ShellModel {
                reads: if asks_history(r.fx) {
                    (self.reads + 1) as u64
                } else {
                    self.reads
                },
                previous_authorization: None,
                ..self
            }
        } else if asks_history(r.fx) {
            ShellModel {
                reads: (self.reads + 1) as u64,
                previous_authorization: Some(
                    PreviousAuthorization { request_id: (self.reads + 1) as u64, guard },
                ),
                ..self
            }
        } else {
            self
        }
    }
}

impl ShellModel {
    /// The shell after a read of this number came back: one waited for is
    /// waited for no longer.
    pub open spec fn read(self, request_id: u64) -> ShellModel {
        match self.previous_authorization {
            Some(p) => if p.request_id == request_id {
                ShellModel { previous_authorization: None, ..self }
            } else {
                self
            },
            None => self,
        }
    }
}

/// `r` is the input a read that came back becomes.
pub open spec fn resolves_read<F: Fn(&VoiceGuard) -> bool>(
    authorize: F,
    sh: ShellModel,
    done: BackCompletion,
    r: Option<Input>,
) -> bool {
    match sh.previous_authorization {
        Some(p) => if p.request_id == done.request_id {
            &&& r matches Some(Input::PreviousResolved { track })
            &&& exists|allowed: bool| #[trigger]
                granted(authorize, p.guard, allowed) && track == (if done.authorized && allowed {
                    done.track
                } else {
                    None
                })
        } else {
            r is None
        },
        None => r is None,
    }
}

impl Work {
    /// All that is done with an admitted input.
    pub open spec fn handled(
        self,
        s: StateModel,
        input: Input,
        guard: Option<VoiceGuard>,
        now: u64,
        announce: bool,
    ) -> Work {
        let w = self.receive(s, input);
        let r = Run::start(s.received(input)).input(input, now);
        let w = w.with(w.sh.noted(r, guard)).act(
            ActionModel::SetSpotifyMuted(r.s.active is Media),
        );
        let w = if ids(s.queue.items) != ids(r.s.queue.items) {
            w.act(ActionModel::SaveQueue(r.s.queue.items))
        } else {
            w
        };
        w.effects(r.s, r.fx, join_hint(guard, input, r.fx), announce).settle_status(r.s)
    }
}

impl Actor {
    pub fn new() -> (r: Self)
        ensures
            r.state.wf(),
            r.state@ == StateModel::fresh(),
            r.shell@ == (ShellModel {
                previous_authorization: None,
                reads: 0,
                gate_pending: false,
                feeder_live: false,
                media_status: None,
                buttons_paused: false,
            }),
    {
        Actor {
            shell: Shell {
                previous_authorization: None,
                reads: 0,
                gate_pending: false,
                feeder_live: false,
                media_status: None,
                buttons_paused: false,
            },
            state: PlayerState::new(),
        }
    }

    /// The counters still have values left for one more input.
    pub open spec fn room(&self) -> bool {
        self.state@.room() && self.shell.reads < u64::MAX
    }

    pub fn has_room(&self) -> (r: bool)
        ensures
            r == self.room(),
    {
        self.state.has_room() && self.shell.reads < u64::MAX
    }

    /// Handle one admitted input: what the shell does before the core, one
    /// step of the core, and what follows from it, as actions in order.
    pub fn handle(
        &mut self,
        input: Input,
        guard: Option<VoiceGuard>,
        now: u64,
        announce: bool,
    ) -> (r: Vec<Action>)
        requires
            old(self).state.wf(),
            old(self).room(),
        ensures
            final(self).state.wf(),
            final(self).state@ == Run::start(old(self).state@.received(input)).input(input, now).s,
            Work::of(final(self).shell, r@) == (Work {
                sh: old(self).shell@,
                out: Seq::empty(),
            }).handled(old(self).state@, input, guard, now, announce),
    {
        let ghost before = self.state@;
        let ghost sh0 = self.shell@;
        let mut out: Vec<Action> = Vec::new();
        assert(actions(out@) =~= Seq::empty());
        receive(&mut self.shell, &self.state, &input, &mut out);
        if matches!(input, Input::LinkUp { .. }) {
            self.state.armed = None;
        }
        let enqueued_by: Option<u64> = match &input {
            Input::Enqueue { item, .. } => Some(item.queued_by_id),
            _ => None,
        };
        let ids_before = queue_ids(&self.state.queue);
        let effects = step(&mut self.state, input, now);
        let ghost run = Run::start(before.received(input)).input(input, now);
        let ghost fx = crate::player::model::effects(effects@);
        assert(run.s == self.state@ && run.fx == fx);
        let (started, asks) = survey(&effects);
        if asks {
            self.shell.reads = self.shell.reads + 1;
            self.shell.previous_authorization = Some(
                PreviousAuthorization { request_id: self.shell.reads, guard },
            );
        }
        if self.state.pending_reply.is_none() {
            self.shell.previous_authorization = None;
        }
        act(&mut out, Action::SetSpotifyMuted(matches!(self.state.active, Active::Media { .. })));
        // Persist only when the queue actually changed: the actor sees far
        // more transport events than queue mutations.
        let ids_after = queue_ids(&self.state.queue);
        if !same_ids(&ids_before, &ids_after) {
            act(&mut out, Action::SaveQueue(self.state.queue.snapshot()));
        }
        let hint: Option<u64> = match guard {
            Some(g) => Some(g.user),
            None => match started {
                Some(user) => Some(user),
                None => enqueued_by,
            },
        };
        assert(hint == join_hint(guard, input, fx));
        run_effects(&mut self.shell, &self.state, effects, hint, announce, &mut out);
        settle_status(&mut self.shell, &self.state, &mut out);
        out
    }

    /// A history read came back: the input it becomes, or nothing when it is
    /// not the read still waited for. A caller who may no longer navigate
    /// gets the answer of a history with nothing further back.
    pub fn previous_read(
        &mut self,
        done: BackCompletion,
        authorize: impl Fn(&VoiceGuard) -> bool,
    ) -> (r: Option<Input>)
        requires
            forall|g: VoiceGuard| #[trigger] call_requires(authorize, (&g,)),
        ensures
            final(self).state == old(self).state,
            final(self).shell@ == old(self).shell@.read(done.request_id),
            resolves_read(authorize, old(self).shell@, done, r),
            !(old(self).shell.previous_authorization matches Some(p) && p.request_id
                == done.request_id) ==> final(self).shell == old(self).shell,
    {
        let matched = match &self.shell.previous_authorization {
            Some(p) => p.request_id == done.request_id,
            None => false,
        };
        if !matched {
            return None;
        }
        let mut done = done;
        authorize_previous_completion(
            &mut done,
            &mut self.shell.previous_authorization,
            authorize,
        );
        let track = if done.authorized {
            done.track
        } else {
            None
        };
        Some(Input::PreviousResolved { track })
    }
}

/// Store work in actor order. Previous-track reads must see every earlier
/// aired-track write, even if the user presses Back before it commits.
#[derive(Debug)]
pub enum StoreRequest {
    /// The whole queue, latest-wins: an older snapshot committing last would
    /// leave the table permanently behind memory.
    Queue(Vec<QueueItem>),
    /// One aired track. History row ids are what back-navigation walks, so an
    /// out-of-order insert misorders the walk.
    Aired(AiredTrack),
    ResolvePrevious { request_id: u64, before: Option<i64> },
}

/// What one batch of store requests comes down to.
#[derive(Debug)]
pub struct StorePlan {
    /// History writes and reads, in the order they were asked for.
    pub history: Vec<StoreRequest>,
    /// The queue to write, after the history.
    pub queue: Option<Vec<QueueItem>>,
}

/// The history requests of a batch, in order.
pub open spec fn history_of(batch: Seq<StoreRequest>) -> Seq<StoreRequest>
    decreases batch.len(),
{
    if batch.len() == 0 {
        batch
    } else if batch.last() is Queue {
        history_of(batch.drop_last())
    } else {
        history_of(batch.drop_last()).push(batch.last())
    }
}

/// The newest queue of a batch.
pub open spec fn newest_queue(batch: Seq<StoreRequest>) -> Option<Seq<QueueItem>>
    decreases batch.len(),
{
    if batch.len() == 0 {
        None
    } else {
        match batch.last() {
            StoreRequest::Queue(items) => Some(items@),
            _ => newest_queue(batch.drop_last()),
        }
    }
}

/// Plan a drained batch: every history request in order, and only the newest
/// queue, so a burst of queue mutations costs one rewrite.
pub fn plan_batch(batch: Vec<StoreRequest>) -> (r: StorePlan)
    ensures
        r.history@ == history_of(batch@),
        newest_queue(batch@) == (match r.queue {
            Some(items) => Some(items@),
            None => None,
        }),
{
    let ghost all = batch@;
    let mut batch = batch;
    let mut history: Vec<StoreRequest> = Vec::new();
    let mut queue: Option<Vec<QueueItem>> = None;
    let ghost done: int = 0;
    assert(all.skip(0) =~= all);
    while batch.len() > 0
        invariant
            0 <= done <= all.len(),
            batch@ == all.skip(done),
            history@ == history_of(all.take(done)),
            newest_queue(all.take(done)) == (match queue {
                Some(items) => Some(items@),
                None => None,
            }),
        decreases batch@.len(),
    {
        proof {
            assert(all.skip(done)[0] == all[done]);
            assert(all.skip(done).remove(0) =~= all.skip(done + 1));
            assert(all.take(done + 1).drop_last() =~= all.take(done));
            assert(all.take(done + 1).last() == all[done]);
        }
        let request = batch.remove(0);
        match request {
            StoreRequest::Queue(items) => {
                queue = Some(items);
            },
            other => {
                history.push(other);
            },
        }
        proof {
            done = done + 1;
        }
    }
    assert(all.take(done) =~= all);
    StorePlan { history, queue }
}

/// A row of the play history, as far as back-navigation needs it.
#[derive(Debug)]
pub struct HistoryRow {
    pub id: i64,
    pub track_ref: String,
    pub context_uri: Option<String>,
}

/// Whether a history row names something Spotify can play.
pub fn is_spotify_row(track_ref: &str) -> (r: bool)
    ensures
        r == (crate::uri::parsed_uri(track_ref@) is Some),
{
    SpotifyUri::from_uri(track_ref).is_some()
}

/// The track a history row stands for, when Spotify can play it.
pub fn previous_track(row: HistoryRow) -> (r: Option<PreviousTrack>)
    ensures
        match r {
            Some(track) => {
                &&& crate::uri::parsed_uri(row.track_ref@) == Some(
                    (track.uri@.text, track.uri@.foreign_kind),
                )
                &&& track.id == row.id
                &&& track.context_uri == row.context_uri
            },
            None => crate::uri::parsed_uri(row.track_ref@) is None,
        },
{
    match SpotifyUri::from_uri(row.track_ref.as_str()) {
        Some(uri) => Some(PreviousTrack { id: row.id, uri, context_uri: row.context_uri }),
        None => None,
    }
}

/// Where a media runner is before it feeds.
#[derive(Clone, Copy, Debug, PartialEq, Eq, Structural)]
pub enum Preparation {
    /// Waiting for the start gate, if there is one.
    Gate,
    /// Making the announcement.
    Announcing,
    /// The announcement has been handed to the mixer, or skipped.
    Announced,
    /// Nothing stands before the feed.
    Ready,
}

/// The next stage of a media runner; a cancelled one ends at whichever stage
/// it has reached and never feeds.
pub fn prepare_next(stage: Preparation, cancelled: bool) -> (r: Result<Preparation, MediaOutcome>)
    ensures
        r == (if cancelled {
            Err(MediaOutcome::Cancelled)
        } else {
            Ok(
                match stage {
                    Preparation::Gate => Preparation::Announcing,
                    Preparation::Announcing => Preparation::Announced,
                    Preparation::Announced => Preparation::Ready,
                    Preparation::Ready => Preparation::Ready,
                },
            )
        }),
{
    if cancelled {
        return Err(MediaOutcome::Cancelled);
    }
    Ok(
        match stage {
            Preparation::Gate => Preparation::Announcing,
            Preparation::Announcing => Preparation::Announced,
            Preparation::Announced => Preparation::Ready,
            Preparation::Ready => Preparation::Ready,
        },
    )
}

/// How an item is fed.
#[derive(Debug)]
pub enum Feed {
    YouTube { url: String },
    File { url: String, ext: String },
    /// The core only ever starts media items; a Spotify item is not fed.
    Nothing,
}

/// How this source is fed.
pub fn feed_for(source: &MediaSource) -> (r: Feed)
    ensures
        match *source {
            MediaSource::YouTube { url, .. } => r == (Feed::YouTube { url }),
            MediaSource::File { filename, attachment_url } => {
                &&& r matches Feed::File { url, ext }
                &&& url == attachment_url
                &&& ext@ == crate::text::after_last(filename@, '.')
            },
            MediaSource::Spotify { .. } => r is Nothing,
        },
{
    match source {
        MediaSource::YouTube { url, .. } => Feed::YouTube { url: url.clone() },
        MediaSource::File { filename, attachment_url } => Feed::File {
            url: attachment_url.clone(),
            ext: tail_after(filename.as_str(), '.'),
        },
        MediaSource::Spotify { .. } => Feed::Nothing,
    }
}

/// What a finished feed means: the outcome to report, and what to tell the
/// channel first.
pub fn feed_report(item: &QueueItem, result: Result<(), FeederError>) -> (r: (
    MediaOutcome,
    Vec<Action>,
))
    ensures
        match result {
            Ok(_) => {
                &&& r.0 is Finished
                &&& actions(r.1@) == seq![
                    ActionModel::Ui(UiEvent::HistoryMedia { item: *item }),
                ]
            },
            Err(FeederError::Cancelled) => r.0 is Cancelled && actions(r.1@).len() == 0,
            Err(_) => {
                &&& r.0 is Finished
                &&& actions(r.1@) == seq![
                    ActionModel::Notice(
                        "⚠️ <@"@ + crate::text::decimal(item.queued_by_id as nat)
                            + "> Couldn't play **"@ + item.source.title()
                            + "** — the download or decode failed."@,
                    ),
                    ActionModel::Ui(UiEvent::IdleCard),
                ]
            },
        },
{
    let mut out: Vec<Action> = Vec::new();
    assert(actions(out@) =~= Seq::empty());
    match result {
        Ok(_) => {
            act(&mut out, Action::Ui(UiEvent::HistoryMedia { item: item.clone() }));
            (MediaOutcome::Finished, out)
        },
        Err(FeederError::Cancelled) => (MediaOutcome::Cancelled, out),
        Err(_) => {
            let who = cat3("⚠️ <@", &decimal_text(item.queued_by_id), "> Couldn't play **");
            let what = cat3(
                who.as_str(),
                item.source.display_title(),
                "** — the download or decode failed.",
            );
            act(&mut out, Action::Notice(what));
            // A failed item's card must not linger with dead buttons.
            act(&mut out, Action::Ui(UiEvent::IdleCard));
            (MediaOutcome::Finished, out)
        },
    }
}

/// Every history request of a batch that follows another keeps following it:
/// a read sees every write asked for before it and none asked for after.
pub proof fn law_batches_keep_history_in_order(first: Seq<StoreRequest>, second: Seq<StoreRequest>)
    ensures
        history_of(first + second) == history_of(first) + history_of(second),
    decreases second.len(),
{
    if second.len() == 0 {
        assert(first + second =~= first);
        assert(history_of(first) + history_of(second) =~= history_of(first));
    } else {
        law_batches_keep_history_in_order(first, second.drop_last());
        assert((first + second).drop_last() =~= first + second.drop_last());
        assert((first + second).last() == second.last());
        if !(second.last() is Queue) {
            assert(history_of(first) + history_of(second) =~= (history_of(first) + history_of(
                second.drop_last(),
            )).push(second.last()));
        }
    }
}

/// All that was asked for over some batches, in order.
pub open spec fn asked(batches: Seq<Seq<StoreRequest>>) -> Seq<StoreRequest>
    decreases batches.len(),
{
    if batches.len() == 0 {
        Seq::empty()
    } else {
        asked(batches.drop_last()) + batches.last()
    }
}

/// The history requests carried out over some batches, in order.
pub open spec fn carried_out(batches: Seq<Seq<StoreRequest>>) -> Seq<StoreRequest>
    decreases batches.len(),
{
    if batches.len() == 0 {
        Seq::empty()
    } else {
        carried_out(batches.drop_last()) + history_of(batches.last())
    }
}

/// The queue on disk after some batches; a batch without one keeps it.
pub open spec fn queue_kept(batches: Seq<Seq<StoreRequest>>) -> Option<Seq<QueueItem>>
    decreases batches.len(),
{
    if batches.len() == 0 {
        None
    } else {
        match newest_queue(batches.last()) {
            Some(items) => Some(items),
            None => queue_kept(batches.drop_last()),
        }
    }
}

proof fn lemma_newest_queue(first: Seq<StoreRequest>, second: Seq<StoreRequest>)
    ensures
        newest_queue(first + second) == (match newest_queue(second) {
            Some(items) => Some(items),
            None => newest_queue(first),
        }),
    decreases second.len(),
{
    if second.len() == 0 {
        assert(first + second =~= first);
    } else {
        lemma_newest_queue(first, second.drop_last());
        assert((first + second).drop_last() =~= first + second.drop_last());
        assert((first + second).last() == second.last());
    }
}

/// However requests fall into batches, the history is written and read in the
/// order it was asked for, and the queue that stays is the last one handed
/// over.
pub proof fn law_batching_changes_nothing(batches: Seq<Seq<StoreRequest>>)
    ensures
        carried_out(batches) == history_of(asked(batches)),
        queue_kept(batches) == newest_queue(asked(batches)),
    decreases batches.len(),
{
    if batches.len() > 0 {
        let before = asked(batches.drop_last());
        law_batching_changes_nothing(batches.drop_last());
        law_batches_keep_history_in_order(before, batches.last());
        lemma_newest_queue(before, batches.last());
    }
}

/// A media start takes both pauses off, shows the item on the status line and
/// starts one runner. That runner is cancelled once, even while it still waits
/// at its gate: of two cancels after the start the first cancels it, and the
/// second does nothing.
pub proof fn law_two_cancels_cancel_one_runner(
    w: Work,
    s: StateModel,
    item: QueueItem,
    epoch: u64,
    gate: StartGate,
    hint: Option<u64>,
    announce: bool,
)
    ensures
        ({
            let start = EffectModel::StartMedia { item, epoch, gate };
            let started = w.effect(s, start, hint, announce);
            let once = started.effect(s, EffectModel::CancelMedia, hint, announce);
            let twice = once.effect(s, EffectModel::CancelMedia, hint, announce);
            &&& started.out == w.out + seq![
                ActionModel::SetFeederPaused(false),
                ActionModel::SetMusicPaused(false),
                ActionModel::Status(
                    StatusModel::Playing {
                        title: item.source.title(),
                        artist: item.source.subtitle(),
                    },
                ),
                ActionModel::StartRunner {
                    item,
                    epoch,
                    gate: if gate is AfterSpotifyPauseAck {
                        Some(s.sp is Paused)
                    } else {
                        None
                    },
                },
            ]
            &&& started.sh.feeder_live && !started.sh.buttons_paused
            &&& started.sh.media_status == Some((item.source.title(), item.source.subtitle()))
            &&& once.out == started.out.push(ActionModel::CancelRunner)
            &&& !once.sh.feeder_live
            &&& twice == once
        }),
{
}

/// Telemetry never releases a pause a human put on a media item: all it can
/// set the music to is what the item's own state says.
pub proof fn law_telemetry_cannot_unpause_media(active: Active, ev: TransportEvent)
    requires
        active is Media,
    ensures
        music_pause(active, ev) matches Some(paused) ==> (active matches Active::Media {
            paused: p,
            ..
        } && paused == p),
{
}

impl ShellModel {
    /// The shell waits for a read of the history exactly while the core does,
    /// and under a number already given out.
    pub open spec fn waits_with(self, s: StateModel) -> bool {
        &&& self.previous_authorization is Some <==> s.pending_reply is Some
        &&& self.previous_authorization matches Some(p) ==> p.request_id <= self.reads
    }
}

proof fn lemma_effects_keep_the_read(
    w: Work,
    s: StateModel,
    fx: Seq<EffectModel>,
    hint: Option<u64>,
    announce: bool,
)
    ensures
        w.effects(s, fx, hint, announce).sh.previous_authorization == w.sh.previous_authorization,
        w.effects(s, fx, hint, announce).sh.reads == w.sh.reads,
    decreases fx.len(),
{
    if fx.len() > 0 {
        lemma_effects_keep_the_read(w, s, fx.drop_last(), hint, announce);
    }
}

/// A walk back is never lost and never answered by another's read: the shell
/// keeps waiting for a read exactly while the core does. A new read gets a
/// number that no earlier one had, and the membership of whoever asked for it.
pub proof fn law_a_walk_back_waits_for_its_own_read(
    sh: ShellModel,
    s: StateModel,
    input: Input,
    guard: Option<VoiceGuard>,
    now: u64,
    announce: bool,
)
    requires
        s.room(),
        sh.reads < u64::MAX,
        sh.waits_with(s),
    ensures
        ({
            let r = Run::start(s.received(input)).input(input, now);
            let after = (Work { sh, out: Seq::empty() }).handled(
                s,
                input,
                guard,
                now,
                announce,
            ).sh;
            &&& after.waits_with(r.s)
            &&& asks_history(r.fx) && r.s.pending_reply is Some ==> after.reads == sh.reads + 1
                && after.previous_authorization == Some(
                PreviousAuthorization { request_id: after.reads, guard },
            )
        }),
{
    let start = Work { sh, out: Seq::empty() };
    let w = start.receive(s, input);
    assert(w.sh.previous_authorization == sh.previous_authorization && w.sh.reads == sh.reads) by {
        reveal(Work::receive);
        reveal(Work::drive_reader);
    }
    let r = Run::start(s.received(input)).input(input, now);
    crate::player::laws::law_a_walk_back_asks_for_a_read(s.received(input), input, now);
    if s.pending_reply is None && r.s.pending_reply is Some {
        assert(r.fx.last() == r.fx[0]);
        assert(asks_history(r.fx));
    }
    let w = w.with(w.sh.noted(r, guard)).act(ActionModel::SetSpotifyMuted(r.s.active is Media));
    let w = if ids(s.queue.items) != ids(r.s.queue.items) {
        w.act(ActionModel::SaveQueue(r.s.queue.items))
    } else {
        w
    };
    let hint = join_hint(guard, input, r.fx);
    lemma_effects_keep_the_read(w, r.s, r.fx, hint, announce);
    reveal(Work::settle_status);
}

} // verus!
