//! What holds of the player whatever happens to it.
//!
//! Each law speaks of `Run::start(s).input(input, now)`: the state and the
//! effects that `step` leaves behind.

use tokio::sync::oneshot;
use vstd::prelude::*;

use crate::player::model::{EffectModel, Run, StateModel};
use crate::player::state::{
    Ack, Active, AiredSource, Armed, Input, PauseOwner, SpircCmd, TimerKind, TransportEvent,
};
use crate::queue::QueueModel;
use crate::uri::SpotifyUri;

verus! {

impl EffectModel {
    /// A load of some uri.
    pub open spec fn is_load(self) -> bool {
        self matches EffectModel::Spirc(cmd) && cmd is Load
    }

    /// A request handed to Spotify's own queue.
    pub open spec fn is_arm(self) -> bool {
        self matches EffectModel::Spirc(cmd) && cmd is AddToQueue
    }

    /// A claim on the active-device slot.
    pub open spec fn is_claim(self) -> bool {
        self matches EffectModel::Spirc(cmd) && cmd is ActivateDevice
    }

    /// A command that makes Spotify audible.
    pub open spec fn is_resume(self) -> bool {
        self matches EffectModel::Spirc(cmd) && (cmd is Play || cmd is Next)
    }

    /// An answer to a command.
    pub open spec fn is_answer(self) -> bool {
        self is Reply || self is ReplySnapshot
    }
}

impl Input {
    /// The channel a command expects its answer on.
    pub open spec fn expects(self) -> Option<oneshot::Sender<String>> {
        match self {
            Input::Enqueue { reply, .. } => Some(reply),
            Input::Skip { reply } => Some(reply),
            Input::Stop { reply, .. } => Some(reply),
            Input::TogglePause { reply } => Some(reply),
            Input::Previous { reply } => Some(reply),
            Input::Play { reply } => Some(reply),
            Input::ClearQueue { reply } => Some(reply),
            _ => None,
        }
    }

    /// The queue an input decides on: for an enqueue, the one that holds the
    /// new item.
    pub open spec fn queue_seen(self, queue: QueueModel) -> QueueModel {
        match self {
            Input::Enqueue { item, pos, .. } => queue.inserted(pos.index(queue), item),
            _ => queue,
        }
    }

    /// The track whose request telemetry may take out of the queue.
    pub open spec fn track(self, s: StateModel) -> Option<SpotifyUri> {
        match self {
            Input::Transport { ev: TransportEvent::Playing { uri, .. }, .. } => Some(uri),
            Input::Transport { ev: TransportEvent::Unavailable { uri }, .. } => Some(uri),
            Input::Transport { ev: TransportEvent::SetQueue { .. }, .. } => match s.armed {
                Some(a) => Some(a.uri),
                None => None,
            },
            _ => None,
        }
    }

    /// Inputs that may claim the Connect device: a human asking to hear
    /// something, or a Spotify request reaching its turn.
    pub open spec fn may_claim(self) -> bool {
        ||| self is Enqueue
        ||| self is Skip
        ||| self is TogglePause
        ||| self is Play
        ||| self is ActivateDevice
        ||| self is MediaEnded
    }

    /// Inputs that come from the Spotify session.
    pub open spec fn from_session(self) -> bool {
        ||| self is Transport
        ||| self is LinkUp
        ||| self is LinkDown
        ||| self is LinkReconnecting
    }
}

impl Run {
    /// A load happens only on an idle device that is ours, never over a
    /// context, and takes the turn.
    pub open spec fn loads_safely(self, before: StateModel) -> bool {
        forall|k: int|
            0 <= k < self.fx.len() && (#[trigger] self.fx[k]).is_load() ==> {
                &&& self.s.sp is Idle
                &&& self.s.device_active
                &&& !before.has_context()
                &&& self.s.active matches Active::SpotifyPending { uri, .. }
                &&& self.fx[k] == EffectModel::Spirc(SpircCmd::Load(uri))
            }
    }

    /// At most one request is handed to Spotify's queue, and it is the one
    /// that stands armed afterwards.
    pub open spec fn arms_once(self, before: StateModel, input: Input, now: u64) -> bool {
        forall|k: int|
            0 <= k < self.fx.len() && (#[trigger] self.fx[k]).is_arm() ==> {
                &&& before.armed is None || input is Transport
                &&& self.s.armed matches Some(a)
                &&& a.ack == Ack::Sent(now)
                &&& self.fx[k] == EffectModel::Spirc(SpircCmd::AddToQueue(a.uri))
                &&& forall|j: int| 0 <= j < k ==> !(#[trigger] self.fx[j]).is_arm()
            }
    }

    /// A media item starts from the head of the queue under a fresh epoch,
    /// takes the turn, and has a voice connection coming up before it.
    pub open spec fn starts_properly(self, before: StateModel, input: Input) -> bool {
        forall|k: int|
            0 <= k < self.fx.len() && (#[trigger] self.fx[k]) is StartMedia ==> {
                &&& self.s.media_epoch == before.media_epoch + 1
                &&& self.s.active matches Active::Media { item, paused, epoch }
                &&& !paused && epoch == self.s.media_epoch
                &&& input.queue_seen(before.queue).items.len() > 0
                &&& item == input.queue_seen(before.queue).items[0]
                &&& self.s.queue == input.queue_seen(before.queue).popped()
                &&& self.fx[k] matches EffectModel::StartMedia { item: i, epoch: e, .. } && i
                    == item && e == epoch
                &&& !(self.s.voice is Down)
                &&& before.voice is Down ==> k > 0 && self.fx[k - 1] is JoinVoice
            }
    }

    /// The epoch counts media starts and lost runners; a media turn that
    /// moved it runs under the new one.
    pub open spec fn numbers_runners(self, before: StateModel) -> bool {
        self.s.media_epoch != before.media_epoch ==> {
            &&& self.s.media_epoch == before.media_epoch + 1
            &&& self.s.active matches Active::Media { epoch, .. } ==> epoch == self.s.media_epoch
        }
    }

    /// The queue lost its head, or the request that telemetry answers or
    /// drops, or nothing.
    pub open spec fn takes_one(self, before: StateModel, input: Input) -> bool {
        !(input is Enqueue || input is ClearQueue || input is RestoreQueue) ==> {
            ||| self.s.queue == before.queue
            ||| self.s.queue == before.queue.popped()
            ||| input.track(before) is Some && self.s.queue == before.queue.without(
                before.request_index(input.track(before)->0),
            )
        }
    }

    /// The Connect device is claimed, or the channel left, only when someone
    /// asked.
    pub open spec fn acts_on_request(self, before: StateModel, input: Input) -> bool {
        &&& forall|k: int|
            0 <= k < self.fx.len() && (#[trigger] self.fx[k]).is_claim() ==> input.may_claim()
                && !before.device_active
        &&& forall|k: int|
            0 <= k < self.fx.len() && (#[trigger] self.fx[k]) is LeaveVoice ==> (
            input matches Input::Stop { leave_voice, .. } && leave_voice)
    }

    /// Only the last effect is an answer, and it goes to the command.
    pub open spec fn answers_last(self, before: StateModel, input: Input) -> bool {
        &&& forall|k: int|
            0 <= k < self.fx.len() - 1 ==> !(#[trigger] self.fx[k]).is_answer()
        &&& match input.expects() {
            Some(tx) => {
                ||| self.fx.len() > 0 && (self.fx.last() matches EffectModel::Reply(t, _) && t
                    == tx)
                ||| input is Previous && self.s.pending_reply == Some(tx) && before.pending_reply is None
                    && self.fx.len() == 1 && self.fx[0] is ResolvePrevious
            },
            None => match input {
                Input::Query { reply } => self.fx.len() == 1 && (
                self.fx[0] matches EffectModel::ReplySnapshot(t, _) && t == reply),
                Input::PreviousResolved { .. } => match before.pending_reply {
                    Some(tx) => self.fx.len() > 0 && (self.fx.last() matches EffectModel::Reply(
                        t,
                        _,
                    ) && t == tx) && self.s.pending_reply is None,
                    None => self.fx.len() == 0,
                },
                _ => self.fx.len() > 0 ==> !self.fx.last().is_answer(),
            },
        }
    }

    /// A media item keeps the turn until it ends, is stopped, or loses the
    /// voice connection; the session cannot reach its runner or the bridge.
    pub open spec fn respects_media(self, before: StateModel, input: Input) -> bool {
        before.active matches Active::Media { item, paused, epoch } ==> {
            &&& !(input is MediaEnded || input is Stop || input is VoiceLost) ==> (
            self.s.active matches Active::Media { item: i, paused: p, epoch: e } && i == item && e
                == epoch && (!(input is TogglePause || input is Play) ==> p == paused))
            &&& input.from_session() || input is Tick ==> forall|k: int|
                0 <= k < self.fx.len() ==> !(#[trigger] self.fx[k] is ClearBridge) && !(
                self.fx[k] is CancelMedia) && !(self.fx[k] is StartMedia)
        }
    }

    /// At most one airing is recorded, and a Spotify airing marks its track
    /// as heard.
    pub open spec fn records_once(self, before: StateModel) -> bool {
        forall|k: int|
            0 <= k < self.fx.len() && (#[trigger] self.fx[k]) is RecordAired ==> {
                &&& forall|j: int| 0 <= j < k ==> !((#[trigger] self.fx[j]) is RecordAired)
                &&& k > 0 && (self.fx[k - 1] matches EffectModel::Ui(msg) && (
                msg is NowPlayingSpotify || msg is NowPlayingMedia))
                &&& self.s.active is Media || (self.fx[k] matches EffectModel::RecordAired(track)
                    && self.s.last_heard_track == Some(track.track_ref)
                    && before.last_heard_track != Some(track.track_ref))
            }
    }

    /// The voice channel is joined at most once, while it is not connected, and
    /// for something to be heard: somebody holds the turn then, or the Connect
    /// device has just been taken over.
    pub open spec fn joins_for_sound(self, before: StateModel) -> bool {
        forall|k: int|
            0 <= k < self.fx.len() && (#[trigger] self.fx[k]) is JoinVoice ==> {
                &&& before.voice is Down
                &&& self.s.voice is Joining
                &&& forall|j: int| 0 <= j < k ==> !((#[trigger] self.fx[j]) is JoinVoice)
                &&& !(self.s.active is Nobody) || (k > 0 && self.fx[k - 1].is_claim())
            }
    }

    /// A walk back is waited for only after the history has been asked for.
    pub open spec fn waits_for_a_read(self, before: StateModel) -> bool {
        before.pending_reply is None && self.s.pending_reply is Some ==> self.fx.len() == 1
            && self.fx[0] is ResolvePrevious
    }

    #[verifier::opaque]
    pub open spec fn sound(self, before: StateModel, input: Input, now: u64) -> bool {
        &&& self.loads_safely(before)
        &&& self.arms_once(before, input, now)
        &&& self.starts_properly(before, input)
        &&& self.numbers_runners(before)
        &&& self.takes_one(before, input)
        &&& self.acts_on_request(before, input)
        &&& self.answers_last(before, input)
        &&& self.respects_media(before, input)
        &&& self.records_once(before)
        &&& self.joins_for_sound(before)
        &&& self.waits_for_a_read(before)
    }
}

proof fn lemma_enqueue(s: StateModel, input: Input, now: u64)
    requires
        s.room(),
        input is Enqueue,
    ensures
        Run::start(s).input(input, now).sound(s, input, now),
{
    reveal(Run::input);
    reveal(Run::sound);
    reveal(Run::enqueue);
    reveal(Run::start_silent);
}

proof fn lemma_skip(s: StateModel, input: Input, now: u64)
    requires
        s.room(),
        input is Skip,
    ensures
        Run::start(s).input(input, now).sound(s, input, now),
{
    reveal(Run::input);
    reveal(Run::sound);
    reveal(Run::skip);
}

proof fn lemma_take_over(s: StateModel, input: Input, now: u64)
    requires
        s.room(),
        !(s.active is Media),
        !(s.sp is Playing),
        !s.device_active,
        input is TogglePause || input is Play,
    ensures
        Run::start(s).take_over(input.expects()->0, now).sound(s, input, now),
{
    reveal(Run::sound);
    reveal(Run::take_over);
}

proof fn lemma_toggle_audible(s: StateModel, input: Input, now: u64)
    requires
        s.room(),
        s.active is Media || s.sp is Playing,
        input is TogglePause || input is Play,
    ensures
        Run::start(s).toggle_pause(input.expects()->0, now).sound(s, input, now),
{
    reveal(Run::sound);
    reveal(Run::toggle_pause);
}

proof fn lemma_toggle_silent(s: StateModel, input: Input, now: u64)
    requires
        s.room(),
        !(s.active is Media),
        !(s.sp is Playing),
        s.device_active,
        input is TogglePause || input is Play,
    ensures
        Run::start(s).toggle_pause(input.expects()->0, now).sound(s, input, now),
{
    reveal(Run::sound);
    reveal(Run::toggle_pause);
}

proof fn lemma_toggle(s: StateModel, input: Input, now: u64)
    requires
        s.room(),
        input is TogglePause || input is Play,
    ensures
        Run::start(s).input(input, now).sound(s, input, now),
{
    reveal(Run::input);
    reveal(Run::play);
    let tx = input.expects()->0;
    if input is Play && s.audible() {
        reveal(Run::sound);
    } else if s.active is Media || s.sp is Playing {
        lemma_toggle_audible(s, input, now);
    } else if s.device_active {
        lemma_toggle_silent(s, input, now);
    } else {
        reveal(Run::toggle_pause);
        lemma_take_over(s, input, now);
        assert(Run::start(s).toggle_pause(tx, now) == Run::start(s).take_over(tx, now));
    }
}

proof fn lemma_media_ended(s: StateModel, input: Input, now: u64)
    requires
        s.room(),
        input is MediaEnded,
    ensures
        Run::start(s).input(input, now).sound(s, input, now),
{
    reveal(Run::input);
    reveal(Run::sound);
    reveal(Run::after_media);
}

proof fn lemma_link(s: StateModel, input: Input, now: u64)
    requires
        s.room(),
        input is LinkUp || input is LinkDown || input is LinkReconnecting,
    ensures
        Run::start(s).input(input, now).sound(s, input, now),
{
    reveal(Run::input);
    reveal(Run::sound);
    reveal(Run::link_up);
    reveal(Run::link_down);
}

proof fn lemma_playing(s: StateModel, input: Input, now: u64)
    requires
        s.room(),
        input matches Input::Transport { ev, .. } && ev is Playing,
    ensures
        Run::start(s).input(input, now).sound(s, input, now),
{
    reveal(Run::input);
    reveal(Run::sound);
    reveal(Run::playing);
    reveal(Run::playing_noted);
}

proof fn lemma_paused(s: StateModel, input: Input, now: u64)
    requires
        s.room(),
        input matches Input::Transport { ev, .. } && (ev is Paused || ev is Stopped),
    ensures
        Run::start(s).input(input, now).sound(s, input, now),
{
    reveal(Run::input);
    reveal(Run::sound);
    reveal(Run::paused);
    reveal(Run::stopped);
}

proof fn lemma_track(s: StateModel, input: Input, now: u64)
    requires
        s.room(),
        input matches Input::Transport { ev, .. } && (ev is EndOfTrack || ev is TrackChanged),
    ensures
        Run::start(s).input(input, now).sound(s, input, now),
{
    reveal(Run::input);
    reveal(Run::sound);
    reveal(Run::end_of_track);
    reveal(Run::track_changed);
}

proof fn lemma_unavailable(s: StateModel, input: Input, now: u64)
    requires
        s.room(),
        input matches Input::Transport { ev, .. } && ev is Unavailable,
    ensures
        Run::start(s).input(input, now).sound(s, input, now),
{
    reveal(Run::input);
    reveal(Run::sound);
    reveal(Run::unavailable);
}

proof fn lemma_set_queue(s: StateModel, input: Input, now: u64)
    requires
        s.room(),
        input matches Input::Transport { ev, .. } && ev is SetQueue,
    ensures
        Run::start(s).input(input, now).sound(s, input, now),
{
    reveal(Run::input);
    reveal(Run::sound);
    reveal(Run::set_queue);
}

proof fn lemma_mirrors(s: StateModel, input: Input, now: u64)
    requires
        s.room(),
        input matches Input::Transport { ev, .. } && (ev is OptionsChanged || ev is SessionConnected || ev is SessionDisconnected),
    ensures
        Run::start(s).input(input, now).sound(s, input, now),
{
    reveal(Run::input);
    reveal(Run::sound);
    reveal(Run::session_disconnected);
}

proof fn lemma_stop(s: StateModel, input: Input, now: u64)
    requires
        s.room(),
        input is Stop || input is VoiceLost || input is VoiceReady,
    ensures
        Run::start(s).input(input, now).sound(s, input, now),
{
    reveal(Run::input);
    reveal(Run::sound);
    reveal(Run::stop);
    reveal(Run::voice_lost);
}

proof fn lemma_previous(s: StateModel, input: Input, now: u64)
    requires
        s.room(),
        input is Previous || input is PreviousResolved,
    ensures
        Run::start(s).input(input, now).sound(s, input, now),
{
    reveal(Run::input);
    reveal(Run::sound);
    reveal(Run::previous);
    reveal(Run::previous_resolved);
}

proof fn lemma_queue(s: StateModel, input: Input, now: u64)
    requires
        s.room(),
        input is ClearQueue || input is RestoreQueue || input is Query || input is ActivateDevice,
    ensures
        Run::start(s).input(input, now).sound(s, input, now),
{
    reveal(Run::input);
    reveal(Run::sound);
    reveal(Run::clear_queue);
    reveal(Run::restore_queue);
    reveal(Run::query);
    reveal(Run::activate_device);
}

proof fn lemma_tick(s: StateModel, input: Input, now: u64)
    requires
        s.room(),
        input is Tick,
    ensures
        Run::start(s).input(input, now).sound(s, input, now),
{
    reveal(Run::input);
    reveal(Run::sound);
    reveal(Run::arm_ack_tick);
    reveal(Run::pending_tick);
    reveal(Run::snapshot_tick);
}

/// Everything the laws below draw on, for every input.
proof fn lemma_sound(s: StateModel, input: Input, now: u64)
    requires
        s.room(),
    ensures
        Run::start(s).input(input, now).sound(s, input, now),
{
    match input {
        Input::Enqueue { .. } => lemma_enqueue(s, input, now),
        Input::Skip { .. } => lemma_skip(s, input, now),
        Input::TogglePause { .. } => lemma_toggle(s, input, now),
        Input::Play { .. } => lemma_toggle(s, input, now),
        Input::MediaEnded { .. } => lemma_media_ended(s, input, now),
        Input::LinkUp { .. } => lemma_link(s, input, now),
        Input::LinkDown { .. } => lemma_link(s, input, now),
        Input::LinkReconnecting { .. } => lemma_link(s, input, now),
        Input::Transport { ev, .. } => match ev {
            TransportEvent::Playing { .. } => lemma_playing(s, input, now),
            TransportEvent::Paused { .. } => lemma_paused(s, input, now),
            TransportEvent::Stopped => lemma_paused(s, input, now),
            TransportEvent::EndOfTrack => lemma_track(s, input, now),
            TransportEvent::TrackChanged { .. } => lemma_track(s, input, now),
            TransportEvent::Unavailable { .. } => lemma_unavailable(s, input, now),
            TransportEvent::SetQueue { .. } => lemma_set_queue(s, input, now),
            TransportEvent::OptionsChanged { .. } => lemma_mirrors(s, input, now),
            TransportEvent::SessionConnected => lemma_mirrors(s, input, now),
            TransportEvent::SessionDisconnected => lemma_mirrors(s, input, now),
        },
        Input::Stop { .. } => lemma_stop(s, input, now),
        Input::VoiceLost => lemma_stop(s, input, now),
        Input::VoiceReady => lemma_stop(s, input, now),
        Input::Previous { .. } => lemma_previous(s, input, now),
        Input::PreviousResolved { .. } => lemma_previous(s, input, now),
        Input::Tick(_) => lemma_tick(s, input, now),
        Input::ClearQueue { .. } => lemma_queue(s, input, now),
        Input::RestoreQueue { .. } => lemma_queue(s, input, now),
        Input::Query { .. } => lemma_queue(s, input, now),
        Input::ActivateDevice => lemma_queue(s, input, now),
    }
}

/// Load safety: a `Load` is asked for only while the device is ours and idle,
/// and never by an input that found the device holding a context; the turn
/// then waits for exactly that uri.
pub proof fn law_load_never_overwrites_a_context(s: StateModel, input: Input, now: u64)
    requires
        s.room(),
    ensures
        Run::start(s).input(input, now).loads_safely(s),
{
    lemma_sound(s, input, now);
    reveal(Run::sound);
}

/// Never double-armed: one input hands Spotify's queue at most one request,
/// only when nothing stood armed (or telemetry of this input cleared the
/// arm), and that request is the one armed and unacknowledged afterwards.
pub proof fn law_at_most_one_arm(s: StateModel, input: Input, now: u64)
    requires
        s.room(),
    ensures
        Run::start(s).input(input, now).arms_once(s, input, now),
{
    lemma_sound(s, input, now);
    reveal(Run::sound);
}

/// Only the head of the queue ever starts. It takes the turn under an epoch
/// no earlier runner had, and the voice join, where one is needed, is asked
/// for just before it.
pub proof fn law_media_start(s: StateModel, input: Input, now: u64)
    requires
        s.room(),
    ensures
        Run::start(s).input(input, now).starts_properly(s, input),
{
    lemma_sound(s, input, now);
    reveal(Run::sound);
}

/// Activation is explicit: the Connect device is claimed only by a human
/// asking to hear something or a request reaching its turn, never by a
/// session coming up; and the voice channel is left only by a `/stop`.
pub proof fn law_claims_and_leaves_on_request(s: StateModel, input: Input, now: u64)
    requires
        s.room(),
    ensures
        Run::start(s).input(input, now).acts_on_request(s, input),
{
    lemma_sound(s, input, now);
    reveal(Run::sound);
}

/// Every command is answered exactly once, on its own channel, after every
/// other effect; a ⏮ that starts a history read is answered when the read
/// comes back; nothing else is ever answered.
pub proof fn law_every_command_is_answered_once(s: StateModel, input: Input, now: u64)
    requires
        s.room(),
    ensures
        Run::start(s).input(input, now).answers_last(s, input),
{
    lemma_sound(s, input, now);
    reveal(Run::sound);
}

/// While a media item holds the turn, only its own end, a stop or the loss
/// of the voice connection takes the turn from it, and nothing the Spotify
/// session reports (nor a timer) cancels it, clears the bridge or starts
/// another item.
pub proof fn law_session_cannot_touch_media(s: StateModel, input: Input, now: u64)
    requires
        s.room(),
    ensures
        Run::start(s).input(input, now).respects_media(s, input),
{
    lemma_sound(s, input, now);
    reveal(Run::sound);
}

/// One input records at most one airing, always right behind its card; a
/// Spotify airing is recorded only for a track not already marked as heard,
/// and marks it.
pub proof fn law_one_history_row_per_airing(s: StateModel, input: Input, now: u64)
    requires
        s.room(),
    ensures
        Run::start(s).input(input, now).records_once(s),
{
    lemma_sound(s, input, now);
    reveal(Run::sound);
}

/// Voice is joined only for something to be heard, only while it is not
/// connected, and once: a ▶ that has nothing to play joins nothing.
pub proof fn law_voice_is_joined_for_sound(s: StateModel, input: Input, now: u64)
    requires
        s.room(),
    ensures
        Run::start(s).input(input, now).joins_for_sound(s),
{
    lemma_sound(s, input, now);
    reveal(Run::sound);
}

/// Nobody waits for a walk back without a read of the history under way: the
/// input that starts the wait asks for the read, and for nothing else.
pub proof fn law_a_walk_back_asks_for_a_read(s: StateModel, input: Input, now: u64)
    requires
        s.room(),
    ensures
        Run::start(s).input(input, now).waits_for_a_read(s),
{
    lemma_sound(s, input, now);
    reveal(Run::sound);
}

/// An enqueue never steals the turn: while somebody holds it, all that can
/// happen beside the answer is that a Spotify request is armed, and what is
/// audible stays as it is.
pub proof fn law_enqueue_never_steals_the_turn(s: StateModel, input: Input, now: u64)
    requires
        input is Enqueue,
        !(s.active is Nobody),
    ensures
        ({
            let r = Run::start(s).input(input, now);
            &&& r.s.active == s.active
            &&& r.s.sp == s.sp
            &&& r.s.voice == s.voice
            &&& r.s.pause_owner == s.pause_owner
            &&& r.s.device_active == s.device_active
            &&& forall|k: int|
                0 <= k < r.fx.len() ==> (#[trigger] r.fx[k]).is_arm() || r.fx[k] is SetTimer
                    || r.fx[k] is Reply
        }),
{
    reveal(Run::input);
    reveal(Run::enqueue);
}

/// Spotify re-emitting the track that is already on the card posts no second
/// card and records no second airing.
pub proof fn law_replayed_event_is_not_a_new_airing(
    s: StateModel,
    gen: u64,
    uri: SpotifyUri,
    meta: Option<crate::player::state::TrackMeta>,
    now: u64,
)
    requires
        s.room(),
        s.last_heard_track == Some(uri@.text),
    ensures
        ({
            let ev = TransportEvent::Playing { uri, meta };
            let r = Run::start(s).input(Input::Transport { gen, ev }, now);
            forall|k: int|
                0 <= k < r.fx.len() ==> !(#[trigger] r.fx[k] is RecordAired) && !(
                r.fx[k] matches EffectModel::Ui(msg) && msg is NowPlayingSpotify)
        }),
{
    reveal(Run::input);
    reveal(Run::playing);
    reveal(Run::playing_noted);
}

/// The queue without the item at some position (or as it was).
pub open spec fn one_removed(before: QueueModel, after: QueueModel) -> bool {
    exists|k: int| after == #[trigger] before.without(k)
}

/// Strict order: apart from an enqueue, a clear and the restore at boot, an
/// input at most takes one item out of the queue, and leaves the others in
/// place and in order.
pub proof fn law_queue_keeps_its_order(s: StateModel, input: Input, now: u64)
    requires
        s.room(),
        !(input is Enqueue || input is ClearQueue || input is RestoreQueue),
    ensures
        one_removed(s.queue, Run::start(s).input(input, now).s.queue),
{
    lemma_sound(s, input, now);
    reveal(Run::sound);
    assert(s.queue.without(-1) == s.queue);
    if s.queue.items.len() > 0 {
        assert(s.queue.items.remove(0) =~= s.queue.items.drop_first());
        assert(s.queue.without(0) == s.queue.popped());
    }
}

/// Stale reports say nothing: telemetry, a link loss or a reconnect of
/// another session generation, and the end of a superseded media runner,
/// change nothing and ask for nothing.
pub proof fn law_stale_reports_are_ignored(s: StateModel, input: Input, now: u64)
    requires
        match input {
            Input::Transport { gen, .. } => gen != s.link_gen,
            Input::LinkDown { gen } => gen != s.link_gen,
            Input::LinkReconnecting { gen } => gen != s.link_gen,
            Input::MediaEnded { epoch, .. } => !(s.active matches Active::Media { epoch: e, .. }
                && e == epoch),
            _ => false,
        },
    ensures
        Run::start(s).input(input, now) == Run::start(s),
{
    reveal(Run::input);
    reveal(Run::link_down);
}

/// A runner superseded by a later start or by the loss of the voice
/// connection can no longer end anything.
pub proof fn law_superseded_runner_is_stale(
    s: StateModel,
    input: Input,
    epoch: u64,
    outcome: crate::player::state::MediaOutcome,
    now: u64,
    later: u64,
)
    requires
        s.room(),
        epoch <= s.media_epoch,
        Run::start(s).input(input, now).s.media_epoch > s.media_epoch,
    ensures
        ({
            let after = Run::start(s).input(input, now).s;
            Run::start(after).input(Input::MediaEnded { epoch, outcome }, later) == Run::start(
                after,
            )
        }),
{
    lemma_sound(s, input, now);
    reveal(Run::sound);
    let after = Run::start(s).input(input, now).s;
    law_stale_reports_are_ignored(after, Input::MediaEnded { epoch, outcome }, later);
}

/// A stop keeps the queue and goes quiet: nobody holds the turn, the device
/// is given up, the voice connection is down, and no pause is owed a resume.
pub proof fn law_stop_keeps_the_queue(
    s: StateModel,
    reply: oneshot::Sender<String>,
    leave_voice: bool,
    now: u64,
)
    ensures
        ({
            let r = Run::start(s).input(Input::Stop { reply, leave_voice }, now).s;
            &&& r.queue == s.queue
            &&& r.active is Nobody
            &&& r.voice is Down
            &&& !r.device_active
            &&& r.pause_owner is None
            &&& s.device_active ==> r.sp is Inactive && r.armed is None
        }),
{
    reveal(Run::input);
    reveal(Run::stop);
}

/// A clear empties the queue and touches nothing that is audible: its only
/// effect is its answer.
pub proof fn law_clear_touches_nothing_audible(
    s: StateModel,
    reply: oneshot::Sender<String>,
    now: u64,
)
    ensures
        ({
            let r = Run::start(s).input(Input::ClearQueue { reply }, now);
            &&& r.s.queue.items.len() == 0
            &&& r.s.queue.last_id == s.queue.last_id
            &&& r.s.active == s.active
            &&& r.s.sp == s.sp
            &&& r.s.voice == s.voice
            &&& r.s.pause_owner == s.pause_owner
            &&& r.fx.len() == 1
        }),
{
    reveal(Run::input);
    reveal(Run::clear_queue);
}

/// Restoring the queue at boot never plays anything: the turn, the device
/// mirror and the voice connection stay as they are, and a restore onto a
/// queue someone already filled does nothing at all.
pub proof fn law_restore_never_plays(
    s: StateModel,
    items: Vec<crate::queue::QueueItem>,
    now: u64,
)
    ensures
        ({
            let r = Run::start(s).input(Input::RestoreQueue { items }, now);
            &&& r.s.active == s.active
            &&& r.s.sp == s.sp
            &&& r.s.voice == s.voice
            &&& r.s.device_active == s.device_active
            &&& s.queue.items.len() > 0 ==> r == Run::start(s)
            &&& forall|k: int|
                0 <= k < r.fx.len() ==> (#[trigger] r.fx[k]).is_arm() || r.fx[k] is SetTimer
        }),
{
    reveal(Run::input);
    reveal(Run::restore_queue);
}

/// A query changes nothing.
pub proof fn law_query_changes_nothing(
    s: StateModel,
    reply: oneshot::Sender<crate::player::state::PlayerSnapshot>,
    now: u64,
)
    ensures
        Run::start(s).input(Input::Query { reply }, now).s == s,
{
    reveal(Run::input);
    reveal(Run::query);
}

/// A new session starts clean: it does not hold the Connect device, and
/// nothing of the previous DJ's listening survives it, neither the context
/// nor the shuffle and repeat flags, nor a jump, a walk through the history
/// or a held request.
pub proof fn law_new_session_forgets_the_last_listener(s: StateModel, gen: u64, now: u64)
    ensures
        ({
            let r = Run::start(s).input(Input::LinkUp { gen }, now).s;
            &&& r.link_gen == gen
            &&& !r.device_active
            &&& r.sp is Inactive
            &&& r.context_uri is None
            &&& !r.play_options.shuffle && !r.play_options.repeat_context
                && !r.play_options.repeat_track
            &&& r.awaiting_jump is None
            &&& r.history_cursor is None
            &&& r.pending_request is None
            &&& r.pauses.len() == 0
        }),
{
    reveal(Run::input);
    reveal(Run::link_up);
}

/// A takeover by another device never leaves an idle device behind: after
/// `SessionDisconnected`, a `Stopped` reads as `Inactive`, so nothing may be
/// loaded.
pub proof fn law_takeover_is_not_idle(s: StateModel, now: u64, later: u64)
    ensures
        ({
            let lost = Run::start(s).transport(TransportEvent::SessionDisconnected, now).s;
            let r = Run::start(lost).transport(TransportEvent::Stopped, later).s;
            r.sp is Inactive && !r.device_active
        }),
{
    reveal(Run::session_disconnected);
    reveal(Run::stopped);
}

/// A human's pause is honoured: when a media item ends over a baseline a
/// human paused, nothing resumes or advances Spotify.
pub proof fn law_human_pause_is_honoured(s: StateModel, input: Input, now: u64)
    requires
        input is MediaEnded,
        s.pause_owner == Some(PauseOwner::Human),
    ensures
        ({
            let r = Run::start(s).input(input, now);
            forall|k: int| 0 <= k < r.fx.len() ==> !(#[trigger] r.fx[k]).is_resume()
        }),
{
    reveal(Run::input);
    reveal(Run::after_media);
}

/// A debt is paid: a baseline the bot paused for a media item resumes when
/// that item ends with nothing queued, and also when the item ended while
/// the session was down.
pub proof fn law_bot_pause_is_resumed(s: StateModel, input: Input, now: u64)
    requires
        s.pause_owner == Some(PauseOwner::BotForMedia),
        match input {
            Input::MediaEnded { epoch, .. } => {
                &&& s.active matches Active::Media { epoch: e, .. }
                &&& e == epoch
                &&& s.queue.items.len() == 0
                &&& s.device_active
                &&& s.sp is Paused || s.sp is Boundary
            },
            Input::LinkUp { .. } => s.active is Nobody,
            _ => false,
        },
    ensures
        ({
            let r = Run::start(s).input(input, now);
            &&& r.fx.last() == EffectModel::Spirc(SpircCmd::Play)
            &&& r.s.active is Spotify
            &&& r.s.pause_owner is None
        }),
{
    reveal(Run::input);
    reveal(Run::after_media);
    reveal(Run::link_up);
}

/// Spotify is never audible over a media item: a track it starts meanwhile is
/// paused straight back, no card is shown and no airing recorded, the bot
/// owns the pause, and whoever asked for the track is remembered.
pub proof fn law_playing_under_media_is_paused(
    s: StateModel,
    uri: SpotifyUri,
    meta: Option<crate::player::state::TrackMeta>,
    now: u64,
)
    requires
        s.active is Media,
    ensures
        ({
            let r = Run::start(s).transport(TransportEvent::Playing { uri, meta }, now);
            &&& r.fx.last() == EffectModel::Spirc(SpircCmd::Pause)
            &&& r.s.pause_owner == Some(PauseOwner::BotForMedia)
            &&& r.s.active == s.active
            &&& r.s.last_heard_track == s.last_heard_track
            &&& s.request_for(uri) is Some ==> r.s.pending_request == s.request_for(uri)
            &&& forall|k: int| 0 <= k < r.fx.len() ==> !(#[trigger] r.fx[k] is RecordAired)
        }),
{
    reveal(Run::playing);
    reveal(Run::playing_noted);
}

/// A pending start always has an exit: once the timeout has passed, a start
/// already retried is given up or resolved, and one not yet retried is
/// retried at most once more.
pub proof fn law_pending_start_has_an_exit(s: StateModel, now: u64)
    requires
        s.active is SpotifyPending,
        s.active matches Active::SpotifyPending { sent, .. }
            && crate::player::model::elapsed(now, sent) >= crate::player::state::PENDING_TIMEOUT,
    ensures
        ({
            let r = Run::start(s).input(Input::Tick(TimerKind::SpotifyPending), now).s;
            r.active matches Active::SpotifyPending { retried, .. } ==> retried && (
            s.active matches Active::SpotifyPending { retried: before, .. } && !before)
        }),
{
    reveal(Run::input);
    reveal(Run::pending_tick);
}

/// Timers re-validate: one that fires early changes nothing.
pub proof fn law_early_timer_is_a_no_op(s: StateModel, kind: TimerKind, now: u64)
    requires
        match kind {
            TimerKind::ArmAck => s.armed matches Some(Armed { ack: Ack::Sent(at), .. })
                ==> crate::player::model::elapsed(now, at) < crate::player::state::ARM_ACK_TIMEOUT,
            TimerKind::SpotifyPending => s.active matches Active::SpotifyPending { sent, .. }
                ==> crate::player::model::elapsed(now, sent)
                < crate::player::state::PENDING_TIMEOUT,
            TimerKind::SnapshotExpiry => s.armed_snapshot matches Some(snap)
                ==> crate::player::model::elapsed(now, snap.at)
                < crate::player::state::SNAPSHOT_TTL,
        },
    ensures
        Run::start(s).input(Input::Tick(kind), now) == Run::start(s),
{
    reveal(Run::input);
    reveal(Run::arm_ack_tick);
    reveal(Run::pending_tick);
    reveal(Run::snapshot_tick);
}

/// An arm survives a short outage: what stood armed when the link went down
/// is armed again, awaiting a fresh acknowledgement, when the link returns
/// within the snapshot's life and the request is still queued.
pub proof fn law_arm_survives_a_short_outage(s: StateModel, gen: u64, down: u64, up: u64)
    requires
        s.armed is Some,
        crate::player::model::elapsed(up, down) < crate::player::state::SNAPSHOT_TTL,
        Run::start(s).input(Input::LinkDown { gen: s.link_gen }, down).s.queues_id(
            s.armed->0.item_id,
        ),
    ensures
        ({
            let lost = Run::start(s).input(Input::LinkDown { gen: s.link_gen }, down).s;
            let r = Run::start(lost).input(Input::LinkUp { gen }, up);
            &&& lost.armed is None
            &&& r.s.armed == Some(
                Armed { item_id: s.armed->0.item_id, uri: s.armed->0.uri, ack: Ack::Sent(up) },
            )
            &&& r.fx[0] == EffectModel::Spirc(SpircCmd::Transfer)
        }),
{
    reveal(Run::input);
    reveal(Run::link_down);
    reveal(Run::link_up);
}

/// ⏯ twice on a media item leaves it as it was.
pub proof fn law_toggling_media_twice_restores_it(
    s: StateModel,
    first: oneshot::Sender<String>,
    second: oneshot::Sender<String>,
    now: u64,
    later: u64,
)
    requires
        s.active is Media,
    ensures
        ({
            let once = Run::start(s).input(Input::TogglePause { reply: first }, now).s;
            Run::start(once).input(Input::TogglePause { reply: second }, later).s == s
        }),
{
    reveal(Run::input);
    reveal(Run::toggle_pause);
}

/// A bare `/play` never pauses what is audible: it changes nothing and only
/// answers.
pub proof fn law_play_never_pauses(s: StateModel, reply: oneshot::Sender<String>, now: u64)
    requires
        s.audible(),
    ensures
        ({
            let r = Run::start(s).input(Input::Play { reply }, now);
            r.s == s && r.fx.len() == 1
        }),
{
    reveal(Run::input);
    reveal(Run::play);
}

/// A second ⏮ while one is being resolved neither drops the first caller's
/// channel nor walks back twice.
pub proof fn law_one_walk_back_at_a_time(s: StateModel, reply: oneshot::Sender<String>, now: u64)
    requires
        s.pending_reply is Some,
    ensures
        ({
            let r = Run::start(s).input(Input::Previous { reply }, now);
            r.s == s && r.fx.len() == 1 && r.fx[0] is Reply
        }),
{
    reveal(Run::input);
    reveal(Run::previous);
}

/// A pause we sent is recognised when it is echoed in time, so it does not
/// read as a human's, as long as fewer than eight are outstanding.
pub proof fn law_own_pause_is_recognised(s: StateModel, uri: SpotifyUri, sent: u64, echoed: u64)
    requires
        crate::player::model::live_pauses(s.pauses, sent).len() < 8,
        crate::player::model::elapsed(echoed, sent) < crate::player::state::INFLIGHT_TTL,
    ensures
        ({
            let waiting = Run::start(s).pause(sent).s;
            Run::start(waiting).transport(TransportEvent::Paused { uri }, echoed).s.pause_owner
                == s.pause_owner
        }),
{
    reveal(Run::paused);
    let live = crate::player::model::live_pauses(s.pauses, sent).push(sent);
    assert(live.drop_last() =~= crate::player::model::live_pauses(s.pauses, sent));
    assert(crate::player::model::live_pauses(live, echoed).len() > 0);
}

/// Nothing Spotify reports moves the turn from a media item or shows anything:
/// no card, status, announcement, airing or voice join follows, and nothing of
/// the item is cleared or cancelled. Spotify is paused exactly when it starts
/// playing, once and with no other command beside it, and the bot then owns the
/// pause.
pub proof fn law_media_turn_is_untouched_by_telemetry(
    s: StateModel,
    ev: TransportEvent,
    now: u64,
)
    requires
        s.active is Media,
    ensures
        ({
            let r = Run::start(s).transport(ev, now);
            &&& r.s.active == s.active
            &&& forall|k: int|
                0 <= k < r.fx.len() ==> {
                    let e = #[trigger] r.fx[k];
                    &&& !(e is ClearBridge || e is CancelMedia || e is StartMedia || e is JoinVoice
                        || e is Presence || e is Announce || e is RecordAired)
                    &&& !(e matches EffectModel::Ui(msg) && msg is NowPlayingSpotify)
                    &&& ev is Playing && e is Spirc ==> k == r.fx.len() - 1
                    &&& !(ev is Playing) ==> e != EffectModel::Spirc(SpircCmd::Pause)
                }
            &&& ev is Playing ==> r.fx.len() > 0 && r.fx.last() == EffectModel::Spirc(
                SpircCmd::Pause,
            ) && r.s.pause_owner == Some(PauseOwner::BotForMedia)
        }),
{
    reveal(Run::playing);
    reveal(Run::playing_noted);
    reveal(Run::paused);
    reveal(Run::stopped);
    reveal(Run::end_of_track);
    reveal(Run::unavailable);
    reveal(Run::track_changed);
    reveal(Run::set_queue);
    reveal(Run::session_disconnected);
}

/// One row per airing, with whoever asked: a track the baseline moves on to is
/// shown and recorded when it is named, and not again when it plays or is
/// reported playing once more. It is a request exactly if one for it is queued,
/// and then the first of those says whose.
pub proof fn law_an_airing_is_attributed_to_its_request(
    s: StateModel,
    uri: SpotifyUri,
    meta: crate::player::state::TrackMeta,
    again: Option<crate::player::state::TrackMeta>,
    now: u64,
    later: u64,
    latest: u64,
)
    requires
        s.active is Spotify,
        s.last_heard_track != Some(uri@.text),
    ensures
        ({
            let named = Run::start(s).transport(TransportEvent::TrackChanged { uri, meta }, now);
            let heard = Run::start(named.s).transport(
                TransportEvent::Playing { uri, meta: Some(meta) },
                later,
            );
            let replayed = Run::start(heard.s).transport(
                TransportEvent::Playing { uri, meta: again },
                latest,
            );
            &&& named.fx.len() == 2
            &&& named.fx[0] matches EffectModel::Ui(msg) && msg is NowPlayingSpotify
            &&& named.fx[1] matches EffectModel::RecordAired(track) && {
                &&& track.track_ref == uri@.text
                &&& match s.request_for(uri) {
                    Some(item) => {
                        &&& track.source == AiredSource::Request
                        &&& track.queued_by == Some(item.queued_by@)
                        &&& track.queued_by_id == Some(
                            crate::text::decimal(item.queued_by_id as nat),
                        )
                    },
                    None => {
                        &&& track.source == AiredSource::Baseline
                        &&& track.queued_by is None
                        &&& track.queued_by_id is None
                    },
                }
            }
            &&& forall|k: int|
                0 <= k < heard.fx.len() ==> !(#[trigger] heard.fx[k] is RecordAired) && !(
                heard.fx[k] matches EffectModel::Ui(msg) && msg is NowPlayingSpotify)
            &&& forall|k: int|
                0 <= k < replayed.fx.len() ==> !(#[trigger] replayed.fx[k] is RecordAired)
        }),
{
    reveal(Run::track_changed);
    reveal(Run::playing);
    reveal(Run::playing_noted);
}

/// The first queued request for a track is the one an airing is attributed to:
/// nothing queued before it asks for that track.
pub proof fn law_the_first_request_is_answered(s: StateModel, uri: SpotifyUri)
    ensures
        match s.request_for(uri) {
            Some(item) => {
                let k = s.request_index(uri);
                &&& 0 <= k < s.queue.items.len() && item == s.queue.items[k]
                &&& item.spotify_uri() == Some(uri@)
                &&& forall|j: int|
                    0 <= j < k ==> (#[trigger] s.queue.items[j]).spotify_uri() != Some(uri@)
            },
            None => forall|j: int|
                0 <= j < s.queue.items.len() ==> (#[trigger] s.queue.items[j]).spotify_uri()
                    != Some(uri@),
        },
{
    let p = crate::player::model::requests_of(uri);
    crate::queue::lemma_first_index(s.queue.items, p);
    let k = s.request_index(uri);
    assert forall|j: int| 0 <= j < k implies (#[trigger] s.queue.items[j]).spotify_uri() != Some(
        uri@,
    ) by {
        assert(!p(s.queue.items[j]));
    }
    if k < s.queue.items.len() {
        assert(p(s.queue.items[k]));
    }
}

/// A stopped device is loadable only while it is ours, and no pause outlives
/// the stop.
pub proof fn law_stopped_is_idle_only_on_our_device(s: StateModel, now: u64)
    ensures
        ({
            let r = Run::start(s).transport(TransportEvent::Stopped, now).s;
            &&& r.sp is Idle <==> s.device_active
            &&& r.sp is Inactive <==> !s.device_active
            &&& r.pause_owner is None
        }),
{
    reveal(Run::stopped);
}

/// The media starts among some effects.
pub open spec fn media_starts(fx: Seq<EffectModel>) -> Seq<crate::queue::QueueItem>
    decreases fx.len(),
{
    if fx.len() == 0 {
        Seq::empty()
    } else {
        match fx.last() {
            EffectModel::StartMedia { item, .. } => media_starts(fx.drop_last()).push(item),
            _ => media_starts(fx.drop_last()),
        }
    }
}

proof fn lemma_media_starts_push(fx: Seq<EffectModel>, e: EffectModel)
    ensures
        media_starts(fx.push(e)) == (match e {
            EffectModel::StartMedia { item, .. } => media_starts(fx).push(item),
            _ => media_starts(fx),
        }),
{
    assert(fx.push(e).drop_last() =~= fx);
}

proof fn lemma_no_media_starts(fx: Seq<EffectModel>)
    requires
        forall|k: int| 0 <= k < fx.len() ==> !(#[trigger] fx[k] is StartMedia),
    ensures
        media_starts(fx) == Seq::<crate::queue::QueueItem>::empty(),
    decreases fx.len(),
{
    if fx.len() > 0 {
        lemma_no_media_starts(fx.drop_last());
    }
}

/// Strict order at the end of a media item: a media item at the head starts, it
/// alone, and leaves the queue; any other head starts nothing and stays. A
/// pause a human put on the baseline is kept.
pub proof fn law_a_media_head_starts_at_a_media_boundary(s: StateModel, now: u64)
    ensures
        ({
            let r = Run::start(s).after_media(now);
            &&& s.head() is Media ==> media_starts(r.fx) == seq![s.queue.items[0]] && r.s.queue
                == s.queue.popped()
            &&& !(s.head() is Media) ==> media_starts(r.fx).len() == 0 && r.s.queue == s.queue
            &&& s.pause_owner == Some(PauseOwner::Human) && s.device_active && (s.sp is Paused
                || s.sp is Boundary) ==> r.s.pause_owner == Some(PauseOwner::Human) && forall|
                k: int,
            |
                0 <= k < r.fx.len() ==> !(#[trigger] r.fx[k]).is_resume() && !r.fx[k].is_load()
        }),
{
    reveal(Run::after_media);
    let r = Run::start(s).after_media(now);
    if s.head() is Media {
        let item = s.queue.items[0];
        let k = if s.voice is Down {
            1int
        } else {
            0int
        };
        let upto = r.fx.take(k);
        lemma_no_media_starts(upto);
        lemma_media_starts_push(upto, r.fx[k]);
        assert(r.fx.take(k + 1) =~= upto.push(r.fx[k]));
        lemma_media_starts_tail(r.fx, k + 1);
        assert(media_starts(r.fx) =~= seq![item]);
    } else {
        lemma_no_media_starts(r.fx);
    }
}

proof fn lemma_media_starts_tail(fx: Seq<EffectModel>, from: int)
    requires
        0 <= from <= fx.len(),
        forall|k: int| from <= k < fx.len() ==> !(#[trigger] fx[k] is StartMedia),
    ensures
        media_starts(fx) == media_starts(fx.take(from)),
    decreases fx.len(),
{
    if from == fx.len() {
        assert(fx.take(from) =~= fx);
    } else {
        lemma_media_starts_tail(fx.drop_last(), from);
        assert(fx.drop_last().take(from) =~= fx.take(from));
    }
}

impl StateModel {
    /// A Spotify request may be handed to Spotify's own queue: nothing stands
    /// armed, the device is ours and has a context, no start is pending, and a
    /// request is queued.
    pub open spec fn may_arm(self) -> bool {
        &&& self.armed is None
        &&& self.device_active
        &&& !(self.active is SpotifyPending)
        &&& self.has_context()
        &&& exists|k: int|
            0 <= k < self.queue.items.len() && (#[trigger] self.queue.items[k]).source is Spotify
    }
}

/// One armed track at a time, and one whenever that may be: where arming is
/// allowed, the first Spotify request in queue order, past any media head, is
/// handed over and stands armed, and nothing else changes; where it is not,
/// nothing does; and a second attempt right after adds nothing.
pub proof fn law_arming_happens_whenever_it_may(run: Run, now: u64, later: u64)
    ensures
        ({
            let r = run.maybe_arm(now);
            &&& run.s.may_arm() ==> exists|k: int|
                {
                    let item = #[trigger] run.s.queue.items[k];
                    &&& 0 <= k < run.s.queue.items.len()
                    &&& forall|j: int|
                        0 <= j < k ==> !((#[trigger] run.s.queue.items[j]).source is Spotify)
                    &&& item.source matches crate::queue::MediaSource::Spotify { uri, .. } && {
                        &&& r.s == (StateModel {
                            armed: Some(
                                Armed { item_id: item.item_id, uri, ack: Ack::Sent(now) },
                            ),
                            ..run.s
                        })
                        &&& r.fx == run.fx.push(
                            EffectModel::Spirc(SpircCmd::AddToQueue(uri)),
                        ).push(
                            EffectModel::SetTimer(
                                TimerKind::ArmAck,
                                crate::player::state::ARM_ACK_TIMEOUT,
                            ),
                        )
                    }
                }
            &&& !run.s.may_arm() ==> r == run
            &&& r.maybe_arm(later) == r
        }),
{
    let p = crate::player::model::spotify_requests();
    let items = run.s.queue.items;
    crate::queue::lemma_first_index(items, p);
    let k = crate::queue::first_index(items, p);
    assert forall|j: int| 0 <= j < k implies !((#[trigger] items[j]).source is Spotify) by {
        assert(!p(items[j]));
    }
    if k < items.len() {
        assert(p(items[k]));
        assert(items[k].source is Spotify);
    }
}

/// Voice is asked for once: the join is asked for exactly while it is down,
/// nothing else changes, and asking again right after changes nothing.
pub proof fn law_joining_twice_asks_once(run: Run)
    ensures
        ({
            let r = run.ensure_voice();
            &&& r.fx == (if run.s.voice is Down {
                run.fx.push(EffectModel::JoinVoice)
            } else {
                run.fx
            })
            &&& r.s == (StateModel { voice: r.s.voice, ..run.s })
            &&& r.s.voice is Ready <==> run.s.voice is Ready
            &&& !(r.s.voice is Down)
            &&& r.ensure_voice() == r
        }),
{
}

/// A missing session has one phrasing: a skip that needs Spotify without one
/// says so, and changes nothing.
pub proof fn law_a_missing_session_has_one_phrasing(
    s: StateModel,
    reply: oneshot::Sender<String>,
    now: u64,
)
    requires
        !(s.active is Media),
        s.head() is Spotify,
        !s.device_active,
        !s.link_up,
    ensures
        ({
            let r = Run::start(s).input(Input::Skip { reply }, now);
            &&& r.s == s
            &&& r.fx == seq![
                EffectModel::Reply(reply, "No Spotify session — run `/login` to connect."@),
            ]
        }),
{
    reveal(Run::input);
    reveal(Run::skip);
}

/// A reply a human reads: one of the glyphs with a meaning leads it, a warning
/// with its variation selector, or it is one of the sentences that stand bare.
pub open spec fn house_style(text: Seq<char>) -> bool {
    ||| text.len() > 0 && (text[0] == '✅' || text[0] == '➕' || text[0] == '▶' || text[0] == '⏸'
        || text[0] == '⏭' || text[0] == '⏮' || text[0] == '⏹' || text[0] == '❌')
    ||| text.len() > 1 && text[0] == '⚠' && text[1] == '\u{fe0f}'
    ||| text == "No Spotify session — run `/login` to connect."@
    ||| text == "Nothing is playing right now."@
    ||| text == "The queue is already empty."@
}

/// The reply that ends some effects, if one does, keeps the house style.
pub open spec fn in_style(fx: Seq<EffectModel>) -> bool {
    fx.len() > 0 ==> (fx.last() matches EffectModel::Reply(_, text) ==> house_style(text))
}

proof fn lemma_enqueue_style(s: StateModel, input: Input, now: u64)
    requires
        s.room(),
        input is Enqueue,
    ensures
        in_style(Run::start(s).input(input, now).fx),
{
    reveal_strlit("⚠️ Queue is full (");
    reveal_strlit("▶ Playing now");
    reveal_strlit("➕ Queued. **");
    reveal_strlit("➕ Playing next");
    reveal_strlit("➕ Added to queue #");
    reveal_strlit("➕ Queued. Nothing is playing right now — press ▶ or use `/play` to start.");
    reveal(Run::input);
    reveal(Run::enqueue);
    reveal(Run::start_silent);
}

proof fn lemma_skip_style(s: StateModel, input: Input, now: u64)
    requires
        s.room(),
        input is Skip,
    ensures
        in_style(Run::start(s).input(input, now).fx),
{
    reveal_strlit("⏭ Skipped.");
    reveal(Run::input);
    reveal(Run::skip);
}

proof fn lemma_stop_style(s: StateModel, input: Input, now: u64)
    requires
        s.room(),
        input is Stop,
    ensures
        in_style(Run::start(s).input(input, now).fx),
{
    reveal_strlit("⏹ Stopped and left the channel.");
    reveal_strlit("⏹ Stopped and left the channel. ");
    reveal(Run::input);
    reveal(Run::stop);
}

proof fn lemma_toggle_style(s: StateModel, input: Input, now: u64)
    requires
        s.room(),
        input is TogglePause || input is Play,
    ensures
        in_style(Run::start(s).input(input, now).fx),
{
    reveal_strlit("▶ Playing now");
    reveal_strlit("❌ Something is already playing — give `/play` a link or file, or use ⏯ to pause.");
    reveal_strlit("▶ Taking over the Spotify device — starting **");
    reveal_strlit("▶ Taking over the Spotify device.");
    reveal_strlit("▶ Resumed");
    reveal_strlit("⏸ Paused");
    reveal(Run::input);
    reveal(Run::play);
    reveal(Run::toggle_pause);
    reveal(Run::take_over);
}

proof fn lemma_previous_style(s: StateModel, input: Input, now: u64)
    requires
        s.room(),
        input is Previous || input is PreviousResolved,
    ensures
        in_style(Run::start(s).input(input, now).fx),
{
    reveal_strlit("❌ Previous isn't available during queue playback.");
    reveal_strlit("⏮ Already going back — one moment.");
    reveal_strlit("⏮ Previous track.");
    reveal_strlit("❌ Nothing further back — this is the earliest track I have a record of.");
    reveal(Run::input);
    reveal(Run::previous);
    reveal(Run::previous_resolved);
}

proof fn lemma_clear_style(s: StateModel, input: Input, now: u64)
    requires
        s.room(),
        input is ClearQueue,
    ensures
        in_style(Run::start(s).input(input, now).fx),
{
    reveal_strlit("✅ Cleared ");
    reveal(Run::input);
    reveal(Run::clear_queue);
}

/// Every reply keeps the house style, whatever was asked.
pub proof fn law_replies_keep_the_house_style(s: StateModel, input: Input, now: u64, k: int)
    requires
        s.room(),
        0 <= k < Run::start(s).input(input, now).fx.len(),
    ensures
        Run::start(s).input(input, now).fx[k] matches EffectModel::Reply(_, text) ==> house_style(
            text,
        ),
{
    lemma_sound(s, input, now);
    reveal(Run::sound);
    match input {
        Input::Enqueue { .. } => lemma_enqueue_style(s, input, now),
        Input::Skip { .. } => lemma_skip_style(s, input, now),
        Input::Stop { .. } => lemma_stop_style(s, input, now),
        Input::TogglePause { .. } => lemma_toggle_style(s, input, now),
        Input::Play { .. } => lemma_toggle_style(s, input, now),
        Input::Previous { .. } => lemma_previous_style(s, input, now),
        Input::PreviousResolved { .. } => lemma_previous_style(s, input, now),
        Input::ClearQueue { .. } => lemma_clear_style(s, input, now),
        _ => {},
    }
    let fx = Run::start(s).input(input, now).fx;
    if k < fx.len() - 1 {
        assert(!fx[k].is_answer());
    }
}

/// What a history row stores of where a track came from reads back as that.
pub proof fn law_aired_source_reads_back(source: AiredSource)
    ensures
        AiredSource::read(source.word()) == source,
{
    reveal_strlit("request");
    reveal_strlit("baseline");
    assert("baseline"@.len() != "request"@.len());
}

} // verus!
