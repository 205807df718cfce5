//! What the shell does with each input and each effect, as the process sees
//! it: which actions come out, in which order, and what is remembered.

use tokio::sync::oneshot;
use vstd::prelude::*;

use crate::player::actor::{
    addressed, empty_snapshot, feed_for, feed_report, is_spotify_row, music_pause_for_transport,
    plan_batch, prepare_next, previous_track, reject_guarded, Action, ActionModel, Actor, Admission, BackCompletion, Feed, HistoryRow, Mail,
    Preparation, PreviousAuthorization, Shell, ShellModel, StorePlan, StoreRequest, UiEvent,
    VoiceGuard, Work,
};
use crate::player::model::{EffectModel, Run, StateModel, UiModel};
use crate::player::state::{
    Active, AnnounceKind, Effect, Input, MediaOutcome, PlayerSnapshot, PresenceState,
    PreviousTrack, StartGate, TrackHandleCmd, TransportEvent, UiMsg,
};
use crate::presence::{PresenceUpdate, StatusModel};
use crate::queue::{MediaSource, QueueItem};
use crate::youtube::feeder::FeederError;

verus! {

/// Mail carries the guard of the handle it is sent through, and nothing is
/// lost on the way.
pub proof fn law_mail_carries_its_guard(guard: Option<VoiceGuard>, input: Input, mail: Mail)
    requires
        call_ensures(addressed, (guard, input), mail),
    ensures
        guard is None ==> mail == Mail::Plain(input),
        guard matches Some(g) ==> mail == (Mail::Guarded { guard: g, input }),
{
}

/// Every command with a text reply is answered when it is refused; a query
/// and everything that is no command goes without.
pub proof fn law_refused_commands_are_answered(
    input: Input,
    r: Option<(oneshot::Sender<String>, String)>,
)
    requires
        call_ensures(reject_guarded, (input,), r),
    ensures
        r matches Some(p) ==> p.1@
            == "Your voice room or this music session changed. Open a fresh menu."@,
        input matches Input::Enqueue { reply, .. } ==> (r matches Some(p) && p.0 == reply),
        input matches Input::Skip { reply } ==> (r matches Some(p) && p.0 == reply),
        input matches Input::Stop { reply, .. } ==> (r matches Some(p) && p.0 == reply),
        input matches Input::TogglePause { reply } ==> (r matches Some(p) && p.0 == reply),
        input matches Input::Previous { reply } ==> (r matches Some(p) && p.0 == reply),
        input matches Input::Play { reply } ==> (r matches Some(p) && p.0 == reply),
        input matches Input::ClearQueue { reply } ==> (r matches Some(p) && p.0 == reply),
        r is Some ==> input is Enqueue || input is Skip || input is Stop || input is TogglePause
            || input is Previous || input is Play || input is ClearQueue,
{
}

/// Unguarded mail always runs. Guarded mail runs as it is, on behalf of its
/// guard, only when the check passes, and is refused only when it fails.
pub proof fn law_guarded_mail_is_checked<F: Fn(&VoiceGuard) -> bool>(
    authorize: F,
    mail: Mail,
    r: Admission,
)
    requires
        crate::player::actor::admits(authorize, mail, r),
    ensures
        mail matches Mail::Plain(input) ==> r == (Admission::Run { input, guard: None }),
        mail matches Mail::Guarded { guard, input } ==> {
            &&& r is Run ==> r == (Admission::Run { input, guard: Some(guard) }) && call_ensures(
                authorize,
                (&guard,),
                true,
            )
            &&& r is Refused ==> call_ensures(authorize, (&guard,), false)
            &&& r matches Admission::Refused(Some(p)) ==> p.1@
                == "Your voice room or this music session changed. Open a fresh menu."@
            &&& r matches Admission::Refused(answer) ==> (input matches Input::Skip { reply }
                ==> (answer matches Some(p) && p.0 == reply))
            &&& r matches Admission::Refused(answer) ==> (input is Query ==> answer is None)
        },
{
}

/// A read that comes back counts only under the number that is waited for.
/// Then the wait is over, and what was found is used when the read itself was
/// allowed and whoever asked may still navigate. Any other read changes
/// nothing and finds nothing.
pub proof fn law_only_the_awaited_read_counts<F: Fn(&VoiceGuard) -> bool>(
    authorize: F,
    sh: ShellModel,
    done: BackCompletion,
    after: BackCompletion,
    left: Option<PreviousAuthorization>,
    r: Option<Input>,
)
    requires
        crate::player::actor::settles_read(
            authorize,
            done,
            sh.previous_authorization,
            after,
            left,
        ),
        crate::player::actor::resolves_read(authorize, sh, done, r),
        forall|g: VoiceGuard|
            !(#[trigger] call_ensures(authorize, (&g,), true) && call_ensures(
                authorize,
                (&g,),
                false,
            )),
    ensures
        after.request_id == done.request_id && after.track == done.track,
        sh.previous_authorization is None ==> {
            &&& r is None && left is None && !after.authorized
            &&& sh.read(done.request_id) == sh
        },
        sh.previous_authorization matches Some(p) ==> p.request_id != done.request_id ==> {
            &&& r is None && left == Some(p) && !after.authorized
            &&& sh.read(done.request_id) == sh
        },
        sh.previous_authorization matches Some(p) ==> p.request_id == done.request_id ==> {
            &&& left is None
            &&& sh.read(done.request_id).previous_authorization is None
            &&& sh.read(done.request_id).reads == sh.reads
            &&& sh.read(done.request_id).gate_pending == sh.gate_pending
            &&& sh.read(done.request_id).feeder_live == sh.feeder_live
            &&& sh.read(done.request_id).media_status == sh.media_status
            &&& sh.read(done.request_id).buttons_paused == sh.buttons_paused
            &&& r is Some && r->0 is PreviousResolved
            &&& !done.authorized ==> r == Some(Input::PreviousResolved { track: None })
                && !after.authorized
            &&& p.guard is None && done.authorized ==> r == Some(
                Input::PreviousResolved { track: done.track },
            ) && after.authorized
            &&& p.guard matches Some(g) ==> done.authorized && call_ensures(
                authorize,
                (&g,),
                true,
            ) ==> r == Some(Input::PreviousResolved { track: done.track }) && after.authorized
            &&& p.guard matches Some(g) ==> call_ensures(authorize, (&g,), false) ==> r == Some(
                Input::PreviousResolved { track: None },
            ) && !after.authorized
        },
{
    if let Some(p) = sh.previous_authorization {
        if let Some(g) = p.guard {
            assert(!(call_ensures(authorize, (&g,), true) && call_ensures(authorize, (&g,), false)));
        }
    }
}

/// While a media item has the turn, only a report of music playing touches
/// the music, and puts it to the item's own pause. Otherwise music that plays
/// is released, and music that pauses or ends in any way is held; reports
/// about anything else do neither.
pub proof fn law_telemetry_holds_and_releases_music(
    active: Active,
    ev: TransportEvent,
    r: Option<bool>,
)
    requires
        call_ensures(music_pause_for_transport, (&active, &ev), r),
    ensures
        r == crate::player::actor::music_pause(active, ev),
        active matches Active::Media { paused, .. } ==> {
            &&& ev is Playing ==> r == Some(paused)
            &&& !(ev is Playing) ==> r is None
        },
        !(active is Media) ==> {
            &&& r == Some(false) <==> ev is Playing
            &&& r == Some(true) <==> ev is Paused || ev is Stopped || ev is EndOfTrack
                || ev is Unavailable
            &&& r is None <==> ev is TrackChanged || ev is SetQueue || ev is OptionsChanged
                || ev is SessionConnected || ev is SessionDisconnected
        },
{
}

/// An action is told by its name and carries what it holds.
pub proof fn law_actions_say_what_is_done(a: Action)
    ensures
        a is ClearBridge <==> a@ is ClearBridge,
        a is ClearMusic <==> a@ is ClearMusic,
        a is PlayReader <==> a@ is PlayReader,
        a is OpenGate <==> a@ is OpenGate,
        a is CancelRunner <==> a@ is CancelRunner,
        a is LeaveVoice <==> a@ is LeaveVoice,
        a matches Action::SetMusicPaused(b) ==> a@ == ActionModel::SetMusicPaused(b),
        a matches Action::SetSpotifyMuted(b) ==> a@ == ActionModel::SetSpotifyMuted(b),
        a matches Action::SetFeederPaused(b) ==> a@ == ActionModel::SetFeederPaused(b),
        a matches Action::Ui(e) ==> a@ == ActionModel::Ui(e),
        a matches Action::Notice(t) ==> a@ == ActionModel::Notice(t@),
        a matches Action::Status(PresenceUpdate::Idle) ==> a@ == ActionModel::Status(
            StatusModel::Idle,
        ),
        a matches Action::Status(PresenceUpdate::Paused) ==> a@ == ActionModel::Status(
            StatusModel::Paused,
        ),
        a matches Action::Status(PresenceUpdate::Playing { title, artist }) ==> a@
            == ActionModel::Status(StatusModel::Playing { title: title@, artist: artist@ }),
        a matches Action::SaveQueue(items) ==> a@ == ActionModel::SaveQueue(items@),
        a matches Action::RecordAired(t) ==> (a@ matches ActionModel::RecordAired(m) && m.source
            == t.source && m.track_ref == t.track_ref@ && m.context_uri
            == crate::text::text_of(t.context_uri) && m.title == crate::text::text_of(t.title)
            && m.artist == crate::text::text_of(t.artist) && m.queued_by
            == crate::text::text_of(t.queued_by) && m.queued_by_id == crate::text::text_of(
            t.queued_by_id,
        )),
        a matches Action::ReadPrevious { request_id, before } ==> a@ == (
        ActionModel::ReadPrevious { request_id, before }),
        a matches Action::Spirc(c) ==> a@ == ActionModel::Spirc(c),
        a matches Action::StartRunner { item, epoch, gate } ==> a@ == (ActionModel::StartRunner {
            item,
            epoch,
            gate,
        }),
        a matches Action::LookupTrack { uri, gen } ==> a@ == (ActionModel::LookupTrack {
            uri,
            gen,
        }),
        a matches Action::JoinVoice { hint } ==> a@ == (ActionModel::JoinVoice { hint }),
        a matches Action::AnnounceTrack { title, artist } ==> a@ == (ActionModel::AnnounceTrack {
            title: title@,
            artist: artist@,
        }),
        a matches Action::StartTimer(k, n) ==> a@ == ActionModel::StartTimer(k, n),
        a matches Action::Reply(tx, t) ==> a@ == ActionModel::Reply(tx, t@),
        a matches Action::ReplySnapshot(tx, s) ==> a@ == ActionModel::ReplySnapshot(tx, s@),
{
}

/// An effect is told by its name and carries what it holds.
pub proof fn law_effects_say_what_is_wanted(e: Effect)
    ensures
        e is CancelMedia <==> e@ is CancelMedia,
        e is ClearBridge <==> e@ is ClearBridge,
        e is JoinVoice <==> e@ is JoinVoice,
        e is LeaveVoice <==> e@ is LeaveVoice,
        e matches Effect::Spirc(c) ==> e@ == EffectModel::Spirc(c),
        e matches Effect::StartMedia { item, epoch, gate } ==> e@ == (EffectModel::StartMedia {
            item,
            epoch,
            gate,
        }),
        e matches Effect::RecordAired(t) ==> (e@ matches EffectModel::RecordAired(m) && m.source
            == t.source && m.track_ref == t.track_ref@ && m.context_uri
            == crate::text::text_of(t.context_uri) && m.title == crate::text::text_of(t.title)
            && m.artist == crate::text::text_of(t.artist) && m.queued_by
            == crate::text::text_of(t.queued_by) && m.queued_by_id == crate::text::text_of(
            t.queued_by_id,
        )),
        e matches Effect::ResolvePrevious { before } ==> e@ == (EffectModel::ResolvePrevious {
            before,
        }),
        e matches Effect::ResolveMeta(uri) ==> e@ == EffectModel::ResolveMeta(uri),
        e matches Effect::TrackHandle(c) ==> e@ == EffectModel::TrackHandle(c),
        e matches Effect::Ui(UiMsg::NowPlayingMedia { item }) ==> e@ == EffectModel::Ui(
            UiModel::NowPlayingMedia { item },
        ),
        e matches Effect::Ui(UiMsg::NowPlayingSpotify { uri, meta }) ==> e@ == EffectModel::Ui(
            UiModel::NowPlayingSpotify { uri, meta },
        ),
        e matches Effect::Ui(UiMsg::TakeoverPrompt) ==> e@ == EffectModel::Ui(
            UiModel::TakeoverPrompt,
        ),
        e matches Effect::Ui(UiMsg::Notice(t)) ==> e@ == EffectModel::Ui(UiModel::Notice(t@)),
        e matches Effect::Presence(p) ==> e@ == EffectModel::Presence(p),
        e matches Effect::Announce(a) ==> e@ == EffectModel::Announce(a),
        e matches Effect::SetTimer(k, n) ==> e@ == EffectModel::SetTimer(k, n),
        e matches Effect::Reply(tx, t) ==> e@ == EffectModel::Reply(tx, t@),
        e matches Effect::ReplySnapshot(tx, s) ==> e@ == EffectModel::ReplySnapshot(tx, s@),
{
}

/// Before the core sees it, a stop or a loss of voice drops everything
/// buffered. A report of the current link lets a waiting runner go when it says
/// paused, holds or releases the music, keeps the reader running while music
/// plays, and repaints the button of a card that is Spotify's own when its
/// state changes. A report of another link, and any other input, does nothing.
pub proof fn law_reports_drive_the_reader(w: Work, s: StateModel, input: Input)
    ensures
        ({
            let after = w.receive(s, input);
            &&& input is Stop || input is VoiceLost ==> after.out =~= w.out.push(
                ActionModel::ClearBridge,
            ) && after.sh == w.sh
            &&& !(input is Stop) && !(input is VoiceLost) && !(input is Transport) ==> after == w
            &&& input matches Input::Transport { gen, .. } ==> gen != s.link_gen ==> after == w
            &&& input matches Input::Transport { gen, ev } ==> gen == s.link_gen ==> {
                let media = s.active is Media;
                let gate = if ev is Paused && w.sh.gate_pending {
                    seq![ActionModel::OpenGate]
                } else {
                    seq![]
                };
                let hold = match s.active {
                    Active::Media { paused, .. } => if ev is Playing {
                        seq![ActionModel::SetMusicPaused(paused)]
                    } else {
                        seq![]
                    },
                    _ => if ev is Playing {
                        seq![ActionModel::SetMusicPaused(false)]
                    } else if ev is Paused || ev is Stopped || ev is EndOfTrack || ev
                        is Unavailable {
                        seq![ActionModel::SetMusicPaused(true)]
                    } else {
                        seq![]
                    },
                };
                let reader = if ev is Playing {
                    seq![ActionModel::PlayReader]
                } else {
                    seq![]
                };
                let paint = if !media && ev is Playing && w.sh.buttons_paused {
                    seq![ActionModel::Ui(UiEvent::Buttons { paused: false })]
                } else if !media && ev is Paused && !w.sh.buttons_paused {
                    seq![ActionModel::Ui(UiEvent::Buttons { paused: true })]
                } else {
                    seq![]
                };
                &&& after.out =~= w.out + gate + hold + reader + paint
                &&& after.sh.gate_pending == (w.sh.gate_pending && !(ev is Paused))
                &&& after.sh.buttons_paused == (if !media && ev is Playing {
                    false
                } else if !media && ev is Paused {
                    true
                } else {
                    w.sh.buttons_paused
                })
                &&& after.sh.previous_authorization == w.sh.previous_authorization
                &&& after.sh.reads == w.sh.reads
                &&& after.sh.feeder_live == w.sh.feeder_live
                &&& after.sh.media_status == w.sh.media_status
            }
        }),
{
    reveal(Work::receive);
    reveal(Work::drive_reader);
}

/// A media start takes both pauses off, shows the item, and starts its runner
/// with a gate exactly when a pause ack is awaited: one that stands open when
/// Spotify is already paused.
pub proof fn law_a_media_start_starts_its_runner(
    w: Work,
    s: StateModel,
    item: QueueItem,
    epoch: u64,
    gate: StartGate,
    hint: Option<u64>,
    announce: bool,
)
    ensures
        ({
            let after = w.effect(s, EffectModel::StartMedia { item, epoch, gate }, hint, announce);
            let title = item.source.title();
            let artist = item.source.subtitle();
            &&& after.out =~= w.out + seq![
                ActionModel::SetFeederPaused(false),
                ActionModel::SetMusicPaused(false),
                ActionModel::Status(StatusModel::Playing { title, artist }),
                ActionModel::StartRunner {
                    item,
                    epoch,
                    gate: match gate {
                        StartGate::Immediate => None,
                        StartGate::AfterSpotifyPauseAck => Some(s.sp is Paused),
                    },
                },
            ]
            &&& after.sh.feeder_live
            &&& after.sh.gate_pending == (gate is AfterSpotifyPauseAck || w.sh.gate_pending)
            &&& after.sh.media_status == Some((title, artist))
            &&& !after.sh.buttons_paused
            &&& after.sh.previous_authorization == w.sh.previous_authorization
            &&& after.sh.reads == w.sh.reads
        }),
{
}

/// Pausing or resuming a media item does the same to its feed and its music,
/// keeps the reader running, repaints the button, and shows the pause or the
/// item again.
pub proof fn law_a_media_pause_is_shown(
    w: Work,
    s: StateModel,
    cmd: TrackHandleCmd,
    hint: Option<u64>,
    announce: bool,
)
    ensures
        ({
            let after = w.effect(s, EffectModel::TrackHandle(cmd), hint, announce);
            &&& cmd is Pause ==> after.out =~= w.out + seq![
                ActionModel::SetFeederPaused(true),
                ActionModel::SetMusicPaused(true),
                ActionModel::PlayReader,
                ActionModel::Ui(UiEvent::Buttons { paused: true }),
                ActionModel::Status(StatusModel::Paused),
            ]
            &&& !(cmd is Pause) && w.sh.media_status is None ==> after.out =~= w.out + seq![
                ActionModel::SetFeederPaused(false),
                ActionModel::SetMusicPaused(false),
                ActionModel::PlayReader,
                ActionModel::Ui(UiEvent::Buttons { paused: false }),
            ]
            &&& w.sh.media_status matches Some(shown) ==> !(cmd is Pause) ==> after.out =~= w.out
                + seq![
                ActionModel::SetFeederPaused(false),
                ActionModel::SetMusicPaused(false),
                ActionModel::PlayReader,
                ActionModel::Ui(UiEvent::Buttons { paused: false }),
                ActionModel::Status(StatusModel::Playing { title: shown.0, artist: shown.1 }),
            ]
            &&& after.sh.buttons_paused == (cmd is Pause)
            &&& after.sh.media_status == w.sh.media_status
            &&& after.sh.gate_pending == w.sh.gate_pending
            &&& after.sh.feeder_live == w.sh.feeder_live
            &&& after.sh.previous_authorization == w.sh.previous_authorization
            &&& after.sh.reads == w.sh.reads
        }),
{
}

/// The other effects become one action each, with what they hold: a cleared
/// bridge clears only the music, a read is asked for under the latest number,
/// a lookup under the current link, a join follows the hint, a track is
/// announced only where that is switched on. A cancel reaches a live runner
/// only, and Spotify's own status line replaces a media item's.
pub proof fn law_each_effect_becomes_its_action(
    w: Work,
    s: StateModel,
    e: EffectModel,
    hint: Option<u64>,
    announce: bool,
)
    ensures
        ({
            let after = w.effect(s, e, hint, announce);
            let plus = |a: ActionModel| Work { sh: w.sh, out: w.out.push(a) };
            &&& e matches EffectModel::Spirc(c) ==> after == plus(ActionModel::Spirc(c))
            &&& e is CancelMedia ==> {
                &&& w.sh.feeder_live ==> after.out == w.out.push(ActionModel::CancelRunner)
                    && after.sh == (ShellModel { feeder_live: false, ..w.sh })
                &&& !w.sh.feeder_live ==> after == w
            }
            &&& e is ClearBridge ==> after == plus(ActionModel::ClearMusic)
            &&& e is JoinVoice ==> after == plus(ActionModel::JoinVoice { hint })
            &&& e matches EffectModel::RecordAired(t) ==> after == plus(
                ActionModel::RecordAired(t),
            )
            &&& e is LeaveVoice ==> after == plus(ActionModel::LeaveVoice)
            &&& e matches EffectModel::ResolvePrevious { before } ==> after == plus(
                ActionModel::ReadPrevious { request_id: w.sh.reads, before },
            )
            &&& e matches EffectModel::ResolveMeta(uri) ==> after == plus(
                ActionModel::LookupTrack { uri, gen: s.link_gen },
            )
            &&& e matches EffectModel::Ui(UiModel::NowPlayingMedia { item }) ==> after == plus(
                ActionModel::Ui(UiEvent::NowPlayingMedia { item }),
            )
            &&& e matches EffectModel::Ui(UiModel::NowPlayingSpotify { uri, meta }) ==> after
                == plus(ActionModel::Ui(UiEvent::NowPlayingSpotify { uri, meta }))
            &&& e matches EffectModel::Ui(UiModel::TakeoverPrompt) ==> after == plus(
                ActionModel::Notice("Spotify is in use on another device — press ▶ to take over."@),
            )
            &&& e matches EffectModel::Ui(UiModel::Notice(t)) ==> after == plus(
                ActionModel::Notice(t),
            )
            &&& e matches EffectModel::Presence(p) ==> {
                &&& after.sh == (ShellModel { media_status: None, ..w.sh })
                &&& p is Idle ==> after.out == w.out.push(ActionModel::Status(StatusModel::Idle))
                &&& p is Paused ==> after.out == w.out.push(
                    ActionModel::Status(StatusModel::Paused),
                )
                &&& p matches PresenceState::Playing { meta, .. } ==> after.out == w.out.push(
                    ActionModel::Status(
                        StatusModel::Playing { title: meta.title@, artist: meta.artist@ },
                    ),
                )
            }
            &&& e matches EffectModel::Announce(AnnounceKind::Track { title, artist }) ==> {
                &&& announce ==> after == plus(
                    ActionModel::AnnounceTrack { title: title@, artist: artist@ },
                )
                &&& !announce ==> after == w
            }
            &&& e matches EffectModel::SetTimer(k, n) ==> after == plus(
                ActionModel::StartTimer(k, n),
            )
            &&& e matches EffectModel::Reply(tx, t) ==> after == plus(ActionModel::Reply(tx, t))
            &&& e matches EffectModel::ReplySnapshot(tx, snap) ==> after == plus(
                ActionModel::ReplySnapshot(tx, snap),
            )
        }),
{
}

/// Effects run one after another, in the order the core gave them.
pub proof fn law_effects_run_in_order(
    w: Work,
    s: StateModel,
    first: Seq<EffectModel>,
    e: EffectModel,
    second: Seq<EffectModel>,
    hint: Option<u64>,
    announce: bool,
)
    ensures
        w.effects(s, Seq::empty(), hint, announce) == w,
        w.effects(s, seq![e], hint, announce) == w.effect(s, e, hint, announce),
        w.effects(s, first + second, hint, announce) == w.effects(s, first, hint, announce).effects(
            s,
            second,
            hint,
            announce,
        ),
    decreases second.len(),
{
    reveal_with_fuel(Work::effects, 2);
    assert(seq![e].drop_last() =~= Seq::<EffectModel>::empty());
    if second.len() == 0 {
        assert(first + second =~= first);
    } else {
        law_effects_run_in_order(w, s, first, e, second.drop_last(), hint, announce);
        assert((first + second).drop_last() =~= first + second.drop_last());
        assert((first + second).last() == second.last());
    }
}

/// A media item that lost the turn leaves the status line: idle when nobody
/// has the turn, left to Spotify's own report otherwise. While a media item
/// has the turn, or none was shown, nothing happens.
pub proof fn law_the_status_line_lets_go_of_media(w: Work, s: StateModel)
    ensures
        ({
            let after = w.settle_status(s);
            &&& s.active is Media || w.sh.media_status is None ==> after == w
            &&& w.sh.media_status is Some && !(s.active is Media) ==> {
                &&& after.sh == (ShellModel { media_status: None, ..w.sh })
                &&& s.active is Nobody ==> after.out == w.out.push(
                    ActionModel::Status(StatusModel::Idle),
                )
                &&& !(s.active is Nobody) ==> after.out == w.out
            }
        }),
{
    reveal(Work::settle_status);
}

/// Whoever asked is followed into voice; else whoever asked for the item that
/// starts last; else whoever queues something; else nobody.
pub proof fn law_the_asker_is_followed(
    guard: Option<VoiceGuard>,
    input: Input,
    before: Seq<EffectModel>,
    e: EffectModel,
    after: Seq<EffectModel>,
)
    requires
        forall|i: int| 0 <= i < after.len() ==> !(#[trigger] after[i] is StartMedia),
    ensures
        guard matches Some(g) ==> crate::player::actor::join_hint(
            guard,
            input,
            before.push(e) + after,
        ) == Some(g.user),
        guard is None ==> (e matches EffectModel::StartMedia { item, .. }
            ==> crate::player::actor::join_hint(guard, input, before.push(e) + after) == Some(
            item.queued_by_id,
        )),
        guard is None ==> (input matches Input::Enqueue { item, .. }
            ==> crate::player::actor::join_hint(guard, input, after) == Some(item.queued_by_id)),
        guard is None && !(input is Enqueue) ==> crate::player::actor::join_hint(
            guard,
            input,
            after,
        ) is None,
    decreases after.len(),
{
    let fx = before.push(e) + after;
    if after.len() == 0 {
        assert(fx =~= before.push(e));
        assert(fx.last() == e);
    } else {
        let rest = after.drop_last();
        assert(!(after[after.len() - 1] is StartMedia));
        assert forall|i: int| 0 <= i < rest.len() implies !(#[trigger] rest[i] is StartMedia) by {
            assert(rest[i] == after[i]);
        }
        law_the_asker_is_followed(guard, input, before, e, rest);
        assert(fx.drop_last() =~= before.push(e) + rest);
        assert(fx.last() == after.last());
        law_the_asker_is_followed(None, input, before, e, rest);
    }
}

/// A read of the history is asked for exactly when one of the effects asks.
pub proof fn law_reads_are_noticed(fx: Seq<EffectModel>)
    ensures
        crate::player::actor::asks_history(fx) <==> exists|i: int|
            0 <= i < fx.len() && #[trigger] fx[i] is ResolvePrevious,
    decreases fx.len(),
{
    if fx.len() > 0 {
        law_reads_are_noticed(fx.drop_last());
        if fx.last() is ResolvePrevious {
            assert(fx[fx.len() - 1] is ResolvePrevious);
        }
        if exists|i: int| 0 <= i < fx.drop_last().len() && #[trigger] fx.drop_last()[i]
            is ResolvePrevious {
            let i = choose|i: int|
                0 <= i < fx.drop_last().len() && #[trigger] fx.drop_last()[i] is ResolvePrevious;
            assert(fx[i] is ResolvePrevious);
        }
        if exists|i: int| 0 <= i < fx.len() && #[trigger] fx[i] is ResolvePrevious {
            let i = choose|i: int| 0 <= i < fx.len() && #[trigger] fx[i] is ResolvePrevious;
            if i < fx.len() - 1 {
                assert(fx.drop_last()[i] is ResolvePrevious);
            }
        }
    }
}

/// A new read takes the next number and remembers whom it is for, unless the
/// core no longer waits for one; then none is waited for. Nothing else is
/// noted.
pub proof fn law_reads_are_numbered(sh: ShellModel, r: Run, guard: Option<VoiceGuard>)
    requires
        sh.reads < u64::MAX,
    ensures
        ({
            let asks = exists|i: int| 0 <= i < r.fx.len() && #[trigger] r.fx[i] is ResolvePrevious;
            let after = sh.noted(r, guard);
            &&& asks ==> after.reads == sh.reads + 1
            &&& !asks ==> after.reads == sh.reads
            &&& r.s.pending_reply is None ==> after.previous_authorization is None
            &&& r.s.pending_reply is Some && asks ==> after.previous_authorization == Some(
                PreviousAuthorization { request_id: (sh.reads + 1) as u64, guard },
            )
            &&& r.s.pending_reply is Some && !asks ==> after.previous_authorization
                == sh.previous_authorization
            &&& after.gate_pending == sh.gate_pending
            &&& after.feeder_live == sh.feeder_live
            &&& after.media_status == sh.media_status
            &&& after.buttons_paused == sh.buttons_paused
        }),
{
    law_reads_are_noticed(r.fx);
}

/// Only a link that comes up makes the shell touch the core's state before the
/// core does: what was armed on the link before it is forgotten.
pub proof fn law_a_new_link_forgets_the_arm(s: StateModel, input: Input)
    ensures
        input is LinkUp ==> s.received(input) == (StateModel { armed: None, ..s }),
        !(input is LinkUp) ==> s.received(input) == s,
{
}

proof fn lemma_effects_only_append(
    w: Work,
    s: StateModel,
    fx: Seq<EffectModel>,
    hint: Option<u64>,
    announce: bool,
)
    ensures
        ({
            let out = w.effects(s, fx, hint, announce).out;
            &&& w.out.len() <= out.len()
            &&& forall|i: int| 0 <= i < w.out.len() ==> #[trigger] out[i] == w.out[i]
            &&& forall|i: int|
                w.out.len() <= i < out.len() ==> !(#[trigger] out[i] is SaveQueue) && !(out[i]
                    is SetSpotifyMuted)
        }),
    decreases fx.len(),
{
    if fx.len() > 0 {
        lemma_effects_only_append(w, s, fx.drop_last(), hint, announce);
        let v = w.effects(s, fx.drop_last(), hint, announce);
        let e = fx.last();
        let out = v.effect(s, e, hint, announce).out;
        assert(v.out.len() <= out.len());
        assert forall|i: int| 0 <= i < w.out.len() implies #[trigger] out[i] == w.out[i] by {
            assert(out[i] == v.out[i]);
        }
        assert forall|i: int| w.out.len() <= i < out.len() implies !(#[trigger] out[i]
            is SaveQueue) && !(out[i] is SetSpotifyMuted) by {
            if i < v.out.len() {
                assert(out[i] == v.out[i]);
            }
        }
    }
}

/// Whatever an input does, the shell then mutes Spotify exactly while a media
/// item has the turn, saves the queue exactly when other items wait in it or
/// in another order, and runs every effect after that.
pub proof fn law_the_queue_is_saved_when_it_changes(
    sh: ShellModel,
    s: StateModel,
    input: Input,
    guard: Option<VoiceGuard>,
    now: u64,
    announce: bool,
)
    ensures
        ({
            let start = Work { sh, out: Seq::empty() };
            let received = start.receive(s, input);
            let r = Run::start(s.received(input)).input(input, now);
            let out = start.handled(s, input, guard, now, announce).out;
            let n = received.out.len() as int;
            let kept = s.queue.items.len() == r.s.queue.items.len() && forall|i: int|
                0 <= i < s.queue.items.len() ==> (#[trigger] s.queue.items[i]).item_id
                    == r.s.queue.items[i].item_id;
            let noted = Work {
                sh: received.sh.noted(r, guard),
                out: received.out + seq![ActionModel::SetSpotifyMuted(r.s.active is Media)] + (
                if kept {
                    seq![]
                } else {
                    seq![ActionModel::SaveQueue(r.s.queue.items)]
                }),
            };
            &&& out.len() > n
            &&& out[n] == ActionModel::SetSpotifyMuted(r.s.active is Media)
            &&& kept ==> forall|i: int|
                n < i < out.len() ==> !(#[trigger] out[i] is SaveQueue)
            &&& !kept ==> out.len() > n + 1 && out[n + 1] == ActionModel::SaveQueue(
                r.s.queue.items,
            )
            &&& start.handled(s, input, guard, now, announce) == noted.effects(
                r.s,
                r.fx,
                crate::player::actor::join_hint(guard, input, r.fx),
                announce,
            ).settle_status(r.s)
        }),
{
    let start = Work { sh, out: Seq::empty() };
    let received = start.receive(s, input);
    let r = Run::start(s.received(input)).input(input, now);
    let a = crate::player::actor::ids(s.queue.items);
    let b = crate::player::actor::ids(r.s.queue.items);
    let kept = s.queue.items.len() == r.s.queue.items.len() && forall|i: int|
        0 <= i < s.queue.items.len() ==> (#[trigger] s.queue.items[i]).item_id
            == r.s.queue.items[i].item_id;
    if kept {
        assert forall|i: int| 0 <= i < a.len() implies a[i] == b[i] by {
            assert(s.queue.items[i].item_id == r.s.queue.items[i].item_id);
        }
        assert(a =~= b);
    } else if a == b {
        assert(a.len() == b.len());
        assert forall|i: int| 0 <= i < s.queue.items.len() implies (
        #[trigger] s.queue.items[i]).item_id == r.s.queue.items[i].item_id by {
            assert(a[i] == b[i]);
        }
    }
    let noted = Work {
        sh: received.sh.noted(r, guard),
        out: received.out + seq![ActionModel::SetSpotifyMuted(r.s.active is Media)] + (if kept {
            seq![]
        } else {
            seq![ActionModel::SaveQueue(r.s.queue.items)]
        }),
    };
    let w = received.with(received.sh.noted(r, guard)).act(
        ActionModel::SetSpotifyMuted(r.s.active is Media),
    );
    let w = if a != b {
        w.act(ActionModel::SaveQueue(r.s.queue.items))
    } else {
        w
    };
    assert(w.out =~= noted.out);
    assert(w == noted);
    let hint = crate::player::actor::join_hint(guard, input, r.fx);
    lemma_effects_only_append(w, r.s, r.fx, hint, announce);
    reveal(Work::settle_status);
    let ran = w.effects(r.s, r.fx, hint, announce);
    let out = ran.settle_status(r.s).out;
    let n = received.out.len() as int;
    assert(w.out[n] == ActionModel::SetSpotifyMuted(r.s.active is Media));
    assert(ran.out[n] == w.out[n]);
    assert(out[n] == ran.out[n]);
    if !kept {
        assert(w.out[n + 1] == ActionModel::SaveQueue(r.s.queue.items));
        assert(ran.out[n + 1] == w.out[n + 1]);
        assert(out[n + 1] == ran.out[n + 1]);
    } else {
        assert forall|i: int| n < i < out.len() implies !(#[trigger] out[i] is SaveQueue) by {
            if i < ran.out.len() {
                assert(out[i] == ran.out[i]);
            }
        }
    }
}

/// A new actor has nothing queued, nobody at turn, no link and no voice, and
/// remembers nothing; a player that is not there looks just like that.
pub proof fn law_a_new_player_is_silent(actor: Actor, shown: PlayerSnapshot)
    requires
        call_ensures(Actor::new, (), actor),
        call_ensures(empty_snapshot, (), shown),
    ensures
        actor.state@.queue.items.len() == 0 && actor.state@.queue.last_id == 0,
        actor.state@.active is Nobody,
        actor.state@.sp is Inactive,
        actor.state@.voice is Down,
        !actor.state@.link_up && !actor.state@.device_active,
        actor.state@.link_gen == 0 && actor.state@.media_epoch == 0,
        actor.state@.armed is None && actor.state@.armed_snapshot is None,
        actor.state@.pause_owner is None && actor.state@.pauses.len() == 0,
        actor.state@.history_cursor is None && actor.state@.awaiting_jump is None,
        actor.state@.pending_reply is None && actor.state@.pending_request is None,
        actor.state@.last_heard_track is None && actor.state@.context_uri is None,
        !actor.state@.play_options.shuffle && !actor.state@.play_options.repeat_context
            && !actor.state@.play_options.repeat_track,
        actor.shell@.previous_authorization is None && actor.shell@.reads == 0,
        !actor.shell@.gate_pending && !actor.shell@.feeder_live && !actor.shell@.buttons_paused,
        actor.shell@.media_status is None,
        shown@.now is Nothing,
        shown@.queue_len == 0 && shown@.preview.len() == 0 && shown@.more == 0,
        !shown@.device_active && !shown@.link_up,
{
}

/// A batch of store requests comes down to its history requests, each in its
/// place, and the last queue in it.
pub proof fn law_a_batch_keeps_what_counts(
    batch: Vec<StoreRequest>,
    plan: StorePlan,
    before: Seq<StoreRequest>,
    request: StoreRequest,
)
    requires
        call_ensures(plan_batch, (batch,), plan),
    ensures
        plan.history@ == crate::player::actor::history_of(batch@),
        crate::player::actor::newest_queue(batch@) is None <==> plan.queue is None,
        plan.queue matches Some(items) ==> crate::player::actor::newest_queue(batch@) == Some(items@),
        crate::player::actor::history_of(Seq::empty()).len() == 0,
        crate::player::actor::newest_queue(Seq::empty()) is None,
        request matches StoreRequest::Queue(items) ==> crate::player::actor::history_of(before.push(request))
            == crate::player::actor::history_of(before) && crate::player::actor::newest_queue(before.push(request)) == Some(items@),
        !(request is Queue) ==> crate::player::actor::history_of(before.push(request)) == crate::player::actor::history_of(before).push(request)
            && crate::player::actor::newest_queue(before.push(request)) == crate::player::actor::newest_queue(before),
{
    assert(before.push(request).drop_last() =~= before);
}

/// A history row can be walked back to when Spotify understands what it names,
/// and then as that track in the row's own context.
pub proof fn law_history_rows_are_walked_back_to(
    row: HistoryRow,
    text: &str,
    playable: bool,
    track: Option<PreviousTrack>,
)
    requires
        text@ == row.track_ref@,
        call_ensures(is_spotify_row, (text,), playable),
        call_ensures(previous_track, (row,), track),
    ensures
        playable <==> crate::uri::parsed_uri(row.track_ref@) is Some,
        track is Some <==> playable,
        track matches Some(t) ==> {
            &&& t.id == row.id
            &&& t.context_uri == row.context_uri
            &&& crate::uri::parsed_uri(row.track_ref@) == Some((t.uri@.text, t.uri@.foreign_kind))
        },
{
}

/// A runner waits at its gate, announces, has announced and is ready, in that
/// order; a cancelled one ends wherever it is.
pub proof fn law_a_runner_gets_ready_in_order(
    stage: Preparation,
    cancelled: bool,
    r: Result<Preparation, MediaOutcome>,
)
    requires
        call_ensures(prepare_next, (stage, cancelled), r),
    ensures
        cancelled ==> r == Err::<Preparation, MediaOutcome>(MediaOutcome::Cancelled),
        !cancelled ==> {
            &&& stage is Gate ==> r == Ok::<Preparation, MediaOutcome>(Preparation::Announcing)
            &&& stage is Announcing ==> r == Ok::<Preparation, MediaOutcome>(Preparation::Announced)
            &&& stage is Announced ==> r == Ok::<Preparation, MediaOutcome>(Preparation::Ready)
            &&& stage is Ready ==> r == Ok::<Preparation, MediaOutcome>(Preparation::Ready)
        },
{
}

/// A YouTube track is fed from its link, an upload from its own address under
/// the extension of its file name, and a Spotify item not at all.
pub proof fn law_items_are_fed_from_their_source(
    source: MediaSource,
    feed: Feed,
    stem: Seq<char>,
    ext: Seq<char>,
)
    requires
        call_ensures(feed_for, (&source,), feed),
        forall|i: int| 0 <= i < ext.len() ==> #[trigger] ext[i] != '.',
    ensures
        source matches MediaSource::YouTube { url, .. } ==> feed == (Feed::YouTube { url }),
        source is Spotify ==> feed is Nothing,
        source matches MediaSource::File { filename, attachment_url } ==> {
            &&& feed matches Feed::File { url, ext: e } && url == attachment_url && (filename@
                == stem.push('.') + ext ==> e@ == ext) && (filename@ == ext ==> e@ == ext)
        },
{
    crate::text::law_marks_divide_a_text(stem, '.', ext);
}

/// A feed that ran to its end makes history; a cancelled one says nothing;
/// any other failure is told to whoever asked for the item, which then leaves
/// the card.
pub proof fn law_the_end_of_a_feed_is_told(
    item: QueueItem,
    result: Result<(), FeederError>,
    r: (MediaOutcome, Vec<Action>),
)
    requires
        call_ensures(feed_report, (&item, result), r),
    ensures
        ({
            let told = crate::player::actor::actions(r.1@);
            &&& result is Ok ==> r.0 is Finished && told =~= seq![
                ActionModel::Ui(UiEvent::HistoryMedia { item }),
            ]
            &&& result == Err::<(), FeederError>(FeederError::Cancelled) ==> r.0 is Cancelled
                && told.len() == 0
            &&& result matches Err(e) ==> !(e is Cancelled) ==> r.0 is Finished && told =~= seq![
                ActionModel::Notice(
                    "⚠️ <@"@ + crate::text::decimal(item.queued_by_id as nat)
                        + "> Couldn't play **"@ + item.source.title()
                        + "** — the download or decode failed."@,
                ),
                ActionModel::Ui(UiEvent::IdleCard),
            ]
        }),
{
}

/// An input that is handled does to the core and the shell what is told of it,
/// and nothing else is done.
pub proof fn law_an_actor_handles_its_input(
    actor: &mut Actor,
    input: Input,
    guard: Option<VoiceGuard>,
    now: u64,
    announce: bool,
    out: Vec<Action>,
)
    requires
        call_ensures(Actor::handle, (actor, input, guard, now, announce), out),
    ensures
        final(actor).state@ == Run::start(old(actor).state@.received(input)).input(input, now).s,
        final(actor).shell@ == (Work { sh: old(actor).shell@, out: Seq::empty() }).handled(
            old(actor).state@,
            input,
            guard,
            now,
            announce,
        ).sh,
        crate::player::actor::actions(out@) == (Work {
            sh: old(actor).shell@,
            out: Seq::empty(),
        }).handled(old(actor).state@, input, guard, now, announce).out,
        forall|i: int|
            0 <= i < out@.len() ==> #[trigger] crate::player::actor::actions(out@)[i]
                == out@[i]@,
{
    assert(Work::of(final(actor).shell, out@).sh == final(actor).shell@);
}

/// A read that comes back, and mail that is checked, are dealt with as told
/// above.
pub proof fn law_calls_on_an_actor<F: Fn(&VoiceGuard) -> bool>(
    authorize: F,
    actor: &mut Actor,
    done: BackCompletion,
    input: Option<Input>,
    mail: Mail,
    admission: Admission,
    read: &mut BackCompletion,
    pending: &mut Option<PreviousAuthorization>,
    settled: (),
)
    requires
        call_ensures(Actor::previous_read, (actor, done, authorize), input),
        call_ensures(crate::player::actor::authorize_input, (mail, authorize), admission),
        call_ensures(
            crate::player::actor::authorize_previous_completion,
            (read, pending, authorize),
            settled,
        ),
    ensures
        final(actor).state == old(actor).state,
        final(actor).shell@ == old(actor).shell@.read(done.request_id),
        crate::player::actor::resolves_read(authorize, old(actor).shell@, done, input),
        crate::player::actor::admits(authorize, mail, admission),
        crate::player::actor::settles_read(
            authorize,
            *old(read),
            *old(pending),
            *final(read),
            *final(pending),
        ),
{
}

/// What the shell remembers is told field by field, its texts as characters; a
/// player that has gone is answered for.
pub proof fn law_the_shell_is_told_field_by_field(shell: Shell)
    ensures
        shell@.previous_authorization == shell.previous_authorization,
        shell@.reads == shell.reads,
        shell@.gate_pending == shell.gate_pending,
        shell@.feeder_live == shell.feeder_live,
        shell@.buttons_paused == shell.buttons_paused,
        shell.media_status is None <==> shell@.media_status is None,
        shell.media_status matches Some(shown) ==> shell@.media_status == Some(
            (shown.0@, shown.1@),
        ),
        crate::player::actor::NO_ACTOR_REPLY@ == "⚠️ The player didn't respond — try again."@,
{
}

} // verus!
