//! What every control, boundary and report comes to: the state it leaves and
//! the effects it asks for, told from the queue, the turn and the device alone.

use tokio::sync::oneshot;
use vstd::prelude::*;

use crate::player::model::{AiredModel, EffectModel, NowModel, Run, StateModel, UiModel};
use crate::player::state::{
    after_media_boundary, ensure_voice, first_spotify, handle_transport, head_of, maybe_arm,
    start_media, step, Ack, Active, AiredSource, AnnounceKind, ArmSnapshot, Armed, Effect,
    EnqueuePos, Head, InflightRing, Input, MediaOutcome, NowPlaying, PauseOwner, PendingJump,
    PlayOptions, PlayerSnapshot, PlayerState, PresenceState, PreviousTrack, SpDevice, SpircCmd,
    StartGate, TimerKind, TrackHandleCmd, TrackMeta, TransportEvent, VoiceStatus,
};
use crate::queue::{MediaSource, PriorityQueue, QueueItem, QueueModel};
use crate::uri::SpotifyUri;

verus! {

/// A video, a sound or an upload waits at the head of the queue.
pub open spec fn media_waits(items: Seq<QueueItem>) -> bool {
    items.len() > 0 && (items[0].source is YouTube || items[0].source is File)
}

/// A Spotify track waits at the head of the queue.
pub open spec fn spotify_waits(items: Seq<QueueItem>) -> bool {
    items.len() > 0 && items[0].source is Spotify
}

/// The queue without its head.
pub open spec fn rest(queue: QueueModel) -> QueueModel {
    QueueModel { items: queue.items.skip(1), last_id: queue.last_id }
}

/// The join that sound needs while the voice channel is down.
pub open spec fn join_needed(voice: VoiceStatus) -> Seq<EffectModel> {
    if voice is Down {
        seq![EffectModel::JoinVoice]
    } else {
        Seq::empty()
    }
}

/// The voice channel once sound was asked for.
pub open spec fn voice_wanted(voice: VoiceStatus) -> VoiceStatus {
    if voice is Ready {
        VoiceStatus::Ready
    } else {
        VoiceStatus::Joining
    }
}

/// The history row of a media item.
pub open spec fn media_row(item: QueueItem, row: AiredModel) -> bool {
    &&& row.source == AiredSource::Request
    &&& row.context_uri is None
    &&& row.queued_by == Some(item.queued_by@)
    &&& row.queued_by_id == Some(crate::text::decimal(item.queued_by_id as nat))
    &&& match item.source {
        MediaSource::YouTube { url, title, channel, .. } => {
            &&& row.track_ref == url@
            &&& row.title == Some(title@)
            &&& row.artist == Some(channel@)
        },
        MediaSource::File { filename, attachment_url } => {
            &&& row.track_ref == attachment_url@
            &&& row.title == Some(filename@)
            &&& row.artist == Some("File upload"@)
        },
        MediaSource::Spotify { .. } => false,
    }
}

/// The media item at the head of the queue has taken the turn: it alone was
/// started, under the next epoch, shown and recorded, after `first` and before
/// `last`; it left the queue, and the rest of the state is `base`.
pub open spec fn head_took_the_turn(
    base: StateModel,
    first: Seq<EffectModel>,
    gate: StartGate,
    last: Seq<EffectModel>,
    r: Run,
) -> bool {
    let item = base.queue.items[0];
    let epoch = (base.media_epoch + 1) as u64;
    let n = (first + join_needed(base.voice)).len() as int;
    &&& r.fx.len() == n + 3 + last.len()
    &&& r.fx.take(n) =~= first + join_needed(base.voice)
    &&& r.fx[n] == EffectModel::StartMedia { item, epoch, gate }
    &&& r.fx[n + 1] == EffectModel::Ui(UiModel::NowPlayingMedia { item })
    &&& r.fx[n + 2] matches EffectModel::RecordAired(row) && media_row(item, row)
    &&& r.fx.skip(n + 3) =~= last
    &&& r.s == (StateModel {
        queue: rest(base.queue),
        active: Active::Media { item, paused: false, epoch },
        media_epoch: epoch,
        last_heard_track: None,
        voice: voice_wanted(base.voice),
        ..base
    })
}

/// Spotify holds the turn, or is about to.
pub open spec fn spotify_holds(active: Active) -> bool {
    active is Spotify || active is SpotifyPending
}

/// The device has something it plays from.
pub open spec fn playing_from_something(sp: SpDevice) -> bool {
    sp is Playing || sp is Paused || sp is Boundary
}

/// Starting the head is what `head_took_the_turn` says, with or without an
/// answer behind it.
proof fn lemma_head_took_the_turn(base: StateModel, first: Seq<EffectModel>, gate: StartGate)
    requires
        media_waits(base.queue.items),
    ensures
        ({
            let r = Run { s: base, fx: first }.start_head(gate);
            &&& head_took_the_turn(base, first, gate, seq![], r)
            &&& forall|e: EffectModel|
                head_took_the_turn(base, first, gate, seq![e], #[trigger] r.emit(e))
        }),
{
    let r = Run { s: base, fx: first }.start_head(gate);
    let n = (first + join_needed(base.voice)).len() as int;
    assert(base.queue.items.drop_first() =~= base.queue.items.skip(1));
    assert(r.fx.take(n) =~= first + join_needed(base.voice));
    assert(r.fx.skip(n + 3) =~= seq![]);
    assert forall|e: EffectModel|
        head_took_the_turn(base, first, gate, seq![e], #[trigger] r.emit(e)) by {
        assert(r.emit(e).fx.take(n) =~= r.fx.take(n));
        assert(r.emit(e).fx.skip(n + 3) =~= seq![e]);
    }
}

/// A device that stops playing hands the turn on: a media item at the head of
/// the queue starts at once and holds the turn; otherwise nobody does, and the
/// status line goes idle. Only what Spotify held is handed on.
pub proof fn law_a_stopped_device_hands_the_turn_on(s: StateModel, now: u64)
    ensures
        ({
            let r = Run::start(s).input(
                Input::Transport { gen: s.link_gen, ev: TransportEvent::Stopped },
                now,
            );
            let base = StateModel {
                sp: if s.device_active {
                    SpDevice::Idle
                } else {
                    SpDevice::Inactive
                },
                pause_owner: None,
                ..s
            };
            &&& !spotify_holds(s.active) ==> r.s == base && r.fx.len() == 0
            &&& spotify_holds(s.active) && media_waits(s.queue.items) ==> head_took_the_turn(
                base,
                seq![EffectModel::ClearBridge],
                StartGate::Immediate,
                seq![],
                r,
            )
            &&& spotify_holds(s.active) && !media_waits(s.queue.items) ==> {
                &&& r.s == (StateModel { active: Active::Nobody, ..base })
                &&& r.fx =~= seq![
                    EffectModel::ClearBridge,
                    EffectModel::Presence(PresenceState::Idle),
                ]
            }
        }),
{
    reveal(Run::input);
    reveal(Run::stopped);
    if media_waits(s.queue.items) {
        lemma_head_took_the_turn(
            StateModel {
                sp: if s.device_active {
                    SpDevice::Idle
                } else {
                    SpDevice::Inactive
                },
                pause_owner: None,
                ..s
            },
            Seq::empty().push(EffectModel::ClearBridge),
            StartGate::Immediate,
        );
    }
}

/// The end of a track hands the turn to a media item at the head of the queue,
/// and holds it back until Spotify has fallen silent where the device is ours;
/// a Spotify request at the head is armed; nothing happens beside that, nor
/// while a media item or a pending start has the turn.
pub proof fn law_the_end_of_a_track_hands_the_turn_on(s: StateModel, now: u64)
    ensures
        ({
            let r = Run::start(s).input(
                Input::Transport { gen: s.link_gen, ev: TransportEvent::EndOfTrack },
                now,
            );
            let ended = StateModel { sp: SpDevice::Boundary, ..s };
            let taken = s.active is Media || s.active is SpotifyPending;
            &&& taken || s.queue.items.len() == 0 ==> r == Run::start(ended)
            &&& !taken && media_waits(s.queue.items) && s.device_active ==> head_took_the_turn(
                StateModel { pause_owner: Some(PauseOwner::BotForMedia), ..ended },
                seq![],
                StartGate::AfterSpotifyPauseAck,
                seq![],
                r,
            )
            &&& !taken && media_waits(s.queue.items) && !s.device_active ==> head_took_the_turn(
                ended,
                seq![],
                StartGate::Immediate,
                seq![],
                r,
            )
            &&& !taken && spotify_waits(s.queue.items) ==> handed_over(Run::start(ended), now, r)
        }),
{
    reveal(Run::input);
    reveal(Run::end_of_track);
    let ended = StateModel { sp: SpDevice::Boundary, ..s };
    lemma_handed_over(Run::start(ended), now);
    if media_waits(s.queue.items) {
        lemma_head_took_the_turn(ended, Seq::empty(), StartGate::Immediate);
        lemma_head_took_the_turn(
            StateModel { pause_owner: Some(PauseOwner::BotForMedia), ..ended },
            Seq::empty(),
            StartGate::AfterSpotifyPauseAck,
        );
    }
}

/// The first Spotify request in queue order was handed to Spotify's own queue,
/// and waits two seconds for its acknowledgement, where that may be: nothing is
/// armed, the device is ours and plays from something, and no start is pending.
/// Otherwise nothing happened.
pub open spec fn handed_over(before: Run, now: u64, after: Run) -> bool {
    let items = before.s.queue.items;
    let free = before.s.armed is None && before.s.device_active && !(
    before.s.active is SpotifyPending) && playing_from_something(before.s.sp);
    &&& !free ==> after == before
    &&& (forall|k: int| 0 <= k < items.len() ==> !((#[trigger] items[k]).source is Spotify))
        ==> after == before
    &&& forall|k: int|
        free && 0 <= k < items.len() && (#[trigger] items[k]).source is Spotify && (forall|j: int|
            0 <= j < k ==> !((#[trigger] items[j]).source is Spotify)) ==> {
            let uri = items[k].source->uri;
            &&& after.s == (StateModel {
                armed: Some(Armed { item_id: items[k].item_id, uri, ack: Ack::Sent(now) }),
                ..before.s
            })
            &&& after.fx =~= before.fx + seq![
                EffectModel::Spirc(SpircCmd::AddToQueue(uri)),
                EffectModel::SetTimer(TimerKind::ArmAck, 2_000_000_000),
            ]
        }
}

proof fn lemma_handed_over(before: Run, now: u64)
    ensures
        handed_over(before, now, before.maybe_arm(now)),
{
    let p = crate::player::model::spotify_requests();
    let items = before.s.queue.items;
    crate::queue::lemma_first_index(items, p);
    let first = crate::queue::first_index(items, p);
    if first < items.len() {
        assert(p(items[first]));
        assert(items[first].source is Spotify);
    }
    assert forall|k: int|
        0 <= k < items.len() && (#[trigger] items[k]).source is Spotify && (forall|j: int|
            0 <= j < k ==> !((#[trigger] items[j]).source is Spotify)) implies first == k by {
        assert(p(items[k]));
        assert forall|j: int| 0 <= j < k implies !p(#[trigger] items[j]) by {
            assert(!(items[j].source is Spotify));
        }
        crate::queue::lemma_first_index_unique(items, p, k);
    }
    let after = before.maybe_arm(now);
    assert forall|k: int|
        before.s.armed is None && before.s.device_active && !(before.s.active is SpotifyPending)
            && playing_from_something(before.s.sp) && 0 <= k < items.len() && (
        #[trigger] items[k]).source is Spotify && (forall|j: int|
            0 <= j < k ==> !((#[trigger] items[j]).source is Spotify)) implies after.fx
        =~= before.fx + seq![
        EffectModel::Spirc(SpircCmd::AddToQueue(items[k].source->uri)),
        EffectModel::SetTimer(TimerKind::ArmAck, 2_000_000_000),
    ] by {
        assert(first == k);
    }
}

/// The pauses we sent in the last two seconds, which Spotify may still echo.
pub open spec fn still_expected(pauses: Seq<u64>, now: u64) -> Seq<u64> {
    pauses.filter(|sent: u64| now < sent || now - sent < 2_000_000_000)
}

/// The pauses to expect once another was sent; eight at most are remembered.
pub open spec fn one_more_expected(pauses: Seq<u64>, now: u64) -> Seq<u64> {
    let live = still_expected(pauses, now);
    if live.len() < 8 {
        live.push(now)
    } else {
        live
    }
}

proof fn lemma_expected(pauses: Seq<u64>, now: u64)
    ensures
        crate::player::model::live_pauses(pauses, now) == still_expected(pauses, now),
        crate::player::model::with_pause(pauses, now) == one_more_expected(pauses, now),
    decreases pauses.len(),
{
    reveal(Seq::filter);
    if pauses.len() > 0 {
        lemma_expected(pauses.drop_last(), now);
    }
}

/// A load of `uri` on an idle device has taken the turn, for five seconds at
/// first, after `first` and before `last`.
pub open spec fn load_took_the_turn(
    base: StateModel,
    first: Seq<EffectModel>,
    uri: SpotifyUri,
    now: u64,
    last: Seq<EffectModel>,
    r: Run,
) -> bool {
    &&& r.fx =~= first + join_needed(base.voice) + seq![
        EffectModel::Spirc(SpircCmd::Load(uri)),
        EffectModel::SetTimer(TimerKind::SpotifyPending, 5_000_000_000),
    ] + last
    &&& r.s == (StateModel {
        voice: voice_wanted(base.voice),
        pause_owner: None,
        context_uri: None,
        active: Active::SpotifyPending { uri, sent: now, retried: false },
        ..base
    })
}

/// The state once this is the active Connect device; one that never loaded
/// anything is idle then.
pub open spec fn claimed(s: StateModel) -> StateModel {
    StateModel {
        device_active: true,
        sp: if s.sp is Inactive {
            SpDevice::Idle
        } else {
            s.sp
        },
        ..s
    }
}

/// ⏯ pauses what is audible and says so: a media item through its own handle,
/// Spotify by one pause that is remembered as ours and belongs to a human. On a
/// media item that is paused it resumes that.
pub proof fn law_pausing_pauses_what_is_audible(
    s: StateModel,
    reply: oneshot::Sender<String>,
    now: u64,
)
    ensures
        ({
            let r = Run::start(s).input(Input::TogglePause { reply }, now);
            &&& s.active matches Active::Media { item, paused, epoch } ==> {
                &&& r.s == (StateModel {
                    active: Active::Media { item, paused: !paused, epoch },
                    ..s
                })
                &&& paused ==> r.fx =~= seq![
                    EffectModel::TrackHandle(TrackHandleCmd::Resume),
                    EffectModel::Reply(reply, "▶ Resumed"@),
                ]
                &&& !paused ==> r.fx =~= seq![
                    EffectModel::TrackHandle(TrackHandleCmd::Pause),
                    EffectModel::Reply(reply, "⏸ Paused"@),
                ]
            }
            &&& !(s.active is Media) && s.sp is Playing ==> {
                &&& r.fx =~= seq![
                    EffectModel::Spirc(SpircCmd::Pause),
                    EffectModel::Reply(reply, "⏸ Paused"@),
                ]
                &&& r.s == (StateModel {
                    pauses: one_more_expected(s.pauses, now),
                    pause_owner: Some(PauseOwner::Human),
                    ..s
                })
            }
        }),
{
    reveal(Run::input);
    reveal(Run::toggle_pause);
    lemma_expected(s.pauses, now);
}

/// ⏯ on a silent device of ours plays: a media item at the head of the queue
/// takes the turn, a Spotify request is loaded on an idle device, and otherwise
/// the music that was paused goes on, with a Spotify request armed behind it.
/// With nothing to play it only says so.
#[verifier::spinoff_prover]
#[verifier::rlimit(50)]
pub proof fn law_resuming_plays_what_waits(s: StateModel, reply: oneshot::Sender<String>, now: u64)
    requires
        !(s.active is Media),
        !(s.sp is Playing),
        s.device_active,
    ensures
        ({
            let r = Run::start(s).input(Input::TogglePause { reply }, now);
            let playing = seq![EffectModel::Reply(reply, "▶ Playing now"@)];
            let armed = if s.queue.items.len() > 0 {
                Run::start(s).maybe_arm(now)
            } else {
                Run::start(s)
            };
            &&& media_waits(s.queue.items) && s.sp is Boundary ==> head_took_the_turn(
                StateModel {
                    pauses: one_more_expected(s.pauses, now),
                    pause_owner: Some(PauseOwner::BotForMedia),
                    ..s
                },
                seq![EffectModel::Spirc(SpircCmd::Pause)],
                StartGate::AfterSpotifyPauseAck,
                playing,
                r,
            )
            &&& media_waits(s.queue.items) && !(s.sp is Boundary) ==> head_took_the_turn(
                s,
                seq![],
                StartGate::Immediate,
                playing,
                r,
            )
            &&& spotify_waits(s.queue.items) && s.sp is Idle ==> load_took_the_turn(
                s,
                seq![],
                s.queue.items[0].source->uri,
                now,
                playing,
                r,
            )
            &&& spotify_waits(s.queue.items) && !(s.sp is Idle) || s.queue.items.len() == 0 && (
            s.sp is Paused || s.sp is Boundary) ==> {
                &&& r.fx =~= armed.fx + join_needed(s.voice) + seq![
                    EffectModel::Spirc(SpircCmd::Play),
                    EffectModel::Reply(reply, "▶ Resumed"@),
                ]
                &&& r.s == (StateModel {
                    voice: voice_wanted(s.voice),
                    pause_owner: None,
                    active: Active::Spotify { track: None },
                    ..armed.s
                })
            }
            &&& s.queue.items.len() == 0 && !(s.sp is Paused || s.sp is Boundary) ==> r.s == s && r.fx =~= seq![
                EffectModel::Reply(reply, "Nothing is playing right now."@),
            ]
        }),
{
    reveal(Run::input);
    reveal(Run::toggle_pause);
    lemma_expected(s.pauses, now);
    if media_waits(s.queue.items) {
        lemma_head_took_the_turn(s, Seq::empty(), StartGate::Immediate);
        lemma_head_took_the_turn(
            StateModel {
                pauses: one_more_expected(s.pauses, now),
                pause_owner: Some(PauseOwner::BotForMedia),
                ..s
            },
            Seq::empty().push(EffectModel::Spirc(SpircCmd::Pause)),
            StartGate::AfterSpotifyPauseAck,
        );
    }
}

/// ⏯ while another device is the active one takes the device over, joins voice,
/// and starts what waits, if that can be: a media item, or a Spotify request
/// where the device has nothing loaded.
#[verifier::spinoff_prover]
#[verifier::rlimit(50)]
pub proof fn law_taking_over_claims_the_device(
    s: StateModel,
    reply: oneshot::Sender<String>,
    now: u64,
)
    requires
        !(s.active is Media),
        !(s.sp is Playing),
        !s.device_active,
    ensures
        ({
            let r = Run::start(s).input(Input::TogglePause { reply }, now);
            let ours = StateModel { voice: voice_wanted(s.voice), ..claimed(s) };
            let first = seq![EffectModel::Spirc(SpircCmd::ActivateDevice)] + join_needed(s.voice);
            let starting = seq![
                EffectModel::Reply(
                    reply,
                    "▶ Taking over the Spotify device — starting **"@
                        + s.queue.items[0].source.title() + "**."@,
                ),
            ];
            &&& media_waits(s.queue.items) ==> head_took_the_turn(
                ours,
                first,
                StartGate::Immediate,
                starting,
                r,
            )
            &&& spotify_waits(s.queue.items) && ours.sp is Idle ==> load_took_the_turn(
                ours,
                first,
                s.queue.items[0].source->uri,
                now,
                starting,
                r,
            )
            &&& spotify_waits(s.queue.items) && !(ours.sp is Idle) || s.queue.items.len() == 0
                ==> {
                &&& r.s == ours
                &&& r.fx =~= first + seq![
                    EffectModel::Reply(reply, "▶ Taking over the Spotify device."@),
                ]
            }
        }),
{
    reveal(Run::input);
    reveal(Run::toggle_pause);
    reveal(Run::take_over);
    let ours = StateModel { voice: voice_wanted(s.voice), ..claimed(s) };
    let first = seq![EffectModel::Spirc(SpircCmd::ActivateDevice)] + join_needed(s.voice);
    let began = Run::start(s).activated().ensure_voice();
    assert(began.fx =~= first);
    if media_waits(s.queue.items) {
        lemma_head_took_the_turn(ours, first, StartGate::Immediate);
    }
}

/// A bare `/play` is ⏯ on silence, and refused while something is audible: a
/// media item that is not paused, or Spotify where none holds the turn.
pub proof fn law_play_is_for_silence(s: StateModel, reply: oneshot::Sender<String>, now: u64)
    ensures
        ({
            let r = Run::start(s).input(Input::Play { reply }, now);
            let audible = match s.active {
                Active::Media { paused, .. } => !paused,
                _ => s.sp is Playing,
            };
            &&& audible ==> r == (Run {
                s,
                fx: seq![
                    EffectModel::Reply(
                        reply,
                        "❌ Something is already playing — give `/play` a link or file, or use ⏯ to pause."@,
                    ),
                ],
            })
            &&& !audible ==> r == Run::start(s).input(Input::TogglePause { reply }, now)
        }),
{
    reveal(Run::input);
    reveal(Run::play);
    assert(Run::start(s).input(Input::Play { reply }, now).fx =~= seq![
        EffectModel::Reply(
            reply,
            "❌ Something is already playing — give `/play` a link or file, or use ⏯ to pause."@,
        ),
    ] || !s.audible());
}

/// A skip ends a media item that holds the turn, and says so; whose turn comes
/// next is decided when its runner has ended. A baseline paused under it is the
/// bot's to resume.
pub proof fn law_a_skip_ends_the_media_item(
    s: StateModel,
    reply: oneshot::Sender<String>,
    now: u64,
)
    requires
        s.active is Media,
    ensures
        ({
            let r = Run::start(s).input(Input::Skip { reply }, now);
            &&& r.fx =~= seq![
                EffectModel::CancelMedia,
                EffectModel::ClearBridge,
                EffectModel::Reply(reply, "⏭ Skipped."@),
            ]
            &&& r.s == (StateModel {
                pause_owner: if s.device_active && (s.sp is Paused || s.sp is Boundary) {
                    Some(PauseOwner::BotForMedia)
                } else {
                    s.pause_owner
                },
                ..s
            })
        }),
{
    reveal(Run::input);
    reveal(Run::skip);
}

/// What steps Spotify on by one track, and makes it audible where it was
/// paused.
pub open spec fn stepping_on(sp: SpDevice) -> Seq<EffectModel> {
    if sp is Paused {
        seq![EffectModel::Spirc(SpircCmd::Next), EffectModel::Spirc(SpircCmd::Play)]
    } else if sp is Playing {
        seq![EffectModel::Spirc(SpircCmd::Next), EffectModel::ClearBridge]
    } else {
        seq![EffectModel::Spirc(SpircCmd::Next)]
    }
}

/// A skip on Spotify goes to what waits: a media item takes the turn, with
/// Spotify paused past its track; a Spotify request is loaded on an idle device
/// or stepped on to, armed, where the device plays from something; an empty
/// queue steps the baseline on. With nothing to skip it only says so.
#[verifier::spinoff_prover]
#[verifier::rlimit(50)]
pub proof fn law_a_skip_goes_to_what_waits(s: StateModel, reply: oneshot::Sender<String>, now: u64)
    requires
        !(s.active is Media),
    ensures
        ({
            let r = Run::start(s).input(Input::Skip { reply }, now);
            let skipped = seq![EffectModel::Reply(reply, "⏭ Skipped."@)];
            let pausing = s.device_active && playing_from_something(s.sp);
            let ours = if s.device_active {
                s
            } else {
                claimed(s)
            };
            let claim = if s.device_active {
                Seq::empty()
            } else {
                seq![EffectModel::Spirc(SpircCmd::ActivateDevice)]
            };
            &&& media_waits(s.queue.items) && pausing ==> head_took_the_turn(
                StateModel {
                    pauses: one_more_expected(s.pauses, now),
                    pause_owner: Some(PauseOwner::BotForMedia),
                    ..s
                },
                seq![
                    EffectModel::Spirc(SpircCmd::Pause),
                    EffectModel::Spirc(SpircCmd::Next),
                    EffectModel::ClearBridge,
                ],
                StartGate::AfterSpotifyPauseAck,
                skipped,
                r,
            )
            &&& media_waits(s.queue.items) && !pausing ==> head_took_the_turn(
                s,
                seq![EffectModel::ClearBridge],
                StartGate::Immediate,
                skipped,
                r,
            )
            &&& spotify_waits(s.queue.items) && (s.device_active || s.link_up) && ours.sp is Idle
                ==> load_took_the_turn(
                ours,
                claim,
                s.queue.items[0].source->uri,
                now,
                skipped,
                r,
            )
            &&& spotify_waits(s.queue.items) && (s.device_active || s.link_up) && !(
            ours.sp is Idle) ==> {
                let armed = Run { s: ours, fx: claim }.maybe_arm(now);
                &&& r.fx =~= armed.fx + stepping_on(ours.sp) + seq![
                    EffectModel::SetTimer(TimerKind::SpotifyPending, 5_000_000_000),
                ] + skipped
                &&& r.s == (StateModel {
                    pause_owner: None,
                    active: Active::SpotifyPending {
                        uri: s.queue.items[0].source->uri,
                        sent: now,
                        retried: false,
                    },
                    ..armed.s
                })
            }
            &&& s.queue.items.len() == 0 && pausing ==> {
                &&& r.fx =~= stepping_on(s.sp) + skipped
                &&& r.s == (StateModel { pause_owner: None, ..s })
            }
            &&& s.queue.items.len() == 0 && !pausing ==> r.s == s && r.fx =~= seq![
                EffectModel::Reply(reply, "Nothing is playing right now."@),
            ]
        }),
{
    reveal(Run::input);
    reveal(Run::skip);
    lemma_expected(s.pauses, now);
    let ours = if s.device_active {
        s
    } else {
        claimed(s)
    };
    let claim = if s.device_active {
        Seq::empty()
    } else {
        seq![EffectModel::Spirc(SpircCmd::ActivateDevice)]
    };
    if s.device_active || s.link_up {
        assert(Run::start(s).claim_device().fx =~= claim);
        assert(Run::start(s).claim_device() == Run { s: ours, fx: claim });
    }
    if media_waits(s.queue.items) {
        let base = StateModel {
            pauses: one_more_expected(s.pauses, now),
            pause_owner: Some(PauseOwner::BotForMedia),
            ..s
        };
        let first = seq![
            EffectModel::Spirc(SpircCmd::Pause),
            EffectModel::Spirc(SpircCmd::Next),
            EffectModel::ClearBridge,
        ];
        lemma_head_took_the_turn(base, first, StartGate::AfterSpotifyPauseAck);
        assert(Seq::<EffectModel>::empty().push(EffectModel::Spirc(SpircCmd::Pause)).push(
            EffectModel::Spirc(SpircCmd::Next),
        ).push(EffectModel::ClearBridge) =~= first);
        lemma_head_took_the_turn(
            s,
            Seq::empty().push(EffectModel::ClearBridge),
            StartGate::Immediate,
        );
    }
}

/// A stop ends everything but the queue: the media item is cancelled, the
/// device given up, the bridge cleared, the channel left if that was asked for,
/// and nothing of the session's walk or its pending start survives.
pub proof fn law_a_stop_ends_everything_but_the_queue(
    s: StateModel,
    reply: oneshot::Sender<String>,
    leave_voice: bool,
    now: u64,
)
    ensures
        ({
            let r = Run::start(s).input(Input::Stop { reply, leave_voice }, now);
            let n = s.queue.items.len();
            let none: Seq<EffectModel> = seq![];
            &&& r.s == (StateModel {
                active: Active::Nobody,
                sp: if s.device_active {
                    SpDevice::Inactive
                } else {
                    s.sp
                },
                armed: if s.device_active {
                    None
                } else {
                    s.armed
                },
                pauses: if s.device_active && s.sp is Playing {
                    one_more_expected(s.pauses, now)
                } else {
                    s.pauses
                },
                pause_owner: None,
                device_active: false,
                voice: VoiceStatus::Down,
                last_heard_track: None,
                history_cursor: None,
                awaiting_jump: None,
                pending_request: None,
                armed_snapshot: None,
                ..s
            })
            &&& r.fx =~= (if s.active is Media {
                seq![EffectModel::CancelMedia]
            } else {
                none
            }) + (if s.device_active {
                seq![EffectModel::Spirc(SpircCmd::Disconnect)]
            } else {
                none
            }) + seq![EffectModel::ClearBridge] + (if leave_voice {
                seq![EffectModel::LeaveVoice]
            } else {
                none
            }) + seq![
                EffectModel::Presence(PresenceState::Idle),
                EffectModel::Reply(
                    reply,
                    if n == 0 {
                        "⏹ Stopped and left the channel."@
                    } else {
                        "⏹ Stopped and left the channel. "@ + crate::text::decimal(n)
                            + " queued track(s) kept — use `/clear` to drop them."@
                    },
                ),
            ]
        }),
{
    reveal(Run::input);
    reveal(Run::stop);
    lemma_expected(s.pauses, now);
}

/// ⏮ asks the history for the track before the one shown, and keeps the caller
/// waiting for it; during a media item, with nothing playing, or while another
/// walk is under way it only says so.
pub proof fn law_a_walk_back_reads_the_history(
    s: StateModel,
    reply: oneshot::Sender<String>,
    now: u64,
)
    ensures
        ({
            let r = Run::start(s).input(Input::Previous { reply }, now);
            let here = s.device_active && playing_from_something(s.sp);
            &&& s.active is Media ==> r.s == s && r.fx =~= seq![
                EffectModel::Reply(reply, "❌ Previous isn't available during queue playback."@),
            ]
            &&& !(s.active is Media) && !here ==> r.s == s && r.fx =~= seq![
                EffectModel::Reply(reply, "Nothing is playing right now."@),
            ]
            &&& !(s.active is Media) && here && s.pending_reply is Some ==> r.s == s && r.fx
                =~= seq![EffectModel::Reply(reply, "⏮ Already going back — one moment."@)]
            &&& !(s.active is Media) && here && s.pending_reply is None ==> {
                &&& r.s == (StateModel { pending_reply: Some(reply), ..s })
                &&& r.fx =~= seq![EffectModel::ResolvePrevious { before: s.history_cursor }]
            }
        }),
{
    reveal(Run::input);
    reveal(Run::previous);
}

/// What the history gave is gone back to: the context it was heard in is
/// reopened at that track, or Spotify steps back where there was none; the
/// caller is told, and told where there is nothing further back.
pub proof fn law_a_walk_back_goes_to_the_track_found(
    s: StateModel,
    track: Option<PreviousTrack>,
    now: u64,
)
    ensures
        ({
            let r = Run::start(s).input(Input::PreviousResolved { track }, now);
            let done = StateModel { pending_reply: None, ..s };
            &&& s.pending_reply is None ==> r.s == s && r.fx.len() == 0
            &&& s.pending_reply matches Some(tx) ==> {
                &&& !s.device_active ==> r.s == done && r.fx =~= seq![
                    EffectModel::Reply(tx, "Nothing is playing right now."@),
                ]
                &&& s.device_active && track is None ==> r.s == done && r.fx =~= seq![
                    EffectModel::Reply(
                        tx,
                        "❌ Nothing further back — this is the earliest track I have a record of."@,
                    ),
                ]
                &&& s.device_active && track is Some ==> {
                    let found = track->0;
                    match found.context_uri {
                        Some(context_uri) => {
                            &&& r.s == (StateModel {
                                history_cursor: Some(found.id),
                                awaiting_jump: Some(PendingJump::Context(found.uri)),
                                ..done
                            })
                            &&& r.fx =~= seq![
                                EffectModel::Spirc(
                                    SpircCmd::LoadContext {
                                        context_uri,
                                        track_uri: found.uri,
                                        options: s.play_options,
                                    },
                                ),
                                EffectModel::Reply(tx, "⏮ Previous track."@),
                            ]
                        },
                        None => {
                            &&& r.s == (StateModel {
                                awaiting_jump: Some(PendingJump::Previous { cursor: found.id }),
                                ..done
                            })
                            &&& r.fx =~= seq![
                                EffectModel::Spirc(SpircCmd::Previous),
                                EffectModel::Reply(tx, "⏮ Previous track."@),
                            ]
                        },
                    }
                }
            }
        }),
{
    reveal(Run::input);
    reveal(Run::previous_resolved);
}

/// `/login` claims the Connect device once, and a Spotify request is armed
/// where the device has something to play from.
pub proof fn law_a_login_claims_the_device(s: StateModel, now: u64)
    ensures
        ({
            let r = Run::start(s).input(Input::ActivateDevice, now);
            &&& s.device_active ==> r == Run::start(s)
            &&& !s.device_active ==> handed_over(
                Run {
                    s: claimed(s),
                    fx: seq![EffectModel::Spirc(SpircCmd::ActivateDevice)],
                },
                now,
                r,
            )
        }),
{
    reveal(Run::input);
    reveal(Run::activate_device);
    lemma_handed_over(
        Run { s: claimed(s), fx: seq![EffectModel::Spirc(SpircCmd::ActivateDevice)] },
        now,
    );
}

/// A clear drops every request and the arm with them, and says how many there
/// were, and whether one is past recall.
pub proof fn law_a_clear_drops_every_request(
    s: StateModel,
    reply: oneshot::Sender<String>,
    now: u64,
)
    ensures
        ({
            let r = Run::start(s).input(Input::ClearQueue { reply }, now);
            let n = s.queue.items.len();
            &&& r.s == (StateModel {
                queue: QueueModel { items: Seq::empty(), last_id: s.queue.last_id },
                armed: None,
                armed_snapshot: None,
                ..s
            })
            &&& r.fx =~= seq![
                EffectModel::Reply(
                    reply,
                    if n == 0 {
                        "The queue is already empty."@
                    } else if s.armed is None {
                        "✅ Cleared "@ + crate::text::decimal(n) + " queued track(s)."@
                    } else {
                        "✅ Cleared "@ + crate::text::decimal(n)
                            + " queued track(s). (a track already handed to Spotify will still play once)"@
                    },
                ),
            ]
        }),
{
    reveal(Run::input);
    reveal(Run::clear_queue);
}

/// The queue with `item` at the position asked for, or at the tail past the
/// end, under the next id; the others stay in order.
pub open spec fn with_item(queue: QueueModel, pos: EnqueuePos, item: QueueItem) -> QueueModel {
    let n = queue.items.len() as int;
    let at = match pos {
        EnqueuePos::Tail => n,
        EnqueuePos::Head => 0,
        EnqueuePos::At(i) => if i < n {
            i as int
        } else {
            n
        },
    };
    QueueModel {
        items: queue.items.take(at) + seq![
            QueueItem { item_id: (queue.last_id + 1) as u64, ..item },
        ] + queue.items.skip(at),
        last_id: queue.last_id + 1,
    }
}

proof fn lemma_with_item(queue: QueueModel, pos: EnqueuePos, item: QueueItem)
    requires
        queue.items.len() < 500,
    ensures
        queue.inserted(pos.index(queue), item) == with_item(queue, pos, item),
{
    let n = queue.items.len() as int;
    let at = if pos.index(queue) < n {
        pos.index(queue)
    } else {
        n
    };
    let new = QueueItem { item_id: (queue.last_id + 1) as u64, ..item };
    assert(queue.items.insert(at, new) =~= queue.items.take(at) + seq![new] + queue.items.skip(
        at,
    ));
}

/// A full queue of five hundred takes nothing more. Otherwise a request that
/// is not to start anything is queued where it was asked for, a Spotify request
/// is armed where that may be, and the answer says where it stands.
#[verifier::spinoff_prover]
#[verifier::rlimit(50)]
pub proof fn law_a_request_is_queued(
    s: StateModel,
    item: QueueItem,
    pos: EnqueuePos,
    start_if_idle: bool,
    reply: oneshot::Sender<String>,
    now: u64,
)
    requires
        s.queue.items.len() >= 500 || !start_if_idle || !(s.active is Nobody),
    ensures
        ({
            let r = Run::start(s).input(
                Input::Enqueue { item, pos, start_if_idle, reply },
                now,
            );
            let n = s.queue.items.len();
            let queued = StateModel { queue: with_item(s.queue, pos, item), ..s };
            let armed = Run::start(queued).maybe_arm(now);
            &&& n >= 500 ==> r.s == s && r.fx =~= seq![
                EffectModel::Reply(
                    reply,
                    "⚠️ Queue is full ("@ + crate::text::decimal(500)
                        + " items) — try again once some have played."@,
                ),
            ]
            &&& n < 500 ==> {
                &&& handed_over(Run::start(queued), now, armed)
                &&& r.s == armed.s
                &&& r.fx =~= armed.fx + seq![
                    EffectModel::Reply(
                        reply,
                        if pos is Head {
                            "➕ Playing next"@
                        } else if !(s.active is Nobody) {
                            "➕ Added to queue #"@ + crate::text::decimal(n + 1)
                        } else {
                            "➕ Queued. Nothing is playing right now — press ▶ or use `/play` to start."@
                        },
                    ),
                ]
            }
        }),
{
    reveal(Run::input);
    reveal(Run::enqueue);
    if s.queue.items.len() < 500 {
        lemma_with_item(s.queue, pos, item);
        lemma_handed_over(
            Run::start(StateModel { queue: with_item(s.queue, pos, item), ..s }),
            now,
        );
    }
}

/// On a silent player a request may start the head of the queue, which is not
/// always itself: a media item takes the turn, with Spotify paused where it
/// still plays; a Spotify request is loaded on an idle device, which is claimed
/// for it. Without a session the listeners are asked to take over.
#[verifier::spinoff_prover]
#[verifier::rlimit(50)]
pub proof fn law_a_request_starts_a_silent_player(
    s: StateModel,
    item: QueueItem,
    pos: EnqueuePos,
    reply: oneshot::Sender<String>,
    now: u64,
)
    requires
        s.queue.items.len() < 500,
        s.active is Nobody,
    ensures
        ({
            let r = Run::start(s).input(
                Input::Enqueue { item, pos, start_if_idle: true, reply },
                now,
            );
            let queued = StateModel { queue: with_item(s.queue, pos, item), ..s };
            let head = queued.queue.items[0];
            let pausing = s.device_active && s.sp is Playing;
            let ours = if s.device_active {
                queued
            } else {
                claimed(queued)
            };
            let claim = if s.device_active {
                Seq::empty()
            } else {
                seq![EffectModel::Spirc(SpircCmd::ActivateDevice)]
            };
            let started = EffectModel::Reply(
                reply,
                if head.source.title() == item.source.title() {
                    "▶ Playing now"@
                } else {
                    "➕ Queued. **"@ + head.source.title() + "** is starting first."@
                },
            );
            let waiting = EffectModel::Reply(
                reply,
                if pos is Head {
                    "➕ Playing next"@
                } else {
                    "➕ Queued. Nothing is playing right now — press ▶ or use `/play` to start."@
                },
            );
            &&& media_waits(queued.queue.items) ==> exists|began: Run|
                {
                    &&& pausing ==> head_took_the_turn(
                        StateModel {
                            pauses: one_more_expected(s.pauses, now),
                            pause_owner: Some(PauseOwner::BotForMedia),
                            ..queued
                        },
                        seq![EffectModel::Spirc(SpircCmd::Pause), EffectModel::ClearBridge],
                        StartGate::AfterSpotifyPauseAck,
                        seq![],
                        began,
                    )
                    &&& !pausing ==> head_took_the_turn(
                        queued,
                        seq![],
                        StartGate::Immediate,
                        seq![],
                        began,
                    )
                    &&& r.s == (#[trigger] began.maybe_arm(now)).s
                    &&& r.fx =~= began.maybe_arm(now).fx.push(started)
                }
            &&& spotify_waits(queued.queue.items) ==> {
                &&& !s.device_active && !s.link_up ==> r.s == queued && r.fx =~= seq![
                    EffectModel::Ui(UiModel::TakeoverPrompt),
                    waiting,
                ]
                &&& (s.device_active || s.link_up) && ours.sp is Idle ==> load_took_the_turn(
                    ours,
                    claim,
                    head.source->uri,
                    now,
                    seq![started],
                    r,
                )
                &&& (s.device_active || s.link_up) && !(ours.sp is Idle) ==> {
                    let armed = Run { s: ours, fx: claim }.maybe_arm(now);
                    r.s == armed.s && r.fx =~= armed.fx.push(waiting)
                }
            }
        }),
{
    reveal(Run::input);
    reveal(Run::enqueue);
    reveal(Run::start_silent);
    lemma_with_item(s.queue, pos, item);
    lemma_expected(s.pauses, now);
    let queued = StateModel { queue: with_item(s.queue, pos, item), ..s };
    let ours = if s.device_active {
        queued
    } else {
        claimed(queued)
    };
    let claim = if s.device_active {
        Seq::empty()
    } else {
        seq![EffectModel::Spirc(SpircCmd::ActivateDevice)]
    };
    if s.device_active || s.link_up {
        assert(Run::start(queued).claim_device().fx =~= claim);
        assert(Run::start(queued).claim_device() == Run { s: ours, fx: claim });
    }
    if media_waits(queued.queue.items) {
        let base = StateModel {
            pauses: one_more_expected(s.pauses, now),
            pause_owner: Some(PauseOwner::BotForMedia),
            ..queued
        };
        let first = seq![EffectModel::Spirc(SpircCmd::Pause), EffectModel::ClearBridge];
        let pausing = s.device_active && s.sp is Playing;
        lemma_head_took_the_turn(base, first, StartGate::AfterSpotifyPauseAck);
        lemma_head_took_the_turn(queued, Seq::empty(), StartGate::Immediate);
        let began = if pausing {
            Run { s: base, fx: first }.start_head(StartGate::AfterSpotifyPauseAck)
        } else {
            Run { s: queued, fx: Seq::empty() }.start_head(StartGate::Immediate)
        };
        assert(pausing ==> head_took_the_turn(
            base,
            first,
            StartGate::AfterSpotifyPauseAck,
            seq![],
            began,
        ));
        assert(!(began.maybe_arm(now).s.active is Nobody));
    }
}

/// The queue of the last process comes back in order, five hundred items at
/// most and each under a new id, onto an empty queue only, and a Spotify
/// request is armed where that may be.
pub proof fn law_the_queue_comes_back(s: StateModel, items: Vec<QueueItem>, now: u64)
    requires
        s.queue.last_id + 500 <= u64::MAX,
    ensures
        ({
            let r = Run::start(s).input(Input::RestoreQueue { items }, now);
            &&& s.queue.items.len() > 0 ==> r == Run::start(s)
            &&& s.queue.items.len() == 0 ==> {
                let n = if items@.len() < 500 {
                    items@.len()
                } else {
                    500
                };
                &&& r.s.queue.items.len() == n
                &&& r.s.queue.last_id == s.queue.last_id + n
                &&& forall|i: int|
                    0 <= i < n ==> #[trigger] r.s.queue.items[i] == (QueueItem {
                        item_id: (s.queue.last_id + 1 + i) as u64,
                        ..items@[i]
                    })
                &&& handed_over(Run::start(StateModel { queue: r.s.queue, ..s }), now, r)
            }
        }),
{
    reveal(Run::input);
    reveal(Run::restore_queue);
    if s.queue.items.len() == 0 {
        lemma_handed_over(
            Run::start(StateModel { queue: Run::restored(s.queue, items@), ..s }),
            now,
        );
    }
}

/// A query answers with what is audible, the first five requests with the armed
/// one marked, how many more there are, and where the device and the link
/// stand.
pub proof fn law_a_query_shows_the_player(
    s: StateModel,
    reply: oneshot::Sender<crate::player::state::PlayerSnapshot>,
    now: u64,
)
    ensures
        ({
            let r = Run::start(s).input(Input::Query { reply }, now);
            let n = s.queue.items.len();
            &&& r.s == s && r.fx.len() == 1
            &&& r.fx[0] matches EffectModel::ReplySnapshot(tx, snap) && {
                &&& tx == reply
                &&& snap.queue_len == n
                &&& snap.device_active == s.device_active
                &&& snap.link_up == s.link_up
                &&& snap.preview.len() == (if n < 5 {
                    n
                } else {
                    5
                })
                &&& snap.more + snap.preview.len() == n
                &&& forall|i: int|
                    0 <= i < snap.preview.len() ==> {
                        let row = #[trigger] snap.preview[i];
                        let item = s.queue.items[i];
                        &&& row.item_id == item.item_id
                        &&& row.title == item.source.title()
                        &&& row.subtitle == item.source.subtitle()
                        &&& row.duration == item.source.duration()
                        &&& row.queued_by == item.queued_by@
                        &&& row.armed == (s.armed matches Some(a) && a.item_id == item.item_id)
                    }
                &&& match s.active {
                    Active::Nobody => snap.now is Nothing,
                    Active::SpotifyPending { .. } => snap.now is SpotifyStarting,
                    Active::Spotify { track: None } => snap.now is SpotifyStarting,
                    Active::Spotify { track: Some(m) } => snap.now
                        == (crate::player::model::NowModel::Spotify {
                        title: m.title@,
                        artist: m.artist@,
                        paused: s.sp is Paused,
                    }),
                    Active::Media { item, paused, .. } => snap.now
                        == (crate::player::model::NowModel::Media {
                        title: item.source.title(),
                        subtitle: item.source.subtitle(),
                        queued_by: item.queued_by@,
                        paused,
                    }),
                }
            }
        }),
{
    reveal(Run::input);
    reveal(Run::query);
}

/// When a media item ends, the next one takes the turn at once; a Spotify
/// request is loaded on an idle device, which is claimed for it.
pub proof fn law_the_end_of_an_item_starts_the_next(
    s: StateModel,
    epoch: u64,
    outcome: MediaOutcome,
    now: u64,
)
    requires
        s.active matches Active::Media { epoch: e, .. } && e == epoch,
        s.queue.items.len() > 0,
    ensures
        ({
            let r = Run::start(s).input(Input::MediaEnded { epoch, outcome }, now);
            let ours = if s.device_active {
                s
            } else {
                claimed(s)
            };
            let claim = if s.device_active {
                Seq::empty()
            } else {
                seq![EffectModel::Spirc(SpircCmd::ActivateDevice)]
            };
            &&& media_waits(s.queue.items) ==> exists|began: Run|
                {
                    &&& head_took_the_turn(s, seq![], StartGate::Immediate, seq![], began)
                    &&& r == #[trigger] began.maybe_arm(now)
                }
            &&& spotify_waits(s.queue.items) && !s.device_active && !s.link_up ==> r.s == (
            StateModel { active: Active::Nobody, ..s }) && r.fx.len() == 0
            &&& spotify_waits(s.queue.items) && (s.device_active || s.link_up) && ours.sp is Idle
                ==> load_took_the_turn(ours, claim, s.queue.items[0].source->uri, now, seq![], r)
        }),
{
    reveal(Run::input);
    reveal(Run::after_media);
    if media_waits(s.queue.items) {
        lemma_head_took_the_turn(s, Seq::empty(), StartGate::Immediate);
        let began = Run { s, fx: Seq::empty() }.start_head(StartGate::Immediate);
        assert(Run::start(s).input(Input::MediaEnded { epoch, outcome }, now) == began.maybe_arm(
            now,
        ));
    }
}

/// When a media item ends and a Spotify request waits on a device that plays
/// from something, the request is armed, and the music goes on unless a human
/// paused it: what the bot paused is resumed, stepping on to the request where
/// Spotify has confirmed that it comes next and another track is cued.
#[verifier::spinoff_prover]
#[verifier::rlimit(50)]
pub proof fn law_the_end_of_an_item_gives_the_music_back(
    s: StateModel,
    epoch: u64,
    outcome: MediaOutcome,
    now: u64,
)
    requires
        s.active matches Active::Media { epoch: e, .. } && e == epoch,
        spotify_waits(s.queue.items),
        s.device_active || s.link_up,
        !(s.sp is Idle),
        !s.device_active ==> !(s.sp is Inactive),
    ensures
        ({
            let r = Run::start(s).input(Input::MediaEnded { epoch, outcome }, now);
            let uri = s.queue.items[0].source->uri;
            let first = if s.device_active {
                Run::start(s)
            } else {
                Run {
                    s: claimed(s),
                    fx: seq![EffectModel::Spirc(SpircCmd::ActivateDevice)],
                }
            };
            let armed = first.maybe_arm(now);
            let cued = match s.sp {
                SpDevice::Playing(u) => u@ == uri@,
                SpDevice::Paused(u) => u@ == uri@,
                _ => false,
            };
            let confirmed = armed.s.armed matches Some(a) && a.uri@ == uri@ && a.ack is Confirmed;
            &&& handed_over(first, now, armed)
            &&& s.pause_owner == Some(PauseOwner::Human) ==> r.s == (StateModel {
                active: Active::Nobody,
                ..armed.s
            }) && r.fx =~= armed.fx
            &&& s.pause_owner is None ==> r.fx =~= armed.fx && r.s == (StateModel {
                active: if s.sp is Playing {
                    Active::Spotify { track: None }
                } else {
                    Active::Nobody
                },
                ..armed.s
            })
            &&& s.pause_owner == Some(PauseOwner::BotForMedia) && !cued && confirmed ==> {
                &&& r.fx =~= armed.fx + seq![
                    EffectModel::Spirc(SpircCmd::Next),
                    EffectModel::Spirc(SpircCmd::Play),
                    EffectModel::SetTimer(TimerKind::SpotifyPending, 5_000_000_000),
                ]
                &&& r.s == (StateModel {
                    pause_owner: None,
                    active: Active::SpotifyPending { uri, sent: now, retried: false },
                    ..armed.s
                })
            }
            &&& s.pause_owner == Some(PauseOwner::BotForMedia) && (cued || !confirmed) ==> {
                &&& r.fx =~= armed.fx.push(EffectModel::Spirc(SpircCmd::Play))
                &&& r.s == (StateModel {
                    pause_owner: None,
                    active: Active::Spotify { track: None },
                    ..armed.s
                })
            }
        }),
{
    reveal(Run::input);
    reveal(Run::after_media);
    let first = if s.device_active {
        Run::start(s)
    } else {
        Run { s: claimed(s), fx: seq![EffectModel::Spirc(SpircCmd::ActivateDevice)] }
    };
    lemma_handed_over(first, now);
}

/// When the last media item ends, the baseline has the turn again if it plays,
/// or if the bot had paused it, and then it is resumed; otherwise nobody has,
/// and the status line goes idle.
pub proof fn law_the_last_item_gives_the_baseline_back(
    s: StateModel,
    epoch: u64,
    outcome: MediaOutcome,
    now: u64,
)
    requires
        s.active matches Active::Media { epoch: e, .. } && e == epoch,
        s.queue.items.len() == 0,
    ensures
        ({
            let r = Run::start(s).input(Input::MediaEnded { epoch, outcome }, now);
            let owed = s.pause_owner == Some(PauseOwner::BotForMedia) && s.device_active && (
            s.sp is Paused || s.sp is Boundary);
            let baseline = Active::Spotify { track: None };
            &&& owed ==> r.s == (StateModel { pause_owner: None, active: baseline, ..s }) && r.fx
                =~= seq![EffectModel::Spirc(SpircCmd::Play)]
            &&& !owed && s.sp is Playing ==> r.s == (StateModel { active: baseline, ..s })
                && r.fx.len() == 0
            &&& !owed && !(s.sp is Playing) ==> r.s == (StateModel {
                active: Active::Nobody,
                ..s
            }) && r.fx =~= seq![EffectModel::Presence(PresenceState::Idle)]
        }),
{
    reveal(Run::input);
    reveal(Run::after_media);
}

/// The voice channel coming up is noted. Its loss ends a media item, whose
/// runner can then no longer be heard of, and leaves everything else.
pub proof fn law_losing_voice_ends_the_media_item(s: StateModel, now: u64)
    requires
        s.media_epoch < u64::MAX,
    ensures
        ({
            let up = Run::start(s).input(Input::VoiceReady, now);
            let lost = Run::start(s).input(Input::VoiceLost, now);
            &&& up == Run::start(StateModel { voice: VoiceStatus::Ready, ..s })
            &&& !(s.active is Media) ==> lost == Run::start(
                StateModel { voice: VoiceStatus::Down, ..s },
            )
            &&& s.active is Media ==> {
                &&& lost.s == (StateModel {
                    voice: VoiceStatus::Down,
                    active: Active::Nobody,
                    media_epoch: (s.media_epoch + 1) as u64,
                    ..s
                })
                &&& lost.fx =~= seq![EffectModel::CancelMedia, EffectModel::ClearBridge]
            }
        }),
{
    reveal(Run::input);
    reveal(Run::voice_lost);
}

/// A session that comes up starts clean. What stood armed when the last one was
/// lost is armed again within a minute, if it is still queued, and a baseline
/// the bot had paused for an item that has ended is resumed; for either the
/// device's state is taken back first.
pub proof fn law_a_new_session_takes_back_what_is_owed(s: StateModel, gen: u64, now: u64)
    ensures
        ({
            let r = Run::start(s).input(Input::LinkUp { gen }, now);
            let kept = s.armed_snapshot matches Some(snap) && (now < snap.at || now - snap.at
                < 60_000_000_000) && exists|k: int|
                0 <= k < s.queue.items.len() && (#[trigger] s.queue.items[k]).item_id
                    == snap.armed.item_id;
            let owed = s.pause_owner == Some(PauseOwner::BotForMedia) && s.active is Nobody;
            let none: Seq<EffectModel> = seq![];
            &&& r.s == (StateModel {
                link_gen: gen,
                link_up: true,
                device_active: false,
                sp: SpDevice::Inactive,
                pauses: Seq::empty(),
                context_uri: None,
                play_options: PlayOptions {
                    shuffle: false,
                    repeat_context: false,
                    repeat_track: false,
                },
                awaiting_jump: None,
                history_cursor: None,
                pending_request: None,
                armed_snapshot: None,
                armed: if kept {
                    Some(
                        Armed {
                            item_id: s.armed_snapshot->0.armed.item_id,
                            uri: s.armed_snapshot->0.armed.uri,
                            ack: Ack::Sent(now),
                        },
                    )
                } else {
                    s.armed
                },
                pause_owner: if owed {
                    None
                } else {
                    s.pause_owner
                },
                active: if owed {
                    Active::Spotify { track: None }
                } else {
                    s.active
                },
                ..s
            })
            &&& r.fx =~= (if kept || owed {
                seq![EffectModel::Spirc(SpircCmd::Transfer)]
            } else {
                none
            }) + (if kept {
                seq![EffectModel::SetTimer(TimerKind::ArmAck, 2_000_000_000)]
            } else {
                none
            }) + (if owed {
                seq![EffectModel::Spirc(SpircCmd::Play)]
            } else {
                none
            })
        }),
{
    reveal(Run::input);
    reveal(Run::link_up);
}

/// A session that is lost loses the device, and keeps what stood armed for a
/// minute. What Spotify held is handed on: a media item at the head of the
/// queue takes the turn; otherwise nobody has it, and the listeners are told.
pub proof fn law_a_lost_session_hands_the_turn_on(s: StateModel, now: u64)
    ensures
        ({
            let r = Run::start(s).input(Input::LinkDown { gen: s.link_gen }, now);
            let base = StateModel {
                device_active: false,
                sp: SpDevice::Inactive,
                link_up: false,
                awaiting_jump: None,
                history_cursor: None,
                pending_request: None,
                armed: None,
                armed_snapshot: match s.armed {
                    Some(a) => Some(ArmSnapshot { armed: a, at: now }),
                    None => s.armed_snapshot,
                },
                ..s
            };
            let first = if s.armed is Some {
                seq![EffectModel::SetTimer(TimerKind::SnapshotExpiry, 60_000_000_000)]
            } else {
                seq![]
            };
            &&& !spotify_holds(s.active) ==> r.s == base && r.fx =~= first
            &&& spotify_holds(s.active) && media_waits(s.queue.items) ==> head_took_the_turn(
                base,
                first.push(EffectModel::ClearBridge),
                StartGate::Immediate,
                seq![],
                r,
            )
            &&& spotify_holds(s.active) && !media_waits(s.queue.items) ==> {
                &&& r.s == (StateModel { active: Active::Nobody, ..base })
                &&& r.fx =~= first + seq![
                    EffectModel::ClearBridge,
                    EffectModel::Ui(
                        UiModel::Notice(
                            "Spotify session lost — reconnecting. Queued items stay queued."@,
                        ),
                    ),
                    EffectModel::Presence(PresenceState::Idle),
                ]
            }
        }),
{
    reveal(Run::input);
    reveal(Run::link_down);
    let base = StateModel {
        device_active: false,
        sp: SpDevice::Inactive,
        link_up: false,
        awaiting_jump: None,
        history_cursor: None,
        pending_request: None,
        armed: None,
        armed_snapshot: match s.armed {
            Some(a) => Some(ArmSnapshot { armed: a, at: now }),
            None => s.armed_snapshot,
        },
        ..s
    };
    let first = if s.armed is Some {
        seq![EffectModel::SetTimer(TimerKind::SnapshotExpiry, 60_000_000_000)]
    } else {
        seq![]
    };
    if media_waits(s.queue.items) {
        lemma_head_took_the_turn(
            base,
            first.push(EffectModel::ClearBridge),
            StartGate::Immediate,
        );
    }
}

/// A session that reconnects silences what Spotify still had in the bridge, and
/// changes nothing.
pub proof fn law_a_reconnect_only_clears_the_bridge(s: StateModel, now: u64)
    ensures
        ({
            let r = Run::start(s).input(Input::LinkReconnecting { gen: s.link_gen }, now);
            &&& r.s == s
            &&& spotify_holds(s.active) ==> r.fx =~= seq![EffectModel::ClearBridge]
            &&& !spotify_holds(s.active) ==> r.fx.len() == 0
        }),
{
    reveal(Run::input);
}

/// An arm that Spotify has not acknowledged in two seconds is taken for lost.
pub proof fn law_a_silent_arm_is_lost(s: StateModel, now: u64)
    ensures
        ({
            let r = Run::start(s).input(Input::Tick(TimerKind::ArmAck), now);
            &&& r.fx.len() == 0
            &&& match s.armed {
                Some(a) => match a.ack {
                    Ack::Sent(at) => if now >= at && now - at >= 2_000_000_000 {
                        r.s == (StateModel {
                            armed: Some(Armed { item_id: a.item_id, uri: a.uri, ack: Ack::Lost }),
                            ..s
                        })
                    } else {
                        r.s == s
                    },
                    _ => r.s == s,
                },
                None => r.s == s,
            }
        }),
{
    reveal(Run::input);
    reveal(Run::arm_ack_tick);
}

/// A start that Spotify has not answered in five seconds is tried once more on
/// an idle device; it is over where something plays; otherwise it is given up,
/// and the listeners are told, or asked to take over where the device was lost.
pub proof fn law_a_silent_start_is_retried_once(s: StateModel, now: u64)
    ensures
        ({
            let r = Run::start(s).input(Input::Tick(TimerKind::SpotifyPending), now);
            match s.active {
                Active::SpotifyPending { uri, sent, retried } => {
                    let due = now >= sent && now - sent >= 5_000_000_000;
                    let given_up = StateModel { active: Active::Nobody, ..s };
                    &&& !due ==> r == Run::start(s)
                    &&& due && !s.device_active ==> r.s == given_up && r.fx =~= seq![
                        EffectModel::Ui(UiModel::TakeoverPrompt),
                    ]
                    &&& due && s.device_active && s.sp is Idle && !retried ==> {
                        &&& r.s == (StateModel {
                            active: Active::SpotifyPending { uri, sent: now, retried: true },
                            ..s
                        })
                        &&& r.fx =~= seq![
                            EffectModel::Spirc(SpircCmd::Load(uri)),
                            EffectModel::SetTimer(TimerKind::SpotifyPending, 5_000_000_000),
                        ]
                    }
                    &&& due && s.device_active && s.sp is Playing ==> r == Run::start(
                        StateModel { active: Active::Spotify { track: None }, ..s },
                    )
                    &&& due && s.device_active && !(s.sp is Playing) && (!(s.sp is Idle)
                        || retried) ==> r.s == given_up && r.fx =~= seq![
                        EffectModel::Ui(
                            UiModel::Notice(
                                "Couldn't start the queued Spotify track — skipping it for now."@,
                            ),
                        ),
                    ]
                },
                _ => r == Run::start(s),
            }
        }),
{
    reveal(Run::input);
    reveal(Run::pending_tick);
}

/// What stood armed when a session was lost is forgotten after a minute.
pub proof fn law_a_kept_arm_expires(s: StateModel, now: u64)
    ensures
        ({
            let r = Run::start(s).input(Input::Tick(TimerKind::SnapshotExpiry), now);
            let due = s.armed_snapshot matches Some(snap) && now >= snap.at && now - snap.at
                >= 60_000_000_000;
            &&& due ==> r == Run::start(StateModel { armed_snapshot: None, ..s })
            &&& !due ==> r == Run::start(s)
        }),
{
    reveal(Run::input);
    reveal(Run::snapshot_tick);
}

/// A pause that Spotify reports makes the device ours and paused. It is a
/// human's unless we sent one in the last two seconds, which it then answers.
/// What Spotify still had in the bridge is cleared where it has the turn, and
/// the status line shows the pause where the track is known.
pub proof fn law_a_reported_pause_is_noted(s: StateModel, uri: SpotifyUri, now: u64)
    ensures
        ({
            let r = Run::start(s).input(
                Input::Transport { gen: s.link_gen, ev: TransportEvent::Paused { uri } },
                now,
            );
            let expected = still_expected(s.pauses, now);
            let none: Seq<EffectModel> = seq![];
            &&& r.s == (StateModel {
                sp: SpDevice::Paused(uri),
                device_active: true,
                pauses: if expected.len() == 0 {
                    expected
                } else {
                    expected.skip(1)
                },
                pause_owner: if expected.len() == 0 {
                    Some(PauseOwner::Human)
                } else {
                    s.pause_owner
                },
                ..s
            })
            &&& r.fx =~= (if spotify_holds(s.active) {
                seq![EffectModel::ClearBridge]
            } else {
                none
            }) + (match s.active {
                Active::Spotify { track: Some(meta) } => seq![
                    EffectModel::Presence(PresenceState::Paused { uri, meta }),
                ],
                _ => none,
            })
        }),
{
    reveal(Run::input);
    reveal(Run::paused);
    lemma_expected(s.pauses, now);
    let expected = still_expected(s.pauses, now);
    if expected.len() > 0 {
        assert(expected.drop_first() =~= expected.skip(1));
    }
}

/// A track that Spotify cannot play is dropped where it stood armed, and the
/// next request is armed; the listeners are told either way. The bridge is
/// cleared only of the track that was thought to be audible.
pub proof fn law_an_unavailable_track_is_dropped(s: StateModel, uri: SpotifyUri, now: u64)
    ensures
        ({
            let r = Run::start(s).input(
                Input::Transport { gen: s.link_gen, ev: TransportEvent::Unavailable { uri } },
                now,
            );
            let audible = match s.active {
                Active::SpotifyPending { uri: wanted, .. } => wanted@ == uri@,
                Active::Spotify { .. } => match s.sp {
                    SpDevice::Playing(u) => u@ == uri@,
                    SpDevice::Paused(u) => u@ == uri@,
                    _ => false,
                },
                _ => false,
            };
            let first = if audible {
                seq![EffectModel::ClearBridge]
            } else {
                seq![]
            };
            let armed = s.armed matches Some(a) && a.uri@ == uri@;
            &&& !armed ==> r.s == s && r.fx =~= first.push(
                EffectModel::Ui(
                    UiModel::Notice(
                        "Spotify reports a track as unavailable ("@ + uri@.text + ")."@,
                    ),
                ),
            )
            &&& armed ==> handed_over(
                Run {
                    s: StateModel { armed: None, queue: answered(s, uri), ..s },
                    fx: first.push(
                        EffectModel::Ui(
                            UiModel::Notice(
                                "A queued Spotify track is unavailable and was dropped ("@
                                    + uri@.text + ")."@,
                            ),
                        ),
                    ),
                },
                now,
                r,
            )
        }),
{
    reveal(Run::input);
    reveal(Run::unavailable);
    let audible = Run::start(s).believed_audible(uri);
    let first = if audible {
        seq![EffectModel::ClearBridge]
    } else {
        seq![]
    };
    lemma_answered(s, uri);
    lemma_handed_over(
        Run {
            s: StateModel { armed: None, queue: answered(s, uri), ..s },
            fx: first.push(
                EffectModel::Ui(
                    UiModel::Notice(
                        "A queued Spotify track is unavailable and was dropped ("@ + uri@.text
                            + ")."@,
                    ),
                ),
            ),
        },
        now,
    );
}

/// A request for this very track.
pub open spec fn asks_for(item: QueueItem, uri: SpotifyUri) -> bool {
    item.source matches MediaSource::Spotify { uri: u, .. } && u@ == uri@
}

/// Where the first request for a track stands, or how many requests there are.
pub open spec fn first_request(items: Seq<QueueItem>, uri: SpotifyUri) -> int
    decreases items.len(),
{
    if items.len() == 0 || asks_for(items[0], uri) {
        0
    } else {
        1 + first_request(items.skip(1), uri)
    }
}

/// The queue without the first request for a track.
pub open spec fn answered(s: StateModel, uri: SpotifyUri) -> QueueModel {
    let k = first_request(s.queue.items, uri);
    if k < s.queue.items.len() {
        QueueModel {
            items: s.queue.items.take(k) + s.queue.items.skip(k + 1),
            last_id: s.queue.last_id,
        }
    } else {
        s.queue
    }
}

proof fn lemma_first_request(items: Seq<QueueItem>, uri: SpotifyUri)
    ensures
        first_request(items, uri) == crate::queue::first_index(
            items,
            crate::player::model::requests_of(uri),
        ),
        0 <= first_request(items, uri) <= items.len(),
    decreases items.len(),
{
    if items.len() > 0 {
        assert(items.drop_first() =~= items.skip(1));
        lemma_first_request(items.skip(1), uri);
    }
}

proof fn lemma_answered(s: StateModel, uri: SpotifyUri)
    ensures
        s.queue.without(s.request_index(uri)) == answered(s, uri),
        s.request_for(uri) == (if first_request(s.queue.items, uri) < s.queue.items.len() {
            Some(s.queue.items[first_request(s.queue.items, uri)])
        } else {
            None
        }),
{
    lemma_first_request(s.queue.items, uri);
    let k = first_request(s.queue.items, uri);
    if k < s.queue.items.len() {
        assert(s.queue.items.remove(k) =~= s.queue.items.take(k) + s.queue.items.skip(k + 1));
    }
}

/// The history row of a Spotify track: who asked for it, if anybody did, and
/// the context it is heard in, unless it came out of Spotify's own queue.
pub open spec fn track_row(
    s: StateModel,
    uri: SpotifyUri,
    meta: TrackMeta,
    asked: Option<QueueItem>,
    row: AiredModel,
) -> bool {
    &&& row.source == (if asked is Some {
        AiredSource::Request
    } else {
        AiredSource::Baseline
    })
    &&& row.track_ref == uri@.text
    &&& row.context_uri == (if s.armed matches Some(a) && a.uri@ == uri@ {
        None
    } else {
        s.context_uri
    })
    &&& row.title == Some(meta.title@)
    &&& row.artist == Some(meta.artist@)
    &&& match asked {
        Some(item) => {
            &&& row.queued_by == Some(item.queued_by@)
            &&& row.queued_by_id == Some(crate::text::decimal(item.queued_by_id as nat))
        },
        None => row.queued_by is None && row.queued_by_id is None,
    }
}

/// The first request for a track that is still queued.
pub open spec fn queued_request(s: StateModel, uri: SpotifyUri) -> Option<QueueItem> {
    let k = first_request(s.queue.items, uri);
    if k < s.queue.items.len() {
        Some(s.queue.items[k])
    } else {
        None
    }
}

/// A track that is named gets its card and its history row once, where Spotify
/// has the turn; under a media item nothing happens.
pub proof fn law_a_named_track_is_shown_once(
    s: StateModel,
    uri: SpotifyUri,
    meta: TrackMeta,
    now: u64,
)
    ensures
        ({
            let r = Run::start(s).input(
                Input::Transport {
                    gen: s.link_gen,
                    ev: TransportEvent::TrackChanged { uri, meta },
                },
                now,
            );
            let known = StateModel {
                active: if s.active is Spotify {
                    Active::Spotify { track: Some(meta) }
                } else {
                    s.active
                },
                ..s
            };
            let new = s.last_heard_track != Some(uri@.text);
            &&& !spotify_holds(s.active) ==> r == Run::start(s)
            &&& spotify_holds(s.active) && !new ==> r == Run::start(known)
            &&& spotify_holds(s.active) && new ==> {
                &&& r.s == (StateModel { last_heard_track: Some(uri@.text), ..known })
                &&& r.fx.len() == 2
                &&& r.fx[0] == EffectModel::Ui(
                    UiModel::NowPlayingSpotify { uri, meta: Some(meta) },
                )
                &&& r.fx[1] matches EffectModel::RecordAired(row) && track_row(
                    s,
                    uri,
                    meta,
                    queued_request(s, uri),
                    row,
                )
            }
        }),
{
    reveal(Run::input);
    reveal(Run::track_changed);
    lemma_answered(s, uri);
}

/// A queue that Spotify reports names the context. An armed request that is in
/// it is confirmed; one that was confirmed and is in it no more, nor playing,
/// was taken out by somebody, so it is dropped here too and the next one armed.
pub proof fn law_a_reported_queue_settles_the_arm(
    s: StateModel,
    current: Option<SpotifyUri>,
    queued: Vec<SpotifyUri>,
    context_uri: Option<String>,
    now: u64,
)
    ensures
        ({
            let r = Run::start(s).input(
                Input::Transport {
                    gen: s.link_gen,
                    ev: TransportEvent::SetQueue { current, queued, context_uri },
                },
                now,
            );
            let named = StateModel {
                context_uri: match context_uri {
                    Some(text) => Some(text@),
                    None => s.context_uri,
                },
                ..s
            };
            match s.armed {
                None => r == Run::start(named),
                Some(a) => {
                    let listed = exists|k: int|
                        0 <= k < queued@.len() && (#[trigger] queued@[k])@ == a.uri@;
                    let gone = !listed && a.ack is Confirmed && !(current matches Some(c) && c@
                        == a.uri@);
                    &&& listed ==> r == Run::start(
                        StateModel {
                            armed: Some(
                                Armed { item_id: a.item_id, uri: a.uri, ack: Ack::Confirmed },
                            ),
                            ..named
                        },
                    )
                    &&& gone ==> handed_over(
                        Run {
                            s: StateModel { armed: None, queue: answered(s, a.uri), ..named },
                            fx: seq![
                                EffectModel::Ui(
                                    UiModel::Notice(
                                        "A queued Spotify track was removed from the device's queue — dropped here too."@,
                                    ),
                                ),
                            ],
                        },
                        now,
                        r,
                    )
                    &&& !listed && !gone ==> r == Run::start(named)
                },
            }
        }),
{
    reveal(Run::input);
    reveal(Run::set_queue);
    let named = StateModel {
        context_uri: match context_uri {
            Some(text) => Some(text@),
            None => s.context_uri,
        },
        ..s
    };
    if let Some(a) = s.armed {
        lemma_answered(s, a.uri);
        lemma_handed_over(
            Run {
                s: StateModel { armed: None, queue: answered(s, a.uri), ..named },
                fx: seq![
                    EffectModel::Ui(
                        UiModel::Notice(
                            "A queued Spotify track was removed from the device's queue — dropped here too."@,
                        ),
                    ),
                ],
            },
            now,
        );
    }
}

/// The options Spotify reports are kept as reported. A session that connects
/// changes nothing; one that disconnects has lost the device, and with it any
/// arm that was not confirmed and any walk through the history.
pub proof fn law_the_device_is_mirrored(
    s: StateModel,
    shuffle: bool,
    repeat_context: bool,
    repeat_track: bool,
    now: u64,
)
    ensures
        ({
            let told = |ev: TransportEvent| Run::start(s).input(
                Input::Transport { gen: s.link_gen, ev },
                now,
            );
            &&& told(TransportEvent::OptionsChanged { shuffle, repeat_context, repeat_track })
                == Run::start(
                StateModel {
                    play_options: PlayOptions { shuffle, repeat_context, repeat_track },
                    ..s
                },
            )
            &&& told(TransportEvent::SessionConnected) == Run::start(s)
            &&& told(TransportEvent::SessionDisconnected) == Run::start(
                StateModel {
                    device_active: false,
                    sp: SpDevice::Inactive,
                    awaiting_jump: None,
                    history_cursor: None,
                    pending_request: None,
                    armed: if s.armed matches Some(a) && a.ack is Confirmed {
                        s.armed
                    } else {
                        None
                    },
                    ..s
                },
            )
        }),
{
    reveal(Run::input);
    reveal(Run::session_disconnected);
}

/// The request an airing answers: one still queued, else the one a media item
/// held up.
pub open spec fn asked_for(s: StateModel, uri: SpotifyUri) -> Option<QueueItem> {
    if queued_request(s, uri) is Some {
        queued_request(s, uri)
    } else if s.pending_request matches Some(item) && asks_for(item, uri) {
        s.pending_request
    } else {
        None
    }
}

/// What a track that starts playing settles, whoever has the turn: the device
/// is ours and plays it, the jump it answers is over, the request it answers
/// leaves the queue, and so does the arm that it answers or strays from.
pub open spec fn settled(s: StateModel, uri: SpotifyUri) -> StateModel {
    let new = s.last_heard_track != Some(uri@.text);
    StateModel {
        sp: SpDevice::Playing(uri),
        device_active: true,
        awaiting_jump: None,
        history_cursor: match s.awaiting_jump {
            Some(PendingJump::Context(wanted)) => if wanted@ == uri@ {
                s.history_cursor
            } else {
                None
            },
            Some(PendingJump::Previous { cursor }) => if new {
                Some(cursor)
            } else {
                s.history_cursor
            },
            None => if new {
                None
            } else {
                s.history_cursor
            },
        },
        queue: answered(s, uri),
        pending_request: if queued_request(s, uri) is None && asked_for(s, uri) is Some {
            None
        } else {
            s.pending_request
        },
        armed: match s.armed {
            Some(a) => if a.uri@ == uri@ || (s.active matches Active::SpotifyPending {
                uri: wanted,
                ..
            } && wanted@ != uri@) {
                None
            } else {
                Some(a)
            },
            None => None,
        },
        ..s
    }
}

/// What is said when a jump back landed on another track.
pub open spec fn stray_notice(s: StateModel, uri: SpotifyUri) -> Seq<EffectModel> {
    if s.awaiting_jump matches Some(PendingJump::Context(wanted)) && wanted@ != uri@ {
        seq![
            EffectModel::Ui(
                UiModel::Notice(
                    "⚠️ Spotify couldn't find that track in the playlist and started from the beginning instead."@,
                ),
            ),
        ]
    } else {
        seq![]
    }
}

proof fn lemma_settled(s: StateModel, uri: SpotifyUri)
    ensures
        Run::start(s).playing_noted(uri).s == settled(s, uri),
        Run::start(s).playing_noted(uri).fx =~= stray_notice(s, uri),
        Run::start(s).answered_request(uri) == asked_for(s, uri),
{
    reveal(Run::playing_noted);
    lemma_answered(s, uri);
}

/// A track that starts under a media item is paused straight back: the bot owns
/// the pause, and whoever asked for the track is remembered.
pub proof fn law_a_track_under_a_media_item_is_held(
    s: StateModel,
    uri: SpotifyUri,
    meta: Option<TrackMeta>,
    now: u64,
)
    requires
        s.active is Media,
    ensures
        ({
            let r = Run::start(s).input(
                Input::Transport { gen: s.link_gen, ev: TransportEvent::Playing { uri, meta } },
                now,
            );
            &&& r.fx =~= stray_notice(s, uri).push(EffectModel::Spirc(SpircCmd::Pause))
            &&& r.s == (StateModel {
                pending_request: if asked_for(s, uri) is Some {
                    asked_for(s, uri)
                } else {
                    settled(s, uri).pending_request
                },
                pauses: one_more_expected(s.pauses, now),
                pause_owner: Some(PauseOwner::BotForMedia),
                ..settled(s, uri)
            })
        }),
{
    reveal(Run::input);
    reveal(Run::playing);
    lemma_settled(s, uri);
    lemma_expected(s.pauses, now);
}

/// What is known of a track that plays: what was reported with it, else what is
/// already on its card, else what its request says.
pub open spec fn known_of(s: StateModel, uri: SpotifyUri, meta: Option<TrackMeta>) -> Option<
    TrackMeta,
> {
    if meta is Some {
        meta
    } else if s.last_heard_track == Some(uri@.text) && (s.active matches Active::Spotify {
        track: Some(_),
    }) {
        s.active->track
    } else {
        match asked_for(s, uri) {
            Some(item) => match item.source {
                MediaSource::Spotify { title, artist, album_art_url, .. } => Some(
                    TrackMeta { title, artist, album_art_url },
                ),
                _ => None,
            },
            None => None,
        }
    }
}

/// A track that starts has the turn, for voice to be up and no pause to be
/// owed. A new one gets its card, its history row and its announcement, and the
/// status line shows it; one nothing is known of is looked up; and the next
/// request is armed.
#[verifier::spinoff_prover]
#[verifier::rlimit(50)]
pub proof fn law_a_track_that_starts_has_the_turn(
    s: StateModel,
    uri: SpotifyUri,
    meta: Option<TrackMeta>,
    now: u64,
)
    requires
        !(s.active is Media),
    ensures
        ({
            let r = Run::start(s).input(
                Input::Transport { gen: s.link_gen, ev: TransportEvent::Playing { uri, meta } },
                now,
            );
            let known = known_of(s, uri, meta);
            let new = s.last_heard_track != Some(uri@.text);
            let first = stray_notice(s, uri) + join_needed(s.voice);
            let n = first.len() as int;
            let turn = StateModel {
                active: Active::Spotify { track: known },
                pause_owner: None,
                voice: voice_wanted(s.voice),
                ..settled(s, uri)
            };
            exists|began: Run|
                {
                    &&& handed_over(began, now, r)
                    &&& (#[trigger] began.maybe_arm(now)) == r
                    &&& began.fx.take(n) =~= first
                    &&& known is None ==> began.s == turn && began.fx =~= first + (if new {
                        seq![EffectModel::ResolveMeta(uri)]
                    } else {
                        seq![]
                    })
                    &&& known matches Some(m) ==> if new {
                        &&& began.s == (StateModel {
                            last_heard_track: Some(uri@.text),
                            ..turn
                        })
                        &&& began.fx.len() == n + 4
                        &&& began.fx[n] == EffectModel::Ui(
                            UiModel::NowPlayingSpotify { uri, meta: Some(m) },
                        )
                        &&& began.fx[n + 1] matches EffectModel::RecordAired(row) && track_row(
                            s,
                            uri,
                            m,
                            asked_for(s, uri),
                            row,
                        )
                        &&& began.fx[n + 2] == EffectModel::Announce(
                            AnnounceKind::Track { title: m.title, artist: m.artist },
                        )
                        &&& began.fx[n + 3] == EffectModel::Presence(
                            PresenceState::Playing { uri, meta: m },
                        )
                    } else {
                        &&& began.s == turn
                        &&& began.fx =~= first + seq![
                            EffectModel::Presence(PresenceState::Playing { uri, meta: m }),
                        ]
                    }
                }
        }),
{
    reveal(Run::input);
    reveal(Run::playing);
    lemma_settled(s, uri);
    let known = known_of(s, uri, meta);
    let new = s.last_heard_track != Some(uri@.text);
    let popped = asked_for(s, uri);
    let noted = Run::start(s).playing_noted(uri);
    let turn = noted.active(Active::Spotify { track: known }).owner(None).ensure_voice();
    assert(turn.fx =~= stray_notice(s, uri) + join_needed(s.voice));
    let began = match known {
        Some(m) => {
            let shown = if new {
                turn.emit(
                    EffectModel::Ui(UiModel::NowPlayingSpotify { uri, meta: Some(m) }),
                ).emit(
                    EffectModel::RecordAired(
                        crate::player::model::aired_spotify(
                            turn.s.context_uri,
                            uri@.text,
                            m,
                            popped,
                            s.armed_for(uri),
                        ),
                    ),
                ).emit(
                    EffectModel::Announce(
                        AnnounceKind::Track { title: m.title, artist: m.artist },
                    ),
                ).with(StateModel { last_heard_track: Some(uri@.text), ..turn.s })
            } else {
                turn
            };
            shown.emit(EffectModel::Presence(PresenceState::Playing { uri, meta: m }))
        },
        None => if new {
            turn.emit(EffectModel::ResolveMeta(uri))
        } else {
            turn
        },
    };
    lemma_handed_over(began, now);
    assert(Run::start(s).input(
        Input::Transport { gen: s.link_gen, ev: TransportEvent::Playing { uri, meta } },
        now,
    ) == began.maybe_arm(now));
}

/// The player's state is told field by field, its texts as characters.
pub proof fn law_the_state_is_told_field_by_field(state: PlayerState, room: bool)
    requires
        call_ensures(PlayerState::has_room, (&state,), room),
    ensures
        state@.queue == state.queue@,
        state@.active == state.active,
        state@.sp == state.sp,
        state@.armed == state.armed,
        state@.pause_owner == state.pause_owner,
        state@.pauses == state.inflight.pauses@,
        state@.device_active == state.device_active,
        state@.voice == state.voice,
        state@.link_gen == state.link_gen,
        state@.link_up == state.link_up,
        state@.media_epoch == state.media_epoch,
        state@.play_options == state.play_options,
        state@.history_cursor == state.history_cursor,
        state@.awaiting_jump == state.awaiting_jump,
        state@.pending_reply == state.pending_reply,
        state@.pending_request == state.pending_request,
        state@.armed_snapshot == state.armed_snapshot,
        state.last_heard_track is None <==> state@.last_heard_track is None,
        state.last_heard_track matches Some(t) ==> state@.last_heard_track == Some(t@),
        state.context_uri is None <==> state@.context_uri is None,
        state.context_uri matches Some(t) ==> state@.context_uri == Some(t@),
        room <==> state@.queue.last_id + 500 <= u64::MAX && state.media_epoch < u64::MAX,
{
}

/// A snapshot shows what plays, how many requests wait, the first of them in
/// order and how many more there are, as it holds them.
pub proof fn law_a_snapshot_is_told_field_by_field(snap: PlayerSnapshot, i: int)
    ensures
        snap@.queue_len == snap.queue_len,
        snap@.more == snap.more,
        snap@.device_active == snap.device_active,
        snap@.link_up == snap.link_up,
        snap@.preview.len() == snap.preview@.len(),
        0 <= i < snap.preview@.len() ==> {
            let row = snap.preview@[i];
            &&& snap@.preview[i].item_id == row.item_id
            &&& snap@.preview[i].title == row.title@
            &&& snap@.preview[i].subtitle == row.subtitle@
            &&& snap@.preview[i].queued_by == row.queued_by@
            &&& snap@.preview[i].armed == row.armed
            &&& snap@.preview[i].duration is None <==> row.duration is None
            &&& row.duration matches Some(t) ==> snap@.preview[i].duration == Some(t@)
        },
        snap.now is Nothing <==> snap@.now is Nothing,
        snap.now is SpotifyStarting <==> snap@.now is SpotifyStarting,
        snap.now matches NowPlaying::Media { title, subtitle, queued_by, paused } ==> snap@.now == (
        NowModel::Media {
            title: title@,
            subtitle: subtitle@,
            queued_by: queued_by@,
            paused,
        }),
        snap.now matches NowPlaying::Spotify { title, artist, paused } ==> snap@.now == (
        NowModel::Spotify { title: title@, artist: artist@, paused }),
{
}

/// A history row says `request` of what somebody asked for and `baseline` of
/// everything else, and is read that way again.
pub proof fn law_history_rows_say_who_asked(
    request: &'static str,
    baseline: &'static str,
    word: &str,
    read: AiredSource,
)
    requires
        call_ensures(AiredSource::as_str, (AiredSource::Request,), request),
        call_ensures(AiredSource::as_str, (AiredSource::Baseline,), baseline),
        call_ensures(AiredSource::from_str, (word,), read),
    ensures
        request@ == "request"@,
        baseline@ == "baseline"@,
        read is Request <==> word@ == "request"@,
{
}

/// The head of the queue is its first request, and the Spotify request to arm
/// the first of its kind, wherever that is.
pub proof fn law_the_queue_is_read_from_the_front(
    queue: PriorityQueue,
    head: Head,
    first: Option<(u64, SpotifyUri)>,
    k: int,
)
    requires
        call_ensures(head_of, (&queue,), head),
        call_ensures(first_spotify, (&queue,), first),
    ensures
        queue@.items.len() == 0 <==> head is Empty,
        media_waits(queue@.items) <==> head is Media,
        spotify_waits(queue@.items) ==> head == Head::Spotify(queue@.items[0].source->uri),
        first is None <==> forall|j: int|
            0 <= j < queue@.items.len() ==> !((#[trigger] queue@.items[j]).source is Spotify),
        0 <= k < queue@.items.len() && queue@.items[k].source is Spotify && (forall|j: int|
            0 <= j < k ==> !((#[trigger] queue@.items[j]).source is Spotify)) ==> first == Some(
            (queue@.items[k].item_id, queue@.items[k].source->uri),
        ),
{
    let p = crate::player::model::spotify_requests();
    let items = queue@.items;
    crate::queue::lemma_first_index(items, p);
    let f = crate::queue::first_index(items, p);
    if f < items.len() {
        assert(p(items[f]));
        assert(items[f].source is Spotify);
    } else {
        assert forall|j: int| 0 <= j < items.len() implies !((#[trigger] items[j]).source
            is Spotify) by {
            assert(!p(items[j]));
        }
    }
    if 0 <= k < items.len() && items[k].source is Spotify && (forall|j: int|
        0 <= j < k ==> !((#[trigger] items[j]).source is Spotify)) {
        assert(p(items[k]));
        assert forall|j: int| 0 <= j < k implies !p(#[trigger] items[j]) by {
            assert(!(items[j].source is Spotify));
        }
        crate::queue::lemma_first_index_unique(items, p, k);
    }
}

/// A pause we sent is remembered for two seconds, up to eight of them, and
/// each is answered by one report at most.
pub proof fn law_sent_pauses_are_remembered(pauses: Seq<u64>, now: u64)
    ensures
        crate::player::model::live_pauses(pauses, now) == still_expected(pauses, now),
        crate::player::model::with_pause(pauses, now) == one_more_expected(pauses, now),
        still_expected(pauses, now).len() > 0 ==> crate::player::model::echoed_pause(pauses, now)
            == still_expected(pauses, now).skip(1),
        still_expected(pauses, now).len() == 0 ==> crate::player::model::echoed_pause(
            pauses,
            now,
        ).len() == 0,
{
    lemma_expected(pauses, now);
    let live = still_expected(pauses, now);
    if live.len() > 0 {
        assert(live.drop_first() =~= live.skip(1));
    }
}

/// A step of the core leaves the state and asks for the effects told of its
/// input, and so do the parts it is made of.
pub proof fn law_a_step_does_what_is_told_of_its_input(
    state: &mut PlayerState,
    input: Input,
    now: u64,
    effects: Vec<Effect>,
)
    requires
        call_ensures(step, (state, input, now), effects),
    ensures
        ({
            let r = Run::start(old(state)@).input(input, now);
            &&& final(state)@ == r.s
            &&& effects@.len() == r.fx.len()
            &&& forall|i: int| 0 <= i < effects@.len() ==> (#[trigger] effects@[i])@ == r.fx[i]
        }),
{
    let r = Run::of(*final(state), effects@);
    assert(r.fx == Run::start(old(state)@).input(input, now).fx);
    assert forall|i: int| 0 <= i < effects@.len() implies (#[trigger] effects@[i])@ == r.fx[i] by {
        assert(crate::player::model::effects(effects@)[i] == effects@[i]@);
    }
}

/// A sent pause is remembered, a report answers one if one is still expected,
/// and old ones are dropped, as told of the pauses above.
pub proof fn law_calls_on_the_pauses(
    a: &mut InflightRing,
    now: u64,
    recorded: (),
    b: &mut InflightRing,
    ours: bool,
    c: &mut InflightRing,
    pruned: (),
    d: &mut InflightRing,
    cleared: (),
    new: InflightRing,
)
    requires
        call_ensures(InflightRing::record_pause, (a, now), recorded),
        call_ensures(InflightRing::consume_pause, (b, now), ours),
        call_ensures(InflightRing::prune, (c, now), pruned),
        call_ensures(InflightRing::clear, (d,), cleared),
        call_ensures(InflightRing::new, (), new),
    ensures
        final(a).pauses@ == one_more_expected(old(a).pauses@, now),
        ours <==> still_expected(old(b).pauses@, now).len() > 0,
        ours ==> final(b).pauses@ == still_expected(old(b).pauses@, now).skip(1),
        !ours ==> final(b).pauses@.len() == 0,
        final(c).pauses@ == still_expected(old(c).pauses@, now),
        final(d).pauses@.len() == 0,
        new.pauses@.len() == 0,
{
    lemma_expected(old(a).pauses@, now);
    lemma_expected(old(c).pauses@, now);
    law_sent_pauses_are_remembered(old(b).pauses@, now);
}

/// Voice is asked for while it is down, the first Spotify request is handed
/// over where that may be, and an item that is started takes the turn under
/// the next epoch.
#[verifier::spinoff_prover]
#[verifier::rlimit(50)]
pub proof fn law_calls_on_the_turn(
    a: &mut PlayerState,
    fa: &mut Vec<Effect>,
    joined: (),
    b: &mut PlayerState,
    fb: &mut Vec<Effect>,
    now: u64,
    armed: (),
    c: &mut PlayerState,
    fc: &mut Vec<Effect>,
    item: QueueItem,
    gate: StartGate,
    started: (),
)
    requires
        call_ensures(ensure_voice, (a, fa), joined),
        call_ensures(maybe_arm, (b, now, fb), armed),
        call_ensures(start_media, (c, item, gate, fc), started),
        !(item.source is Spotify),
        old(c).media_epoch < u64::MAX,
    ensures
        final(a)@ == (StateModel { voice: voice_wanted(old(a)@.voice), ..old(a)@ }),
        crate::player::model::effects(final(fa)@) =~= crate::player::model::effects(old(fa)@)
            + join_needed(old(a)@.voice),
        handed_over(Run::of(*old(b), old(fb)@), now, Run::of(*final(b), final(fb)@)),
        ({
            let epoch = (old(c)@.media_epoch + 1) as u64;
            let before = crate::player::model::effects(old(fc)@) + join_needed(old(c)@.voice);
            let after = crate::player::model::effects(final(fc)@);
            let n = before.len() as int;
            &&& final(c)@ == (StateModel {
                active: Active::Media { item, paused: false, epoch },
                media_epoch: epoch,
                last_heard_track: None,
                voice: voice_wanted(old(c)@.voice),
                ..old(c)@
            })
            &&& after.len() == n + 3
            &&& after.take(n) =~= before
            &&& after[n] == EffectModel::StartMedia { item, epoch, gate }
            &&& after[n + 1] == EffectModel::Ui(UiModel::NowPlayingMedia { item })
            &&& after[n + 2] matches EffectModel::RecordAired(row) && media_row(item, row)
        }),
{
    lemma_handed_over(Run::of(*old(b), old(fb)@), now);
    let before = crate::player::model::effects(old(fc)@) + join_needed(old(c)@.voice);
    let r = Run::of(*final(c), final(fc)@);
    assert(r == Run::of(*old(c), old(fc)@).start_media(item, gate));
    assert(r.fx.take(before.len() as int) =~= before);
}

/// The end of a media item and a report of the device have in the middle of a
/// step the effect they have at its start.
pub proof fn law_calls_at_a_boundary(
    a: &mut PlayerState,
    now: u64,
    fa: &mut Vec<Effect>,
    ended: (),
    b: &mut PlayerState,
    ev: TransportEvent,
    fb: &mut Vec<Effect>,
    reported: (),
)
    requires
        call_ensures(after_media_boundary, (a, now, fa), ended),
        call_ensures(handle_transport, (b, ev, now, fb), reported),
    ensures
        Run::of(*final(a), final(fa)@) == Run::of(*old(a), old(fa)@).after_media(now),
        Run::of(*final(b), final(fb)@) == Run::of(*old(b), old(fb)@).transport(ev, now),
        Run::start(old(b)@).input(Input::Transport { gen: old(b)@.link_gen, ev }, now)
            == Run::start(old(b)@).transport(ev, now),
{
    reveal(Run::input);
}

} // verus!
