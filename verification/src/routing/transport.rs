//! Bounded, authenticated requests between processes of this host. Each
//! connection has a fresh challenge; encrypted requests and replies are bound
//! to it and to their direction. Accepted actions outlive a disconnected
//! caller and retain their outcome.

use std::sync::Arc;
use vstd::prelude::*;

use crate::bytes::{copy_bytes, digest, fresh_uuid, join_bytes, parses_as_uuid, random_bytes, same_bytes};
use crate::routing::{Action, Reply, Request};
use crate::text::{same_text, shorten};

verus! {

/// The longest sealed message, in bytes.
pub const MAX_FRAME: usize = 65536;

/// A nonce and a tag: the shortest sealed message.
pub const MIN_FRAME: usize = 40;

/// How many requests are remembered.
pub const MAX_RECORDS: usize = 512;

/// How long a request is remembered, in milliseconds.
pub const RETAIN_MS: u64 = 900_000;

/// How long a request may wait before it is carried out, in milliseconds.
pub const REQUEST_LIFE_MS: u64 = 60_000;

/// Limit on each exchange with the peer, in seconds.
pub const IO_TIMEOUT_SECS: u64 = 5;

/// Limit on the end of a login, in seconds.
pub const ACTION_TIMEOUT_SECS: u64 = 660;

/// The longest text of a remembered reply, in characters.
pub const MAX_REPLY_CHARS: usize = 1900;

/// How many connections are served at once.
pub const MAX_CONNECTIONS: usize = 16;

/// What a message is bound to: its connection's challenge and its direction.
pub open spec fn bound_to(challenge: Seq<u8>, direction: u8) -> Seq<u8> {
    challenge.push(direction)
}

/// A frame is the nonce and what it seals.
pub open spec fn frame_holds(
    frame: Seq<u8>,
    key: Seq<u8>,
    challenge: Seq<u8>,
    direction: u8,
    body: Seq<u8>,
) -> bool {
    &&& frame.len() == body.len() + MIN_FRAME
    &&& crate::bytes::sealed(key, frame.take(24), body, bound_to(challenge, direction)) == Some(
        frame.skip(24),
    )
}

/// What a frame opens to on a connection, in a direction.
pub open spec fn frame_opens(
    frame: Seq<u8>,
    key: Seq<u8>,
    challenge: Seq<u8>,
    direction: u8,
) -> Option<Seq<u8>> {
    if MIN_FRAME <= frame.len() <= MAX_FRAME {
        crate::bytes::opened(
            key,
            frame.take(24),
            frame.skip(24),
            bound_to(challenge, direction),
        )
    } else {
        None
    }
}

fn binding(challenge: &[u8], direction: u8) -> (r: Vec<u8>)
    ensures
        r@ == bound_to(challenge@, direction),
{
    let mut aad = copy_bytes(challenge, 0, challenge.len());
    aad.push(direction);
    aad
}

/// Seal a message for a connection and a direction; `None` when it would be
/// too long.
pub fn seal(key: &[u8], challenge: &[u8], direction: u8, body: &[u8]) -> (r: Option<
    Vec<u8>,
>)
    requires
        key@.len() == 32,
    ensures
        match r {
            Some(frame) => frame@.len() <= MAX_FRAME && frame_holds(
                frame@,
                key@,
                challenge@,
                direction,
                body@,
            ) && frame_opens(frame@, key@, challenge@, direction) == Some(body@),
            None => body@.len() + MIN_FRAME > MAX_FRAME,
        },
{
    let nonce = random_bytes(24);
    seal_with(key, challenge, direction, body, nonce.as_slice())
}

/// Seal a message under a given nonce, which must be used for no other message
/// under this key.
pub fn seal_with(
    key: &[u8],
    challenge: &[u8],
    direction: u8,
    body: &[u8],
    nonce: &[u8],
) -> (r: Option<Vec<u8>>)
    requires
        key@.len() == 32,
        nonce@.len() == 24,
    ensures
        match r {
            Some(frame) => frame@.len() <= MAX_FRAME && frame@.take(24) == nonce@ && frame_holds(
                frame@,
                key@,
                challenge@,
                direction,
                body@,
            ) && frame_opens(frame@, key@, challenge@, direction) == Some(body@),
            None => body@.len() + MIN_FRAME > MAX_FRAME,
        },
{
    if body.len() > MAX_FRAME - MIN_FRAME {
        return None;
    }
    let aad = binding(challenge, direction);
    match crate::bytes::seal(key, nonce, body, aad.as_slice()) {
        Some(sealed) => {
            let frame = join_bytes(nonce, sealed.as_slice());
            proof {
                assert(frame@.take(24) =~= nonce@);
                assert(frame@.skip(24) =~= sealed@);
            }
            Some(frame)
        },
        None => None,
    }
}

/// Open a frame that came on a connection, in a direction.
pub fn unseal(key: &[u8], challenge: &[u8], direction: u8, frame: &[u8]) -> (r: Option<
    Vec<u8>,
>)
    requires
        key@.len() == 32,
    ensures
        frame_opens(frame@, key@, challenge@, direction) == (match r {
            Some(body) => Some(body@),
            None => None,
        }),
{
    if frame.len() < MIN_FRAME || frame.len() > MAX_FRAME {
        return None;
    }
    let aad = binding(challenge, direction);
    let nonce = copy_bytes(frame, 0, 24);
    let body = copy_bytes(frame, 24, frame.len());
    proof {
        assert(nonce@ =~= frame@.take(24));
        assert(body@ =~= frame@.skip(24));
    }
    crate::bytes::unseal(key, nonce.as_slice(), body.as_slice(), aad.as_slice())
}

/// Whether a frame of this announced length is read at all.
pub fn frame_length_ok(len: u32) -> (r: bool)
    ensures
        r == (MIN_FRAME <= len <= MAX_FRAME),
{
    MIN_FRAME as u32 <= len && len <= MAX_FRAME as u32
}

/// A new request, good for a minute.
pub fn request(guild: u64, user: u64, action: Action, now: u64) -> (r: Request)
    requires
        now + REQUEST_LIFE_MS <= u64::MAX,
    ensures
        crate::bytes::is_uuid(r.id@),
        r.expires == now + REQUEST_LIFE_MS,
        r.guild == guild,
        r.user == user,
        r.room is None,
        r.target is None,
        r.action == action,
{
    Request {
        id: fresh_uuid(),
        expires: now + REQUEST_LIFE_MS,
        guild,
        user,
        room: None,
        target: None,
        action,
    }
}

/// How long an action may take, in seconds.
pub fn action_limit(action: &Action) -> (r: u64)
    ensures
        r == (if action is FinishLogin {
            ACTION_TIMEOUT_SECS
        } else {
            60
        }),
{
    if matches!(action, Action::FinishLogin { .. }) {
        ACTION_TIMEOUT_SECS
    } else {
        60
    }
}

/// How long a caller waits for the reply, in seconds: the action's own limit
/// and one exchange more.
pub fn reply_wait(action: &Action) -> (r: u64)
    ensures
        r == (if action is FinishLogin {
            ACTION_TIMEOUT_SECS
        } else {
            60u64
        }) + IO_TIMEOUT_SECS,
{
    action_limit(action) + IO_TIMEOUT_SECS
}

/// What became of a remembered request.
pub enum Outcome {
    Running,
    Done(Arc<Reply>),
    /// Whatever carried it out is gone without a word.
    Lost,
}

/// A remembered request.
pub struct Record {
    pub id: String,
    pub fingerprint: Vec<u8>,
    pub user: u64,
    pub guild: u64,
    pub until: u64,
    pub outcome: Outcome,
}

/// What a remembered request is.
pub struct RecordModel {
    pub id: Seq<char>,
    pub fingerprint: Seq<u8>,
    pub user: u64,
    pub guild: u64,
    pub until: u64,
    pub outcome: Outcome,
}

impl View for Record {
    type V = RecordModel;

    open spec fn view(&self) -> RecordModel {
        RecordModel {
            id: self.id@,
            fingerprint: self.fingerprint@,
            user: self.user,
            guild: self.guild,
            until: self.until,
            outcome: self.outcome,
        }
    }
}

/// Why a request is not carried out.
#[derive(Clone, Copy, Debug, PartialEq, Eq, Structural)]
pub enum Refusal {
    Expired,
    Unavailable,
    Lost,
    Conflict,
    Full,
    TimedOut,
    Silent,
}

impl Refusal {
    /// What the caller is told.
    pub open spec fn text(self) -> Seq<char> {
        match self {
            Refusal::Expired => "This request expired. Open a fresh menu."@,
            Refusal::Unavailable =>
            "That request outcome is unavailable; check playback before retrying."@,
            Refusal::Lost => "Request outcome was lost. Check playback before retrying."@,
            Refusal::Conflict => "Request identity conflict."@,
            Refusal::Full => "Request history is full. Try again shortly."@,
            Refusal::TimedOut => "Request timed out; check playback before retrying."@,
            Refusal::Silent => "This bot is not responding."@,
        }
    }

    /// The reply that refuses.
    pub fn reply(self) -> (r: Reply)
        ensures
            r matches Reply::Error(text) && text@ == self.text(),
    {
        let text = match self {
            Refusal::Expired => "This request expired. Open a fresh menu.",
            Refusal::Unavailable =>
            "That request outcome is unavailable; check playback before retrying.",
            Refusal::Lost => "Request outcome was lost. Check playback before retrying.",
            Refusal::Conflict => "Request identity conflict.",
            Refusal::Full => "Request history is full. Try again shortly.",
            Refusal::TimedOut => "Request timed out; check playback before retrying.",
            Refusal::Silent => "This bot is not responding.",
        };
        Reply::Error(text.to_owned())
    }
}

/// What is to be done with a request.
pub enum Verdict {
    Refuse(Refusal),
    /// Asked for an outcome that is not there yet.
    Pending,
    /// Answer with what was remembered.
    Recorded(Arc<Reply>),
    /// Ask for the status now; nothing is remembered.
    Status,
    /// Carry it out; it is remembered as running.
    Execute,
    /// It is being carried out: wait for that.
    Wait,
}

/// The position of the record of this id, or the number of records.
pub open spec fn record_index(records: Seq<RecordModel>, id: Seq<char>) -> int
    decreases records.len(),
{
    if records.len() == 0 || records[0].id == id {
        0
    } else {
        1 + record_index(records.drop_first(), id)
    }
}

/// The records still kept at `now`.
pub open spec fn kept(records: Seq<RecordModel>, now: u64) -> Seq<RecordModel>
    decreases records.len(),
{
    if records.len() == 0 {
        records
    } else if records.last().until > now {
        kept(records.drop_last(), now).push(records.last())
    } else {
        kept(records.drop_last(), now)
    }
}

/// No id is remembered twice.
pub open spec fn distinct_ids(records: Seq<RecordModel>) -> bool {
    forall|i: int, j: int|
        0 <= i < j < records.len() ==> (#[trigger] records[i]).id != (#[trigger] records[j]).id
}

/// A request that may be looked at: named users and guilds, a proper id, and
/// neither expired nor made out for longer than requests live.
pub open spec fn current(request: Request, known_id: bool, now: u64) -> bool {
    &&& request.user != 0
    &&& request.guild != 0
    &&& known_id
    &&& now <= request.expires <= now + REQUEST_LIFE_MS
}

/// How an outcome is told.
pub open spec fn told(outcome: Outcome) -> Verdict {
    match outcome {
        Outcome::Running => Verdict::Pending,
        Outcome::Done(reply) => Verdict::Recorded(reply),
        Outcome::Lost => Verdict::Refuse(Refusal::Lost),
    }
}

/// How a repeated request is answered.
pub open spec fn repeated(outcome: Outcome) -> Verdict {
    match outcome {
        Outcome::Running => Verdict::Wait,
        Outcome::Done(reply) => Verdict::Recorded(reply),
        Outcome::Lost => Verdict::Refuse(Refusal::Lost),
    }
}

/// What is asked of the journal: its records after a request, and the verdict.
pub open spec fn admitted(
    records: Seq<RecordModel>,
    request: Request,
    known_id: bool,
    fingerprint: Seq<u8>,
    now: u64,
) -> (Seq<RecordModel>, Verdict) {
    if !current(request, known_id, now) {
        (records, Verdict::Refuse(Refusal::Expired))
    } else {
        match request.action {
            Action::Outcome { request: id } => {
                let i = record_index(records, id@);
                if i < records.len() && records[i].user == request.user && records[i].guild
                    == request.guild && records[i].until > now {
                    (records, told(records[i].outcome))
                } else {
                    (records, Verdict::Refuse(Refusal::Unavailable))
                }
            },
            Action::Status => (records, Verdict::Status),
            _ => {
                let fresh = kept(records, now);
                let i = record_index(fresh, request.id@);
                if i < fresh.len() {
                    if fresh[i].fingerprint == fingerprint {
                        (fresh, repeated(fresh[i].outcome))
                    } else {
                        (fresh, Verdict::Refuse(Refusal::Conflict))
                    }
                } else if fresh.len() >= MAX_RECORDS {
                    (fresh, Verdict::Refuse(Refusal::Full))
                } else {
                    (
                        fresh.push(
                            RecordModel {
                                id: request.id@,
                                fingerprint,
                                user: request.user,
                                guild: request.guild,
                                until: (now + RETAIN_MS) as u64,
                                outcome: Outcome::Running,
                            },
                        ),
                        Verdict::Execute,
                    )
                }
            },
        }
    }
}

proof fn lemma_record_index(records: Seq<RecordModel>, id: Seq<char>, k: int)
    requires
        0 <= k <= records.len(),
        forall|j: int| 0 <= j < k ==> (#[trigger] records[j]).id != id,
        k < records.len() ==> records[k].id == id,
    ensures
        record_index(records, id) == k,
    decreases k,
{
    if k > 0 {
        let rest = records.drop_first();
        assert forall|j: int| 0 <= j < k - 1 implies (#[trigger] rest[j]).id != id by {
            assert(rest[j] == records[j + 1]);
        }
        if k < records.len() {
            assert(rest[k - 1] == records[k]);
        }
        assert(records[0].id != id);
        lemma_record_index(rest, id, k - 1);
    }
}

/// Where a record stands: none before it has its id.
pub proof fn lemma_record_index_bounds(records: Seq<RecordModel>, id: Seq<char>)
    ensures
        0 <= record_index(records, id) <= records.len(),
        record_index(records, id) < records.len() ==> records[record_index(records, id)].id == id,
        forall|j: int| 0 <= j < record_index(records, id) ==> (#[trigger] records[j]).id != id,
    decreases records.len(),
{
    if records.len() > 0 && records[0].id != id {
        let rest = records.drop_first();
        lemma_record_index_bounds(rest, id);
        assert forall|j: int| 0 <= j < record_index(records, id) implies (
        #[trigger] records[j]).id != id by {
            if j > 0 {
                assert(rest[j - 1] == records[j]);
            }
        }
    }
}

/// Keeping only the fresh records keeps their order, and so their ids apart.
#[verifier::spinoff_prover]
#[verifier::rlimit(60)]
pub proof fn lemma_kept(records: Seq<RecordModel>, now: u64)
    ensures
        kept(records, now).len() <= records.len(),
        forall|i: int|
            0 <= i < kept(records, now).len() ==> (#[trigger] kept(records, now)[i]).until > now
                && exists|k: int|
                i <= k < records.len() && #[trigger] records[k] == kept(records, now)[i],
        forall|k: int|
            0 <= k < records.len() && (#[trigger] records[k]).until > now ==> exists|i: int|
                0 <= i < kept(records, now).len() && #[trigger] kept(records, now)[i]
                    == records[k],
        distinct_ids(records) ==> distinct_ids(kept(records, now)),
    decreases records.len(),
{
    if records.len() > 0 {
        let rest = records.drop_last();
        lemma_kept(rest, now);
        let all = kept(records, now);
        let few = kept(rest, now);
        assert forall|i: int| 0 <= i < all.len() implies (#[trigger] all[i]).until > now
            && exists|k: int| i <= k < records.len() && #[trigger] records[k] == all[i] by {
            if i < few.len() {
                assert(all[i] == few[i]);
                let k = choose|k: int| i <= k < rest.len() && #[trigger] rest[k] == few[i];
                assert(records[k] == all[i]);
            } else {
                assert(all[i] == records.last());
                assert(records[records.len() - 1] == all[i]);
            }
        }
        assert forall|k: int|
            0 <= k < records.len() && (#[trigger] records[k]).until > now implies exists|i: int|
            0 <= i < all.len() && #[trigger] all[i] == records[k] by {
            if k < rest.len() {
                assert(rest[k] == records[k]);
                let i = choose|i: int| 0 <= i < few.len() && #[trigger] few[i] == rest[k];
                assert(all[i] == records[k]);
            } else {
                assert(all[few.len() as int] == records[k]);
            }
        }
        if distinct_ids(records) {
            assert forall|i: int, j: int| 0 <= i < j < rest.len() implies (
            #[trigger] rest[i]).id != (#[trigger] rest[j]).id by {
                assert(rest[i] == records[i] && rest[j] == records[j]);
            }
            assert forall|i: int, j: int| 0 <= i < j < all.len() implies (#[trigger] all[i]).id
                != (#[trigger] all[j]).id by {
                assert(all[i] == few[i]);
                if j < few.len() {
                    assert(all[j] == few[j]);
                } else {
                    let k = choose|k: int| i <= k < rest.len() && #[trigger] rest[k] == few[i];
                    assert(records[k] == few[i]);
                    assert(all[j] == records[records.len() - 1]);
                }
            }
        }
    }
}

/// `std::sync::Arc::clone`: another pointer to the same reply.
#[verifier::external_body]
fn share(reply: &Arc<Reply>) -> (r: Arc<Reply>)
    ensures
        r == *reply,
{
    reply.clone()
}

/// A reply as it is remembered: long texts are cut.
pub open spec fn is_cut(reply: Reply, cut: Reply) -> bool {
    match reply {
        Reply::Text(text) => cut matches Reply::Text(t) && t@ == crate::text::at_most(
            text@,
            MAX_REPLY_CHARS as int,
        ),
        Reply::Error(text) => cut matches Reply::Error(t) && t@ == crate::text::at_most(
            text@,
            MAX_REPLY_CHARS as int,
        ),
        _ => cut == reply,
    }
}

/// A reply as it is remembered.
pub fn cut_reply(reply: Reply) -> (r: Reply)
    ensures
        is_cut(reply, r),
{
    match reply {
        Reply::Text(text) => Reply::Text(shorten(text, MAX_REPLY_CHARS)),
        Reply::Error(text) => Reply::Error(shorten(text, MAX_REPLY_CHARS)),
        reply => reply,
    }
}

/// The requests of the last quarter of an hour and what became of them, so
/// that a request is carried out once however often it is sent.
pub struct Journal {
    records: Vec<Record>,
}

impl View for Journal {
    type V = Seq<RecordModel>;

    closed spec fn view(&self) -> Seq<RecordModel> {
        self.records@.map_values(|r: Record| r@)
    }
}

impl Journal {
    pub open spec fn wf(&self) -> bool {
        self@.len() <= MAX_RECORDS && distinct_ids(self@)
    }

    pub fn new() -> (r: Self)
        ensures
            r.wf(),
            r@ == Seq::<RecordModel>::empty(),
    {
        let r = Journal { records: Vec::new() };
        assert(r@ =~= Seq::empty());
        r
    }

    fn find(&self, id: &str) -> (r: usize)
        ensures
            r == record_index(self@, id@),
            r <= self.records@.len(),
    {
        let mut i: usize = 0;
        while i < self.records.len()
            invariant
                i <= self.records@.len(),
                forall|j: int| 0 <= j < i ==> (#[trigger] self@[j]).id != id@,
            decreases self.records@.len() - i,
        {
            assert(self@[i as int] == self.records@[i as int]@);
            if same_text(self.records[i].id.as_str(), id) {
                proof {
                    lemma_record_index(self@, id@, i as int);
                }
                return i;
            }
            i += 1;
        }
        proof {
            lemma_record_index(self@, id@, i as int);
        }
        i
    }

    /// Forget what is too old.
    fn retain(&mut self, now: u64)
        ensures
            final(self)@ == kept(old(self)@, now),
    {
        let ghost all = self@;
        let mut rest: Vec<Record> = Vec::new();
        std::mem::swap(&mut rest, &mut self.records);
        let mut out: Vec<Record> = Vec::new();
        let ghost done: int = 0;
        proof {
            assert(rest@.map_values(|r: Record| r@) =~= all.skip(0));
            assert(out@.map_values(|r: Record| r@) =~= kept(all.take(0), now));
        }
        while rest.len() > 0
            invariant
                0 <= done <= all.len(),
                rest@.map_values(|r: Record| r@) == all.skip(done),
                out@.map_values(|r: Record| r@) == kept(all.take(done), now),
            decreases rest@.len(),
        {
            proof {
                assert(rest@.map_values(|r: Record| r@).len() == rest@.len());
                assert(rest@.map_values(|r: Record| r@)[0] == rest@[0]@);
                assert(all.skip(done)[0] == all[done]);
                assert(all.take(done + 1).drop_last() =~= all.take(done));
                assert(all.take(done + 1).last() == all[done]);
                assert(rest@.remove(0).map_values(|r: Record| r@) =~= rest@.map_values(
                    |r: Record| r@,
                ).drop_first());
                assert(all.skip(done).drop_first() =~= all.skip(done + 1));
            }
            let record = rest.remove(0);
            if record.until > now {
                let ghost before = out@;
                out.push(record);
                assert(out@.map_values(|r: Record| r@) =~= before.map_values(
                    |r: Record| r@,
                ).push(record@));
            }
            proof {
                done = done + 1;
            }
        }
        proof {
            assert(rest@.map_values(|r: Record| r@).len() == 0);
            assert(all.take(done) =~= all);
        }
        self.records = out;
    }

    fn outcome_at(&self, i: usize) -> (r: Outcome)
        requires
            i < self@.len(),
        ensures
            r == self@[i as int].outcome,
    {
        assert(self@[i as int] == self.records@[i as int]@);
        match &self.records[i].outcome {
            Outcome::Running => Outcome::Running,
            Outcome::Done(reply) => Outcome::Done(share(reply)),
            Outcome::Lost => Outcome::Lost,
        }
    }

    /// A request has come; `body` is its serialized form.
    pub fn run(&mut self, request: &Request, body: &[u8], now: u64) -> (r: Verdict)
        requires
            old(self).wf(),
            now + RETAIN_MS <= u64::MAX,
        ensures
            final(self).wf(),
            (final(self)@, r) == admitted(
                old(self)@,
                *request,
                crate::bytes::is_uuid(request.id@),
                crate::bytes::digested(body@),
                now,
            ),
    {
        let known_id = parses_as_uuid(request.id.as_str());
        let fingerprint = digest(body);
        self.take_in(request, known_id, fingerprint, now)
    }

    /// A request has come, whose id is one or not, and whose body has this
    /// fingerprint.
    pub fn take_in(
        &mut self,
        request: &Request,
        known_id: bool,
        fingerprint: Vec<u8>,
        now: u64,
    ) -> (r: Verdict)
        requires
            old(self).wf(),
            now + RETAIN_MS <= u64::MAX,
        ensures
            final(self).wf(),
            (final(self)@, r) == admitted(old(self)@, *request, known_id, fingerprint@, now),
    {
        if request.user == 0 || request.guild == 0 || !known_id || request.expires < now
            || request.expires > now + REQUEST_LIFE_MS {
            return Verdict::Refuse(Refusal::Expired);
        }
        match &request.action {
            Action::Outcome { request: id } => {
                let i = self.find(id.as_str());
                if i < self.records.len() {
                    assert(self@[i as int] == self.records@[i as int]@);
                    if self.records[i].user == request.user && self.records[i].guild
                        == request.guild && self.records[i].until > now {
                        return match self.outcome_at(i) {
                            Outcome::Running => Verdict::Pending,
                            Outcome::Done(reply) => Verdict::Recorded(reply),
                            Outcome::Lost => Verdict::Refuse(Refusal::Lost),
                        };
                    }
                }
                Verdict::Refuse(Refusal::Unavailable)
            },
            Action::Status => Verdict::Status,
            _ => {
                proof {
                    lemma_kept(self@, now);
                }
                self.retain(now);
                let i = self.find(request.id.as_str());
                proof {
                    lemma_record_index_bounds(self@, request.id@);
                }
                if i < self.records.len() {
                    assert(self@[i as int] == self.records@[i as int]@);
                    if !same_bytes(self.records[i].fingerprint.as_slice(), fingerprint.as_slice()) {
                        return Verdict::Refuse(Refusal::Conflict);
                    }
                    return match self.outcome_at(i) {
                        Outcome::Running => Verdict::Wait,
                        Outcome::Done(reply) => Verdict::Recorded(reply),
                        Outcome::Lost => Verdict::Refuse(Refusal::Lost),
                    };
                }
                if self.records.len() >= MAX_RECORDS {
                    return Verdict::Refuse(Refusal::Full);
                }
                let ghost before = self@;
                let record = Record {
                    id: request.id.clone(),
                    fingerprint,
                    user: request.user,
                    guild: request.guild,
                    until: now + RETAIN_MS,
                    outcome: Outcome::Running,
                };
                self.records.push(record);
                assert(self@ =~= before.push(record@));
                Verdict::Execute
            },
        }
    }

    /// A request has been carried out; the reply as it is remembered.
    pub fn finish(&mut self, id: &str, reply: Reply) -> (r: Arc<Reply>)
        requires
            old(self).wf(),
        ensures
            final(self).wf(),
            is_cut(reply, *r),
            final(self)@ == finished(old(self)@, id@, Outcome::Done(r)),
    {
        let reply = Arc::new(cut_reply(reply));
        self.settle(id, Outcome::Done(share(&reply)));
        reply
    }

    /// Whatever carried a request out is gone.
    pub fn lose(&mut self, id: &str)
        requires
            old(self).wf(),
        ensures
            final(self).wf(),
            final(self)@ == finished(old(self)@, id@, Outcome::Lost),
    {
        self.settle(id, Outcome::Lost);
    }

    fn settle(&mut self, id: &str, outcome: Outcome)
        requires
            old(self).wf(),
        ensures
            final(self).wf(),
            final(self)@ == finished(old(self)@, id@, outcome),
    {
        let i = self.find(id);
        proof {
            lemma_record_index_bounds(self@, id@);
        }
        if i < self.records.len() {
            let ghost before = self.records@;
            assert(self@[i as int] == before[i as int]@);
            let mut record = self.records.remove(i);
            record.outcome = outcome;
            self.records.insert(i, record);
            proof {
                assert(self@ =~= old(self)@.update(
                    i as int,
                    RecordModel { outcome, ..old(self)@[i as int] },
                ));
            }
        }
    }
}

/// The records once the request of this id has come to an end.
pub open spec fn finished(records: Seq<RecordModel>, id: Seq<char>, outcome: Outcome) -> Seq<
    RecordModel,
> {
    let i = record_index(records, id);
    if i < records.len() {
        records.update(i, RecordModel { outcome, ..records[i] })
    } else {
        records
    }
}

/// A request is carried out once: after it has been accepted, sending it again
/// while it is remembered waits for that one execution, before and after the
/// execution has come to an end, and another request under the same id is
/// refused.
pub proof fn law_request_runs_once(
    records: Seq<RecordModel>,
    request: Request,
    fingerprint: Seq<u8>,
    now: u64,
    again: Request,
    other: Seq<u8>,
    later: u64,
    outcome: Outcome,
)
    requires
        admitted(records, request, true, fingerprint, now).1 is Execute,
        now + RETAIN_MS <= u64::MAX,
        later < now + RETAIN_MS,
        again.id@ == request.id@,
        !(again.action is Outcome) && !(again.action is Status),
        current(again, true, later),
    ensures
        ({
            let after = admitted(records, request, true, fingerprint, now).0;
            &&& (!(admitted(after, again, true, other, later).1 is Execute))
            &&& other != fingerprint ==> admitted(after, again, true, other, later).1
                == Verdict::Refuse(Refusal::Conflict)
            &&& other == fingerprint ==> admitted(after, again, true, other, later).1
                == Verdict::Wait
            &&& other == fingerprint ==> admitted(
                finished(after, request.id@, outcome),
                again,
                true,
                other,
                later,
            ).1 == repeated(outcome)
        }),
{
    let fresh = kept(records, now);
    let after = admitted(records, request, true, fingerprint, now).0;
    lemma_record_index_bounds(fresh, request.id@);
    assert(after.drop_last() =~= fresh);
    let n = fresh.len() as int;
    lemma_record_index(after, request.id@, n);
    lemma_kept(fresh, later);
    let late = kept(after, later);
    assert(late =~= kept(fresh, later).push(after.last()));
    assert forall|j: int| 0 <= j < kept(fresh, later).len() implies (#[trigger] late[j]).id
        != request.id@ by {
        assert(late[j] == kept(fresh, later)[j]);
        let k = choose|k: int| j <= k < fresh.len() && #[trigger] fresh[k] == kept(fresh, later)[j];
        assert(fresh[k].id != request.id@);
    }
    lemma_record_index(late, request.id@, kept(fresh, later).len() as int);
    let done = finished(after, request.id@, outcome);
    assert(done.drop_last() =~= fresh);
    let late_done = kept(done, later);
    assert(late_done =~= kept(fresh, later).push(done.last()));
    assert forall|j: int| 0 <= j < kept(fresh, later).len() implies (#[trigger] late_done[j]).id
        != request.id@ by {
        assert(late_done[j] == late[j]);
    }
    lemma_record_index(late_done, request.id@, kept(fresh, later).len() as int);
}

/// A remembered request never runs again: whatever else the journal holds, a
/// second sending is answered from the record, or refused when it says
/// something else.
pub proof fn law_remembered_request_never_runs_again(
    records: Seq<RecordModel>,
    i: int,
    again: Request,
    fingerprint: Seq<u8>,
    now: u64,
)
    requires
        distinct_ids(records),
        0 <= i < records.len(),
        records[i].until > now,
        records[i].id == again.id@,
        !(again.action is Outcome) && !(again.action is Status),
        current(again, true, now),
    ensures
        admitted(records, again, true, fingerprint, now).1 == (if records[i].fingerprint
            == fingerprint {
            repeated(records[i].outcome)
        } else {
            Verdict::Refuse(Refusal::Conflict)
        }),
{
    let fresh = kept(records, now);
    lemma_kept(records, now);
    let k = choose|k: int| 0 <= k < fresh.len() && #[trigger] fresh[k] == records[i];
    lemma_record_index(fresh, again.id@, k);
}

/// Until its time is up a record stays what it is, whatever request comes and
/// whatever other execution ends; the end of its own execution changes its
/// outcome and nothing else.
pub proof fn law_records_are_kept(
    records: Seq<RecordModel>,
    i: int,
    request: Request,
    known_id: bool,
    fingerprint: Seq<u8>,
    now: u64,
    id: Seq<char>,
    outcome: Outcome,
)
    requires
        distinct_ids(records),
        0 <= i < records.len(),
        records[i].until > now,
    ensures
        admitted(records, request, known_id, fingerprint, now).0.contains(records[i]),
        finished(records, id, outcome).len() == records.len(),
        finished(records, id, outcome)[i] == (if records[i].id == id {
            RecordModel { outcome, ..records[i] }
        } else {
            records[i]
        }),
{
    lemma_kept(records, now);
    let after = admitted(records, request, known_id, fingerprint, now).0;
    let fresh = kept(records, now);
    let k = choose|k: int| 0 <= k < fresh.len() && #[trigger] fresh[k] == records[i];
    if after == records {
        assert(after[i] == records[i]);
    } else {
        assert(after[k] == records[i]);
    }
    lemma_record_index_bounds(records, id);
    if records[i].id == id {
        lemma_record_index(records, id, i);
    }
}

/// An outcome is told only to the user, in the guild, that asked for the
/// action.
pub proof fn law_outcomes_are_private(
    records: Seq<RecordModel>,
    query: Request,
    id: String,
    known_id: bool,
    fingerprint: Seq<u8>,
    now: u64,
)
    requires
        query.action == (Action::Outcome { request: id }),
        record_index(records, id@) < records.len(),
        records[record_index(records, id@)].user != query.user
            || records[record_index(records, id@)].guild != query.guild,
    ensures
        admitted(records, query, known_id, fingerprint, now).1 is Refuse,
        admitted(records, query, known_id, fingerprint, now).0 == records,
{
}

/// A fresh request is never turned away as expired while it lives.
pub proof fn law_fresh_requests_are_current(request: Request, made: u64, now: u64)
    requires
        crate::bytes::is_uuid(request.id@),
        request.user != 0,
        request.guild != 0,
        request.expires == made + REQUEST_LIFE_MS,
        made <= now <= made + REQUEST_LIFE_MS,
    ensures
        current(request, crate::bytes::is_uuid(request.id@), now),
{
}

/// What is sealed for a connection and a direction opens there again, and up to
/// 65,496 bytes can be; a frame is forty bytes longer than its message.
pub proof fn law_sealed_frames_open_again(
    key: &[u8],
    challenge: &[u8],
    direction: u8,
    body: &[u8],
    sealed: Option<Vec<u8>>,
    frame: &[u8],
    opened: Option<Vec<u8>>,
)
    requires
        key@.len() == 32,
        call_ensures(seal, (key, challenge, direction, body), sealed),
        call_ensures(unseal, (key, challenge, direction, frame), opened),
        sealed matches Some(bytes) ==> bytes@ == frame@,
    ensures
        sealed is Some <==> body@.len() + 40 <= 65_536,
        sealed is Some ==> frame@.len() == body@.len() + 40 && (opened matches Some(plain) && plain@
            == body@),
{
}

/// No two connections or directions bind a message alike.
pub proof fn law_bindings_differ(a: Seq<u8>, from: u8, b: Seq<u8>, to: u8)
    ensures
        bound_to(a, from) == bound_to(b, to) ==> a == b && from == to,
        bound_to(a, from).len() == a.len() + 1,
{
    if bound_to(a, from) == bound_to(b, to) {
        assert(bound_to(a, from).last() == from);
        assert(bound_to(b, to).last() == to);
        assert(bound_to(a, from).drop_last() =~= a);
        assert(bound_to(b, to).drop_last() =~= b);
    }
}

/// Frames from forty bytes to sixty-four kibibytes are read, and opened, and no
/// others.
pub proof fn law_frames_are_bounded(
    len: u32,
    ok: bool,
    frame: Seq<u8>,
    key: Seq<u8>,
    challenge: Seq<u8>,
    direction: u8,
)
    requires
        call_ensures(frame_length_ok, (len,), ok),
    ensures
        ok <==> 40 <= len <= 64 * 1024,
        frame.len() < 40 || frame.len() > 64 * 1024 ==> frame_opens(
            frame,
            key,
            challenge,
            direction,
        ) is None,
{
}

/// A new request is the caller's own, goes to nobody in particular, and is good
/// for a minute. An action may take a minute too, a login eleven, and its
/// caller waits five seconds more.
pub proof fn law_requests_live_a_minute(
    guild: u64,
    user: u64,
    action: Action,
    now: u64,
    r: Request,
    limit: u64,
    wait: u64,
)
    requires
        now + 60_000 <= u64::MAX,
        call_ensures(request, (guild, user, action, now), r),
        call_ensures(action_limit, (&action,), limit),
        call_ensures(reply_wait, (&action,), wait),
    ensures
        r.guild == guild && r.user == user && r.action == action,
        r.room is None && r.target is None,
        r.expires == now + 60_000,
        action is FinishLogin ==> limit == 11 * 60,
        !(action is FinishLogin) ==> limit == 60,
        wait == limit + 5,
{
}

/// What the journal still remembers at some time is what is kept beyond it, in
/// order.
pub proof fn law_old_records_are_forgotten(records: Seq<RecordModel>, now: u64)
    ensures
        kept(records, now) == records.filter(|r: RecordModel| r.until > now),
    decreases records.len(),
{
    reveal(Seq::filter);
    if records.len() > 0 {
        law_old_records_are_forgotten(records.drop_last(), now);
    }
}

/// A request without a user, a guild or a proper id, one that has expired and
/// one made out for more than a minute are refused, and nothing changes. The
/// status is asked for anew every time.
pub proof fn law_bad_requests_are_refused(
    records: Seq<RecordModel>,
    request: Request,
    known_id: bool,
    fingerprint: Seq<u8>,
    now: u64,
)
    ensures
        ({
            let r = admitted(records, request, known_id, fingerprint, now);
            let good = request.user != 0 && request.guild != 0 && known_id && now
                <= request.expires && request.expires <= now + 60_000;
            &&& !good ==> r == (records, Verdict::Refuse(Refusal::Expired))
            &&& good && request.action is Status ==> r == (records, Verdict::Status)
            &&& good ==> r.1 != Verdict::Refuse(Refusal::Expired)
        }),
{
}

/// A new request is carried out, and remembered as running for a quarter of an
/// hour, behind the others; but not while 512 are remembered.
pub proof fn law_new_requests_are_carried_out(
    records: Seq<RecordModel>,
    request: Request,
    fingerprint: Seq<u8>,
    now: u64,
)
    requires
        request.user != 0,
        request.guild != 0,
        now <= request.expires <= now + 60_000,
        !(request.action is Status),
        !(request.action is Outcome),
        now + 900_000 <= u64::MAX,
        forall|i: int|
            0 <= i < records.len() && (#[trigger] records[i]).until > now ==> records[i].id
                != request.id@,
    ensures
        ({
            let (after, verdict) = admitted(records, request, true, fingerprint, now);
            let live = records.filter(|r: RecordModel| r.until > now);
            &&& live.len() >= 512 ==> verdict == Verdict::Refuse(Refusal::Full) && after == live
            &&& live.len() < 512 ==> verdict is Execute && after == live.push(
                RecordModel {
                    id: request.id@,
                    fingerprint,
                    user: request.user,
                    guild: request.guild,
                    until: (now + 900_000) as u64,
                    outcome: Outcome::Running,
                },
            )
        }),
{
    law_old_records_are_forgotten(records, now);
    lemma_kept(records, now);
    let fresh = kept(records, now);
    lemma_record_index_bounds(fresh, request.id@);
    let i = record_index(fresh, request.id@);
    if i < fresh.len() {
        let k = choose|k: int| i <= k < records.len() && #[trigger] records[k] == fresh[i];
        assert(records[k].until > now);
    }
}

/// A request that is sent again is answered from its record: it is waited for
/// while it runs, and then gets the same reply, or hears that it was lost;
/// under another body it is refused. Whoever made it may ask what became of it
/// and is told the same, without waiting.
pub proof fn law_remembered_requests_are_answered(
    records: Seq<RecordModel>,
    i: int,
    request: Request,
    fingerprint: Seq<u8>,
    now: u64,
)
    requires
        distinct_ids(records),
        0 <= i < records.len(),
        records[i].until > now,
        request.user != 0,
        request.guild != 0,
        now <= request.expires <= now + 60_000,
    ensures
        ({
            let verdict = admitted(records, request, true, fingerprint, now).1;
            let again = request.id@ == records[i].id && !(request.action is Status) && !(
            request.action is Outcome);
            let asked = request.action matches Action::Outcome { request: id } && id@
                == records[i].id;
            let own = request.user == records[i].user && request.guild == records[i].guild;
            &&& again && fingerprint != records[i].fingerprint ==> verdict == Verdict::Refuse(
                Refusal::Conflict,
            )
            &&& again && fingerprint == records[i].fingerprint ==> match records[i].outcome {
                Outcome::Running => verdict is Wait,
                Outcome::Done(reply) => verdict == Verdict::Recorded(reply),
                Outcome::Lost => verdict == Verdict::Refuse(Refusal::Lost),
            }
            &&& asked && own ==> match records[i].outcome {
                Outcome::Running => verdict is Pending,
                Outcome::Done(reply) => verdict == Verdict::Recorded(reply),
                Outcome::Lost => verdict == Verdict::Refuse(Refusal::Lost),
            }
            &&& asked && !own ==> verdict == Verdict::Refuse(Refusal::Unavailable)
            &&& asked ==> admitted(records, request, true, fingerprint, now).0 == records
        }),
{
    let again = request.id@ == records[i].id && !(request.action is Status) && !(
    request.action is Outcome);
    if again {
        law_remembered_request_never_runs_again(records, i, request, fingerprint, now);
    }
    if let Action::Outcome { request: id } = request.action {
        if id@ == records[i].id {
            lemma_record_index(records, id@, i);
        }
    }
}

/// A reply is remembered with its first 1,900 characters, and otherwise as it
/// is.
pub proof fn law_replies_are_remembered_cut(reply: Reply, r: Reply)
    requires
        call_ensures(cut_reply, (reply,), r),
    ensures
        match reply {
            Reply::Text(text) => r matches Reply::Text(t) && t@ == text@.take(
                if text@.len() < 1900 {
                    text@.len() as int
                } else {
                    1900
                },
            ),
            Reply::Error(text) => r matches Reply::Error(t) && t@ == text@.take(
                if text@.len() < 1900 {
                    text@.len() as int
                } else {
                    1900
                },
            ),
            _ => r == reply,
        },
{
    match reply {
        Reply::Text(text) => crate::text::law_shortening_keeps_the_start(text@, 1900),
        Reply::Error(text) => crate::text::law_shortening_keeps_the_start(text@, 1900),
        _ => {},
    }
}

/// Every refusal is an error reply in its own words.
pub proof fn law_refusals_are_told(refusal: Refusal, r: Reply)
    requires
        call_ensures(Refusal::reply, (refusal,), r),
    ensures
        r is Error,
        refusal is Expired ==> r->Error_0@ == "This request expired. Open a fresh menu."@,
        refusal is Unavailable ==> r->Error_0@
            == "That request outcome is unavailable; check playback before retrying."@,
        refusal is Lost ==> r->Error_0@
            == "Request outcome was lost. Check playback before retrying."@,
        refusal is Conflict ==> r->Error_0@ == "Request identity conflict."@,
        refusal is Full ==> r->Error_0@ == "Request history is full. Try again shortly."@,
        refusal is TimedOut ==> r->Error_0@ == "Request timed out; check playback before retrying."@,
        refusal is Silent ==> r->Error_0@ == "This bot is not responding."@,
{
}

/// A request that comes is admitted by its own id and the fingerprint of its
/// body. The end of one that runs is written down: its reply, cut, or that it
/// was lost. Only the record of that id changes, and only its outcome.
pub proof fn law_calls_on_the_journal(
    new: Journal,
    a: &mut Journal,
    request: &Request,
    body: &[u8],
    now: u64,
    ran: Verdict,
    b: &mut Journal,
    known_id: bool,
    fingerprint: Vec<u8>,
    taken: Verdict,
    c: &mut Journal,
    id: &str,
    reply: Reply,
    finished: Arc<Reply>,
    d: &mut Journal,
    lost: (),
    i: int,
)
    requires
        call_ensures(Journal::new, (), new),
        call_ensures(Journal::run, (a, request, body, now), ran),
        call_ensures(Journal::take_in, (b, request, known_id, fingerprint, now), taken),
        call_ensures(Journal::finish, (c, id, reply), finished),
        call_ensures(Journal::lose, (d, id), lost),
    ensures
        new@.len() == 0,
        (final(a)@, ran) == admitted(
            old(a)@,
            *request,
            crate::bytes::is_uuid(request.id@),
            crate::bytes::digested(body@),
            now,
        ),
        (final(b)@, taken) == admitted(old(b)@, *request, known_id, fingerprint@, now),
        is_cut(reply, *finished),
        final(c)@.len() == old(c)@.len() && final(d)@.len() == old(d)@.len(),
        0 <= i < old(c)@.len() && old(c)@[i].id != id@ ==> final(c)@[i] == old(c)@[i],
        0 <= i < old(c)@.len() && old(c)@[i].id == id@ && (forall|j: int|
            0 <= j < i ==> (#[trigger] old(c)@[j]).id != id@) ==> final(c)@[i] == (RecordModel {
            outcome: Outcome::Done(finished),
            ..old(c)@[i]
        }),
        0 <= i < old(d)@.len() && old(d)@[i].id != id@ ==> final(d)@[i] == old(d)@[i],
        0 <= i < old(d)@.len() && old(d)@[i].id == id@ && (forall|j: int|
            0 <= j < i ==> (#[trigger] old(d)@[j]).id != id@) ==> final(d)@[i] == (RecordModel {
            outcome: Outcome::Lost,
            ..old(d)@[i]
        }),
{
    lemma_record_index_bounds(old(c)@, id@);
    lemma_record_index_bounds(old(d)@, id@);
    if 0 <= i < old(c)@.len() && old(c)@[i].id == id@ && (forall|j: int|
        0 <= j < i ==> (#[trigger] old(c)@[j]).id != id@) {
        lemma_record_index(old(c)@, id@, i);
    }
    if 0 <= i < old(d)@.len() && old(d)@[i].id == id@ && (forall|j: int|
        0 <= j < i ==> (#[trigger] old(d)@[j]).id != id@) {
        lemma_record_index(old(d)@, id@, i);
    }
}

/// A frame is twenty-four bytes of nonce and what they seal, for its own
/// connection and direction; every frame of a length that may be is opened.
pub proof fn law_frames_are_a_nonce_and_a_seal(
    frame: Seq<u8>,
    key: Seq<u8>,
    challenge: Seq<u8>,
    direction: u8,
    body: Seq<u8>,
)
    ensures
        40 <= frame.len() <= 64 * 1024 ==> frame_opens(frame, key, challenge, direction)
            == crate::bytes::opened(
            key,
            frame.take(24),
            frame.skip(24),
            challenge.push(direction),
        ),
        frame_holds(frame, key, challenge, direction, body) <==> frame.len() == body.len() + 40
            && crate::bytes::sealed(key, frame.take(24), body, challenge.push(direction)) == Some(
            frame.skip(24),
        ),
{
}

/// Whoever asks what became of a request is told only while it is remembered:
/// of one whose time is up, and of one that never was, nothing is known.
pub proof fn law_outcomes_are_told_while_remembered(
    records: Seq<RecordModel>,
    query: Request,
    id: String,
    fingerprint: Seq<u8>,
    now: u64,
    i: int,
)
    requires
        query.action == (Action::Outcome { request: id }),
        query.user != 0,
        query.guild != 0,
        now <= query.expires <= now + 60_000,
    ensures
        ({
            let r = admitted(records, query, true, fingerprint, now);
            let first = 0 <= i < records.len() && records[i].id == id@ && forall|j: int|
                0 <= j < i ==> (#[trigger] records[j]).id != id@;
            &&& r.0 == records
            &&& first && records[i].until <= now ==> r.1 == Verdict::Refuse(Refusal::Unavailable)
            &&& (forall|j: int| 0 <= j < records.len() ==> (#[trigger] records[j]).id != id@)
                ==> r.1 == Verdict::Refuse(Refusal::Unavailable)
            &&& first && records[i].until > now && records[i].user == query.user
                && records[i].guild == query.guild ==> {
                &&& records[i].outcome is Running ==> r.1 is Pending
                &&& records[i].outcome is Lost ==> r.1 == Verdict::Refuse(Refusal::Lost)
                &&& records[i].outcome matches Outcome::Done(reply) ==> r.1 == Verdict::Recorded(
                    reply,
                )
            }
        }),
{
    lemma_record_index_bounds(records, id@);
    if 0 <= i < records.len() && records[i].id == id@ && (forall|j: int|
        0 <= j < i ==> (#[trigger] records[j]).id != id@) {
        lemma_record_index(records, id@, i);
    }
    if forall|j: int| 0 <= j < records.len() ==> (#[trigger] records[j]).id != id@ {
        lemma_record_index(records, id@, records.len() as int);
    }
}

} // verus!
