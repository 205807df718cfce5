//! The Spotify session's own lifecycle, kept apart from playback.
//!
//! A session is started by a login, at boot, or on demand; it is stopped by
//! its owner's logout, an account switch, or an exhausted restart budget.
//! Nothing here knows whether anything is audible, and nothing here can reach
//! the queue or a playing item: the only thing it tells the player core is
//! that a link, tagged with its generation, came up, is reconnecting, or went
//! down.
//!
//! An account switch is deliberate, not a transient blip: the previous
//! session's device queue dies with it, so a switch never reports the session
//! it replaces as down, which would invite a restore of one account's state
//! onto another.

use vstd::prelude::*;

use crate::player::state::Input;
use crate::text::{cat, parse_u64};
use crate::users::UserCredentials;

verus! {

/// Refresh the access token this many seconds before it expires.
pub const TOKEN_REFRESH_MARGIN_SECS: u64 = 300;

/// Floor on the refresh wait, so that a short-lived token cannot spin.
pub const TOKEN_REFRESH_MIN_WAIT_SECS: u64 = 30;

/// Wait after a failed refresh.
pub const TOKEN_REFRESH_RETRY_SECS: u64 = 30;

/// Give up after this many consecutive fast failures.
pub const MAX_SESSION_RESTARTS: u32 = 10;

/// Lifetime of a token that names none.
pub const DEFAULT_TOKEN_LIFETIME_SECS: u64 = 3600;

/// A session that ran at least this long, in nanoseconds, resets the restart
/// budget.
pub const MIN_STABLE_SESSION: u64 = 60_000_000_000;

/// Wait between restarts, in seconds.
pub const SESSION_RESTART_DELAY_SECS: u64 = 2;

/// How long a shut-down device is given to say goodbye, in milliseconds.
pub const GOODBYE_MS: u64 = 400;

/// How long a caller waits for a session to come up, in seconds.
pub const ENSURE_WAIT_SECS: u64 = 15;

/// A token's lifetime, in seconds.
pub fn token_lifetime(expires_in: u64) -> (r: u64)
    ensures
        r == (if expires_in == 0 {
            DEFAULT_TOKEN_LIFETIME_SECS
        } else {
            expires_in
        }),
{
    if expires_in == 0 {
        DEFAULT_TOKEN_LIFETIME_SECS
    } else {
        expires_in
    }
}

/// How long to wait before refreshing a token of this lifetime, in seconds.
pub fn refresh_wait(lifetime: u64) -> (r: u64)
    ensures
        r == (if lifetime >= TOKEN_REFRESH_MARGIN_SECS + TOKEN_REFRESH_MIN_WAIT_SECS {
            lifetime - TOKEN_REFRESH_MARGIN_SECS
        } else {
            TOKEN_REFRESH_MIN_WAIT_SECS as int
        }),
{
    if lifetime >= TOKEN_REFRESH_MARGIN_SECS + TOKEN_REFRESH_MIN_WAIT_SECS {
        lifetime - TOKEN_REFRESH_MARGIN_SECS
    } else {
        TOKEN_REFRESH_MIN_WAIT_SECS
    }
}

/// What a token refresh gave.
#[derive(Debug)]
pub struct Refreshed {
    pub access_token: String,
    /// `None` keeps the refresh token in force.
    pub refresh_token: Option<String>,
    pub expires_in: u64,
}

/// The tokens of one session; the refresher is the only one that writes them.
pub struct TokenState {
    pub access_token: String,
    pub refresh_token: String,
    pub lifetime: u64,
}

impl TokenState {
    pub fn new(access_token: String, refresh_token: String, expires_in: u64) -> (r: Self)
        ensures
            r.access_token == access_token,
            r.refresh_token == refresh_token,
            r.lifetime == (if expires_in == 0 {
                DEFAULT_TOKEN_LIFETIME_SECS
            } else {
                expires_in
            }),
    {
        TokenState { access_token, refresh_token, lifetime: token_lifetime(expires_in) }
    }

    /// `after` is what a refresh leaves of these tokens.
    pub open spec fn rotates(self, outcome: Option<Refreshed>, after: TokenState) -> bool {
        match outcome {
            Some(t) => {
                &&& after.access_token == t.access_token
                &&& after.refresh_token == (match t.refresh_token {
                    Some(new) => new,
                    None => self.refresh_token,
                })
                &&& after.lifetime == (if t.expires_in == 0 {
                    DEFAULT_TOKEN_LIFETIME_SECS
                } else {
                    t.expires_in
                })
            },
            None => {
                &&& after.access_token == self.access_token
                &&& after.refresh_token == self.refresh_token
                &&& after.lifetime == TOKEN_REFRESH_RETRY_SECS + TOKEN_REFRESH_MARGIN_SECS
            },
        }
    }

    /// A refresh has been tried. A failure keeps the tokens and waits out the
    /// retry window.
    pub fn refreshed(&mut self, outcome: Option<Refreshed>)
        ensures
            old(self).rotates(outcome, *final(self)),
    {
        match outcome {
            Some(t) => {
                self.access_token = t.access_token;
                if let Some(new) = t.refresh_token {
                    self.refresh_token = new;
                }
                self.lifetime = token_lifetime(t.expires_in);
            },
            None => {
                self.lifetime = TOKEN_REFRESH_RETRY_SECS + TOKEN_REFRESH_MARGIN_SECS;
            },
        }
    }

    /// How long to wait before the next refresh, in seconds.
    pub fn wait(&self) -> (r: u64)
        ensures
            r == (if self.lifetime >= TOKEN_REFRESH_MARGIN_SECS + TOKEN_REFRESH_MIN_WAIT_SECS {
                self.lifetime - TOKEN_REFRESH_MARGIN_SECS
            } else {
                TOKEN_REFRESH_MIN_WAIT_SECS as int
            }),
    {
        refresh_wait(self.lifetime)
    }
}

/// The live session, as the supervisor books it.
#[derive(Clone, Copy, Debug, PartialEq, Eq, Structural)]
pub struct LiveSession {
    pub discord_user_id: u64,
    pub generation: u64,
}

/// What the player core is told of a link.
#[derive(Clone, Copy, Debug, PartialEq, Eq, Structural)]
pub enum LinkReport {
    Up { generation: u64 },
    Reconnecting { generation: u64 },
    Down { generation: u64 },
}

impl LinkReport {
    /// The report as an input of the player core.
    pub fn input(self) -> (r: Input)
        ensures
            r == (match self {
                LinkReport::Up { generation } => Input::LinkUp { gen: generation },
                LinkReport::Reconnecting { generation } => Input::LinkReconnecting {
                    gen: generation,
                },
                LinkReport::Down { generation } => Input::LinkDown { gen: generation },
            }),
    {
        match self {
            LinkReport::Up { generation } => Input::LinkUp { gen: generation },
            LinkReport::Reconnecting { generation } => Input::LinkReconnecting { gen: generation },
            LinkReport::Down { generation } => Input::LinkDown { gen: generation },
        }
    }
}

/// What has to be done, in order.
#[derive(Clone, Copy, Debug, PartialEq, Eq, Structural)]
pub enum SessionAction {
    /// Tell the device to shut down and let it say goodbye: a bare abort
    /// leaves it listed in Spotify clients until they time it out.
    SayGoodbye,
    /// Abort a session's tasks.
    Abort { generation: u64 },
    /// Publish the command channel of a new session, and start its tasks.
    Start { generation: u64 },
    /// Take the command channel back.
    Retract,
    /// Publish which generation is up.
    Watch(Option<u64>),
    /// Tell the player core.
    Tell(LinkReport),
    /// Have the token refreshed before the next attempt.
    RefreshNow,
    /// Run the session again after this many seconds.
    RetryAfter(u64),
}

/// Owns the session's lifecycle.
#[derive(Debug)]
pub struct SessionSupervisor {
    /// The generation the next session gets.
    pub next_generation: u64,
    pub live: Option<LiveSession>,
    /// A command channel is published.
    pub published: bool,
    /// The generation that is up.
    pub link_up: Option<u64>,
}

impl SessionSupervisor {
    pub fn new() -> (r: Self)
        ensures
            r.next_generation == 0,
            r.live is None,
            !r.published,
            r.link_up is None,
    {
        SessionSupervisor { next_generation: 0, live: None, published: false, link_up: None }
    }

    /// What ends the session being replaced.
    pub open spec fn ending(&self) -> Seq<SessionAction> {
        match self.live {
            Some(s) => (if self.published {
                seq![SessionAction::SayGoodbye]
            } else {
                seq![]
            }) + seq![SessionAction::Abort { generation: s.generation }],
            None => seq![],
        }
    }

    /// The generation currently up, `None` while down.
    pub fn link_up_watch(&self) -> (r: Option<u64>)
        ensures
            r == self.link_up,
    {
        self.link_up
    }

    /// What a switch does, in order.
    pub open spec fn switching(&self) -> Seq<SessionAction> {
        self.ending().push(SessionAction::Start { generation: self.next_generation })
    }

    /// The supervisor after a switch to this user.
    pub open spec fn switched(&self, discord_user_id: u64) -> SessionSupervisor {
        SessionSupervisor {
            next_generation: self.next_generation.wrapping_add(1),
            live: Some(LiveSession { discord_user_id, generation: self.next_generation }),
            published: true,
            link_up: self.link_up,
        }
    }

    /// Point the live session at this user: ends the previous session and
    /// starts one of a new generation.
    pub fn switch(&mut self, discord_user_id: u64) -> (r: Vec<SessionAction>)
        ensures
            r@ == old(self).switching(),
            *final(self) == old(self).switched(discord_user_id),
    {
        let generation = self.next_generation;
        let mut actions: Vec<SessionAction> = Vec::new();
        if let Some(s) = self.live {
            if self.published {
                actions.push(SessionAction::SayGoodbye);
            }
            actions.push(SessionAction::Abort { generation: s.generation });
        }
        assert(actions@ =~= self.ending());
        actions.push(SessionAction::Start { generation });
        self.next_generation = generation.wrapping_add(1);
        self.live = Some(LiveSession { discord_user_id, generation });
        self.published = true;
        actions
    }

    /// What is done, in order, when a session's task has started.
    pub open spec fn starting(&self, generation: u64) -> Seq<SessionAction> {
        seq![
            SessionAction::Watch(Some(generation)),
            SessionAction::Tell(LinkReport::Up { generation }),
        ]
    }

    /// The supervisor after a session's task has started.
    pub open spec fn up(&self, generation: u64) -> SessionSupervisor {
        SessionSupervisor { link_up: Some(generation), ..*self }
    }

    /// A session's task has started.
    pub fn started(&mut self, generation: u64) -> (r: Vec<SessionAction>)
        ensures
            r@ == old(self).starting(generation),
            *final(self) == old(self).up(generation),
    {
        self.link_up = Some(generation);
        let mut actions: Vec<SessionAction> = Vec::new();
        actions.push(SessionAction::Watch(Some(generation)));
        actions.push(SessionAction::Tell(LinkReport::Up { generation }));
        assert(actions@ =~= seq![
            SessionAction::Watch(Some(generation)),
            SessionAction::Tell(LinkReport::Up { generation }),
        ]);
        actions
    }

    /// What is done, in order, when a session has used up its restarts.
    pub open spec fn giving_up(&self, generation: u64) -> Seq<SessionAction> {
        if self.owns(generation) {
            seq![
                SessionAction::Abort { generation },
                SessionAction::Retract,
                SessionAction::Watch(None),
                SessionAction::Tell(LinkReport::Down { generation }),
            ]
        } else {
            seq![]
        }
    }

    /// The supervisor after a session has used up its restarts.
    pub open spec fn given_up(&self, generation: u64) -> SessionSupervisor {
        if self.owns(generation) {
            SessionSupervisor { live: None, published: false, link_up: None, ..*self }
        } else {
            *self
        }
    }

    /// A session has used up its restarts. Only the live session has anything
    /// to give up: one that a newer switch or a stop has ended is no longer
    /// reported, and what is published belongs to another.
    pub fn gave_up(&mut self, generation: u64) -> (r: Vec<SessionAction>)
        ensures
            r@ == old(self).giving_up(generation),
            *final(self) == old(self).given_up(generation),
            !old(self).owns(generation) ==> r@.len() == 0 && *final(self) == *old(self),
    {
        let mut actions: Vec<SessionAction> = Vec::new();
        let owned = match self.live {
            Some(s) => s.generation == generation,
            None => false,
        };
        if owned {
            actions.push(SessionAction::Abort { generation });
            actions.push(SessionAction::Retract);
            actions.push(SessionAction::Watch(None));
            actions.push(SessionAction::Tell(LinkReport::Down { generation }));
            self.live = None;
            self.published = false;
            self.link_up = None;
        }
        assert(actions@ =~= old(self).giving_up(generation));
        actions
    }

    /// The live session is of this generation.
    pub open spec fn owns(&self, generation: u64) -> bool {
        self.live matches Some(s) && s.generation == generation
    }

    /// What a stop by this user does, in order.
    pub open spec fn stopping(&self, owner: u64) -> Seq<SessionAction> {
        match self.live {
            Some(s) => if s.discord_user_id == owner {
                self.ending() + seq![
                    SessionAction::Watch(None),
                    SessionAction::Tell(LinkReport::Down { generation: s.generation }),
                ]
            } else {
                seq![]
            },
            None => seq![],
        }
    }

    /// The supervisor after a stop by this user.
    pub open spec fn stopped(&self, owner: u64) -> SessionSupervisor {
        match self.live {
            Some(s) => if s.discord_user_id == owner {
                SessionSupervisor {
                    next_generation: self.next_generation,
                    live: None,
                    published: false,
                    link_up: None,
                }
            } else {
                *self
            },
            None => *self,
        }
    }

    /// Stop the live session, but only for its owner: a bystander's logout
    /// must not touch someone else's session.
    pub fn stop(&mut self, owner: u64) -> (r: Vec<SessionAction>)
        ensures
            r@ == old(self).stopping(owner),
            *final(self) == old(self).stopped(owner),
    {
        let mut actions: Vec<SessionAction> = Vec::new();
        if let Some(s) = self.live {
            if s.discord_user_id == owner {
                if self.published {
                    actions.push(SessionAction::SayGoodbye);
                }
                actions.push(SessionAction::Abort { generation: s.generation });
                assert(actions@ =~= self.ending());
                actions.push(SessionAction::Watch(None));
                actions.push(SessionAction::Tell(LinkReport::Down { generation: s.generation }));
                assert(actions@ =~= self.ending() + seq![
                    SessionAction::Watch(None),
                    SessionAction::Tell(LinkReport::Down { generation: s.generation }),
                ]);
                self.live = None;
                self.published = false;
                self.link_up = None;
            }
        }
        actions
    }
}

/// The restart budget of one generation's task.
#[derive(Debug)]
pub struct SessionTask {
    pub generation: u64,
    pub restarts: u32,
}

impl SessionTask {
    pub fn new(generation: u64) -> (r: Self)
        ensures
            r.generation == generation,
            r.restarts == 0,
    {
        SessionTask { generation, restarts: 0 }
    }

    /// Consecutive fast failures, after a run that lived this long.
    pub open spec fn failures(&self, lived: u64) -> int {
        if lived >= MIN_STABLE_SESSION {
            0
        } else {
            self.restarts + 1
        }
    }

    /// What is done, in order, after a run that lived this long; nothing when
    /// the task gives up.
    pub open spec fn restarting(&self, lived: u64) -> Seq<SessionAction> {
        if self.failures(lived) >= MAX_SESSION_RESTARTS {
            seq![]
        } else {
            seq![
                SessionAction::Tell(LinkReport::Reconnecting { generation: self.generation }),
                SessionAction::RefreshNow,
                SessionAction::RetryAfter(SESSION_RESTART_DELAY_SECS),
            ]
        }
    }

    /// A run of the session has ended after `lived` nanoseconds. Nothing to do
    /// means the task gives up.
    pub fn run_ended(&mut self, lived: u64) -> (r: Vec<SessionAction>)
        requires
            old(self).restarts < MAX_SESSION_RESTARTS,
        ensures
            final(self).generation == old(self).generation,
            final(self).restarts == old(self).failures(lived),
            r@ == old(self).restarting(lived),
    {
        let mut actions: Vec<SessionAction> = Vec::new();
        if lived >= MIN_STABLE_SESSION {
            self.restarts = 0;
        } else {
            self.restarts += 1;
        }
        if self.restarts >= MAX_SESSION_RESTARTS {
            return actions;
        }
        let generation = self.generation;
        actions.push(SessionAction::Tell(LinkReport::Reconnecting { generation }));
        actions.push(SessionAction::RefreshNow);
        actions.push(SessionAction::RetryAfter(SESSION_RESTART_DELAY_SECS));
        assert(actions@ =~= seq![
            SessionAction::Tell(LinkReport::Reconnecting { generation }),
            SessionAction::RefreshNow,
            SessionAction::RetryAfter(SESSION_RESTART_DELAY_SECS),
        ]);
        actions
    }
}

/// Outcome of a request for a live session.
#[derive(Debug)]
pub enum EnsureOutcome {
    /// A live session is up, at this generation.
    Ready(u64),
    /// No stored user is marked active; there is nothing to start.
    NoAccount,
    /// A stored account exists but no live session could be brought up. The
    /// text is for the log only.
    Failed(String),
}

/// What is still to be done for a request for a live session.
pub enum EnsureStep {
    Done(EnsureOutcome),
    /// Refresh this user's token.
    Refresh { user: UserCredentials, discord_user_id: u64 },
}

/// `i` is the first user marked active.
pub open spec fn first_active(users: Seq<UserCredentials>, i: int) -> bool {
    &&& 0 <= i < users.len()
    &&& users[i].active
    &&& forall|j: int| 0 <= j < i ==> !(#[trigger] users[j]).active
}

/// `r` is how a request for a session begins.
pub open spec fn ensures_session(
    link_up: Option<u64>,
    users: Seq<UserCredentials>,
    r: EnsureStep,
) -> bool {
    match link_up {
        Some(generation) => r == EnsureStep::Done(EnsureOutcome::Ready(generation)),
        None => {
            &&& (r == EnsureStep::Done(EnsureOutcome::NoAccount) <==> forall|j: int|
                0 <= j < users.len() ==> !(#[trigger] users[j]).active)
            &&& forall|i: int| #[trigger]
                first_active(users, i) ==> match crate::text::parsed_u64(
                    users[i].discord_user_id@,
                ) {
                    Some(id) => r == (EnsureStep::Refresh { user: users[i], discord_user_id: id }),
                    None => r matches EnsureStep::Done(EnsureOutcome::Failed(text)) && text@
                        == "unparseable stored discord user id: "@ + users[i].discord_user_id@,
                }
        },
    }
}

/// Begin to bring a session up: nothing to do when the link is up; otherwise
/// the first active user's account is the one to start.
#[verifier::loop_isolation(false)]
pub fn ensure_session(link_up: Option<u64>, users: Vec<UserCredentials>) -> (r: EnsureStep)
    ensures
        ensures_session(link_up, users@, r),
{
    if let Some(generation) = link_up {
        return EnsureStep::Done(EnsureOutcome::Ready(generation));
    }
    let mut users = users;
    let ghost all = users@;
    let mut i: usize = 0;
    while i < users.len()
        invariant
            users@ == all,
            i <= all.len(),
            forall|j: int| 0 <= j < i ==> !(#[trigger] all[j]).active,
        decreases all.len() - i,
    {
        if users[i].active {
            assert(first_active(all, i as int));
            assert forall|k: int| #[trigger] first_active(all, k) implies k == i by {
                if k < i {
                    assert(!all[k].active);
                } else if k > i {
                    assert(!all[i as int].active);
                }
            }
            let user = users.remove(i);
            return match parse_u64(user.discord_user_id.as_str()) {
                Some(id) => EnsureStep::Refresh { user, discord_user_id: id },
                None => EnsureStep::Done(
                    EnsureOutcome::Failed(
                        cat(
                            "unparseable stored discord user id: ",
                            user.discord_user_id.as_str(),
                        ),
                    ),
                ),
            };
        }
        i += 1;
    }
    EnsureStep::Done(EnsureOutcome::NoAccount)
}

/// The credentials to store and start a session with, once the refresh has
/// been tried; a failure means they are stale or revoked.
pub fn ensure_refreshed(user: UserCredentials, outcome: Result<Refreshed, String>) -> (r: Result<
    (UserCredentials, u64),
    EnsureOutcome,
>)
    ensures
        match outcome {
            Ok(t) => r matches Ok(p) && p.1 == t.expires_in && p.0 == (UserCredentials {
                access_token: t.access_token,
                refresh_token: match t.refresh_token {
                    Some(new) => new,
                    None => user.refresh_token,
                },
                ..user
            }),
            Err(e) => r matches Err(EnsureOutcome::Failed(text)) && text@
                == "token refresh failed: "@ + e@,
        },
{
    match outcome {
        Ok(t) => Ok((user.rotated(t.access_token, t.refresh_token), t.expires_in)),
        Err(e) => Err(EnsureOutcome::Failed(cat("token refresh failed: ", e.as_str()))),
    }
}

/// What a caller who waits for the link has seen.
#[derive(Clone, Copy, Debug, PartialEq, Eq, Structural)]
pub enum LinkWait {
    /// The published generation, with time left.
    Sees(Option<u64>),
    TimedOut,
    Closed,
}

/// The end of the wait for a link, or `None` to wait on.
pub fn ensure_waited(seen: LinkWait) -> (r: Option<EnsureOutcome>)
    ensures
        match seen {
            LinkWait::Sees(Some(generation)) => r == Some(EnsureOutcome::Ready(generation)),
            LinkWait::Sees(None) => r is None,
            LinkWait::TimedOut => r matches Some(EnsureOutcome::Failed(text)) && text@
                == "timed out waiting for the Spotify session to connect"@,
            LinkWait::Closed => r matches Some(EnsureOutcome::Failed(text)) && text@
                == "session link watch closed"@,
        },
{
    match seen {
        LinkWait::Sees(Some(generation)) => Some(EnsureOutcome::Ready(generation)),
        LinkWait::Sees(None) => None,
        LinkWait::TimedOut => Some(
            EnsureOutcome::Failed(
                "timed out waiting for the Spotify session to connect".to_owned(),
            ),
        ),
        LinkWait::Closed => Some(EnsureOutcome::Failed("session link watch closed".to_owned())),
    }
}

/// Whether the player core is told that a link went down.
pub open spec fn tells_down(actions: Seq<SessionAction>) -> bool {
    exists|i: int|
        0 <= i < actions.len() && (#[trigger] actions[i] matches SessionAction::Tell(
            LinkReport::Down { .. },
        ))
}

/// A switch never reports the session it replaces as down, says goodbye
/// before it aborts, and starts exactly one session.
pub proof fn law_switch_is_no_link_down(s: SessionSupervisor)
    ensures
        ({
            let actions = s.switching();
            &&& !tells_down(actions)
            &&& s.live is Some && s.published ==> actions[0] is SayGoodbye && actions[1] is Abort
            &&& forall|i: int|
                0 <= i < actions.len() - 1 ==> !(#[trigger] actions[i] is Start)
        }),
{
}

impl SessionSupervisor {
    /// Every generation given out is below the next one.
    pub open spec fn wf(&self) -> bool {
        self.live matches Some(l) ==> l.generation < self.next_generation
    }

    /// The supervisor after switches to these users, in order.
    pub open spec fn switched_to(self, users: Seq<u64>) -> SessionSupervisor
        decreases users.len(),
    {
        if users.len() == 0 {
            self
        } else {
            self.switched_to(users.drop_last()).switched(users.last())
        }
    }
}

proof fn lemma_switched_to(s: SessionSupervisor, users: Seq<u64>)
    requires
        s.next_generation + users.len() <= u64::MAX,
    ensures
        s.switched_to(users).next_generation == s.next_generation + users.len(),
        users.len() > 0 ==> s.switched_to(users).live == Some(
            LiveSession {
                discord_user_id: users.last(),
                generation: (s.next_generation + users.len() - 1) as u64,
            },
        ) && s.switched_to(users).published,
        s.switched_to(users).link_up == s.link_up,
    decreases users.len(),
{
    if users.len() > 0 {
        lemma_switched_to(s, users.drop_last());
    }
}

/// However often accounts are switched, each switch starts a generation above
/// all before it, which is then the live one with its commands published, and
/// ends the one it replaces.
pub proof fn law_each_switch_is_a_new_generation(s: SessionSupervisor, users: Seq<u64>, user: u64)
    requires
        s.wf(),
        s.next_generation + users.len() < u64::MAX,
    ensures
        ({
            let before = s.switched_to(users);
            let after = before.switched(user);
            &&& before.wf() && after.wf()
            &&& after == s.switched_to(users.push(user))
            &&& before.switching().last() == (SessionAction::Start {
                generation: before.next_generation,
            })
            &&& before.next_generation == s.next_generation + users.len()
            &&& before.live matches Some(l) ==> l.generation < before.next_generation
                && before.switching().contains(SessionAction::Abort { generation: l.generation })
            &&& after.live == Some(
                LiveSession { discord_user_id: user, generation: before.next_generation },
            )
            &&& after.published
            &&& !tells_down(before.switching())
        }),
{
    lemma_switched_to(s, users);
    assert(users.push(user).drop_last() =~= users);
    let before = s.switched_to(users);
    law_switch_is_no_link_down(before);
    if before.live is Some {
        let n = before.ending().len();
        assert(before.switching()[n - 1] == (SessionAction::Abort {
            generation: before.live->0.generation,
        }));
    }
}

/// A session that a switch replaced is never reported down: when its task
/// gives up after any number of further switches, nothing is done and nothing
/// changes.
pub proof fn law_replaced_session_is_never_reported_down(
    s: SessionSupervisor,
    users: Seq<u64>,
    generation: u64,
)
    requires
        s.wf(),
        s.next_generation + users.len() <= u64::MAX,
        users.len() > 0,
        generation < s.next_generation + users.len() - 1,
    ensures
        ({
            let after = s.switched_to(users);
            &&& after.giving_up(generation).len() == 0
            &&& after.given_up(generation) == after
        }),
{
    lemma_switched_to(s, users);
}

/// Refresh waits never spin: at least half a minute passes between attempts,
/// and a failed refresh is retried after exactly that.
pub proof fn law_refresh_never_spins(lifetime: u64, wait: int)
    requires
        wait == (if lifetime >= TOKEN_REFRESH_MARGIN_SECS + TOKEN_REFRESH_MIN_WAIT_SECS {
            lifetime - TOKEN_REFRESH_MARGIN_SECS
        } else {
            TOKEN_REFRESH_MIN_WAIT_SECS as int
        }),
    ensures
        wait >= TOKEN_REFRESH_MIN_WAIT_SECS,
        lifetime == TOKEN_REFRESH_RETRY_SECS + TOKEN_REFRESH_MARGIN_SECS ==> wait
            == TOKEN_REFRESH_RETRY_SECS,
{
}

/// The consecutive fast failures after runs that lived these long.
pub open spec fn failures_after(lives: Seq<u64>) -> nat
    decreases lives.len(),
{
    if lives.len() == 0 || lives.last() >= MIN_STABLE_SESSION {
        0
    } else {
        failures_after(lives.drop_last()) + 1
    }
}

proof fn lemma_failures_after(lives: Seq<u64>)
    ensures
        failures_after(lives) <= lives.len(),
        forall|i: int|
            lives.len() - failures_after(lives) <= i < lives.len() ==> #[trigger] lives[i]
                < MIN_STABLE_SESSION,
        failures_after(lives) < lives.len() ==> lives[lives.len() - failures_after(lives) - 1]
            >= MIN_STABLE_SESSION,
    decreases lives.len(),
{
    if lives.len() > 0 && lives.last() < MIN_STABLE_SESSION {
        let rest = lives.drop_last();
        lemma_failures_after(rest);
        assert forall|i: int|
            lives.len() - failures_after(lives) <= i < lives.len() implies #[trigger] lives[i]
            < MIN_STABLE_SESSION by {
            if i < rest.len() {
                assert(lives[i] == rest[i]);
            }
        }
    }
}

/// Only consecutive fast failures count toward giving up: a session's task
/// gives up when its last ten runs were all cut short, and at no other time,
/// however many failed before a run that lasted.
pub proof fn law_only_fast_failures_count(task: SessionTask, lives: Seq<u64>, lived: u64)
    requires
        task.restarts == failures_after(lives),
    ensures
        task.failures(lived) == failures_after(lives.push(lived)),
        task.failures(lived) >= MAX_SESSION_RESTARTS <==> {
            let all = lives.push(lived);
            &&& all.len() >= MAX_SESSION_RESTARTS
            &&& forall|i: int|
                all.len() - MAX_SESSION_RESTARTS <= i < all.len() ==> #[trigger] all[i]
                    < MIN_STABLE_SESSION
        },
{
    let all = lives.push(lived);
    assert(all.drop_last() =~= lives);
    lemma_failures_after(all);
    let n = failures_after(all);
    if n < MAX_SESSION_RESTARTS && all.len() >= MAX_SESSION_RESTARTS {
        assert(all[all.len() - n - 1] >= MIN_STABLE_SESSION);
    }
}

/// A token that names no lifetime is good for an hour. It is refreshed five
/// minutes before it expires, but never sooner than after half a minute.
pub proof fn law_tokens_are_refreshed_in_time(
    expires_in: u64,
    access_token: String,
    refresh_token: String,
    state: TokenState,
    lifetime: u64,
    wait: u64,
)
    requires
        call_ensures(TokenState::new, (access_token, refresh_token, expires_in), state),
        call_ensures(token_lifetime, (expires_in,), lifetime),
        call_ensures(TokenState::wait, (&state,), wait),
    ensures
        state.access_token == access_token,
        state.refresh_token == refresh_token,
        state.lifetime == lifetime,
        lifetime == (if expires_in == 0 {
            3600
        } else {
            expires_in as int
        }),
        wait == (if lifetime >= 330 {
            lifetime - 300
        } else {
            30
        }),
        forall|r: u64| #[trigger] call_ensures(refresh_wait, (lifetime,), r) ==> r == wait,
{
}

/// A refresh brings its tokens, and keeps the refresh token where it brings
/// none; a failed one keeps both tokens and is tried again after half a
/// minute.
pub proof fn law_a_refresh_replaces_the_tokens(
    before: TokenState,
    outcome: Option<Refreshed>,
    after: TokenState,
    wait: u64,
)
    requires
        before.rotates(outcome, after),
        call_ensures(TokenState::wait, (&after,), wait),
    ensures
        outcome matches Some(t) ==> {
            &&& after.access_token == t.access_token
            &&& t.refresh_token matches Some(new) ==> after.refresh_token == new
            &&& t.refresh_token is None ==> after.refresh_token == before.refresh_token
            &&& t.expires_in == 0 ==> after.lifetime == 3600
            &&& t.expires_in > 0 ==> after.lifetime == t.expires_in
        },
        outcome is None ==> {
            &&& after.access_token == before.access_token
            &&& after.refresh_token == before.refresh_token
            &&& wait == 30
        },
{
}

/// The player core is told of a link what happened to it, under its own
/// generation.
pub proof fn law_link_reports_keep_their_meaning(generation: u64, report: LinkReport, input: Input)
    requires
        call_ensures(LinkReport::input, (report,), input),
    ensures
        report == (LinkReport::Up { generation }) <==> input == (Input::LinkUp { gen: generation }),
        report == (LinkReport::Reconnecting { generation }) <==> input == (
        Input::LinkReconnecting { gen: generation }),
        report == (LinkReport::Down { generation }) <==> input == (Input::LinkDown {
            gen: generation,
        }),
{
}

/// Nothing is live at first. A switch says goodbye on behalf of a session
/// whose commands are published, aborts it and starts the next generation;
/// the new session is the user's own, and the link it replaced stays
/// published until the new one is up.
pub proof fn law_a_switch_replaces_the_session(
    new: SessionSupervisor,
    s: SessionSupervisor,
    user: u64,
)
    requires
        call_ensures(SessionSupervisor::new, (), new),
    ensures
        new.next_generation == 0 && new.live is None && !new.published && new.link_up is None,
        s.live is None ==> s.switching() =~= seq![
            SessionAction::Start { generation: s.next_generation },
        ],
        s.live matches Some(l) ==> s.published ==> s.switching() =~= seq![
            SessionAction::SayGoodbye,
            SessionAction::Abort { generation: l.generation },
            SessionAction::Start { generation: s.next_generation },
        ],
        s.live matches Some(l) ==> !s.published ==> s.switching() =~= seq![
            SessionAction::Abort { generation: l.generation },
            SessionAction::Start { generation: s.next_generation },
        ],
        ({
            let after = s.switched(user);
            &&& after.live == Some(
                LiveSession { discord_user_id: user, generation: s.next_generation },
            )
            &&& after.published
            &&& after.link_up == s.link_up
            &&& s.next_generation < u64::MAX ==> after.next_generation == s.next_generation + 1
            &&& s.next_generation == u64::MAX ==> after.next_generation == 0
        }),
        forall|r: Option<u64>| #[trigger]
            call_ensures(SessionSupervisor::link_up_watch, (&s,), r) ==> r == s.link_up,
{
}

/// A session that starts is published as the one that is up, and the player
/// core is told; nothing else changes.
pub proof fn law_a_started_session_is_up(s: SessionSupervisor, generation: u64)
    ensures
        s.starting(generation) =~= seq![
            SessionAction::Watch(Some(generation)),
            SessionAction::Tell(LinkReport::Up { generation }),
        ],
        s.up(generation).link_up == Some(generation),
        s.up(generation).live == s.live,
        s.up(generation).published == s.published,
        s.up(generation).next_generation == s.next_generation,
{
}

/// The live session ends for its owner and when its own task gives up, and
/// for nobody else: then nothing is live, published or up, and the player
/// core is told which link went down. Generations go on where they were.
pub proof fn law_a_session_ends_for_its_owner(
    s: SessionSupervisor,
    owner: u64,
    generation: u64,
)
    ensures
        s.live matches Some(l) ==> {
            &&& owner == l.discord_user_id && s.published ==> s.stopping(owner) =~= seq![
                SessionAction::SayGoodbye,
                SessionAction::Abort { generation: l.generation },
                SessionAction::Watch(None),
                SessionAction::Tell(LinkReport::Down { generation: l.generation }),
            ]
            &&& owner == l.discord_user_id && !s.published ==> s.stopping(owner) =~= seq![
                SessionAction::Abort { generation: l.generation },
                SessionAction::Watch(None),
                SessionAction::Tell(LinkReport::Down { generation: l.generation }),
            ]
            &&& owner == l.discord_user_id ==> {
                &&& s.stopped(owner).live is None
                &&& !s.stopped(owner).published
                &&& s.stopped(owner).link_up is None
                &&& s.stopped(owner).next_generation == s.next_generation
            }
            &&& owner != l.discord_user_id ==> s.stopping(owner).len() == 0 && s.stopped(owner)
                == s
            &&& generation == l.generation ==> {
                &&& s.giving_up(generation) =~= seq![
                    SessionAction::Abort { generation },
                    SessionAction::Retract,
                    SessionAction::Watch(None),
                    SessionAction::Tell(LinkReport::Down { generation }),
                ]
                &&& s.given_up(generation).live is None
                &&& !s.given_up(generation).published
                &&& s.given_up(generation).link_up is None
                &&& s.given_up(generation).next_generation == s.next_generation
            }
            &&& generation != l.generation ==> s.giving_up(generation).len() == 0 && s.given_up(
                generation,
            ) == s
        },
        s.live is None ==> {
            &&& s.stopping(owner).len() == 0 && s.stopped(owner) == s
            &&& s.giving_up(generation).len() == 0 && s.given_up(generation) == s
        },
{
}

/// A run of a minute or longer clears the count of failures; a shorter one
/// adds to it. Below ten, the player core is told, the token is refreshed and
/// the session runs again after two seconds; at ten nothing more is done.
pub proof fn law_ten_short_runs_give_up(task: SessionTask, lived: u64, new: SessionTask, generation: u64)
    requires
        call_ensures(SessionTask::new, (generation,), new),
    ensures
        new.generation == generation && new.restarts == 0,
        lived >= 60_000_000_000 ==> task.failures(lived) == 0,
        lived < 60_000_000_000 ==> task.failures(lived) == task.restarts + 1,
        lived < 60_000_000_000 && task.restarts >= 9 ==> task.restarting(lived).len() == 0,
        lived >= 60_000_000_000 || task.restarts < 9 ==> task.restarting(lived) =~= seq![
            SessionAction::Tell(LinkReport::Reconnecting { generation: task.generation }),
            SessionAction::RefreshNow,
            SessionAction::RetryAfter(2),
        ],
{
}

/// A link that is up is the session asked for, whatever is stored. Without
/// one, the first active account is refreshed under its numeric id; an id that
/// is no number fails, and nobody active is no account.
pub proof fn law_the_first_active_account_is_started(
    link_up: Option<u64>,
    users: Seq<UserCredentials>,
    r: EnsureStep,
    i: int,
)
    requires
        ensures_session(link_up, users, r),
    ensures
        link_up matches Some(g) ==> r == EnsureStep::Done(EnsureOutcome::Ready(g)),
        link_up is None && (forall|j: int| 0 <= j < users.len() ==> !(#[trigger] users[j]).active)
            ==> r == EnsureStep::Done(EnsureOutcome::NoAccount),
        link_up is None && 0 <= i < users.len() && users[i].active && (forall|j: int|
            0 <= j < i ==> !(#[trigger] users[j]).active) ==> {
            let id = users[i].discord_user_id@;
            &&& crate::text::parsed_u64(id) matches Some(n) ==> r == (EnsureStep::Refresh {
                user: users[i],
                discord_user_id: n,
            })
            &&& crate::text::parsed_u64(id) is None ==> (r matches EnsureStep::Done(
                EnsureOutcome::Failed(text),
            ) && text@ == "unparseable stored discord user id: "@ + id)
        },
{
    if link_up is None && 0 <= i < users.len() && users[i].active && (forall|j: int|
        0 <= j < i ==> !(#[trigger] users[j]).active) {
        assert(first_active(users, i));
    }
}

/// A refreshed account is started with what the refresh brought; a failed
/// refresh is told with its reason. A caller who waits gets the generation
/// that comes up, waits on while none does, and is told of a timeout and of a
/// closed watch.
pub proof fn law_a_request_for_a_session_ends(
    user: UserCredentials,
    outcome: Result<Refreshed, String>,
    started: Result<(UserCredentials, u64), EnsureOutcome>,
    seen: LinkWait,
    waited: Option<EnsureOutcome>,
)
    requires
        call_ensures(ensure_refreshed, (user, outcome), started),
        call_ensures(ensure_waited, (seen,), waited),
    ensures
        outcome matches Ok(t) ==> {
            &&& started is Ok
            &&& started->Ok_0.1 == t.expires_in
            &&& started->Ok_0.0.access_token == t.access_token
            &&& t.refresh_token matches Some(new) ==> started->Ok_0.0.refresh_token == new
            &&& t.refresh_token is None ==> started->Ok_0.0.refresh_token == user.refresh_token
            &&& started->Ok_0.0.discord_user_id == user.discord_user_id
            &&& started->Ok_0.0.discord_name == user.discord_name
            &&& started->Ok_0.0.spotify_username == user.spotify_username
            &&& started->Ok_0.0.active == user.active
        },
        outcome matches Err(e) ==> (started matches Err(EnsureOutcome::Failed(text)) && text@
            == "token refresh failed: "@ + e@),
        seen matches LinkWait::Sees(Some(g)) ==> waited == Some(EnsureOutcome::Ready(g)),
        seen == LinkWait::Sees(None) ==> waited is None,
        seen is TimedOut ==> (waited matches Some(EnsureOutcome::Failed(text)) && text@
            == "timed out waiting for the Spotify session to connect"@),
        seen is Closed ==> (waited matches Some(EnsureOutcome::Failed(text)) && text@
            == "session link watch closed"@),
{
}

/// Each call on the tokens, the supervisor and a session's task does what is
/// told of it above.
pub proof fn law_calls_on_a_session(
    tokens: &mut TokenState,
    outcome: Option<Refreshed>,
    refreshed: (),
    s: &mut SessionSupervisor,
    user: u64,
    switched: Vec<SessionAction>,
    t: &mut SessionSupervisor,
    generation: u64,
    started: Vec<SessionAction>,
    u: &mut SessionSupervisor,
    gave_up: Vec<SessionAction>,
    v: &mut SessionSupervisor,
    stopped: Vec<SessionAction>,
    task: &mut SessionTask,
    lived: u64,
    ended: Vec<SessionAction>,
)
    requires
        call_ensures(TokenState::refreshed, (tokens, outcome), refreshed),
        call_ensures(SessionSupervisor::switch, (s, user), switched),
        call_ensures(SessionSupervisor::started, (t, generation), started),
        call_ensures(SessionSupervisor::gave_up, (u, generation), gave_up),
        call_ensures(SessionSupervisor::stop, (v, user), stopped),
        call_ensures(SessionTask::run_ended, (task, lived), ended),
    ensures
        old(tokens).rotates(outcome, *final(tokens)),
        switched@ == old(s).switching() && *final(s) == old(s).switched(user),
        started@ == old(t).starting(generation) && *final(t) == old(t).up(generation),
        gave_up@ == old(u).giving_up(generation) && *final(u) == old(u).given_up(generation),
        stopped@ == old(v).stopping(user) && *final(v) == old(v).stopped(user),
        ended@ == old(task).restarting(lived),
        final(task).generation == old(task).generation,
        final(task).restarts == old(task).failures(lived),
{
}

/// A request for a session begins as told above.
pub proof fn law_calls_for_a_session(
    link_up: Option<u64>,
    users: Vec<UserCredentials>,
    r: EnsureStep,
)
    requires
        call_ensures(ensure_session, (link_up, users), r),
    ensures
        ensures_session(link_up, users@, r),
{
}

} // verus!
