//! Typed requests between independent bot processes. Discord interactions stay
//! with their application; each performer owns authorization and playback.

use vstd::prelude::*;

use crate::bytes::hex_decode;
use crate::runtime::{Profile, Settings};
use crate::text::{is_blank, same_text};

pub mod transport;

verus! {

/// Whether this process takes commands itself, for both bots, or for another
/// process.
#[derive(Clone, Copy, Debug, PartialEq, Eq, Structural)]
pub enum CommandMode {
    Standalone,
    Coordinator,
    Worker,
}

/// A setting that is wrong or missing.
#[derive(Clone, Copy, Debug, PartialEq, Eq)]
pub enum ConfigError {
    Invalid(&'static str),
    Missing(&'static str),
}

/// A socket address, as far as it matters here: its text, which names it,
/// whether it is of this host alone, and its port.
#[derive(Debug, PartialEq, Eq)]
pub struct Endpoint {
    pub text: String,
    pub loopback: bool,
    pub port: u16,
}

impl Endpoint {
    /// Only this host's own interface is accepted.
    pub open spec fn acceptable(&self) -> bool {
        self.loopback && self.port != 0
    }
}

/// The part of the configuration that routes commands. It holds the key, so it
/// cannot be printed.
pub struct RoutingConfig {
    pub mode: CommandMode,
    pub listen: Option<Endpoint>,
    pub peer: Option<Endpoint>,
    pub key: Option<Vec<u8>>,
}

/// The command mode that the settings name, if it is one this bot can have.
pub open spec fn named_mode(settings: Settings) -> Option<CommandMode> {
    let text = settings.or("COMMAND_MODE"@, "standalone"@);
    if text == "standalone"@ {
        Some(CommandMode::Standalone)
    } else if text == "coordinator"@ && settings.profile == Profile::Nob {
        Some(CommandMode::Coordinator)
    } else if text == "worker"@ && settings.profile == Profile::Spotibot {
        Some(CommandMode::Worker)
    } else {
        None
    }
}

/// An address is configured: its setting is there and not blank.
pub open spec fn address_named(settings: Settings, name: Seq<char>) -> bool {
    settings.lookup(name) matches Some(text) && !crate::text::blank(text)
}

/// What a configured address amounts to: nothing where none is configured, and
/// wrong where it could not be read or is not acceptable.
pub open spec fn address_of(
    settings: Settings,
    name: Seq<char>,
    parsed: Option<Endpoint>,
) -> Result<Option<Endpoint>, ()> {
    if !address_named(settings, name) {
        Ok(None)
    } else {
        match parsed {
            Some(e) => if e.acceptable() {
                Ok(Some(e))
            } else {
                Err(())
            },
            None => Err(()),
        }
    }
}

/// The key that the settings spell: thirty-two bytes in hexadecimal, not all
/// zero.
pub open spec fn named_key(settings: Settings) -> Result<Option<Seq<u8>>, ()> {
    match settings.lookup("ROUTING_KEY"@) {
        None => Ok(None),
        Some(text) => {
            let key = crate::bytes::unhexed(text);
            if crate::bytes::is_hex(text) && key.len() == 32 && key != Seq::new(32, |i: int| 0u8) {
                Ok(Some(key))
            } else {
                Err(())
            }
        },
    }
}

/// What is wrong with the routing settings, if anything; the first that
/// applies.
pub open spec fn routing_flaw(
    settings: Settings,
    listen: Option<Endpoint>,
    peer: Option<Endpoint>,
) -> Option<ConfigError> {
    if named_mode(settings) is None {
        Some(ConfigError::Invalid("COMMAND_MODE"))
    } else if address_of(settings, "ROUTING_LISTEN"@, listen) is Err {
        Some(ConfigError::Invalid("ROUTING_LISTEN"))
    } else if address_of(settings, "ROUTING_PEER"@, peer) is Err {
        Some(ConfigError::Invalid("ROUTING_PEER"))
    } else if named_key(settings) is Err {
        Some(ConfigError::Invalid("ROUTING_KEY"))
    } else {
        let mode = named_mode(settings)->0;
        let listen = address_of(settings, "ROUTING_LISTEN"@, listen)->Ok_0;
        let peer = address_of(settings, "ROUTING_PEER"@, peer)->Ok_0;
        if mode != CommandMode::Standalone && (listen is None || named_key(settings)->Ok_0
            is None) {
            Some(ConfigError::Missing("ROUTING_LISTEN / ROUTING_KEY"))
        } else if mode == CommandMode::Coordinator && (peer is None || peer->0.text@
            == listen->0.text@) {
            Some(ConfigError::Invalid("ROUTING_PEER"))
        } else {
            None
        }
    }
}

/// Read an address setting's value as `parsed` does.
fn address(settings: &Settings, name: &'static str, parsed: Option<Endpoint>) -> (r: Result<
    Option<Endpoint>,
    (),
>)
    ensures
        r == address_of(*settings, name@, parsed),
{
    match settings.get(name) {
        Some(text) => {
            if is_blank(text) {
                Ok(None)
            } else {
                match parsed {
                    Some(e) => if e.loopback && e.port != 0 {
                        Ok(Some(e))
                    } else {
                        Err(())
                    },
                    None => Err(()),
                }
            }
        },
        None => Ok(None),
    }
}

/// Whether every byte is zero.
fn all_zero(bytes: &Vec<u8>) -> (r: bool)
    ensures
        r == (bytes@ == Seq::new(bytes@.len(), |i: int| 0u8)),
{
    let mut i: usize = 0;
    while i < bytes.len()
        invariant
            i <= bytes@.len(),
            forall|j: int| 0 <= j < i ==> #[trigger] bytes@[j] == 0,
        decreases bytes@.len() - i,
    {
        if bytes[i] != 0 {
            assert(Seq::new(bytes@.len(), |k: int| 0u8)[i as int] == 0);
            return false;
        }
        i += 1;
    }
    assert(bytes@ =~= Seq::new(bytes@.len(), |k: int| 0u8));
    true
}

fn routing_key(settings: &Settings) -> (r: Result<Option<Vec<u8>>, ()>)
    ensures
        match r {
            Ok(Some(key)) => named_key(*settings) == Ok::<Option<Seq<u8>>, ()>(Some(key@)),
            Ok(None) => named_key(*settings) == Ok::<Option<Seq<u8>>, ()>(None),
            Err(_) => named_key(*settings) is Err,
        },
{
    match settings.get("ROUTING_KEY") {
        Some(text) => match hex_decode(text) {
            Some(bytes) => if bytes.len() != 32 || all_zero(&bytes) {
                Err(())
            } else {
                Ok(Some(bytes))
            },
            None => Err(()),
        },
        None => Ok(None),
    }
}

fn command_mode(settings: &Settings) -> (r: Option<CommandMode>)
    ensures
        r == named_mode(*settings),
{
    let text = match settings.get("COMMAND_MODE") {
        Some(text) => text,
        None => "standalone",
    };
    if same_text(text, "standalone") {
        Some(CommandMode::Standalone)
    } else if same_text(text, "coordinator") && settings.profile == Profile::Nob {
        Some(CommandMode::Coordinator)
    } else if same_text(text, "worker") && settings.profile == Profile::Spotibot {
        Some(CommandMode::Worker)
    } else {
        None
    }
}

/// `r` is what the routing settings amount to.
pub open spec fn routing_gives(
    settings: Settings,
    listen: Option<Endpoint>,
    peer: Option<Endpoint>,
    r: Result<RoutingConfig, ConfigError>,
) -> bool {
    match r {
        Ok(config) => {
            &&& routing_flaw(settings, listen, peer) is None
            &&& Some(config.mode) == named_mode(settings)
            &&& Ok::<Option<Endpoint>, ()>(config.listen) == address_of(
                settings,
                "ROUTING_LISTEN"@,
                listen,
            )
            &&& Ok::<Option<Endpoint>, ()>(config.peer) == address_of(
                settings,
                "ROUTING_PEER"@,
                peer,
            )
            &&& named_key(settings) == (match config.key {
                Some(key) => Ok::<Option<Seq<u8>>, ()>(Some(key@)),
                None => Ok::<Option<Seq<u8>>, ()>(None),
            })
        },
        Err(flaw) => routing_flaw(settings, listen, peer) == Some(flaw),
    }
}

impl RoutingConfig {
    /// Nothing is routed.
    pub fn standalone() -> (r: Self)
        ensures
            r.mode == CommandMode::Standalone,
            r.listen is None,
            r.peer is None,
            r.key is None,
    {
        RoutingConfig { mode: CommandMode::Standalone, listen: None, peer: None, key: None }
    }

    /// Read the routing settings; `listen` and `peer` are what the values of
    /// `ROUTING_LISTEN` and `ROUTING_PEER` read as, if they read as addresses.
    pub fn load(settings: &Settings, listen: Option<Endpoint>, peer: Option<Endpoint>) -> (r:
        Result<Self, ConfigError>)
        ensures
            routing_gives(*settings, listen, peer, r),
    {
        let mode = match command_mode(settings) {
            Some(mode) => mode,
            None => return Err(ConfigError::Invalid("COMMAND_MODE")),
        };
        let listen = match address(settings, "ROUTING_LISTEN", listen) {
            Ok(listen) => listen,
            Err(_) => return Err(ConfigError::Invalid("ROUTING_LISTEN")),
        };
        let peer = match address(settings, "ROUTING_PEER", peer) {
            Ok(peer) => peer,
            Err(_) => return Err(ConfigError::Invalid("ROUTING_PEER")),
        };
        let key = match routing_key(settings) {
            Ok(key) => key,
            Err(_) => return Err(ConfigError::Invalid("ROUTING_KEY")),
        };
        if mode != CommandMode::Standalone && (listen.is_none() || key.is_none()) {
            return Err(ConfigError::Missing("ROUTING_LISTEN / ROUTING_KEY"));
        }
        if mode == CommandMode::Coordinator {
            let wrong = match (&peer, &listen) {
                (Some(p), Some(l)) => p.text == l.text,
                _ => true,
            };
            if wrong {
                return Err(ConfigError::Invalid("ROUTING_PEER"));
            }
        }
        Ok(RoutingConfig { mode, listen, peer, key })
    }
}

/// Only this host is ever talked to, and never without a key: whatever loads
/// listens and connects on loopback addresses with a port, and a bot that takes
/// commands for another, or hands them on, has a key and a listening address;
/// one that hands them on has another process to hand them to.
pub proof fn law_routing_stays_on_this_host(
    settings: Settings,
    listen: Option<Endpoint>,
    peer: Option<Endpoint>,
)
    requires
        routing_flaw(settings, listen, peer) is None,
    ensures
        address_of(settings, "ROUTING_LISTEN"@, listen) matches Ok(Some(e)) ==> e.loopback
            && e.port != 0,
        address_of(settings, "ROUTING_PEER"@, peer) matches Ok(Some(e)) ==> e.loopback && e.port
            != 0,
        named_mode(settings) != Some(CommandMode::Standalone) ==> (address_of(
            settings,
            "ROUTING_LISTEN"@,
            listen,
        ) matches Ok(Some(_))) && (named_key(settings) matches Ok(Some(_))),
        named_mode(settings) == Some(CommandMode::Coordinator) ==> settings.profile == Profile::Nob
            && (address_of(settings, "ROUTING_PEER"@, peer) matches Ok(Some(_))),
        named_mode(settings) == Some(CommandMode::Worker) ==> settings.profile
            == Profile::Spotibot,
{
}

/// A bot process, at one point of its life: which boot, how often it changed
/// rooms, and the room it serves.
#[derive(Clone, Debug, PartialEq, Eq)]
pub struct Target {
    pub boot: String,
    pub generation: u64,
    pub room: Option<u64>,
}

/// What a bot says of itself.
#[derive(Clone, Debug)]
pub struct Status {
    pub target: Target,
    pub name: String,
    pub guild: u64,
    pub bot: u64,
    pub ready: bool,
    pub media: bool,
    pub now: String,
}

#[derive(Clone, Copy, Debug, PartialEq, Eq, Structural)]
pub enum Control {
    Play,
    Previous,
    Skip,
    Pause,
    Stop,
    Clear,
    Announce,
}

/// Something to look at.
#[derive(Clone, Copy, Debug, PartialEq, Eq, Structural)]
pub enum Panel {
    Now,
    Queue,
    History,
    Account,
}

#[derive(Clone, Debug)]
pub struct Attachment {
    pub filename: String,
    pub url: String,
    pub size: u64,
}

/// What is asked of a bot.
#[derive(Clone, Debug)]
pub enum Action {
    Status,
    /// Ask for the outcome of an earlier request.
    Outcome { request: String },
    View(Panel),
    Control(Control),
    Play { input: Option<String>, attachment: Option<Attachment>, next: bool, queued: bool },
    Search { query: String, next: bool, queued: bool },
    Login,
    FinishLogin { pairing: String },
    Logout,
    Forget,
}

#[derive(Clone, Debug)]
pub struct Request {
    pub id: String,
    pub expires: u64,
    pub guild: u64,
    pub user: u64,
    pub room: Option<u64>,
    pub target: Option<Target>,
    pub action: Action,
}

#[derive(Clone, Debug)]
pub struct SearchHit {
    pub title: String,
    pub detail: String,
    pub url: String,
}

#[derive(Clone, Debug)]
pub enum Reply {
    Status(Status),
    Text(String),
    Search(Vec<SearchHit>),
    Pairing { url: String, code: String, pairing: String },
    Error(String),
    Pending,
}

/// A bot that is ready in this room.
pub open spec fn serves(bots: Seq<Status>, room: u64, i: int) -> bool {
    &&& 0 <= i < bots.len()
    &&& bots[i].ready
    &&& bots[i].target.room == Some(room)
}

/// The only bot that is ready in this room.
pub open spec fn serves_alone(bots: Seq<Status>, room: u64, i: int) -> bool {
    &&& serves(bots, room, i)
    &&& forall|j: int| #[trigger] serves(bots, room, j) ==> j == i
}

/// A ready bot without a room that can do what is asked.
pub open spec fn free(bots: Seq<Status>, needs_media: bool, i: int) -> bool {
    &&& 0 <= i < bots.len()
    &&& bots[i].ready
    &&& bots[i].target.room is None
    &&& needs_media ==> bots[i].media
}

/// The first free bot.
pub open spec fn first_free(bots: Seq<Status>, needs_media: bool, i: int) -> bool {
    &&& free(bots, needs_media, i)
    &&& forall|j: int| 0 <= j < i ==> !#[trigger] free(bots, needs_media, j)
}

pub const JOIN_FIRST: &'static str = "Join a voice channel, or choose a bot to inspect its music panel.";

pub const BOTH_HERE: &'static str = "Both bots are in your room. Choose which one to control.";

pub const NONE_HERE: &'static str = "No music bot is serving your voice room.";

pub const ALL_BUSY: &'static str = "Both bots are busy or unavailable. Their other rooms will keep playing.";

/// `r` is the bot that serves a room's request: the one that is there; without
/// one, if another may be summoned, the first that is free.
pub open spec fn is_choice(
    room: Option<u64>,
    bots: Seq<Status>,
    may_summon: bool,
    needs_media: bool,
    r: Result<usize, &'static str>,
) -> bool {
    match room {
        None => r == Err::<usize, &'static str>(JOIN_FIRST),
        Some(room) => {
            &&& forall|i: int| #[trigger]
                serves_alone(bots, room, i) ==> (r matches Ok(k) && k == i)
            &&& forall|i: int, j: int|
                #![trigger serves(bots, room, i), serves(bots, room, j)]
                serves(bots, room, i) && serves(bots, room, j) && i != j ==> r == Err::<
                    usize,
                    &'static str,
                >(BOTH_HERE)
            &&& (forall|i: int| !#[trigger] serves(bots, room, i)) ==> {
                &&& !may_summon ==> r == Err::<usize, &'static str>(NONE_HERE)
                &&& may_summon ==> forall|i: int| #[trigger]
                    first_free(bots, needs_media, i) ==> (r matches Ok(k) && k == i)
                &&& may_summon && (forall|i: int| !#[trigger] free(bots, needs_media, i)) ==> r
                    == Err::<usize, &'static str>(ALL_BUSY)
            }
        },
    }
}

/// Select only from fresh status reports. Unknown peer status is handled by the
/// caller as an explicit picker, never guessed to mean idle. A paused connection
/// remains owned. Transport actions cannot recruit a second player.
#[verifier::loop_isolation(false)]
pub fn choose_bot(
    room: Option<u64>,
    bots: &[Status],
    may_summon: bool,
    needs_media: bool,
) -> (r: Result<usize, &'static str>)
    ensures
        is_choice(room, bots@, may_summon, needs_media, r),
{
    let room = match room {
        Some(room) => room,
        None => return Err(JOIN_FIRST),
    };
    let mut serving: Option<usize> = None;
    let mut several = false;
    let mut i: usize = 0;
    while i < bots.len()
        invariant
            i <= bots@.len(),
            match serving {
                Some(k) => k < i && serves(bots@, room, k as int) && (!several ==> forall|j: int|
                    0 <= j < i && #[trigger] serves(bots@, room, j) ==> j == k) && (several
                    ==> exists|j: int|
                    0 <= j < i && j != k && #[trigger] serves(bots@, room, j)),
                None => !several && forall|j: int|
                    0 <= j < i ==> !#[trigger] serves(bots@, room, j),
            },
        decreases bots@.len() - i,
    {
        let here = match bots[i].target.room {
            Some(r) => r == room,
            None => false,
        };
        if bots[i].ready && here {
            assert(serves(bots@, room, i as int));
            if serving.is_some() {
                several = true;
            } else {
                serving = Some(i);
            }
        } else {
            assert(!serves(bots@, room, i as int));
        }
        i += 1;
    }
    if let Some(k) = serving {
        return if several {
            Err(BOTH_HERE)
        } else {
            Ok(k)
        };
    }
    if !may_summon {
        return Err(NONE_HERE);
    }
    let mut i: usize = 0;
    while i < bots.len()
        invariant
            i <= bots@.len(),
            forall|j: int| 0 <= j < i ==> !#[trigger] free(bots@, needs_media, j),
        decreases bots@.len() - i,
    {
        if bots[i].ready && bots[i].target.room.is_none() && (!needs_media || bots[i].media) {
            assert(first_free(bots@, needs_media, i as int));
            assert forall|k: int| #[trigger] first_free(bots@, needs_media, k) implies k == i by {
                if k < i {
                    assert(!free(bots@, needs_media, k));
                } else if k > i {
                    assert(!free(bots@, needs_media, i as int));
                }
            }
            return Ok(i);
        }
        i += 1;
    }
    Err(ALL_BUSY)
}

proof fn lemma_first_free(bots: Seq<Status>, needs_media: bool, i: int)
    requires
        free(bots, needs_media, i),
    ensures
        exists|k: int| #[trigger] first_free(bots, needs_media, k),
    decreases i,
{
    if !first_free(bots, needs_media, i) {
        let j = choose|j: int| 0 <= j < i && #[trigger] free(bots, needs_media, j);
        lemma_first_free(bots, needs_media, j);
    }
}

/// Another room is never disturbed: whoever is selected is ready, and serves
/// the caller's room or none. Nobody is summoned where that is not allowed, and
/// nobody while somebody is there.
pub proof fn law_no_room_is_disturbed(
    room: Option<u64>,
    bots: Seq<Status>,
    may_summon: bool,
    needs_media: bool,
    i: usize,
)
    requires
        is_choice(room, bots, may_summon, needs_media, Ok(i)),
    ensures
        room is Some,
        i < bots.len(),
        bots[i as int].ready,
        bots[i as int].target.room == room || bots[i as int].target.room is None,
        bots[i as int].target.room is None ==> may_summon && (needs_media ==> bots[i as int].media)
            && forall|j: int| !#[trigger] serves(bots, room->0, j),
{
    let r: Result<usize, &'static str> = Ok(i);
    let here = room->0;
    if exists|k: int| #[trigger] serves(bots, here, k) {
        let k = choose|k: int| #[trigger] serves(bots, here, k);
        assert forall|j: int| #[trigger] serves(bots, here, j) implies j == k by {
            if j != k {
                assert(r == Err::<usize, &'static str>(BOTH_HERE));
            }
        }
        assert(serves_alone(bots, here, k));
    } else {
        if forall|k: int| !#[trigger] free(bots, needs_media, k) {
            assert(r is Err);
        } else {
            let k = choose|k: int| #[trigger] free(bots, needs_media, k);
            lemma_first_free(bots, needs_media, k);
            let first = choose|k: int| #[trigger] first_free(bots, needs_media, k);
            assert(first == i);
        }
    }
}

proof fn lemma_modes(settings: Settings)
    ensures
        ({
            let mode = settings.lookup("COMMAND_MODE"@);
            let named = named_mode(settings);
            &&& named == Some(CommandMode::Standalone) <==> mode is None || mode == Some(
                "standalone"@,
            )
            &&& named == Some(CommandMode::Coordinator) <==> mode == Some("coordinator"@)
                && settings.profile is Nob
            &&& named == Some(CommandMode::Worker) <==> mode == Some("worker"@)
                && settings.profile is Spotibot
            &&& mode == Some("standalone"@) ==> mode != Some("coordinator"@) && mode != Some(
                "worker"@,
            )
            &&& mode == Some("coordinator"@) ==> mode != Some("worker"@)
        }),
{
    reveal_strlit("standalone");
    reveal_strlit("coordinator");
    reveal_strlit("worker");
    assert("standalone"@.len() == 10 && "coordinator"@.len() == 11 && "worker"@.len() == 6);
    match settings.lookup("COMMAND_MODE"@) {
        Some(text) => {
            assert(settings.or("COMMAND_MODE"@, "standalone"@) == text);
        },
        None => {},
    }
}

/// The settings are read for what they say. The mode is the one named, where
/// this bot can have it; an address is the one that was read, where it is of
/// this host and has a port; the key is the thirty-two bytes spelled, unless
/// they are all zero.
pub proof fn law_routing_settings_are_read(
    settings: Settings,
    listen: Option<Endpoint>,
    peer: Option<Endpoint>,
    r: Result<RoutingConfig, ConfigError>,
)
    requires
        routing_gives(settings, listen, peer, r),
    ensures
        r matches Ok(c) ==> {
            let mode = settings.lookup("COMMAND_MODE"@);
            &&& c.mode is Standalone <==> mode is None || mode == Some("standalone"@)
            &&& c.mode is Coordinator <==> mode == Some("coordinator"@)
            &&& c.mode is Worker <==> mode == Some("worker"@)
            &&& c.mode is Coordinator ==> settings.profile is Nob
            &&& c.mode is Worker ==> settings.profile is Spotibot
            &&& c.listen is Some <==> (settings.lookup("ROUTING_LISTEN"@) matches Some(text)
                && !crate::text::blank(text))
            &&& c.listen matches Some(e) ==> c.listen == listen && e.loopback && e.port > 0
            &&& c.peer is Some <==> (settings.lookup("ROUTING_PEER"@) matches Some(text)
                && !crate::text::blank(text))
            &&& c.peer matches Some(e) ==> c.peer == peer && e.loopback && e.port > 0
            &&& c.key is Some <==> settings.lookup("ROUTING_KEY"@) is Some
            &&& c.key matches Some(key) ==> {
                &&& key@.len() == 32
                &&& key@ == crate::bytes::unhexed(settings.lookup("ROUTING_KEY"@)->0)
                &&& exists|i: int| 0 <= i < 32 && #[trigger] key@[i] != 0
            }
            &&& !(c.mode is Standalone) ==> c.listen is Some && c.key is Some
            &&& c.mode is Coordinator ==> c.peer is Some && c.peer->0.text@ != c.listen->0.text@
        },
        r is Err ==> !(settings.lookup("COMMAND_MODE"@) is None && settings.lookup(
            "ROUTING_LISTEN"@,
        ) is None && settings.lookup("ROUTING_PEER"@) is None && settings.lookup(
            "ROUTING_KEY"@,
        ) is None),
{
    lemma_modes(settings);
    if let Ok(c) = r {
        if let Some(key) = c.key {
            if forall|i: int| 0 <= i < 32 ==> #[trigger] key@[i] == 0 {
                assert(key@ =~= Seq::new(32, |i: int| 0u8));
            }
        }
    }
}

/// Good settings load: with a mode this bot can have, addresses of this host, a
/// proper key, and all that the mode needs, nothing is refused; and what is
/// refused is refused for the first of these that is wrong.
pub proof fn law_good_routing_settings_load(
    settings: Settings,
    listen: Option<Endpoint>,
    peer: Option<Endpoint>,
    r: Result<RoutingConfig, ConfigError>,
)
    requires
        routing_gives(settings, listen, peer, r),
    ensures
        ({
            let mode = settings.lookup("COMMAND_MODE"@);
            let alone = mode is None || mode == Some("standalone"@);
            let known = alone || (mode == Some("coordinator"@) && settings.profile is Nob) || (mode
                == Some("worker"@) && settings.profile is Spotibot);
            let named = |name: Seq<char>|
                settings.lookup(name) matches Some(text) && !crate::text::blank(text);
            let local = |e: Option<Endpoint>| e matches Some(at) && at.loopback && at.port > 0;
            let heard = !named("ROUTING_LISTEN"@) || local(listen);
            let reached = !named("ROUTING_PEER"@) || local(peer);
            let keyed = match settings.lookup("ROUTING_KEY"@) {
                Some(text) => crate::bytes::is_hex(text) && crate::bytes::unhexed(text).len() == 32
                    && exists|i: int| 0 <= i < 32 && #[trigger] crate::bytes::unhexed(text)[i] != 0,
                None => true,
            };
            let equipped = alone || (named("ROUTING_LISTEN"@) && settings.lookup(
                "ROUTING_KEY"@,
            ) is Some);
            let other = mode != Some("coordinator"@) || (named("ROUTING_PEER"@) && peer->0.text@
                != listen->0.text@);
            &&& r is Ok <==> known && heard && reached && keyed && equipped && other
            &&& !known ==> (r matches Err(ConfigError::Invalid(name)) && name@ == "COMMAND_MODE"@)
            &&& known && !heard ==> (r matches Err(ConfigError::Invalid(name)) && name@
                == "ROUTING_LISTEN"@)
            &&& known && heard && !reached ==> (r matches Err(ConfigError::Invalid(name)) && name@
                == "ROUTING_PEER"@)
            &&& known && heard && reached && !keyed ==> (r matches Err(ConfigError::Invalid(name))
                && name@ == "ROUTING_KEY"@)
            &&& known && heard && reached && keyed && !equipped ==> (r matches Err(
                ConfigError::Missing(name),
            ) && name@ == "ROUTING_LISTEN / ROUTING_KEY"@)
            &&& known && heard && reached && keyed && equipped && !other ==> (r matches Err(
                ConfigError::Invalid(name),
            ) && name@ == "ROUTING_PEER"@)
        }),
{
    lemma_modes(settings);
    if let Some(text) = settings.lookup("ROUTING_KEY"@) {
        let key = crate::bytes::unhexed(text);
        let zero = Seq::new(32, |i: int| 0u8);
        if key.len() == 32 {
            if forall|i: int| 0 <= i < 32 ==> #[trigger] key[i] == 0 {
                assert(key =~= zero);
            } else {
                let i = choose|i: int| 0 <= i < 32 && #[trigger] key[i] != 0;
                assert(zero[i] == 0);
            }
        }
    }
}

/// Who is asked is decided by who is there: without a room nobody is; the only
/// ready bot of the room is asked; of two neither; with none there, and where
/// one may be summoned, the first that is ready, without a room and able.
pub proof fn law_the_bot_that_is_there_is_asked(
    room: Option<u64>,
    bots: &[Status],
    may_summon: bool,
    needs_media: bool,
    r: Result<usize, &'static str>,
    i: int,
    j: int,
)
    requires
        call_ensures(choose_bot, (room, bots, may_summon, needs_media), r),
    ensures
        ({
            let here = |k: int|
                0 <= k < bots@.len() && bots@[k].ready && room is Some && bots@[k].target.room
                    == room;
            let idle = |k: int|
                0 <= k < bots@.len() && bots@[k].ready && bots@[k].target.room is None && (
                needs_media ==> bots@[k].media);
            &&& room is None ==> (r matches Err(text) && text@
                == "Join a voice channel, or choose a bot to inspect its music panel."@)
            &&& here(i) && (forall|k: int| #[trigger] here(k) ==> k == i) ==> r == Ok::<
                usize,
                &'static str,
            >(i as usize)
            &&& here(i) && here(j) && i != j ==> (r matches Err(text) && text@
                == "Both bots are in your room. Choose which one to control."@)
            &&& room is Some && (forall|k: int| !#[trigger] here(k)) ==> {
                &&& !may_summon ==> (r matches Err(text) && text@
                    == "No music bot is serving your voice room."@)
                &&& may_summon && idle(i) && (forall|k: int| 0 <= k < i ==> !#[trigger] idle(k))
                    ==> r == Ok::<usize, &'static str>(i as usize)
                &&& may_summon && (forall|k: int| !#[trigger] idle(k)) ==> (r matches Err(text)
                    && text@
                    == "Both bots are busy or unavailable. Their other rooms will keep playing."@)
            }
        }),
{
    if let Some(there) = room {
        let here = |k: int|
            0 <= k < bots@.len() && bots@[k].ready && room is Some && bots@[k].target.room == room;
        let idle = |k: int|
            0 <= k < bots@.len() && bots@[k].ready && bots@[k].target.room is None && (needs_media
                ==> bots@[k].media);
        assert forall|k: int| here(k) == #[trigger] serves(bots@, there, k) by {}
        assert forall|k: int| idle(k) == #[trigger] free(bots@, needs_media, k) by {}
        if here(i) && (forall|k: int| #[trigger] here(k) ==> k == i) {
            assert forall|k: int| #[trigger] serves(bots@, there, k) implies k == i by {
                assert(here(k));
            }
            assert(serves_alone(bots@, there, i));
        }
        if here(i) && here(j) && i != j {
            assert(serves(bots@, there, i) && serves(bots@, there, j));
        }
        if forall|k: int| !#[trigger] here(k) {
            assert forall|k: int| !#[trigger] serves(bots@, there, k) by {
                assert(!here(k));
            }
            if idle(i) && (forall|k: int| 0 <= k < i ==> !#[trigger] idle(k)) {
                assert forall|k: int| 0 <= k < i implies !#[trigger] free(
                    bots@,
                    needs_media,
                    k,
                ) by {
                    assert(!idle(k));
                }
                assert(first_free(bots@, needs_media, i));
            }
            if forall|k: int| !#[trigger] idle(k) {
                assert forall|k: int| !#[trigger] free(bots@, needs_media, k) by {
                    assert(!idle(k));
                }
            }
        }
    }
}

/// A bot on its own routes nothing, and settings are read as told above.
pub proof fn law_calls_for_the_routing(
    alone: RoutingConfig,
    settings: Settings,
    listen: Option<Endpoint>,
    peer: Option<Endpoint>,
    r: Result<RoutingConfig, ConfigError>,
)
    requires
        call_ensures(RoutingConfig::standalone, (), alone),
        call_ensures(RoutingConfig::load, (&settings, listen, peer), r),
    ensures
        alone.mode is Standalone && alone.listen is None && alone.peer is None && alone.key is None,
        routing_gives(settings, listen, peer, r),
{
}

} // verus!
