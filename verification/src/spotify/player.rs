//! The Connect device: what its player reports, what it is told to do, and
//! how its identity and its reconnects are decided.

use tokio::sync::oneshot;
use vstd::prelude::*;

use crate::bytes::{hex_encode, random_bytes};
use crate::player::state::{SpircCmd, TrackMeta, TransportEvent};
use crate::path::{join, Host};
use crate::runtime::Paths;
use crate::text::{clone_text, distinct_texts, has_prefix, is_blank, replace_text, same_text, separate, trim};
use crate::uri::SpotifyUri;

verus! {

/// The file in the Spotify cache that keeps the device's identity.
pub const DEVICE_ID_FILE: &'static str = "device_id";

/// How often in a row a dropped session is reopened with the same token.
pub const MAX_FAST_RECONNECTS: usize = 5;

/// A session that lived this long, in nanoseconds, was no fast failure.
pub const MIN_STABLE_SESSION: u64 = 60_000_000_000;

/// The volume the device starts at, of 65535: seventy percent.
pub const INITIAL_VOLUME: u16 = 45875;

pub const VOLUME_STEPS: u16 = 64;

/// Commands the rest of the bot sends to the live session. Not `Debug`:
/// `Lookup`'s reply channel isn't.
pub enum SpircCommand {
    /// Tell Spotify this device is going away, so that clients drop it from
    /// the device list at once, and end the session task.
    Shutdown,
    Pause,
    Play,
    Next,
    Previous,
    AddToQueue(SpotifyUri),
    /// Start playing this track now, replacing the current context.
    Load(SpotifyUri),
    /// Resolve a track's title, artist and art through the live session;
    /// replies `None` if unavailable.
    Lookup(SpotifyUri, oneshot::Sender<Option<TrackLookup>>),
    /// Claim the active-device slot. A no-op on the Spotify side when this
    /// device is already active.
    ActivateDevice,
    /// Restore context, position, pause state and the queue after a
    /// reconnect, claiming the active-device slot in the same call.
    Transfer,
    /// Release the active-device slot, pausing as it goes.
    Disconnect,
    /// Reopen a context at one of its tracks, restoring the playlist rather
    /// than replacing it the way `Load` does.
    LoadContext {
        context_uri: String,
        track_uri: SpotifyUri,
        /// Shuffle, repeat-context, repeat-track; `None` leaves the device's
        /// own settings untouched.
        options: Option<(bool, bool, bool)>,
    },
}

/// Track metadata resolved through the live session, for describing a track
/// without calling any Web API.
#[derive(Clone, Debug)]
pub struct TrackLookup {
    pub title: String,
    pub artist: String,
    pub album_art_url: Option<String>,
}

/// The command the live session gets for a decision of the player core.
pub fn spirc_command(cmd: SpircCmd) -> (r: SpircCommand)
    ensures
        r == (match cmd {
            SpircCmd::Pause => SpircCommand::Pause,
            SpircCmd::Play => SpircCommand::Play,
            SpircCmd::Next => SpircCommand::Next,
            SpircCmd::Previous => SpircCommand::Previous,
            SpircCmd::AddToQueue(uri) => SpircCommand::AddToQueue(uri),
            SpircCmd::Load(uri) => SpircCommand::Load(uri),
            SpircCmd::ActivateDevice => SpircCommand::ActivateDevice,
            SpircCmd::Transfer => SpircCommand::Transfer,
            SpircCmd::Disconnect => SpircCommand::Disconnect,
            SpircCmd::LoadContext { context_uri, track_uri, options } => SpircCommand::LoadContext {
                context_uri,
                track_uri,
                options: Some((options.shuffle, options.repeat_context, options.repeat_track)),
            },
        }),
{
    match cmd {
        SpircCmd::Pause => SpircCommand::Pause,
        SpircCmd::Play => SpircCommand::Play,
        SpircCmd::Next => SpircCommand::Next,
        SpircCmd::Previous => SpircCommand::Previous,
        SpircCmd::AddToQueue(uri) => SpircCommand::AddToQueue(uri),
        SpircCmd::Load(uri) => SpircCommand::Load(uri),
        SpircCmd::ActivateDevice => SpircCommand::ActivateDevice,
        SpircCmd::Transfer => SpircCommand::Transfer,
        SpircCmd::Disconnect => SpircCommand::Disconnect,
        SpircCmd::LoadContext { context_uri, track_uri, options } => SpircCommand::LoadContext {
            context_uri,
            track_uri,
            options: Some((options.shuffle, options.repeat_context, options.repeat_track)),
        },
    }
}

/// One call on the live device.
pub enum SpircCall {
    Shutdown,
    Pause,
    Play,
    Next,
    Prev,
    AddToQueue(SpotifyUri),
    Activate,
    /// Load this one track and start playing.
    LoadTrack(SpotifyUri),
    Transfer,
    /// Load a context positioned at a track and start playing.
    LoadContext {
        context_uri: String,
        track_uri: SpotifyUri,
        options: Option<(bool, bool, bool)>,
    },
    Disconnect { pause: bool },
    /// Resolve the uri and answer.
    Lookup(SpotifyUri, oneshot::Sender<Option<TrackLookup>>),
}

/// The calls a command makes, in order, and whether the session goes on.
/// Loading is ignored unless this device is the active Connect device, so
/// both loads claim it first. A release always pauses: the other form leaves
/// the player decoding after the bot has gone, and its next event would
/// re-take the device.
pub open spec fn calls_of(cmd: SpircCommand) -> (Seq<SpircCall>, bool) {
    match cmd {
        SpircCommand::Shutdown => (seq![SpircCall::Shutdown], false),
        SpircCommand::Pause => (seq![SpircCall::Pause], true),
        SpircCommand::Play => (seq![SpircCall::Play], true),
        SpircCommand::Next => (seq![SpircCall::Next], true),
        SpircCommand::Previous => (seq![SpircCall::Prev], true),
        SpircCommand::AddToQueue(uri) => (seq![SpircCall::AddToQueue(uri)], true),
        SpircCommand::Load(uri) => (seq![SpircCall::Activate, SpircCall::LoadTrack(uri)], true),
        SpircCommand::Lookup(uri, reply) => (seq![SpircCall::Lookup(uri, reply)], true),
        SpircCommand::ActivateDevice => (seq![SpircCall::Activate], true),
        SpircCommand::Transfer => (seq![SpircCall::Transfer], true),
        SpircCommand::Disconnect => (seq![SpircCall::Disconnect { pause: true }], true),
        SpircCommand::LoadContext { context_uri, track_uri, options } => (
            seq![SpircCall::Activate, SpircCall::LoadContext { context_uri, track_uri, options }],
            true,
        ),
    }
}

/// The calls a command makes, in order, and whether the session goes on.
pub fn spirc_calls(cmd: SpircCommand) -> (r: (Vec<SpircCall>, bool))
    ensures
        (r.0@, r.1) == calls_of(cmd),
{
    let mut calls: Vec<SpircCall> = Vec::new();
    let mut goes_on = true;
    match cmd {
        SpircCommand::Shutdown => {
            calls.push(SpircCall::Shutdown);
            goes_on = false;
        },
        SpircCommand::Pause => calls.push(SpircCall::Pause),
        SpircCommand::Play => calls.push(SpircCall::Play),
        SpircCommand::Next => calls.push(SpircCall::Next),
        SpircCommand::Previous => calls.push(SpircCall::Prev),
        SpircCommand::AddToQueue(uri) => calls.push(SpircCall::AddToQueue(uri)),
        SpircCommand::Load(uri) => {
            calls.push(SpircCall::Activate);
            calls.push(SpircCall::LoadTrack(uri));
        },
        SpircCommand::Lookup(uri, reply) => calls.push(SpircCall::Lookup(uri, reply)),
        SpircCommand::ActivateDevice => calls.push(SpircCall::Activate),
        SpircCommand::Transfer => calls.push(SpircCall::Transfer),
        SpircCommand::Disconnect => calls.push(SpircCall::Disconnect { pause: true }),
        SpircCommand::LoadContext { context_uri, track_uri, options } => {
            calls.push(SpircCall::Activate);
            calls.push(SpircCall::LoadContext { context_uri, track_uri, options });
        },
    }
    assert(calls@ =~= calls_of(cmd).0);
    (calls, goes_on)
}

/// Join artist names in Spotify's own display order, dropping repeats:
/// Spotify's catalogue lists an artist twice on some tracks, once as artist
/// and once as remixer.
pub fn join_unique(names: Vec<String>) -> (r: String)
    ensures
        r@ == joined_artists(names@),
{
    let seen = distinct_texts(&names);
    separate(&seen, ", ")
}

/// Artist names in order of first mention, separated by commas.
pub open spec fn joined_artists(names: Seq<String>) -> Seq<char> {
    crate::text::separated(crate::text::distinct(names), ", "@)
}

/// Who made an item, by its type.
#[derive(Debug)]
pub enum Artists {
    Track(Vec<String>),
    Local(Option<String>),
    Episode,
}

impl Artists {
    /// How the makers are listed.
    pub open spec fn listing(&self) -> Seq<char> {
        match *self {
            Artists::Track(names) => joined_artists(names@),
            Artists::Local(Some(names)) => names@,
            Artists::Local(None) => Seq::empty(),
            Artists::Episode => Seq::empty(),
        }
    }
}

/// One size of an item's artwork: its address or file id, and its width.
#[derive(Debug)]
pub struct Cover {
    pub name: String,
    pub width: i32,
}

/// `i` is the widest cover; of equally wide ones the last.
pub open spec fn widest(covers: Seq<Cover>, i: int) -> bool {
    &&& 0 <= i < covers.len()
    &&& forall|j: int| 0 <= j < covers.len() ==> (#[trigger] covers[j]).width <= covers[i].width
    &&& forall|j: int| i < j < covers.len() ==> (#[trigger] covers[j]).width < covers[i].width
}

/// The widest cover; of equally wide ones the last.
fn widest_cover(covers: &Vec<Cover>) -> (r: Option<usize>)
    ensures
        match r {
            Some(i) => widest(covers@, i as int),
            None => covers@.len() == 0,
        },
{
    if covers.len() == 0 {
        return None;
    }
    let mut best: usize = 0;
    let mut i: usize = 1;
    while i < covers.len()
        invariant
            best < i <= covers@.len(),
            widest(covers@.take(i as int), best as int),
        decreases covers@.len() - i,
    {
        let ghost seen = covers@.take(i as int);
        let ghost more = covers@.take(i + 1);
        proof {
            assert(forall|j: int| 0 <= j < i ==> more[j] == #[trigger] seen[j]);
            assert(more[i as int] == covers@[i as int]);
            assert(covers@[best as int] == seen[best as int]);
        }
        if covers[i].width >= covers[best].width {
            best = i;
        }
        i += 1;
    }
    assert(covers@.take(i as int) =~= covers@);
    Some(best)
}

/// An item as the player describes it on a change of track.
#[derive(Debug)]
pub struct AudioItem {
    pub track_id: SpotifyUri,
    pub name: String,
    pub artists: Artists,
    pub covers: Vec<Cover>,
}

/// Info about the current track, kept so that a report of playing (which
/// carries a bare id) can carry metadata without calling any Web API.
#[derive(Debug)]
pub struct CurrentTrack {
    pub track_id: SpotifyUri,
    pub title: String,
    pub artist: String,
    pub album_art_url: Option<String>,
}

impl CurrentTrack {
    /// This is what is kept of `item`.
    pub open spec fn describes(&self, item: AudioItem) -> bool {
        &&& self.track_id == item.track_id
        &&& self.title == item.name
        &&& self.artist@ == item.artists.listing()
        &&& match self.album_art_url {
            Some(url) => exists|i: int|
                #[trigger] widest(item.covers@, i) && url == item.covers@[i].name,
            None => item.covers@.len() == 0,
        }
    }

    pub open spec fn meta(&self) -> TrackMeta {
        TrackMeta {
            title: self.title,
            artist: self.artist,
            album_art_url: self.album_art_url,
        }
    }

    fn to_meta(&self) -> (r: TrackMeta)
        ensures
            r == self.meta(),
    {
        TrackMeta {
            title: self.title.clone(),
            artist: self.artist.clone(),
            album_art_url: clone_text(&self.album_art_url),
        }
    }
}

/// What is kept of an item.
pub fn track_info_from_audio_item(item: AudioItem) -> (r: CurrentTrack)
    ensures
        r.describes(item),
{
    let album_art_url = match widest_cover(&item.covers) {
        Some(i) => Some(item.covers[i].name.clone()),
        None => None,
    };
    let artist = match item.artists {
        Artists::Track(names) => join_unique(names),
        Artists::Local(Some(names)) => names,
        Artists::Local(None) => String::new(),
        Artists::Episode => String::new(),
    };
    CurrentTrack { track_id: item.track_id, title: item.name, artist, album_art_url }
}

/// One entry of the device's queue: its uri as text, and who put it there.
#[derive(Debug)]
pub struct QueuedTrack {
    pub uri: String,
    pub provider: String,
}

/// What the live player reports.
#[derive(Debug)]
pub enum PlayerReport {
    TrackChanged(AudioItem),
    Playing { track_id: SpotifyUri },
    Paused { track_id: SpotifyUri },
    Stopped,
    EndOfTrack,
    Unavailable { track_id: SpotifyUri },
    SetQueue { current: Option<String>, next: Vec<QueuedTrack>, context_uri: String },
    ShuffleChanged { shuffle: bool },
    RepeatChanged { context: bool, track: bool },
    SessionConnected,
    SessionDisconnected,
    /// Loading, and everything else the core has no use for.
    Other,
}

/// The uris of the entries that were put into the queue by hand and can be
/// read; entries of the context and of autoplay confirm no arm.
pub open spec fn queued_uris(next: Seq<QueuedTrack>) -> Seq<(Seq<char>, Option<Seq<char>>)>
    decreases next.len(),
{
    if next.len() == 0 {
        Seq::empty()
    } else {
        let rest = queued_uris(next.drop_last());
        let last = next.last();
        match crate::uri::parsed_uri(last.uri@) {
            Some(uri) => if last.provider@ == "queue"@ {
                rest.push(uri)
            } else {
                rest
            },
            None => rest,
        }
    }
}

/// What a list of uris names.
pub open spec fn named(uris: Seq<SpotifyUri>) -> Seq<(Seq<char>, Option<Seq<char>>)> {
    uris.map_values(|u: SpotifyUri| (u@.text, u@.foreign_kind))
}

/// The uris of the entries that were put into the queue by hand.
pub fn queued_by_hand(next: &Vec<QueuedTrack>) -> (r: Vec<SpotifyUri>)
    ensures
        named(r@) == queued_uris(next@),
        forall|i: int| 0 <= i < r@.len() ==> (#[trigger] r@[i]).valid(),
{
    let mut out: Vec<SpotifyUri> = Vec::new();
    let mut i: usize = 0;
    assert(named(out@) =~= queued_uris(next@.take(0)));
    while i < next.len()
        invariant
            i <= next@.len(),
            named(out@) == queued_uris(next@.take(i as int)),
            forall|j: int| 0 <= j < out@.len() ==> (#[trigger] out@[j]).valid(),
        decreases next@.len() - i,
    {
        assert(next@.take(i + 1).drop_last() =~= next@.take(i as int));
        if same_text(next[i].provider.as_str(), "queue") {
            if let Some(uri) = SpotifyUri::from_uri(next[i].uri.as_str()) {
                let ghost before = out@;
                out.push(uri);
                assert(named(out@) =~= named(before).push((uri@.text, uri@.foreign_kind)));
            }
        }
        i += 1;
    }
    assert(next@.take(i as int) =~= next@);
    out
}

/// The uri a queue names as current, if it names one that can be read.
pub open spec fn reads_as(src: Option<String>, uri: Option<SpotifyUri>) -> bool {
    match src {
        Some(text) => match uri {
            Some(u) => u.valid() && crate::uri::parsed_uri(text@) == Some(
                (u@.text, u@.foreign_kind),
            ),
            None => crate::uri::parsed_uri(text@) is None,
        },
        None => uri is None,
    }
}

/// What the event loop remembers between reports.
///
/// Spotify reports shuffle and repeat in separate events, each carrying only
/// its own half, and only when something changes. Each half stays absent until
/// it is observed, and nothing is forwarded until both are: a picture
/// completed with invented defaults would be handed back on the next context
/// jump and turn the listener's shuffle off.
#[derive(Debug)]
pub struct EventFeed {
    pub current: Option<CurrentTrack>,
    pub shuffle: Option<bool>,
    pub repeat: Option<(bool, bool)>,
}

impl EventFeed {
    /// What is remembered of an earlier report for this id.
    pub open spec fn meta_of(&self, track_id: SpotifyUri) -> Option<TrackMeta> {
        match self.current {
            Some(c) => if c.track_id@ == track_id@ {
                Some(c.meta())
            } else {
                None
            },
            None => None,
        }
    }

    /// The device's options, once both halves have been observed.
    pub open spec fn options(&self) -> Option<TransportEvent> {
        match (self.shuffle, self.repeat) {
            (Some(shuffle), Some((repeat_context, repeat_track))) => Some(
                TransportEvent::OptionsChanged { shuffle, repeat_context, repeat_track },
            ),
            _ => None,
        }
    }

    /// After `event`, the feed is `after` and hands out `out`.
    pub open spec fn takes(
        &self,
        event: PlayerReport,
        after: EventFeed,
        out: Option<TransportEvent>,
    ) -> bool {
        match event {
            PlayerReport::TrackChanged(item) => {
                &&& after.shuffle == self.shuffle
                &&& after.repeat == self.repeat
                &&& after.current matches Some(c) && c.describes(item) && out == Some(
                    TransportEvent::TrackChanged { uri: item.track_id, meta: c.meta() },
                )
            },
            PlayerReport::SetQueue { current, next, context_uri } => {
                &&& after == *self
                &&& out matches Some(TransportEvent::SetQueue {
                    current: read,
                    queued,
                    context_uri: context,
                })
                &&& reads_as(current, read)
                &&& named(queued@) == queued_uris(next@)
                &&& context == (if context_uri@.len() == 0 {
                    None
                } else {
                    Some(context_uri)
                })
            },
            PlayerReport::ShuffleChanged { shuffle } => {
                &&& after == (EventFeed { shuffle: Some(shuffle), ..*self })
                &&& out == after.options()
            },
            PlayerReport::RepeatChanged { context, track } => {
                &&& after == (EventFeed { repeat: Some((context, track)), ..*self })
                &&& out == after.options()
            },
            _ => {
                &&& after == *self
                &&& out == (match event {
                    PlayerReport::Playing { track_id } => Some(
                        TransportEvent::Playing { uri: track_id, meta: self.meta_of(track_id) },
                    ),
                    PlayerReport::Paused { track_id } => Some(
                        TransportEvent::Paused { uri: track_id },
                    ),
                    PlayerReport::Stopped => Some(TransportEvent::Stopped),
                    PlayerReport::EndOfTrack => Some(TransportEvent::EndOfTrack),
                    PlayerReport::Unavailable { track_id } => Some(
                        TransportEvent::Unavailable { uri: track_id },
                    ),
                    PlayerReport::SessionConnected => Some(TransportEvent::SessionConnected),
                    PlayerReport::SessionDisconnected => Some(TransportEvent::SessionDisconnected),
                    _ => None,
                })
            },
        }
    }

    pub fn new() -> (r: Self)
        ensures
            r.current is None,
            r.shuffle is None,
            r.repeat is None,
    {
        EventFeed { current: None, shuffle: None, repeat: None }
    }

    /// The transport event a report amounts to, if any.
    pub fn take(&mut self, event: PlayerReport) -> (r: Option<TransportEvent>)
        ensures
            old(self).takes(event, *final(self), r),
    {
        match event {
            PlayerReport::TrackChanged(item) => {
                let info = track_info_from_audio_item(item);
                let uri = info.track_id.clone();
                let meta = info.to_meta();
                self.current = Some(info);
                Some(TransportEvent::TrackChanged { uri, meta })
            },
            PlayerReport::Playing { track_id } => {
                let meta = match &self.current {
                    Some(c) => if c.track_id.same(&track_id) {
                        Some(c.to_meta())
                    } else {
                        None
                    },
                    None => None,
                };
                Some(TransportEvent::Playing { uri: track_id, meta })
            },
            PlayerReport::Paused { track_id } => Some(TransportEvent::Paused { uri: track_id }),
            PlayerReport::Stopped => Some(TransportEvent::Stopped),
            PlayerReport::EndOfTrack => Some(TransportEvent::EndOfTrack),
            PlayerReport::Unavailable { track_id } => Some(
                TransportEvent::Unavailable { uri: track_id },
            ),
            PlayerReport::SetQueue { current, next, context_uri } => {
                let current = match current {
                    Some(text) => SpotifyUri::from_uri(text.as_str()),
                    None => None,
                };
                let queued = queued_by_hand(&next);
                // An empty name is absence: a bare track, or autoplay before
                // it resolves.
                let context_uri = if context_uri.as_str().is_empty() {
                    None
                } else {
                    Some(context_uri)
                };
                Some(TransportEvent::SetQueue { current, queued, context_uri })
            },
            PlayerReport::ShuffleChanged { shuffle } => {
                self.shuffle = Some(shuffle);
                self.both()
            },
            PlayerReport::RepeatChanged { context, track } => {
                self.repeat = Some((context, track));
                self.both()
            },
            PlayerReport::SessionConnected => Some(TransportEvent::SessionConnected),
            PlayerReport::SessionDisconnected => Some(TransportEvent::SessionDisconnected),
            PlayerReport::Other => None,
        }
    }

    fn both(&self) -> (r: Option<TransportEvent>)
        ensures
            r == self.options(),
    {
        match (self.shuffle, self.repeat) {
            (Some(shuffle), Some((repeat_context, repeat_track))) => Some(
                TransportEvent::OptionsChanged { shuffle, repeat_context, repeat_track },
            ),
            _ => None,
        }
    }
}

/// Options are never invented: until both halves have been reported nothing is
/// handed out, and what is handed out is the last report of each.
pub proof fn law_options_are_never_invented(
    feed: EventFeed,
    event: PlayerReport,
    after: EventFeed,
    out: Option<TransportEvent>,
)
    requires
        feed.takes(event, after, out),
    ensures
        out matches Some(TransportEvent::OptionsChanged { shuffle, repeat_context, repeat_track })
            ==> after.shuffle == Some(shuffle) && after.repeat == Some(
            (repeat_context, repeat_track),
        ),
        after.shuffle != feed.shuffle ==> event is ShuffleChanged,
        after.repeat != feed.repeat ==> event is RepeatChanged,
{
}

/// A report of playing never carries another track's metadata.
pub proof fn law_metadata_is_the_tracks_own(
    feed: EventFeed,
    track_id: SpotifyUri,
    after: EventFeed,
    out: Option<TransportEvent>,
)
    requires
        feed.takes(PlayerReport::Playing { track_id }, after, out),
    ensures
        out matches Some(TransportEvent::Playing { uri, meta }) && uri == track_id && (meta is Some
            ==> (feed.current matches Some(c) && c.track_id@ == track_id@)),
{
}

/// How a uri is resolved through the live session.
#[derive(Clone, Copy, Debug, PartialEq, Eq, Structural)]
pub enum LookupKind {
    Track,
    Episode,
    /// Nothing else can be described.
    Nothing,
}

/// How a uri is resolved, by its item type.
pub open spec fn lookup_of(text: Seq<char>) -> LookupKind {
    if crate::text::starts_with(text, "spotify:track:"@) {
        LookupKind::Track
    } else if crate::text::starts_with(text, "spotify:episode:"@) {
        LookupKind::Episode
    } else {
        LookupKind::Nothing
    }
}

/// How a uri is resolved, by its item type.
pub fn lookup_kind(uri: &SpotifyUri) -> (r: LookupKind)
    ensures
        r == lookup_of(uri@.text),
{
    let text = uri.to_uri();
    if has_prefix(text.as_str(), "spotify:track:") {
        LookupKind::Track
    } else if has_prefix(text.as_str(), "spotify:episode:") {
        LookupKind::Episode
    } else {
        LookupKind::Nothing
    }
}

/// The name an episode's maker goes by.
pub fn episode_lookup(title: String) -> (r: TrackLookup)
    ensures
        r.title == title,
        r.artist@ == "Podcast"@,
        r.album_art_url is None,
{
    TrackLookup { title, artist: "Podcast".to_owned(), album_art_url: None }
}

/// The answer to a lookup of a track, from what the session says of it: its
/// artists' names, its album's covers by file id, and the account's address
/// template for images.
pub fn track_lookup(
    title: String,
    artists: Vec<String>,
    template: Option<String>,
    covers: &Vec<Cover>,
) -> (r: TrackLookup)
    ensures
        r.title == title,
        r.artist@ == artist_line(artists@),
        cover_address(template, covers@, r.album_art_url),
{
    TrackLookup {
        title,
        artist: SpotifyPlayer::join_artist_names(artists),
        album_art_url: SpotifyPlayer::largest_cover_url(template, covers),
    }
}

/// The artists' names, or a stand-in.
pub open spec fn artist_line(names: Seq<String>) -> Seq<char> {
    if joined_artists(names).len() == 0 {
        "Unknown artist"@
    } else {
        joined_artists(names)
    }
}

/// The address template in force.
pub open spec fn image_template(template: Option<String>) -> Seq<char> {
    match template {
        Some(t) => t@,
        None => "https://i.scdn.co/image/{file_id}"@,
    }
}

/// `url` is the address of the widest cover, or absent with the covers.
pub open spec fn cover_address(
    template: Option<String>,
    covers: Seq<Cover>,
    url: Option<String>,
) -> bool {
    match url {
        Some(u) => exists|i: int| #[trigger]
            widest(covers, i) && u@ == crate::text::replaced(
                image_template(template),
                "{file_id}"@,
                covers[i].name@,
            ),
        None => covers.len() == 0,
    }
}

/// Where the device's identity came from.
#[derive(Debug)]
pub struct DeviceId {
    pub id: String,
    /// Newly made up, and still to be stored.
    pub fresh: bool,
}

/// The identity that needs no making up: the configured one, or else what is
/// stored, unless that is blank.
pub open spec fn known_device_id(explicit: Option<Seq<char>>, stored: Option<Seq<char>>) -> Option<
    Seq<char>,
> {
    match explicit {
        Some(id) => Some(id),
        None => match stored {
            Some(text) => if crate::text::blank(text) {
                None
            } else {
                Some(crate::text::trimmed(text))
            },
            None => None,
        },
    }
}

pub struct SpotifyPlayer;

impl SpotifyPlayer {
    /// The directory of the Spotify cache.
    pub fn cache_dir(paths: &Paths) -> (r: String)
        ensures
            r@ == paths@.spotify_cache,
    {
        paths.spotify_cache.clone()
    }

    /// The file that keeps the device's identity in a cache directory.
    pub fn device_id_path(host: Host, cache_dir: &str) -> (r: String)
        ensures
            r@ == crate::path::joined(host, cache_dir@, DEVICE_ID_FILE@),
    {
        join(host, cache_dir, DEVICE_ID_FILE)
    }

    /// The device's identity, from the configured one and what the cache has
    /// stored; made up when neither gives one.
    pub fn resolve_device_id(explicit: Option<&str>, stored: Option<&str>) -> (r: DeviceId)
        ensures
            match known_device_id(
                (match explicit {
                    Some(t) => Some(t@),
                    None => None,
                }),
                (match stored {
                    Some(t) => Some(t@),
                    None => None,
                }),
            ) {
                Some(id) => r.id@ == id && !r.fresh,
                None => r.fresh && exists|b: Seq<u8>|
                    b.len() == 20 && r.id@ == #[trigger] crate::bytes::hexed(b),
            },
    {
        let random = random_bytes(20);
        SpotifyPlayer::resolve_device_id_from(explicit, stored, random.as_slice())
    }

    /// The device's identity, with the bytes to make one up from at hand.
    pub fn resolve_device_id_from(
        explicit: Option<&str>,
        stored: Option<&str>,
        random: &[u8],
    ) -> (r: DeviceId)
        ensures
            match known_device_id(
                (match explicit {
                    Some(t) => Some(t@),
                    None => None,
                }),
                (match stored {
                    Some(t) => Some(t@),
                    None => None,
                }),
            ) {
                Some(id) => r.id@ == id && !r.fresh,
                None => r.fresh && r.id@ == crate::bytes::hexed(random@),
            },
    {
        if let Some(id) = explicit {
            return DeviceId { id: id.to_owned(), fresh: false };
        }
        if let Some(text) = stored {
            if !is_blank(text) {
                return DeviceId { id: trim(text), fresh: false };
            }
        }
        DeviceId { id: hex_encode(random), fresh: true }
    }

    /// All artists' names, joined the way Spotify itself displays them.
    pub fn join_artist_names(artists: Vec<String>) -> (r: String)
        ensures
            r@ == artist_line(artists@),
    {
        let joined = join_unique(artists);
        if joined.as_str().is_empty() {
            "Unknown artist".to_owned()
        } else {
            joined
        }
    }

    /// Address of the widest cover.
    pub fn largest_cover_url(template: Option<String>, covers: &Vec<Cover>) -> (r: Option<String>)
        ensures
            cover_address(template, covers@, r),
    {
        proof {
            reveal_strlit("{file_id}");
        }
        let template = match template {
            Some(t) => t,
            None => "https://i.scdn.co/image/{file_id}".to_owned(),
        };
        match widest_cover(covers) {
            Some(i) => Some(
                replace_text(template.as_str(), "{file_id}", covers[i].name.as_str()),
            ),
            None => None,
        }
    }
}

/// How often in a row the session has been reopened fast.
#[derive(Debug)]
pub struct Reconnects {
    pub count: usize,
}

impl Reconnects {
    pub fn new() -> (r: Self)
        ensures
            r.count == 0,
    {
        Reconnects { count: 0 }
    }

    /// The attempts that still count after a session that lived this long.
    pub open spec fn counted(&self, lived: u64) -> int {
        if lived >= MIN_STABLE_SESSION {
            0
        } else {
            self.count as int
        }
    }

    /// After a session that lived this long, `after` is counted and `wait` is
    /// to be waited.
    pub open spec fn ends(&self, lived: u64, after: Reconnects, wait: Option<u64>) -> bool {
        if self.counted(lived) < MAX_FAST_RECONNECTS {
            &&& after.count == self.counted(lived) + 1
            &&& wait == Some((2 * after.count) as u64)
        } else {
            &&& wait is None
            &&& after.count == self.count
        }
    }

    /// A session has ended after `lived` nanoseconds: the seconds to wait
    /// before reopening it, or `None` to give the token back for a refresh.
    pub fn ended(&mut self, lived: u64) -> (r: Option<u64>)
        ensures
            old(self).ends(lived, *final(self), r),
    {
        if lived >= MIN_STABLE_SESSION {
            self.count = 0;
        }
        if self.count < MAX_FAST_RECONNECTS {
            self.count += 1;
            Some(2 * self.count as u64)
        } else {
            None
        }
    }
}

/// What happens to a live device.
pub enum DeviceEvent {
    /// Connecting took too long.
    ConnectTimedOut,
    ConnectFailed(String),
    Command(SpircCommand),
    /// Nobody can send commands any more.
    CommandsClosed,
    /// The session has ended by itself, this many nanoseconds after it was
    /// established.
    Ended { lived: u64 },
}

/// How the run of a device goes on.
#[derive(Debug)]
pub enum DeviceNext {
    /// Serve the session and its commands.
    Serve,
    /// Connect anew after this many seconds.
    Reconnect { after: u64 },
    /// The device was told to go away.
    Stopped,
    /// Give the token back for a refresh, and report the session as gone.
    GiveBack,
    Fail(String),
}

/// The run of the device under one access token.
#[derive(Debug)]
pub struct DeviceRun {
    pub reconnects: Reconnects,
    /// Somebody can still send commands.
    pub commanded: bool,
}

impl DeviceRun {
    pub fn new() -> (r: Self)
        ensures
            r.reconnects.count == 0,
            r.commanded,
    {
        DeviceRun { reconnects: Reconnects::new(), commanded: true }
    }

    /// After `event` the run is `after`, the calls have been made, and it goes
    /// on as `next` says.
    pub open spec fn goes(
        &self,
        event: DeviceEvent,
        after: DeviceRun,
        calls: Seq<SpircCall>,
        next: DeviceNext,
    ) -> bool {
        match event {
            DeviceEvent::ConnectTimedOut => {
                &&& after == *self
                &&& calls.len() == 0
                &&& next matches DeviceNext::Fail(text) && text@ == "spirc connect timeout"@
            },
            DeviceEvent::ConnectFailed(text) => {
                &&& after == *self
                &&& calls.len() == 0
                &&& next == DeviceNext::Fail(text)
            },
            DeviceEvent::Command(cmd) => {
                &&& after == *self
                &&& calls == calls_of(cmd).0
                &&& next == (if calls_of(cmd).1 {
                    DeviceNext::Serve
                } else {
                    DeviceNext::Stopped
                })
            },
            DeviceEvent::CommandsClosed => {
                &&& after == (DeviceRun { commanded: false, ..*self })
                &&& calls.len() == 0
                &&& next == DeviceNext::Serve
            },
            DeviceEvent::Ended { lived } => {
                &&& after.commanded == self.commanded
                &&& calls == seq![SpircCall::Shutdown]
                &&& if self.reconnects.counted(lived) < MAX_FAST_RECONNECTS {
                    &&& after.reconnects.count == self.reconnects.counted(lived) + 1
                    &&& next == (DeviceNext::Reconnect {
                        after: (2 * after.reconnects.count) as u64,
                    })
                } else {
                    &&& after.reconnects == self.reconnects
                    &&& next == DeviceNext::GiveBack
                }
            },
        }
    }

    /// The calls an event makes on the device, and how the run goes on.
    pub fn on(&mut self, event: DeviceEvent) -> (r: (Vec<SpircCall>, DeviceNext))
        ensures
            old(self).goes(event, *final(self), r.0@, r.1),
    {
        match event {
            DeviceEvent::ConnectTimedOut => (
                Vec::new(),
                DeviceNext::Fail("spirc connect timeout".to_owned()),
            ),
            DeviceEvent::ConnectFailed(text) => (Vec::new(), DeviceNext::Fail(text)),
            DeviceEvent::Command(cmd) => {
                let (calls, goes_on) = spirc_calls(cmd);
                if goes_on {
                    (calls, DeviceNext::Serve)
                } else {
                    (calls, DeviceNext::Stopped)
                }
            },
            DeviceEvent::CommandsClosed => {
                self.commanded = false;
                (Vec::new(), DeviceNext::Serve)
            },
            DeviceEvent::Ended { lived } => {
                let mut calls: Vec<SpircCall> = Vec::new();
                calls.push(SpircCall::Shutdown);
                assert(calls@ =~= seq![SpircCall::Shutdown]);
                match self.reconnects.ended(lived) {
                    Some(after) => (calls, DeviceNext::Reconnect { after }),
                    None => (calls, DeviceNext::GiveBack),
                }
            },
        }
    }
}

/// Every decision of the player core reaches the device as the call of its own
/// name, and lets the session go on. A load claims the device first, and so does
/// the return to a context; a release pauses; the options of a jump are handed
/// on as they are.
pub proof fn law_decisions_reach_the_device_by_name(
    decision: SpircCmd,
    cmd: SpircCommand,
    calls: Vec<SpircCall>,
    goes_on: bool,
)
    requires
        call_ensures(spirc_command, (decision,), cmd),
        call_ensures(spirc_calls, (cmd,), (calls, goes_on)),
    ensures
        goes_on,
        match decision {
            SpircCmd::Pause => calls@ =~= seq![SpircCall::Pause],
            SpircCmd::Play => calls@ =~= seq![SpircCall::Play],
            SpircCmd::Next => calls@ =~= seq![SpircCall::Next],
            SpircCmd::Previous => calls@ =~= seq![SpircCall::Prev],
            SpircCmd::AddToQueue(uri) => calls@ =~= seq![SpircCall::AddToQueue(uri)],
            SpircCmd::Load(uri) => calls@ =~= seq![SpircCall::Activate, SpircCall::LoadTrack(uri)],
            SpircCmd::ActivateDevice => calls@ =~= seq![SpircCall::Activate],
            SpircCmd::Transfer => calls@ =~= seq![SpircCall::Transfer],
            SpircCmd::Disconnect => calls@ =~= seq![SpircCall::Disconnect { pause: true }],
            SpircCmd::LoadContext { context_uri, track_uri, options } => calls@ =~= seq![
                SpircCall::Activate,
                SpircCall::LoadContext {
                    context_uri,
                    track_uri,
                    options: Some(
                        (options.shuffle, options.repeat_context, options.repeat_track),
                    ),
                },
            ],
        },
{
}

/// No two commands make the same calls, so none can stand in for another; and
/// only the shutdown ends the session.
pub proof fn law_no_command_stands_in_for_another(a: SpircCommand, b: SpircCommand)
    ensures
        a != b ==> calls_of(a).0 != calls_of(b).0,
        calls_of(a).1 <==> !(a is Shutdown),
        a is Shutdown ==> calls_of(a).0 =~= seq![SpircCall::Shutdown],
        a matches SpircCommand::Lookup(uri, reply) ==> calls_of(a).0 =~= seq![
            SpircCall::Lookup(uri, reply),
        ],
        a matches SpircCommand::LoadContext { context_uri, track_uri, options }
            ==> calls_of(a).0.last() == (SpircCall::LoadContext {
            context_uri,
            track_uri,
            options,
        }),
{
    let x = calls_of(a).0;
    let y = calls_of(b).0;
    if a != b && x == y {
        assert(x.len() == y.len());
        assert(x.last() == y.last());
    }
}

/// Every report reaches the player core under its own name and with its own
/// track: a change of track with the item's name, its makers and its widest
/// cover; a report of playing with what was last said of that very track; a
/// queue with what was put there by hand. Nothing else reaches it.
pub proof fn law_reports_keep_their_meaning(
    feed: EventFeed,
    event: PlayerReport,
    after: EventFeed,
    out: Option<TransportEvent>,
)
    requires
        feed.takes(event, after, out),
    ensures
        match event {
            PlayerReport::TrackChanged(item) => {
                &&& out matches Some(TransportEvent::TrackChanged { uri, meta }) && {
                    &&& uri == item.track_id
                    &&& meta.title == item.name
                    &&& meta.artist@ == (match item.artists {
                        Artists::Track(names) => joined_artists(names@),
                        Artists::Local(Some(names)) => names@,
                        _ => Seq::empty(),
                    })
                    &&& meta.album_art_url is None <==> item.covers@.len() == 0
                    &&& meta.album_art_url matches Some(url) ==> exists|i: int|
                        {
                            &&& 0 <= i < item.covers@.len()
                            &&& url == (#[trigger] item.covers@[i]).name
                            &&& forall|j: int|
                                0 <= j < item.covers@.len() ==> (#[trigger] item.covers@[j]).width
                                    <= item.covers@[i].width
                            &&& forall|j: int|
                                i < j < item.covers@.len() ==> (#[trigger] item.covers@[j]).width
                                    < item.covers@[i].width
                        }
                }
                &&& after.current matches Some(c) && c.track_id == item.track_id && c.title
                    == item.name
            },
            PlayerReport::Playing { track_id } => {
                &&& after == feed
                &&& out == Some(
                    TransportEvent::Playing {
                        uri: track_id,
                        meta: if feed.current matches Some(c) && c.track_id@ == track_id@ {
                            Some(
                                TrackMeta {
                                    title: feed.current->0.title,
                                    artist: feed.current->0.artist,
                                    album_art_url: feed.current->0.album_art_url,
                                },
                            )
                        } else {
                            None
                        },
                    },
                )
            },
            PlayerReport::Paused { track_id } => after == feed && out == Some(
                TransportEvent::Paused { uri: track_id },
            ),
            PlayerReport::Stopped => after == feed && out == Some(TransportEvent::Stopped),
            PlayerReport::EndOfTrack => after == feed && out == Some(TransportEvent::EndOfTrack),
            PlayerReport::Unavailable { track_id } => after == feed && out == Some(
                TransportEvent::Unavailable { uri: track_id },
            ),
            PlayerReport::SetQueue { current, next, context_uri } => {
                &&& after == feed
                &&& out matches Some(TransportEvent::SetQueue {
                    current: now,
                    queued,
                    context_uri: context,
                }) && {
                    &&& now matches Some(uri) ==> current is Some && crate::uri::parsed_uri(
                        current->0@,
                    ) == Some((uri@.text, uri@.foreign_kind))
                    &&& now is None && current is Some ==> crate::uri::parsed_uri(
                        current->0@,
                    ) is None
                    &&& context == (if context_uri@.len() > 0 {
                        Some(context_uri)
                    } else {
                        None
                    })
                    &&& named(queued@) == queued_uris(next@)
                }
            },
            PlayerReport::ShuffleChanged { shuffle } => {
                &&& after.shuffle == Some(shuffle)
                &&& after.repeat == feed.repeat && after.current == feed.current
                &&& out == (match feed.repeat {
                    Some((repeat_context, repeat_track)) => Some(
                        TransportEvent::OptionsChanged { shuffle, repeat_context, repeat_track },
                    ),
                    None => None,
                })
            },
            PlayerReport::RepeatChanged { context, track } => {
                &&& after.repeat == Some((context, track))
                &&& after.shuffle == feed.shuffle && after.current == feed.current
                &&& out == (match feed.shuffle {
                    Some(shuffle) => Some(
                        TransportEvent::OptionsChanged {
                            shuffle,
                            repeat_context: context,
                            repeat_track: track,
                        },
                    ),
                    None => None,
                })
            },
            PlayerReport::SessionConnected => after == feed && out == Some(
                TransportEvent::SessionConnected,
            ),
            PlayerReport::SessionDisconnected => after == feed && out == Some(
                TransportEvent::SessionDisconnected,
            ),
            PlayerReport::Other => after == feed && out is None,
        },
{
}

/// An entry counts as queued exactly if it was put into the queue by hand and
/// its uri can be read.
pub proof fn law_only_entries_put_there_by_hand_count(
    next: Seq<QueuedTrack>,
    uri: (Seq<char>, Option<Seq<char>>),
)
    ensures
        queued_uris(next).contains(uri) <==> exists|i: int|
            0 <= i < next.len() && (#[trigger] next[i]).provider@ == "queue"@
                && crate::uri::parsed_uri(next[i].uri@) == Some(uri),
        queued_uris(next).len() <= next.len(),
    decreases next.len(),
{
    if next.len() > 0 {
        let before = next.drop_last();
        let last = next.last();
        law_only_entries_put_there_by_hand_count(before, uri);
        let found = queued_uris(before);
        let all = queued_uris(next);
        if found.contains(uri) {
            let i = choose|i: int|
                0 <= i < before.len() && (#[trigger] before[i]).provider@ == "queue"@
                    && crate::uri::parsed_uri(before[i].uri@) == Some(uri);
            assert(next[i] == before[i]);
            let k = choose|k: int| 0 <= k < found.len() && found[k] == uri;
            assert(all[k] == uri);
        }
        if last.provider@ == "queue"@ && crate::uri::parsed_uri(last.uri@) == Some(uri) {
            assert(next[next.len() - 1] == last);
            assert(all.last() == uri);
            assert(all[all.len() - 1] == uri);
        }
        if all.contains(uri) && !found.contains(uri) {
            let k = choose|k: int| 0 <= k < all.len() && all[k] == uri;
            if k < found.len() {
                assert(found[k] == uri);
            }
            assert(next[next.len() - 1] == last);
        }
        if exists|i: int|
            0 <= i < next.len() && (#[trigger] next[i]).provider@ == "queue"@
                && crate::uri::parsed_uri(next[i].uri@) == Some(uri) {
            let i = choose|i: int|
                0 <= i < next.len() && (#[trigger] next[i]).provider@ == "queue"@
                    && crate::uri::parsed_uri(next[i].uri@) == Some(uri);
            if i < before.len() {
                assert(before[i] == next[i]);
            }
        }
    }
}

/// A uri is looked up by its kind: tracks as tracks, episodes as episodes, and
/// nothing else.
pub proof fn law_uris_are_looked_up_by_kind(uri: SpotifyUri, kind: LookupKind)
    requires
        call_ensures(lookup_kind, (&uri,), kind),
    ensures
        kind is Track <==> exists|id: Seq<char>| uri@.text == #[trigger] ("spotify:track:"@ + id),
        kind is Episode <==> exists|id: Seq<char>|
            uri@.text == #[trigger] ("spotify:episode:"@ + id),
{
    let text = uri@.text;
    reveal_strlit("spotify:track:");
    reveal_strlit("spotify:episode:");
    if crate::text::starts_with(text, "spotify:track:"@) {
        assert(text =~= "spotify:track:"@ + text.skip(14));
        assert(text[8] == "spotify:track:"@[8]) by {
            assert(text.subrange(0, 14)[8] == text[8]);
        }
    }
    if crate::text::starts_with(text, "spotify:episode:"@) {
        assert(text =~= "spotify:episode:"@ + text.skip(16));
        assert(text[8] == "spotify:episode:"@[8]) by {
            assert(text.subrange(0, 16)[8] == text[8]);
        }
    }
    assert forall|id: Seq<char>| text == #[trigger] ("spotify:track:"@ + id) implies kind is Track by {
        assert(text.subrange(0, 14) =~= "spotify:track:"@);
    }
    assert forall|id: Seq<char>|
        text == #[trigger] ("spotify:episode:"@ + id) implies kind is Episode by {
        assert(text.subrange(0, 16) =~= "spotify:episode:"@);
        assert(text[8] == 'e');
        assert(text.subrange(0, 14)[8] == text[8]);
    }
}

/// An episode goes by its title and the name podcasts have; a track by its
/// title, its artists' names, or a stand-in for them, and its widest cover.
pub proof fn law_lookups_describe_the_track(
    title: String,
    artists: Vec<String>,
    template: Option<String>,
    covers: Vec<Cover>,
    episode: TrackLookup,
    track: TrackLookup,
)
    requires
        call_ensures(episode_lookup, (title,), episode),
        call_ensures(track_lookup, (title, artists, template, &covers), track),
    ensures
        episode.title == title,
        episode.artist@ == "Podcast"@,
        episode.album_art_url is None,
        track.title == title,
        joined_artists(artists@).len() > 0 ==> track.artist@ == joined_artists(artists@),
        joined_artists(artists@).len() == 0 ==> track.artist@ == "Unknown artist"@,
        track.album_art_url is None <==> covers@.len() == 0,
        track.album_art_url matches Some(url) ==> exists|i: int|
            {
                &&& 0 <= i < covers@.len()
                &&& forall|j: int|
                    0 <= j < covers@.len() ==> (#[trigger] covers@[j]).width <= covers@[i].width
                &&& url@ == crate::text::replaced(
                    match template {
                        Some(text) => text@,
                        None => "https://i.scdn.co/image/{file_id}"@,
                    },
                    "{file_id}"@,
                    (#[trigger] covers@[i]).name@,
                )
            },
{
}

/// The device keeps its identity: the configured one stands for itself, and
/// what was stored, but for the space around it, comes back; only without
/// either is one made up from the bytes at hand, and then it is to be stored.
pub proof fn law_the_device_keeps_its_identity(
    explicit: Option<&str>,
    stored: Option<&str>,
    random: &[u8],
    id: DeviceId,
)
    requires
        call_ensures(SpotifyPlayer::resolve_device_id_from, (explicit, stored, random), id),
    ensures
        explicit matches Some(text) ==> id.id@ == text@ && !id.fresh,
        explicit is None && (stored matches Some(text) && !crate::text::blank(text@)) ==> id.id@
            == crate::text::trimmed(stored->0@) && !id.fresh,
        explicit is None && (stored matches Some(text) ==> crate::text::blank(text@)) ==> id.fresh
            && id.id@ == crate::bytes::hexed(random@),
{
}

/// A session is reopened five times in a row, after two, four, six, eight and
/// ten seconds; one that lived a minute starts the count anew. After that the
/// token is given back.
pub proof fn law_fast_reconnects_run_out(
    before: Reconnects,
    lived: u64,
    after: Reconnects,
    wait: Option<u64>,
)
    requires
        before.ends(lived, after, wait),
    ensures
        lived >= 60_000_000_000 ==> after.count == 1 && wait == Some(2u64),
        lived < 60_000_000_000 && before.count < 5 ==> after.count == before.count + 1 && wait
            == Some((2 * (before.count + 1)) as u64),
        lived < 60_000_000_000 && before.count >= 5 ==> after.count == before.count
            && wait is None,
{
}

/// The run of a device ends only on a shutdown, a failed connection or when its
/// reconnects have run out; every other command leaves it serving, with the
/// command's own calls; a session that ended by itself is shut down before the
/// next one.
pub proof fn law_the_device_serves_until_told_otherwise(
    run: DeviceRun,
    event: DeviceEvent,
    after: DeviceRun,
    calls: Seq<SpircCall>,
    next: DeviceNext,
)
    requires
        run.goes(event, after, calls, next),
    ensures
        match event {
            DeviceEvent::ConnectTimedOut => after == run && calls.len() == 0 && (
            next matches DeviceNext::Fail(text) && text@ == "spirc connect timeout"@),
            DeviceEvent::ConnectFailed(text) => after == run && calls.len() == 0 && next
                == DeviceNext::Fail(text),
            DeviceEvent::Command(cmd) => {
                &&& after == run
                &&& calls == calls_of(cmd).0
                &&& next is Stopped <==> cmd is Shutdown
                &&& next is Serve <==> !(cmd is Shutdown)
            },
            DeviceEvent::CommandsClosed => {
                &&& !after.commanded && after.reconnects == run.reconnects
                &&& calls.len() == 0
                &&& next is Serve
            },
            DeviceEvent::Ended { lived } => {
                &&& calls =~= seq![SpircCall::Shutdown]
                &&& after.commanded == run.commanded
                &&& run.reconnects.ends(
                    lived,
                    after.reconnects,
                    (match next {
                        DeviceNext::Reconnect { after } => Some(after),
                        _ => None,
                    }),
                )
                &&& next is Reconnect || next is GiveBack
            },
        },
{
}

/// A report, the end of a session and an event of the device do what is told
/// of them above.
pub proof fn law_calls_on_the_device(
    feed: &mut EventFeed,
    report: PlayerReport,
    out: Option<TransportEvent>,
    reconnects: &mut Reconnects,
    lived: u64,
    wait: Option<u64>,
    run: &mut DeviceRun,
    event: DeviceEvent,
    went: (Vec<SpircCall>, DeviceNext),
    next: Vec<QueuedTrack>,
    queued: Vec<SpotifyUri>,
)
    requires
        call_ensures(EventFeed::take, (feed, report), out),
        call_ensures(Reconnects::ended, (reconnects, lived), wait),
        call_ensures(DeviceRun::on, (run, event), went),
        call_ensures(queued_by_hand, (&next,), queued),
    ensures
        old(feed).takes(report, *final(feed), out),
        old(reconnects).ends(lived, *final(reconnects), wait),
        old(run).goes(event, *final(run), went.0@, went.1),
        named(queued@) == queued_uris(next@),
{
}

/// Artists are listed once each, in order, between commas; a track without any
/// is by an unknown one. An item is described by its own name, makers and
/// widest cover, the last of equally wide ones.
pub proof fn law_items_are_described(
    names: Vec<String>,
    joined: String,
    line: String,
    item: AudioItem,
    track: CurrentTrack,
    template: Option<String>,
    covers: Vec<Cover>,
    address: Option<String>,
    i: int,
)
    requires
        call_ensures(join_unique, (names,), joined),
        call_ensures(SpotifyPlayer::join_artist_names, (names,), line),
        call_ensures(track_info_from_audio_item, (item,), track),
        call_ensures(SpotifyPlayer::largest_cover_url, (template, &covers), address),
    ensures
        joined@ == crate::text::separated(crate::text::distinct(names@), ", "@),
        joined@.len() > 0 ==> line@ == joined@,
        joined@.len() == 0 ==> line@ == "Unknown artist"@,
        track.track_id == item.track_id && track.title == item.name,
        item.artists matches Artists::Track(by) ==> track.artist@ == crate::text::separated(
            crate::text::distinct(by@),
            ", "@,
        ),
        item.artists matches Artists::Local(Some(by)) ==> track.artist@ == by@,
        item.artists matches Artists::Local(None) ==> track.artist@.len() == 0,
        item.artists is Episode ==> track.artist@.len() == 0,
        item.covers@.len() == 0 <==> track.album_art_url is None,
        covers@.len() == 0 <==> address is None,
        0 <= i < item.covers@.len() && (forall|j: int|
            0 <= j < item.covers@.len() ==> (#[trigger] item.covers@[j]).width < item.covers@[i].width
                || j <= i && item.covers@[j].width <= item.covers@[i].width)
            ==> track.album_art_url == Some(item.covers@[i].name),
        0 <= i < covers@.len() && (forall|j: int|
            0 <= j < covers@.len() ==> (#[trigger] covers@[j]).width < covers@[i].width || j <= i
                && covers@[j].width <= covers@[i].width) ==> (address matches Some(url) && url@
            == crate::text::replaced(
            (match template {
                Some(t) => t@,
                None => "https://i.scdn.co/image/{file_id}"@,
            }),
            "{file_id}"@,
            covers@[i].name@,
        )),
{
    if item.covers@.len() > 0 {
        let k = choose|k: int| #[trigger] widest(item.covers@, k) && track.album_art_url == Some(item.covers@[k].name);
        assert(widest(item.covers@, k));
    }
    if covers@.len() > 0 {
        let k = choose|k: int| #[trigger]
            widest(covers@, k) && address->0@ == crate::text::replaced(
                image_template(template),
                "{file_id}"@,
                covers@[k].name@,
            );
        assert(widest(covers@, k));
    }
}

/// The device's identity is kept in one file of the cache, which lies where
/// the paths say; one that is known is used, and one that is made up is twenty
/// bytes in hexadecimal.
pub proof fn law_the_identity_is_kept_in_the_cache(
    paths: Paths,
    dir: String,
    host: Host,
    cache_dir: &str,
    file: String,
    explicit: Option<&str>,
    stored: Option<&str>,
    r: DeviceId,
)
    requires
        call_ensures(SpotifyPlayer::cache_dir, (&paths,), dir),
        call_ensures(SpotifyPlayer::device_id_path, (host, cache_dir), file),
        call_ensures(SpotifyPlayer::resolve_device_id, (explicit, stored), r),
    ensures
        dir@ == paths.spotify_cache@,
        file@ == crate::path::joined(host, cache_dir@, "device_id"@),
        explicit matches Some(id) ==> r.id@ == id@ && !r.fresh,
        explicit is None ==> (stored matches Some(text) ==> {
            &&& !crate::text::blank(text@) ==> r.id@ == crate::text::trimmed(text@) && !r.fresh
            &&& crate::text::blank(text@) ==> r.fresh && r.id@.len() == 40
        }),
        explicit is None && stored is None ==> r.fresh && r.id@.len() == 40,
{
}

} // verus!
