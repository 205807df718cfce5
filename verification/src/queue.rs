//! The queue of requested tracks: strict order across every source, bounded,
//! each residency named by a fresh id.

use std::collections::VecDeque;

use vstd::prelude::*;

use crate::text::{cat, cat3, decimal2_text, decimal_text};
use crate::uri::SpotifyUri;

verus! {

/// Where a queued track comes from.
#[derive(Debug)]
pub enum MediaSource {
    YouTube {
        url: String,
        video_id: String,
        title: String,
        channel: String,
        thumbnail_url: Option<String>,
        duration_secs: u64,
    },
    File { filename: String, attachment_url: String },
    Spotify {
        uri: SpotifyUri,
        title: String,
        artist: String,
        album_art_url: Option<String>,
    },
}

/// A track length as `M:SS`, or `H:MM:SS` from an hour up.
pub open spec fn clock_time(secs: nat) -> Seq<char> {
    let h = secs / 3600;
    let m = (secs % 3600) / 60;
    let s = secs % 60;
    if h > 0 {
        crate::text::decimal(h) + ":"@ + crate::text::decimal2(m) + ":"@ + crate::text::decimal2(s)
    } else {
        crate::text::decimal(m) + ":"@ + crate::text::decimal2(s)
    }
}

impl MediaSource {
    /// The title shown for this source.
    pub open spec fn title(&self) -> Seq<char> {
        match *self {
            MediaSource::YouTube { title, .. } => title@,
            MediaSource::File { filename, .. } => filename@,
            MediaSource::Spotify { title, .. } => title@,
        }
    }

    /// The line shown under the title.
    pub open spec fn subtitle(&self) -> Seq<char> {
        match *self {
            MediaSource::YouTube { channel, .. } => channel@,
            MediaSource::File { .. } => "File upload"@,
            MediaSource::Spotify { artist, .. } => artist@,
        }
    }

    /// The length shown, where the queue knows it.
    pub open spec fn duration(&self) -> Option<Seq<char>> {
        match *self {
            MediaSource::YouTube { duration_secs, .. } => Some(clock_time(duration_secs as nat)),
            _ => None,
        }
    }

    pub fn display_title(&self) -> (r: &str)
        ensures
            r@ == self.title(),
    {
        match self {
            MediaSource::YouTube { title, .. } => title.as_str(),
            MediaSource::File { filename, .. } => filename.as_str(),
            MediaSource::Spotify { title, .. } => title.as_str(),
        }
    }

    pub fn display_subtitle(&self) -> (r: String)
        ensures
            r@ == self.subtitle(),
    {
        match self {
            MediaSource::YouTube { channel, .. } => channel.clone(),
            MediaSource::File { .. } => "File upload".to_owned(),
            MediaSource::Spotify { artist, .. } => artist.clone(),
        }
    }

    /// Track length as "M:SS" (or "H:MM:SS"); `None` for file uploads, whose
    /// length isn't known until decode, and for Spotify tracks, whose
    /// duration isn't fetched by the queue layer.
    pub fn display_duration(&self) -> (r: Option<String>)
        ensures
            crate::text::text_of(r) == self.duration(),
    {
        match self {
            MediaSource::YouTube { duration_secs, .. } => {
                let h: u64 = *duration_secs / 3600;
                let m: u64 = (*duration_secs % 3600) / 60;
                let s: u64 = *duration_secs % 60;
                let tail = cat(":", &decimal2_text(s));
                Some(if h > 0 {
                    let head = cat3(&decimal_text(h), ":", &decimal2_text(m));
                    let text = cat(&head, &tail);
                    proof {
                        let h = crate::text::decimal(h as nat);
                        let m = crate::text::decimal2(m as nat);
                        let s = crate::text::decimal2(s as nat);
                        assert(h + ":"@ + m + (":"@ + s) =~= h + ":"@ + m + ":"@ + s);
                    }
                    text
                } else {
                    let text = cat(&decimal_text(m), &tail);
                    proof {
                        let m = crate::text::decimal(m as nat);
                        let s = crate::text::decimal2(s as nat);
                        assert(m + (":"@ + s) =~= m + ":"@ + s);
                    }
                    text
                })
            },
            MediaSource::File { .. } => None,
            MediaSource::Spotify { .. } => None,
        }
    }

    /// The accent colour of the card for this source.
    pub fn embed_color(&self) -> (r: u32)
        ensures
            r == match *self {
                MediaSource::YouTube { .. } => 0xFF0000u32,
                MediaSource::File { .. } => 0x5865F2u32,
                MediaSource::Spotify { .. } => 0x1DB954u32,
            },
    {
        match self {
            MediaSource::YouTube { .. } => 0xFF0000,
            MediaSource::File { .. } => 0x5865F2,
            MediaSource::Spotify { .. } => 0x1DB954,
        }
    }
}

impl Clone for MediaSource {
    fn clone(&self) -> (r: Self)
        ensures
            r == *self,
    {
        match self {
            MediaSource::YouTube { url, video_id, title, channel, thumbnail_url, duration_secs } =>
            MediaSource::YouTube {
                url: url.clone(),
                video_id: video_id.clone(),
                title: title.clone(),
                channel: channel.clone(),
                thumbnail_url: crate::text::clone_text(thumbnail_url),
                duration_secs: *duration_secs,
            },
            MediaSource::File { filename, attachment_url } => MediaSource::File {
                filename: filename.clone(),
                attachment_url: attachment_url.clone(),
            },
            MediaSource::Spotify { uri, title, artist, album_art_url } => MediaSource::Spotify {
                uri: uri.clone(),
                title: title.clone(),
                artist: artist.clone(),
                album_art_url: crate::text::clone_text(album_art_url),
            },
        }
    }
}

/// One requested track.
#[derive(Debug)]
pub struct QueueItem {
    pub source: MediaSource,
    pub queued_by: String,
    pub queued_by_id: u64,
    /// Queue-assigned identity, stamped by `push`/`push_front`/`insert` from
    /// the queue's monotonic counter. `0` means "not yet queued"; every
    /// insertion (including a re-insertion of a popped item) stamps a fresh
    /// id, so an id names one residency in the queue, not the track itself.
    pub item_id: u64,
}

impl QueueItem {
    /// Build an item awaiting insertion; the queue stamps `item_id` when the
    /// item is pushed, so constructors never invent ids.
    pub fn new(source: MediaSource, queued_by: String, queued_by_id: u64) -> (r: Self)
        ensures
            r == (QueueItem { source, queued_by, queued_by_id, item_id: 0 }),
    {
        QueueItem { source, queued_by, queued_by_id, item_id: 0 }
    }

    /// The item as Spotify knows it, for a Spotify request.
    pub open spec fn spotify_uri(&self) -> Option<crate::uri::UriModel> {
        match self.source {
            MediaSource::Spotify { uri, .. } => Some(uri@),
            _ => None,
        }
    }

    pub fn is_spotify(&self) -> (r: bool)
        ensures
            r == (self.source is Spotify),
    {
        matches!(self.source, MediaSource::Spotify { .. })
    }

    /// Whether this is a request for exactly this Spotify item.
    pub fn requests(&self, wanted: &SpotifyUri) -> (r: bool)
        ensures
            r == (self.spotify_uri() == Some(wanted@)),
    {
        match &self.source {
            MediaSource::Spotify { uri, .. } => uri.same(wanted),
            _ => false,
        }
    }
}

impl Clone for QueueItem {
    fn clone(&self) -> (r: Self)
        ensures
            r == *self,
    {
        QueueItem {
            source: self.source.clone(),
            queued_by: self.queued_by.clone(),
            queued_by_id: self.queued_by_id,
            item_id: self.item_id,
        }
    }
}

/// Maximum queued items.
pub const MAX_QUEUE_LEN: usize = 500;

/// The queue as a sequence of items in play order, with the last id stamped.
pub struct QueueModel {
    pub items: Seq<QueueItem>,
    pub last_id: nat,
}

impl QueueModel {
    /// Bounded; every item carries an id that was stamped here, and no two
    /// items share one.
    pub open spec fn wf(self) -> bool {
        &&& self.items.len() <= MAX_QUEUE_LEN
        &&& forall|i: int|
            0 <= i < self.items.len() ==> 1 <= (#[trigger] self.items[i]).item_id <= self.last_id
        &&& forall|i: int, j: int|
            0 <= i < j < self.items.len() ==> (#[trigger] self.items[i]).item_id != (
            #[trigger] self.items[j]).item_id
    }

    pub open spec fn full(self) -> bool {
        self.items.len() >= MAX_QUEUE_LEN
    }

    /// `item` under the next id.
    pub open spec fn stamped(self, item: QueueItem) -> QueueItem {
        QueueItem { item_id: (self.last_id + 1) as u64, ..item }
    }

    /// `item` added at position `at`, or at the tail past the end; unchanged
    /// when full.
    pub open spec fn inserted(self, at: int, item: QueueItem) -> QueueModel {
        if self.full() {
            self
        } else {
            let at = if at < self.items.len() {
                at
            } else {
                self.items.len() as int
            };
            QueueModel {
                items: self.items.insert(at, self.stamped(item)),
                last_id: self.last_id + 1,
            }
        }
    }

    /// Without its first item.
    pub open spec fn popped(self) -> QueueModel {
        if self.items.len() == 0 {
            self
        } else {
            QueueModel { items: self.items.drop_first(), ..self }
        }
    }

    /// Without the item at `at`.
    pub open spec fn without(self, at: int) -> QueueModel {
        if 0 <= at < self.items.len() {
            QueueModel { items: self.items.remove(at), ..self }
        } else {
            self
        }
    }

    pub open spec fn cleared(self) -> QueueModel {
        QueueModel { items: Seq::empty(), ..self }
    }
}

/// The position of the first item that satisfies `p`, or the length when none
/// does.
pub open spec fn first_index(items: Seq<QueueItem>, p: spec_fn(QueueItem) -> bool) -> int
    decreases items.len(),
{
    if items.len() == 0 || p(items[0]) {
        0
    } else {
        1 + first_index(items.drop_first(), p)
    }
}

/// What `first_index` means: nothing before it satisfies `p`, and the item
/// there does.
pub proof fn lemma_first_index(items: Seq<QueueItem>, p: spec_fn(QueueItem) -> bool)
    ensures
        0 <= first_index(items, p) <= items.len(),
        forall|j: int| 0 <= j < first_index(items, p) ==> !p(#[trigger] items[j]),
        first_index(items, p) < items.len() ==> p(items[first_index(items, p)]),
    decreases items.len(),
{
    if items.len() == 0 || p(items[0]) {
    } else {
        let rest = items.drop_first();
        lemma_first_index(rest, p);
        assert forall|j: int| 0 <= j < first_index(items, p) implies !p(#[trigger] items[j]) by {
            if j > 0 {
                assert(items[j] == rest[j - 1]);
            }
        }
    }
}

/// The first position is the only one with that property.
pub proof fn lemma_first_index_unique(
    items: Seq<QueueItem>,
    p: spec_fn(QueueItem) -> bool,
    k: int,
)
    requires
        0 <= k < items.len(),
        p(items[k]),
        forall|j: int| 0 <= j < k ==> !p(#[trigger] items[j]),
    ensures
        first_index(items, p) == k,
{
    lemma_first_index(items, p);
    let f = first_index(items, p);
    if f < k {
        assert(!p(items[f]));
    }
    if f > k {
        assert(!p(items[k]));
    }
}

/// Bot-managed queue of YouTube, file and Spotify requests.
pub struct PriorityQueue {
    items: VecDeque<QueueItem>,
    /// Monotonic `item_id` source; the last stamped id (0 = none yet).
    /// Never reused, so ids stay unique across pops and reorders.
    next_item_id: u64,
}

impl View for PriorityQueue {
    type V = QueueModel;

    closed spec fn view(&self) -> QueueModel {
        QueueModel { items: self.items@, last_id: self.next_item_id as nat }
    }
}

impl PriorityQueue {
    pub open spec fn wf(&self) -> bool {
        self@.wf()
    }

    pub fn new() -> (r: Self)
        ensures
            r.wf(),
            r@ == (QueueModel { items: Seq::empty(), last_id: 0 }),
    {
        PriorityQueue { items: VecDeque::new(), next_item_id: 0 }
    }

    /// The last id stamped (0 = none yet).
    pub fn last_id(&self) -> (r: u64)
        ensures
            r == self@.last_id,
    {
        self.next_item_id
    }

    /// Stamp the next monotonic id onto an item about to be inserted.
    fn stamp(&mut self, item: QueueItem) -> (r: QueueItem)
        requires
            old(self)@.last_id < u64::MAX,
        ensures
            r == old(self)@.stamped(item),
            final(self)@ == (QueueModel { last_id: old(self)@.last_id + 1, ..old(self)@ }),
    {
        self.next_item_id = self.next_item_id + 1;
        QueueItem {
            source: item.source,
            queued_by: item.queued_by,
            queued_by_id: item.queued_by_id,
            item_id: self.next_item_id,
        }
    }

    /// Enqueue an item. Returns `false` (rejecting it) when the queue is full,
    /// so an in-voice user can't grow it without bound.
    pub fn push(&mut self, item: QueueItem) -> (r: bool)
        requires
            old(self).wf(),
            old(self)@.last_id < u64::MAX,
        ensures
            final(self).wf(),
            r == !old(self)@.full(),
            final(self)@ == old(self)@.inserted(old(self)@.items.len() as int, item),
    {
        if self.items.len() >= MAX_QUEUE_LEN {
            return false;
        }
        let item = self.stamp(item);
        let ghost before = self@.items;
        self.items.push_back(item);
        proof {
            assert(before.push(item) =~= before.insert(before.len() as int, item));
        }
        true
    }

    /// Enqueue an item at the front, ahead of everything already queued.
    /// Returns `false` (rejecting it) when the queue is full, matching
    /// `push`'s cap semantics.
    pub fn push_front(&mut self, item: QueueItem) -> (r: bool)
        requires
            old(self).wf(),
            old(self)@.last_id < u64::MAX,
        ensures
            final(self).wf(),
            r == !old(self)@.full(),
            final(self)@ == old(self)@.inserted(0, item),
    {
        if self.items.len() >= MAX_QUEUE_LEN {
            return false;
        }
        let item = self.stamp(item);
        let ghost before = self@.items;
        self.items.push_front(item);
        proof {
            assert(seq![item] + before =~= before.insert(0, item));
        }
        true
    }

    /// Enqueue an item at an arbitrary position, clamping `idx` to the
    /// current length so an out-of-range index appends instead of panicking.
    /// Returns `false` (rejecting it) when the queue is full, matching
    /// `push`'s cap semantics.
    pub fn insert(&mut self, idx: usize, item: QueueItem) -> (r: bool)
        requires
            old(self).wf(),
            old(self)@.last_id < u64::MAX,
        ensures
            final(self).wf(),
            r == !old(self)@.full(),
            final(self)@ == old(self)@.inserted(idx as int, item),
    {
        if self.items.len() >= MAX_QUEUE_LEN {
            return false;
        }
        let item = self.stamp(item);
        let len: usize = self.items.len();
        let at: usize = if idx < len {
            idx
        } else {
            len
        };
        self.items.insert(at, item);
        true
    }

    pub fn pop(&mut self) -> (r: Option<QueueItem>)
        requires
            old(self).wf(),
        ensures
            final(self).wf(),
            final(self)@ == old(self)@.popped(),
            r == (if old(self)@.items.len() > 0 {
                Some(old(self)@.items[0])
            } else {
                None
            }),
    {
        let ghost before = self@.items;
        let r = self.items.pop_front();
        proof {
            if before.len() > 0 {
                assert(before.subrange(1, before.len() as int) =~= before.drop_first());
            }
        }
        r
    }

    /// Look at the head of the queue without removing it.
    pub fn peek(&self) -> (r: Option<&QueueItem>)
        ensures
            r == (if self@.items.len() > 0 {
                Some(&self@.items[0])
            } else {
                None
            }),
    {
        if self.items.len() > 0 {
            Some(&self.items[0])
        } else {
            None
        }
    }

    /// Pop the head only if it satisfies `pred`; otherwise leaves the queue
    /// untouched and returns `None`.
    pub fn pop_if(&mut self, pred: impl Fn(&QueueItem) -> bool) -> (r: Option<QueueItem>)
        requires
            old(self).wf(),
            forall|i: QueueItem| #[trigger] call_requires(pred, (&i,)),
        ensures
            final(self).wf(),
            match r {
                Some(item) => {
                    &&& old(self)@.items.len() > 0
                    &&& item == old(self)@.items[0]
                    &&& call_ensures(pred, (&item,), true)
                    &&& final(self)@ == old(self)@.popped()
                },
                None => {
                    &&& final(self)@ == old(self)@
                    &&& old(self)@.items.len() > 0 ==> call_ensures(
                        pred,
                        (&old(self)@.items[0],),
                        false,
                    )
                },
            },
    {
        if self.items.len() == 0 {
            return None;
        }
        let wanted = pred(&self.items[0]);
        if wanted {
            self.pop()
        } else {
            None
        }
    }

    /// The position of the first item that satisfies `pred`.
    fn position(&self, pred: &impl Fn(&QueueItem) -> bool) -> (r: Option<usize>)
        requires
            forall|i: QueueItem| #[trigger] call_requires(*pred, (&i,)),
        ensures
            match r {
                Some(k) => {
                    &&& k < self@.items.len()
                    &&& call_ensures(*pred, (&self@.items[k as int],), true)
                    &&& forall|j: int|
                        0 <= j < k ==> call_ensures(*pred, (&#[trigger] self@.items[j],), false)
                },
                None => forall|j: int|
                    0 <= j < self@.items.len() ==> call_ensures(
                        *pred,
                        (&#[trigger] self@.items[j],),
                        false,
                    ),
            },
    {
        let mut k: usize = 0;
        while k < self.items.len()
            invariant
                k <= self@.items.len(),
                self@.items == self.items@,
                forall|i: QueueItem| #[trigger] call_requires(*pred, (&i,)),
                forall|j: int|
                    0 <= j < k ==> call_ensures(*pred, (&#[trigger] self@.items[j],), false),
            decreases self@.items.len() - k,
        {
            if pred(&self.items[k]) {
                return Some(k);
            }
            k += 1;
        }
        None
    }

    /// The first item (anywhere in the queue) that satisfies `pred`.
    pub fn find_first(&self, pred: impl Fn(&QueueItem) -> bool) -> (r: Option<&QueueItem>)
        requires
            forall|i: QueueItem| #[trigger] call_requires(pred, (&i,)),
        ensures
            match r {
                Some(item) => exists|k: int|
                    {
                        &&& 0 <= k < self@.items.len()
                        &&& *item == #[trigger] self@.items[k]
                        &&& call_ensures(pred, (item,), true)
                        &&& forall|j: int|
                            0 <= j < k ==> call_ensures(pred, (&#[trigger] self@.items[j],), false)
                    },
                None => forall|j: int|
                    0 <= j < self@.items.len() ==> call_ensures(
                        pred,
                        (&#[trigger] self@.items[j],),
                        false,
                    ),
            },
    {
        match self.position(&pred) {
            Some(k) => Some(&self.items[k]),
            None => None,
        }
    }

    /// Remove and return the first item (anywhere in the queue) that
    /// satisfies `pred`.
    pub fn remove_first(&mut self, pred: impl Fn(&QueueItem) -> bool) -> (r: Option<QueueItem>)
        requires
            old(self).wf(),
            forall|i: QueueItem| #[trigger] call_requires(pred, (&i,)),
        ensures
            final(self).wf(),
            match r {
                Some(item) => exists|k: int|
                    {
                        &&& 0 <= k < old(self)@.items.len()
                        &&& item == #[trigger] old(self)@.items[k]
                        &&& call_ensures(pred, (&item,), true)
                        &&& forall|j: int|
                            0 <= j < k ==> call_ensures(
                                pred,
                                (&#[trigger] old(self)@.items[j],),
                                false,
                            )
                        &&& final(self)@ == old(self)@.without(k)
                    },
                None => {
                    &&& final(self)@ == old(self)@
                    &&& forall|j: int|
                        0 <= j < old(self)@.items.len() ==> call_ensures(
                            pred,
                            (&#[trigger] old(self)@.items[j],),
                            false,
                        )
                },
            },
    {
        match self.position(&pred) {
            Some(k) => {
                let r = self.items.remove(k);
                assert(self@ == old(self)@.without(k as int));
                r
            },
            None => None,
        }
    }

    pub fn len(&self) -> (r: usize)
        ensures
            r == self@.items.len(),
    {
        self.items.len()
    }

    pub fn is_empty(&self) -> (r: bool)
        ensures
            r == (self@.items.len() == 0),
    {
        self.items.len() == 0
    }

    pub fn clear(&mut self)
        requires
            old(self).wf(),
        ensures
            final(self).wf(),
            final(self)@ == old(self)@.cleared(),
    {
        self.items.clear();
    }

    /// The items in play order.
    pub fn snapshot(&self) -> (r: Vec<QueueItem>)
        ensures
            r@ == self@.items,
    {
        let mut out: Vec<QueueItem> = Vec::new();
        let mut k: usize = 0;
        while k < self.items.len()
            invariant
                k <= self@.items.len(),
                self@.items == self.items@,
                out@ == self@.items.take(k as int),
            decreases self@.items.len() - k,
        {
            out.push(self.items[k].clone());
            k += 1;
        }
        assert(self@.items.take(k as int) =~= self@.items);
        out
    }
}

/// First in, first out: what is pushed stands behind everything that waits,
/// and nothing that waits changes place for it.
pub proof fn law_pushes_come_out_in_order(q: QueueModel, item: QueueItem)
    requires
        !q.full(),
    ensures
        ({
            let after = q.inserted(q.items.len() as int, item);
            &&& after.items == q.items.push(q.stamped(item))
            &&& q.items.len() > 0 ==> after.items[0] == q.items[0] && after.popped().items
                == q.popped().items.push(q.stamped(item))
        }),
{
    let after = q.inserted(q.items.len() as int, item);
    assert(after.items =~= q.items.push(q.stamped(item)));
    if q.items.len() > 0 {
        assert(after.popped().items =~= q.popped().items.push(q.stamped(item)));
    }
}

/// What is pushed to the front comes out next, and then everything else as it
/// waited.
pub proof fn law_front_pushes_come_out_next(q: QueueModel, item: QueueItem)
    requires
        !q.full(),
    ensures
        q.inserted(0, item).items[0] == q.stamped(item),
        q.inserted(0, item).popped().items == q.items,
{
    assert(q.inserted(0, item).popped().items =~= q.items);
}

/// An id names one residency: a new one is borne by nothing that waits, is
/// above every id given before, and nothing that happens later gives it again.
pub proof fn law_ids_are_never_reused(q: QueueModel, at: int, item: QueueItem)
    requires
        q.wf(),
        q.last_id < u64::MAX,
        !q.full(),
        0 <= at,
    ensures
        ({
            let after = q.inserted(at, item);
            let id = q.stamped(item).item_id;
            &&& after.wf()
            &&& id == q.last_id + 1
            &&& after.last_id == id
            &&& forall|i: int| 0 <= i < q.items.len() ==> (#[trigger] q.items[i]).item_id < id
            &&& after.popped().last_id == id
            &&& after.cleared().last_id == id
            &&& forall|k: int| #[trigger] after.without(k).last_id == id
        }),
{
    let after = q.inserted(at, item);
    let at = if at < q.items.len() {
        at
    } else {
        q.items.len() as int
    };
    assert forall|i: int| 0 <= i < after.items.len() implies 1 <= (
    #[trigger] after.items[i]).item_id <= after.last_id by {
        if i < at {
            assert(after.items[i] == q.items[i]);
        } else if i > at {
            assert(after.items[i] == q.items[i - 1]);
        }
    }
    assert forall|i: int, j: int| 0 <= i < j < after.items.len() implies (
    #[trigger] after.items[i]).item_id != (#[trigger] after.items[j]).item_id by {
        if i < at {
            assert(after.items[i] == q.items[i]);
        } else if i > at {
            assert(after.items[i] == q.items[i - 1]);
        }
        if j < at {
            assert(after.items[j] == q.items[j]);
        } else if j > at {
            assert(after.items[j] == q.items[j - 1]);
        }
    }
}

/// Taking an item out leaves the others in their order.
pub proof fn law_removal_keeps_the_order(q: QueueModel, at: int)
    requires
        0 <= at < q.items.len(),
    ensures
        q.without(at).items == q.items.take(at) + q.items.skip(at + 1),
{
    assert(q.without(at).items =~= q.items.take(at) + q.items.skip(at + 1));
}

/// A track is shown under its own title, with its channel or artist below it;
/// an upload goes by its file name. Only a YouTube track's length is known.
pub proof fn law_requests_are_shown_by_their_fields(
    source: MediaSource,
    title: &str,
    subtitle: String,
    duration: Option<String>,
    color: u32,
)
    requires
        call_ensures(MediaSource::display_title, (&source,), title),
        call_ensures(MediaSource::display_subtitle, (&source,), subtitle),
        call_ensures(MediaSource::display_duration, (&source,), duration),
        call_ensures(MediaSource::embed_color, (&source,), color),
    ensures
        title@ == source.title(),
        subtitle@ == source.subtitle(),
        crate::text::text_of(duration) == source.duration(),
        source matches MediaSource::YouTube { title: t, channel: c, .. } ==> title@ == t@
            && subtitle@ == c@ && duration is Some && color == 0xFF0000,
        source matches MediaSource::File { filename: f, .. } ==> title@ == f@ && subtitle@
            == "File upload"@ && duration is None && color == 0x5865F2,
        source matches MediaSource::Spotify { title: t, artist: a, .. } ==> title@ == t@
            && subtitle@ == a@ && duration is None && color == 0x1DB954,
{
}

/// A length is written in minutes and two digits of seconds, from an hour up
/// with the hours before two digits of minutes.
pub proof fn law_lengths_are_written_as_a_clock(source: MediaSource, hours: nat, minutes: nat, seconds: nat)
    requires
        source matches MediaSource::YouTube { duration_secs, .. } && duration_secs == 3600 * hours
            + 60 * minutes + seconds,
        minutes < 60,
        seconds < 60,
    ensures
        hours == 0 ==> source.duration() == Some(
            crate::text::decimal(minutes) + seq![
                ':',
                (48 + seconds / 10) as char,
                (48 + seconds % 10) as char,
            ],
        ),
        hours > 0 ==> source.duration() == Some(
            crate::text::decimal(hours) + seq![
                ':',
                (48 + minutes / 10) as char,
                (48 + minutes % 10) as char,
                ':',
                (48 + seconds / 10) as char,
                (48 + seconds % 10) as char,
            ],
        ),
{
    reveal_strlit(":");
    let secs = 3600 * hours + 60 * minutes + seconds;
    assert(secs / 3600 == hours && secs % 3600 == 60 * minutes + seconds) by (nonlinear_arith)
        requires
            secs == 3600 * hours + 60 * minutes + seconds,
            minutes < 60,
            seconds < 60,
    ;
    assert((60 * minutes + seconds) / 60 == minutes);
    assert(secs % 60 == seconds) by (nonlinear_arith)
        requires
            secs == 3600 * hours + 60 * minutes + seconds,
            seconds < 60,
    ;
    crate::text::law_numbers_are_written_digit_by_digit(minutes / 10, minutes % 10);
    crate::text::law_numbers_are_written_digit_by_digit(seconds / 10, seconds % 10);
    let m = seq![(48 + minutes / 10) as char, (48 + minutes % 10) as char];
    let s = seq![(48 + seconds / 10) as char, (48 + seconds % 10) as char];
    assert(10 * (minutes / 10) + minutes % 10 == minutes);
    assert(10 * (seconds / 10) + seconds % 10 == seconds);
    assert(crate::text::decimal2(minutes) =~= m);
    assert(crate::text::decimal2(seconds) =~= s);
    assert(source.duration() == Some(clock_time(secs)));
    if hours == 0 {
        assert(clock_time(secs) =~= crate::text::decimal(minutes) + seq![
            ':',
            (48 + seconds / 10) as char,
            (48 + seconds % 10) as char,
        ]);
    } else {
        assert(clock_time(secs) =~= crate::text::decimal(hours) + seq![
            ':',
            (48 + minutes / 10) as char,
            (48 + minutes % 10) as char,
            ':',
            (48 + seconds / 10) as char,
            (48 + seconds % 10) as char,
        ]);
    }
}

/// A request starts without an id and keeps what it was made with. Only a
/// Spotify request is for a Spotify item, and only for the one it names.
pub proof fn law_requests_name_their_track(
    source: MediaSource,
    queued_by: String,
    queued_by_id: u64,
    item: QueueItem,
    wanted: SpotifyUri,
    spotify: bool,
    same: bool,
)
    requires
        call_ensures(QueueItem::new, (source, queued_by, queued_by_id), item),
        call_ensures(QueueItem::is_spotify, (&item,), spotify),
        call_ensures(QueueItem::requests, (&item, &wanted), same),
    ensures
        item.source == source,
        item.queued_by == queued_by,
        item.queued_by_id == queued_by_id,
        item.item_id == 0,
        spotify <==> source is Spotify,
        same <==> (source matches MediaSource::Spotify { uri, .. } && uri@ == wanted@),
        source matches MediaSource::Spotify { uri, .. } ==> item.spotify_uri() == Some(uri@),
        !(source is Spotify) ==> item.spotify_uri() is None,
{
}

/// Up to five hundred requests wait. One more is put exactly where it was
/// asked for, or last when that is past the end, under the next number and
/// otherwise as it came; a full queue takes nothing. Taking out leaves the
/// rest, and never gives a number back.
pub proof fn law_the_queue_holds_five_hundred(q: QueueModel, at: nat, item: QueueItem)
    requires
        q.last_id < u64::MAX,
    ensures
        q.items.len() >= 500 ==> q.inserted(at as int, item) == q,
        q.items.len() < 500 && at <= q.items.len() ==> {
            let after = q.inserted(at as int, item);
            &&& after.items =~= q.items.take(at as int) + seq![after.items[at as int]]
                + q.items.skip(at as int)
            &&& after.items[at as int].source == item.source
            &&& after.items[at as int].queued_by == item.queued_by
            &&& after.items[at as int].queued_by_id == item.queued_by_id
            &&& after.items[at as int].item_id == q.last_id + 1
            &&& after.last_id == q.last_id + 1
        },
        at > q.items.len() ==> q.inserted(at as int, item) == q.inserted(
            q.items.len() as int,
            item,
        ),
        q.wf() ==> q.items.len() <= 500,
        q.items.len() > 0 ==> q.popped().items =~= q.items.skip(1),
        q.items.len() == 0 ==> q.popped() == q,
        q.popped().last_id == q.last_id,
        q.cleared().items.len() == 0,
        q.cleared().last_id == q.last_id,
        at < q.items.len() ==> q.without(at as int).items =~= q.items.take(at as int)
            + q.items.skip(at as int + 1),
        at >= q.items.len() ==> q.without(at as int) == q,
        q.without(at as int).last_id == q.last_id,
{
}

/// Looking at the queue shows it as it is: its first request, its length, all
/// of it in order.
pub proof fn law_the_queue_is_shown_as_it_is(
    q: PriorityQueue,
    new: PriorityQueue,
    first: Option<&QueueItem>,
    len: usize,
    empty: bool,
    all: Vec<QueueItem>,
    id: u64,
)
    requires
        call_ensures(PriorityQueue::new, (), new),
        call_ensures(PriorityQueue::peek, (&q,), first),
        call_ensures(PriorityQueue::len, (&q,), len),
        call_ensures(PriorityQueue::is_empty, (&q,), empty),
        call_ensures(PriorityQueue::snapshot, (&q,), all),
        call_ensures(PriorityQueue::last_id, (&q,), id),
    ensures
        new@.items.len() == 0 && new@.last_id == 0,
        q@.items.len() == 0 ==> first is None && empty,
        q@.items.len() > 0 ==> first == Some(&q@.items[0]) && !empty,
        len == q@.items.len(),
        all@ == q@.items,
        id == q@.last_id,
{
}

/// A push goes to the tail, a push to the front goes first, an insertion goes
/// where it is told; each says whether there was room. A pop takes the first
/// request, and a clear takes all.
pub proof fn law_calls_on_the_queue(
    q: &mut PriorityQueue,
    item: QueueItem,
    pushed: bool,
    p: &mut PriorityQueue,
    fronted: bool,
    o: &mut PriorityQueue,
    idx: usize,
    inserted: bool,
    n: &mut PriorityQueue,
    popped: Option<QueueItem>,
    m: &mut PriorityQueue,
    cleared: (),
)
    requires
        call_ensures(PriorityQueue::push, (q, item), pushed),
        call_ensures(PriorityQueue::push_front, (p, item), fronted),
        call_ensures(PriorityQueue::insert, (o, idx, item), inserted),
        call_ensures(PriorityQueue::pop, (n,), popped),
        call_ensures(PriorityQueue::clear, (m,), cleared),
    ensures
        pushed == (old(q)@.items.len() < 500),
        final(q)@ == old(q)@.inserted(old(q)@.items.len() as int, item),
        fronted == (old(p)@.items.len() < 500),
        final(p)@ == old(p)@.inserted(0, item),
        inserted == (old(o)@.items.len() < 500),
        final(o)@ == old(o)@.inserted(idx as int, item),
        old(n)@.items.len() == 0 ==> popped is None,
        old(n)@.items.len() > 0 ==> popped == Some(old(n)@.items[0]),
        final(n)@ == old(n)@.popped(),
        final(m)@ == old(m)@.cleared(),
{
}

/// What is looked for in the queue is the first request that is wanted: at the
/// head alone it is popped, anywhere it is found or taken out, and without one
/// the queue stays as it is.
pub proof fn law_the_first_wanted_request_is_found<F: Fn(&QueueItem) -> bool>(
    wanted: F,
    q: &mut PriorityQueue,
    popped: Option<QueueItem>,
    p: &mut PriorityQueue,
    removed: Option<QueueItem>,
    o: PriorityQueue,
    found: Option<&QueueItem>,
)
    requires
        call_ensures(PriorityQueue::pop_if, (q, wanted), popped),
        call_ensures(PriorityQueue::remove_first, (p, wanted), removed),
        call_ensures(PriorityQueue::find_first, (&o, wanted), found),
    ensures
        popped matches Some(item) ==> {
            &&& old(q)@.items.len() > 0 && item == old(q)@.items[0]
            &&& call_ensures(wanted, (&item,), true)
            &&& final(q)@ == old(q)@.popped()
        },
        popped is None ==> final(q)@ == old(q)@ && (old(q)@.items.len() > 0 ==> call_ensures(
            wanted,
            (&old(q)@.items[0],),
            false,
        )),
        removed matches Some(item) ==> call_ensures(wanted, (&item,), true) && exists|k: int|
            {
                &&& 0 <= k < old(p)@.items.len()
                &&& item == #[trigger] old(p)@.items[k]
                &&& final(p)@ == old(p)@.without(k)
                &&& forall|j: int|
                    0 <= j < k ==> call_ensures(wanted, (&#[trigger] old(p)@.items[j],), false)
            },
        removed is None ==> final(p)@ == old(p)@ && forall|j: int|
            0 <= j < old(p)@.items.len() ==> call_ensures(
                wanted,
                (&#[trigger] old(p)@.items[j],),
                false,
            ),
        found matches Some(item) ==> call_ensures(wanted, (item,), true) && exists|k: int|
            {
                &&& 0 <= k < o@.items.len()
                &&& *item == #[trigger] o@.items[k]
                &&& forall|j: int|
                    0 <= j < k ==> call_ensures(wanted, (&#[trigger] o@.items[j],), false)
            },
        found is None ==> forall|j: int|
            0 <= j < o@.items.len() ==> call_ensures(wanted, (&#[trigger] o@.items[j],), false),
{
}

} // verus!
