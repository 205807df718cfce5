//! Persistence of the pending queue.
//!
//! The stored shape is this module's own, not [`MediaSource`]'s: a change to
//! the in-memory type cannot silently invalidate rows already on disk.

use vstd::prelude::*;

use crate::queue::{MediaSource, QueueItem};
use crate::text::{clone_text, decimal_text, parse_u64};
use crate::uri::SpotifyUri;

verus! {

/// On-disk form of one source.
#[derive(Debug, PartialEq, Eq)]
pub enum StoredSource {
    YouTube {
        url: String,
        video_id: String,
        title: String,
        channel: String,
        thumbnail_url: Option<String>,
        duration_secs: u64,
    },
    File { filename: String, attachment_url: String },
    Spotify {
        /// Stored as text.
        uri: String,
        title: String,
        artist: String,
        album_art_url: Option<String>,
    },
}

impl StoredSource {
    /// This is the stored form of `source`.
    pub open spec fn stores(&self, source: MediaSource) -> bool {
        match source {
            MediaSource::YouTube {
                url,
                video_id,
                title,
                channel,
                thumbnail_url,
                duration_secs,
            } => *self == (StoredSource::YouTube {
                url,
                video_id,
                title,
                channel,
                thumbnail_url,
                duration_secs,
            }),
            MediaSource::File { filename, attachment_url } => *self == (StoredSource::File {
                filename,
                attachment_url,
            }),
            MediaSource::Spotify { uri, title, artist, album_art_url } => {
                &&& self matches StoredSource::Spotify {
                    uri: u,
                    title: t,
                    artist: a,
                    album_art_url: art,
                }
                &&& u@ == uri@.text
                &&& t == title
                &&& a == artist
                &&& art == album_art_url
            },
        }
    }

    /// `source` is what this stored form restores to.
    pub open spec fn restores_to(&self, source: MediaSource) -> bool {
        match *self {
            StoredSource::YouTube {
                url,
                video_id,
                title,
                channel,
                thumbnail_url,
                duration_secs,
            } => source == (MediaSource::YouTube {
                url,
                video_id,
                title,
                channel,
                thumbnail_url,
                duration_secs,
            }),
            StoredSource::File { filename, attachment_url } => source == (MediaSource::File {
                filename,
                attachment_url,
            }),
            StoredSource::Spotify { uri, title, artist, album_art_url } => {
                &&& source matches MediaSource::Spotify {
                    uri: u,
                    title: t,
                    artist: a,
                    album_art_url: art,
                }
                &&& crate::uri::parsed_uri(uri@) == Some((u@.text, u@.foreign_kind))
                &&& t == title
                &&& a == artist
                &&& art == album_art_url
            },
        }
    }

    /// The stored form names something playable.
    pub open spec fn readable(&self) -> bool {
        *self matches StoredSource::Spotify { uri, .. } ==> crate::uri::parsed_uri(uri@) is Some
    }

    pub fn of(source: &MediaSource) -> (r: Self)
        ensures
            r.stores(*source),
    {
        match source {
            MediaSource::YouTube { url, video_id, title, channel, thumbnail_url, duration_secs } =>
            StoredSource::YouTube {
                url: url.clone(),
                video_id: video_id.clone(),
                title: title.clone(),
                channel: channel.clone(),
                thumbnail_url: clone_text(thumbnail_url),
                duration_secs: *duration_secs,
            },
            MediaSource::File { filename, attachment_url } => StoredSource::File {
                filename: filename.clone(),
                attachment_url: attachment_url.clone(),
            },
            MediaSource::Spotify { uri, title, artist, album_art_url } => StoredSource::Spotify {
                uri: uri.to_uri(),
                title: title.clone(),
                artist: artist.clone(),
                album_art_url: clone_text(album_art_url),
            },
        }
    }

    /// `None` when the row cannot be turned back into a playable item: a
    /// Spotify uri that no longer parses, say.
    pub fn into_media_source(self) -> (r: Option<MediaSource>)
        ensures
            match r {
                Some(source) => self.restores_to(source),
                None => !self.readable(),
            },
    {
        match self {
            StoredSource::YouTube { url, video_id, title, channel, thumbnail_url, duration_secs } =>
            Some(
                MediaSource::YouTube {
                    url,
                    video_id,
                    title,
                    channel,
                    thumbnail_url,
                    duration_secs,
                },
            ),
            StoredSource::File { filename, attachment_url } => Some(
                MediaSource::File { filename, attachment_url },
            ),
            StoredSource::Spotify { uri, title, artist, album_art_url } => {
                match SpotifyUri::from_uri(uri.as_str()) {
                    Some(uri) => Some(MediaSource::Spotify { uri, title, artist, album_art_url }),
                    None => None,
                }
            },
        }
    }
}

/// One stored row; `source` is `None` when its serialized form could not be
/// read.
#[derive(Debug)]
pub struct StoredRow {
    pub source: Option<StoredSource>,
    pub queued_by: String,
    pub queued_by_id: String,
}

impl StoredRow {
    /// This is the stored row of `item`.
    pub open spec fn stores(&self, item: QueueItem) -> bool {
        &&& self.source matches Some(source) && source.stores(item.source)
        &&& self.queued_by == item.queued_by
        &&& self.queued_by_id@ == crate::text::decimal(item.queued_by_id as nat)
    }

    /// The row can be turned back into an item.
    pub open spec fn readable(&self) -> bool {
        &&& self.source matches Some(source) && source.readable()
        &&& crate::text::parsed_u64(self.queued_by_id@) is Some
    }

    /// `item` is what this row restores to. It carries no id: the queue
    /// stamps a fresh one on insertion.
    pub open spec fn restores_to(&self, item: QueueItem) -> bool {
        &&& self.source matches Some(source) && source.restores_to(item.source)
        &&& item.queued_by == self.queued_by
        &&& crate::text::parsed_u64(self.queued_by_id@) == Some(item.queued_by_id)
        &&& item.item_id == 0
    }

    /// The row to store for an item.
    pub fn of(item: &QueueItem) -> (r: Self)
        ensures
            r.stores(*item),
    {
        StoredRow {
            source: Some(StoredSource::of(&item.source)),
            queued_by: item.queued_by.clone(),
            queued_by_id: decimal_text(item.queued_by_id),
        }
    }

    /// The item a row stands for, when it can be read.
    pub fn into_item(self) -> (r: Option<QueueItem>)
        ensures
            match r {
                Some(item) => self.readable() && self.restores_to(item),
                None => !self.readable(),
            },
    {
        let source = match self.source {
            Some(stored) => match stored.into_media_source() {
                Some(source) => source,
                None => return None,
            },
            None => return None,
        };
        match parse_u64(self.queued_by_id.as_str()) {
            Some(id) => Some(QueueItem::new(source, self.queued_by, id)),
            None => None,
        }
    }
}

/// The rows to store for a queue, in order.
pub fn stored_rows(items: &Vec<QueueItem>) -> (r: Vec<StoredRow>)
    ensures
        r@.len() == items@.len(),
        forall|i: int| 0 <= i < items@.len() ==> (#[trigger] r@[i]).stores(items@[i]),
{
    let mut out: Vec<StoredRow> = Vec::new();
    let mut i: usize = 0;
    while i < items.len()
        invariant
            i <= items@.len(),
            out@.len() == i,
            forall|j: int| 0 <= j < i ==> (#[trigger] out@[j]).stores(items@[j]),
        decreases items@.len() - i,
    {
        out.push(StoredRow::of(&items[i]));
        i += 1;
    }
    out
}

/// The readable rows, in order.
pub open spec fn readable_rows(rows: Seq<StoredRow>) -> Seq<StoredRow>
    decreases rows.len(),
{
    if rows.len() == 0 {
        rows
    } else if rows.last().readable() {
        readable_rows(rows.drop_last()).push(rows.last())
    } else {
        readable_rows(rows.drop_last())
    }
}

/// The stored queue, in order. Rows that can no longer be read are skipped: a
/// queue that restores nine of ten items still beats one that refuses to
/// restore at all.
pub fn restored_items(rows: Vec<StoredRow>) -> (r: Vec<QueueItem>)
    ensures
        r@.len() == readable_rows(rows@).len(),
        forall|i: int|
            0 <= i < r@.len() ==> readable_rows(rows@)[i].restores_to(#[trigger] r@[i]),
{
    let ghost all = rows@;
    let mut rows = rows;
    let mut out: Vec<QueueItem> = Vec::new();
    let ghost done: int = 0;
    assert(all.skip(0) =~= all);
    while rows.len() > 0
        invariant
            0 <= done <= all.len(),
            rows@ == all.skip(done),
            out@.len() == readable_rows(all.take(done)).len(),
            forall|i: int|
                0 <= i < out@.len() ==> readable_rows(all.take(done))[i].restores_to(
                    #[trigger] out@[i],
                ),
        decreases rows@.len(),
    {
        proof {
            assert(all.skip(done)[0] == all[done]);
            assert(all.skip(done).remove(0) =~= all.skip(done + 1));
            assert(all.take(done + 1).drop_last() =~= all.take(done));
            assert(all.take(done + 1).last() == all[done]);
        }
        let row = rows.remove(0);
        if let Some(item) = row.into_item() {
            out.push(item);
        }
        proof {
            done = done + 1;
        }
    }
    assert(all.take(done) =~= all);
    out
}

/// Two sources that differ at most in how a uri is held.
pub open spec fn same_source(a: MediaSource, b: MediaSource) -> bool {
    match a {
        MediaSource::Spotify { uri, title, artist, album_art_url } => {
            &&& b matches MediaSource::Spotify {
                uri: u,
                title: t,
                artist: ar,
                album_art_url: art,
            }
            &&& u@ == uri@
            &&& t == title
            &&& ar == artist
            &&& art == album_art_url
        },
        _ => a == b,
    }
}

/// The item can be found again from its stored text: Spotify items of an
/// unrecognised type cannot, for their text no longer says which type they
/// had.
pub open spec fn survives(item: QueueItem) -> bool {
    item.source matches MediaSource::Spotify { uri, .. } ==> uri.valid() && uri@.foreign_kind
        is None
}

/// The row of an item reads back, and as the item that was stored, without
/// the id of its former residency.
pub proof fn law_item_survives_a_restart(item: QueueItem, row: StoredRow)
    requires
        row.stores(item),
        survives(item),
    ensures
        row.readable(),
        forall|restored: QueueItem| #[trigger]
            row.restores_to(restored) ==> same_source(item.source, restored.source)
                && restored.queued_by == item.queued_by && restored.queued_by_id
                == item.queued_by_id && restored.item_id == 0,
{
    crate::text::law_decimal_round_trip(item.queued_by_id);
}

/// No row of a stored queue is lost on the way back, and none changes place.
pub proof fn law_queue_survives_a_restart(items: Seq<QueueItem>, rows: Seq<StoredRow>)
    requires
        rows.len() == items.len(),
        forall|i: int| 0 <= i < rows.len() ==> (#[trigger] rows[i]).stores(items[i]),
        forall|i: int| 0 <= i < items.len() ==> survives(#[trigger] items[i]),
    ensures
        readable_rows(rows) == rows,
    decreases rows.len(),
{
    if rows.len() > 0 {
        let n = rows.len() - 1;
        assert(rows[n].stores(items[n]));
        assert(survives(items[n]));
        law_item_survives_a_restart(items[n], rows[n]);
        assert forall|i: int| 0 <= i < n implies (#[trigger] rows.drop_last()[i]).stores(
            items.drop_last()[i],
        ) by {
            assert(rows[i].stores(items[i]));
        }
        law_queue_survives_a_restart(items.drop_last(), rows.drop_last());
        assert(rows.drop_last().push(rows.last()) =~= rows);
    }
}

/// A source is stored as what it is, field by field; a Spotify item by the
/// text of its uri.
pub proof fn law_sources_are_stored_field_by_field(source: MediaSource, stored: StoredSource)
    requires
        call_ensures(StoredSource::of, (&source,), stored),
    ensures
        source matches MediaSource::YouTube {
            url,
            video_id,
            title,
            channel,
            thumbnail_url,
            duration_secs,
        } ==> (stored matches StoredSource::YouTube {
            url: u,
            video_id: v,
            title: t,
            channel: c,
            thumbnail_url: th,
            duration_secs: d,
        } && u == url && v == video_id && t == title && c == channel && th == thumbnail_url && d
            == duration_secs),
        source matches MediaSource::File { filename, attachment_url } ==> (
        stored matches StoredSource::File { filename: f, attachment_url: a } && f == filename && a
            == attachment_url),
        source matches MediaSource::Spotify { uri, title, artist, album_art_url } ==> (
        stored matches StoredSource::Spotify {
            uri: u,
            title: t,
            artist: a,
            album_art_url: art,
        } && u@ == uri@.text && t == title && a == artist && art == album_art_url),
{
}

/// A stored source comes back as what it is, field by field. Only a Spotify
/// item whose uri is no longer understood is lost.
pub proof fn law_sources_come_back_field_by_field(stored: StoredSource, back: Option<MediaSource>)
    requires
        call_ensures(StoredSource::into_media_source, (stored,), back),
    ensures
        stored matches StoredSource::YouTube {
            url,
            video_id,
            title,
            channel,
            thumbnail_url,
            duration_secs,
        } ==> (back matches Some(MediaSource::YouTube {
            url: u,
            video_id: v,
            title: t,
            channel: c,
            thumbnail_url: th,
            duration_secs: d,
        }) && u == url && v == video_id && t == title && c == channel && th == thumbnail_url && d
            == duration_secs),
        stored matches StoredSource::File { filename, attachment_url } ==> (back matches Some(
            MediaSource::File { filename: f, attachment_url: a },
        ) && f == filename && a == attachment_url),
        stored matches StoredSource::Spotify { uri, title, artist, album_art_url } ==> {
            &&& back is None <==> crate::uri::parsed_uri(uri@) is None
            &&& crate::uri::parsed_uri(uri@) matches Some(p) ==> (back matches Some(
                MediaSource::Spotify { uri: u, title: t, artist: a, album_art_url: art },
            ) && u@.text == p.0 && u@.foreign_kind == p.1 && t == title && a == artist && art
                == album_art_url)
        },
{
}

/// A row holds the source, the name and the id of whoever asked, the id in
/// digits. It reads back only while the source does and the id is a number,
/// and then as a request that has no number in the queue yet.
pub proof fn law_rows_hold_who_asked(
    item: QueueItem,
    row: StoredRow,
    other: StoredRow,
    back: Option<QueueItem>,
)
    requires
        call_ensures(StoredRow::of, (&item,), row),
        call_ensures(StoredRow::into_item, (other,), back),
    ensures
        row.source matches Some(stored) && stored.stores(item.source),
        row.queued_by == item.queued_by,
        row.queued_by_id@ == crate::text::decimal(item.queued_by_id as nat),
        back is Some <==> (other.source matches Some(stored) && stored.readable()
            && crate::text::parsed_u64(other.queued_by_id@) is Some),
        back matches Some(i) ==> {
            &&& other.source->0.restores_to(i.source)
            &&& i.queued_by == other.queued_by
            &&& crate::text::parsed_u64(other.queued_by_id@) == Some(i.queued_by_id)
            &&& i.item_id == 0
        },
{
}

/// Rows are judged one by one: a readable one is kept in its place, another is
/// left out, and no row bears on any other.
pub proof fn law_rows_are_judged_one_by_one(
    first: Seq<StoredRow>,
    row: StoredRow,
    second: Seq<StoredRow>,
)
    ensures
        readable_rows(first + second) == readable_rows(first) + readable_rows(second),
        row.source is None ==> readable_rows(seq![row]).len() == 0,
        crate::text::parsed_u64(row.queued_by_id@) is None ==> readable_rows(seq![row]).len() == 0,
        (row.source matches Some(StoredSource::Spotify { uri, .. }) && crate::uri::parsed_uri(uri@)
            is None) ==> readable_rows(seq![row]).len() == 0,
        (row.source matches Some(stored) && crate::text::parsed_u64(row.queued_by_id@) is Some && (
        stored matches StoredSource::Spotify { uri, .. } ==> crate::uri::parsed_uri(uri@) is Some))
            ==> readable_rows(seq![row]) == seq![row],
    decreases second.len(),
{
    let one = seq![row];
    assert(one.drop_last() =~= Seq::<StoredRow>::empty());
    assert(one.last() == row);
    assert(readable_rows(one.drop_last()) =~= Seq::<StoredRow>::empty());
    assert(Seq::<StoredRow>::empty().push(row) =~= one);
    if second.len() == 0 {
        assert(first + second =~= first);
        assert(readable_rows(first) + readable_rows(second) =~= readable_rows(first));
    } else {
        law_rows_are_judged_one_by_one(first, row, second.drop_last());
        assert((first + second).drop_last() =~= first + second.drop_last());
        assert((first + second).last() == second.last());
        if second.last().readable() {
            assert((readable_rows(first) + readable_rows(second.drop_last())).push(second.last())
                =~= readable_rows(first) + readable_rows(second));
        }
    }
}

/// A queue is stored row by row and comes back row by row.
pub proof fn law_the_stored_queue_is_in_order(
    items: Vec<QueueItem>,
    stored: Vec<StoredRow>,
    rows: Vec<StoredRow>,
    back: Vec<QueueItem>,
    i: int,
)
    requires
        call_ensures(stored_rows, (&items,), stored),
        call_ensures(restored_items, (rows,), back),
    ensures
        stored@.len() == items@.len(),
        0 <= i < items@.len() ==> stored@[i].stores(items@[i]),
        back@.len() == readable_rows(rows@).len(),
        0 <= i < back@.len() ==> readable_rows(rows@)[i].restores_to(back@[i]),
{
}

} // verus!
