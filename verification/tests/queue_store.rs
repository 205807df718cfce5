//! The stored queue.

use spotibot::queue::{MediaSource, QueueItem};
use spotibot::queue_store::{restored_items, stored_rows, StoredRow, StoredSource};
use spotibot::uri::SpotifyUri;

/// The table: saving replaces what was there.
struct Store {
    rows: Vec<StoredRow>,
}

impl Store {
    fn new() -> Store {
        Store { rows: Vec::new() }
    }

    fn save(&mut self, items: &[QueueItem]) {
        self.rows = stored_rows(&items.to_vec());
    }

    fn load(self) -> Vec<QueueItem> {
        restored_items(self.rows)
    }
}

fn yt(title: &str) -> QueueItem {
    QueueItem::new(
        MediaSource::YouTube {
            url: format!("https://soundcloud.com/x/{title}"),
            video_id: "1".into(),
            title: title.into(),
            channel: "A Channel".into(),
            thumbnail_url: None,
            duration_secs: 271,
        },
        "Papos".into(),
        316390674608029703,
    )
}

fn spotify(id: &str) -> QueueItem {
    QueueItem::new(
        MediaSource::Spotify {
            uri: SpotifyUri::from_uri(&format!("spotify:track:{id}")).unwrap(),
            title: "A Track".into(),
            artist: "An Artist".into(),
            album_art_url: None,
        },
        "pinkchaoz".into(),
        771540703075368982,
    )
}

#[test]
fn round_trips_every_source_kind_in_order() {
    let mut s = Store::new();
    let saved = vec![
        yt("first"),
        spotify("3iJDVtjZGLkWQOG53XdTvF"),
        QueueItem::new(
            MediaSource::File {
                filename: "clip.mp3".into(),
                attachment_url: "https://cdn.discord/x".into(),
            },
            "Papos".into(),
            1,
        ),
    ];
    s.save(&saved);

    let loaded = s.load();
    assert_eq!(loaded.len(), 3, "order and count preserved");
    assert_eq!(loaded[0].source.display_title(), "first");
    assert_eq!(loaded[1].source.display_title(), "A Track");
    assert_eq!(loaded[2].source.display_title(), "clip.mp3");
    assert_eq!(loaded[1].queued_by, "pinkchaoz");
    assert_eq!(loaded[1].queued_by_id, 771540703075368982);
}

#[test]
fn saving_replaces_rather_than_appends() {
    let mut s = Store::new();
    s.save(&[yt("a"), yt("b")]);
    s.save(&[yt("c")]);

    let loaded = s.load();
    assert_eq!(loaded.len(), 1, "the previous queue is gone, not merged");
    assert_eq!(loaded[0].source.display_title(), "c");
}

#[test]
fn an_emptied_queue_persists_as_empty() {
    let mut s = Store::new();
    s.save(&[yt("a")]);
    s.save(&[]);
    assert!(s.load().is_empty());
}

#[test]
fn one_unreadable_row_does_not_lose_the_rest() {
    let mut s = Store::new();
    s.save(&[yt("good-one"), yt("good-two")]);
    // The first row's text is of a shape nobody knows.
    s.rows[0].source = None;
    let loaded = s.load();
    assert_eq!(loaded.len(), 1, "the readable row still restores");
    assert_eq!(loaded[0].source.display_title(), "good-two");
}

#[test]
fn restoring_does_not_reuse_stored_item_ids() {
    // item_id names one residency in the queue; the queue stamps a fresh
    // one on insertion, so a restored item must not carry an old id.
    let mut s = Store::new();
    let mut stamped = yt("a");
    stamped.item_id = 9;
    s.save(&[stamped]);
    assert_eq!(s.load()[0].item_id, 0, "unstamped until pushed");
}

#[test]
fn rows_that_name_nothing_playable_are_skipped() {
    let mut s = Store::new();
    s.save(&[spotify("3iJDVtjZGLkWQOG53XdTvF"), yt("b")]);
    match &mut s.rows[0].source {
        Some(StoredSource::Spotify { uri, .. }) => {
            assert_eq!(uri, "spotify:track:3iJDVtjZGLkWQOG53XdTvF");
            *uri = "gone".into();
        }
        _ => panic!("a Spotify item is stored as one"),
    }
    s.rows[1].queued_by_id = "somebody".into();
    assert!(s.load().is_empty());
}
