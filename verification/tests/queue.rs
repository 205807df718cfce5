//! The request queue.

use spotibot::queue::{MediaSource, PriorityQueue, QueueItem, MAX_QUEUE_LEN};
use spotibot::uri::SpotifyUri;

fn item(title: &str) -> QueueItem {
    QueueItem::new(
        MediaSource::YouTube {
            url: "u".into(),
            video_id: "v".into(),
            title: title.into(),
            channel: "c".into(),
            thumbnail_url: None,
            duration_secs: 0,
        },
        "me".into(),
        1,
    )
}

#[test]
fn duration_formats_as_clock_time() {
    let src = |secs| MediaSource::YouTube {
        url: "u".into(),
        video_id: "v".into(),
        title: "t".into(),
        channel: "c".into(),
        thumbnail_url: None,
        duration_secs: secs,
    };
    assert_eq!(src(59).display_duration().unwrap(), "0:59");
    assert_eq!(src(75).display_duration().unwrap(), "1:15");
    assert_eq!(src(3600).display_duration().unwrap(), "1:00:00");
    assert_eq!(src(3725).display_duration().unwrap(), "1:02:05");
    let file = MediaSource::File { filename: "f.mp3".into(), attachment_url: "a".into() };
    assert!(file.display_duration().is_none());
}

#[test]
fn is_fifo() {
    let mut q = PriorityQueue::new();
    assert!(q.push(item("a")));
    assert!(q.push(item("b")));
    assert_eq!(q.len(), 2);
    assert_eq!(q.pop().unwrap().source.display_title(), "a");
    assert_eq!(q.pop().unwrap().source.display_title(), "b");
    assert!(q.pop().is_none());
}

#[test]
fn clear_empties() {
    let mut q = PriorityQueue::new();
    q.push(item("a"));
    q.clear();
    assert_eq!(q.len(), 0);
}

#[test]
fn rejects_when_full() {
    let mut q = PriorityQueue::new();
    for i in 0..MAX_QUEUE_LEN {
        assert!(q.push(item(&i.to_string())), "should accept up to the cap");
    }
    assert!(!q.push(item("overflow")), "rejects past the cap");
    assert_eq!(q.len(), MAX_QUEUE_LEN);
}

#[test]
fn push_front_takes_priority_over_push() {
    let mut q = PriorityQueue::new();
    assert!(q.push(item("a")));
    assert!(q.push_front(item("b")));
    let snap = q.snapshot();
    assert_eq!(snap.len(), 2);
    assert_eq!(snap[0].source.display_title(), "b");
    assert_eq!(snap[1].source.display_title(), "a");
}

#[test]
fn push_front_rejects_when_full() {
    let mut q = PriorityQueue::new();
    for i in 0..MAX_QUEUE_LEN {
        assert!(q.push(item(&i.to_string())), "should accept up to the cap");
    }
    assert!(!q.push_front(item("overflow")), "rejects past the cap");
    assert_eq!(q.len(), MAX_QUEUE_LEN);
}

fn spotify_item(uri: &str, title: &str) -> QueueItem {
    QueueItem::new(
        MediaSource::Spotify {
            uri: SpotifyUri::from_uri(uri).unwrap(),
            title: title.into(),
            artist: "artist".into(),
            album_art_url: None,
        },
        "me".into(),
        1,
    )
}

#[test]
fn item_ids_are_unique_and_survive_reordering() {
    let mut q = PriorityQueue::new();
    assert!(q.push(item("a")));
    assert!(q.push(item("b")));
    assert!(q.push_front(item("c")));
    assert!(q.insert(1, item("d")));

    // Insertion order was a(1), b(2), c(3), d(4); queue order is now
    // [c, d, a, b] — each item keeps the id stamped at its insertion.
    let snap = q.snapshot();
    let pairs: Vec<(&str, u64)> =
        snap.iter().map(|i| (i.source.display_title(), i.item_id)).collect();
    assert_eq!(pairs, vec![("c", 3), ("d", 4), ("a", 1), ("b", 2)]);

    let mut ids: Vec<u64> = snap.iter().map(|i| i.item_id).collect();
    assert!(ids.iter().all(|&id| id != 0), "every insertion stamps a nonzero id");
    ids.sort_unstable();
    ids.dedup();
    assert_eq!(ids.len(), snap.len(), "ids are unique");

    // Re-inserting a popped item stamps a fresh id: an id names one
    // residency in the queue, so it can never collide with a live one.
    let popped = q.pop().unwrap();
    assert_eq!(popped.item_id, 3);
    assert!(q.push(popped));
    assert_eq!(q.snapshot().last().unwrap().item_id, 5, "re-insertion restamps");
}

#[test]
fn insert_at_one_keeps_head() {
    let mut q = PriorityQueue::new();
    assert!(q.push(item("a")));
    assert!(q.push(item("c")));
    assert!(q.insert(1, item("b")));
    let snap = q.snapshot();
    assert_eq!(snap.len(), 3);
    assert_eq!(snap[0].source.display_title(), "a");
    assert_eq!(snap[1].source.display_title(), "b");
    assert_eq!(snap[2].source.display_title(), "c");
}

#[test]
fn insert_rejects_when_full() {
    let mut q = PriorityQueue::new();
    for i in 0..MAX_QUEUE_LEN {
        assert!(q.push(item(&i.to_string())), "should accept up to the cap");
    }
    assert!(!q.insert(0, item("overflow")), "rejects past the cap");
    assert_eq!(q.len(), MAX_QUEUE_LEN);
}

#[test]
fn peek_does_not_consume() {
    let mut q = PriorityQueue::new();
    assert!(q.peek().is_none());
    q.push(item("a"));
    q.push(item("b"));
    assert_eq!(q.peek().unwrap().source.display_title(), "a");
    assert_eq!(q.len(), 2, "peek doesn't drain");
    assert_eq!(q.peek().unwrap().source.display_title(), "a");
}

#[test]
fn find_first_and_remove_first_reach_past_the_head() {
    let mut q = PriorityQueue::new();
    q.push(item("a"));
    q.push(spotify_item("spotify:track:11dFghVXANMlKmJXsNCbNl", "b"));
    q.push(item("c"));

    let is_spotify = |i: &QueueItem| matches!(i.source, MediaSource::Spotify { .. });
    assert_eq!(q.find_first(is_spotify).unwrap().source.display_title(), "b");
    assert_eq!(q.len(), 3, "find_first does not consume");

    let removed = q.remove_first(is_spotify).unwrap();
    assert_eq!(removed.source.display_title(), "b");
    let titles: Vec<_> = q.snapshot().iter().map(|i| i.source.display_title().to_string()).collect();
    assert_eq!(titles, vec!["a", "c"], "the surrounding order is kept");
    assert!(q.remove_first(is_spotify).is_none());
}

#[test]
fn pop_if_only_pops_matching_head() {
    let mut q = PriorityQueue::new();
    q.push(item("a"));
    q.push(spotify_item("spotify:track:11dFghVXANMlKmJXsNCbNl", "b"));

    assert!(
        q.pop_if(|i| matches!(i.source, MediaSource::Spotify { .. })).is_none(),
        "head doesn't match, so nothing pops"
    );
    assert_eq!(q.len(), 2);

    let popped = q.pop_if(|i| matches!(i.source, MediaSource::YouTube { .. }));
    assert_eq!(popped.unwrap().source.display_title(), "a");
    assert_eq!(q.len(), 1);
    assert_eq!(q.peek().unwrap().source.display_title(), "b");
}

#[test]
fn snapshot_preserves_order_without_draining() {
    let mut q = PriorityQueue::new();
    q.push(item("a"));
    q.push(item("b"));
    let snap = q.snapshot();
    assert_eq!(snap.len(), 2);
    assert_eq!(snap[0].source.display_title(), "a");
    assert_eq!(q.len(), 2, "snapshot doesn't drain");
}

#[test]
fn each_source_has_its_own_colour() {
    assert_eq!(item("a").source.embed_color(), 0xFF0000);
    let file = MediaSource::File { filename: "f.mp3".into(), attachment_url: "a".into() };
    assert_eq!(file.embed_color(), 0x5865F2);
}
