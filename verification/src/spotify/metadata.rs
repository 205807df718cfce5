//! Track metadata from the Web API.

use vstd::prelude::*;

use crate::text::{cat, separate};

verus! {

/// A track as the Web API describes it.
#[derive(Clone, Debug)]
pub struct TrackMetadata {
    pub title: String,
    pub artist: String,
    pub album_art_url: Option<String>,
    pub spotify_track_id: String,
}

/// Where a track's metadata is fetched.
pub fn track_url(track_id: &str) -> (r: String)
    ensures
        r@ == "https://api.spotify.com/v1/tracks/"@ + track_id@,
{
    cat("https://api.spotify.com/v1/tracks/", track_id)
}

/// The `Authorization` header's value.
pub fn bearer(access_token: &str) -> (r: String)
    ensures
        r@ == "Bearer "@ + access_token@,
{
    cat("Bearer ", access_token)
}

/// The metadata in a successful answer: every artist in the order given, and
/// the album's first image.
pub fn described_track(
    track_id: &str,
    name: String,
    artists: &Vec<String>,
    images: Vec<String>,
) -> (r: TrackMetadata)
    ensures
        r.title == name,
        r.artist@ == crate::text::separated(crate::text::texts(artists@), ", "@),
        r.album_art_url == (if images@.len() == 0 {
            None
        } else {
            Some(images@[0])
        }),
        r.spotify_track_id@ == track_id@,
{
    let mut images = images;
    let album_art_url = if images.len() == 0 {
        None
    } else {
        Some(images.remove(0))
    };
    TrackMetadata {
        title: name,
        artist: separate(artists, ", "),
        album_art_url,
        spotify_track_id: track_id.to_owned(),
    }
}

/// A track is fetched under its own id with the token as a bearer, and shown
/// with all its artists in order and its album's first image.
pub proof fn law_tracks_are_fetched_and_described(
    track_id: &str,
    token: &str,
    url: String,
    header: String,
    name: String,
    artists: Vec<String>,
    images: Vec<String>,
    track: TrackMetadata,
)
    requires
        call_ensures(track_url, (track_id,), url),
        call_ensures(bearer, (token,), header),
        call_ensures(described_track, (track_id, name, &artists, images), track),
    ensures
        url@ == "https://api.spotify.com/v1/tracks/"@ + track_id@,
        header@ == "Bearer "@ + token@,
        track.title == name,
        track.artist@ == crate::text::separated(crate::text::texts(artists@), ", "@),
        artists@.len() == 1 ==> track.artist@ == artists@[0]@,
        images@.len() == 0 ==> track.album_art_url is None,
        images@.len() > 0 ==> track.album_art_url == Some(images@[0]),
        track.spotify_track_id@ == track_id@,
{
    if artists@.len() == 1 {
        let t = crate::text::texts(artists@);
        assert(t =~= seq![artists@[0]@]);
        reveal_with_fuel(crate::text::separated, 2);
    }
}

} // verus!
