//! Spotify item identifiers.

use vstd::prelude::*;

verus! {

/// What a Spotify uri stands for: its canonical text, and the item type when
/// that type is none of Spotify's own (the canonical text of such an item
/// says only `unknown`).
pub struct UriModel {
    pub text: Seq<char>,
    pub foreign_kind: Option<Seq<char>>,
}

/// The canonical text and, for an unrecognised item type, that type's name,
/// that librespot reads out of `src`; `None` when it rejects `src`.
pub uninterp spec fn parsed_uri(src: Seq<char>) -> Option<(Seq<char>, Option<Seq<char>>)>;

/// `librespot_core::SpotifyUri::from_uri`, with the parsed value rendered by
/// `SpotifyUri::to_uri`. What comes back is a function of `src` alone, and
/// the canonical text of a recognised item type reads back as itself.
#[verifier::external_body]
fn parse_uri(src: &str) -> (r: Option<(String, Option<String>)>)
    ensures
        parsed_uri(src@) == match r {
            Some(p) => Some((p.0@, crate::text::text_of(p.1))),
            None => None,
        },
        r matches Some(p) ==> (p.1 is None ==> parsed_uri(p.0@) == Some(
            (p.0@, None::<Seq<char>>),
        )),
{
    let uri = librespot_core::SpotifyUri::from_uri(src).ok()?;
    let foreign = match &uri {
        librespot_core::SpotifyUri::Unknown { kind, .. } => Some(kind.to_string()),
        _ => None,
    };
    Some((uri.to_uri().ok()?, foreign))
}

/// A Spotify item: a track, an episode, a playlist and so on.
#[derive(Debug, PartialEq, Eq)]
pub struct SpotifyUri {
    text: String,
    foreign_kind: Option<String>,
}

impl View for SpotifyUri {
    type V = UriModel;

    closed spec fn view(&self) -> UriModel {
        UriModel { text: self.text@, foreign_kind: crate::text::text_of(self.foreign_kind) }
    }
}

impl SpotifyUri {
    /// The canonical text of a recognised item reads back as the same item.
    pub open spec fn valid(&self) -> bool {
        self@.foreign_kind is None ==> parsed_uri(self@.text) == Some(
            (self@.text, None::<Seq<char>>),
        )
    }

    /// Parse a Spotify uri; `None` when librespot does not accept it.
    pub fn from_uri(src: &str) -> (r: Option<SpotifyUri>)
        ensures
            match r {
                Some(uri) => uri.valid() && parsed_uri(src@) == Some(
                    (uri@.text, uri@.foreign_kind),
                ),
                None => parsed_uri(src@) is None,
            },
    {
        match parse_uri(src) {
            Some((text, foreign_kind)) => Some(SpotifyUri { text, foreign_kind }),
            None => None,
        }
    }

    /// The canonical text of this item.
    pub fn to_uri(&self) -> (r: String)
        ensures
            r@ == self@.text,
    {
        self.text.clone()
    }

    /// Whether two uris name the same item.
    pub fn same(&self, other: &SpotifyUri) -> (r: bool)
        ensures
            r == (self@ == other@),
    {
        if self.text != other.text {
            return false;
        }
        match (&self.foreign_kind, &other.foreign_kind) {
            (None, None) => true,
            (Some(a), Some(b)) => *a == *b,
            _ => false,
        }
    }
}

impl Clone for SpotifyUri {
    fn clone(&self) -> (r: Self)
        ensures
            r == *self,
    {
        let foreign_kind = match &self.foreign_kind {
            Some(k) => Some(k.clone()),
            None => None,
        };
        SpotifyUri { text: self.text.clone(), foreign_kind }
    }
}

/// A uri is what the parser makes of its text, written out as the parser
/// writes it. Two uris are the same when both their texts and their foreign
/// types are.
pub proof fn law_uris_are_told_apart(
    src: &str,
    read: Option<SpotifyUri>,
    a: SpotifyUri,
    b: SpotifyUri,
    text: String,
    same: bool,
)
    requires
        call_ensures(SpotifyUri::from_uri, (src,), read),
        call_ensures(SpotifyUri::to_uri, (&a,), text),
        call_ensures(SpotifyUri::same, (&a, &b), same),
    ensures
        read is None <==> parsed_uri(src@) is None,
        read matches Some(uri) ==> {
            &&& parsed_uri(src@) == Some((uri@.text, uri@.foreign_kind))
            &&& uri@.foreign_kind is None ==> parsed_uri(uri@.text) == Some(
                (uri@.text, None::<Seq<char>>),
            )
        },
        text@ == a@.text,
        same <==> a@.text == b@.text && a@.foreign_kind == b@.foreign_kind,
{
}

} // verus!
