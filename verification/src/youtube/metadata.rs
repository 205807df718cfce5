//! What may be played from a link or an upload, and what yt-dlp says about it.

use vstd::prelude::*;

use crate::text::{
    add_text, cat, cat3, decimal_text, first_line, has_suffix, has_text, parse_u64, same_text,
    tail_after, to_lower, to_lower_ascii, trim, utf8_lossy,
};

verus! {

/// Longest track that may be queued, in seconds, unless configured otherwise.
pub const YOUTUBE_MAX_DURATION_SECS: u64 = 7200;

/// Largest upload that may be queued, in bytes.
pub const MAX_FILE_BYTES: u64 = 52_428_800;

/// What yt-dlp knows of a track.
#[derive(Clone, Debug)]
pub struct YoutubeMetadata {
    pub video_id: String,
    pub title: String,
    pub channel: String,
    pub thumbnail_url: Option<String>,
    pub duration_secs: u64,
    pub webpage_url: String,
}

/// Why a link or an upload cannot be played.
#[derive(Debug, PartialEq, Eq)]
pub enum YoutubeError {
    UnsupportedUrl,
    NotFound,
    AgeRestricted,
    Unavailable,
    /// Longer than the limit, which is given in minutes.
    TooLong(u64),
    LiveStream,
    InvalidFileType,
    FileTooLarge,
    Network(String),
    Parse(String),
}

impl YoutubeError {
    pub open spec fn text(self) -> Seq<char> {
        match self {
            YoutubeError::UnsupportedUrl => "Only YouTube and SoundCloud URLs are supported."@,
            YoutubeError::NotFound => "Couldn't find a track at that URL."@,
            YoutubeError::AgeRestricted => "This video is age-restricted — the bot needs YouTube login cookies to play it (admin: set YOUTUBE_COOKIES)."@,
            YoutubeError::Unavailable => "This track is unavailable."@,
            YoutubeError::TooLong(minutes) => "Track too long (max "@ + crate::text::decimal(
                minutes as nat,
            ) + " min). Use Spotify for long content."@,
            YoutubeError::LiveStream => "Live streams aren't supported."@,
            YoutubeError::InvalidFileType => "Unsupported file type. Accepted: mp3, flac, ogg, wav, m4a, aac, opus, wma"@,
            YoutubeError::FileTooLarge => "File too large (max 50MB)."@,
            YoutubeError::Network(detail) => "Network error: "@ + detail@,
            YoutubeError::Parse(detail) => "Parse error: "@ + detail@,
        }
    }

    /// What the requester is told.
    pub fn message(&self) -> (r: String)
        ensures
            r@ == self.text(),
    {
        match self {
            YoutubeError::UnsupportedUrl =>
            "Only YouTube and SoundCloud URLs are supported.".to_owned(),
            YoutubeError::NotFound => "Couldn't find a track at that URL.".to_owned(),
            YoutubeError::AgeRestricted =>
            "This video is age-restricted — the bot needs YouTube login cookies to play it (admin: set YOUTUBE_COOKIES).".to_owned(),
            YoutubeError::Unavailable => "This track is unavailable.".to_owned(),
            YoutubeError::TooLong(minutes) => cat3(
                "Track too long (max ",
                &decimal_text(*minutes),
                " min). Use Spotify for long content.",
            ),
            YoutubeError::LiveStream => "Live streams aren't supported.".to_owned(),
            YoutubeError::InvalidFileType =>
            "Unsupported file type. Accepted: mp3, flac, ogg, wav, m4a, aac, opus, wma".to_owned(),
            YoutubeError::FileTooLarge => "File too large (max 50MB).".to_owned(),
            YoutubeError::Network(detail) => cat("Network error: ", detail.as_str()),
            YoutubeError::Parse(detail) => cat("Parse error: ", detail.as_str()),
        }
    }
}

/// The parts of a URL the rules look at, and its canonical text.
#[derive(Debug)]
pub struct UrlParts {
    pub scheme: String,
    pub host: Option<String>,
    pub text: String,
}

impl UrlParts {
    pub open spec fn parts(self) -> (Seq<char>, Option<Seq<char>>, Seq<char>) {
        (self.scheme@, crate::text::text_of(self.host), self.text@)
    }
}

/// The scheme, host and canonical text that the `url` crate reads out of
/// `src`; `None` when it is not an absolute URL.
pub uninterp spec fn parsed_url(src: Seq<char>) -> Option<
    (Seq<char>, Option<Seq<char>>, Seq<char>),
>;

/// `url::Url::parse`, with the parsed URL's scheme, host and serialization.
/// What comes back is a function of `src` alone.
#[verifier::external_body]
fn parse_url(src: &str) -> (r: Option<UrlParts>)
    ensures
        parsed_url(src@) == match r {
            Some(p) => Some(p.parts()),
            None => None,
        },
{
    let url = url::Url::parse(src).ok()?;
    Some(
        UrlParts {
            scheme: url.scheme().to_owned(),
            host: url.host_str().map(|h| h.to_owned()),
            text: url.into(),
        },
    )
}

/// `host` is `root` or lies below it; the dot keeps lookalikes out.
pub open spec fn is_or_below(host: Seq<char>, root: Seq<char>) -> bool {
    host == root || crate::text::ends_with(host, "."@ + root)
}

/// Hosts that may be handed to yt-dlp.
pub open spec fn allowed_host(host: Seq<char>) -> bool {
    let host = crate::text::lowered_ascii(host);
    is_or_below(host, "youtube.com"@) || host == "youtu.be"@ || is_or_below(host, "soundcloud.com"@)
}

/// A URL that may be played: https, and an allowed host.
pub open spec fn playable(parts: (Seq<char>, Option<Seq<char>>, Seq<char>)) -> bool {
    parts.0 == "https"@ && (parts.1 matches Some(host) && allowed_host(host))
}

fn below(host: &str, root: &str) -> (r: bool)
    ensures
        r == is_or_below(host@, root@),
{
    same_text(host, root) || has_suffix(host, cat(".", root).as_str())
}

/// Decide on a parsed URL: its canonical text when it may be played.
pub fn accept_url(parts: Option<UrlParts>) -> (r: Result<String, YoutubeError>)
    ensures
        match r {
            Ok(text) => parts matches Some(p) && playable(p.parts()) && text@ == p.text@,
            Err(e) => e is UnsupportedUrl && !(parts matches Some(p) && playable(p.parts())),
        },
{
    let p = match parts {
        Some(p) => p,
        None => return Err(YoutubeError::UnsupportedUrl),
    };
    if !same_text(p.scheme.as_str(), "https") {
        return Err(YoutubeError::UnsupportedUrl);
    }
    let host = match &p.host {
        Some(h) => to_lower_ascii(h.as_str()),
        None => return Err(YoutubeError::UnsupportedUrl),
    };
    if below(host.as_str(), "youtube.com") || same_text(host.as_str(), "youtu.be") || below(
        host.as_str(),
        "soundcloud.com",
    ) {
        Ok(p.text)
    } else {
        Err(YoutubeError::UnsupportedUrl)
    }
}

/// The URL a `/play` argument means: as written, or with a scheme put in
/// front.
pub open spec fn meant_url(input: Seq<char>) -> Option<
    (Seq<char>, Option<Seq<char>>, Seq<char>),
> {
    let trimmed = crate::text::trimmed(input);
    if parsed_url(trimmed) is Some {
        parsed_url(trimmed)
    } else {
        parsed_url("https://"@ + trimmed)
    }
}

/// Validate a /play URL before it reaches yt-dlp: https-only and an
/// allowlisted host. yt-dlp's generic extractor fetches any URL server-side,
/// so unsupported hosts must be rejected before any subprocess spawns.
/// Returns the canonical URL to pass along.
pub fn validate_play_url(input: &str) -> (r: Result<String, YoutubeError>)
    ensures
        match r {
            Ok(text) => meant_url(input@) matches Some(p) && playable(p) && text@ == p.2,
            Err(e) => e is UnsupportedUrl && !(meant_url(input@) matches Some(p) && playable(p)),
        },
{
    let trimmed = trim(input);
    match parse_url(trimmed.as_str()) {
        Some(parts) => accept_url(Some(parts)),
        // Accept a scheme-less paste ("youtube.com/watch?v=…").
        None => accept_url(parse_url(cat("https://", trimmed.as_str()).as_str())),
    }
}

/// The arguments of a metadata lookup. `--` ends option parsing so that a URL
/// with a leading dash cannot be a flag.
pub fn metadata_args(url: &str, cookies: Option<&str>) -> (r: Vec<String>)
    ensures
        crate::text::texts(r@) == seq![
            "--dump-json"@,
            "--no-playlist"@,
            "--flat-playlist"@,
            "--remote-components"@,
            "ejs:github"@,
        ] + (match cookies {
            Some(path) => seq!["--cookies"@, path@],
            None => Seq::empty(),
        }) + seq!["--"@, url@],
{
    let mut args: Vec<String> = Vec::new();
    assert(crate::text::texts(args@) =~= Seq::empty());
    add_text(&mut args, "--dump-json");
    add_text(&mut args, "--no-playlist");
    add_text(&mut args, "--flat-playlist");
    add_text(&mut args, "--remote-components");
    add_text(&mut args, "ejs:github");
    if let Some(path) = cookies {
        add_text(&mut args, "--cookies");
        add_text(&mut args, path);
    }
    add_text(&mut args, "--");
    add_text(&mut args, url);
    args
}

/// yt-dlp's complaint, in lower case, is one it makes of a track that cannot
/// be had.
pub open spec fn says_unavailable(stderr: Seq<char>) -> bool {
    crate::text::contains(stderr, "unavailable"@) || crate::text::contains(stderr, "private"@)
        || crate::text::contains(stderr, "removed"@)
}

/// yt-dlp's complaint, in lower case, is about a viewer's age.
pub open spec fn says_age(stderr: Seq<char>) -> bool {
    crate::text::contains(stderr, "age"@) && (crate::text::contains(stderr, "sign in"@)
        || crate::text::contains(stderr, "confirm your age"@))
}

/// Classify a complaint already in lower case. What is neither about age nor
/// about availability gets a generic answer, so that nothing of the raw text
/// reaches the requester.
pub fn classify_lowered(stderr: &str) -> (r: YoutubeError)
    ensures
        r is AgeRestricted <==> says_age(stderr@),
        r is Unavailable <==> !says_age(stderr@) && says_unavailable(stderr@),
        !says_age(stderr@) && !says_unavailable(stderr@) ==> (r matches YoutubeError::Network(t)
            && t@ == "couldn't fetch that link — check the URL and try again"@),
{
    if has_text(stderr, "age") && (has_text(stderr, "sign in") || has_text(
        stderr,
        "confirm your age",
    )) {
        return YoutubeError::AgeRestricted;
    }
    if has_text(stderr, "unavailable") || has_text(stderr, "private") || has_text(
        stderr,
        "removed",
    ) {
        return YoutubeError::Unavailable;
    }
    YoutubeError::Network("couldn't fetch that link — check the URL and try again".to_owned())
}

/// Classify what yt-dlp wrote to its error stream.
pub fn classify_ytdlp_stderr(stderr: &str) -> (r: YoutubeError)
    ensures
        ({
            let low = crate::text::lowered(stderr@);
            &&& r is AgeRestricted <==> says_age(low)
            &&& r is Unavailable <==> !says_age(low) && says_unavailable(low)
            &&& !says_age(low) && !says_unavailable(low) ==> (r matches YoutubeError::Network(t)
                && t@ == "couldn't fetch that link — check the URL and try again"@)
        }),
{
    classify_lowered(to_lower(stderr).as_str())
}

/// The line of yt-dlp's output that holds the track.
pub fn metadata_line(stdout: &str) -> (r: Result<String, YoutubeError>)
    ensures
        match r {
            Ok(line) => line@ == crate::text::first_line_of(stdout@) && line@.len() > 0,
            Err(e) => e is NotFound && crate::text::first_line_of(stdout@).len() == 0,
        },
{
    let line = first_line(stdout);
    if line.as_str().is_empty() {
        Err(YoutubeError::NotFound)
    } else {
        Ok(line)
    }
}

/// What a finished metadata lookup gives: the line that holds the track, or
/// why there is none.
pub fn fetched_line(success: bool, stdout: &Vec<u8>, stderr: &Vec<u8>) -> (r: Result<
    String,
    YoutubeError,
>)
    ensures
        ({
            let low = crate::text::lowered(crate::text::lossy_text(stderr@));
            let line = crate::text::first_line_of(crate::text::lossy_text(stdout@));
            match r {
                Ok(text) => success && line.len() > 0 && text@ == line,
                Err(e) => if success {
                    line.len() == 0 && e is NotFound
                } else {
                    &&& e is AgeRestricted <==> says_age(low)
                    &&& e is Unavailable <==> !says_age(low) && says_unavailable(low)
                    &&& !says_age(low) && !says_unavailable(low) ==> (
                    e matches YoutubeError::Network(t) && t@
                        == "couldn't fetch that link — check the URL and try again"@)
                },
            }
        }),
{
    if success {
        metadata_line(utf8_lossy(stdout).as_str())
    } else {
        Err(classify_ytdlp_stderr(utf8_lossy(stderr).as_str()))
    }
}

/// The fields of yt-dlp's JSON that are used, with the duration in whole
/// seconds.
#[derive(Debug)]
pub struct RawTrack {
    pub id: String,
    pub title: String,
    pub uploader: Option<String>,
    pub channel: Option<String>,
    pub thumbnail: Option<String>,
    pub duration: Option<u64>,
    pub webpage_url: Option<String>,
    pub is_live: Option<bool>,
}

impl RawTrack {
    /// A live stream says so, or has no length.
    pub open spec fn live(self) -> bool {
        self.is_live == Some(true) || self.duration is None
    }

    pub open spec fn channel_name(self) -> Seq<char> {
        match self.channel {
            Some(c) => c@,
            None => match self.uploader {
                Some(u) => u@,
                None => "Unknown channel"@,
            },
        }
    }

    pub open spec fn page(self) -> Seq<char> {
        match self.webpage_url {
            Some(u) => u@,
            None => "https://www.youtube.com/watch?v="@ + self.id@,
        }
    }
}

/// The longest track that may be queued, in seconds, given the configured
/// value.
pub fn max_duration(configured: Option<&str>) -> (r: u64)
    ensures
        r == (match configured {
            Some(text) => match crate::text::parsed_u64(text@) {
                Some(n) => n,
                None => YOUTUBE_MAX_DURATION_SECS,
            },
            None => YOUTUBE_MAX_DURATION_SECS,
        }),
{
    match configured {
        Some(text) => match parse_u64(text) {
            Some(n) => n,
            None => YOUTUBE_MAX_DURATION_SECS,
        },
        None => YOUTUBE_MAX_DURATION_SECS,
    }
}

/// Turn yt-dlp's answer into a track, unless it is a live stream or longer
/// than `max` seconds.
pub fn track_metadata(raw: RawTrack, max: u64) -> (r: Result<YoutubeMetadata, YoutubeError>)
    ensures
        match r {
            Ok(m) => {
                &&& !raw.live()
                &&& raw.duration matches Some(d) && d <= max && m.duration_secs == d
                &&& m.video_id == raw.id
                &&& m.title == raw.title
                &&& m.channel@ == raw.channel_name()
                &&& m.thumbnail_url == raw.thumbnail
                &&& m.webpage_url@ == raw.page()
            },
            Err(e) => if raw.live() {
                e is LiveStream
            } else {
                raw.duration matches Some(d) && d > max && e == YoutubeError::TooLong(max / 60)
            },
        },
{
    let live = match raw.is_live {
        Some(b) => b,
        None => false,
    };
    let duration_secs: u64 = match raw.duration {
        Some(d) => d,
        None => return Err(YoutubeError::LiveStream),
    };
    if live {
        return Err(YoutubeError::LiveStream);
    }
    if duration_secs > max {
        return Err(YoutubeError::TooLong(max / 60));
    }
    // No age check here: getting metadata for an age-gated video already
    // required authenticated access.
    let channel = match raw.channel {
        Some(c) => c,
        None => match raw.uploader {
            Some(u) => u,
            None => "Unknown channel".to_owned(),
        },
    };
    let webpage_url = match raw.webpage_url {
        Some(u) => u,
        None => cat("https://www.youtube.com/watch?v=", raw.id.as_str()),
    };
    Ok(
        YoutubeMetadata {
            video_id: raw.id,
            title: raw.title,
            channel,
            thumbnail_url: raw.thumbnail,
            duration_secs,
            webpage_url,
        },
    )
}

/// File types ffmpeg is asked to decode.
pub open spec fn playable_ext(ext: Seq<char>) -> bool {
    ||| ext == "mp3"@
    ||| ext == "flac"@
    ||| ext == "ogg"@
    ||| ext == "opus"@
    ||| ext == "wav"@
    ||| ext == "m4a"@
    ||| ext == "aac"@
    ||| ext == "wma"@
}

/// Decide on an upload from its size and its extension in lower case.
pub fn accept_upload(ext: String, size_bytes: u64) -> (r: Result<String, YoutubeError>)
    ensures
        match r {
            Ok(e) => size_bytes <= MAX_FILE_BYTES && playable_ext(ext@) && e@ == ext@,
            Err(e) => if size_bytes > MAX_FILE_BYTES {
                e is FileTooLarge
            } else {
                e is InvalidFileType && !playable_ext(ext@)
            },
        },
{
    if size_bytes > MAX_FILE_BYTES {
        return Err(YoutubeError::FileTooLarge);
    }
    let e = ext.as_str();
    if same_text(e, "mp3") || same_text(e, "flac") || same_text(e, "ogg") || same_text(e, "opus")
        || same_text(e, "wav") || same_text(e, "m4a") || same_text(e, "aac") || same_text(
        e,
        "wma",
    ) {
        Ok(ext)
    } else {
        Err(YoutubeError::InvalidFileType)
    }
}

/// Validate a file attachment for playback; returns its extension.
pub fn validate_attachment(filename: &str, size_bytes: u64) -> (r: Result<String, YoutubeError>)
    ensures
        ({
            let ext = crate::text::lowered(crate::text::after_last(filename@, '.'));
            match r {
                Ok(e) => size_bytes <= MAX_FILE_BYTES && playable_ext(ext) && e@ == ext,
                Err(e) => if size_bytes > MAX_FILE_BYTES {
                    e is FileTooLarge
                } else {
                    e is InvalidFileType && !playable_ext(ext)
                },
            }
        }),
        crate::text::all_ascii(crate::text::after_last(filename@, '.')) ==> crate::text::lowered(
            crate::text::after_last(filename@, '.'),
        ) == crate::text::lowered_ascii(crate::text::after_last(filename@, '.')),
{
    let ext = tail_after(filename, '.');
    accept_upload(to_lower(ext.as_str()), size_bytes)
}

/// A link may be played exactly if it is https and its host, in lower case, is
/// YouTube's, its short one or SoundCloud's, or lies below YouTube's or
/// SoundCloud's; what is played is its canonical text.
pub proof fn law_links_of_the_known_hosts_are_played(
    parts: UrlParts,
    r: Result<String, YoutubeError>,
)
    requires
        call_ensures(accept_url, (Some(parts),), r),
    ensures
        ({
            let host = match parts.host {
                Some(text) => crate::text::lowered_ascii(text@),
                None => Seq::empty(),
            };
            let known = parts.host is Some && (host == "youtube.com"@ || host == "youtu.be"@
                || host == "soundcloud.com"@ || (exists|sub: Seq<char>|
                host == #[trigger] (sub + ".youtube.com"@)) || (exists|sub: Seq<char>|
                host == #[trigger] (sub + ".soundcloud.com"@)));
            &&& r is Ok <==> parts.scheme@ == "https"@ && known
            &&& r matches Ok(text) ==> text@ == parts.text@
            &&& r matches Err(e) ==> e is UnsupportedUrl
        }),
{
    reveal_strlit(".");
    reveal_strlit("youtube.com");
    reveal_strlit(".youtube.com");
    reveal_strlit("soundcloud.com");
    reveal_strlit(".soundcloud.com");
    let host = match parts.host {
        Some(text) => crate::text::lowered_ascii(text@),
        None => Seq::empty(),
    };
    assert("."@ + "youtube.com"@ =~= ".youtube.com"@);
    assert("."@ + "soundcloud.com"@ =~= ".soundcloud.com"@);
    crate::text::law_found_parts_are_there(host, ".youtube.com"@);
    crate::text::law_found_parts_are_there(host, ".soundcloud.com"@);
}

/// A `/play` argument is read as a link without the space around it, and where
/// it is none, as one whose scheme was left out.
pub proof fn law_a_pasted_link_is_read(input: &str, r: Result<String, YoutubeError>)
    requires
        call_ensures(validate_play_url, (input,), r),
    ensures
        ({
            let text = crate::text::trimmed(input@);
            let read = if parsed_url(text) is Some {
                parsed_url(text)
            } else {
                parsed_url("https://"@ + text)
            };
            &&& r matches Ok(url) ==> (read matches Some((scheme, _, canonical)) && url@
                == canonical && scheme == "https"@)
            &&& r is Ok <==> (read matches Some((scheme, Some(host), _)) && scheme == "https"@ && {
                let low = crate::text::lowered_ascii(host);
                ||| low == "youtube.com"@
                ||| low == "youtu.be"@
                ||| low == "soundcloud.com"@
                ||| crate::text::ends_with(low, ".youtube.com"@)
                ||| crate::text::ends_with(low, ".soundcloud.com"@)
            })
            &&& r matches Err(e) ==> e is UnsupportedUrl
        }),
{
    reveal_strlit(".");
    reveal_strlit("youtube.com");
    reveal_strlit(".youtube.com");
    reveal_strlit("soundcloud.com");
    reveal_strlit(".soundcloud.com");
    assert("."@ + "youtube.com"@ =~= ".youtube.com"@);
    assert("."@ + "soundcloud.com"@ =~= ".soundcloud.com"@);
}

/// A lookup asks for one track's description and nothing else, with the cookies
/// it was given, and the link comes last, behind the end of the options.
pub proof fn law_a_lookup_asks_for_one_track(url: &str, cookies: Option<&str>, r: Vec<String>)
    requires
        call_ensures(metadata_args, (url, cookies), r),
    ensures
        ({
            let args = crate::text::texts(r@);
            let n = args.len() as int;
            &&& n == (if cookies is Some {
                9int
            } else {
                7
            })
            &&& args[n - 2] == "--"@ && args[n - 1] == url@
            &&& args.take(5) =~= seq![
                "--dump-json"@,
                "--no-playlist"@,
                "--flat-playlist"@,
                "--remote-components"@,
                "ejs:github"@,
            ]
            &&& cookies matches Some(path) ==> args[5] == "--cookies"@ && args[6] == path@
        }),
{
}

/// What yt-dlp complains of is told apart by its words: a viewer's age, a track
/// that cannot be had, and everything else, of which nothing is passed on.
pub proof fn law_complaints_are_told_apart(stderr: &str, r: YoutubeError)
    requires
        call_ensures(classify_lowered, (stderr,), r),
    ensures
        ({
            let says = |word: Seq<char>| crate::text::contains(stderr@, word);
            let age = says("age"@) && (says("sign in"@) || says("confirm your age"@));
            let gone = says("unavailable"@) || says("private"@) || says("removed"@);
            &&& age ==> r is AgeRestricted
            &&& !age && gone ==> r is Unavailable
            &&& !age && !gone ==> (r matches YoutubeError::Network(text) && text@
                == "couldn't fetch that link — check the URL and try again"@)
        }),
{
}

/// A complaint is read whatever its case.
pub proof fn law_complaints_are_read_in_lower_case(
    stderr: &str,
    low: &str,
    a: YoutubeError,
    b: YoutubeError,
)
    requires
        call_ensures(classify_ytdlp_stderr, (stderr,), a),
        call_ensures(classify_lowered, (low,), b),
        low@ == crate::text::lowered(stderr@),
    ensures
        a is AgeRestricted <==> b is AgeRestricted,
        a is Unavailable <==> b is Unavailable,
        a is Network <==> b is Network,
{
}

/// A track is taken as yt-dlp describes it, up to the limit; a live stream, or
/// what has no length, is not, and neither is a longer one, which is told the
/// limit in minutes.
pub proof fn law_tracks_are_taken_up_to_the_limit(
    raw: RawTrack,
    max: u64,
    r: Result<YoutubeMetadata, YoutubeError>,
)
    requires
        call_ensures(track_metadata, (raw, max), r),
    ensures
        raw.is_live == Some(true) || raw.duration is None ==> (r matches Err(e) && e is LiveStream),
        raw.is_live != Some(true) && (raw.duration matches Some(d) && d > max) ==> r == Err::<
            YoutubeMetadata,
            _,
        >(YoutubeError::TooLong(max / 60)),
        raw.is_live != Some(true) && (raw.duration matches Some(d) && d <= max) ==> (
        r matches Ok(m) && {
            &&& m.duration_secs == raw.duration->0
            &&& m.video_id == raw.id
            &&& m.title == raw.title
            &&& m.thumbnail_url == raw.thumbnail
            &&& raw.channel matches Some(name) ==> m.channel@ == name@
            &&& raw.channel is None && raw.uploader is Some ==> m.channel@ == raw.uploader->0@
            &&& raw.channel is None && raw.uploader is None ==> m.channel@ == "Unknown channel"@
            &&& raw.webpage_url matches Some(page) ==> m.webpage_url@ == page@
            &&& raw.webpage_url is None ==> m.webpage_url@ == "https://www.youtube.com/watch?v="@
                + raw.id@
        }),
{
}

/// The limit is two hours unless a number says otherwise.
pub proof fn law_the_limit_is_two_hours(configured: Option<&str>, r: u64)
    requires
        call_ensures(max_duration, (configured,), r),
    ensures
        configured is None ==> r == 2 * 3600,
        configured matches Some(text) ==> match crate::text::parsed_u64(text@) {
            Some(n) => r == n,
            None => r == 2 * 3600,
        },
{
}

/// An upload is taken up to fifty mebibytes, by its extension in lower case,
/// which is what stands behind its last dot.
pub proof fn law_uploads_are_taken_by_extension(
    filename: &str,
    size: u64,
    r: Result<String, YoutubeError>,
)
    requires
        call_ensures(validate_attachment, (filename, size), r),
    ensures
        ({
            let ext = crate::text::lowered(crate::text::after_last(filename@, '.'));
            let audio = ext == "mp3"@ || ext == "flac"@ || ext == "ogg"@ || ext == "opus"@ || ext
                == "wav"@ || ext == "m4a"@ || ext == "aac"@ || ext == "wma"@;
            &&& size > 50 * 1024 * 1024 ==> (r matches Err(e) && e is FileTooLarge)
            &&& size <= 50 * 1024 * 1024 && audio ==> (r matches Ok(e) && e@ == ext)
            &&& size <= 50 * 1024 * 1024 && !audio ==> (r matches Err(e) && e is InvalidFileType)
        }),
{
}

/// What a finished lookup printed is its first line; nothing printed is nothing
/// found, and a failed one is told by its complaint.
pub proof fn law_a_lookup_gives_its_first_line(
    success: bool,
    stdout: Vec<u8>,
    stderr: Vec<u8>,
    r: Result<String, YoutubeError>,
)
    requires
        call_ensures(fetched_line, (success, &stdout, &stderr), r),
    ensures
        ({
            let line = crate::text::first_line_of(crate::text::lossy_text(stdout@));
            &&& success && line.len() > 0 ==> (r matches Ok(text) && text@ == line)
            &&& success && line.len() == 0 ==> (r matches Err(e) && e is NotFound)
            &&& !success ==> r is Err
            &&& !success ==> (r->Err_0 is AgeRestricted || r->Err_0 is Unavailable
                || r->Err_0 is Network)
        }),
{
}

/// Every reason not to play a track is told in its own words.
pub proof fn law_track_failures_are_told(error: YoutubeError, text: String)
    requires
        call_ensures(YoutubeError::message, (&error,), text),
    ensures
        error is UnsupportedUrl ==> text@ == "Only YouTube and SoundCloud URLs are supported."@,
        error is NotFound ==> text@ == "Couldn't find a track at that URL."@,
        error is AgeRestricted ==> text@
            == "This video is age-restricted — the bot needs YouTube login cookies to play it (admin: set YOUTUBE_COOKIES)."@,
        error is Unavailable ==> text@ == "This track is unavailable."@,
        error matches YoutubeError::TooLong(minutes) ==> text@ == "Track too long (max "@
            + crate::text::decimal(minutes as nat) + " min). Use Spotify for long content."@,
        error is LiveStream ==> text@ == "Live streams aren't supported."@,
        error is InvalidFileType ==> text@
            == "Unsupported file type. Accepted: mp3, flac, ogg, wav, m4a, aac, opus, wma"@,
        error is FileTooLarge ==> text@ == "File too large (max 50MB)."@,
        error matches YoutubeError::Network(detail) ==> text@ == "Network error: "@ + detail@,
        error matches YoutubeError::Parse(detail) ==> text@ == "Parse error: "@ + detail@,
{
}

/// An answer is its first line, and an upload is taken by size first, up to
/// fifty megabytes, and then by extension.
pub proof fn law_answers_and_uploads_are_taken(
    stdout: &str,
    line: Result<String, YoutubeError>,
    ext: String,
    size_bytes: u64,
    taken: Result<String, YoutubeError>,
)
    requires
        call_ensures(metadata_line, (stdout,), line),
        call_ensures(accept_upload, (ext, size_bytes), taken),
    ensures
        crate::text::first_line_of(stdout@).len() > 0 ==> (line matches Ok(t) && t@
            == crate::text::first_line_of(stdout@)),
        crate::text::first_line_of(stdout@).len() == 0 ==> (line matches Err(e) && e is NotFound),
        size_bytes > 50 * 1024 * 1024 ==> (taken matches Err(e) && e is FileTooLarge),
        size_bytes <= 50 * 1024 * 1024 && (ext@ == "mp3"@ || ext@ == "flac"@ || ext@ == "ogg"@
            || ext@ == "opus"@ || ext@ == "wav"@ || ext@ == "m4a"@ || ext@ == "aac"@ || ext@
            == "wma"@) ==> (taken matches Ok(t) && t@ == ext@),
        size_bytes <= 50 * 1024 * 1024 && !(ext@ == "mp3"@ || ext@ == "flac"@ || ext@ == "ogg"@
            || ext@ == "opus"@ || ext@ == "wav"@ || ext@ == "m4a"@ || ext@ == "aac"@ || ext@
            == "wma"@) ==> (taken matches Err(e) && e is InvalidFileType),
{
}

} // verus!
