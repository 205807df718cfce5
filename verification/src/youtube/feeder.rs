//! Downloading a track and feeding its samples at the speed they play.

use vstd::prelude::*;

use crate::text::{add_text, cat, cat3, has_prefix};

verus! {

/// Samples per second of one channel.
pub const SAMPLE_RATE: u64 = 44_100;

pub const CHANNELS: u64 = 2;

/// Most that is read from the decoder at once, in bytes.
pub const READ_CHUNK_BYTES: usize = 8192;

/// Why a feed ended early. An `Io` error is carried as its text.
#[derive(Debug, PartialEq, Eq)]
pub enum FeederError {
    Cancelled,
    DownloadFailed(String),
    ConvertFailed(String),
    Io(String),
}

impl FeederError {
    pub fn message(&self) -> (r: String)
        ensures
            r@ == (match *self {
                FeederError::Cancelled => "cancelled"@,
                FeederError::DownloadFailed(s) => "download failed: "@ + s@,
                FeederError::ConvertFailed(s) => "convert failed: "@ + s@,
                FeederError::Io(s) => "io: "@ + s@,
            }),
    {
        match self {
            FeederError::Cancelled => "cancelled".to_owned(),
            FeederError::DownloadFailed(s) => cat("download failed: ", s.as_str()),
            FeederError::ConvertFailed(s) => cat("convert failed: ", s.as_str()),
            FeederError::Io(s) => cat("io: ", s.as_str()),
        }
    }
}

/// Where yt-dlp writes the download named `id`; it fills the extension in.
pub fn download_template(dir: &str, id: &str) -> (r: String)
    ensures
        r@ == dir@ + "/yt-"@ + id@ + ".%(ext)s"@,
{
    cat(cat3(dir, "/yt-", id).as_str(), ".%(ext)s")
}

/// The arguments of a download.
pub fn download_args(template: &str, url: &str) -> (r: Vec<String>)
    ensures
        crate::text::texts(r@) == seq![
            "-f"@,
            "bestaudio"@,
            "--no-playlist"@,
            "--no-part"@,
            "-o"@,
            template@,
            url@,
        ],
{
    let mut args: Vec<String> = Vec::new();
    assert(crate::text::texts(args@) =~= Seq::empty());
    add_text(&mut args, "-f");
    add_text(&mut args, "bestaudio");
    add_text(&mut args, "--no-playlist");
    add_text(&mut args, "--no-part");
    add_text(&mut args, "-o");
    add_text(&mut args, template);
    add_text(&mut args, url);
    args
}

/// Where the upload named `id` is written.
pub fn upload_path(dir: &str, id: &str, ext: &str) -> (r: String)
    ensures
        r@ == dir@ + "/file-"@ + id@ + "."@ + ext@,
{
    let stem = cat3(dir, "/file-", id);
    cat3(stem.as_str(), ".", ext)
}

/// `r` is the first file of a listing that belongs to the download named `id`.
pub open spec fn first_downloaded(
    names: Seq<String>,
    id: Seq<char>,
    r: Result<usize, FeederError>,
) -> bool {
    match r {
        Ok(k) => {
            &&& k < names.len()
            &&& crate::text::starts_with(names[k as int]@, "yt-"@ + id)
            &&& forall|j: int|
                0 <= j < k ==> !crate::text::starts_with((#[trigger] names[j])@, "yt-"@ + id)
        },
        Err(e) => {
            &&& (e matches FeederError::DownloadFailed(t) && t@ == "downloaded file not found"@)
            &&& forall|j: int|
                0 <= j < names.len() ==> !crate::text::starts_with(
                    (#[trigger] names[j])@,
                    "yt-"@ + id,
                )
        },
    }
}

/// The first file of a directory listing that belongs to the download named
/// `id`.
pub fn find_downloaded(names: &Vec<String>, id: &str) -> (r: Result<usize, FeederError>)
    ensures
        first_downloaded(names@, id@, r),
{
    let prefix = cat("yt-", id);
    let mut k: usize = 0;
    while k < names.len()
        invariant
            k <= names@.len(),
            prefix@ == "yt-"@ + id@,
            forall|j: int|
                0 <= j < k ==> !crate::text::starts_with((#[trigger] names@[j])@, "yt-"@ + id@),
        decreases names@.len() - k,
    {
        if has_prefix(names[k].as_str(), prefix.as_str()) {
            return Ok(k);
        }
        k += 1;
    }
    Err(FeederError::DownloadFailed("downloaded file not found".to_owned()))
}

/// The arguments that decode a file to interleaved samples on standard
/// output.
pub fn decode_args(input: &str) -> (r: Vec<String>)
    ensures
        crate::text::texts(r@) == seq![
            "-i"@,
            input@,
            "-f"@,
            "f32le"@,
            "-ar"@,
            "44100"@,
            "-ac"@,
            "2"@,
            "pipe:1"@,
        ],
{
    let mut args: Vec<String> = Vec::new();
    assert(crate::text::texts(args@) =~= Seq::empty());
    add_text(&mut args, "-i");
    add_text(&mut args, input);
    add_text(&mut args, "-f");
    add_text(&mut args, "f32le");
    add_text(&mut args, "-ar");
    add_text(&mut args, "44100");
    add_text(&mut args, "-ac");
    add_text(&mut args, "2");
    add_text(&mut args, "pipe:1");
    args
}

/// What the feeder does next, between reads.
#[derive(Clone, Copy, Debug, PartialEq, Eq, Structural)]
pub enum FeedStep {
    /// Kill the decoder and report the cancellation.
    Cancel,
    /// Look again in 50 ms.
    Wait,
    Read,
}

/// Cancellation outranks a pause, and a pause holds the next read back.
pub fn feed_step(cancelled: bool, paused: bool) -> (r: FeedStep)
    ensures
        r == (if cancelled {
            FeedStep::Cancel
        } else if paused {
            FeedStep::Wait
        } else {
            FeedStep::Read
        }),
{
    if cancelled {
        FeedStep::Cancel
    } else if paused {
        FeedStep::Wait
    } else {
        FeedStep::Read
    }
}

/// Frames sent after a read of `bytes`: four bytes a sample, one sample per
/// channel, a rest that fills no frame dropped.
pub fn frames_after(sent: u64, bytes: usize) -> (r: u64)
    ensures
        r == (if sent + bytes / 4 / 2 <= u64::MAX {
            (sent + bytes / 4 / 2) as u64
        } else {
            u64::MAX
        }),
{
    let frames: u64 = (bytes / 4) as u64 / CHANNELS;
    if sent > u64::MAX - frames {
        u64::MAX
    } else {
        sent + frames
    }
}

/// How long to sleep before the next chunk is due, in nanoseconds: up to a
/// millisecond short of `due`, and not at all for less than two.
pub fn pacing_sleep(due: u64, now: u64) -> (r: Option<u64>)
    ensures
        r == (if due > now && due - now > 2_000_000 {
            Some((due - now - 1_000_000) as u64)
        } else {
            None
        }),
{
    if due > now && due - now > 2_000_000 {
        Some(due - now - 1_000_000)
    } else {
        None
    }
}

/// A download and an upload are written into the directory, under their own
/// names: the file a download leaves there is the one that is found again, and
/// both are known as leftovers after a crash.
pub proof fn law_files_are_found_again(
    dir: &str,
    id: &str,
    ext: &str,
    template: String,
    upload: String,
    names: Vec<String>,
    k: int,
    found: Result<usize, FeederError>,
)
    requires
        call_ensures(download_template, (dir, id), template),
        call_ensures(upload_path, (dir, id, ext), upload),
        first_downloaded(names@, id@, found),
    ensures
        template@ == dir@ + "/"@ + ("yt-"@ + id@ + ".%(ext)s"@),
        upload@ == dir@ + "/"@ + ("file-"@ + id@ + "."@ + ext@),
        0 <= k < names@.len() && names@[k]@ == "yt-"@ + id@ + "."@ + ext@ ==> (found matches Ok(i)
            && i <= k),
        found matches Ok(i) ==> i < names@.len() && crate::text::starts_with(
            names@[i as int]@,
            "yt-"@ + id@,
        ),
        found matches Err(e) ==> (e matches FeederError::DownloadFailed(text) && text@
            == "downloaded file not found"@),
{
    reveal_strlit("/");
    reveal_strlit("yt-");
    reveal_strlit("/yt-");
    reveal_strlit("file-");
    reveal_strlit("/file-");
    assert("/"@ + "yt-"@ =~= "/yt-"@);
    assert("/"@ + "file-"@ =~= "/file-"@);
    assert(template@ =~= dir@ + "/"@ + ("yt-"@ + id@ + ".%(ext)s"@));
    assert(upload@ =~= dir@ + "/"@ + ("file-"@ + id@ + "."@ + ext@));
    if 0 <= k < names@.len() && names@[k]@ == "yt-"@ + id@ + "."@ + ext@ {
        assert(names@[k]@ =~= ("yt-"@ + id@) + ("."@ + ext@));
        crate::text::law_parts_are_found("yt-"@ + id@, "."@ + ext@, "."@);
        assert(crate::text::starts_with(names@[k]@, "yt-"@ + id@));
    }
}

/// A download asks for the best sound of one track, written to where the
/// template says; decoding asks for stereo samples at the rate they are fed.
pub proof fn law_downloads_and_decoding_are_asked_for(
    template: &str,
    url: &str,
    input: &str,
    download: Vec<String>,
    decode: Vec<String>,
)
    requires
        call_ensures(download_args, (template, url), download),
        call_ensures(decode_args, (input,), decode),
    ensures
        ({
            let a = crate::text::texts(download@);
            let b = crate::text::texts(decode@);
            &&& a.len() == 7 && a.last() == url@
            &&& a[0] == "-f"@ && a[1] == "bestaudio"@
            &&& a[2] == "--no-playlist"@ && a[3] == "--no-part"@
            &&& a[4] == "-o"@ && a[5] == template@
            &&& b.len() == 9
            &&& b[0] == "-i"@ && b[1] == input@
            &&& b[2] == "-f"@ && b[3] == "f32le"@
            &&& b[4] == "-ar"@ && b[5] == "44100"@
            &&& b[6] == "-ac"@ && b[7] == "2"@
            &&& b[8] == "pipe:1"@
        }),
{
}

/// A cancelled feed ends whether it is paused or not; a paused one reads
/// nothing; any other reads on.
pub proof fn law_a_feed_reads_unless_held(cancelled: bool, paused: bool, r: FeedStep)
    requires
        call_ensures(feed_step, (cancelled, paused), r),
    ensures
        r is Cancel <==> cancelled,
        r is Wait <==> paused && !cancelled,
        r is Read <==> !paused && !cancelled,
{
}

/// Eight bytes are one frame; what fills none is dropped.
pub proof fn law_eight_bytes_are_a_frame(sent: u64, frames: u64, rest: u64, bytes: usize, r: u64)
    requires
        rest < 8,
        bytes == 8 * frames + rest,
        call_ensures(frames_after, (sent, bytes), r),
    ensures
        sent + frames <= u64::MAX ==> r == sent + frames,
        sent + frames > u64::MAX ==> r == u64::MAX,
{
    assert(bytes / 4 / 2 == frames) by (nonlinear_arith)
        requires
            bytes == 8 * frames + rest,
            rest < 8,
    ;
}

/// A chunk is never late for sleep: what is slept ends a millisecond before it
/// is due, and less than two milliseconds are not slept at all.
pub proof fn law_pacing_wakes_in_time(due: u64, now: u64, r: Option<u64>)
    requires
        call_ensures(pacing_sleep, (due, now), r),
    ensures
        r matches Some(nanos) ==> now + nanos + 1_000_000 == due && nanos > 1_000_000,
        r is None <==> due <= now + 2_000_000,
{
}

/// Every way a feed can fail is told in its own words.
pub proof fn law_feed_failures_are_told(error: FeederError, text: String)
    requires
        call_ensures(FeederError::message, (&error,), text),
    ensures
        error is Cancelled ==> text@ == "cancelled"@,
        error matches FeederError::DownloadFailed(s) ==> text@ == "download failed: "@ + s@,
        error matches FeederError::ConvertFailed(s) ==> text@ == "convert failed: "@ + s@,
        error matches FeederError::Io(s) ==> text@ == "io: "@ + s@,
{
}

/// A download is found again as told above.
pub proof fn law_calls_for_a_download(
    names: Vec<String>,
    id: &str,
    r: Result<usize, FeederError>,
)
    requires
        call_ensures(find_downloaded, (&names, id), r),
    ensures
        first_downloaded(names@, id@, r),
{
}

} // verus!
