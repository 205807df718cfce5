//! Bounded metadata-only yt-dlp execution shared by links and text search.

use vstd::prelude::*;

use crate::text::{add_text, utf8_lossy, utf8_text};
use crate::youtube::metadata::{classify_ytdlp_stderr, YoutubeError};

verus! {

/// How long one lookup may take, in nanoseconds.
pub const PROBE_TIMEOUT: u64 = 30_000_000_000;

/// Most that is read of yt-dlp's output, in bytes.
pub const STDOUT_LIMIT: usize = 2_097_152;

/// Most that is read of yt-dlp's error stream, in bytes.
pub const STDERR_LIMIT: usize = 65_536;

/// Lookups that may run at once.
pub const PROBE_PERMITS: usize = 3;

/// Why a lookup gave nothing.
#[derive(Debug, PartialEq, Eq)]
pub enum ProbeError {
    Busy,
    Timeout,
    ResponseTooLarge,
    Track(YoutubeError),
}

/// How a lookup ended.
#[derive(Debug)]
pub enum ProbeOutcome {
    /// Too many lookups are running.
    NoPermit,
    TimedOut,
    /// An output stream went over its limit.
    OverLimit,
    /// The process could not be run or read.
    Broken,
    Exited { success: bool, stdout: Vec<u8>, stderr: Vec<u8> },
}

/// What was read of a stream, unless it went over `limit`.
pub fn within_limit(bytes: Vec<u8>, limit: usize) -> (r: Option<Vec<u8>>)
    ensures
        r == (if bytes@.len() > limit {
            None
        } else {
            Some(bytes)
        }),
{
    if bytes.len() > limit {
        None
    } else {
        Some(bytes)
    }
}

/// The arguments of a lookup; `input` is a validated media URL or a locally
/// constructed search.
pub fn probe_args(input: &str, cache_dir: &str, cookies: Option<&str>) -> (r: Vec<String>)
    ensures
        crate::text::texts(r@) == seq![
            "--ignore-config"@,
            "--no-warnings"@,
            "--dump-json"@,
            "--no-playlist"@,
            "--flat-playlist"@,
            "--socket-timeout"@,
            "10"@,
            "--retries"@,
            "1"@,
            "--extractor-retries"@,
            "1"@,
            "--remote-components"@,
            "ejs:github"@,
            "--cache-dir"@,
            cache_dir@,
        ] + (match cookies {
            Some(path) => seq!["--cookies"@, path@],
            None => Seq::empty(),
        }) + seq!["--"@, input@],
{
    let mut args: Vec<String> = Vec::new();
    assert(crate::text::texts(args@) =~= Seq::empty());
    add_text(&mut args, "--ignore-config");
    add_text(&mut args, "--no-warnings");
    add_text(&mut args, "--dump-json");
    add_text(&mut args, "--no-playlist");
    add_text(&mut args, "--flat-playlist");
    add_text(&mut args, "--socket-timeout");
    add_text(&mut args, "10");
    add_text(&mut args, "--retries");
    add_text(&mut args, "1");
    add_text(&mut args, "--extractor-retries");
    add_text(&mut args, "1");
    add_text(&mut args, "--remote-components");
    add_text(&mut args, "ejs:github");
    add_text(&mut args, "--cache-dir");
    add_text(&mut args, cache_dir);
    if let Some(path) = cookies {
        add_text(&mut args, "--cookies");
        add_text(&mut args, path);
    }
    add_text(&mut args, "--");
    add_text(&mut args, input);
    args
}

/// The error a failed run stands for.
pub open spec fn failed_run(e: ProbeError, stderr: Seq<u8>) -> bool {
    let low = crate::text::lowered(crate::text::lossy_text(stderr));
    e matches ProbeError::Track(e) && {
        &&& e is AgeRestricted <==> crate::youtube::metadata::says_age(low)
        &&& e is Unavailable <==> !crate::youtube::metadata::says_age(low)
            && crate::youtube::metadata::says_unavailable(low)
        &&& e is AgeRestricted || e is Unavailable || (e matches YoutubeError::Network(t) && t@
            == "couldn't fetch that link — check the URL and try again"@)
    }
}

/// What a finished lookup amounts to: yt-dlp's output as text, or why there
/// is none.
pub fn probe_result(outcome: ProbeOutcome) -> (r: Result<String, ProbeError>)
    ensures
        match outcome {
            ProbeOutcome::NoPermit => r == Err::<String, _>(ProbeError::Busy),
            ProbeOutcome::TimedOut => r == Err::<String, _>(ProbeError::Timeout),
            ProbeOutcome::OverLimit => r == Err::<String, _>(ProbeError::ResponseTooLarge),
            ProbeOutcome::Broken => r matches Err(ProbeError::Track(YoutubeError::Network(t)))
                && t@ == "couldn't look up that track — try again"@,
            ProbeOutcome::Exited { success, stdout, stderr } => if !success {
                r matches Err(e) && failed_run(e, stderr@)
            } else if vstd::utf8::valid_utf8(stdout@) {
                r matches Ok(text) && text@ == vstd::utf8::decode_utf8(stdout@)
            } else {
                r matches Err(ProbeError::Track(YoutubeError::Parse(t))) && t@
                    == "invalid metadata response"@
            },
        },
{
    match outcome {
        ProbeOutcome::NoPermit => Err(ProbeError::Busy),
        ProbeOutcome::TimedOut => Err(ProbeError::Timeout),
        ProbeOutcome::OverLimit => Err(ProbeError::ResponseTooLarge),
        ProbeOutcome::Broken => Err(
            ProbeError::Track(
                YoutubeError::Network("couldn't look up that track — try again".to_owned()),
            ),
        ),
        ProbeOutcome::Exited { success, stdout, stderr } => {
            if !success {
                return Err(ProbeError::Track(classify_ytdlp_stderr(utf8_lossy(&stderr).as_str())));
            }
            match utf8_text(stdout) {
                Some(text) => Ok(text),
                None => Err(
                    ProbeError::Track(YoutubeError::Parse("invalid metadata response".to_owned())),
                ),
            }
        },
    }
}

/// A stream within its limit is kept whole; one over it is not kept at all.
pub proof fn law_streams_are_kept_whole_or_not_at_all(
    bytes: Vec<u8>,
    limit: usize,
    r: Option<Vec<u8>>,
)
    requires
        call_ensures(within_limit, (bytes, limit), r),
    ensures
        bytes@.len() <= limit ==> r == Some(bytes),
        bytes@.len() > limit ==> r is None,
{
}

/// A lookup ignores whatever configuration there is, looks at one track, keeps
/// its cache where it is told, uses the cookies it was given, and takes its
/// input last, behind the end of the options.
pub proof fn law_a_probe_is_told_everything(
    input: &str,
    cache_dir: &str,
    cookies: Option<&str>,
    r: Vec<String>,
)
    requires
        call_ensures(probe_args, (input, cache_dir, cookies), r),
    ensures
        ({
            let args = crate::text::texts(r@);
            let n = args.len() as int;
            &&& n == (if cookies is Some {
                19int
            } else {
                17
            })
            &&& args[n - 2] == "--"@ && args[n - 1] == input@
            &&& args[0] == "--ignore-config"@ && args[1] == "--no-warnings"@
            &&& args[2] == "--dump-json"@ && args[3] == "--no-playlist"@ && args[4]
                == "--flat-playlist"@
            &&& args[5] == "--socket-timeout"@ && args[6] == "10"@
            &&& args[7] == "--retries"@ && args[8] == "1"@
            &&& args[9] == "--extractor-retries"@ && args[10] == "1"@
            &&& args[11] == "--remote-components"@ && args[12] == "ejs:github"@
            &&& args[13] == "--cache-dir"@ && args[14] == cache_dir@
            &&& cookies matches Some(path) ==> args[15] == "--cookies"@ && args[16] == path@
        }),
{
}

/// Every way a lookup can end has its own answer, and only one that succeeded
/// and can be read gives text: its own output.
pub proof fn law_every_end_of_a_lookup_is_told_apart(
    outcome: ProbeOutcome,
    r: Result<String, ProbeError>,
)
    requires
        call_ensures(probe_result, (outcome,), r),
    ensures
        outcome is NoPermit <==> (r matches Err(e) && e is Busy),
        outcome is TimedOut <==> (r matches Err(e) && e is Timeout),
        outcome is OverLimit <==> (r matches Err(e) && e is ResponseTooLarge),
        outcome is Broken ==> (r matches Err(ProbeError::Track(YoutubeError::Network(text)))
            && text@ == "couldn't look up that track — try again"@),
        r is Ok <==> (outcome matches ProbeOutcome::Exited { success, stdout, .. } && success
            && vstd::utf8::valid_utf8(stdout@)),
        r matches Ok(text) ==> (outcome matches ProbeOutcome::Exited { stdout, .. } && text@
            == vstd::utf8::decode_utf8(stdout@)),
        outcome matches ProbeOutcome::Exited { success, stdout, .. } ==> (success
            && !vstd::utf8::valid_utf8(stdout@) ==> (r matches Err(
            ProbeError::Track(YoutubeError::Parse(text)),
        ) && text@ == "invalid metadata response"@)),
{
}

/// A lookup that failed is about the viewer's age, else about a track that
/// cannot be had, else about the link, by what yt-dlp complained of.
pub proof fn law_failed_lookups_are_told_apart(
    stdout: Vec<u8>,
    stderr: Vec<u8>,
    r: Result<String, ProbeError>,
)
    requires
        call_ensures(probe_result, (ProbeOutcome::Exited { success: false, stdout, stderr },), r),
    ensures
        ({
            let low = crate::text::lowered(crate::text::lossy_text(stderr@));
            let age = crate::youtube::metadata::says_age(low);
            let gone = crate::youtube::metadata::says_unavailable(low);
            &&& age ==> (r matches Err(ProbeError::Track(e)) && e is AgeRestricted)
            &&& !age && gone ==> (r matches Err(ProbeError::Track(e)) && e is Unavailable)
            &&& !age && !gone ==> (r matches Err(ProbeError::Track(YoutubeError::Network(t)))
                && t@ == "couldn't fetch that link — check the URL and try again"@)
        }),
{
}

} // verus!
