//! Links, uploads and the runs of yt-dlp and ffmpeg.

use spotibot::path::Host;
use spotibot::runtime::{Paths, Profile, Settings};
use spotibot::youtube::feeder::{
    decode_args, download_args, download_template, feed_step, find_downloaded, frames_after,
    pacing_sleep, upload_path, FeedStep, FeederError,
};
use spotibot::youtube::metadata::{
    accept_upload, accept_url, classify_ytdlp_stderr, fetched_line, max_duration, metadata_args, metadata_line,
    track_metadata, validate_attachment, validate_play_url, RawTrack, UrlParts, YoutubeError,
    MAX_FILE_BYTES,
};
use spotibot::youtube::probe::{probe_args, probe_result, within_limit, ProbeError, ProbeOutcome};
use spotibot::youtube::{cookies_path, extractor_cache_path, is_leftover, tmp_dir};

fn raw() -> RawTrack {
    RawTrack {
        id: "abc".into(),
        title: "A title".into(),
        uploader: Some("Uploader".into()),
        channel: None,
        thumbnail: None,
        duration: Some(120),
        webpage_url: None,
        is_live: None,
    }
}

#[test]
fn only_https_links_to_known_hosts_are_played() {
    for (input, expected) in [
        ("https://www.youtube.com/watch?v=x", "https://www.youtube.com/watch?v=x"),
        (" youtube.com/watch?v=x ", "https://youtube.com/watch?v=x"),
        ("https://youtu.be/x", "https://youtu.be/x"),
        ("https://M.SoundCloud.com/a/b", "https://m.soundcloud.com/a/b"),
    ] {
        assert_eq!(validate_play_url(input).unwrap(), expected);
    }
    for input in [
        "http://youtube.com/watch?v=x",
        "https://notyoutube.com/",
        "https://youtube.com.example.test/",
        "https://example.test/?u=youtube.com",
        "file:///etc/hosts",
        "--exec",
        "",
    ] {
        assert_eq!(validate_play_url(input).unwrap_err(), YoutubeError::UnsupportedUrl);
    }
}

#[test]
fn a_url_without_a_host_is_refused() {
    let parts = UrlParts { scheme: "https".into(), host: None, text: "https:x".into() };
    assert_eq!(accept_url(Some(parts)).unwrap_err(), YoutubeError::UnsupportedUrl);
    assert_eq!(accept_url(None).unwrap_err(), YoutubeError::UnsupportedUrl);
}

#[test]
fn uploads_are_judged_by_size_then_type() {
    assert_eq!(validate_attachment("Song.MP3", 1).unwrap(), "mp3");
    assert_eq!(validate_attachment("a.b.flac", MAX_FILE_BYTES).unwrap(), "flac");
    assert_eq!(
        validate_attachment("song.exe", MAX_FILE_BYTES + 1).unwrap_err(),
        YoutubeError::FileTooLarge
    );
    assert_eq!(validate_attachment("song.exe", 1).unwrap_err(), YoutubeError::InvalidFileType);
    assert_eq!(validate_attachment("mp3", 1).unwrap(), "mp3");
    assert_eq!(accept_upload("MP3".into(), 1).unwrap_err(), YoutubeError::InvalidFileType);
}

#[test]
fn complaints_are_classified_without_their_text() {
    assert_eq!(
        classify_ytdlp_stderr("ERROR: Sign in to CONFIRM YOUR AGE"),
        YoutubeError::AgeRestricted
    );
    assert_eq!(classify_ytdlp_stderr("ERROR: Video Unavailable"), YoutubeError::Unavailable);
    assert_eq!(classify_ytdlp_stderr("ERROR: Private video"), YoutubeError::Unavailable);
    let other = classify_ytdlp_stderr("ERROR: /home/secret broke");
    assert!(!other.message().contains("secret"));
    assert!(matches!(other, YoutubeError::Network(_)));
}

#[test]
fn every_refusal_has_its_words() {
    assert_eq!(
        YoutubeError::TooLong(10).message(),
        "Track too long (max 10 min). Use Spotify for long content."
    );
    assert_eq!(YoutubeError::FileTooLarge.message(), "File too large (max 50MB).");
    assert_eq!(YoutubeError::NotFound.message(), "Couldn't find a track at that URL.");
    assert_eq!(YoutubeError::Unavailable.message(), "This track is unavailable.");
    assert_eq!(YoutubeError::LiveStream.message(), "Live streams aren't supported.");
    assert_eq!(YoutubeError::Network("x".into()).message(), "Network error: x");
    assert_eq!(YoutubeError::Parse("x".into()).message(), "Parse error: x");
    assert!(YoutubeError::UnsupportedUrl.message().contains("YouTube and SoundCloud"));
    assert!(YoutubeError::AgeRestricted.message().contains("age-restricted"));
    assert!(YoutubeError::InvalidFileType.message().contains("mp3, flac"));
}

#[test]
fn only_finite_short_enough_tracks_become_metadata() {
    let found = track_metadata(raw(), 120).unwrap();
    assert_eq!(found.channel, "Uploader");
    assert_eq!(found.webpage_url, "https://www.youtube.com/watch?v=abc");
    assert_eq!(found.duration_secs, 120);
    assert_eq!(track_metadata(raw(), 119).unwrap_err(), YoutubeError::TooLong(1));
    let mut live = raw();
    live.is_live = Some(true);
    assert_eq!(track_metadata(live, 120).unwrap_err(), YoutubeError::LiveStream);
    let mut endless = raw();
    endless.duration = None;
    assert_eq!(track_metadata(endless, 120).unwrap_err(), YoutubeError::LiveStream);
    let mut nameless = raw();
    nameless.uploader = None;
    assert_eq!(track_metadata(nameless, 120).unwrap().channel, "Unknown channel");
}

#[test]
fn the_configured_limit_wins_where_it_is_a_number() {
    assert_eq!(max_duration(Some("42")), 42);
    assert_eq!(max_duration(Some("forty")), max_duration(None));
}

#[test]
fn the_first_line_holds_the_track() {
    assert_eq!(metadata_line("{}\r\nrest").unwrap(), "{}");
    assert_eq!(metadata_line("\n{}").unwrap_err(), YoutubeError::NotFound);
    assert_eq!(metadata_line("").unwrap_err(), YoutubeError::NotFound);
}

#[test]
fn a_lookup_gives_its_first_line_or_its_complaint() {
    let fetched = |success, stdout: &[u8], stderr: &[u8]| {
        fetched_line(success, &stdout.to_vec(), &stderr.to_vec())
    };
    assert_eq!(fetched(true, b"{}\nmore", b"noise").unwrap(), "{}");
    assert_eq!(fetched(true, b"", b"").unwrap_err(), YoutubeError::NotFound);
    assert_eq!(fetched(false, b"{}", b"Removed").unwrap_err(), YoutubeError::Unavailable);
}

#[test]
fn a_link_can_never_be_an_option() {
    let args = metadata_args("--exec", Some("/c.txt"));
    assert_eq!(args[args.len() - 4..], ["--cookies", "/c.txt", "--", "--exec"]);
    let args = probe_args("-x", "/cache", None);
    assert_eq!(args[args.len() - 4..], ["--cache-dir", "/cache", "--", "-x"]);
    let args = download_args("/t/yt-1.%(ext)s", "https://youtu.be/x");
    assert_eq!(args[args.len() - 3..], ["-o", "/t/yt-1.%(ext)s", "https://youtu.be/x"]);
    assert_eq!(decode_args("/in")[..2], ["-i", "/in"]);
}

#[test]
fn a_lookup_reports_how_it_ended() {
    assert_eq!(probe_result(ProbeOutcome::NoPermit).unwrap_err(), ProbeError::Busy);
    assert_eq!(probe_result(ProbeOutcome::TimedOut).unwrap_err(), ProbeError::Timeout);
    assert_eq!(probe_result(ProbeOutcome::OverLimit).unwrap_err(), ProbeError::ResponseTooLarge);
    assert!(matches!(
        probe_result(ProbeOutcome::Broken).unwrap_err(),
        ProbeError::Track(YoutubeError::Network(_))
    ));
    let ended = |success, stdout: &[u8], stderr: &[u8]| {
        probe_result(ProbeOutcome::Exited {
            success,
            stdout: stdout.to_vec(),
            stderr: stderr.to_vec(),
        })
    };
    assert_eq!(ended(true, b"{}", b"").unwrap(), "{}");
    assert!(matches!(
        ended(true, &[0xff], b"").unwrap_err(),
        ProbeError::Track(YoutubeError::Parse(_))
    ));
    assert_eq!(
        ended(false, b"", b"\xffUNAVAILABLE").unwrap_err(),
        ProbeError::Track(YoutubeError::Unavailable)
    );
}

#[test]
fn output_is_kept_up_to_its_limit() {
    assert_eq!(within_limit(b"track".to_vec(), 5).unwrap(), b"track");
    assert!(within_limit(b"track".to_vec(), 4).is_none());
}

#[test]
fn downloads_are_found_by_their_own_name() {
    assert_eq!(download_template("/t", "7"), "/t/yt-7.%(ext)s");
    assert_eq!(upload_path("/t", "7", "mp3"), "/t/file-7.mp3");
    let names = vec!["yt-6.webm".to_string(), "yt-7.webm".to_string()];
    assert_eq!(find_downloaded(&names, "7").unwrap(), 1);
    assert_eq!(
        find_downloaded(&names, "8").unwrap_err().message(),
        "download failed: downloaded file not found"
    );
}

#[test]
fn feeding_is_paced_and_stoppable() {
    assert_eq!(feed_step(true, true), FeedStep::Cancel);
    assert_eq!(feed_step(false, true), FeedStep::Wait);
    assert_eq!(feed_step(false, false), FeedStep::Read);
    assert_eq!(frames_after(10, 17), 12);
    assert_eq!(frames_after(u64::MAX, 8), u64::MAX);
    assert_eq!(pacing_sleep(5_000_000, 0), Some(4_000_000));
    assert_eq!(pacing_sleep(2_000_000, 0), None);
    assert_eq!(pacing_sleep(0, 5), None);
    assert_eq!(FeederError::Cancelled.message(), "cancelled");
    assert_eq!(FeederError::ConvertFailed("x".into()).message(), "convert failed: x");
    assert_eq!(FeederError::Io("x".into()).message(), "io: x");
}

#[test]
fn youtube_files_lie_where_the_paths_say() {
    let settings = Settings::merge(Profile::Nob, Vec::new(), Vec::new());
    let paths = Paths::resolve(&settings, Host::Unix, "/srv").unwrap();
    assert_eq!(tmp_dir(&paths), "/srv/.nob/youtube-tmp");
    assert_eq!(cookies_path(&paths), "/srv/.nob/youtube-cookies.txt");
    assert!(extractor_cache_path(&paths).starts_with("/srv/.nob/youtube-tmp"));
    assert!(is_leftover("yt-1.webm"));
    assert!(!is_leftover("notes.txt"));
}
