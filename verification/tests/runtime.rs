//! Command line, settings and paths.

use spotibot::path::{join, Host};
use spotibot::runtime::{
    dir_lock, file_lock, lock_files, BlankSetting, Options, OptionsError, Paths, Profile,
    Settings,
};

const CWD: &str = "/srv/bots";

fn settings(profile: Profile, pairs: &[(&str, &str)]) -> Settings {
    Settings::merge(profile, owned(pairs), Vec::new())
}

fn owned(pairs: &[(&str, &str)]) -> Vec<(String, String)> {
    pairs.iter().map(|(k, v)| (k.to_string(), v.to_string())).collect()
}

fn parse(args: &[&str]) -> Result<Options, OptionsError> {
    Options::parse(args.iter().map(|s| s.to_string()).collect())
}

#[test]
fn nob_never_inherits_spotibot_identity_or_paths() {
    let env = owned(&[
        ("DISCORD_TOKEN", "spotibot-test"),
        ("STATE_DIR", "shared"),
        ("DEVICE_ID", "shared"),
        ("NOB_DEVICE_NAME", "My nob"),
    ]);
    let config = Settings::merge(Profile::Nob, Vec::new(), env);
    assert_eq!(config.get("DISCORD_TOKEN"), None);
    assert_eq!(config.get("STATE_DIR"), None);
    assert_eq!(config.get("DEVICE_ID"), None);
    assert_eq!(config.get("DEVICE_NAME"), Some("My nob"));
}

#[test]
fn scoped_environment_wins_over_the_selected_file() {
    let config = Settings::merge(
        Profile::Nob,
        owned(&[("DEVICE_NAME", "file")]),
        owned(&[("NOB_DEVICE_NAME", "override")]),
    );
    assert_eq!(config.get("DEVICE_NAME"), Some("override"));
    let config = Settings::merge(
        Profile::Spotibot,
        owned(&[("DEVICE_NAME", "file")]),
        owned(&[("DEVICE_NAME", "legacy")]),
    );
    assert_eq!(config.get("DEVICE_NAME"), Some("legacy"));
}

#[test]
fn hosts_have_disjoint_default_writable_paths() {
    let spot = Paths::resolve(&settings(Profile::Spotibot, &[]), Host::Unix, CWD).unwrap();
    let nob = Paths::resolve(&settings(Profile::Nob, &[]), Host::Unix, CWD).unwrap();
    assert_eq!(spot.database, join(Host::Unix, CWD, "./spotibot.db"));
    for path in [
        &nob.database,
        &nob.spotify_cache,
        &nob.youtube_tmp,
        &nob.dj_cache,
        &nob.youtube_cookies,
    ] {
        assert!(path.starts_with(&format!("{}/", join(Host::Unix, CWD, ".nob"))));
    }
    assert_ne!(spot.database, nob.database);
    assert_ne!(spot.spotify_cache, nob.spotify_cache);
    assert_ne!(spot.youtube_tmp, nob.youtube_tmp);
    assert_ne!(spot.dj_cache, nob.dj_cache);
}

#[test]
fn explicit_state_contains_relative_paths_and_retains_absolute_overrides() {
    let paths = Paths::resolve(
        &settings(
            Profile::Spotibot,
            &[("STATE_DIR", "instance"), ("DATABASE_PATH", "custom.db")],
        ),
        Host::Unix,
        CWD,
    )
    .unwrap();
    assert_eq!(paths.database, join(Host::Unix, CWD, "instance/custom.db"));
    assert_eq!(paths.youtube_tmp, join(Host::Unix, CWD, "instance/youtube-tmp"));
    let absolute = join(Host::Unix, CWD, "external-cache");
    let paths =
        Paths::resolve(&settings(Profile::Nob, &[("DJ_CACHE_DIR", &absolute)]), Host::Unix, CWD).unwrap();
    assert_eq!(paths.dj_cache, absolute);
    assert!(Paths::resolve(&settings(Profile::Nob, &[("STATE_DIR", " ")]), Host::Unix, CWD).is_err());
}

#[test]
fn cli_rejects_ambiguous_or_unsafe_setup_combinations() {
    assert!(parse(&["--env-file"]).is_err());
    assert!(parse(&["--env-file", "--check-config"]).is_err());
    assert!(parse(&["--setup", "--check-config"]).is_err());
    assert!(parse(&["--setup", "--env-file", "custom.env"]).is_err());
    assert!(parse(&["--unknown"]).is_err());
    assert!(parse(&["--env-file", "config.env", "--check-config"]).unwrap().check);
}

#[test]
fn each_command_line_error_has_its_reason() {
    assert_eq!(parse(&["--env-file"]).unwrap_err(), OptionsError::EnvFileNeedsPath);
    assert_eq!(parse(&["--env-file"]).unwrap_err().message(), "--env-file needs a path");
    assert_eq!(parse(&["--env-file", "a", "--env-file", "b"]).unwrap_err(), OptionsError::UnknownOrRepeated);
    assert_eq!(
        parse(&["--unknown"]).unwrap_err().message(),
        "unknown or repeated argument; use --help"
    );
    assert_eq!(
        parse(&["--setup", "--check-config"]).unwrap_err().message(),
        "--setup cannot be combined with --env-file or --check-config"
    );
    let options = parse(&["--env-file", "a.env"]).unwrap();
    assert_eq!(options.env_file.as_deref(), Some("a.env"));
    assert!(!options.setup && !options.help && !options.check);
    assert!(parse(&["--help"]).unwrap().help);
}

#[test]
fn profiles_have_their_own_names_and_files() {
    assert_eq!(Profile::Spotibot.name(), "Spotibot");
    assert_eq!(Profile::Nob.name(), "nob");
    assert_eq!(Profile::Spotibot.env_file(), ".env");
    assert_eq!(Profile::Nob.env_file(), ".env.nob");
}

#[test]
fn a_blank_path_names_its_setting() {
    let blank = Paths::resolve(&settings(Profile::Nob, &[("DATABASE_PATH", "")]), Host::Unix, CWD).unwrap_err();
    assert_eq!(blank, BlankSetting { key: "DATABASE_PATH".into() });
    assert_eq!(blank.message(), "DATABASE_PATH cannot be blank");
}

#[test]
fn the_older_database_setting_is_relative_to_the_process() {
    let paths = Paths::resolve(&settings(Profile::Spotibot, &[("SPOTIBOT_DB", "old.db")]), Host::Unix, CWD);
    assert_eq!(paths.unwrap().database, join(Host::Unix, CWD, "old.db"));
}

#[test]
fn windows_keeps_absolute_overrides_and_asks_for_no_socket() {
    let resolve = |pairs: &[(&str, &str)]| {
        Paths::resolve(&settings(Profile::Spotibot, pairs), Host::Windows, "C:\\bots")
    };
    let paths = resolve(&[("STATE_DIR", "D:\\data"), ("KOKORO_SOCKET", "")]).unwrap();
    assert_eq!(paths.database, "D:\\data\\spotibot.db");
    assert_eq!(paths.kokoro_socket, None);
    let paths = resolve(&[]).unwrap();
    assert_eq!(paths.youtube_tmp, "C:/tmp/spotibot-youtube");
    assert_eq!(paths.spotify_cache, "C:\\bots\\.\\.spotify_cache");
    let blank = settings(Profile::Nob, &[("KOKORO_SOCKET", " ")]);
    assert_eq!(Paths::resolve(&blank, Host::Unix, CWD).unwrap_err().key, "KOKORO_SOCKET");
    let set = settings(Profile::Nob, &[]);
    let paths = Paths::resolve(&set, Host::Unix, "/srv").unwrap();
    assert_eq!(paths.kokoro_socket.as_deref(), Some("/srv/.nob/kokoro.sock"));
}

#[test]
fn a_shared_lock_is_taken_once() {
    let wanted = vec![dir_lock(Host::Unix, "/x"), file_lock("/x/db"), dir_lock(Host::Unix, "/x")];
    assert_eq!(lock_files(&wanted), vec!["/x/.bot.lock".to_string(), "/x/db.bot.lock".to_string()]);
}
