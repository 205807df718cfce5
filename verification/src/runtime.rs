//! Process-level identity, command line, settings and writable paths.
//!
//! Each host resolves its paths once. No helper consults another identity's
//! environment at playback time.

use vstd::prelude::*;

use crate::path::{join, Host};
use crate::text::{cat, distinct_texts, is_blank, same_text, strip_prefix};

verus! {

/// Which of the two bots this process is.
#[derive(Clone, Copy, Debug, PartialEq, Eq, Structural)]
pub enum Profile {
    Spotibot,
    Nob,
}

impl Profile {
    pub fn name(self) -> (r: &'static str)
        ensures
            r@ == (match self {
                Profile::Spotibot => "Spotibot"@,
                Profile::Nob => "nob"@,
            }),
    {
        match self {
            Profile::Spotibot => "Spotibot",
            Profile::Nob => "nob",
        }
    }

    pub fn env_file(self) -> (r: &'static str)
        ensures
            r@ == (match self {
                Profile::Spotibot => ".env"@,
                Profile::Nob => ".env.nob"@,
            }),
    {
        match self {
            Profile::Spotibot => ".env",
            Profile::Nob => ".env.nob",
        }
    }
}

/// What the command line asks for.
#[derive(Debug, PartialEq, Eq)]
pub struct Options {
    pub env_file: Option<String>,
    pub check: bool,
    pub setup: bool,
    pub help: bool,
}

/// What the command line asks for, with the path as characters.
pub struct OptionsModel {
    pub env_file: Option<Seq<char>>,
    pub check: bool,
    pub setup: bool,
    pub help: bool,
}

impl View for Options {
    type V = OptionsModel;

    open spec fn view(&self) -> OptionsModel {
        OptionsModel {
            env_file: crate::text::text_of(self.env_file),
            check: self.check,
            setup: self.setup,
            help: self.help,
        }
    }
}

/// Why a command line is refused.
#[derive(Clone, Copy, Debug, PartialEq, Eq, Structural)]
pub enum OptionsError {
    EnvFileNeedsPath,
    UnknownOrRepeated,
    SetupCombined,
}

impl OptionsError {
    pub fn message(self) -> (r: &'static str)
        ensures
            r@ == (match self {
                OptionsError::EnvFileNeedsPath => "--env-file needs a path"@,
                OptionsError::UnknownOrRepeated => "unknown or repeated argument; use --help"@,
                OptionsError::SetupCombined => "--setup cannot be combined with --env-file or --check-config"@,
            }),
    {
        match self {
            OptionsError::EnvFileNeedsPath => "--env-file needs a path",
            OptionsError::UnknownOrRepeated => "unknown or repeated argument; use --help",
            OptionsError::SetupCombined =>
            "--setup cannot be combined with --env-file or --check-config",
        }
    }
}

/// An argument that can name the env file.
pub open spec fn names_file(arg: Seq<char>) -> bool {
    arg.len() > 0 && arg[0] != '-'
}

impl OptionsModel {
    pub open spec fn none() -> OptionsModel {
        OptionsModel { env_file: None, check: false, setup: false, help: false }
    }

    /// The options after reading `args` on top of these.
    pub open spec fn read(self, args: Seq<String>) -> Result<OptionsModel, OptionsError>
        decreases args.len(),
    {
        if args.len() == 0 {
            Ok(self)
        } else {
            let arg = args[0]@;
            if arg == "--env-file"@ && self.env_file is None {
                if args.len() > 1 && names_file(args[1]@) {
                    (OptionsModel { env_file: Some(args[1]@), ..self }).read(args.skip(2))
                } else {
                    Err(OptionsError::EnvFileNeedsPath)
                }
            } else if arg == "--check-config"@ {
                (OptionsModel { check: true, ..self }).read(args.skip(1))
            } else if arg == "--setup"@ {
                (OptionsModel { setup: true, ..self }).read(args.skip(1))
            } else if arg == "--help"@ || arg == "-h"@ {
                (OptionsModel { help: true, ..self }).read(args.skip(1))
            } else {
                Err(OptionsError::UnknownOrRepeated)
            }
        }
    }

    /// Setup writes the default file: it goes with nothing that names another
    /// or only looks.
    pub open spec fn allowed(self) -> Result<OptionsModel, OptionsError> {
        if self.setup && (self.check || self.env_file is Some) {
            Err(OptionsError::SetupCombined)
        } else {
            Ok(self)
        }
    }

    /// What a command line asks for, or why it is refused.
    pub open spec fn of(args: Seq<String>) -> Result<OptionsModel, OptionsError> {
        match OptionsModel::none().read(args) {
            Ok(options) => options.allowed(),
            Err(e) => Err(e),
        }
    }
}

impl Default for Options {
    fn default() -> (r: Self)
        ensures
            r@ == OptionsModel::none(),
    {
        Options { env_file: None, check: false, setup: false, help: false }
    }
}

impl Options {
    pub fn parse(args: Vec<String>) -> (r: Result<Options, OptionsError>)
        ensures
            OptionsModel::of(args@) == (match r {
                Ok(options) => Ok(options@),
                Err(e) => Err(e),
            }),
    {
        let mut result = Options::default();
        let mut i: usize = 0;
        assert(args@.skip(0) =~= args@);
        while i < args.len()
            invariant
                i <= args@.len(),
                OptionsModel::none().read(args@) == result@.read(args@.skip(i as int)),
            decreases args@.len() - i,
        {
            let arg = args[i].as_str();
            proof {
                assert(args@.skip(i as int)[0]@ == arg@);
                assert(args@.skip(i as int).skip(1) =~= args@.skip(i + 1));
            }
            if same_text(arg, "--env-file") && result.env_file.is_none() {
                if args.len() - i < 2 {
                    return Err(OptionsError::EnvFileNeedsPath);
                }
                let path = args[i + 1].as_str();
                let named = path_named(path);
                proof {
                    assert(args@.skip(i as int)[1]@ == path@);
                    assert(args@.skip(i as int).skip(2) =~= args@.skip(i + 2));
                }
                if !named {
                    return Err(OptionsError::EnvFileNeedsPath);
                }
                result.env_file = Some(path.to_owned());
                i += 2;
            } else {
                if same_text(arg, "--check-config") {
                    result.check = true;
                } else if same_text(arg, "--setup") {
                    result.setup = true;
                } else if same_text(arg, "--help") || same_text(arg, "-h") {
                    result.help = true;
                } else {
                    return Err(OptionsError::UnknownOrRepeated);
                }
                i += 1;
            }
        }
        if result.setup && (result.check || result.env_file.is_some()) {
            return Err(OptionsError::SetupCombined);
        }
        Ok(result)
    }
}

/// Whether an argument can name the env file.
fn path_named(arg: &str) -> (r: bool)
    ensures
        r == names_file(arg@),
{
    let chars = crate::text::to_chars(arg);
    chars.len() > 0 && chars[0] != '-'
}

/// The value of the last pair under `key`.
pub open spec fn last_value(pairs: Seq<(String, String)>, key: Seq<char>) -> Option<Seq<char>>
    decreases pairs.len(),
{
    if pairs.len() == 0 {
        None
    } else if pairs.last().0@ == key {
        Some(pairs.last().1@)
    } else {
        last_value(pairs.drop_last(), key)
    }
}

/// The resolved settings of one bot. Deliberately no `Debug`: values include
/// credentials.
pub struct Settings {
    pub profile: Profile,
    /// In order of precedence: the last pair under a key counts.
    pub values: Vec<(String, String)>,
}

impl Settings {
    /// The value of a setting.
    pub open spec fn lookup(&self, key: Seq<char>) -> Option<Seq<char>> {
        last_value(self.values@, key)
    }

    /// The process variable that sets `key` for `profile`. There is no
    /// fallback to unprefixed variables: both hosts can share a directory.
    pub open spec fn variable(profile: Profile, key: Seq<char>) -> Seq<char> {
        match profile {
            Profile::Spotibot => key,
            Profile::Nob => "NOB_"@ + key,
        }
    }

    /// The settings of an env file under those of the process environment.
    pub fn merge(
        profile: Profile,
        values: Vec<(String, String)>,
        env: Vec<(String, String)>,
    ) -> (r: Settings)
        ensures
            r.profile == profile,
            forall|key: Seq<char>| #[trigger]
                r.lookup(key) == (match last_value(env@, Settings::variable(profile, key)) {
                    Some(v) => Some(v),
                    None => last_value(values@, key),
                }),
    {
        let ghost file = values@;
        let mut values = values;
        let mut i: usize = 0;
        while i < env.len()
            invariant
                i <= env@.len(),
                forall|key: Seq<char>| #[trigger]
                    last_value(values@, key) == (match last_value(
                        env@.take(i as int),
                        Settings::variable(profile, key),
                    ) {
                        Some(v) => Some(v),
                        None => last_value(file, key),
                    }),
            decreases env@.len() - i,
        {
            let key = &env[i].0;
            let value = &env[i].1;
            let ghost before = values@;
            let scoped = match profile {
                Profile::Spotibot => Some(key.clone()),
                Profile::Nob => strip_prefix(key.as_str(), "NOB_"),
            };
            let ghost own = scoped;
            if let Some(scoped) = scoped {
                values.push((scoped, value.clone()));
                assert(values@.drop_last() =~= before);
            }
            proof {
                let seen = env@.take(i + 1);
                assert(seen.drop_last() =~= env@.take(i as int));
                assert(seen.last() == env@[i as int]);
                assert forall|k: Seq<char>| #[trigger]
                    last_value(values@, k) == (match last_value(
                        seen,
                        Settings::variable(profile, k),
                    ) {
                        Some(v) => Some(v),
                        None => last_value(file, k),
                    }) by {
                    assert(last_value(before, k) == match last_value(
                        env@.take(i as int),
                        Settings::variable(profile, k),
                    ) {
                        Some(v) => Some(v),
                        None => last_value(file, k),
                    });
                    lemma_variable(profile, key@, k, own);
                }
            }
            i += 1;
        }
        assert(env@.take(i as int) =~= env@);
        Settings { profile, values }
    }

    pub fn get(&self, key: &str) -> (r: Option<&str>)
        ensures
            self.lookup(key@) == (match r {
                Some(v) => Some(v@),
                None => None,
            }),
    {
        let mut i: usize = self.values.len();
        assert(self.values@.take(i as int) =~= self.values@);
        while i > 0
            invariant
                i <= self.values@.len(),
                last_value(self.values@, key@) == last_value(self.values@.take(i as int), key@),
            decreases i,
        {
            proof {
                let seen = self.values@.take(i as int);
                assert(seen.drop_last() =~= self.values@.take(i - 1));
                assert(seen.last() == self.values@[i - 1]);
            }
            if same_text(self.values[i - 1].0.as_str(), key) {
                return Some(self.values[i - 1].1.as_str());
            }
            i -= 1;
        }
        None
    }
}

/// The variable a key is read from is exactly the one it is scoped out of.
proof fn lemma_variable(profile: Profile, name: Seq<char>, key: Seq<char>, scoped: Option<String>)
    requires
        match profile {
            Profile::Spotibot => scoped matches Some(own) && own@ == name,
            Profile::Nob => match scoped {
                Some(own) => name == "NOB_"@ + own@,
                None => !crate::text::starts_with(name, "NOB_"@),
            },
        },
    ensures
        (name == Settings::variable(profile, key)) == (scoped matches Some(own) && own@ == key),
{
    let n = "NOB_"@.len() as int;
    if profile == Profile::Nob {
        assert(("NOB_"@ + key).skip(n) =~= key);
        if name == "NOB_"@ + key {
            assert(name.subrange(0, n) =~= "NOB_"@);
        }
        if scoped is Some {
            assert(("NOB_"@ + scoped->0@).skip(n) =~= scoped->0@);
        }
    }
}

/// A setting that must not be blank is.
#[derive(Clone, Debug, PartialEq, Eq)]
pub struct BlankSetting {
    pub key: String,
}

impl BlankSetting {
    pub fn message(&self) -> (r: String)
        ensures
            r@ == self.key@ + " cannot be blank"@,
    {
        cat(self.key.as_str(), " cannot be blank")
    }
}

/// Where one bot keeps its writable state.
#[derive(Clone, Debug, PartialEq, Eq)]
pub struct Paths {
    /// The kind of host that these are paths of.
    pub host: Host,
    pub database: String,
    pub spotify_cache: String,
    pub youtube_tmp: String,
    pub youtube_cookies: String,
    pub dj_clips: String,
    pub dj_cache: String,
    /// Only on a host with Unix sockets.
    pub kokoro_socket: Option<String>,
    pub youtube_max_duration: Option<String>,
}

/// The paths as characters.
pub struct PathsModel {
    pub host: Host,
    pub database: Seq<char>,
    pub spotify_cache: Seq<char>,
    pub youtube_tmp: Seq<char>,
    pub youtube_cookies: Seq<char>,
    pub dj_clips: Seq<char>,
    pub dj_cache: Seq<char>,
    pub kokoro_socket: Option<Seq<char>>,
    pub youtube_max_duration: Option<Seq<char>>,
}

impl View for Paths {
    type V = PathsModel;

    open spec fn view(&self) -> PathsModel {
        PathsModel {
            host: self.host,
            database: self.database@,
            spotify_cache: self.spotify_cache@,
            youtube_tmp: self.youtube_tmp@,
            youtube_cookies: self.youtube_cookies@,
            dj_clips: self.dj_clips@,
            dj_cache: self.dj_cache@,
            kokoro_socket: crate::text::text_of(self.kokoro_socket),
            youtube_max_duration: crate::text::text_of(self.youtube_max_duration),
        }
    }
}

impl Settings {
    /// A setting, or what stands in for it.
    pub open spec fn or(&self, key: Seq<char>, default: Seq<char>) -> Seq<char> {
        match self.lookup(key) {
            Some(v) => v,
            None => default,
        }
    }

    /// No state directory is named, and this is the bot that predates one.
    pub open spec fn legacy(&self) -> bool {
        self.profile == Profile::Spotibot && self.lookup("STATE_DIR"@) is None
    }

    pub open spec fn legacy_or(&self, legacy: Seq<char>, default: Seq<char>) -> Seq<char> {
        if self.legacy() {
            legacy
        } else {
            default
        }
    }

    /// The directory that relative paths stand below.
    pub open spec fn state_dir(&self) -> Seq<char> {
        self.or("STATE_DIR"@, self.legacy_or("."@, ".nob"@))
    }

    /// The database named by the older setting, which is relative to the
    /// process directory.
    pub open spec fn old_database(&self) -> bool {
        self.profile == Profile::Spotibot && self.lookup("DATABASE_PATH"@) is None && self.lookup(
            "SPOTIBOT_DB"@,
        ) is Some
    }

    pub open spec fn database(&self) -> Seq<char> {
        self.or(
            "DATABASE_PATH"@,
            if self.profile == Profile::Nob {
                "nob.db"@
            } else {
                "spotibot.db"@
            },
        )
    }

    pub open spec fn spotify_cache(&self) -> Seq<char> {
        self.or("SPOTIFY_CACHE_DIR"@, ".spotify_cache"@)
    }

    pub open spec fn youtube_tmp(&self) -> Seq<char> {
        self.or(
            "YOUTUBE_TMP_DIR"@,
            self.legacy_or("/tmp/spotibot-youtube"@, "youtube-tmp"@),
        )
    }

    pub open spec fn youtube_cookies(&self) -> Seq<char> {
        self.or(
            "YOUTUBE_COOKIES"@,
            self.legacy_or("/var/lib/spotibot/youtube-cookies.txt"@, "youtube-cookies.txt"@),
        )
    }

    pub open spec fn dj_clips(&self) -> Seq<char> {
        self.or("DJ_CLIPS_DIR"@, self.legacy_or("/var/lib/spotibot/dj-clips"@, "dj-clips"@))
    }

    pub open spec fn dj_cache(&self) -> Seq<char> {
        self.or("DJ_CACHE_DIR"@, self.legacy_or("/var/lib/spotibot/dj-cache"@, "dj-cache"@))
    }

    pub open spec fn kokoro_socket(&self) -> Seq<char> {
        self.or(
            "KOKORO_SOCKET"@,
            self.legacy_or("/var/lib/spotibot/kokoro.sock"@, "kokoro.sock"@),
        )
    }

    /// The first setting that is blank and must not be. The socket is not asked
    /// for where there is none.
    pub open spec fn blank_key(&self, host: Host) -> Option<Seq<char>> {
        if crate::text::blank(self.state_dir()) {
            Some("STATE_DIR"@)
        } else if self.old_database() && crate::text::blank(self.or("SPOTIBOT_DB"@, ""@)) {
            Some("SPOTIBOT_DB"@)
        } else if !self.old_database() && crate::text::blank(self.database()) {
            Some("DATABASE_PATH"@)
        } else if crate::text::blank(self.spotify_cache()) {
            Some("SPOTIFY_CACHE_DIR"@)
        } else if crate::text::blank(self.youtube_tmp()) {
            Some("YOUTUBE_TMP_DIR"@)
        } else if crate::text::blank(self.youtube_cookies()) {
            Some("YOUTUBE_COOKIES"@)
        } else if crate::text::blank(self.dj_clips()) {
            Some("DJ_CLIPS_DIR"@)
        } else if crate::text::blank(self.dj_cache()) {
            Some("DJ_CACHE_DIR"@)
        } else if host is Unix && crate::text::blank(self.kokoro_socket()) {
            Some("KOKORO_SOCKET"@)
        } else {
            None
        }
    }

    /// The paths these settings name for a process in `cwd` on such a host.
    pub open spec fn paths(&self, host: Host, cwd: Seq<char>) -> PathsModel {
        let state = crate::path::joined(host, cwd, self.state_dir());
        PathsModel {
            host,
            database: if self.old_database() {
                crate::path::joined(host, cwd, self.or("SPOTIBOT_DB"@, ""@))
            } else {
                crate::path::joined(host, state, self.database())
            },
            spotify_cache: crate::path::joined(host, state, self.spotify_cache()),
            youtube_tmp: crate::path::joined(host, state, self.youtube_tmp()),
            youtube_cookies: crate::path::joined(host, state, self.youtube_cookies()),
            dj_clips: crate::path::joined(host, state, self.dj_clips()),
            dj_cache: crate::path::joined(host, state, self.dj_cache()),
            kokoro_socket: if host is Unix {
                Some(crate::path::joined(host, state, self.kokoro_socket()))
            } else {
                None
            },
            youtube_max_duration: self.lookup("YOUTUBE_MAX_DURATION_SECS"@),
        }
    }
}

/// One path setting below the state directory, or its key when it is blank.
fn resolve_one(
    settings: &Settings,
    host: Host,
    state: &str,
    key: &str,
    default: &str,
) -> (r: Result<String, BlankSetting>)
    ensures
        match r {
            Ok(path) => !crate::text::blank(settings.or(key@, default@)) && path@ == crate::path::joined(
                host,
                state@,
                settings.or(key@, default@),
            ),
            Err(e) => crate::text::blank(settings.or(key@, default@)) && e.key@ == key@,
        },
{
    let value = match settings.get(key) {
        Some(v) => v,
        None => default,
    };
    if is_blank(value) {
        return Err(BlankSetting { key: key.to_owned() });
    }
    Ok(join(host, state, value))
}

/// The default for a host with no state directory of its own, or the other.
fn pick(legacy: bool, old: &'static str, new: &'static str) -> (r: &'static str)
    ensures
        r == (if legacy {
            old
        } else {
            new
        }),
{
    if legacy {
        old
    } else {
        new
    }
}

impl Paths {
    /// Resolve every writable path of a bot running in `cwd` on such a host.
    pub fn resolve(settings: &Settings, host: Host, cwd: &str) -> (r: Result<Paths, BlankSetting>)
        ensures
            match r {
                Ok(paths) => settings.blank_key(host) is None && paths@ == settings.paths(
                    host,
                    cwd@,
                ),
                Err(e) => settings.blank_key(host) == Some(e.key@),
            },
    {
        let explicit_state = settings.get("STATE_DIR");
        let legacy = matches!(settings.profile, Profile::Spotibot) && explicit_state.is_none();
        let state = match explicit_state {
            Some(v) => v,
            None => pick(legacy, ".", ".nob"),
        };
        if is_blank(state) {
            return Err(BlankSetting { key: "STATE_DIR".to_owned() });
        }
        let state = join(host, cwd, state);
        let state = state.as_str();
        let old_database = match settings.profile {
            Profile::Spotibot => if settings.get("DATABASE_PATH").is_none() {
                settings.get("SPOTIBOT_DB")
            } else {
                None
            },
            Profile::Nob => None,
        };
        let database = match old_database {
            Some(value) => {
                if is_blank(value) {
                    return Err(BlankSetting { key: "SPOTIBOT_DB".to_owned() });
                }
                // The older override is relative to the process directory.
                join(host, cwd, value)
            },
            None => {
                let default = match settings.profile {
                    Profile::Nob => "nob.db",
                    Profile::Spotibot => "spotibot.db",
                };
                match resolve_one(settings, host, state, "DATABASE_PATH", default) {
                    Ok(path) => path,
                    Err(e) => return Err(e),
                }
            },
        };
        let spotify_cache = match resolve_one(
            settings,
            host,
            state,
            "SPOTIFY_CACHE_DIR",
            ".spotify_cache",
        ) {
            Ok(path) => path,
            Err(e) => return Err(e),
        };
        let youtube_tmp = match resolve_one(
            settings,
            host,
            state,
            "YOUTUBE_TMP_DIR",
            pick(legacy, "/tmp/spotibot-youtube", "youtube-tmp"),
        ) {
            Ok(path) => path,
            Err(e) => return Err(e),
        };
        let youtube_cookies = match resolve_one(
            settings,
            host,
            state,
            "YOUTUBE_COOKIES",
            pick(legacy, "/var/lib/spotibot/youtube-cookies.txt", "youtube-cookies.txt"),
        ) {
            Ok(path) => path,
            Err(e) => return Err(e),
        };
        let dj_clips = match resolve_one(
            settings,
            host,
            state,
            "DJ_CLIPS_DIR",
            pick(legacy, "/var/lib/spotibot/dj-clips", "dj-clips"),
        ) {
            Ok(path) => path,
            Err(e) => return Err(e),
        };
        let dj_cache = match resolve_one(
            settings,
            host,
            state,
            "DJ_CACHE_DIR",
            pick(legacy, "/var/lib/spotibot/dj-cache", "dj-cache"),
        ) {
            Ok(path) => path,
            Err(e) => return Err(e),
        };
        let kokoro_socket = match host {
            Host::Windows => None,
            Host::Unix => match resolve_one(
                settings,
                host,
                state,
                "KOKORO_SOCKET",
                pick(legacy, "/var/lib/spotibot/kokoro.sock", "kokoro.sock"),
            ) {
                Ok(path) => Some(path),
                Err(e) => return Err(e),
            },
        };
        let youtube_max_duration = match settings.get("YOUTUBE_MAX_DURATION_SECS") {
            Some(v) => Some(v.to_owned()),
            None => None,
        };
        Ok(
            Paths {
                host,
                database,
                spotify_cache,
                youtube_tmp,
                youtube_cookies,
                dj_clips,
                dj_cache,
                kokoro_socket,
                youtube_max_duration,
            },
        )
    }
}

/// The files to lock, in order: each is taken once, for a second lock on a
/// file this process already holds would fail.
pub fn lock_files(paths: &Vec<String>) -> (r: Vec<String>)
    ensures
        crate::text::texts(r@) == crate::text::distinct(paths@),
{
    distinct_texts(paths)
}

/// The lock file of a directory.
pub fn dir_lock(host: Host, dir: &str) -> (r: String)
    ensures
        r@ == crate::path::joined(host, dir@, ".bot.lock"@),
{
    join(host, dir, ".bot.lock")
}

/// The lock file beside a file.
pub fn file_lock(file: &str) -> (r: String)
    ensures
        r@ == file@ + ".bot.lock"@,
{
    cat(file, ".bot.lock")
}

/// The second bot never reads an unscoped process variable: an environment
/// without one that starts with its prefix sets nothing.
pub proof fn law_nob_ignores_unscoped_variables(env: Seq<(String, String)>, key: Seq<char>)
    requires
        forall|i: int| 0 <= i < env.len() ==> !crate::text::starts_with(
            #[trigger] env[i].0@,
            "NOB_"@,
        ),
    ensures
        last_value(env, Settings::variable(Profile::Nob, key)) is None,
    decreases env.len(),
{
    if env.len() > 0 {
        let name = env.last().0@;
        assert(name == env[env.len() - 1].0@);
        if name == "NOB_"@ + key {
            assert(name.subrange(0, "NOB_"@.len() as int) =~= "NOB_"@);
        }
        assert forall|i: int| 0 <= i < env.drop_last().len() implies !crate::text::starts_with(
            #[trigger] env.drop_last()[i].0@,
            "NOB_"@,
        ) by {
            assert(env.drop_last()[i] == env[i]);
        }
        law_nob_ignores_unscoped_variables(env.drop_last(), key);
    }
}

/// A process variable wins over the env file.
pub proof fn law_environment_wins(
    profile: Profile,
    env: Seq<(String, String)>,
    name: String,
    value: String,
    key: Seq<char>,
)
    requires
        name@ == Settings::variable(profile, key),
    ensures
        last_value(env.push((name, value)), Settings::variable(profile, key)) == Some(value@),
{
}

/// Nothing is set.
pub open spec fn unset(settings: Settings) -> bool {
    forall|key: Seq<char>| #[trigger] settings.lookup(key) is None
}

/// Two bots without settings, in the same directory, keep their writable
/// state apart.
pub proof fn law_default_paths_are_disjoint(
    spot: Settings,
    nob: Settings,
    host: Host,
    cwd: Seq<char>,
)
    requires
        spot.profile == Profile::Spotibot,
        nob.profile == Profile::Nob,
        unset(spot),
        unset(nob),
    ensures
        spot.paths(host, cwd).database != nob.paths(host, cwd).database,
        spot.paths(host, cwd).spotify_cache != nob.paths(host, cwd).spotify_cache,
        spot.paths(host, cwd).youtube_tmp != nob.paths(host, cwd).youtube_tmp,
        spot.paths(host, cwd).youtube_cookies != nob.paths(host, cwd).youtube_cookies,
        spot.paths(host, cwd).dj_cache != nob.paths(host, cwd).dj_cache,
{
    reveal_strlit("/");
    reveal_strlit("\\");
    reveal_strlit(".");
    let a = spot.paths(host, cwd);
    let b = nob.paths(host, cwd);
    let state = crate::path::joined(host, cwd, "."@);
    let home = crate::path::joined(host, cwd, ".nob"@);
    lemma_default_names();
    crate::path::lemma_join_here(host, cwd);
    crate::path::lemma_join_name(host, cwd, ".nob"@);
    assert(home.len() >= cwd.len() + 4 && home.last() == 'b') by {
        reveal_strlit(".nob");
    }
    assert(a.database[a.database.len() - 4] == 't') by {
        reveal_strlit("spotibot.db");
        crate::path::lemma_join_name(host, state, "spotibot.db"@);
    }
    assert(b.database[b.database.len() - 4] == 'b') by {
        reveal_strlit("nob.db");
        crate::path::lemma_join_name(host, home, "nob.db"@);
    }
    crate::path::lemma_join_name(host, state, ".spotify_cache"@);
    crate::path::lemma_join_name(host, home, ".spotify_cache"@);
    assert(a.spotify_cache.len() != b.spotify_cache.len());
    assert(a.youtube_tmp.last() == 'e') by {
        reveal_strlit("/tmp/spotibot-youtube");
        lemma_rooted(host, state, "/tmp/spotibot-youtube"@, 0, 4);
    }
    assert(b.youtube_tmp.last() == 'p') by {
        reveal_strlit("youtube-tmp");
        crate::path::lemma_join_name(host, home, "youtube-tmp"@);
    }
    assert(a.youtube_cookies[a.youtube_cookies.len() - 21] == 't') by {
        reveal_strlit("/var/lib/spotibot/youtube-cookies.txt");
        lemma_rooted(host, state, "/var/lib/spotibot/youtube-cookies.txt"@, 8, 17);
    }
    assert(b.youtube_cookies[b.youtube_cookies.len() - 21] == 'b') by {
        reveal_strlit("youtube-cookies.txt");
        crate::path::lemma_join_name(host, home, "youtube-cookies.txt"@);
    }
    assert(a.dj_cache[a.dj_cache.len() - 10] == 't') by {
        reveal_strlit("/var/lib/spotibot/dj-cache");
        lemma_rooted(host, state, "/var/lib/spotibot/dj-cache"@, 8, 17);
    }
    assert(b.dj_cache[b.dj_cache.len() - 10] == 'b') by {
        reveal_strlit("dj-cache");
        crate::path::lemma_join_name(host, home, "dj-cache"@);
    }
}

/// A text of more than two characters, none of them a separator or a colon, is
/// a name.
proof fn lemma_name(text: Seq<char>)
    requires
        text.len() > 2,
        forall|i: int|
            0 <= i < text.len() ==> #[trigger] text[i] != '/' && text[i] != '\\' && text[i]
                != ':',
    ensures
        crate::path::is_name(text),
{
    reveal_strlit(".");
    reveal_strlit("..");
}

/// The defaults are names.
proof fn lemma_default_names()
    ensures
        crate::path::is_name(".nob"@),
        crate::path::is_name("nob.db"@),
        crate::path::is_name("spotibot.db"@),
        crate::path::is_name(".spotify_cache"@),
        crate::path::is_name("youtube-tmp"@),
        crate::path::is_name("youtube-cookies.txt"@),
        crate::path::is_name("dj-clips"@),
        crate::path::is_name("dj-cache"@),
        crate::path::is_name("kokoro.sock"@),
{
    reveal_strlit(".nob");
    lemma_name(".nob"@);
    reveal_strlit("nob.db");
    lemma_name("nob.db"@);
    reveal_strlit("spotibot.db");
    lemma_name("spotibot.db"@);
    reveal_strlit(".spotify_cache");
    lemma_name(".spotify_cache"@);
    reveal_strlit("youtube-tmp");
    lemma_name("youtube-tmp"@);
    reveal_strlit("youtube-cookies.txt");
    lemma_name("youtube-cookies.txt"@);
    reveal_strlit("dj-clips");
    lemma_name("dj-clips"@);
    reveal_strlit("dj-cache");
    lemma_name("dj-cache"@);
    reveal_strlit("kokoro.sock");
    lemma_name("kokoro.sock"@);
}

/// Two names at the end of a path from the root stay there when it is joined:
/// the last characters of both.
proof fn lemma_rooted(host: Host, base: Seq<char>, path: Seq<char>, i: int, k: int)
    requires
        0 <= i < k - 3,
        k + 3 < path.len(),
        path[0] == '/',
        path[i] == '/',
        path[k] == '/',
        forall|j: int|
            (j == 1 || i < j < k || k < j < path.len()) ==> !crate::text::is_slash(
                #[trigger] path[j],
            ) && path[j] != ':',
    ensures
        ({
            let r = crate::path::joined(host, base, path);
            let n = path.len() - k;
            &&& r.len() > n
            &&& r.last() == path.last()
            &&& r[r.len() - n - 1] == path[k - 1]
        }),
{
    reveal_strlit(".");
    reveal_strlit("..");
    let dir = path.subrange(i + 1, k);
    let name = path.skip(k + 1);
    assert(!crate::text::is_slash(path[1]));
    assert forall|j: int| 0 <= j < dir.len() implies !crate::text::is_slash(#[trigger] dir[j])
        && dir[j] != ':' by {
        assert(dir[j] == path[i + 1 + j]);
    }
    assert forall|j: int| 0 <= j < name.len() implies !crate::text::is_slash(#[trigger] name[j])
        && name[j] != ':' by {
        assert(name[j] == path[k + 1 + j]);
    }
    crate::path::lemma_join_rooted(host, base, path, i, k);
    let r = crate::path::joined(host, base, path);
    assert(r.last() == r.subrange(r.len() - name.len(), r.len() as int).last());
    assert(r[r.len() - name.len() - 2] == r.subrange(
        r.len() - name.len() - 1 - dir.len(),
        r.len() - name.len() - 1,
    ).last());
}

/// Without settings, everything the second bot writes lies below its own
/// directory.
pub proof fn law_nob_stays_in_its_directory(nob: Settings, host: Host, cwd: Seq<char>)
    requires
        nob.profile == Profile::Nob,
        unset(nob),
    ensures
        ({
            let home = crate::path::joined(host, cwd, ".nob"@);
            let paths = nob.paths(host, cwd);
            let within = home + host.separator();
            &&& crate::text::starts_with(paths.database, within)
            &&& crate::text::starts_with(paths.spotify_cache, within)
            &&& crate::text::starts_with(paths.youtube_tmp, within)
            &&& crate::text::starts_with(paths.youtube_cookies, within)
            &&& crate::text::starts_with(paths.dj_clips, within)
            &&& crate::text::starts_with(paths.dj_cache, within)
            &&& paths.kokoro_socket matches Some(socket) ==> crate::text::starts_with(
                socket,
                within,
            )
        }),
{
    let home = crate::path::joined(host, cwd, ".nob"@);
    let within = home + host.separator();
    lemma_default_names();
    crate::path::lemma_join_name(host, cwd, ".nob"@);
    assert(home.len() > 2 && home.last() == 'b') by {
        reveal_strlit(".nob");
    }
    assert forall|name: Seq<char>| #[trigger]
        crate::path::is_name(name) implies crate::text::starts_with(
        crate::path::joined(host, home, name),
        within,
    ) by {
        crate::path::lemma_join_name(host, home, name);
        assert((within + name).subrange(0, within.len() as int) =~= within);
    }
}

/// The two bots go by their own names and read their own files.
pub proof fn law_the_bots_go_by_their_names(
    spot: &'static str,
    nob: &'static str,
    spot_file: &'static str,
    nob_file: &'static str,
)
    requires
        call_ensures(Profile::name, (Profile::Spotibot,), spot),
        call_ensures(Profile::name, (Profile::Nob,), nob),
        call_ensures(Profile::env_file, (Profile::Spotibot,), spot_file),
        call_ensures(Profile::env_file, (Profile::Nob,), nob_file),
    ensures
        spot@ == "Spotibot"@,
        nob@ == "nob"@,
        spot_file@ == ".env"@,
        nob_file@ == ".env.nob"@,
{
}

/// An argument that stands for itself, wherever it is.
pub open spec fn is_flag(arg: String) -> bool {
    arg@ == "--check-config"@ || arg@ == "--setup"@ || arg@ == "--help"@ || arg@ == "-h"@
}

/// One of these arguments is `text`.
pub open spec fn given(args: Seq<String>, text: Seq<char>) -> bool {
    exists|i: int| 0 <= i < args.len() && #[trigger] args[i]@ == text
}

proof fn lemma_options_differ()
    ensures
        "--env-file"@.len() == 10,
        "--check-config"@.len() == 14,
        "--setup"@.len() == 7,
        "--help"@.len() == 6,
        "-h"@.len() == 2,
{
    reveal_strlit("--env-file");
    reveal_strlit("--check-config");
    reveal_strlit("--setup");
    reveal_strlit("--help");
    reveal_strlit("-h");
}

proof fn lemma_flags_are_read(o: OptionsModel, flags: Seq<String>, rest: Seq<String>)
    requires
        forall|i: int| 0 <= i < flags.len() ==> is_flag(#[trigger] flags[i]),
    ensures
        o.read(flags + rest) == (OptionsModel {
            env_file: o.env_file,
            check: o.check || given(flags, "--check-config"@),
            setup: o.setup || given(flags, "--setup"@),
            help: o.help || given(flags, "--help"@) || given(flags, "-h"@),
        }).read(rest),
    decreases flags.len(),
{
    lemma_options_differ();
    if flags.len() == 0 {
        assert(flags + rest =~= rest);
    } else {
        let all = flags + rest;
        let first = flags[0]@;
        let tail = flags.skip(1);
        assert(all[0] == flags[0]);
        assert(is_flag(flags[0]));
        assert(all.skip(1) =~= tail + rest);
        assert forall|i: int| 0 <= i < tail.len() implies is_flag(#[trigger] tail[i]) by {
            assert(tail[i] == flags[i + 1]);
        }
        let next = OptionsModel {
            env_file: o.env_file,
            check: o.check || first == "--check-config"@,
            setup: o.setup || first == "--setup"@,
            help: o.help || first == "--help"@ || first == "-h"@,
        };
        assert(o.read(all) == next.read(tail + rest));
        lemma_flags_are_read(next, tail, rest);
        assert forall|text: Seq<char>| #[trigger]
            given(flags, text) == (first == text || given(tail, text)) by {
            if given(flags, text) {
                let i = choose|i: int| 0 <= i < flags.len() && #[trigger] flags[i]@ == text;
                if i > 0 {
                    assert(tail[i - 1]@ == text);
                }
            }
            if first == text {
                assert(flags[0]@ == text);
            }
            if given(tail, text) {
                let i = choose|i: int| 0 <= i < tail.len() && #[trigger] tail[i]@ == text;
                assert(flags[i + 1]@ == text);
            }
        }
        assert(given(flags, "--check-config"@) == (first == "--check-config"@ || given(
            tail,
            "--check-config"@,
        )));
        assert(given(flags, "--setup"@) == (first == "--setup"@ || given(tail, "--setup"@)));
        assert(given(flags, "--help"@) == (first == "--help"@ || given(tail, "--help"@)));
        assert(given(flags, "-h"@) == (first == "-h"@ || given(tail, "-h"@)));
    }
}

/// Flags can stand anywhere on a command line and as often as they like; each
/// asks for one thing. Setup goes with help only.
pub proof fn law_flags_ask_for_one_thing_each(
    args: Vec<String>,
    r: Result<Options, OptionsError>,
)
    requires
        forall|i: int| 0 <= i < args@.len() ==> is_flag(#[trigger] args@[i]),
        call_ensures(Options::parse, (args,), r),
    ensures
        given(args@, "--setup"@) && given(args@, "--check-config"@) ==> r == Err::<
            Options,
            OptionsError,
        >(OptionsError::SetupCombined),
        !(given(args@, "--setup"@) && given(args@, "--check-config"@)) ==> {
            &&& r is Ok
            &&& r->Ok_0.env_file is None
            &&& r->Ok_0.check == given(args@, "--check-config"@)
            &&& r->Ok_0.setup == given(args@, "--setup"@)
            &&& r->Ok_0.help == (given(args@, "--help"@) || given(args@, "-h"@))
        },
{
    lemma_flags_are_read(OptionsModel::none(), args@, Seq::empty());
    assert(args@ + Seq::<String>::empty() =~= args@);
    if let Ok(options) = r {
        assert(options@.env_file is None);
    }
}

/// Between flags, one env file can be named, by an argument that is not empty
/// and starts with no dash. Without one, or with another kind of argument, the
/// line is refused, and so is a second one, any argument nobody knows, and an
/// env file together with setup.
pub proof fn law_one_env_file_can_be_named(
    args: Vec<String>,
    before: Seq<String>,
    name: String,
    file: String,
    after: Seq<String>,
    r: Result<Options, OptionsError>,
)
    requires
        forall|i: int| 0 <= i < before.len() ==> is_flag(#[trigger] before[i]),
        forall|i: int| 0 <= i < after.len() ==> is_flag(#[trigger] after[i]),
        call_ensures(Options::parse, (args,), r),
    ensures
        name@ == "--env-file"@ && args@ == before + seq![name] ==> r == Err::<
            Options,
            OptionsError,
        >(OptionsError::EnvFileNeedsPath),
        name@ == "--env-file"@ && args@ == before + seq![name, file] + after && (file@.len() == 0
            || file@[0] == '-') ==> r == Err::<Options, OptionsError>(
            OptionsError::EnvFileNeedsPath,
        ),
        name@ == "--env-file"@ && args@ == before + seq![name, file] + after && file@.len() > 0
            && file@[0] != '-' ==> {
            let setup = given(before, "--setup"@) || given(after, "--setup"@);
            &&& setup ==> r == Err::<Options, OptionsError>(OptionsError::SetupCombined)
            &&& !setup ==> {
                &&& r is Ok
                &&& crate::text::text_of(r->Ok_0.env_file) == Some(file@)
                &&& r->Ok_0.check == (given(before, "--check-config"@) || given(
                    after,
                    "--check-config"@,
                ))
                &&& !r->Ok_0.setup
                &&& r->Ok_0.help == (given(before, "--help"@) || given(before, "-h"@) || given(
                    after,
                    "--help"@,
                ) || given(after, "-h"@))
            }
        },
        name@ == "--env-file"@ && args@ == before + seq![name, file] + after.push(name)
            && file@.len() > 0 && file@[0] != '-' ==> r == Err::<Options, OptionsError>(
            OptionsError::UnknownOrRepeated,
        ),
        !is_flag(name) && name@ != "--env-file"@ && args@ == before + seq![name] + after ==> r
            == Err::<Options, OptionsError>(OptionsError::UnknownOrRepeated),
{
    lemma_options_differ();
    let none = OptionsModel::none();
    let one = seq![name];
    lemma_flags_are_read(none, before, one);
    assert(one[0] == name);
    let two = seq![name, file] + after;
    lemma_flags_are_read(none, before, two);
    assert(before + seq![name, file] + after =~= before + two);
    assert(two[0] == name && two[1] == file);
    assert(two.skip(2) =~= after);
    let read = OptionsModel {
        env_file: Some(file@),
        check: given(before, "--check-config"@),
        setup: given(before, "--setup"@),
        help: given(before, "--help"@) || given(before, "-h"@),
    };
    lemma_flags_are_read(read, after, Seq::empty());
    assert(after + Seq::<String>::empty() =~= after);
    let again = seq![name, file] + after.push(name);
    lemma_flags_are_read(none, before, again);
    assert(before + seq![name, file] + after.push(name) =~= before + again);
    assert(again[0] == name && again[1] == file);
    assert(again.skip(2) =~= after + one);
    lemma_flags_are_read(read, after, one);
    let other = one + after;
    lemma_flags_are_read(none, before, other);
    assert(before + seq![name] + after =~= before + other);
    assert(other[0] == name);
}

/// Each refusal says what is wrong; without arguments nothing is asked for.
pub proof fn law_refusals_say_what_is_wrong(
    path: &'static str,
    unknown: &'static str,
    combined: &'static str,
    blank: BlankSetting,
    text: String,
)
    requires
        call_ensures(OptionsError::message, (OptionsError::EnvFileNeedsPath,), path),
        call_ensures(OptionsError::message, (OptionsError::UnknownOrRepeated,), unknown),
        call_ensures(OptionsError::message, (OptionsError::SetupCombined,), combined),
        call_ensures(BlankSetting::message, (&blank,), text),
    ensures
        path@ == "--env-file needs a path"@,
        unknown@ == "unknown or repeated argument; use --help"@,
        combined@ == "--setup cannot be combined with --env-file or --check-config"@,
        text@ == blank.key@ + " cannot be blank"@,
{
}

/// The last value given for a key counts, and only a value given for exactly
/// that key.
pub proof fn law_the_last_value_counts(
    pairs: Seq<(String, String)>,
    name: String,
    value: String,
    key: Seq<char>,
)
    ensures
        last_value(Seq::empty(), key) is None,
        name@ == key ==> last_value(pairs.push((name, value)), key) == Some(value@),
        name@ != key ==> last_value(pairs.push((name, value)), key) == last_value(pairs, key),
{
    assert(pairs.push((name, value)).drop_last() =~= pairs);
}

/// A setting is what the environment gives it, under its own name for the one
/// bot and behind `NOB_` for the other; what the env file gives it otherwise;
/// and unset when neither does.
pub proof fn law_settings_come_from_their_own_scope(
    profile: Profile,
    values: Vec<(String, String)>,
    env: Vec<(String, String)>,
    r: Settings,
    key: &str,
    got: Option<&str>,
)
    requires
        call_ensures(Settings::merge, (profile, values, env), r),
        call_ensures(Settings::get, (&r, key), got),
    ensures
        r.profile == profile,
        got is Some <==> r.lookup(key@) is Some,
        got matches Some(v) ==> r.lookup(key@) == Some(v@),
        ({
            let name = if profile is Nob {
                "NOB_"@ + key@
            } else {
                key@
            };
            &&& last_value(env@, name) is Some ==> r.lookup(key@) == last_value(env@, name)
            &&& last_value(env@, name) is None ==> r.lookup(key@) == last_value(values@, key@)
        }),
{
}

impl Settings {
    /// The settings that name a path, in the order they are asked for, each
    /// with what it names; and for the older one only where it is the database.
    pub open spec fn named_paths(&self, host: Host) -> Seq<(Seq<char>, Seq<char>)> {
        let old = self.profile is Spotibot && self.lookup("STATE_DIR"@) is None;
        let pick = |key: Seq<char>, default: Seq<char>|
            match self.lookup(key) {
                Some(v) => (key, v),
                None => (key, default),
            };
        let either = |key: Seq<char>, legacy: Seq<char>, default: Seq<char>|
            if old {
                pick(key, legacy)
            } else {
                pick(key, default)
            };
        let database = if self.profile is Nob {
            pick("DATABASE_PATH"@, "nob.db"@)
        } else if self.lookup("DATABASE_PATH"@) is None && self.lookup("SPOTIBOT_DB"@) is Some {
            ("SPOTIBOT_DB"@, self.lookup("SPOTIBOT_DB"@)->0)
        } else {
            pick("DATABASE_PATH"@, "spotibot.db"@)
        };
        let all = seq![
            either("STATE_DIR"@, "."@, ".nob"@),
            database,
            pick("SPOTIFY_CACHE_DIR"@, ".spotify_cache"@),
            either("YOUTUBE_TMP_DIR"@, "/tmp/spotibot-youtube"@, "youtube-tmp"@),
            either(
                "YOUTUBE_COOKIES"@,
                "/var/lib/spotibot/youtube-cookies.txt"@,
                "youtube-cookies.txt"@,
            ),
            either("DJ_CLIPS_DIR"@, "/var/lib/spotibot/dj-clips"@, "dj-clips"@),
            either("DJ_CACHE_DIR"@, "/var/lib/spotibot/dj-cache"@, "dj-cache"@),
        ];
        if host is Unix {
            all.push(either("KOKORO_SOCKET"@, "/var/lib/spotibot/kokoro.sock"@, "kokoro.sock"@))
        } else {
            all
        }
    }
}

/// Every path but the state directory lies below it, as its setting or its
/// default says, unless it is absolute; only the older database setting is
/// below the process directory. The first blank setting is refused by name,
/// and nothing is refused when none is blank.
pub proof fn law_paths_lie_where_the_settings_say(
    settings: Settings,
    host: Host,
    cwd: &str,
    r: Result<Paths, BlankSetting>,
    i: int,
)
    requires
        call_ensures(Paths::resolve, (&settings, host, cwd), r),
    ensures
        ({
            let named = settings.named_paths(host);
            &&& 0 <= i < named.len() && crate::text::blank(named[i].1) && (forall|j: int|
                0 <= j < i ==> !crate::text::blank(#[trigger] named[j].1)) ==> (r matches Err(e)
                && e.key@ == named[i].0)
            &&& (forall|j: int| 0 <= j < named.len() ==> !crate::text::blank(#[trigger] named[j].1))
                ==> r is Ok
            &&& r matches Ok(paths) ==> {
                let state = crate::path::joined(host, cwd@, named[0].1);
                &&& paths.host == host
                &&& paths.database@ == (if named[1].0 == "SPOTIBOT_DB"@ {
                    crate::path::joined(host, cwd@, named[1].1)
                } else {
                    crate::path::joined(host, state, named[1].1)
                })
                &&& paths.spotify_cache@ == crate::path::joined(host, state, named[2].1)
                &&& paths.youtube_tmp@ == crate::path::joined(host, state, named[3].1)
                &&& paths.youtube_cookies@ == crate::path::joined(host, state, named[4].1)
                &&& paths.dj_clips@ == crate::path::joined(host, state, named[5].1)
                &&& paths.dj_cache@ == crate::path::joined(host, state, named[6].1)
                &&& host is Unix ==> crate::text::text_of(paths.kokoro_socket) == Some(
                    crate::path::joined(host, state, named[7].1),
                )
                &&& host is Windows ==> paths.kokoro_socket is None
                &&& crate::text::text_of(paths.youtube_max_duration) == settings.lookup(
                    "YOUTUBE_MAX_DURATION_SECS"@,
                )
            }
        }),
{
    let named = settings.named_paths(host);
    reveal_strlit("SPOTIBOT_DB");
    reveal_strlit("DATABASE_PATH");
    assert("SPOTIBOT_DB"@.len() != "DATABASE_PATH"@.len());
    assert(named[0].1 == settings.state_dir());
    assert(settings.old_database() ==> named[1].1 == settings.or("SPOTIBOT_DB"@, ""@));
    assert(!settings.old_database() ==> named[1].1 == settings.database());
    assert(named[2].1 == settings.spotify_cache());
    assert(named[3].1 == settings.youtube_tmp());
    assert(named[4].1 == settings.youtube_cookies());
    assert(named[5].1 == settings.dj_clips());
    assert(named[6].1 == settings.dj_cache());
    assert(host is Unix ==> named[7].1 == settings.kokoro_socket());
    assert(host is Windows ==> named.len() == 7);
    if let Ok(paths) = r {
        assert(paths@ == settings.paths(host, cwd@));
        assert(paths@.host == paths.host);
    }
}

/// Locks lie in a directory and beside a file under one ending, and each file
/// is locked once, in the order given.
pub proof fn law_each_lock_is_taken_once(
    host: Host,
    dir: &str,
    in_dir: String,
    file: &str,
    beside: String,
    paths: Vec<String>,
    locks: Vec<String>,
)
    requires
        call_ensures(dir_lock, (host, dir), in_dir),
        call_ensures(file_lock, (file,), beside),
        call_ensures(lock_files, (&paths,), locks),
    ensures
        in_dir@ == crate::path::joined(host, dir@, ".bot.lock"@),
        beside@ == file@ + ".bot.lock"@,
        crate::text::texts(locks@) == crate::text::distinct(paths@),
{
}

} // verus!
