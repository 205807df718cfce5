//! An operator-curated, bounded catalogue of local soundboard clips.
//!
//! Discord only sees stable ids and labels. Paths and decoder diagnostics stay
//! local; selection never accepts a URL, arbitrary path or decoder argument.

use vstd::prelude::*;

use crate::path::Host;
use crate::text::{add_text, has_suffix, head_before, same_text, separate, split_path, strip_prefix, to_chars, to_upper_ascii, trim, trim_spaces};

verus! {

pub const MAX_CLIPS: usize = 128;

/// Limit on the catalogue file, in bytes.
pub const MANIFEST_LIMIT: usize = 65536;

/// Limit on a clip's file, in bytes.
pub const FILE_LIMIT: usize = 20971520;

/// Fifteen seconds of stereo samples, in bytes.
pub const PCM_LIMIT: usize = 5292000;

/// A small bounded tail distinguishes oversized audio from an exact
/// fifteen-second clip.
pub const PCM_OUTPUT_LIMIT: usize = 5309640;

/// Limit on the decoder's diagnostics, in bytes.
pub const STDERR_LIMIT: usize = 32768;

/// Limit on preparing a clip, in seconds.
pub const DECODE_TIMEOUT_SECS: u64 = 10;

/// How many clips are prepared at once.
pub const MAX_DECODERS: usize = 2;

/// What is wrong with a soundboard's directory or catalogue.
#[derive(Clone, Copy, Debug, PartialEq, Eq, Structural)]
pub enum CatalogueError {
    NotLocal,
    RootUnopenable,
    RootNotDirectory,
    ManifestNotRegular,
    ManifestTooLarge,
    ManifestUnopenable,
    ManifestUnreadable,
    ManifestMalformed,
    TooManyClips,
    BadId,
    BadLabel,
    BadPath,
    BadFile,
}

impl CatalogueError {
    pub open spec fn text(self) -> Seq<char> {
        match self {
            CatalogueError::NotLocal => "soundboard directory must be local"@,
            CatalogueError::RootUnopenable => "soundboard directory could not be opened"@,
            CatalogueError::RootNotDirectory => "soundboard directory is not a directory"@,
            CatalogueError::ManifestNotRegular =>
            "soundboard catalogue must be a regular local file"@,
            CatalogueError::ManifestTooLarge => "soundboard catalogue exceeds 64 KiB"@,
            CatalogueError::ManifestUnopenable => "soundboard catalogue could not be opened"@,
            CatalogueError::ManifestUnreadable =>
            "soundboard catalogue could not be read within 64 KiB"@,
            CatalogueError::ManifestMalformed =>
            "soundboard catalogue must contain valid clips JSON"@,
            CatalogueError::TooManyClips => "soundboard catalogue may contain at most 128 clips"@,
            CatalogueError::BadId =>
            "soundboard clip IDs must be unique, using 1-32 letters, digits, underscores or hyphens"@,
            CatalogueError::BadLabel =>
            "soundboard clip labels must contain 1-60 printable characters"@,
            CatalogueError::BadPath => "soundboard catalogue contains an invalid local clip path"@,
            CatalogueError::BadFile =>
            "soundboard clips must be regular files inside its directory, at most 20 MiB each"@,
        }
    }

    pub fn message(self) -> (r: &'static str)
        ensures
            r@ == self.text(),
    {
        match self {
            CatalogueError::NotLocal => "soundboard directory must be local",
            CatalogueError::RootUnopenable => "soundboard directory could not be opened",
            CatalogueError::RootNotDirectory => "soundboard directory is not a directory",
            CatalogueError::ManifestNotRegular =>
            "soundboard catalogue must be a regular local file",
            CatalogueError::ManifestTooLarge => "soundboard catalogue exceeds 64 KiB",
            CatalogueError::ManifestUnopenable => "soundboard catalogue could not be opened",
            CatalogueError::ManifestUnreadable =>
            "soundboard catalogue could not be read within 64 KiB",
            CatalogueError::ManifestMalformed =>
            "soundboard catalogue must contain valid clips JSON",
            CatalogueError::TooManyClips => "soundboard catalogue may contain at most 128 clips",
            CatalogueError::BadId =>
            "soundboard clip IDs must be unique, using 1-32 letters, digits, underscores or hyphens",
            CatalogueError::BadLabel =>
            "soundboard clip labels must contain 1-60 printable characters",
            CatalogueError::BadPath => "soundboard catalogue contains an invalid local clip path",
            CatalogueError::BadFile =>
            "soundboard clips must be regular files inside its directory, at most 20 MiB each",
        }
    }
}

/// Why a selected clip is not played.
#[derive(Clone, Copy, Debug, PartialEq, Eq, Structural)]
pub enum ClipError {
    Gone,
    Busy,
    FileUnavailable,
    DecoderUnavailable,
    DecodeFailed,
    TooLong,
    TimedOut,
}

impl ClipError {
    pub open spec fn text(self) -> Seq<char> {
        match self {
            ClipError::Gone =>
            "That sound is no longer in the catalogue. Open /soundboard again."@,
            ClipError::Busy => "The soundboard is busy preparing clips. Try again in a moment."@,
            ClipError::FileUnavailable =>
            "That sound is unavailable. Ask the server owner to check its local audio file."@,
            ClipError::DecoderUnavailable =>
            "The soundboard decoder is unavailable. Ask the server owner to install ffmpeg."@,
            ClipError::DecodeFailed =>
            "That sound could not be decoded. Ask the server owner to check its audio file."@,
            ClipError::TooLong =>
            "Soundboard clips must be 15 seconds or shorter. Ask the server owner to shorten this clip."@,
            ClipError::TimedOut => "Preparing that sound took too long. Try a shorter audio file."@,
        }
    }

    pub fn message(self) -> (r: &'static str)
        ensures
            r@ == self.text(),
    {
        match self {
            ClipError::Gone => "That sound is no longer in the catalogue. Open /soundboard again.",
            ClipError::Busy => "The soundboard is busy preparing clips. Try again in a moment.",
            ClipError::FileUnavailable =>
            "That sound is unavailable. Ask the server owner to check its local audio file.",
            ClipError::DecoderUnavailable =>
            "The soundboard decoder is unavailable. Ask the server owner to install ffmpeg.",
            ClipError::DecodeFailed =>
            "That sound could not be decoded. Ask the server owner to check its audio file.",
            ClipError::TooLong =>
            "Soundboard clips must be 15 seconds or shorter. Ask the server owner to shorten this clip.",
            ClipError::TimedOut => "Preparing that sound took too long. Try a shorter audio file.",
        }
    }
}

/// A character of an id: an ASCII letter or digit, an underscore or a hyphen.
pub open spec fn is_id_char(c: char) -> bool {
    ('0' <= c <= '9') || ('a' <= c <= 'z') || ('A' <= c <= 'Z') || c == '_' || c == '-'
}

pub open spec fn is_valid_id(id: Seq<char>) -> bool {
    1 <= id.len() <= 32 && forall|i: int| 0 <= i < id.len() ==> is_id_char(#[trigger] id[i])
}

pub fn valid_id(id: &str) -> (r: bool)
    ensures
        r == is_valid_id(id@),
{
    let chars = to_chars(id);
    if chars.len() < 1 || chars.len() > 32 {
        return false;
    }
    let mut i: usize = 0;
    while i < chars.len()
        invariant
            chars@ == id@,
            i <= chars@.len(),
            forall|j: int| 0 <= j < i ==> is_id_char(#[trigger] chars@[j]),
        decreases chars@.len() - i,
    {
        let c = chars[i];
        if !(('0' <= c && c <= '9') || ('a' <= c && c <= 'z') || ('A' <= c && c <= 'Z') || c == '_'
            || c == '-') {
            return false;
        }
        i += 1;
    }
    true
}

pub open spec fn has_control(s: Seq<char>) -> bool {
    exists|i: int| 0 <= i < s.len() && crate::text::is_control(#[trigger] s[i])
}

/// A label that can be shown: after trimming, one to sixty characters, and no
/// control character anywhere.
pub open spec fn is_valid_label(label: Seq<char>) -> bool {
    1 <= crate::text::trimmed(label).len() <= 60 && !has_control(label)
}

/// Whether a text holds a control character.
fn controlled(text: &str) -> (r: bool)
    ensures
        r == has_control(text@),
{
    let chars = to_chars(text);
    let mut i: usize = 0;
    while i < chars.len()
        invariant
            chars@ == text@,
            i <= chars@.len(),
            forall|j: int| 0 <= j < i ==> !crate::text::is_control(#[trigger] chars@[j]),
        decreases chars@.len() - i,
    {
        if crate::text::control(chars[i]) {
            return true;
        }
        i += 1;
    }
    false
}

/// The label as it is shown, when it can be.
pub fn shown_label(label: &str) -> (r: Option<String>)
    ensures
        match r {
            Some(shown) => is_valid_label(label@) && shown@ == crate::text::trimmed(label@),
            None => !is_valid_label(label@),
        },
{
    let shown = trim(label);
    let n: usize = to_chars(shown.as_str()).len();
    if n < 1 || n > 60 || controlled(label) {
        None
    } else {
        Some(shown)
    }
}

/// A character that no path of a catalogue holds.
pub open spec fn is_path_special(c: char) -> bool {
    c == ':' || c == '*' || c == '?' || c == '"' || c == '<' || c == '>' || c == '|'
}

/// What a device name of Windows looks like from: the part before the first
/// dot, without spaces around it, in capitals.
pub open spec fn device_stem(part: Seq<char>) -> Seq<char> {
    crate::text::uppered_ascii(
        crate::text::unspaced_end(
            crate::text::unspaced_start(crate::text::before_first(part, '.')),
        ),
    )
}

/// The number of a serial or parallel port.
pub open spec fn is_port_number(s: Seq<char>) -> bool {
    s == "1"@ || s == "2"@ || s == "3"@ || s == "4"@ || s == "5"@ || s == "6"@ || s == "7"@ || s
        == "8"@ || s == "9"@ || s == "¹"@ || s == "²"@ || s == "³"@
}

/// What Windows takes for a device, whatever extension follows.
pub open spec fn is_device_name(part: Seq<char>) -> bool {
    let stem = device_stem(part);
    ||| stem == "CON"@
    ||| stem == "PRN"@
    ||| stem == "AUX"@
    ||| stem == "NUL"@
    ||| stem == "CONIN$"@
    ||| stem == "CONOUT$"@
    ||| (crate::text::starts_with(stem, "COM"@) || crate::text::starts_with(stem, "LPT"@))
        && is_port_number(stem.skip(3))
}

fn port_number(text: &str) -> (r: bool)
    ensures
        r == is_port_number(text@),
{
    same_text(text, "1") || same_text(text, "2") || same_text(text, "3") || same_text(text, "4")
        || same_text(text, "5") || same_text(text, "6") || same_text(text, "7") || same_text(
        text,
        "8",
    ) || same_text(text, "9") || same_text(text, "¹") || same_text(text, "²") || same_text(
        text,
        "³",
    )
}

pub fn windows_device_name(part: &str) -> (r: bool)
    ensures
        r == is_device_name(part@),
{
    let head = head_before(part, '.');
    let bare = trim_spaces(head.as_str());
    let stem = to_upper_ascii(bare.as_str());
    if same_text(stem.as_str(), "CON") || same_text(stem.as_str(), "PRN") || same_text(
        stem.as_str(),
        "AUX",
    ) || same_text(stem.as_str(), "NUL") || same_text(stem.as_str(), "CONIN$") || same_text(
        stem.as_str(),
        "CONOUT$",
    ) {
        return true;
    }
    proof {
        reveal_strlit("COM");
        reveal_strlit("LPT");
    }
    let suffix = match strip_prefix(stem.as_str(), "COM") {
        Some(suffix) => Some(suffix),
        None => strip_prefix(stem.as_str(), "LPT"),
    };
    proof {
        if suffix is Some {
            assert(stem@.skip(3) =~= suffix->0@);
            assert(stem@.subrange(0, 3) =~= "COM"@ || stem@.subrange(0, 3) =~= "LPT"@);
        }
    }
    match suffix {
        Some(suffix) => port_number(suffix.as_str()),
        None => false,
    }
}

/// A path component that means the same file on every host.
pub open spec fn is_plain_part(part: Seq<char>) -> bool {
    &&& part.len() > 0
    &&& part != "."@
    &&& part != ".."@
    &&& !crate::text::ends_with(part, "."@)
    &&& !crate::text::ends_with(part, " "@)
    &&& !is_device_name(part)
}

/// A path that a catalogue may name. Both separator conventions are validated
/// on every host, so that a catalogue looked over on one cannot become a drive,
/// network or stream path on another.
pub open spec fn is_relative_file(value: Seq<char>) -> bool {
    let parts = crate::text::path_parts(value);
    &&& value.len() > 0
    &&& vstd::utf8::encode_utf8(value).len() <= 512
    &&& !has_control(value)
    &&& forall|i: int| 0 <= i < value.len() ==> !is_path_special(#[trigger] value[i])
    &&& forall|i: int| 0 <= i < parts.len() ==> is_plain_part(#[trigger] parts[i])
}

/// Whether a text holds a character that no path of a catalogue holds.
fn path_special(text: &str) -> (r: bool)
    ensures
        r == (exists|i: int| 0 <= i < text@.len() && is_path_special(#[trigger] text@[i])),
{
    let chars = to_chars(text);
    let mut i: usize = 0;
    while i < chars.len()
        invariant
            chars@ == text@,
            i <= chars@.len(),
            forall|j: int| 0 <= j < i ==> !is_path_special(#[trigger] chars@[j]),
        decreases chars@.len() - i,
    {
        let c = chars[i];
        if c == ':' || c == '*' || c == '?' || c == '"' || c == '<' || c == '>' || c == '|' {
            return true;
        }
        i += 1;
    }
    false
}

/// The path below the soundboard's directory, with `/` between its
/// components; none for a path that a catalogue may not name.
pub fn relative_file(value: &str) -> (r: Option<String>)
    ensures
        match r {
            Some(path) => is_relative_file(value@) && path@ == crate::text::separated(
                crate::text::path_parts(value@),
                "/"@,
            ),
            None => !is_relative_file(value@),
        },
{
    let chars = to_chars(value);
    if chars.len() == 0 || value.as_bytes().len() > 512 || controlled(value) || path_special(
        value,
    ) {
        return None;
    }
    let parts = split_path(value);
    let mut i: usize = 0;
    while i < parts.len()
        invariant
            i <= parts@.len(),
            crate::text::texts(parts@) == crate::text::path_parts(value@),
            forall|j: int|
                0 <= j < i ==> is_plain_part(#[trigger] crate::text::path_parts(value@)[j]),
        decreases parts@.len() - i,
    {
        let part = parts[i].as_str();
        assert(crate::text::path_parts(value@)[i as int] == part@);
        if to_chars(part).len() == 0 || same_text(part, ".") || same_text(part, "..") || has_suffix(
            part,
            ".",
        ) || has_suffix(part, " ") || windows_device_name(part) {
            return None;
        }
        i += 1;
    }
    Some(separate(&parts, "/"))
}

/// A directory on another host. Windows tells it by the path's prefix: only a
/// drive is local.
pub fn network_root(host: Host, root: &str) -> (r: bool)
    ensures
        r == is_network_root(host, root@),
{
    match host {
        Host::Windows => crate::path::is_away(root),
        Host::Unix => crate::text::has_prefix(root, "//") || crate::text::has_prefix(
            root,
            "\\\\",
        ),
    }
}

pub open spec fn is_network_root(host: Host, root: Seq<char>) -> bool {
    match host {
        Host::Windows => crate::path::leads_away(root),
        Host::Unix => crate::text::starts_with(root, "//"@) || crate::text::starts_with(
            root,
            "\\\\"@,
        ),
    }
}

/// What a file in the soundboard's directory has to be, once its path has been
/// found free of links: inside that directory, regular, and no larger than
/// the limit.
pub fn usable_file(inside: bool, regular: bool, len: u64, limit: usize) -> (r: bool)
    ensures
        r == (inside && regular && len <= limit),
{
    inside && regular && len <= limit as u64
}

/// Whether what was read, up to one byte more than the limit, is within it.
pub fn within_cap(bytes: &Vec<u8>, limit: usize) -> (r: bool)
    ensures
        r == (bytes@.len() <= limit),
{
    bytes.len() <= limit
}

/// A clip as the catalogue file lists it.
#[derive(Debug)]
pub struct ManifestClip {
    pub id: String,
    pub label: String,
    pub file: String,
}

/// A clip that can be selected.
#[derive(Clone, Debug)]
pub struct Clip {
    pub id: String,
    pub label: String,
    /// The path below the soundboard's directory.
    pub file: String,
}

impl Clip {
    /// This is the clip that the catalogue file lists as `listed`.
    pub open spec fn stands_for(&self, listed: ManifestClip) -> bool {
        &&& self.id == listed.id
        &&& self.label@ == crate::text::trimmed(listed.label@)
        &&& self.file@ == clip_path(listed)
    }
}

/// What is wrong with the `i`th clip of a catalogue, by its text alone.
pub open spec fn clip_flaw(clips: Seq<ManifestClip>, i: int) -> Option<CatalogueError> {
    if !is_valid_id(clips[i].id@) || exists|j: int|
        0 <= j < i && (#[trigger] clips[j]).id@ == clips[i].id@ {
        Some(CatalogueError::BadId)
    } else if !is_valid_label(clips[i].label@) {
        Some(CatalogueError::BadLabel)
    } else if !is_relative_file(clips[i].file@) {
        Some(CatalogueError::BadPath)
    } else {
        None
    }
}

/// What was found of a soundboard on disk.
pub enum Found {
    /// The directory is not there.
    NoRoot,
    RootUnopenable,
    RootNotDirectory,
    /// The directory, by its canonical path, without a catalogue.
    NoManifest { root: String },
    ManifestNotRegular,
    ManifestTooLarge,
    ManifestUnopenable,
    ManifestUnreadable,
    ManifestMalformed,
    Manifest { root: String, clips: Vec<ManifestClip> },
}

#[derive(Debug)]
pub struct Catalogue {
    pub root: String,
    pub clips: Vec<Clip>,
}

/// The path of a listed clip below the soundboard's directory.
pub open spec fn clip_path(clip: ManifestClip) -> Seq<char> {
    crate::text::separated(crate::text::path_parts(clip.file@), "/"@)
}

/// What comes of a list of clips when `usable` looks at their files: all of
/// them, in order, or what is wrong with the first that is wrong.
pub open spec fn listing_gives<F: Fn(&String) -> bool>(
    clips: Seq<ManifestClip>,
    usable: F,
    r: Result<Seq<Clip>, CatalogueError>,
) -> bool {
    match r {
        Ok(kept) => {
            &&& clips.len() <= MAX_CLIPS
            &&& kept.len() == clips.len()
            &&& forall|i: int|
                #![trigger kept[i]]
                #![trigger clip_flaw(clips, i)]
                0 <= i < clips.len() ==> clip_flaw(clips, i) is None && kept[i].stands_for(
                    clips[i],
                ) && call_ensures(usable, (&kept[i].file,), true)
        },
        Err(e) => {
            ||| clips.len() > MAX_CLIPS && e == CatalogueError::TooManyClips
            ||| clips.len() <= MAX_CLIPS && exists|i: int| #[trigger]
                first_wrong(clips, usable, i, e)
        },
    }
}

/// `usable` said this of the file of a listed clip.
pub open spec fn file_found<F: Fn(&String) -> bool>(
    clip: ManifestClip,
    usable: F,
    found: bool,
) -> bool {
    exists|path: String|
        path@ == clip_path(clip) && #[trigger] call_ensures(usable, (&path,), found)
}

/// Clip `i` is wrong, by its text or else by its file, and none before it is.
pub open spec fn first_wrong<F: Fn(&String) -> bool>(
    clips: Seq<ManifestClip>,
    usable: F,
    i: int,
    e: CatalogueError,
) -> bool {
    &&& 0 <= i < clips.len()
    &&& forall|j: int|
        0 <= j < i ==> #[trigger] clip_flaw(clips, j) is None && file_found(clips[j], usable, true)
    &&& match clip_flaw(clips, i) {
        Some(flaw) => e == flaw,
        None => e == CatalogueError::BadFile && file_found(clips[i], usable, false),
    }
}

/// The clips of a catalogue, from what was found of each clip's file.
#[verifier::loop_isolation(false)]
fn checked_clips<F: Fn(&String) -> bool>(clips: Vec<ManifestClip>, usable: F) -> (r: Result<
    Vec<Clip>,
    CatalogueError,
>)
    requires
        forall|path: &String| #[trigger] call_requires(usable, (path,)),
    ensures
        listing_gives(
            clips@,
            usable,
            (match r {
                Ok(kept) => Ok(kept@),
                Err(e) => Err(e),
            }),
        ),
{
    if clips.len() > MAX_CLIPS {
        return Err(CatalogueError::TooManyClips);
    }
    let mut kept: Vec<Clip> = Vec::new();
    let mut i: usize = 0;
    while i < clips.len()
        invariant
            i <= clips@.len() <= MAX_CLIPS,
            kept@.len() == i,
            forall|j: int|
                #![trigger kept@[j]]
                #![trigger clip_flaw(clips@, j)]
                0 <= j < i ==> clip_flaw(clips@, j) is None && kept@[j].stands_for(clips@[j])
                    && call_ensures(usable, (&kept@[j].file,), true) && file_found(
                    clips@[j],
                    usable,
                    true,
                ),
        decreases clips@.len() - i,
    {
        let clip = &clips[i];
        if !valid_id(clip.id.as_str()) {
            assert(first_wrong(clips@, usable, i as int, CatalogueError::BadId));
            return Err(CatalogueError::BadId);
        }
        let mut k: usize = 0;
        while k < i
            invariant
                k <= i < clips@.len(),
                forall|j: int| 0 <= j < k ==> (#[trigger] clips@[j]).id@ != clip.id@,
            decreases i - k,
        {
            if clips[k].id == clip.id {
                assert(clips@[k as int].id@ == clips@[i as int].id@);
                assert(first_wrong(clips@, usable, i as int, CatalogueError::BadId));
                return Err(CatalogueError::BadId);
            }
            k += 1;
        }
        let label = match shown_label(clip.label.as_str()) {
            Some(label) => label,
            None => {
                assert(first_wrong(clips@, usable, i as int, CatalogueError::BadLabel));
                return Err(CatalogueError::BadLabel);
            },
        };
        let file = match relative_file(clip.file.as_str()) {
            Some(file) => file,
            None => {
                assert(first_wrong(clips@, usable, i as int, CatalogueError::BadPath));
                return Err(CatalogueError::BadPath);
            },
        };
        assert(clip_flaw(clips@, i as int) is None);
        let found = usable(&file);
        if !found {
            assert(call_ensures(usable, (&file,), false));
            assert(first_wrong(clips@, usable, i as int, CatalogueError::BadFile));
            return Err(CatalogueError::BadFile);
        }
        kept.push(Clip { id: clip.id.clone(), label, file });
        i += 1;
    }
    Ok(kept)
}

impl Catalogue {
    /// The catalogue of a soundboard, from what was found of it on disk and of
    /// each clip's file. An absent catalogue is an empty soundboard; a present
    /// but invalid one is a configuration error.
    pub fn load<F: Fn(&String) -> bool>(
        host: Host,
        root: String,
        found: Found,
        usable: F,
    ) -> (r: Result<Catalogue, CatalogueError>)
        requires
            forall|path: &String| #[trigger] call_requires(usable, (path,)),
        ensures
            is_network_root(host, root@) ==> r == Err::<Catalogue, _>(CatalogueError::NotLocal),
            !is_network_root(host, root@) ==> match found {
                Found::NoRoot => r matches Ok(c) && c.root == root && c.clips@.len() == 0,
                Found::RootUnopenable => r == Err::<Catalogue, _>(CatalogueError::RootUnopenable),
                Found::RootNotDirectory => r == Err::<Catalogue, _>(
                    CatalogueError::RootNotDirectory,
                ),
                Found::NoManifest { root } => r matches Ok(c) && c.root == root && c.clips@.len()
                    == 0,
                Found::ManifestNotRegular => r == Err::<Catalogue, _>(
                    CatalogueError::ManifestNotRegular,
                ),
                Found::ManifestTooLarge => r == Err::<Catalogue, _>(
                    CatalogueError::ManifestTooLarge,
                ),
                Found::ManifestUnopenable => r == Err::<Catalogue, _>(
                    CatalogueError::ManifestUnopenable,
                ),
                Found::ManifestUnreadable => r == Err::<Catalogue, _>(
                    CatalogueError::ManifestUnreadable,
                ),
                Found::ManifestMalformed => r == Err::<Catalogue, _>(
                    CatalogueError::ManifestMalformed,
                ),
                Found::Manifest { root, clips } => {
                    &&& listing_gives(
                        clips@,
                        usable,
                        (match r {
                            Ok(c) => Ok(c.clips@),
                            Err(e) => Err(e),
                        }),
                    )
                    &&& r matches Ok(c) ==> c.root == root
                },
            },
    {
        if network_root(host, root.as_str()) {
            return Err(CatalogueError::NotLocal);
        }
        match found {
            Found::NoRoot => Ok(Catalogue { root, clips: Vec::new() }),
            Found::RootUnopenable => Err(CatalogueError::RootUnopenable),
            Found::RootNotDirectory => Err(CatalogueError::RootNotDirectory),
            Found::NoManifest { root } => Ok(Catalogue { root, clips: Vec::new() }),
            Found::ManifestNotRegular => Err(CatalogueError::ManifestNotRegular),
            Found::ManifestTooLarge => Err(CatalogueError::ManifestTooLarge),
            Found::ManifestUnopenable => Err(CatalogueError::ManifestUnopenable),
            Found::ManifestUnreadable => Err(CatalogueError::ManifestUnreadable),
            Found::ManifestMalformed => Err(CatalogueError::ManifestMalformed),
            Found::Manifest { root, clips } => match checked_clips(clips, usable) {
                Ok(kept) => Ok(Catalogue { root, clips: kept }),
                Err(e) => Err(e),
            },
        }
    }

    pub fn clips(&self) -> (r: &[Clip])
        ensures
            r@ == self.clips@,
    {
        self.clips.as_slice()
    }

    /// `r` is the first clip of this id, or that there is none.
    pub open spec fn finds(&self, id: Seq<char>, r: Result<usize, ClipError>) -> bool {
        match r {
            Ok(i) => i < self.clips@.len() && self.clips@[i as int].id@ == id && forall|j: int|
                0 <= j < i ==> (#[trigger] self.clips@[j]).id@ != id,
            Err(e) => e == ClipError::Gone && forall|j: int|
                0 <= j < self.clips@.len() ==> (#[trigger] self.clips@[j]).id@ != id,
        }
    }

    /// The clip of this id.
    pub fn find(&self, id: &str) -> (r: Result<usize, ClipError>)
        ensures
            self.finds(id@, r),
    {
        let mut i: usize = 0;
        while i < self.clips.len()
            invariant
                i <= self.clips@.len(),
                forall|j: int| 0 <= j < i ==> (#[trigger] self.clips@[j]).id@ != id@,
            decreases self.clips@.len() - i,
        {
            if same_text(self.clips[i].id.as_str(), id) {
                return Ok(i);
            }
            i += 1;
        }
        Err(ClipError::Gone)
    }
}

/// A little-endian single-precision sample is a number: its exponent is not
/// all ones.
pub open spec fn finite_sample(pcm: Seq<u8>, at: int) -> bool {
    !(pcm[at + 3] % 128 == 127 && pcm[at + 2] >= 128)
}

/// Whole stereo frames of finite samples, at least one and no more than
/// fifteen seconds of them.
pub open spec fn is_valid_pcm(pcm: Seq<u8>) -> bool {
    &&& 0 < pcm.len() <= PCM_LIMIT
    &&& pcm.len() % 8 == 0
    &&& forall|k: int| 0 <= k < pcm.len() / 4 ==> #[trigger] finite_sample(pcm, 4 * k)
}

pub fn valid_pcm(pcm: &[u8]) -> (r: bool)
    ensures
        r == is_valid_pcm(pcm@),
{
    if pcm.len() == 0 || pcm.len() > PCM_LIMIT || pcm.len() % 8 != 0 {
        return false;
    }
    let n: usize = pcm.len() / 4;
    let mut k: usize = 0;
    while k < n
        invariant
            k <= n,
            n == pcm@.len() / 4,
            pcm@.len() <= PCM_LIMIT,
            forall|j: int| 0 <= j < k ==> #[trigger] finite_sample(pcm@, 4 * j),
        decreases n - k,
    {
        let at: usize = 4 * k;
        if pcm[at + 3] % 128 == 127 && pcm[at + 2] >= 128 {
            assert(!finite_sample(pcm@, 4 * (k as int)));
            return false;
        }
        assert(finite_sample(pcm@, 4 * (k as int)));
        k += 1;
    }
    true
}

/// What a decoder's end amounts to: its samples, or why there are none.
pub fn decoded(success: bool, pcm: Vec<u8>) -> (r: Result<Vec<u8>, ClipError>)
    ensures
        r == (if success && pcm@.len() > PCM_LIMIT {
            Err::<Vec<u8>, _>(ClipError::TooLong)
        } else if !success || !is_valid_pcm(pcm@) {
            Err(ClipError::DecodeFailed)
        } else {
            Ok(pcm)
        }),
{
    if success && pcm.len() > PCM_LIMIT {
        return Err(ClipError::TooLong);
    }
    if !success || !valid_pcm(pcm.as_slice()) {
        return Err(ClipError::DecodeFailed);
    }
    Ok(pcm)
}

/// The decoder's arguments: standard input to stereo samples on standard
/// output, from the containers listed alone, opening nothing else.
pub fn decoder_args() -> (r: Vec<String>)
    ensures
        crate::text::texts(r@) == seq![
            "-nostdin"@,
            "-hide_banner"@,
            "-loglevel"@,
            "error"@,
            "-protocol_whitelist"@,
            "pipe"@,
            "-format_whitelist"@,
            "aac,aiff,flac,matroska,webm,mov,mp3,ogg,wav"@,
            "-probesize"@,
            "1048576"@,
            "-analyzeduration"@,
            "3000000"@,
            "-i"@,
            "pipe:0"@,
            "-map"@,
            "0:a:0"@,
            "-vn"@,
            "-sn"@,
            "-dn"@,
            "-t"@,
            "15.05"@,
            "-ac"@,
            "2"@,
            "-ar"@,
            "44100"@,
            "-c:a"@,
            "pcm_f32le"@,
            "-f"@,
            "f32le"@,
            "pipe:1"@,
        ],
{
    let mut args: Vec<String> = Vec::new();
    assert(crate::text::texts(args@) =~= Seq::empty());
    add_text(&mut args, "-nostdin");
    add_text(&mut args, "-hide_banner");
    add_text(&mut args, "-loglevel");
    add_text(&mut args, "error");
    add_text(&mut args, "-protocol_whitelist");
    add_text(&mut args, "pipe");
    add_text(&mut args, "-format_whitelist");
    add_text(&mut args, "aac,aiff,flac,matroska,webm,mov,mp3,ogg,wav");
    add_text(&mut args, "-probesize");
    add_text(&mut args, "1048576");
    add_text(&mut args, "-analyzeduration");
    add_text(&mut args, "3000000");
    add_text(&mut args, "-i");
    add_text(&mut args, "pipe:0");
    add_text(&mut args, "-map");
    add_text(&mut args, "0:a:0");
    add_text(&mut args, "-vn");
    add_text(&mut args, "-sn");
    add_text(&mut args, "-dn");
    add_text(&mut args, "-t");
    add_text(&mut args, "15.05");
    add_text(&mut args, "-ac");
    add_text(&mut args, "2");
    add_text(&mut args, "-ar");
    add_text(&mut args, "44100");
    add_text(&mut args, "-c:a");
    add_text(&mut args, "pcm_f32le");
    add_text(&mut args, "-f");
    add_text(&mut args, "f32le");
    add_text(&mut args, "pipe:1");
    args
}

/// A path that a catalogue may name stays below the directory it is joined
/// to: it is not absolute, no component goes up or stays, and none holds a
/// separator, a drive mark or a stream mark.
pub proof fn law_catalogue_paths_stay_inside(value: Seq<char>)
    requires
        is_relative_file(value),
    ensures
        !crate::text::is_slash(value[0]),
        forall|i: int|
            0 <= i < crate::text::path_parts(value).len() ==> {
                let part = #[trigger] crate::text::path_parts(value)[i];
                part.len() > 0 && part != "."@ && part != ".."@
            },
        forall|i: int| 0 <= i < value.len() ==> #[trigger] value[i] != ':',
{
    if crate::text::is_slash(value[0]) {
        assert(crate::text::first_slash(value) == 0);
        assert(crate::text::path_parts(value)[0] == value.take(0));
        assert(is_plain_part(crate::text::path_parts(value)[0]));
    }
    assert forall|i: int| 0 <= i < value.len() implies #[trigger] value[i] != ':' by {
        assert(!is_path_special(value[i]));
    }
    assert forall|i: int| 0 <= i < crate::text::path_parts(value).len() implies ({
        let part = #[trigger] crate::text::path_parts(value)[i];
        part.len() > 0 && part != "."@ && part != ".."@
    }) by {
        assert(is_plain_part(crate::text::path_parts(value)[i]));
    }
}

/// No two clips of a catalogue can be confused: ids are unique.
pub proof fn law_clip_ids_are_unique(clips: Seq<ManifestClip>, i: int, j: int)
    requires
        0 <= i < j < clips.len(),
        forall|k: int| 0 <= k < clips.len() ==> #[trigger] clip_flaw(clips, k) is None,
    ensures
        clips[i].id@ != clips[j].id@,
{
    assert(clip_flaw(clips, j) is None);
}

/// An id of one character is valid exactly if that is an ASCII letter of either
/// case, a digit, an underscore or a hyphen; and two texts make a valid id
/// exactly if both are valid and together no longer than thirty-two.
pub proof fn law_ids_are_made_of_letters_and_digits(c: char, a: Seq<char>, b: Seq<char>)
    requires
        a.len() > 0,
        b.len() > 0,
    ensures
        is_valid_id(seq![c]) <==> ('a' <= c <= 'z') || ('A' <= c <= 'Z') || ('0' <= c <= '9') || c
            == '_' || c == '-',
        is_valid_id(a + b) <==> a.len() + b.len() <= 32 && is_valid_id(a) && is_valid_id(b),
        !is_valid_id(Seq::empty()),
{
    if is_valid_id(seq![c]) {
        assert(is_id_char(seq![c][0]));
    }
    let all = a + b;
    if is_valid_id(all) {
        assert forall|i: int| 0 <= i < a.len() implies is_id_char(#[trigger] a[i]) by {
            assert(all[i] == a[i]);
        }
        assert forall|i: int| 0 <= i < b.len() implies is_id_char(#[trigger] b[i]) by {
            assert(all[a.len() + i] == b[i]);
        }
    }
}

/// The same, of what `valid_id` answers.
pub proof fn law_valid_ids_are_told(id: &str, r: bool)
    requires
        call_ensures(valid_id, (id,), r),
    ensures
        r <==> 1 <= id@.len() <= 32 && forall|i: int|
            0 <= i < id@.len() ==> {
                let c = #[trigger] id@[i];
                ('a' <= c <= 'z') || ('A' <= c <= 'Z') || ('0' <= c <= '9') || c == '_' || c
                    == '-'
            },
{
    if r {
        assert forall|i: int| 0 <= i < id@.len() implies ({
            let c = #[trigger] id@[i];
            ('a' <= c <= 'z') || ('A' <= c <= 'Z') || ('0' <= c <= '9') || c == '_' || c == '-'
        }) by {
            assert(is_id_char(id@[i]));
        }
    }
}

/// A label is shown without the space around it, if that leaves one to sixty
/// characters and no control character was in it.
pub proof fn law_labels_are_shown_trimmed(label: &str, r: Option<String>)
    requires
        call_ensures(shown_label, (label,), r),
    ensures
        ({
            let shown = crate::text::trimmed(label@);
            let clean = forall|i: int|
                0 <= i < label@.len() ==> !crate::text::is_control(#[trigger] label@[i]);
            &&& r is Some <==> 0 < shown.len() <= 60 && clean
            &&& r matches Some(text) ==> text@ == shown
        }),
{
}

/// A name without dots and spaces is a device's exactly if Windows knows it as
/// one, whatever its case; a name of other letters is not.
pub proof fn law_device_names(part: &str, r: bool)
    requires
        forall|i: int| 0 <= i < part@.len() ==> #[trigger] part@[i] != '.' && part@[i] != ' ',
        call_ensures(windows_device_name, (part,), r),
    ensures
        ({
            let up = crate::text::uppered_ascii(part@);
            r <==> {
                ||| up == "CON"@
                ||| up == "PRN"@
                ||| up == "AUX"@
                ||| up == "NUL"@
                ||| up == "CONIN$"@
                ||| up == "CONOUT$"@
                ||| up.len() == 4 && (up.take(3) == "COM"@ || up.take(3) == "LPT"@) && (('1'
                    <= up[3] <= '9') || up[3] == '¹' || up[3] == '²' || up[3] == '³')
            }
        }),
{
    let s = part@;
    let up = crate::text::uppered_ascii(s);
    crate::text::law_marks_divide_a_text(Seq::empty(), '.', s);
    if s.len() > 0 {
        assert(s[0] != ' ');
        assert(s[s.len() - 1] != ' ');
    }
    assert(device_stem(s) == up);
    reveal_strlit("COM");
    reveal_strlit("LPT");
    reveal_strlit("1");
    reveal_strlit("2");
    reveal_strlit("3");
    reveal_strlit("4");
    reveal_strlit("5");
    reveal_strlit("6");
    reveal_strlit("7");
    reveal_strlit("8");
    reveal_strlit("9");
    reveal_strlit("¹");
    reveal_strlit("²");
    reveal_strlit("³");
    if up.len() >= 3 {
        assert(up.subrange(0, 3) =~= up.take(3));
    }
    let tail = up.skip(3);
    lemma_one_character(tail, "1"@, '1');
    lemma_one_character(tail, "2"@, '2');
    lemma_one_character(tail, "3"@, '3');
    lemma_one_character(tail, "4"@, '4');
    lemma_one_character(tail, "5"@, '5');
    lemma_one_character(tail, "6"@, '6');
    lemma_one_character(tail, "7"@, '7');
    lemma_one_character(tail, "8"@, '8');
    lemma_one_character(tail, "9"@, '9');
    lemma_one_character(tail, "¹"@, '¹');
    lemma_one_character(tail, "²"@, '²');
    lemma_one_character(tail, "³"@, '³');
    if up.len() == 4 {
        assert(tail[0] == up[3]);
        let c = up[3];
        if '1' <= c <= '9' {
            assert(c == '1' || c == '2' || c == '3' || c == '4' || c == '5' || c == '6' || c == '7'
                || c == '8' || c == '9');
        }
    }
    if up.len() < 3 {
        assert(!crate::text::starts_with(up, "COM"@));
        assert(!crate::text::starts_with(up, "LPT"@));
    } else {
        assert(crate::text::starts_with(up, "COM"@) <==> up.take(3) == "COM"@);
        assert(crate::text::starts_with(up, "LPT"@) <==> up.take(3) == "LPT"@);
    }
}

/// A text is one of a single character exactly if it has that character alone.
proof fn lemma_one_character(s: Seq<char>, text: Seq<char>, c: char)
    requires
        text.len() == 1,
        text[0] == c,
    ensures
        s == text <==> s.len() == 1 && s[0] == c,
{
    if s.len() == 1 && s[0] == c {
        assert(s =~= text);
    }
}

/// Two paths joined by either separator make a path that a catalogue may name
/// exactly if both are such paths and the whole is not too long.
pub proof fn law_paths_are_made_of_paths(a: Seq<char>, sep: char, b: Seq<char>)
    requires
        sep == '/' || sep == '\\',
    ensures
        ({
            let whole = a.push(sep) + b;
            let short = vstd::utf8::encode_utf8(whole).len() <= 512;
            is_relative_file(whole) ==> short && forall|i: int|
                0 <= i < crate::text::path_parts(a).len() ==> is_plain_part(
                    #[trigger] crate::text::path_parts(a)[i],
                )
        }),
        ({
            let whole = a.push(sep) + b;
            let short = vstd::utf8::encode_utf8(whole).len() <= 512;
            short && is_relative_file(a) && is_relative_file(b) ==> is_relative_file(whole)
        }),
{
    let whole = a.push(sep) + b;
    let n = a.len() as int;
    crate::text::lemma_parts_at(whole, n);
    assert(whole.take(n) =~= a);
    assert(whole.skip(n + 1) =~= b);
    let parts = crate::text::path_parts(whole);
    let front = crate::text::path_parts(a);
    let back = crate::text::path_parts(b);
    if is_relative_file(whole) {
        assert forall|i: int| 0 <= i < front.len() implies is_plain_part(#[trigger] front[i]) by {
            assert(parts[i] == front[i]);
        }
    }
    if is_relative_file(a) && is_relative_file(b) {
        assert forall|i: int| 0 <= i < parts.len() implies is_plain_part(#[trigger] parts[i]) by {
            if i < front.len() {
                assert(parts[i] == front[i]);
            } else {
                assert(parts[i] == back[i - front.len()]);
            }
        }
        assert forall|i: int| 0 <= i < whole.len() implies !is_path_special(
            #[trigger] whole[i],
        ) && !crate::text::is_control(whole[i]) by {
            if i < n {
                assert(whole[i] == a[i]);
                assert(!is_path_special(a[i]));
            } else if i > n {
                assert(whole[i] == b[i - n - 1]);
                assert(!is_path_special(b[i - n - 1]));
            }
        }
    }
}

/// A single name is a path that a catalogue may name exactly if it is no longer
/// than 512 bytes, holds no control character and none that Windows gives a
/// meaning, does not end in a dot or a space, and is no device.
pub proof fn law_a_single_name_is_a_path(name: &str, r: Option<String>)
    requires
        forall|i: int| 0 <= i < name@.len() ==> #[trigger] name@[i] != '/' && name@[i] != '\\',
        call_ensures(relative_file, (name,), r),
    ensures
        ({
            let fit = forall|i: int|
                0 <= i < name@.len() ==> {
                    let c = #[trigger] name@[i];
                    !crate::text::is_control(c) && c != ':' && c != '*' && c != '?' && c != '"'
                        && c != '<' && c != '>' && c != '|'
                };
            &&& r is Some <==> {
                &&& name@.len() > 0
                &&& vstd::utf8::encode_utf8(name@).len() <= 512
                &&& fit
                &&& name@.last() != '.' && name@.last() != ' '
                &&& !is_device_name(name@)
            }
            &&& r matches Some(text) ==> text@ == name@
        }),
{
    let s = name@;
    crate::text::lemma_one_part(s);
    let parts = crate::text::path_parts(s);
    assert(parts =~= seq![s]);
    reveal_strlit(".");
    reveal_strlit("..");
    reveal_strlit(" ");
    if s.len() > 0 {
        let last = s.subrange(s.len() - 1, s.len() as int);
        assert(last =~= seq![s.last()]);
        assert(crate::text::ends_with(s, "."@) <==> s.last() == '.') by {
            if s.last() == '.' {
                assert(last =~= "."@);
            } else {
                assert(last[0] != "."@[0]);
            }
        }
        assert(crate::text::ends_with(s, " "@) <==> s.last() == ' ') by {
            if s.last() == ' ' {
                assert(last =~= " "@);
            } else {
                assert(last[0] != " "@[0]);
            }
        }
        if s == "."@ || s == ".."@ {
            assert(s.last() == '.');
        }
    }
    assert(is_plain_part(parts[0]) == is_plain_part(s));
    if is_relative_file(s) {
        assert(is_plain_part(parts[0]));
        assert forall|i: int| 0 <= i < s.len() implies ({
            let c = #[trigger] s[i];
            !crate::text::is_control(c) && c != ':' && c != '*' && c != '?' && c != '"' && c
                != '<' && c != '>' && c != '|'
        }) by {
            assert(!is_path_special(s[i]));
        }
    }
    crate::text::law_lists_are_separated(Seq::empty(), s, "/"@);
}

/// Samples are stereo frames of eight bytes, up to fifteen seconds at 44,100 a
/// second: two runs of them make one exactly if both are such runs and together
/// not too long.
pub proof fn law_frames_follow_frames(a: Seq<u8>, b: Seq<u8>)
    requires
        a.len() > 0,
        b.len() > 0,
        a.len() % 8 == 0,
    ensures
        is_valid_pcm(a + b) <==> a.len() + b.len() <= 15 * 44_100 * 8 && is_valid_pcm(a)
            && is_valid_pcm(b),
{
    let all = a + b;
    let n = (a.len() / 4) as int;
    assert(4 * n == a.len());
    if is_valid_pcm(all) {
        assert forall|k: int| 0 <= k < a.len() / 4 implies #[trigger] finite_sample(a, 4 * k) by {
            assert(finite_sample(all, 4 * k));
        }
        assert forall|k: int| 0 <= k < b.len() / 4 implies #[trigger] finite_sample(b, 4 * k) by {
            assert(finite_sample(all, 4 * (k + n)));
        }
    }
    if a.len() + b.len() <= 15 * 44_100 * 8 && is_valid_pcm(a) && is_valid_pcm(b) {
        assert forall|k: int| 0 <= k < all.len() / 4 implies #[trigger] finite_sample(
            all,
            4 * k,
        ) by {
            if k < n {
                assert(finite_sample(a, 4 * k));
            } else {
                assert(finite_sample(b, 4 * (k - n)));
            }
        }
    }
}

/// One frame is valid exactly if neither of its samples is infinite or no
/// number: the exponent of neither is all ones.
pub proof fn law_one_frame(pcm: &[u8], r: bool)
    requires
        pcm@.len() == 8,
        call_ensures(valid_pcm, (pcm,), r),
    ensures
        r <==> !((pcm@[3] == 0x7f || pcm@[3] == 0xff) && pcm@[2] >= 0x80) && !((pcm@[7] == 0x7f
            || pcm@[7] == 0xff) && pcm@[6] >= 0x80),
{
    let s = pcm@;
    assert(s[3] % 128 == 127 <==> s[3] == 0x7f || s[3] == 0xff);
    assert(s[7] % 128 == 127 <==> s[7] == 0x7f || s[7] == 0xff);
    if is_valid_pcm(s) {
        assert(finite_sample(s, 4int * 0));
        assert(finite_sample(s, 4int * 1));
    } else {
        let k = choose|k: int| 0 <= k < s.len() / 4 && !(#[trigger] finite_sample(s, 4 * k));
        assert(k == 0 || k == 1);
    }
}

/// A clip is played only from a decoder that succeeded and gave valid samples,
/// and then from these; one that ran over fifteen seconds is told apart.
pub proof fn law_only_sound_samples_are_played(
    success: bool,
    pcm: Vec<u8>,
    r: Result<Vec<u8>, ClipError>,
)
    requires
        call_ensures(decoded, (success, pcm), r),
    ensures
        r is Ok <==> success && is_valid_pcm(pcm@),
        r matches Ok(samples) ==> samples == pcm,
        r == Err::<Vec<u8>, _>(ClipError::TooLong) <==> success && pcm@.len() > 15 * 44_100 * 8,
        r matches Err(e) ==> e is TooLong || e is DecodeFailed,
{
}

/// A file counts as a clip's exactly if it lies inside, is regular and is no
/// larger than the limit; what was read counts up to the limit.
pub proof fn law_files_are_bounded(
    inside: bool,
    regular: bool,
    len: u64,
    limit: usize,
    bytes: Vec<u8>,
    usable: bool,
    within: bool,
)
    requires
        call_ensures(usable_file, (inside, regular, len, limit), usable),
        call_ensures(within_cap, (&bytes, limit), within),
    ensures
        usable <==> inside && regular && len <= limit,
        within <==> bytes@.len() <= limit,
{
}

/// A catalogue that loads keeps every clip in order, each with its own id, its
/// label trimmed and its path below the directory, and holds 128 at most.
pub proof fn law_a_catalogue_keeps_its_clips<F: Fn(&String) -> bool>(
    clips: Seq<ManifestClip>,
    usable: F,
    r: Result<Seq<Clip>, CatalogueError>,
    i: int,
)
    requires
        listing_gives(clips, usable, r),
        0 <= i < clips.len(),
    ensures
        r matches Ok(kept) ==> {
            &&& clips.len() <= 128
            &&& kept.len() == clips.len()
            &&& kept[i].id == clips[i].id
            &&& kept[i].label@ == crate::text::trimmed(clips[i].label@)
            &&& kept[i].file@ == crate::text::separated(
                crate::text::path_parts(clips[i].file@),
                "/"@,
            )
            &&& is_valid_id(clips[i].id@)
            &&& 0 < kept[i].label@.len() <= 60
            &&& is_relative_file(clips[i].file@)
            &&& call_ensures(usable, (&kept[i].file,), true)
            &&& forall|j: int| 0 <= j < i ==> (#[trigger] clips[j]).id@ != clips[i].id@
        },
        clips.len() > 128 ==> r == Err::<Seq<Clip>, _>(CatalogueError::TooManyClips),
{
    if let Ok(kept) = r {
        assert(clip_flaw(clips, i) is None);
        assert(kept[i].stands_for(clips[i]));
    }
}

/// Every flaw of a catalogue is told in its own words.
pub proof fn law_catalogue_flaws_are_told(error: CatalogueError, text: &'static str)
    requires
        call_ensures(CatalogueError::message, (error,), text),
    ensures
        error is NotLocal ==> text@ == "soundboard directory must be local"@,
        error is RootUnopenable ==> text@ == "soundboard directory could not be opened"@,
        error is RootNotDirectory ==> text@ == "soundboard directory is not a directory"@,
        error is ManifestNotRegular ==> text@ == "soundboard catalogue must be a regular local file"@,
        error is ManifestTooLarge ==> text@ == "soundboard catalogue exceeds 64 KiB"@,
        error is ManifestUnopenable ==> text@ == "soundboard catalogue could not be opened"@,
        error is ManifestUnreadable ==> text@
            == "soundboard catalogue could not be read within 64 KiB"@,
        error is ManifestMalformed ==> text@ == "soundboard catalogue must contain valid clips JSON"@,
        error is TooManyClips ==> text@ == "soundboard catalogue may contain at most 128 clips"@,
        error is BadId ==> text@
            == "soundboard clip IDs must be unique, using 1-32 letters, digits, underscores or hyphens"@,
        error is BadLabel ==> text@
            == "soundboard clip labels must contain 1-60 printable characters"@,
        error is BadPath ==> text@ == "soundboard catalogue contains an invalid local clip path"@,
        error is BadFile ==> text@
            == "soundboard clips must be regular files inside its directory, at most 20 MiB each"@,
{
}

/// Every reason not to play a clip is told in its own words.
pub proof fn law_clip_failures_are_told(error: ClipError, text: &'static str)
    requires
        call_ensures(ClipError::message, (error,), text),
    ensures
        error is Gone ==> text@
            == "That sound is no longer in the catalogue. Open /soundboard again."@,
        error is Busy ==> text@
            == "The soundboard is busy preparing clips. Try again in a moment."@,
        error is FileUnavailable ==> text@
            == "That sound is unavailable. Ask the server owner to check its local audio file."@,
        error is DecoderUnavailable ==> text@
            == "The soundboard decoder is unavailable. Ask the server owner to install ffmpeg."@,
        error is DecodeFailed ==> text@
            == "That sound could not be decoded. Ask the server owner to check its audio file."@,
        error is TooLong ==> text@
            == "Soundboard clips must be 15 seconds or shorter. Ask the server owner to shorten this clip."@,
        error is TimedOut ==> text@
            == "Preparing that sound took too long. Try a shorter audio file."@,
{
}

/// The decoder reads its standard input alone, from the containers listed, and
/// gives a quarter of a minute of stereo samples at the disc's rate.
pub proof fn law_the_decoder_opens_nothing_else(args: Vec<String>)
    requires
        call_ensures(decoder_args, (), args),
    ensures
        crate::text::texts(args@) =~= seq![
            "-nostdin"@,
            "-hide_banner"@,
            "-loglevel"@,
            "error"@,
            "-protocol_whitelist"@,
            "pipe"@,
            "-format_whitelist"@,
            "aac,aiff,flac,matroska,webm,mov,mp3,ogg,wav"@,
            "-probesize"@,
            "1048576"@,
            "-analyzeduration"@,
            "3000000"@,
            "-i"@,
            "pipe:0"@,
            "-map"@,
            "0:a:0"@,
            "-vn"@,
            "-sn"@,
            "-dn"@,
            "-t"@,
            "15.05"@,
            "-ac"@,
            "2"@,
            "-ar"@,
            "44100"@,
            "-c:a"@,
            "pcm_f32le"@,
            "-f"@,
            "f32le"@,
            "pipe:1"@,
        ],
{
}

/// On Unix a directory behind two slashes of a kind is another host's; on
/// Windows one whose prefix leads away.
pub proof fn law_network_directories_are_told(host: Host, root: &str, rest: Seq<char>, r: bool)
    requires
        call_ensures(network_root, (host, root), r),
    ensures
        host is Windows ==> r == crate::path::leads_away(root@),
        host is Unix && root@ == seq!['/', '/'] + rest ==> r,
        host is Unix && root@ == seq!['\\', '\\'] + rest ==> r,
        host is Unix && !(root@.len() >= 2 && root@[0] == '/' && root@[1] == '/') && !(root@.len()
            >= 2 && root@[0] == '\\' && root@[1] == '\\') ==> !r,
{
    reveal_strlit("//");
    reveal_strlit("\\\\");
    if host is Unix {
        let two = seq!['/', '/'];
        let back = seq!['\\', '\\'];
        assert("//"@ =~= two);
        assert("\\\\"@ =~= back);
        if root@.len() >= 2 {
            assert(root@.subrange(0, 2)[0] == root@[0] && root@.subrange(0, 2)[1] == root@[1]);
            if root@[0] == '/' && root@[1] == '/' {
                assert(root@.subrange(0, 2) =~= two);
            }
            if root@[0] == '\\' && root@[1] == '\\' {
                assert(root@.subrange(0, 2) =~= back);
            }
        }
    }
}

/// A directory of another host is refused. Otherwise a missing directory or
/// catalogue is an empty soundboard, each flaw of either is its own error, and
/// a catalogue that was read gives what its clips give, under its own root.
pub proof fn law_a_soundboard_is_what_was_found<F: Fn(&String) -> bool>(
    host: Host,
    root: String,
    found: Found,
    usable: F,
    r: Result<Catalogue, CatalogueError>,
)
    requires
        call_ensures(Catalogue::load, (host, root, found, usable), r),
    ensures
        is_network_root(host, root@) ==> r == Err::<Catalogue, _>(CatalogueError::NotLocal),
        !is_network_root(host, root@) ==> {
            &&& found is NoRoot ==> (r matches Ok(c) && c.root == root && c.clips@.len() == 0)
            &&& found matches Found::NoManifest { root: at } ==> (r matches Ok(c) && c.root == at
                && c.clips@.len() == 0)
            &&& found is RootUnopenable ==> r == Err::<Catalogue, _>(CatalogueError::RootUnopenable)
            &&& found is RootNotDirectory ==> r == Err::<Catalogue, _>(
                CatalogueError::RootNotDirectory,
            )
            &&& found is ManifestNotRegular ==> r == Err::<Catalogue, _>(
                CatalogueError::ManifestNotRegular,
            )
            &&& found is ManifestTooLarge ==> r == Err::<Catalogue, _>(
                CatalogueError::ManifestTooLarge,
            )
            &&& found is ManifestUnopenable ==> r == Err::<Catalogue, _>(
                CatalogueError::ManifestUnopenable,
            )
            &&& found is ManifestUnreadable ==> r == Err::<Catalogue, _>(
                CatalogueError::ManifestUnreadable,
            )
            &&& found is ManifestMalformed ==> r == Err::<Catalogue, _>(
                CatalogueError::ManifestMalformed,
            )
            &&& found matches Found::Manifest { root: at, clips } ==> {
                &&& r matches Ok(c) ==> c.root == at && listing_gives(clips@, usable, Ok(c.clips@))
                &&& r matches Err(e) ==> listing_gives(clips@, usable, Err(e))
            }
        },
{
}

/// A clip is wrong by its id first, bad or taken; then by its label; then by
/// its path; and a catalogue by the first clip that is wrong, or whose file is
/// not usable, and nothing else.
pub proof fn law_the_first_wrong_clip_is_told<F: Fn(&String) -> bool>(
    clips: Seq<ManifestClip>,
    usable: F,
    e: CatalogueError,
    i: int,
)
    requires
        0 <= i < clips.len() <= 128,
    ensures
        ({
            let id = is_valid_id(clips[i].id@) && forall|j: int|
                0 <= j < i ==> (#[trigger] clips[j]).id@ != clips[i].id@;
            let label = is_valid_label(clips[i].label@);
            let path = is_relative_file(clips[i].file@);
            &&& !id ==> clip_flaw(clips, i) == Some(CatalogueError::BadId)
            &&& id && !label ==> clip_flaw(clips, i) == Some(CatalogueError::BadLabel)
            &&& id && label && !path ==> clip_flaw(clips, i) == Some(CatalogueError::BadPath)
            &&& id && label && path ==> clip_flaw(clips, i) is None
        }),
        listing_gives(clips, usable, Err(e)) ==> exists|k: int|
            {
                &&& 0 <= k < clips.len()
                &&& forall|j: int| 0 <= j < k ==> #[trigger] clip_flaw(clips, j) is None
                &&& (#[trigger] clip_flaw(clips, k)) == Some(e) || (clip_flaw(clips, k) is None && e
                    is BadFile)
            },
{
    if listing_gives(clips, usable, Err(e)) {
        let k = choose|k: int| #[trigger] first_wrong(clips, usable, k, e);
        assert(first_wrong(clips, usable, k, e));
        assert(clip_flaw(clips, k) == Some(e) || clip_flaw(clips, k) is None);
    }
}

/// A clip is found by its exact id, the first of its kind; one that is not
/// there is gone.
pub proof fn law_clips_are_found_by_id(
    catalogue: Catalogue,
    id: &str,
    r: Result<usize, ClipError>,
    all: &[Clip],
    i: int,
)
    requires
        call_ensures(Catalogue::find, (&catalogue, id), r),
        call_ensures(Catalogue::clips, (&catalogue,), all),
    ensures
        all@ == catalogue.clips@,
        r matches Ok(k) ==> k < catalogue.clips@.len() && catalogue.clips@[k as int].id@ == id@,
        r matches Err(e) ==> e is Gone,
        0 <= i < catalogue.clips@.len() && catalogue.clips@[i].id@ == id@ ==> (r matches Ok(k) && k
            <= i),
{
}

/// A device is one whatever follows the first dot of its name, and whatever
/// spaces stand around what is before it.
pub proof fn law_devices_hide_behind_extensions(
    before: Seq<char>,
    name: Seq<char>,
    after: Seq<char>,
    rest: Seq<char>,
)
    requires
        forall|i: int| 0 <= i < before.len() ==> #[trigger] before[i] == ' ',
        forall|i: int| 0 <= i < after.len() ==> #[trigger] after[i] == ' ',
        forall|i: int| 0 <= i < name.len() ==> #[trigger] name[i] != '.',
        name.len() > 0 ==> name[0] != ' ' && name.last() != ' ',
    ensures
        is_device_name(before + name + after) == is_device_name(name),
        is_device_name((before + name + after).push('.') + rest) == is_device_name(name),
{
    let all = before + name + after;
    assert forall|i: int| 0 <= i < all.len() implies #[trigger] all[i] != '.' by {
        if i < before.len() {
            assert(all[i] == before[i]);
        } else if i < before.len() + name.len() {
            assert(all[i] == name[i - before.len()]);
        } else {
            assert(all[i] == after[i - before.len() - name.len()]);
        }
    }
    crate::text::law_marks_divide_a_text(rest, '.', all);
    crate::text::law_marks_divide_a_text(rest, '.', name);
    assert(all.push('.') + rest =~= all + seq!['.'] + rest);
    crate::text::law_spaces_are_taken_off(before, name, after);
    crate::text::law_spaces_are_taken_off(Seq::empty(), name, Seq::empty());
    assert(Seq::<char>::empty() + name + Seq::<char>::empty() =~= name);
}

} // verus!
