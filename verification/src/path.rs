//! Paths as texts, read the way the host reads them.

use vstd::prelude::*;

use crate::text::{cat, cat3, same_text, split_path, sub_text, to_chars};

verus! {

/// What kind of host a path belongs to.
#[derive(Clone, Copy, Debug, PartialEq, Eq, Structural)]
pub enum Host {
    Unix,
    Windows,
}

impl Host {
    /// What stands between the components of a path.
    pub open spec fn separator(self) -> Seq<char> {
        match self {
            Host::Unix => "/"@,
            Host::Windows => "\\"@,
        }
    }
}

/// What a path on Windows can start with.
#[derive(Clone, Copy, Debug, PartialEq, Eq, Structural)]
pub enum PrefixKind {
    /// A drive, as in `C:`.
    Disk,
    /// A drive whose path is taken as it stands, as in `\\?\C:`.
    VerbatimDisk,
    /// Anything else whose path is taken as it stands, as in
    /// `\\?\UNC\server\share` or `\\?\name`.
    Verbatim,
    /// A share, as in `\\server\share`, or a device, as in `\\.\NUL`.
    Remote,
}

impl PrefixKind {
    /// The path behind it is taken as it stands: a slash is part of a name there.
    pub open spec fn verbatim(self) -> bool {
        self is VerbatimDisk || self is Verbatim
    }
}

/// A drive letter and its colon stand at `at`.
pub open spec fn drive_at(s: Seq<char>, at: int) -> bool {
    &&& 0 <= at && at + 2 <= s.len()
    &&& ('a' <= s[at] && s[at] <= 'z') || ('A' <= s[at] && s[at] <= 'Z')
    &&& s[at + 1] == ':'
}

/// What ends a component.
pub open spec fn ends_component(c: char, verbatim: bool) -> bool {
    c == '\\' || (!verbatim && c == '/')
}

/// Where the component that starts at `from` ends.
pub open spec fn component_end(s: Seq<char>, from: int, verbatim: bool) -> int
    decreases s.len() - from,
{
    if from >= s.len() {
        s.len() as int
    } else if ends_component(s[from], verbatim) {
        from
    } else {
        component_end(s, from + 1, verbatim)
    }
}

/// The prefix of a path on Windows, and where it ends.
pub open spec fn windows_prefix(s: Seq<char>) -> Option<(PrefixKind, int)> {
    if s.len() >= 2 && crate::text::is_slash(s[0]) && crate::text::is_slash(s[1]) {
        if s.len() >= 4 && s[0] == '\\' && s[1] == '\\' && s[2] == '?' && s[3] == '\\' {
            if s.len() >= 8 && s[4] == 'U' && s[5] == 'N' && s[6] == 'C' && crate::text::is_slash(
                s[7],
            ) {
                let server = component_end(s, 8, true);
                let share = component_end(s, server + 1, true);
                Some(
                    (
                        PrefixKind::Verbatim,
                        if share > server + 1 {
                            share
                        } else {
                            server
                        },
                    ),
                )
            } else if drive_at(s, 4) && (s.len() == 6 || crate::text::is_slash(s[6])) {
                Some((PrefixKind::VerbatimDisk, 6))
            } else {
                Some((PrefixKind::Verbatim, component_end(s, 4, true)))
            }
        } else if s.len() >= 4 && s[2] == '.' && crate::text::is_slash(s[3]) {
            Some((PrefixKind::Remote, component_end(s, 4, false)))
        } else {
            let server = component_end(s, 2, false);
            let share = component_end(s, server + 1, false);
            if server > 2 && share > server + 1 {
                Some((PrefixKind::Remote, share))
            } else {
                None
            }
        }
    } else if drive_at(s, 0) {
        Some((PrefixKind::Disk, 2))
    } else {
        None
    }
}

/// Where the prefix ends, and so where the rest of the path begins.
pub open spec fn prefix_end(s: Seq<char>) -> int {
    match windows_prefix(s) {
        Some((_, end)) => end,
        None => 0,
    }
}

/// Whether a path leads off this host, or to a device of it.
pub open spec fn leads_away(s: Seq<char>) -> bool {
    windows_prefix(s) matches Some((kind, _)) && !(kind is Disk || kind is VerbatimDisk)
}

/// Where a path ends without the backslashes at its end, down to `from`.
pub open spec fn bare_end(s: Seq<char>, from: int, end: int) -> int
    decreases end - from,
{
    if end <= from || s[end - 1] != '\\' {
        end
    } else {
        bare_end(s, from, end - 1)
    }
}

/// Where the component that ends at `end` starts, down to `from`.
pub open spec fn component_start(s: Seq<char>, from: int, end: int) -> int
    decreases end - from,
{
    if end <= from || s[end - 1] == '\\' {
        end
    } else {
        component_start(s, from, end - 1)
    }
}

/// A verbatim path without its last component, unless that is no name. The
/// prefix ends at `n`.
pub open spec fn verbatim_parent(s: Seq<char>, n: int) -> Seq<char> {
    let end = bare_end(s, n + 1, s.len() as int);
    let start = component_start(s, n + 1, end);
    let name = s.subrange(start, end);
    if s.len() <= n + 1 || start >= end || name == "."@ || name == ".."@ {
        s
    } else if start > n + 1 {
        s.take(start - 1)
    } else {
        s.take(start)
    }
}

/// A verbatim path and one more component behind it.
pub open spec fn verbatim_step(s: Seq<char>, n: int, part: Seq<char>) -> Seq<char> {
    if part.len() == 0 || part == "."@ {
        s
    } else if part == ".."@ {
        verbatim_parent(s, n)
    } else if s.len() > n && s.last() == '\\' {
        s + part
    } else {
        s + "\\"@ + part
    }
}

/// A verbatim path and these components behind it.
pub open spec fn verbatim_walk(s: Seq<char>, n: int, parts: Seq<Seq<char>>) -> Seq<char>
    decreases parts.len(),
{
    if parts.len() == 0 {
        s
    } else {
        verbatim_step(verbatim_walk(s, n, parts.drop_last()), n, parts.last())
    }
}

/// A path below another on Windows. A path with a prefix stands for itself. One
/// that starts at the root keeps only the prefix of the other. Behind a verbatim
/// prefix the components are walked, since nothing there would be read as a
/// slash, a dot or two dots later; separators that the other has too many of stay
/// as they are.
pub open spec fn windows_joined(base: Seq<char>, path: Seq<char>) -> Seq<char> {
    let n = prefix_end(base);
    if windows_prefix(path) is Some {
        path
    } else if path.len() > 0 && (windows_prefix(base) matches Some((kind, _)) && kind.verbatim()) {
        verbatim_walk(
            if crate::text::is_slash(path[0]) {
                base.take(n) + "\\"@
            } else {
                base
            },
            n,
            crate::text::path_parts(path),
        )
    } else if path.len() > 0 && crate::text::is_slash(path[0]) {
        base.take(n) + path
    } else if base.len() == 0 || crate::text::is_slash(base.last()) || (base.len() == 2 && drive_at(
        base,
        0,
    )) {
        base + path
    } else {
        base + "\\"@ + path
    }
}

/// A path below another: an absolute path stands for itself.
pub open spec fn joined(host: Host, base: Seq<char>, path: Seq<char>) -> Seq<char> {
    match host {
        Host::Windows => windows_joined(base, path),
        Host::Unix => if path.len() > 0 && path[0] == '/' {
            path
        } else if base.len() > 0 && base.last() != '/' {
            base + "/"@ + path
        } else {
            base + path
        },
    }
}

/// A path that names the same thing wherever the process runs.
pub open spec fn absolute(host: Host, path: Seq<char>) -> bool {
    match host {
        Host::Unix => path.len() > 0 && path[0] == '/',
        Host::Windows => windows_prefix(path) matches Some((kind, end)) && (!(kind is Disk) || (end
            < path.len() && crate::text::is_slash(path[end]))),
    }
}

fn slash(c: char) -> (r: bool)
    ensures
        r == crate::text::is_slash(c),
{
    c == '/' || c == '\\'
}

fn has_drive(chars: &Vec<char>, at: usize) -> (r: bool)
    requires
        at <= chars@.len(),
    ensures
        r == drive_at(chars@, at as int),
{
    if chars.len() - at < 2 {
        return false;
    }
    let c = chars[at];
    (('a' <= c && c <= 'z') || ('A' <= c && c <= 'Z')) && chars[at + 1] == ':'
}

fn find_end(chars: &Vec<char>, from: usize, verbatim: bool) -> (r: usize)
    ensures
        r == component_end(chars@, from as int, verbatim),
        r <= chars@.len(),
        from <= chars@.len() ==> from <= r,
{
    let mut i: usize = from;
    while i < chars.len()
        invariant
            from <= i,
            from <= chars@.len() ==> i <= chars@.len(),
            component_end(chars@, from as int, verbatim) == component_end(
                chars@,
                i as int,
                verbatim,
            ),
        decreases chars@.len() - i,
    {
        let c = chars[i];
        if c == '\\' || (!verbatim && c == '/') {
            return i;
        }
        i += 1;
    }
    chars.len()
}

/// The prefix of a path on Windows, and where it ends.
fn find_prefix(chars: &Vec<char>) -> (r: Option<(PrefixKind, usize)>)
    ensures
        match r {
            Some((kind, end)) => windows_prefix(chars@) == Some((kind, end as int)) && 0 < end
                && end <= chars@.len(),
            None => windows_prefix(chars@) is None,
        },
{
    let len: usize = chars.len();
    if len >= 2 && slash(chars[0]) && slash(chars[1]) {
        if len >= 4 && chars[0] == '\\' && chars[1] == '\\' && chars[2] == '?' && chars[3]
            == '\\' {
            if len >= 8 && chars[4] == 'U' && chars[5] == 'N' && chars[6] == 'C' && slash(
                chars[7],
            ) {
                let server: usize = find_end(chars, 8, true);
                if server >= len {
                    return Some((PrefixKind::Verbatim, server));
                }
                let share: usize = find_end(chars, server + 1, true);
                Some((PrefixKind::Verbatim, if share > server + 1 {
                    share
                } else {
                    server
                }))
            } else if has_drive(chars, 4) && (len == 6 || slash(chars[6])) {
                Some((PrefixKind::VerbatimDisk, 6))
            } else {
                Some((PrefixKind::Verbatim, find_end(chars, 4, true)))
            }
        } else if len >= 4 && chars[2] == '.' && slash(chars[3]) {
            Some((PrefixKind::Remote, find_end(chars, 4, false)))
        } else {
            let server: usize = find_end(chars, 2, false);
            if server >= len {
                return None;
            }
            let share: usize = find_end(chars, server + 1, false);
            if server > 2 && share > server + 1 {
                Some((PrefixKind::Remote, share))
            } else {
                None
            }
        }
    } else if has_drive(chars, 0) {
        Some((PrefixKind::Disk, 2))
    } else {
        None
    }
}

/// Whether a path on Windows leads off this host, or to a device of it.
pub fn is_away(path: &str) -> (r: bool)
    ensures
        r == leads_away(path@),
{
    match find_prefix(&to_chars(path)) {
        Some((kind, _)) => !matches!(kind, PrefixKind::Disk | PrefixKind::VerbatimDisk),
        None => false,
    }
}

/// A verbatim path without its last component, unless that is no name.
fn parent_of(path: &str, n: usize) -> (r: String)
    ensures
        r@ == verbatim_parent(path@, n as int),
{
    let chars = to_chars(path);
    if chars.len() <= n || chars.len() - n == 1 {
        return path.to_owned();
    }
    let mut end: usize = chars.len();
    while end > n + 1 && chars[end - 1] == '\\'
        invariant
            n + 1 <= end <= chars@.len(),
            bare_end(chars@, n + 1, chars@.len() as int) == bare_end(chars@, n + 1, end as int),
        decreases end,
    {
        end -= 1;
    }
    let mut start: usize = end;
    while start > n + 1 && chars[start - 1] != '\\'
        invariant
            n + 1 <= start <= end <= chars@.len(),
            component_start(chars@, n + 1, end as int) == component_start(
                chars@,
                n + 1,
                start as int,
            ),
        decreases start,
    {
        start -= 1;
    }
    let name = sub_text(&chars, start, end);
    if start >= end || same_text(name.as_str(), ".") || same_text(name.as_str(), "..") {
        return path.to_owned();
    }
    let cut: usize = if start > n + 1 {
        start - 1
    } else {
        start
    };
    assert(chars@.subrange(0, cut as int) =~= chars@.take(cut as int));
    sub_text(&chars, 0, cut)
}

/// A verbatim path and one more component behind it.
fn step_into(path: &str, n: usize, part: &str) -> (r: String)
    ensures
        r@ == verbatim_step(path@, n as int, part@),
{
    if part.is_empty() || same_text(part, ".") {
        return path.to_owned();
    }
    if same_text(part, "..") {
        return parent_of(path, n);
    }
    let chars = to_chars(path);
    if chars.len() > n && chars[chars.len() - 1] == '\\' {
        cat(path, part)
    } else {
        cat3(path, "\\", part)
    }
}

fn walk_into(path: &str, n: usize, parts: &Vec<String>) -> (r: String)
    ensures
        r@ == verbatim_walk(path@, n as int, crate::text::texts(parts@)),
{
    let mut at = path.to_owned();
    let mut i: usize = 0;
    let ghost all = crate::text::texts(parts@);
    while i < parts.len()
        invariant
            i <= parts@.len(),
            all == crate::text::texts(parts@),
            at@ == verbatim_walk(path@, n as int, all.take(i as int)),
        decreases parts@.len() - i,
    {
        proof {
            assert(all.take(i + 1).drop_last() =~= all.take(i as int));
            assert(all.take(i + 1).last() == parts@[i as int]@);
        }
        at = step_into(at.as_str(), n, parts[i].as_str());
        i += 1;
    }
    assert(all.take(i as int) =~= all);
    at
}

fn windows_join(base: &str, path: &str) -> (r: String)
    ensures
        r@ == windows_joined(base@, path@),
{
    let base_chars = to_chars(base);
    let path_chars = to_chars(path);
    if find_prefix(&path_chars).is_some() {
        return path.to_owned();
    }
    let prefix = find_prefix(&base_chars);
    let n: usize = match prefix {
        Some((_, end)) => end,
        None => 0,
    };
    let verbatim = matches!(
        prefix,
        Some((PrefixKind::VerbatimDisk, _)) | Some((PrefixKind::Verbatim, _))
    );
    let rooted = path_chars.len() > 0 && slash(path_chars[0]);
    let head = sub_text(&base_chars, 0, n);
    assert(head@ =~= base@.take(n as int));
    if path_chars.len() > 0 && verbatim {
        let parts = split_path(path);
        if rooted {
            walk_into(cat(head.as_str(), "\\").as_str(), n, &parts)
        } else {
            walk_into(base, n, &parts)
        }
    } else if rooted {
        cat(head.as_str(), path)
    } else if base_chars.len() == 0 || slash(base_chars[base_chars.len() - 1]) || (
    base_chars.len() == 2 && has_drive(&base_chars, 0)) {
        cat(base, path)
    } else {
        cat3(base, "\\", path)
    }
}

/// `path` below `base`; an absolute `path` stands for itself.
pub fn join(host: Host, base: &str, path: &str) -> (r: String)
    ensures
        r@ == joined(host, base@, path@),
{
    if matches!(host, Host::Windows) {
        return windows_join(base, path);
    }
    let path_chars = to_chars(path);
    if path_chars.len() > 0 && path_chars[0] == '/' {
        return path.to_owned();
    }
    let chars = to_chars(base);
    if chars.len() > 0 && chars[chars.len() - 1] != '/' {
        cat3(base, "/", path)
    } else {
        cat(base, path)
    }
}

/// A single component that is a name.
pub open spec fn is_name(part: Seq<char>) -> bool {
    &&& part.len() > 0
    &&& forall|i: int| 0 <= i < part.len() ==> !crate::text::is_slash(#[trigger] part[i])
    &&& !drive_at(part, 0)
    &&& part != "."@ && part != ".."@
}

/// A name joined to a path stands behind it and a separator, unless the path
/// ends in one or is a bare drive.
pub proof fn lemma_join_name(host: Host, base: Seq<char>, name: Seq<char>)
    requires
        is_name(name),
    ensures
        joined(host, base, name) == base + name || joined(host, base, name) == base
            + host.separator() + name,
        base.len() > 2 && !crate::text::is_slash(base.last()) ==> joined(host, base, name) == base
            + host.separator() + name,
{
    assert(!crate::text::is_slash(name[0]));
    crate::text::lemma_one_part(name);
    let parts = crate::text::path_parts(name);
    assert(parts.drop_last() =~= Seq::empty());
    assert(verbatim_walk(base, prefix_end(base), parts.drop_last()) == base);
    assert(verbatim_walk(base, prefix_end(base), parts) == verbatim_step(
        base,
        prefix_end(base),
        name,
    ));
}

/// The directory a path is in, joined to it, adds a dot at most.
pub proof fn lemma_join_here(host: Host, base: Seq<char>)
    ensures
        ({
            let here = joined(host, base, "."@);
            here == base || here == base + "."@ || here == base + host.separator() + "."@
        }),
{
    reveal_strlit(".");
    let here = "."@;
    assert(!crate::text::is_slash(here[0]));
    crate::text::lemma_one_part(here);
    let parts = crate::text::path_parts(here);
    assert(parts.drop_last() =~= Seq::empty());
    assert(verbatim_walk(base, prefix_end(base), parts.drop_last()) == base);
    assert(verbatim_walk(base, prefix_end(base), parts) == base);
}

proof fn lemma_component_end(s: Seq<char>, from: int, verbatim: bool)
    requires
        0 <= from,
    ensures
        component_end(s, from, verbatim) <= s.len(),
        from <= s.len() ==> from <= component_end(s, from, verbatim),
    decreases s.len() - from,
{
    if from < s.len() {
        lemma_component_end(s, from + 1, verbatim);
    }
}

proof fn lemma_prefix_end(s: Seq<char>)
    ensures
        0 <= prefix_end(s) <= s.len(),
{
    lemma_component_end(s, 8, true);
    lemma_component_end(s, component_end(s, 8, true) + 1, true);
    lemma_component_end(s, 4, true);
    lemma_component_end(s, 4, false);
    lemma_component_end(s, 2, false);
    lemma_component_end(s, component_end(s, 2, false) + 1, false);
}

proof fn lemma_step_name(s: Seq<char>, n: int, name: Seq<char>)
    requires
        is_name(name),
    ensures
        ({
            let r = verbatim_step(s, n, name);
            &&& r.len() >= s.len() + name.len()
            &&& r.subrange(r.len() - name.len(), r.len() as int) == name
            &&& s.len() > n && s.last() != '\\' ==> r == s + "\\"@ + name
        }),
{
    let r = verbatim_step(s, n, name);
    assert(r.subrange(r.len() - name.len(), r.len() as int) =~= name);
}

/// A path from the root, joined to another, keeps the last two names it has.
/// They start behind the slashes at `i` and `k`.
pub proof fn lemma_join_rooted(host: Host, base: Seq<char>, path: Seq<char>, i: int, k: int)
    requires
        0 <= i < k < path.len(),
        path[0] == '/',
        !crate::text::is_slash(path[1]),
        path[i] == '/',
        path[k] == '/',
        is_name(path.subrange(i + 1, k)),
        is_name(path.skip(k + 1)),
    ensures
        ({
            let r = joined(host, base, path);
            let dir = path.subrange(i + 1, k);
            let name = path.skip(k + 1);
            &&& r.len() > dir.len() + name.len()
            &&& r.subrange(r.len() - name.len(), r.len() as int) == name
            &&& r.subrange(r.len() - name.len() - 1 - dir.len(), r.len() - name.len() - 1) == dir
        }),
{
    reveal_strlit("\\");
    let r = joined(host, base, path);
    let dir = path.subrange(i + 1, k);
    let name = path.skip(k + 1);
    let n = prefix_end(base);
    if host is Windows && (windows_prefix(base) matches Some((kind, _)) && kind.verbatim()) {
        let front = path.take(k);
        crate::text::lemma_parts_at(path, k);
        crate::text::lemma_parts_at(front, i);
        assert(front.skip(i + 1) =~= dir);
        crate::text::lemma_one_part(dir);
        crate::text::lemma_one_part(name);
        let start = base.take(n) + "\\"@;
        let parts = crate::text::path_parts(path);
        let before = crate::text::path_parts(front);
        let first = crate::text::path_parts(front.take(i));
        assert(parts.drop_last() =~= before);
        assert(before.drop_last() =~= first);
        let a = verbatim_walk(start, n, first);
        let b = verbatim_step(a, n, dir);
        lemma_prefix_end(base);
        lemma_walk_length(start, n, first);
        lemma_step_name(a, n, dir);
        assert(b == verbatim_walk(start, n, before));
        lemma_step_name(b, n, name);
        assert(b.last() == b.subrange(b.len() - dir.len(), b.len() as int).last());
        assert(!crate::text::is_slash(dir[dir.len() - 1]));
        assert(r == b + "\\"@ + name);
        assert(r.subrange(r.len() - name.len() - 1 - dir.len(), r.len() - name.len() - 1)
            =~= b.subrange(b.len() - dir.len(), b.len() as int));
    } else {
        assert(r == path || r == base.take(n) + path);
        assert(r.subrange(r.len() - name.len(), r.len() as int) =~= name);
        assert(r.subrange(r.len() - name.len() - 1 - dir.len(), r.len() - name.len() - 1) =~= dir);
    }
}

/// No step goes back before the prefix.
proof fn lemma_walk_length(s: Seq<char>, n: int, parts: Seq<Seq<char>>)
    requires
        0 <= n <= s.len(),
    ensures
        verbatim_walk(s, n, parts).len() >= n,
    decreases parts.len(),
{
    if parts.len() > 0 {
        lemma_walk_length(s, n, parts.drop_last());
        let at = verbatim_walk(s, n, parts.drop_last());
        lemma_bounds(at, n + 1, at.len() as int);
        lemma_bounds(at, n + 1, bare_end(at, n + 1, at.len() as int));
    }
}

proof fn lemma_bounds(s: Seq<char>, from: int, end: int)
    ensures
        from <= end ==> from <= bare_end(s, from, end) <= end && from <= component_start(
            s,
            from,
            end,
        ) <= end,
    decreases end - from,
{
    if from < end {
        lemma_bounds(s, from, end - 1);
    }
}

/// An absolute path stands for itself, whatever it is joined to.
pub proof fn law_absolute_paths_are_kept(host: Host, base: Seq<char>, path: Seq<char>)
    requires
        absolute(host, path),
    ensures
        joined(host, base, path) == path,
{
}

/// A letter of the alphabet.
pub open spec fn is_letter(c: char) -> bool {
    ('a' <= c && c <= 'z') || ('A' <= c && c <= 'Z')
}

/// The path starts at a drive, as in `C:`.
pub open spec fn on_drive(path: Seq<char>) -> bool {
    path.len() >= 2 && is_letter(path[0]) && path[1] == ':'
}

/// The path starts with a slash of either kind.
pub open spec fn at_root(path: Seq<char>) -> bool {
    path.len() > 0 && (path[0] == '/' || path[0] == '\\')
}

/// The path starts with two slashes.
pub open spec fn at_double_root(path: Seq<char>) -> bool {
    at_root(path) && path.len() >= 2 && (path[1] == '/' || path[1] == '\\')
}

/// On Unix a path from the root stands for itself; any other is put behind the
/// one it is joined to, with one slash between them.
pub proof fn law_unix_paths_are_joined(base: &str, path: &str, r: String)
    requires
        call_ensures(join, (Host::Unix, base, path), r),
    ensures
        path@.len() > 0 && path@[0] == '/' ==> r@ == path@,
        !(path@.len() > 0 && path@[0] == '/') ==> {
            &&& base@.len() == 0 ==> r@ == path@
            &&& base@.len() > 0 && base@.last() == '/' ==> r@ == base@ + path@
            &&& base@.len() > 0 && base@.last() != '/' ==> r@ == base@.push('/') + path@
        },
        Host::Unix.separator() == "/"@,
        Host::Windows.separator() == "\\"@,
{
    reveal_strlit("/");
    assert(base@ + "/"@ + path@ =~= base@.push('/') + path@);
    assert(Seq::<char>::empty() + path@ =~= path@);
    if base@.len() == 0 {
        assert(base@ + path@ =~= path@);
    }
}

/// On Windows a path on a drive stands for itself; one from the root keeps the
/// drive of the one it is joined to; any other is put behind it, with one
/// backslash between them unless it ends in a slash or is a bare drive.
pub proof fn law_windows_paths_are_joined(base: &str, path: &str, r: String)
    requires
        call_ensures(join, (Host::Windows, base, path), r),
        !at_double_root(base@),
        !at_double_root(path@),
    ensures
        on_drive(path@) ==> r@ == path@,
        at_root(path@) && on_drive(base@) ==> r@ == base@.take(2) + path@,
        at_root(path@) && !on_drive(base@) ==> r@ == path@,
        !on_drive(path@) && !at_root(path@) ==> {
            let open = base@.len() == 0 || base@.last() == '/' || base@.last() == '\\' || (
            base@.len() == 2 && on_drive(base@));
            &&& open ==> r@ == base@ + path@
            &&& !open ==> r@ == base@.push('\\') + path@
        },
{
    reveal_strlit("\\");
    assert(base@ + "\\"@ + path@ =~= base@.push('\\') + path@);
    assert(base@.take(0) + path@ =~= path@);
}

proof fn lemma_component_ends(s: Seq<char>, from: int, end: int, verbatim: bool)
    requires
        0 <= from <= end <= s.len(),
        forall|i: int| from <= i < end ==> !ends_component(#[trigger] s[i], verbatim),
        end < s.len() ==> ends_component(s[end], verbatim),
    ensures
        component_end(s, from, verbatim) == end,
    decreases end - from,
{
    if from < end {
        assert(!ends_component(s[from], verbatim));
        lemma_component_ends(s, from + 1, end, verbatim);
    }
}

/// A path that starts at a share of a server, with what comes behind it.
pub open spec fn on_share(server: Seq<char>, share: Seq<char>, rest: Seq<char>) -> Seq<char> {
    seq!['\\', '\\'] + server + seq!['\\'] + share + rest
}

/// What a name may be: not empty, without slashes, and neither of the marks
/// for devices and for paths taken as they stand.
pub open spec fn plain_name(name: Seq<char>) -> bool {
    &&& name.len() > 0
    &&& forall|i: int| 0 <= i < name.len() ==> #[trigger] name[i] != '/' && name[i] != '\\'
    &&& name != seq!['?'] && name != seq!['.']
}

/// A path at a share leads off this host, stands for itself wherever it is
/// joined, and is kept by a path from the root that is joined to it.
pub proof fn law_shares_lead_away(
    server: Seq<char>,
    share: Seq<char>,
    rest: Seq<char>,
    base: Seq<char>,
    path: Seq<char>,
)
    requires
        plain_name(server),
        share.len() > 0,
        forall|i: int| 0 <= i < share.len() ==> #[trigger] share[i] != '/' && share[i] != '\\',
        rest.len() > 0 ==> rest[0] == '/' || rest[0] == '\\',
    ensures
        leads_away(on_share(server, share, rest)),
        joined(Host::Windows, base, on_share(server, share, rest)) == on_share(server, share, rest),
        at_root(path) && !at_double_root(path) ==> joined(
            Host::Windows,
            on_share(server, share, rest),
            path,
        ) == on_share(server, share, path),
{
    let s = on_share(server, share, rest);
    let a: int = 2 + server.len() as int;
    let b: int = a + 1 + share.len() as int;
    assert(s[0] == '\\' && s[1] == '\\');
    assert(s[2] == server[0]);
    assert(s[3] == (if server.len() > 1 {
        server[1]
    } else {
        '\\'
    }));
    if server.len() == 1 {
        if server[0] == '?' {
            assert(server =~= seq!['?']);
        }
        if server[0] == '.' {
            assert(server =~= seq!['.']);
        }
    } else {
        assert(server[1] != '\\' && server[1] != '/');
    }
    assert(!(s[2] == '?' && s[3] == '\\'));
    assert(!(s[2] == '.' && crate::text::is_slash(s[3])));
    assert forall|i: int| 2 <= i < a implies !ends_component(#[trigger] s[i], false) by {
        assert(s[i] == server[i - 2]);
    }
    assert(s[a] == '\\');
    lemma_component_ends(s, 2, a, false);
    assert forall|i: int| a + 1 <= i < b implies !ends_component(#[trigger] s[i], false) by {
        assert(s[i] == share[i - a - 1]);
    }
    if b < s.len() {
        assert(s[b] == rest[0]);
    }
    lemma_component_ends(s, a + 1, b, false);
    assert(windows_prefix(s) == Some((PrefixKind::Remote, b)));
    assert(s.take(b) + path =~= on_share(server, share, path));
}

/// A drive whose path is taken as it stands, with what comes behind it.
pub open spec fn on_verbatim_drive(letter: char, rest: Seq<char>) -> Seq<char> {
    seq!['\\', '\\', '?', '\\', letter, ':'] + rest
}

/// A path on a drive, taken as it stands or not, stays on this host; so does
/// one without a drive and without two slashes in front. Devices lead away.
pub proof fn law_drives_stay_here(
    path: &str,
    away: bool,
    letter: char,
    rest: Seq<char>,
    device: Seq<char>,
)
    requires
        call_ensures(is_away, (path,), away),
        is_letter(letter),
        rest.len() > 0 ==> rest[0] == '\\' || rest[0] == '/',
    ensures
        !at_double_root(path@) ==> !away,
        path@ == on_verbatim_drive(letter, rest) ==> !away,
        path@ == seq!['\\', '\\', '.', '\\'] + device ==> away,
{
    if path@ == on_verbatim_drive(letter, rest) {
        let s = path@;
        assert(s[0] == '\\' && s[1] == '\\' && s[2] == '?' && s[3] == '\\' && s[4] == letter && s[5]
            == ':');
        if rest.len() > 0 {
            assert(s[6] == rest[0]);
        }
        if s.len() >= 8 && s[4] == 'U' && s[5] == 'N' {
            assert(false);
        }
    }
    if path@ == seq!['\\', '\\', '.', '\\'] + device {
        let s = path@;
        assert(s[0] == '\\' && s[1] == '\\' && s[2] == '.' && s[3] == '\\');
    }
}

proof fn lemma_verbatim_drive(letter: char, rest: Seq<char>)
    requires
        is_letter(letter),
        rest.len() > 0 ==> rest[0] == '\\',
    ensures
        windows_prefix(on_verbatim_drive(letter, rest)) == Some((PrefixKind::VerbatimDisk, 6int)),
{
    let s = on_verbatim_drive(letter, rest);
    assert(s[0] == '\\' && s[1] == '\\' && s[2] == '?' && s[3] == '\\' && s[4] == letter && s[5]
        == ':');
    if rest.len() > 0 {
        assert(s[6] == rest[0]);
    }
}

proof fn lemma_component_starts(s: Seq<char>, from: int, cut: int, end: int)
    requires
        0 <= from <= cut < end <= s.len(),
        s[cut] == '\\',
        forall|i: int| cut < i < s.len() ==> #[trigger] s[i] != '\\',
    ensures
        component_start(s, from, end) == cut + 1,
    decreases end - cut,
{
    if end > cut + 1 {
        assert(s[end - 1] != '\\');
        lemma_component_starts(s, from, cut, end - 1);
    }
}

/// Behind a drive whose path is taken as it stands, components are walked: a
/// name is put behind a backslash, also where a slash stood before it; a dot
/// stays; two dots take the last name off again.
pub proof fn law_verbatim_paths_are_walked(
    letter: char,
    rest: Seq<char>,
    first: Seq<char>,
    second: Seq<char>,
)
    requires
        is_letter(letter),
        rest.len() > 1,
        rest[0] == '\\',
        rest.last() != '\\',
        is_name(first),
        is_name(second),
    ensures
        ({
            let base = on_verbatim_drive(letter, rest);
            &&& joined(Host::Windows, base, first) == base.push('\\') + first
            &&& joined(Host::Windows, base, first.push('/') + second) == (base.push('\\')
                + first).push('\\') + second
            &&& joined(Host::Windows, base, "."@) == base
            &&& joined(Host::Windows, base.push('\\') + first, ".."@) == base
            &&& joined(Host::Windows, base, seq!['/'] + first) == on_verbatim_drive(
                letter,
                seq!['\\'] + first,
            )
        }),
{
    reveal_strlit(".");
    reveal_strlit("..");
    reveal_strlit("\\");
    let base = on_verbatim_drive(letter, rest);
    lemma_verbatim_drive(letter, rest);
    assert(base.last() == rest.last());
    crate::text::lemma_one_part(first);
    crate::text::lemma_one_part(second);
    assert(!crate::text::is_slash(first[0]));
    lemma_walk_one(base, first);
    assert(base + "\\"@ + first =~= base.push('\\') + first);
    // Two names.
    let two = first.push('/') + second;
    let k = first.len() as int;
    assert(two[0] == first[0]);
    assert(two[k] == '/');
    assert(two.take(k) =~= first);
    assert(two.skip(k + 1) =~= second);
    crate::text::lemma_parts_at(two, k);
    let parts = crate::text::path_parts(two);
    assert(parts =~= seq![first, second]);
    assert(parts.drop_last() =~= seq![first]);
    let at = base.push('\\') + first;
    assert(at.last() == first.last());
    assert(!crate::text::is_slash(first[first.len() - 1]));
    assert(verbatim_walk(base, 6, seq![first]) == at);
    assert(verbatim_walk(base, 6, parts) == verbatim_step(at, 6, second));
    assert(at + "\\"@ + second =~= at.push('\\') + second);
    assert(!drive_at(two, 0)) by {
        if drive_at(two, 0) {
            if k >= 2 {
                assert(two[1] == first[1]);
                assert(drive_at(first, 0));
            } else {
                assert(two[1] == '/');
            }
        }
    }
    assert(windows_prefix(two) is None);
    assert(joined(Host::Windows, base, two) == at.push('\\') + second);
    // A dot.
    let dot = "."@;
    assert(!crate::text::is_slash(dot[0]));
    crate::text::lemma_one_part(dot);
    lemma_walk_one(base, dot);
    // Two dots.
    let dots = ".."@;
    assert(dots =~= seq!['.', '.']);
    assert(!crate::text::is_slash(dots[0]) && !crate::text::is_slash(dots[1]));
    crate::text::lemma_one_part(dots);
    let longer = rest.push('\\') + first;
    assert(at =~= on_verbatim_drive(letter, longer));
    assert(longer[0] == rest[0]);
    lemma_verbatim_drive(letter, longer);
    lemma_walk_one(at, dots);
    let cut = base.len() as int;
    assert(at[cut] == '\\');
    assert forall|i: int| cut < i < at.len() implies #[trigger] at[i] != '\\' by {
        assert(at[i] == first[i - cut - 1]);
        assert(!crate::text::is_slash(first[i - cut - 1]));
    }
    assert(at[at.len() - 1] != '\\');
    assert(bare_end(at, 7, at.len() as int) == at.len());
    lemma_component_starts(at, 7, cut, at.len() as int);
    assert(component_start(at, 7, at.len() as int) == cut + 1);
    assert(at.subrange(cut + 1, at.len() as int) =~= first);
    assert(at.take(cut) =~= base);
    assert(verbatim_parent(at, 6) == base);
    // From the root.
    let rooted = seq!['/'] + first;
    assert(rooted[0] == '/' && rooted[1] == first[0]);
    assert(rooted.take(0) =~= Seq::<char>::empty());
    assert(rooted.skip(1) =~= first);
    crate::text::lemma_parts_at(rooted, 0);
    crate::text::lemma_one_part(Seq::empty());
    let walked = crate::text::path_parts(rooted);
    assert(walked =~= seq![Seq::<char>::empty(), first]);
    assert(walked.drop_last() =~= seq![Seq::<char>::empty()]);
    let top = base.take(6) + "\\"@;
    lemma_walk_one(top, Seq::empty());
    assert(verbatim_walk(top, 6, walked) == verbatim_step(top, 6, first));
    assert(top.last() == '\\');
    assert(top + first =~= on_verbatim_drive(letter, seq!['\\'] + first));
    assert(windows_prefix(rooted) is None);
}

proof fn lemma_walk_one(s: Seq<char>, part: Seq<char>)
    ensures
        verbatim_walk(s, 6, seq![part]) == verbatim_step(s, 6, part),
{
    let parts = seq![part];
    assert(parts.drop_last() =~= Seq::empty());
    assert(verbatim_walk(s, 6, parts.drop_last()) == s);
}

} // verus!
