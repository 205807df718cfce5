//! Everything that is not Spotify: links that yt-dlp resolves, and uploaded
//! files.

use vstd::prelude::*;

use crate::runtime::Paths;
use crate::text::has_prefix;

pub mod feeder;
pub mod metadata;
pub mod probe;

verus! {

/// This process's scratch directory; locked before startup cleanup.
pub fn tmp_dir(paths: &Paths) -> (r: String)
    ensures
        r@ == paths@.youtube_tmp,
{
    paths.youtube_tmp.clone()
}

/// This process's explicit cookies path, used only if the file exists.
pub fn cookies_path(paths: &Paths) -> (r: String)
    ensures
        r@ == paths@.youtube_cookies,
{
    paths.youtube_cookies.clone()
}

/// Extractor/signature cache stays within the locked per-instance scratch dir.
pub fn extractor_cache_path(paths: &Paths) -> (r: String)
    ensures
        r@ == crate::path::joined(
            paths@.host,
            paths@.youtube_tmp,
            "extractor-cache"@,
        ),
{
    crate::path::join(paths.host, paths.youtube_tmp.as_str(), "extractor-cache")
}

/// A download a crash left behind in the scratch directory.
pub fn is_leftover(name: &str) -> (r: bool)
    ensures
        r == (crate::text::starts_with(name@, "yt-"@) || crate::text::starts_with(
            name@,
            "file-"@,
        )),
{
    has_prefix(name, "yt-") || has_prefix(name, "file-")
}

/// What a crash can leave behind is what downloads and uploads are called, and
/// nothing else.
pub proof fn law_leftovers_are_downloads_and_uploads(name: &str, r: bool)
    requires
        call_ensures(is_leftover, (name,), r),
    ensures
        r <==> (exists|rest: Seq<char>| name@ == #[trigger] ("yt-"@ + rest)) || (exists|
            rest: Seq<char>,
        |
            name@ == #[trigger] ("file-"@ + rest)),
{
    crate::text::law_found_parts_are_there(name@, "yt-"@);
    crate::text::law_found_parts_are_there(name@, "file-"@);
}

/// Downloads, cookies and the extractor's cache lie where the paths say.
pub proof fn law_youtube_files_lie_where_the_paths_say(
    paths: Paths,
    tmp: String,
    cookies: String,
    cache: String,
)
    requires
        call_ensures(tmp_dir, (&paths,), tmp),
        call_ensures(cookies_path, (&paths,), cookies),
        call_ensures(extractor_cache_path, (&paths,), cache),
    ensures
        tmp@ == paths.youtube_tmp@,
        cookies@ == paths.youtube_cookies@,
        cache@ == crate::path::joined(paths.host, paths.youtube_tmp@, "extractor-cache"@),
{
}

} // verus!
