//! Fetching and caching foundation filesystem archives: where a download
//! goes and whether it is needed.
use vstd::prelude::*;
use vstd::slice::slice_to_vec;
use crate::BuildError;
use crate::names::{foundations, lit_foundations, lit_parch_builder, parch_builder};
use crate::paths::{join, path_join};
use crate::urls::{url_filename, url_filename_of};
use crate::user_dirs::{is_user_cache_dir, user_cache_dir};

verus! {

/// The directory that caches foundations under a cache directory:
/// `<cache>/parch-builder/foundations`.
pub open spec fn foundations_dir_under(cache: Seq<u8>) -> Seq<u8> {
    path_join(path_join(cache, lit_parch_builder()), lit_foundations())
}

/// Where the file that `url` names is saved under a cache directory, or
/// `None` where the URL names no file.
pub open spec fn savepath_under(cache: Seq<u8>, url: Seq<char>) -> Option<Seq<u8>> {
    match url_filename_of(url) {
        Some(f) => Some(path_join(foundations_dir_under(cache), f)),
        None => None,
    }
}

/// The foundation cache directory under the cache directory `cache_dir`.
pub fn foundation_cache_dir_in(cache_dir: &[u8]) -> (res: Vec<u8>)
    ensures
        res@ == foundations_dir_under(cache_dir@),
{
    let app = join(cache_dir, parch_builder().as_slice());
    join(app.as_slice(), foundations().as_slice())
}

/// The foundation cache directory under the user's cache directory (on Linux
/// `~/.cache/parch-builder/foundations`). The caller creates it if missing.
pub fn foundation_cache_dir() -> (res: Result<Vec<u8>, BuildError>)
    ensures
        match res {
            Ok(d) => exists|cache: Seq<u8>| is_user_cache_dir(cache) && d@ == foundations_dir_under(cache),
            Err(e) => e == BuildError::UserDirsUnavailable,
        },
{
    match user_cache_dir() {
        Some(cache) => Ok(foundation_cache_dir_in(cache.cache_bytes())),
        None => Err(BuildError::UserDirsUnavailable),
    }
}

/// A planned fetch: the resource, the directory it is cached in, and the
/// path it is saved to.
#[derive(Debug, Clone, PartialEq, Eq)]
pub struct FetchPlan {
    pub url: String,
    pub cache_dir: Vec<u8>,
    pub savepath: Vec<u8>,
}

/// What to do about a planned fetch.
#[derive(Debug, Clone, PartialEq, Eq)]
pub enum FetchAction {
    /// Keep the file already saved at `savepath`.
    UseCached { savepath: Vec<u8> },
    /// Download `url` and write it to `savepath`.
    Download { url: String, savepath: Vec<u8> },
}

/// Plans the fetch of `url` under the cache directory `cache_dir`: the file
/// is saved in the foundation cache directory under the URL's last path
/// segment. The URL must name a file.
pub fn plan_fetch_in(url: &str, cache_dir: &[u8]) -> (plan: FetchPlan)
    requires
        url_filename_of(url@) is Some,
    ensures
        savepath_under(cache_dir@, url@) == Some(plan.savepath@),
        plan.url@ == url@,
        plan.cache_dir@ == foundations_dir_under(cache_dir@),
{
    let filename = match url_filename(url) {
        Some(f) => f,
        None => Vec::new(),
    };
    let dir = foundation_cache_dir_in(cache_dir);
    let savepath = join(dir.as_slice(), filename.as_slice());
    FetchPlan { url: String::from_str(url), cache_dir: dir, savepath }
}

/// Plans the fetch of `url` under the user's cache directory. The URL must
/// name a file.
pub fn plan_fetch(url: &str) -> (res: Result<FetchPlan, BuildError>)
    requires
        url_filename_of(url@) is Some,
    ensures
        match res {
            Ok(plan) => exists|cache: Seq<u8>|
                {
                    &&& is_user_cache_dir(cache)
                    &&& savepath_under(cache, url@) == Some(plan.savepath@)
                    &&& plan.cache_dir@ == foundations_dir_under(cache)
                    &&& plan.url@ == url@
                },
            Err(e) => e == BuildError::UserDirsUnavailable,
        },
{
    match user_cache_dir() {
        Some(cache) => Ok(plan_fetch_in(url, cache.cache_bytes())),
        None => Err(BuildError::UserDirsUnavailable),
    }
}

/// Plans the fetch of `url` where it names a file: `None`, and nothing
/// planned, where the URL does not parse or has no path segment; otherwise
/// what `plan_fetch` gives.
pub fn plan_fetch_checked(url: &str) -> (res: Option<Result<FetchPlan, BuildError>>)
    ensures
        res is None <==> url_filename_of(url@) is None,
        res matches Some(r) ==> match r {
            Ok(plan) => exists|cache: Seq<u8>|
                {
                    &&& is_user_cache_dir(cache)
                    &&& savepath_under(cache, url@) == Some(plan.savepath@)
                    &&& plan.cache_dir@ == foundations_dir_under(cache)
                    &&& plan.url@ == url@
                },
            Err(e) => e == BuildError::UserDirsUnavailable,
        },
{
    match url_filename(url) {
        Some(_) => Some(plan_fetch(url)),
        None => None,
    }
}

/// Whether a file already saved is kept: exactly when it exists and the user
/// did not ask to overwrite it.
pub open spec fn keeps_cached(exists: bool, overwrite: bool) -> bool {
    exists && !overwrite
}

/// Decides a planned fetch, given whether its save path exists already: an
/// existing file is kept unless `overwrite` is set; otherwise the resource is
/// downloaded to the save path.
pub fn fetch(plan: &FetchPlan, overwrite: bool, savepath_exists: bool) -> (res: FetchAction)
    ensures
        keeps_cached(savepath_exists, overwrite) ==> (res matches FetchAction::UseCached {
            savepath,
        } && savepath@ == plan.savepath@),
        !keeps_cached(savepath_exists, overwrite) ==> (res matches FetchAction::Download {
            url,
            savepath,
        } && url == plan.url && savepath@ == plan.savepath@),
{
    let savepath = slice_to_vec(plan.savepath.as_slice());
    if savepath_exists && !overwrite {
        FetchAction::UseCached { savepath }
    } else {
        FetchAction::Download { url: plan.url.clone(), savepath }
    }
}

} // verus!
