//! Reading a platform's manifest and fetching the foundation it names, step
//! by step: the manifest is read; the foundation cache directory is
//! created; an existing download is kept unless overwriting was asked for;
//! otherwise the foundation is downloaded.
use vstd::prelude::*;
use crate::{BuildError, copy_error};
use crate::fetch::{foundation_cache_dir_in, foundations_dir_under, keeps_cached};
use crate::manifest::{manifest_path_in, manifest_path_under, Manifest};
use crate::paths::{join, path_join};
use crate::image::bytes_copy;
use crate::urls::{url_filename, url_filename_of};
use crate::user_dirs::{is_user_cache_dir, is_user_config_dir, user_cache_dir, user_config_dir};

verus! {

/// Where a fetch stands: the step it waits on, in the order they run.
#[derive(Clone, Copy, Debug, PartialEq, Eq, Structural)]
pub enum FetchPhase {
    /// Nothing done yet.
    Start,
    /// Waiting for the manifest.
    Manifest,
    /// Waiting for the foundation cache directory to be created.
    CacheDir,
    /// Waiting to learn whether the foundation is saved already.
    Saved,
    /// Waiting for the download.
    Download,
    /// The foundation is in the cache.
    Finished,
    /// The fetch stopped at an error.
    Failed,
}

/// A fetch in progress.
#[derive(Debug)]
pub struct FetchState {
    pub phase: FetchPhase,
    pub sbc_model: String,
    pub overwrite: bool,
    /// The user's configuration directory, under which manifests lie.
    pub config_dir: Vec<u8>,
    /// The user's cache directory, under which foundations are saved.
    pub cache_dir: Vec<u8>,
    /// The foundation URL, once the manifest is read.
    pub url: String,
    /// Whether the saved foundation was kept rather than downloaded.
    pub cached: bool,
    /// Why the fetch stopped, once it has.
    pub error: Option<BuildError>,
}

/// What the last step reported.
#[derive(Debug)]
pub enum FetchEvent {
    /// The fetch is to begin.
    Begin,
    /// The manifest was read.
    ManifestRead { manifest: Manifest },
    /// The cache directory was created.
    Done,
    /// Whether the save path exists.
    SavedChecked { exists: bool },
    /// The foundation was downloaded to the save path.
    Downloaded,
}

/// The next step to carry out.
#[derive(Debug, PartialEq, Eq)]
pub enum FetchStep {
    /// Read and parse the manifest at `path`.
    ReadManifest { path: Vec<u8> },
    /// Create the directory `path` and its parents.
    CreateDir { path: Vec<u8> },
    /// Find out whether `path` exists.
    CheckSaved { path: Vec<u8> },
    /// Download `url` and write it to `savepath`.
    Download { url: String, savepath: Vec<u8> },
    /// The foundation is at `savepath`; `cached` where it was kept as it was.
    Finish { savepath: Vec<u8>, cached: bool },
    /// The fetch stopped at `error`.
    Fail { error: BuildError },
}

/// Where the fetch saves the foundation: the last path segment of the URL
/// in the foundation cache directory.
pub open spec fn fetch_savepath(s: FetchState) -> Seq<u8> {
    path_join(
        foundations_dir_under(s.cache_dir@),
        match url_filename_of(s.url@) {
            Some(f) => f,
            None => Seq::empty(),
        },
    )
}

/// The error a stopped fetch reports.
pub open spec fn fetch_stop_error(s: FetchState) -> BuildError {
    match s.error {
        Some(e) => e,
        None => BuildError::UnexpectedEvent,
    }
}

/// Whether `a` is the step that the state `s` asks for.
pub open spec fn fetch_issues(s: FetchState, a: FetchStep) -> bool {
    match s.phase {
        FetchPhase::Start => false,
        FetchPhase::Manifest => match a {
            FetchStep::ReadManifest { path } => path@ == manifest_path_under(s.config_dir@, s.sbc_model@),
            _ => false,
        },
        FetchPhase::CacheDir => match a {
            FetchStep::CreateDir { path } => path@ == foundations_dir_under(s.cache_dir@),
            _ => false,
        },
        FetchPhase::Saved => match a {
            FetchStep::CheckSaved { path } => path@ == fetch_savepath(s),
            _ => false,
        },
        FetchPhase::Download => match a {
            FetchStep::Download { url, savepath } => url@ == s.url@ && savepath@ == fetch_savepath(s),
            _ => false,
        },
        FetchPhase::Finished => match a {
            FetchStep::Finish { savepath, cached } => savepath@ == fetch_savepath(s) && cached == s.cached,
            _ => false,
        },
        FetchPhase::Failed => a == FetchStep::Fail { error: fetch_stop_error(s) },
    }
}

/// The phase a fetch moves to from `s` when `e` is reported: the next step
/// where `e` is what was waited on; after checking the save path, the fetch
/// finishes where the saved file is kept and downloads otherwise; a report
/// that was not waited on stops it; finished and stopped fetches stay.
pub open spec fn fetch_next_phase(s: FetchState, e: FetchEvent) -> FetchPhase {
    match s.phase {
        FetchPhase::Finished => FetchPhase::Finished,
        FetchPhase::Failed => FetchPhase::Failed,
        FetchPhase::Start => if e is Begin { FetchPhase::Manifest } else { FetchPhase::Failed },
        FetchPhase::Manifest => if e is ManifestRead { FetchPhase::CacheDir } else { FetchPhase::Failed },
        FetchPhase::CacheDir => if e is Done { FetchPhase::Saved } else { FetchPhase::Failed },
        FetchPhase::Saved => match e {
            FetchEvent::SavedChecked { exists } => if keeps_cached(exists, s.overwrite) {
                FetchPhase::Finished
            } else {
                FetchPhase::Download
            },
            _ => FetchPhase::Failed,
        },
        FetchPhase::Download => if e is Downloaded { FetchPhase::Finished } else { FetchPhase::Failed },
    }
}

/// What a step keeps and what it learns: the inputs stay; the URL is taken
/// from the manifest; whether the saved file is kept from the check.
pub open spec fn fetch_carries(s: FetchState, e: FetchEvent, t: FetchState) -> bool {
    &&& t.sbc_model == s.sbc_model
    &&& t.overwrite == s.overwrite
    &&& t.config_dir@ == s.config_dir@
    &&& t.cache_dir@ == s.cache_dir@
    &&& t.url == match e {
        FetchEvent::ManifestRead { manifest } => if s.phase == FetchPhase::Manifest {
            manifest.foundation_url
        } else {
            s.url
        },
        _ => s.url,
    }
    &&& t.cached == match e {
        FetchEvent::SavedChecked { exists } => if s.phase == FetchPhase::Saved {
            keeps_cached(exists, s.overwrite)
        } else {
            s.cached
        },
        _ => s.cached,
    }
    &&& if t.phase == FetchPhase::Failed && s.phase != FetchPhase::Failed {
        t.error == Some(BuildError::UnexpectedEvent)
    } else {
        t.error == s.error
    }
}

/// Whether `e` hands the fetch in `s` a manifest whose foundation URL names
/// no file.
pub open spec fn names_no_file(s: FetchState, e: FetchEvent) -> bool {
    s.phase == FetchPhase::Manifest && match e {
        FetchEvent::ManifestRead { manifest } => url_filename_of(manifest.foundation_url@) is None,
        _ => false,
    }
}

/// A fetch of the foundation of `sbc_model`, under the given configuration
/// and cache directories, not yet begun.
pub fn new_fetch_in(sbc_model: &str, overwrite: bool, config_dir: &[u8], cache_dir: &[u8]) -> (res: FetchState)
    ensures
        res.phase == FetchPhase::Start,
        res.sbc_model@ == sbc_model@,
        res.overwrite == overwrite,
        res.config_dir@ == config_dir@,
        res.cache_dir@ == cache_dir@,
        res.url@ == Seq::<char>::empty(),
        !res.cached,
        res.error is None,
{
    FetchState {
        phase: FetchPhase::Start,
        sbc_model: String::from_str(sbc_model),
        overwrite,
        config_dir: bytes_copy(config_dir),
        cache_dir: bytes_copy(cache_dir),
        url: String::new(),
        cached: false,
        error: None,
    }
}

/// A fetch of the foundation of `sbc_model`, under the user's configuration
/// and cache directories, not yet begun.
pub fn new_fetch(sbc_model: &str, overwrite: bool) -> (res: Result<FetchState, BuildError>)
    ensures
        match res {
            Ok(s) => {
                &&& s.phase == FetchPhase::Start
                &&& s.sbc_model@ == sbc_model@
                &&& s.overwrite == overwrite
                &&& is_user_config_dir(s.config_dir@)
                &&& is_user_cache_dir(s.cache_dir@)
                &&& s.url@ == Seq::<char>::empty()
                &&& !s.cached
                &&& s.error is None
            },
            Err(e) => e == BuildError::UserDirsUnavailable,
        },
{
    let config = match user_config_dir() {
        Some(c) => c,
        None => return Err(BuildError::UserDirsUnavailable),
    };
    match user_cache_dir() {
        Some(cache) => Ok(new_fetch_in(sbc_model, overwrite, config.config_bytes(), cache.cache_bytes())),
        None => Err(BuildError::UserDirsUnavailable),
    }
}

fn fetch_action_for(s: &FetchState) -> (a: FetchStep)
    requires
        s.phase != FetchPhase::Start,
    ensures
        fetch_issues(*s, a),
{
    let dir = foundation_cache_dir_in(s.cache_dir.as_slice());
    let filename = match url_filename(s.url.as_str()) {
        Some(f) => f,
        None => Vec::new(),
    };
    let savepath = join(dir.as_slice(), filename.as_slice());
    match s.phase {
        FetchPhase::Start => FetchStep::CheckSaved { path: savepath },
        FetchPhase::Manifest => FetchStep::ReadManifest {
            path: manifest_path_in(s.config_dir.as_slice(), s.sbc_model.as_str()),
        },
        FetchPhase::CacheDir => FetchStep::CreateDir { path: dir },
        FetchPhase::Saved => FetchStep::CheckSaved { path: savepath },
        FetchPhase::Download => FetchStep::Download { url: s.url.clone(), savepath },
        FetchPhase::Finished => FetchStep::Finish { savepath, cached: s.cached },
        FetchPhase::Failed => FetchStep::Fail {
            error: match &s.error {
                Some(e) => copy_error(e),
                None => BuildError::UnexpectedEvent,
            },
        },
    }
}

/// Decides the next step of a fetch: from the state and what the last step
/// reported, the next state (`fetch_next_phase`, `fetch_carries`) and the
/// step it asks for (`fetch_issues`). A manifest handed in must name a file
/// by its foundation URL.
pub fn fetch_foundation_step(state: &FetchState, event: FetchEvent) -> (res: (FetchState, FetchStep))
    requires
        !names_no_file(*state, event),
    ensures
        res.0.phase == fetch_next_phase(*state, event),
        fetch_carries(*state, event, res.0),
        fetch_issues(res.0, res.1),
{
    let mut t = FetchState {
        phase: state.phase,
        sbc_model: state.sbc_model.clone(),
        overwrite: state.overwrite,
        config_dir: bytes_copy(state.config_dir.as_slice()),
        cache_dir: bytes_copy(state.cache_dir.as_slice()),
        url: state.url.clone(),
        cached: state.cached,
        error: match &state.error {
            Some(e) => Some(copy_error(e)),
            None => None,
        },
    };
    let phase = state.phase;
    if phase != FetchPhase::Finished && phase != FetchPhase::Failed {
        let mut next = FetchPhase::Failed;
        match event {
            FetchEvent::Begin => {
                if phase == FetchPhase::Start {
                    next = FetchPhase::Manifest;
                }
            },
            FetchEvent::ManifestRead { manifest } => {
                if phase == FetchPhase::Manifest {
                    t.url = manifest.foundation_url;
                    next = FetchPhase::CacheDir;
                }
            },
            FetchEvent::Done => {
                if phase == FetchPhase::CacheDir {
                    next = FetchPhase::Saved;
                }
            },
            FetchEvent::SavedChecked { exists } => {
                if phase == FetchPhase::Saved {
                    let keep = exists && !state.overwrite;
                    t.cached = keep;
                    next = if keep { FetchPhase::Finished } else { FetchPhase::Download };
                }
            },
            FetchEvent::Downloaded => {
                if phase == FetchPhase::Download {
                    next = FetchPhase::Finished;
                }
            },
        }
        t.phase = next;
        if next == FetchPhase::Failed {
            t.error = Some(BuildError::UnexpectedEvent);
        }
    }
    let a = fetch_action_for(&t);
    (t, a)
}

} // verus!
