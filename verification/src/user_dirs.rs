//! The user's base directories, as the `directories` crate finds them.
//!
//! Each kind of directory has a type of its own, made only here from what
//! `directories` returns, so that code that needs the cache directory cannot
//! be handed the configuration directory, nor the other way round.
use vstd::prelude::*;

verus! {

/// The user's cache directory (`BaseDirs::cache_dir`), as the bytes of its
/// path.
pub struct CacheDir {
    bytes: Vec<u8>,
}

/// The user's configuration directory (`BaseDirs::config_dir`), as the bytes
/// of its path.
pub struct ConfigDir {
    bytes: Vec<u8>,
}

/// Whether `p` is the path of a directory handed out as the user's cache
/// directory: the path of a `CacheDir`, which only `user_cache_dir` makes.
pub open spec fn is_user_cache_dir(p: Seq<u8>) -> bool {
    exists|c: CacheDir| #[trigger] c@ == p
}

/// Whether `p` is the path of a directory handed out as the user's
/// configuration directory: the path of a `ConfigDir`, which only
/// `user_config_dir` makes.
pub open spec fn is_user_config_dir(p: Seq<u8>) -> bool {
    exists|c: ConfigDir| #[trigger] c@ == p
}

impl View for CacheDir {
    type V = Seq<u8>;

    closed spec fn view(&self) -> Seq<u8> {
        self.bytes@
    }
}

impl View for ConfigDir {
    type V = Seq<u8>;

    closed spec fn view(&self) -> Seq<u8> {
        self.bytes@
    }
}

impl CacheDir {
    /// The bytes of the cache directory's path.
    pub(crate) fn cache_bytes(&self) -> (res: &[u8])
        ensures
            res@ == self@,
            is_user_cache_dir(res@),
    {
        assert(is_user_cache_dir(self@)) by {
            let c = *self;
            assert(c@ == self@);
        }
        self.bytes.as_slice()
    }
}

impl ConfigDir {
    /// The bytes of the configuration directory's path.
    pub(crate) fn config_bytes(&self) -> (res: &[u8])
        ensures
            res@ == self@,
            is_user_config_dir(res@),
    {
        assert(is_user_config_dir(self@)) by {
            let c = *self;
            assert(c@ == self@);
        }
        self.bytes.as_slice()
    }
}

/// The user's cache directory: `directories::BaseDirs::new()` and then
/// `BaseDirs::cache_dir`, as the bytes of the path, or `None` where no home
/// directory can be found. Nothing is promised of the path: it depends on
/// the environment (`HOME`, `XDG_CACHE_HOME`).
#[verifier::external_body]
pub(crate) fn user_cache_dir() -> (res: Option<CacheDir>) {
    match directories::BaseDirs::new() {
        Some(dirs) => Some(CacheDir { bytes: dirs.cache_dir().as_os_str().as_encoded_bytes().to_vec() }),
        None => None,
    }
}

/// The user's configuration directory: `directories::BaseDirs::new()` and
/// then `BaseDirs::config_dir`, as the bytes of the path, or `None` where no
/// home directory can be found. Nothing is promised of the path: it
/// depends on the environment (`HOME`, `XDG_CONFIG_HOME`).
#[verifier::external_body]
pub(crate) fn user_config_dir() -> (res: Option<ConfigDir>) {
    match directories::BaseDirs::new() {
        Some(dirs) => Some(ConfigDir { bytes: dirs.config_dir().as_os_str().as_encoded_bytes().to_vec() }),
        None => None,
    }
}

} // verus!
