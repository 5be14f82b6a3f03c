//! Platform manifests: where they live and what they name.
//!
//! A manifest describes the inputs needed to build a target platform,
//! beginning with its foundation filesystem.
use vstd::prelude::*;
use vstd::utf8::{decode_utf8, encode_utf8, valid_utf8};
use crate::BuildError;
use crate::names::{lit_manifests, lit_parch_builder, lit_yml_ext, manifests, parch_builder, yml_ext};
use crate::paths::{bytes_of, concat_bytes, join, path_join};
use crate::text::utf8_text;
use crate::urls::{url_filename, url_filename_of};
use crate::user_dirs::{is_user_config_dir, user_config_dir};

verus! {

/// A platform manifest.
#[derive(Debug, Clone, PartialEq, Eq)]
pub struct Manifest {
    /// Where the foundation filesystem archive is downloaded from.
    pub foundation_url: String,
}

/// The manifest directory under a configuration directory:
/// `<config>/parch-builder/manifests`.
pub open spec fn manifest_dir_under(config: Seq<u8>) -> Seq<u8> {
    path_join(path_join(config, lit_parch_builder()), lit_manifests())
}

/// The manifest file of the platform `name` under a configuration directory:
/// `<config>/parch-builder/manifests/<name>.yml`.
pub open spec fn manifest_path_under(config: Seq<u8>, name: Seq<char>) -> Seq<u8> {
    path_join(manifest_dir_under(config), encode_utf8(name) + lit_yml_ext())
}

/// The manifest directory under the configuration directory `config_dir`.
pub fn manifest_dir_in(config_dir: &[u8]) -> (res: Vec<u8>)
    ensures
        res@ == manifest_dir_under(config_dir@),
{
    let app = join(config_dir, parch_builder().as_slice());
    join(app.as_slice(), manifests().as_slice())
}

/// The manifest file of the platform `name` under `config_dir`.
pub fn manifest_path_in(config_dir: &[u8], name: &str) -> (res: Vec<u8>)
    ensures
        res@ == manifest_path_under(config_dir@, name@),
{
    let dir = manifest_dir_in(config_dir);
    let file = concat_bytes(bytes_of(name).as_slice(), yml_ext().as_slice());
    join(dir.as_slice(), file.as_slice())
}

/// The platform-standard directory for manifests, under the user's
/// configuration directory (on Linux `~/.config/parch-builder/manifests`).
pub fn manifest_dir() -> (res: Result<Vec<u8>, BuildError>)
    ensures
        match res {
            Ok(d) => exists|config: Seq<u8>| is_user_config_dir(config) && d@ == manifest_dir_under(config),
            Err(e) => e == BuildError::UserDirsUnavailable,
        },
{
    match user_config_dir() {
        Some(config) => Ok(manifest_dir_in(config.config_bytes())),
        None => Err(BuildError::UserDirsUnavailable),
    }
}

/// The platform-standard path of the manifest named `name`, e.g.
/// `~/.config/parch-builder/manifests/rpi2w.yml` on Linux.
pub fn manifest_path(name: &str) -> (res: Result<Vec<u8>, BuildError>)
    ensures
        match res {
            Ok(p) => exists|config: Seq<u8>|
                is_user_config_dir(config) && p@ == manifest_path_under(config, name@),
            Err(e) => e == BuildError::UserDirsUnavailable,
        },
{
    match user_config_dir() {
        Some(config) => Ok(manifest_path_in(config.config_bytes(), name)),
        None => Err(BuildError::UserDirsUnavailable),
    }
}

/// The glob pattern that lists the manifests in `manifest_dir`: the
/// directory as text, or `.config/parch-builder/manifests` where it is not
/// UTF-8, followed by `/*.yml`.
pub fn manifest_glob_pattern(manifest_dir: &[u8]) -> (res: String)
    ensures
        valid_utf8(manifest_dir@) ==> res@ == decode_utf8(manifest_dir@) + "/*.yml"@,
        !valid_utf8(manifest_dir@) ==> res@ == ".config/parch-builder/manifests"@ + "/*.yml"@,
{
    let mut pattern = match utf8_text(manifest_dir) {
        Some(dir) => dir,
        None => String::from_str(".config/parch-builder/manifests"),
    };
    pattern.append("/*.yml");
    pattern
}

impl Manifest {
    /// The file name of the foundation archive: the last path segment of
    /// the foundation URL.
    pub fn foundation_archive_name(&self) -> (res: Result<Vec<u8>, BuildError>)
        ensures
            match res {
                Ok(name) => url_filename_of(self.foundation_url@) == Some(name@),
                Err(e) => url_filename_of(self.foundation_url@) is None
                    && e == BuildError::NoFilenameInUrl,
            },
    {
        match url_filename(self.foundation_url.as_str()) {
            Some(name) => Ok(name),
            None => Err(BuildError::NoFilenameInUrl),
        }
    }
}

} // verus!
