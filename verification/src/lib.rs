//! Reproducible builds of PArch system images for Pi-style single-board
//! computers: the paths, commands and step-by-step decisions of fetching
//! foundations and building images; the caller carries out each step.
pub mod paths;
pub mod urls;
pub mod image_build;
pub mod build_laws;
pub mod decimal;
pub mod downloader;
pub mod fetch;
pub mod fetch_steps;
pub mod image;
pub mod laws;
pub mod manifest;
pub mod names;
pub mod text;
pub mod user_dirs;

use vstd::prelude::*;
use crate::fetch_steps::{
    fetch_carries, fetch_foundation_step, fetch_issues, fetch_next_phase, names_no_file,
    FetchEvent, FetchPhase, FetchState, FetchStep,
};
use crate::urls::url_filename;

verus! {

/// Why a step of fetching or building could not be planned. Paths are
/// given as they are displayed.
#[derive(Debug, Clone, PartialEq, Eq)]
pub enum BuildError {
    /// No home directory, hence no cache or configuration directory, was found.
    UserDirsUnavailable,
    /// The URL has no path segment to name the downloaded file by.
    NoFilenameInUrl,
    /// The image to compress is not a file.
    ImageNotFound { path: String },
    /// The foundation archive of the platform is not a file.
    ArchiveNotFound { path: String, sbc_model: String },
    /// A partition could not be mounted.
    MountFailed { partition: String, mountpoint: String },
    /// The new filesystem has no boot directory to copy.
    BootDirMissing { path: String },
    /// The boot files could not be copied to the boot partition.
    BootCopyFailed { from: String, to: String },
    /// A build step reported something other than what was asked of it.
    UnexpectedEvent,
}

/// A copy of an error.
pub fn copy_error(e: &BuildError) -> (res: BuildError)
    ensures
        res == *e,
{
    match e {
        BuildError::UserDirsUnavailable => BuildError::UserDirsUnavailable,
        BuildError::NoFilenameInUrl => BuildError::NoFilenameInUrl,
        BuildError::ImageNotFound { path } => BuildError::ImageNotFound { path: path.clone() },
        BuildError::ArchiveNotFound { path, sbc_model } => BuildError::ArchiveNotFound {
            path: path.clone(),
            sbc_model: sbc_model.clone(),
        },
        BuildError::MountFailed { partition, mountpoint } => BuildError::MountFailed {
            partition: partition.clone(),
            mountpoint: mountpoint.clone(),
        },
        BuildError::BootDirMissing { path } => BuildError::BootDirMissing { path: path.clone() },
        BuildError::BootCopyFailed { from, to } => BuildError::BootCopyFailed {
            from: from.clone(),
            to: to.clone(),
        },
        BuildError::UnexpectedEvent => BuildError::UnexpectedEvent,
    }
}

/// Each byte string of a sequence by its bytes.
pub open spec fn byte_views(s: Seq<Vec<u8>>) -> Seq<Seq<u8>> {
    s.map_values(|a: Vec<u8>| a@)
}

/// Pushing a byte string pushes its bytes onto the views.
pub proof fn lemma_byte_views_push(s: Seq<Vec<u8>>, x: Vec<u8>)
    ensures
        byte_views(s.push(x)) == byte_views(s).push(x@),
{
    assert(byte_views(s.push(x)) =~= byte_views(s).push(x@));
}

/// Pushes an argument.
pub fn push_arg(args: &mut Vec<Vec<u8>>, arg: Vec<u8>)
    ensures
        byte_views(final(args)@) == byte_views(old(args)@).push(arg@),
{
    proof {
        lemma_byte_views_push(args@, arg);
    }
    args.push(arg);
}

/// A command line: the program and its arguments, as the operating system
/// sees them.
#[derive(Debug, Clone, PartialEq, Eq)]
pub struct CommandLine {
    pub program: Vec<u8>,
    pub args: Vec<Vec<u8>>,
}

impl CommandLine {
    /// The arguments, each by its bytes.
    pub open spec fn arg_views(&self) -> Seq<Seq<u8>> {
        byte_views(self.args@)
    }
}

/// `sudo <cmd_name>`, the start of every privileged command.
pub fn sudo_cmd(cmd_name: Vec<u8>) -> (res: CommandLine)
    ensures
        res.program@ == names::lit_sudo(),
        res.arg_views() == seq![cmd_name@],
{
    let ghost name = cmd_name@;
    let mut args: Vec<Vec<u8>> = Vec::new();
    args.push(cmd_name);
    let res = CommandLine { program: names::sudo(), args };
    assert(res.arg_views() =~= seq![name]);
    res
}

/// Reads a platform's manifest and fetches the foundation it names, one
/// step at a time: `None` where the step would hand over a manifest whose
/// foundation URL names no file (the fetch cannot go on); otherwise the next
/// state and step that `fetch_foundation_step` decides.
pub fn read_manifest_and_fetch_foundation(state: &FetchState, event: FetchEvent) -> (res: Option<
    (FetchState, FetchStep),
>)
    ensures
        res is None <==> names_no_file(*state, event),
        res matches Some(r) ==> {
            &&& r.0.phase == fetch_next_phase(*state, event)
            &&& fetch_carries(*state, event, r.0)
            &&& fetch_issues(r.0, r.1)
        },
{
    let no_file = match &event {
        FetchEvent::ManifestRead { manifest } => state.phase == FetchPhase::Manifest
            && url_filename(manifest.foundation_url.as_str()).is_none(),
        _ => false,
    };
    if no_file {
        None
    } else {
        Some(fetch_foundation_step(state, event))
    }
}

} // verus!
