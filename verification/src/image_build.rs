//! Building a foundation image, step by step: a mock SD card is created,
//! partitioned and formatted; the foundation archive is checked; the root
//! partition is mounted and the archive unpacked onto it; the boot
//! partition is mounted and the boot files of the new filesystem copied onto
//! it; everything is synced and unmounted and the card detached.
//!
//! `next_build_step` decides, from the state and what the last step
//! reported, the next state and the next step to carry out.
use vstd::prelude::*;
use crate::{BuildError, CommandLine, copy_error};
use crate::names::{
    lit_boot, lit_bsdtar, lit_cp, lit_dash_a, lit_dash_c, lit_dot, lit_mount, lit_p1, lit_p2,
    lit_root, lit_sudo, lit_sync, lit_umount, lit_xpf,
};
use crate::text::{display_text, lossy_text};
use crate::image::{
    archive_path_under, boot_dir_to_copy, bytes_copy, copy_boot_command, displayed, extract_command,
    foundation_archive_path_in, image_cache_dir_in, image_path_in, image_path_under,
    images_dir_under, mount_command, partition_paths, sudo_args, sync_command, unmount_command,
    PartitionPaths,
};
use crate::manifest::Manifest;
use crate::paths::{join, path_join};
use crate::names::{boot, root};
use crate::urls::url_filename_of;
use crate::user_dirs::{is_user_cache_dir, user_cache_dir};

verus! {

/// Where a build stands: the step it waits on, in the order they run.
#[derive(Clone, Copy, Debug, PartialEq, Eq, Structural)]
pub enum BuildPhase {
    /// Nothing done yet.
    Start,
    /// Waiting for the image directory to be created.
    ImageDir,
    /// Waiting for the mock SD card (image file on a loop device).
    MockSd,
    /// Waiting for the partition table.
    Partition,
    /// Waiting for the partitions to be formatted.
    Format,
    /// Waiting for the platform's manifest.
    Manifest,
    /// Waiting to learn whether the foundation archive is a file.
    Archive,
    /// Waiting for a scratch directory for the mount points.
    MountDir,
    /// Waiting for the root mount point to be created.
    RootDir,
    /// Waiting for the boot mount point to be created.
    BootDir,
    /// Waiting for the root mount point to be created before mounting.
    RootMountDir,
    /// Waiting for the root partition to be mounted.
    MountRoot,
    /// Waiting for the archive to be unpacked onto the root partition.
    Extract,
    /// Waiting for the sync after unpacking.
    ExtractSync,
    /// Waiting for the boot mount point to be created before mounting.
    BootMountDir,
    /// Waiting for the boot partition to be mounted.
    MountBoot,
    /// Waiting to learn whether the new filesystem has a boot directory.
    BootFiles,
    /// Waiting for the boot files to be copied.
    CopyBoot,
    /// Waiting for the sync before unmounting.
    Sync,
    /// Waiting for the boot partition to be unmounted.
    UnmountBoot,
    /// Waiting for the root partition to be unmounted.
    UnmountRoot,
    /// Waiting for the last sync.
    FinalSync,
    /// Waiting for the loop device to be detached.
    Detach,
    /// The image is built.
    Finished,
    /// The build stopped at an error.
    Failed,
}

/// A build in progress.
#[derive(Debug)]
pub struct BuildState {
    pub phase: BuildPhase,
    pub sbc_model: String,
    /// The user's cache directory, under which images and archives lie.
    pub cache_dir: Vec<u8>,
    pub mock_sd_size_mib: u64,
    pub boot_size_mib: u64,
    /// The loop device of the mock SD card, once created.
    pub device: Vec<u8>,
    /// The foundation archive, once the manifest is read.
    pub archive_path: Vec<u8>,
    /// The scratch directory holding the mount points, once made.
    pub mount_dir: Vec<u8>,
    /// Why the build stopped, once it has.
    pub error: Option<BuildError>,
}

/// What the last step reported.
#[derive(Debug)]
pub enum BuildEvent {
    /// The build is to begin.
    Begin,
    /// A directory was created, the card partitioned or formatted, or the
    /// device detached.
    Done,
    /// The mock SD card is attached at `device`.
    MockSdCreated { device: Vec<u8> },
    /// The platform's manifest was read.
    ManifestRead { manifest: Manifest },
    /// Whether the foundation archive is a file.
    ArchiveChecked { is_file: bool },
    /// A scratch directory was made at `dir`.
    MountDirMade { dir: Vec<u8> },
    /// A command ran, successfully or not.
    Ran { success: bool },
    /// Whether the boot directory of the new filesystem is a directory.
    BootDirChecked { is_dir: bool },
}

/// The next step to carry out.
#[derive(Debug, PartialEq, Eq)]
pub enum BuildAction {
    /// Create the directory `path` and its parents.
    CreateDir { path: Vec<u8> },
    /// Create an image file of `size_mib` MiB at `image_path` and attach it
    /// to a loop device.
    CreateMockSd { image_path: Vec<u8>, size_mib: u64 },
    /// Write the partition table: boot of `boot_size_mib` MiB, root on the rest.
    Partition { boot_size_mib: u64 },
    /// Format the two partitions.
    Format { partitions: PartitionPaths },
    /// Read the manifest of `sbc_model`.
    ReadManifest { sbc_model: String },
    /// Find out whether `path` is a file.
    CheckArchive { path: Vec<u8> },
    /// Make a scratch directory.
    MakeMountDir,
    /// Run a command and report whether it succeeded.
    Run { command: CommandLine },
    /// Find out whether `path` is a directory.
    CheckBootDir { path: Vec<u8> },
    /// Detach the loop device.
    Detach,
    /// The image is built at `image_path`.
    Finish { image_path: Vec<u8> },
    /// The build stopped at `error`.
    Fail { error: BuildError },
}

/// The image file of the build.
pub open spec fn image_file(s: BuildState) -> Seq<u8> {
    image_path_under(images_dir_under(s.cache_dir@), s.sbc_model@)
}

/// The boot partition of the build's device.
pub open spec fn boot_partition(s: BuildState) -> Seq<u8> {
    s.device@ + lit_p1()
}

/// The root partition of the build's device.
pub open spec fn root_partition(s: BuildState) -> Seq<u8> {
    s.device@ + lit_p2()
}

/// Where the root partition is mounted.
pub open spec fn root_mountpoint(s: BuildState) -> Seq<u8> {
    path_join(s.mount_dir@, lit_root())
}

/// Where the boot partition is mounted.
pub open spec fn boot_mountpoint(s: BuildState) -> Seq<u8> {
    path_join(s.mount_dir@, lit_boot())
}

/// The boot directory of the new filesystem.
pub open spec fn boot_files_dir(s: BuildState) -> Seq<u8> {
    path_join(root_mountpoint(s), lit_boot())
}

/// Whether `a` runs `sudo <name> <args..>`.
pub open spec fn runs(a: BuildAction, name: Seq<u8>, args: Seq<Seq<u8>>) -> bool {
    match a {
        BuildAction::Run { command } => command.program@ == lit_sudo() && command.arg_views()
            == sudo_args(name, args),
        _ => false,
    }
}

/// Whether `a` creates the directory `path`.
pub open spec fn creates_dir(a: BuildAction, path: Seq<u8>) -> bool {
    match a {
        BuildAction::CreateDir { path: p } => p@ == path,
        _ => false,
    }
}

/// The error a stopped build reports.
pub open spec fn stop_error(s: BuildState) -> BuildError {
    match s.error {
        Some(e) => e,
        None => BuildError::UnexpectedEvent,
    }
}

/// Whether `a` is the step that the state `s` asks for.
pub open spec fn issues(s: BuildState, a: BuildAction) -> bool {
    match s.phase {
        BuildPhase::Start => false,
        BuildPhase::ImageDir => creates_dir(a, images_dir_under(s.cache_dir@)),
        BuildPhase::MockSd => match a {
            BuildAction::CreateMockSd { image_path, size_mib } => image_path@ == image_file(s)
                && size_mib == s.mock_sd_size_mib,
            _ => false,
        },
        BuildPhase::Partition => a == BuildAction::Partition { boot_size_mib: s.boot_size_mib },
        BuildPhase::Format => match a {
            BuildAction::Format { partitions } => partitions.boot@ == boot_partition(s)
                && partitions.root@ == root_partition(s),
            _ => false,
        },
        BuildPhase::Manifest => match a {
            BuildAction::ReadManifest { sbc_model } => sbc_model@ == s.sbc_model@,
            _ => false,
        },
        BuildPhase::Archive => match a {
            BuildAction::CheckArchive { path } => path@ == s.archive_path@,
            _ => false,
        },
        BuildPhase::MountDir => a == BuildAction::MakeMountDir,
        BuildPhase::RootDir => creates_dir(a, root_mountpoint(s)),
        BuildPhase::BootDir => creates_dir(a, boot_mountpoint(s)),
        BuildPhase::RootMountDir => creates_dir(a, root_mountpoint(s)),
        BuildPhase::MountRoot => runs(a, lit_mount(), seq![root_partition(s), root_mountpoint(s)]),
        BuildPhase::Extract => runs(
            a,
            lit_bsdtar(),
            seq![lit_xpf(), displayed(s.archive_path@), lit_dash_c(), displayed(root_mountpoint(s))],
        ),
        BuildPhase::ExtractSync => runs(a, lit_sync(), Seq::empty()),
        BuildPhase::BootMountDir => creates_dir(a, boot_mountpoint(s)),
        BuildPhase::MountBoot => runs(a, lit_mount(), seq![boot_partition(s), boot_mountpoint(s)]),
        BuildPhase::BootFiles => match a {
            BuildAction::CheckBootDir { path } => path@ == boot_files_dir(s),
            _ => false,
        },
        BuildPhase::CopyBoot => runs(
            a,
            lit_cp(),
            seq![lit_dash_a(), path_join(boot_files_dir(s), lit_dot()), boot_mountpoint(s)],
        ),
        BuildPhase::Sync => runs(a, lit_sync(), Seq::empty()),
        BuildPhase::UnmountBoot => runs(a, lit_umount(), seq![boot_partition(s)]),
        BuildPhase::UnmountRoot => runs(a, lit_umount(), seq![root_partition(s)]),
        BuildPhase::FinalSync => runs(a, lit_sync(), Seq::empty()),
        BuildPhase::Detach => a == BuildAction::Detach,
        BuildPhase::Finished => match a {
            BuildAction::Finish { image_path } => image_path@ == image_file(s),
            _ => false,
        },
        BuildPhase::Failed => a == BuildAction::Fail { error: stop_error(s) },
    }
}

/// The phase a build moves to from `s` when `e` is reported: the next step
/// in order when `e` is what the step waited on and reports success; a
/// stopped build where it reports failure or is not what was waited on;
/// finished and stopped builds stay as they are.
pub open spec fn next_phase(s: BuildState, e: BuildEvent) -> BuildPhase {
    match s.phase {
        BuildPhase::Finished => BuildPhase::Finished,
        BuildPhase::Failed => BuildPhase::Failed,
        BuildPhase::Start => if e is Begin { BuildPhase::ImageDir } else { BuildPhase::Failed },
        BuildPhase::ImageDir => if e is Done { BuildPhase::MockSd } else { BuildPhase::Failed },
        BuildPhase::MockSd => if e is MockSdCreated { BuildPhase::Partition } else { BuildPhase::Failed },
        BuildPhase::Partition => if e is Done { BuildPhase::Format } else { BuildPhase::Failed },
        BuildPhase::Format => if e is Done { BuildPhase::Manifest } else { BuildPhase::Failed },
        BuildPhase::Manifest => match e {
            BuildEvent::ManifestRead { manifest } => if url_filename_of(manifest.foundation_url@) is Some {
                BuildPhase::Archive
            } else {
                BuildPhase::Failed
            },
            _ => BuildPhase::Failed,
        },
        BuildPhase::Archive => match e {
            BuildEvent::ArchiveChecked { is_file } => if is_file {
                BuildPhase::MountDir
            } else {
                BuildPhase::Failed
            },
            _ => BuildPhase::Failed,
        },
        BuildPhase::MountDir => if e is MountDirMade { BuildPhase::RootDir } else { BuildPhase::Failed },
        BuildPhase::RootDir => if e is Done { BuildPhase::BootDir } else { BuildPhase::Failed },
        BuildPhase::BootDir => if e is Done { BuildPhase::RootMountDir } else { BuildPhase::Failed },
        BuildPhase::RootMountDir => if e is Done { BuildPhase::MountRoot } else { BuildPhase::Failed },
        BuildPhase::MountRoot => match e {
            BuildEvent::Ran { success } => if success { BuildPhase::Extract } else { BuildPhase::Failed },
            _ => BuildPhase::Failed,
        },
        BuildPhase::Extract => if e is Ran { BuildPhase::ExtractSync } else { BuildPhase::Failed },
        BuildPhase::ExtractSync => if e is Ran { BuildPhase::BootMountDir } else { BuildPhase::Failed },
        BuildPhase::BootMountDir => if e is Done { BuildPhase::MountBoot } else { BuildPhase::Failed },
        BuildPhase::MountBoot => match e {
            BuildEvent::Ran { success } => if success { BuildPhase::BootFiles } else { BuildPhase::Failed },
            _ => BuildPhase::Failed,
        },
        BuildPhase::BootFiles => match e {
            BuildEvent::BootDirChecked { is_dir } => if is_dir {
                BuildPhase::CopyBoot
            } else {
                BuildPhase::Failed
            },
            _ => BuildPhase::Failed,
        },
        BuildPhase::CopyBoot => match e {
            BuildEvent::Ran { success } => if success { BuildPhase::Sync } else { BuildPhase::Failed },
            _ => BuildPhase::Failed,
        },
        BuildPhase::Sync => if e is Ran { BuildPhase::UnmountBoot } else { BuildPhase::Failed },
        BuildPhase::UnmountBoot => if e is Ran { BuildPhase::UnmountRoot } else { BuildPhase::Failed },
        BuildPhase::UnmountRoot => if e is Ran { BuildPhase::FinalSync } else { BuildPhase::Failed },
        BuildPhase::FinalSync => if e is Ran { BuildPhase::Detach } else { BuildPhase::Failed },
        BuildPhase::Detach => if e is Done { BuildPhase::Finished } else { BuildPhase::Failed },
    }
}

/// The error a build that stops at `e` in state `s` reports.
pub open spec fn stops_with(s: BuildState, e: BuildEvent, err: BuildError) -> bool {
    match (s.phase, e) {
        (BuildPhase::Manifest, BuildEvent::ManifestRead { .. }) => err == BuildError::NoFilenameInUrl,
        (BuildPhase::Archive, BuildEvent::ArchiveChecked { .. }) => match err {
            BuildError::ArchiveNotFound { path, sbc_model } => path@ == lossy_text(s.archive_path@)
                && sbc_model == s.sbc_model,
            _ => false,
        },
        (BuildPhase::MountRoot, BuildEvent::Ran { .. }) => match err {
            BuildError::MountFailed { partition, mountpoint } => partition@ == lossy_text(
                root_partition(s),
            ) && mountpoint@ == lossy_text(root_mountpoint(s)),
            _ => false,
        },
        (BuildPhase::MountBoot, BuildEvent::Ran { .. }) => match err {
            BuildError::MountFailed { partition, mountpoint } => partition@ == lossy_text(
                boot_partition(s),
            ) && mountpoint@ == lossy_text(boot_mountpoint(s)),
            _ => false,
        },
        (BuildPhase::BootFiles, BuildEvent::BootDirChecked { .. }) => match err {
            BuildError::BootDirMissing { path } => path@ == lossy_text(boot_files_dir(s)),
            _ => false,
        },
        (BuildPhase::CopyBoot, BuildEvent::Ran { .. }) => match err {
            BuildError::BootCopyFailed { from, to } => from@ == lossy_text(boot_files_dir(s))
                && to@ == lossy_text(boot_mountpoint(s)),
            _ => false,
        },
        _ => err == BuildError::UnexpectedEvent,
    }
}

/// What a step keeps and what it learns: the inputs stay; the device, the
/// archive path and the scratch directory are taken from the step that
/// reports them.
pub open spec fn carries(s: BuildState, e: BuildEvent, t: BuildState) -> bool {
    &&& t.sbc_model == s.sbc_model
    &&& t.cache_dir@ == s.cache_dir@
    &&& t.mock_sd_size_mib == s.mock_sd_size_mib
    &&& t.boot_size_mib == s.boot_size_mib
    &&& t.device@ == match e {
        BuildEvent::MockSdCreated { device } => if s.phase == BuildPhase::MockSd {
            device@
        } else {
            s.device@
        },
        _ => s.device@,
    }
    &&& t.archive_path@ == match e {
        BuildEvent::ManifestRead { manifest } => if s.phase == BuildPhase::Manifest
            && archive_path_under(s.cache_dir@, manifest) is Some {
            archive_path_under(s.cache_dir@, manifest)->0
        } else {
            s.archive_path@
        },
        _ => s.archive_path@,
    }
    &&& t.mount_dir@ == match e {
        BuildEvent::MountDirMade { dir } => if s.phase == BuildPhase::MountDir {
            dir@
        } else {
            s.mount_dir@
        },
        _ => s.mount_dir@,
    }
    &&& if t.phase == BuildPhase::Failed && s.phase != BuildPhase::Failed {
        t.error matches Some(err) && stops_with(s, e, err)
    } else {
        t.error == s.error
    }
}

/// A build of `sbc_model` under the cache directory `cache_dir`, not yet begun.
pub fn new_build_in(
    sbc_model: &str,
    cache_dir: &[u8],
    mock_sd_size_mib: u64,
    boot_size_mib: u64,
) -> (res: BuildState)
    ensures
        res.phase == BuildPhase::Start,
        res.sbc_model@ == sbc_model@,
        res.cache_dir@ == cache_dir@,
        res.mock_sd_size_mib == mock_sd_size_mib,
        res.boot_size_mib == boot_size_mib,
        res.device@ == Seq::<u8>::empty(),
        res.archive_path@ == Seq::<u8>::empty(),
        res.mount_dir@ == Seq::<u8>::empty(),
        res.error is None,
{
    BuildState {
        phase: BuildPhase::Start,
        sbc_model: String::from_str(sbc_model),
        cache_dir: bytes_copy(cache_dir),
        mock_sd_size_mib,
        boot_size_mib,
        device: Vec::new(),
        archive_path: Vec::new(),
        mount_dir: Vec::new(),
        error: None,
    }
}

/// A build of `sbc_model` under the user's cache directory, not yet begun.
pub fn new_build(sbc_model: &str, mock_sd_size_mib: u64, boot_size_mib: u64) -> (res: Result<
    BuildState,
    BuildError,
>)
    ensures
        match res {
            Ok(s) => {
                &&& s.phase == BuildPhase::Start
                &&& s.sbc_model@ == sbc_model@
                &&& is_user_cache_dir(s.cache_dir@)
                &&& s.mock_sd_size_mib == mock_sd_size_mib
                &&& s.boot_size_mib == boot_size_mib
                &&& s.device@ == Seq::<u8>::empty()
                &&& s.archive_path@ == Seq::<u8>::empty()
                &&& s.mount_dir@ == Seq::<u8>::empty()
                &&& s.error is None
            },
            Err(e) => e == BuildError::UserDirsUnavailable,
        },
{
    match user_cache_dir() {
        Some(cache) => Ok(new_build_in(sbc_model, cache.cache_bytes(), mock_sd_size_mib, boot_size_mib)),
        None => Err(BuildError::UserDirsUnavailable),
    }
}

/// The step that the state `s` asks for.
fn action_for(s: &BuildState) -> (a: BuildAction)
    requires
        s.phase != BuildPhase::Start,
    ensures
        issues(*s, a),
{
    let root = join(s.mount_dir.as_slice(), root().as_slice());
    let boot = join(s.mount_dir.as_slice(), boot().as_slice());
    let parts = partition_paths(s.device.as_slice());
    match s.phase {
        BuildPhase::Start => BuildAction::MakeMountDir,
        BuildPhase::ImageDir => BuildAction::CreateDir { path: image_cache_dir_in(s.cache_dir.as_slice()) },
        BuildPhase::MockSd => {
            let dir = image_cache_dir_in(s.cache_dir.as_slice());
            BuildAction::CreateMockSd {
                image_path: image_path_in(dir.as_slice(), s.sbc_model.as_str()),
                size_mib: s.mock_sd_size_mib,
            }
        },
        BuildPhase::Partition => BuildAction::Partition { boot_size_mib: s.boot_size_mib },
        BuildPhase::Format => BuildAction::Format { partitions: parts },
        BuildPhase::Manifest => BuildAction::ReadManifest { sbc_model: s.sbc_model.clone() },
        BuildPhase::Archive => BuildAction::CheckArchive { path: bytes_copy(s.archive_path.as_slice()) },
        BuildPhase::MountDir => BuildAction::MakeMountDir,
        BuildPhase::RootDir => BuildAction::CreateDir { path: root },
        BuildPhase::BootDir => BuildAction::CreateDir { path: boot },
        BuildPhase::RootMountDir => BuildAction::CreateDir { path: root },
        BuildPhase::MountRoot => BuildAction::Run {
            command: mount_command(parts.root.as_slice(), root.as_slice()),
        },
        BuildPhase::Extract => BuildAction::Run {
            command: extract_command(s.archive_path.as_slice(), root.as_slice()),
        },
        BuildPhase::ExtractSync => BuildAction::Run { command: sync_command() },
        BuildPhase::BootMountDir => BuildAction::CreateDir { path: boot },
        BuildPhase::MountBoot => BuildAction::Run {
            command: mount_command(parts.boot.as_slice(), boot.as_slice()),
        },
        BuildPhase::BootFiles => BuildAction::CheckBootDir { path: boot_dir_to_copy(root.as_slice()) },
        BuildPhase::CopyBoot => {
            let from = boot_dir_to_copy(root.as_slice());
            BuildAction::Run { command: copy_boot_command(from.as_slice(), boot.as_slice()) }
        },
        BuildPhase::Sync => BuildAction::Run { command: sync_command() },
        BuildPhase::UnmountBoot => BuildAction::Run { command: unmount_command(parts.boot.as_slice()) },
        BuildPhase::UnmountRoot => BuildAction::Run { command: unmount_command(parts.root.as_slice()) },
        BuildPhase::FinalSync => BuildAction::Run { command: sync_command() },
        BuildPhase::Detach => BuildAction::Detach,
        BuildPhase::Finished => {
            let dir = image_cache_dir_in(s.cache_dir.as_slice());
            BuildAction::Finish { image_path: image_path_in(dir.as_slice(), s.sbc_model.as_str()) }
        },
        BuildPhase::Failed => BuildAction::Fail {
            error: match &s.error {
                Some(e) => copy_error(e),
                None => BuildError::UnexpectedEvent,
            },
        },
    }
}

/// Decides the next step of a build: from the state and what the last step
/// reported, the next state (`next_phase`, `carries`) and the step it asks
/// for (`issues`).
pub fn next_build_step(state: &BuildState, event: BuildEvent) -> (res: (BuildState, BuildAction))
    ensures
        res.0.phase == next_phase(*state, event),
        carries(*state, event, res.0),
        issues(res.0, res.1),
{
    let ghost e0 = event;
    let mut t = BuildState {
        phase: state.phase,
        sbc_model: state.sbc_model.clone(),
        cache_dir: bytes_copy(state.cache_dir.as_slice()),
        mock_sd_size_mib: state.mock_sd_size_mib,
        boot_size_mib: state.boot_size_mib,
        device: bytes_copy(state.device.as_slice()),
        archive_path: bytes_copy(state.archive_path.as_slice()),
        mount_dir: bytes_copy(state.mount_dir.as_slice()),
        error: match &state.error {
            Some(e) => Some(copy_error(e)),
            None => None,
        },
    };
    let phase = state.phase;
    if phase != BuildPhase::Finished && phase != BuildPhase::Failed {
        let mut next = BuildPhase::Failed;
        let mut err = BuildError::UnexpectedEvent;
        match event {
            BuildEvent::Begin => {
                if phase == BuildPhase::Start {
                    next = BuildPhase::ImageDir;
                }
            },
            BuildEvent::Done => {
                next = match phase {
                    BuildPhase::ImageDir => BuildPhase::MockSd,
                    BuildPhase::Partition => BuildPhase::Format,
                    BuildPhase::Format => BuildPhase::Manifest,
                    BuildPhase::RootDir => BuildPhase::BootDir,
                    BuildPhase::BootDir => BuildPhase::RootMountDir,
                    BuildPhase::RootMountDir => BuildPhase::MountRoot,
                    BuildPhase::BootMountDir => BuildPhase::MountBoot,
                    BuildPhase::Detach => BuildPhase::Finished,
                    _ => BuildPhase::Failed,
                };
            },
            BuildEvent::MockSdCreated { device } => {
                if phase == BuildPhase::MockSd {
                    t.device = device;
                    next = BuildPhase::Partition;
                }
            },
            BuildEvent::ManifestRead { manifest } => {
                if phase == BuildPhase::Manifest {
                    match foundation_archive_path_in(&manifest, state.cache_dir.as_slice()) {
                        Ok(p) => {
                            t.archive_path = p;
                            next = BuildPhase::Archive;
                        },
                        Err(e) => {
                            err = e;
                        },
                    }
                }
            },
            BuildEvent::ArchiveChecked { is_file } => {
                if phase == BuildPhase::Archive {
                    if is_file {
                        next = BuildPhase::MountDir;
                    } else {
                        err = BuildError::ArchiveNotFound {
                            path: display_text(state.archive_path.as_slice()),
                            sbc_model: state.sbc_model.clone(),
                        };
                    }
                }
            },
            BuildEvent::MountDirMade { dir } => {
                if phase == BuildPhase::MountDir {
                    t.mount_dir = dir;
                    next = BuildPhase::RootDir;
                }
            },
            BuildEvent::Ran { success } => {
                let parts = partition_paths(state.device.as_slice());
                let root = join(state.mount_dir.as_slice(), root().as_slice());
                let boot = join(state.mount_dir.as_slice(), boot().as_slice());
                match phase {
                    BuildPhase::MountRoot => {
                        if success {
                            next = BuildPhase::Extract;
                        } else {
                            err = BuildError::MountFailed {
                                partition: display_text(parts.root.as_slice()),
                                mountpoint: display_text(root.as_slice()),
                            };
                        }
                    },
                    BuildPhase::Extract => {
                        next = BuildPhase::ExtractSync;
                    },
                    BuildPhase::ExtractSync => {
                        next = BuildPhase::BootMountDir;
                    },
                    BuildPhase::MountBoot => {
                        if success {
                            next = BuildPhase::BootFiles;
                        } else {
                            err = BuildError::MountFailed {
                                partition: display_text(parts.boot.as_slice()),
                                mountpoint: display_text(boot.as_slice()),
                            };
                        }
                    },
                    BuildPhase::CopyBoot => {
                        if success {
                            next = BuildPhase::Sync;
                        } else {
                            err = BuildError::BootCopyFailed {
                                from: display_text(boot_dir_to_copy(root.as_slice()).as_slice()),
                                to: display_text(boot.as_slice()),
                            };
                        }
                    },
                    BuildPhase::Sync => {
                        next = BuildPhase::UnmountBoot;
                    },
                    BuildPhase::UnmountBoot => {
                        next = BuildPhase::UnmountRoot;
                    },
                    BuildPhase::UnmountRoot => {
                        next = BuildPhase::FinalSync;
                    },
                    BuildPhase::FinalSync => {
                        next = BuildPhase::Detach;
                    },
                    _ => {},
                }
            },
            BuildEvent::BootDirChecked { is_dir } => {
                if phase == BuildPhase::BootFiles {
                    if is_dir {
                        next = BuildPhase::CopyBoot;
                    } else {
                        let root = join(state.mount_dir.as_slice(), root().as_slice());
                        err = BuildError::BootDirMissing {
                            path: display_text(boot_dir_to_copy(root.as_slice()).as_slice()),
                        };
                    }
                }
            },
        }
        t.phase = next;
        if next == BuildPhase::Failed {
            t.error = Some(err);
        }
    }
    let a = action_for(&t);
    (t, a)
}

} // verus!
