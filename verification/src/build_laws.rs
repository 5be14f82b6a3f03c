//! Properties of the step-by-step image build.
use vstd::prelude::*;
use crate::BuildError;
use crate::names::{lit_bsdtar, lit_cp, lit_mount, lit_sync, lit_umount};
use crate::text::lossy_text;
use crate::image::sudo_args;
use crate::image_build::{
    boot_partition, carries, issues, next_phase, root_partition, runs, stop_error, stops_with,
    BuildAction, BuildEvent, BuildPhase, BuildState, creates_dir, image_file,
};
use crate::image::{archive_path_under, image_path_under, images_dir_under};
use crate::fetch::savepath_under;
use crate::user_dirs::is_user_cache_dir;

verus! {

/// The position of a phase in the build's order.
pub open spec fn phase_index(p: BuildPhase) -> int {
    match p {
        BuildPhase::Start => 0,
        BuildPhase::ImageDir => 1,
        BuildPhase::MockSd => 2,
        BuildPhase::Partition => 3,
        BuildPhase::Format => 4,
        BuildPhase::Manifest => 5,
        BuildPhase::Archive => 6,
        BuildPhase::MountDir => 7,
        BuildPhase::RootDir => 8,
        BuildPhase::BootDir => 9,
        BuildPhase::RootMountDir => 10,
        BuildPhase::MountRoot => 11,
        BuildPhase::Extract => 12,
        BuildPhase::ExtractSync => 13,
        BuildPhase::BootMountDir => 14,
        BuildPhase::MountBoot => 15,
        BuildPhase::BootFiles => 16,
        BuildPhase::CopyBoot => 17,
        BuildPhase::Sync => 18,
        BuildPhase::UnmountBoot => 19,
        BuildPhase::UnmountRoot => 20,
        BuildPhase::FinalSync => 21,
        BuildPhase::Detach => 22,
        BuildPhase::Finished => 23,
        BuildPhase::Failed => 24,
    }
}

/// Whether the root partition is mounted while a build waits in `p`: from
/// the report that its mount succeeded until its unmount is run.
pub open spec fn root_mounted(p: BuildPhase) -> bool {
    phase_index(BuildPhase::MountRoot) < phase_index(p) <= phase_index(BuildPhase::UnmountRoot)
}

/// Whether the boot partition is mounted while a build waits in `p`: from
/// the report that its mount succeeded until its unmount is run.
pub open spec fn boot_mounted(p: BuildPhase) -> bool {
    phase_index(BuildPhase::MountBoot) < phase_index(p) <= phase_index(BuildPhase::UnmountBoot)
}

/// Steps run in their fixed order: each report either moves a running build
/// to the very next phase or stops it; a finished or stopped build stays as
/// it is.
pub proof fn law_build_steps_in_order(s: BuildState, e: BuildEvent)
    ensures
        s.phase == BuildPhase::Finished || s.phase == BuildPhase::Failed ==> next_phase(s, e)
            == s.phase,
        s.phase != BuildPhase::Finished && s.phase != BuildPhase::Failed ==> (next_phase(s, e)
            == BuildPhase::Failed || phase_index(next_phase(s, e)) == phase_index(s.phase) + 1),
{
}

/// A stopped build runs nothing more: it stays stopped, keeps its error and
/// asks only to report it.
pub proof fn law_stopped_build_stays_stopped(s: BuildState, e: BuildEvent, t: BuildState, a: BuildAction)
    requires
        s.phase == BuildPhase::Failed,
        t.phase == next_phase(s, e),
        carries(s, e, t),
        issues(t, a),
    ensures
        t.phase == BuildPhase::Failed,
        t.error == s.error,
        a == (BuildAction::Fail { error: stop_error(s) }),
        !(a is Run),
{
}

/// A foundation archive that is not a file stops the build with
/// `ArchiveNotFound`, and this check comes before either partition is
/// mounted.
pub proof fn law_missing_archive_stops_before_mounting(s: BuildState)
    requires
        s.phase == BuildPhase::Archive,
    ensures
        next_phase(s, BuildEvent::ArchiveChecked { is_file: false }) == BuildPhase::Failed,
        forall|err: BuildError|
            stops_with(s, BuildEvent::ArchiveChecked { is_file: false }, err) <==> (
            err matches BuildError::ArchiveNotFound { path, sbc_model } && path@ == lossy_text(
                s.archive_path@,
            ) && sbc_model == s.sbc_model),
        phase_index(BuildPhase::Archive) < phase_index(BuildPhase::MountRoot),
        phase_index(BuildPhase::Archive) < phase_index(BuildPhase::MountBoot),
        !root_mounted(s.phase),
        !boot_mounted(s.phase),
{
}

/// The device is detached only when neither partition is still mounted.
pub proof fn law_unmounted_before_detach(s: BuildState, a: BuildAction)
    requires
        issues(s, a),
        a == BuildAction::Detach,
    ensures
        s.phase == BuildPhase::Detach,
        !root_mounted(s.phase),
        !boot_mounted(s.phase),
{
}

/// Names of distinct commands differ.
proof fn lemma_command_names_differ()
    ensures
        lit_mount() != lit_umount(),
        lit_mount() != lit_sync(),
        lit_mount() != lit_bsdtar(),
        lit_mount() != lit_cp(),
        lit_umount() != lit_sync(),
        lit_umount() != lit_bsdtar(),
        lit_umount() != lit_cp(),
{
    assert(lit_mount().len() != lit_umount().len());
    assert(lit_mount()[0] != lit_sync()[0]);
    assert(lit_mount()[0] != lit_bsdtar()[0]);
    assert(lit_mount().len() != lit_cp().len());
    assert(lit_umount()[0] != lit_sync()[0]);
    assert(lit_umount()[0] != lit_bsdtar()[0]);
    assert(lit_umount().len() != lit_cp().len());
}

/// The boot and root partitions of a build's device differ.
proof fn lemma_partitions_differ(s: BuildState)
    ensures
        boot_partition(s) != root_partition(s),
{
    crate::laws::law_partitions_distinct(s.device@);
}

/// Each partition is mounted once, by its own step: a step that mounts the
/// boot partition is the boot mount, one that mounts the root partition is
/// the root mount.
pub proof fn law_each_partition_mounted_once(s: BuildState, a: BuildAction, mountpoint: Seq<u8>)
    requires
        issues(s, a),
    ensures
        runs(a, lit_mount(), seq![boot_partition(s), mountpoint]) ==> s.phase == BuildPhase::MountBoot,
        runs(a, lit_mount(), seq![root_partition(s), mountpoint]) ==> s.phase == BuildPhase::MountRoot,
{
    lemma_command_names_differ();
    lemma_partitions_differ(s);
    let b = sudo_args(lit_mount(), seq![boot_partition(s), mountpoint]);
    let r = sudo_args(lit_mount(), seq![root_partition(s), mountpoint]);
    assert(b[0] == lit_mount() && b[1] == boot_partition(s) && b.len() == 3);
    assert(r[0] == lit_mount() && r[1] == root_partition(s) && r.len() == 3);
    match s.phase {
        BuildPhase::MountRoot => {
            let x = sudo_args(lit_mount(), seq![root_partition(s), crate::image_build::root_mountpoint(s)]);
            assert(x[1] == root_partition(s));
        },
        BuildPhase::MountBoot => {
            let x = sudo_args(lit_mount(), seq![boot_partition(s), crate::image_build::boot_mountpoint(s)]);
            assert(x[1] == boot_partition(s));
        },
        BuildPhase::Extract => {
            assert(sudo_args(lit_bsdtar(), seq![crate::names::lit_xpf(), crate::image::displayed(s.archive_path@), crate::names::lit_dash_c(), crate::image::displayed(crate::image_build::root_mountpoint(s))])[0] == lit_bsdtar());
        },
        BuildPhase::CopyBoot => {
            assert(sudo_args(lit_cp(), seq![crate::names::lit_dash_a(), crate::paths::path_join(crate::image_build::boot_files_dir(s), crate::names::lit_dot()), crate::image_build::boot_mountpoint(s)])[0] == lit_cp());
        },
        BuildPhase::ExtractSync | BuildPhase::Sync | BuildPhase::FinalSync => {
            assert(sudo_args(lit_sync(), Seq::empty())[0] == lit_sync());
        },
        BuildPhase::UnmountBoot => {
            assert(sudo_args(lit_umount(), seq![boot_partition(s)])[0] == lit_umount());
        },
        BuildPhase::UnmountRoot => {
            assert(sudo_args(lit_umount(), seq![root_partition(s)])[0] == lit_umount());
        },
        _ => {},
    }
}

/// Every unmount undoes a mount: a step that unmounts a partition runs
/// while that partition is mounted.
pub proof fn law_unmount_only_mounted(s: BuildState, a: BuildAction)
    requires
        issues(s, a),
    ensures
        runs(a, lit_umount(), seq![root_partition(s)]) ==> root_mounted(s.phase),
        runs(a, lit_umount(), seq![boot_partition(s)]) ==> boot_mounted(s.phase),
{
    lemma_command_names_differ();
    lemma_partitions_differ(s);
    let b = sudo_args(lit_umount(), seq![boot_partition(s)]);
    let r = sudo_args(lit_umount(), seq![root_partition(s)]);
    assert(b[0] == lit_umount() && b[1] == boot_partition(s) && b.len() == 2);
    assert(r[0] == lit_umount() && r[1] == root_partition(s) && r.len() == 2);
    match s.phase {
        BuildPhase::MountRoot => {
            assert(sudo_args(lit_mount(), seq![root_partition(s), crate::image_build::root_mountpoint(s)])[0] == lit_mount());
        },
        BuildPhase::MountBoot => {
            assert(sudo_args(lit_mount(), seq![boot_partition(s), crate::image_build::boot_mountpoint(s)])[0] == lit_mount());
        },
        BuildPhase::Extract => {
            assert(sudo_args(lit_bsdtar(), seq![crate::names::lit_xpf(), crate::image::displayed(s.archive_path@), crate::names::lit_dash_c(), crate::image::displayed(crate::image_build::root_mountpoint(s))])[0] == lit_bsdtar());
        },
        BuildPhase::CopyBoot => {
            assert(sudo_args(lit_cp(), seq![crate::names::lit_dash_a(), crate::paths::path_join(crate::image_build::boot_files_dir(s), crate::names::lit_dot()), crate::image_build::boot_mountpoint(s)])[0] == lit_cp());
        },
        BuildPhase::ExtractSync | BuildPhase::Sync | BuildPhase::FinalSync => {
            assert(sudo_args(lit_sync(), Seq::empty())[0] == lit_sync());
        },
        BuildPhase::UnmountBoot => {
            assert(sudo_args(lit_umount(), seq![boot_partition(s)])[1] == boot_partition(s));
        },
        BuildPhase::UnmountRoot => {
            assert(sudo_args(lit_umount(), seq![root_partition(s)])[1] == root_partition(s));
        },
        _ => {},
    }
}

/// A build works under the user's cache directory from start to end: a
/// build begun in a directory handed out as the user's cache directory (as
/// `new_build` begins one) stays there after every report; the image
/// directory it creates and the image file it writes lie under that
/// directory; and the foundation archive it checks for a manifest is the
/// file that fetching the manifest's foundation URL saves under the same
/// directory.
pub proof fn law_build_works_under_user_cache(s: BuildState, e: BuildEvent, t: BuildState, a: BuildAction)
    requires
        is_user_cache_dir(s.cache_dir@),
        carries(s, e, t),
    ensures
        is_user_cache_dir(t.cache_dir@),
        s.phase == BuildPhase::ImageDir && issues(s, a) ==> creates_dir(a, images_dir_under(s.cache_dir@)),
        image_file(s) == image_path_under(images_dir_under(s.cache_dir@), s.sbc_model@),
        e matches BuildEvent::ManifestRead { manifest } ==> (s.phase == BuildPhase::Manifest
            && savepath_under(s.cache_dir@, manifest.foundation_url@) is Some ==> Some(t.archive_path@)
            == savepath_under(s.cache_dir@, manifest.foundation_url@)
            && archive_path_under(s.cache_dir@, manifest) == Some(t.archive_path@)),
{
}

} // verus!
