use pbuilder::image_build::{new_build, new_build_in, next_build_step, BuildAction, BuildEvent, BuildPhase, BuildState};
use pbuilder::image::PartitionPaths;
use pbuilder::manifest::Manifest;
use pbuilder::{BuildError, CommandLine};

const ARCHIVE_URL: &str = "http://os.archlinuxarm.org/os/ArchLinuxARM-rpi-aarch64-latest.tar.gz";
const ARCHIVE: &str = "/k/parch-builder/foundations/ArchLinuxARM-rpi-aarch64-latest.tar.gz";

fn sudo(args: &[&str]) -> BuildAction {
    BuildAction::Run {
        command: CommandLine {
            program: b("sudo"),
            args: args.iter().map(|a| b(a)).collect(),
        },
    }
}

fn b(s: &str) -> Vec<u8> {
    s.as_bytes().to_vec()
}

fn dir(path: &str) -> BuildAction {
    BuildAction::CreateDir { path: b(path) }
}

fn step(s: &BuildState, e: BuildEvent, expected: BuildAction) -> BuildState {
    let (t, a) = next_build_step(s, e);
    assert_eq!(a, expected);
    t
}

fn up_to_archive_check() -> BuildState {
    let s = new_build_in("rpi2w", b"/k", 8000, 512);
    let s = step(&s, BuildEvent::Begin, dir("/k/parch-builder/images"));
    let s = step(
        &s,
        BuildEvent::Done,
        BuildAction::CreateMockSd {
            image_path: b("/k/parch-builder/images/rpi2w.img"),
            size_mib: 8000,
        },
    );
    let s = step(
        &s,
        BuildEvent::MockSdCreated { device: b("/dev/loop7") },
        BuildAction::Partition { boot_size_mib: 512 },
    );
    let s = step(
        &s,
        BuildEvent::Done,
        BuildAction::Format {
            partitions: PartitionPaths {
                boot: b("/dev/loop7p1"),
                root: b("/dev/loop7p2"),
            },
        },
    );
    let s = step(&s, BuildEvent::Done, BuildAction::ReadManifest { sbc_model: String::from("rpi2w") });
    step(
        &s,
        BuildEvent::ManifestRead { manifest: Manifest { foundation_url: String::from(ARCHIVE_URL) } },
        BuildAction::CheckArchive { path: b(ARCHIVE) },
    )
}

#[test]
fn build_runs_the_documented_steps() {
    let s = up_to_archive_check();
    let s = step(&s, BuildEvent::ArchiveChecked { is_file: true }, BuildAction::MakeMountDir);
    let s = step(&s, BuildEvent::MountDirMade { dir: b("/tmp/m") }, dir("/tmp/m/root"));
    let s = step(&s, BuildEvent::Done, dir("/tmp/m/boot"));
    let s = step(&s, BuildEvent::Done, dir("/tmp/m/root"));
    let s = step(&s, BuildEvent::Done, sudo(&["mount", "/dev/loop7p2", "/tmp/m/root"]));
    let s = step(&s, BuildEvent::Ran { success: true }, sudo(&["bsdtar", "-xpf", ARCHIVE, "-C", "/tmp/m/root"]));
    let s = step(&s, BuildEvent::Ran { success: true }, sudo(&["sync"]));
    let s = step(&s, BuildEvent::Ran { success: true }, dir("/tmp/m/boot"));
    let s = step(&s, BuildEvent::Done, sudo(&["mount", "/dev/loop7p1", "/tmp/m/boot"]));
    let s = step(
        &s,
        BuildEvent::Ran { success: true },
        BuildAction::CheckBootDir { path: b("/tmp/m/root/boot") },
    );
    let s = step(
        &s,
        BuildEvent::BootDirChecked { is_dir: true },
        sudo(&["cp", "-a", "/tmp/m/root/boot/.", "/tmp/m/boot"]),
    );
    let s = step(&s, BuildEvent::Ran { success: true }, sudo(&["sync"]));
    let s = step(&s, BuildEvent::Ran { success: true }, sudo(&["umount", "/dev/loop7p1"]));
    let s = step(&s, BuildEvent::Ran { success: false }, sudo(&["umount", "/dev/loop7p2"]));
    let s = step(&s, BuildEvent::Ran { success: true }, sudo(&["sync"]));
    let s = step(&s, BuildEvent::Ran { success: true }, BuildAction::Detach);
    let s = step(
        &s,
        BuildEvent::Done,
        BuildAction::Finish { image_path: b("/k/parch-builder/images/rpi2w.img") },
    );
    assert_eq!(s.phase, BuildPhase::Finished);
}

#[test]
fn build_refuses_missing_archive_before_mounting() {
    let s = up_to_archive_check();
    let s = step(
        &s,
        BuildEvent::ArchiveChecked { is_file: false },
        BuildAction::Fail {
            error: BuildError::ArchiveNotFound { path: String::from(ARCHIVE), sbc_model: String::from("rpi2w") },
        },
    );
    assert_eq!(s.phase, BuildPhase::Failed);
    let (s, a) = next_build_step(&s, BuildEvent::Ran { success: true });
    assert_eq!(s.phase, BuildPhase::Failed);
    assert!(matches!(a, BuildAction::Fail { .. }));
}

#[test]
fn build_stops_when_mount_fails() {
    let s = up_to_archive_check();
    let s = step(&s, BuildEvent::ArchiveChecked { is_file: true }, BuildAction::MakeMountDir);
    let s = step(&s, BuildEvent::MountDirMade { dir: b("/tmp/m") }, dir("/tmp/m/root"));
    let s = step(&s, BuildEvent::Done, dir("/tmp/m/boot"));
    let s = step(&s, BuildEvent::Done, dir("/tmp/m/root"));
    let s = step(&s, BuildEvent::Done, sudo(&["mount", "/dev/loop7p2", "/tmp/m/root"]));
    step(
        &s,
        BuildEvent::Ran { success: false },
        BuildAction::Fail {
            error: BuildError::MountFailed {
                partition: String::from("/dev/loop7p2"),
                mountpoint: String::from("/tmp/m/root"),
            },
        },
    );
}

#[test]
fn build_stops_without_boot_dir() {
    let s = up_to_archive_check();
    let mut s = step(&s, BuildEvent::ArchiveChecked { is_file: true }, BuildAction::MakeMountDir);
    s.phase = BuildPhase::BootFiles;
    s.mount_dir = b("/tmp/m");
    step(
        &s,
        BuildEvent::BootDirChecked { is_dir: false },
        BuildAction::Fail { error: BuildError::BootDirMissing { path: String::from("/tmp/m/root/boot") } },
    );
}

#[test]
fn build_stops_on_manifest_without_file_name() {
    let s = new_build_in("m", b"/k", 10, 5);
    let mut s = s;
    s.phase = BuildPhase::Manifest;
    step(
        &s,
        BuildEvent::ManifestRead { manifest: Manifest { foundation_url: String::from("data:,x") } },
        BuildAction::Fail { error: BuildError::NoFilenameInUrl },
    );
}

#[test]
fn build_stops_at_unexpected_report() {
    let s = new_build_in("m", b"/k", 10, 5);
    step(&s, BuildEvent::Done, BuildAction::Fail { error: BuildError::UnexpectedEvent });
}

#[test]
fn build_under_user_cache() -> Result<(), BuildError> {
    let s = new_build("rpi2w", 8000, 512)?;
    let (_, a) = next_build_step(&s, BuildEvent::Begin);
    match a {
        BuildAction::CreateDir { path } => assert!(path.ends_with(b"/parch-builder/images")),
        other => panic!("unexpected step {other:?}"),
    }
    Ok(())
}
