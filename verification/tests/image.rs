use pbuilder::fetch::plan_fetch;
use pbuilder::image::{
    boot_dir_to_copy, compress, copy_boot_command, extract_command, foundation_archive_dir,
    foundation_archive_path, foundation_archive_path_in, image_cache_dir, image_cache_dir_in,
    image_path_in, mount_command, mount_points, partition_paths, reuse_cached_image, sync_command,
    unmount_command,
};
use pbuilder::manifest::Manifest;
use pbuilder::{sudo_cmd, BuildError};

fn b(s: &str) -> Vec<u8> {
    s.as_bytes().to_vec()
}

fn args(v: &[&[u8]]) -> Vec<Vec<u8>> {
    v.iter().map(|s| s.to_vec()).collect()
}

#[test]
fn image_cache_dir_under_cache() {
    assert_eq!(image_cache_dir_in(b"/home/alice/.cache"), b("/home/alice/.cache/parch-builder/images"));
}

#[test]
fn image_cache_dir_under_user_cache() -> Result<(), BuildError> {
    let dir = image_cache_dir()?;
    assert!(dir.ends_with(b"/parch-builder/images"));
    Ok(())
}

#[test]
fn image_named_after_model() {
    assert_eq!(
        image_path_in(b"/home/alice/.cache/parch-builder/images", "rpi2w"),
        b("/home/alice/.cache/parch-builder/images/rpi2w.img")
    );
}

#[test]
fn archive_path_in_foundation_cache() {
    let manifest = Manifest {
        foundation_url: String::from(
            "http://os.archlinuxarm.org/os/ArchLinuxARM-rpi-aarch64-latest.tar.gz",
        ),
    };
    assert_eq!(
        foundation_archive_path_in(&manifest, b"/home/alice/.cache"),
        Ok(b("/home/alice/.cache/parch-builder/foundations/ArchLinuxARM-rpi-aarch64-latest.tar.gz"))
    );
}

#[test]
fn archive_path_is_fetch_savepath() -> Result<(), BuildError> {
    let url = "http://os.archlinuxarm.org/os/ArchLinuxARM-rpi-armv7-latest.tar.gz";
    let manifest = Manifest { foundation_url: String::from(url) };
    let archive = foundation_archive_path(&manifest)?;
    let plan = plan_fetch(url)?;
    assert_eq!(archive, plan.savepath);
    let mut dir = foundation_archive_dir()?;
    dir.extend_from_slice(b"/ArchLinuxARM-rpi-armv7-latest.tar.gz");
    assert_eq!(archive, dir);
    Ok(())
}

#[test]
fn archive_path_refused_without_name() {
    let manifest = Manifest { foundation_url: String::from("data:,x") };
    assert_eq!(foundation_archive_path(&manifest), Err(BuildError::NoFilenameInUrl));
    assert_eq!(foundation_archive_path_in(&manifest, b"/c"), Err(BuildError::NoFilenameInUrl));
}

#[test]
fn cached_image_reused_only_without_overwrite() {
    assert!(reuse_cached_image(true, false));
    assert!(!reuse_cached_image(true, true));
    assert!(!reuse_cached_image(false, false));
    assert!(!reuse_cached_image(false, true));
}

#[test]
fn partitions_follow_device() {
    let parts = partition_paths(b"/dev/loop3");
    assert_eq!(parts.boot, b("/dev/loop3p1"));
    assert_eq!(parts.root, b("/dev/loop3p2"));
    assert_ne!(parts.boot, parts.root);
}

#[test]
fn mount_points_in_scratch_dir() {
    let points = mount_points(b"/tmp/.tmpAbc");
    assert_eq!(points.root, b("/tmp/.tmpAbc/root"));
    assert_eq!(points.boot, b("/tmp/.tmpAbc/boot"));
}

#[test]
fn privileged_commands() {
    let sudo = sudo_cmd(b("sync"));
    assert_eq!(sudo.program, b("sudo"));
    assert_eq!(sudo.args, args(&[b"sync"]));
    assert_eq!(sync_command(), sudo);

    let mount = mount_command(b"/dev/loop3p2", b"/tmp/m/root");
    assert_eq!(mount.program, b("sudo"));
    assert_eq!(mount.args, args(&[b"mount", b"/dev/loop3p2", b"/tmp/m/root"]));

    let umount = unmount_command(b"/dev/loop3p1");
    assert_eq!(umount.args, args(&[b"umount", b"/dev/loop3p1"]));

    let tar = extract_command(b"/c/ArchLinuxARM-rpi-armv7-latest.tar.gz", b"/tmp/m/root");
    assert_eq!(
        tar.args,
        args(&[b"bsdtar", b"-xpf", b"/c/ArchLinuxARM-rpi-armv7-latest.tar.gz", b"-C", b"/tmp/m/root"])
    );
}

#[test]
fn mount_keeps_raw_paths_extract_displays_them() {
    let mount = mount_command(b"/dev/loop3p2", b"/tmp/\xff/root");
    assert_eq!(mount.args[2], b"/tmp/\xff/root".to_vec());
    let tar = extract_command(b"/c/\xff.tar.gz", b"/tmp/m/root");
    assert_eq!(tar.args[2], "/c/\u{fffd}.tar.gz".as_bytes().to_vec());
}

#[test]
fn boot_copied_from_new_root() {
    assert_eq!(boot_dir_to_copy(b"/tmp/m/root"), b("/tmp/m/root/boot"));
    assert_eq!(boot_dir_to_copy(b"/tmp/t/root/"), b("/tmp/t/root/boot"));
}

#[test]
fn copy_boot_command_copies_contents() {
    let cp = copy_boot_command(b"/tmp/m/root/boot", b"/tmp/m/boot");
    assert_eq!(cp.program, b("sudo"));
    assert_eq!(cp.args, args(&[b"cp", b"-a", b"/tmp/m/root/boot/.", b"/tmp/m/boot"]));
}

#[test]
fn compress_builds_xz_command() {
    let c = compress(b"/c/images/rpi2w.img", true, 4, 9, "2GiB", 2).unwrap();
    assert_eq!(c.command.program, b("sudo"));
    assert_eq!(
        c.command.args,
        args(&[
            b"xz",
            b"--keep",
            b"-T4",
            b"-9",
            b"--memlimit-compress=2GiB",
            b"-v",
            b"-v",
            b"/c/images/rpi2w.img",
        ])
    );
    assert_eq!(c.compressed_path, b("/c/images/rpi2w.img.xz"));
}

#[test]
fn compress_large_numbers() {
    let c = compress(b"a.img", true, 4294967295, 255, "0", 0).unwrap();
    assert_eq!(
        c.command.args,
        args(&[b"xz", b"--keep", b"-T4294967295", b"-255", b"--memlimit-compress=0", b"a.img"])
    );
    let c = compress(b"a.img", true, 0, 0, "50%", 0).unwrap();
    assert_eq!(c.command.args[2], b("-T0"));
    assert_eq!(c.command.args[3], b("-0"));
}

#[test]
fn compress_non_utf8_image() {
    let c = compress(b"/c/\xffx.img", true, 1, 6, "1G", 0).unwrap();
    assert_eq!(c.command.args[5], b"/c/\xffx.img".to_vec());
    assert_eq!(c.compressed_path, "/c/\u{fffd}x.img.xz".as_bytes().to_vec());
}

#[test]
fn compress_refuses_missing_image() {
    assert_eq!(
        compress(b"/nowhere/x.img", false, 1, 6, "1G", 0),
        Err(BuildError::ImageNotFound { path: String::from("/nowhere/x.img") })
    );
}
