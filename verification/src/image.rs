//! Building foundation images: where images and archives live, how the
//! mock SD card is partitioned and mounted, and the privileged commands that
//! populate and compress the image.
use vstd::prelude::*;
use vstd::utf8::encode_utf8;
use crate::{BuildError, CommandLine, byte_views, push_arg, sudo_cmd};
use crate::decimal::{decimal, decimal_digits};
use crate::fetch::{foundation_cache_dir_in, foundations_dir_under, keeps_cached};
use crate::manifest::Manifest;
use crate::names::{
    boot, bsdtar, cp, dash, dash_a, dash_c, dash_t, dash_v, dot, images, img_ext, keep, lit_boot,
    lit_bsdtar, lit_cp, lit_dash, lit_dash_a, lit_dash_c, lit_dash_t, lit_dash_v, lit_dot,
    lit_images, lit_img_ext, lit_keep, lit_memlimit, lit_mount, lit_p1, lit_p2, lit_parch_builder,
    lit_root, lit_sync, lit_umount, lit_xpf, lit_xz, memlimit, mount, p1, p2, parch_builder, root,
    sync, umount, xpf, xz,
};
use crate::paths::{bytes_of, concat_bytes, join, path_join};
use crate::text::{display_text, lossy_text};
use crate::urls::url_filename_of;
use crate::user_dirs::{is_user_cache_dir, user_cache_dir};

verus! {

/// The directory that caches images under a cache directory:
/// `<cache>/parch-builder/images`.
pub open spec fn images_dir_under(cache: Seq<u8>) -> Seq<u8> {
    path_join(path_join(cache, lit_parch_builder()), lit_images())
}

/// The image cache directory under the cache directory `cache_dir`.
pub fn image_cache_dir_in(cache_dir: &[u8]) -> (res: Vec<u8>)
    ensures
        res@ == images_dir_under(cache_dir@),
{
    let app = join(cache_dir, parch_builder().as_slice());
    join(app.as_slice(), images().as_slice())
}

/// The image cache directory under the user's cache directory (on Linux
/// `~/.cache/parch-builder/images`). The caller creates it if missing.
pub fn image_cache_dir() -> (res: Result<Vec<u8>, BuildError>)
    ensures
        match res {
            Ok(d) => exists|cache: Seq<u8>| is_user_cache_dir(cache) && d@ == images_dir_under(cache),
            Err(e) => e == BuildError::UserDirsUnavailable,
        },
{
    match user_cache_dir() {
        Some(cache) => Ok(image_cache_dir_in(cache.cache_bytes())),
        None => Err(BuildError::UserDirsUnavailable),
    }
}

/// The directory foundation archives are read from: the foundation cache
/// directory under the user's cache directory.
pub fn foundation_archive_dir() -> (res: Result<Vec<u8>, BuildError>)
    ensures
        match res {
            Ok(d) => exists|cache: Seq<u8>| is_user_cache_dir(cache) && d@ == foundations_dir_under(cache),
            Err(e) => e == BuildError::UserDirsUnavailable,
        },
{
    match user_cache_dir() {
        Some(cache) => Ok(foundation_cache_dir_in(cache.cache_bytes())),
        None => Err(BuildError::UserDirsUnavailable),
    }
}

/// Where the foundation archive that `manifest` names lies under a cache
/// directory, or `None` where its URL names no file.
pub open spec fn archive_path_under(cache: Seq<u8>, manifest: Manifest) -> Option<Seq<u8>> {
    match url_filename_of(manifest.foundation_url@) {
        Some(name) => Some(path_join(foundations_dir_under(cache), name)),
        None => None,
    }
}

/// The foundation archive path of `manifest` under the cache directory
/// `cache_dir`: the archive name, then the directory.
pub fn foundation_archive_path_in(manifest: &Manifest, cache_dir: &[u8]) -> (res: Result<Vec<u8>, BuildError>)
    ensures
        match res {
            Ok(p) => archive_path_under(cache_dir@, *manifest) == Some(p@),
            Err(e) => archive_path_under(cache_dir@, *manifest) is None
                && e == BuildError::NoFilenameInUrl,
        },
{
    let name = match manifest.foundation_archive_name() {
        Ok(name) => name,
        Err(e) => return Err(e),
    };
    let dir = foundation_cache_dir_in(cache_dir);
    Ok(join(dir.as_slice(), name.as_slice()))
}

/// The foundation archive path of `manifest` under the user's cache
/// directory. The archive name is read first, then the directory.
pub fn foundation_archive_path(manifest: &Manifest) -> (res: Result<Vec<u8>, BuildError>)
    ensures
        url_filename_of(manifest.foundation_url@) is None ==> res == Err::<Vec<u8>, BuildError>(
            BuildError::NoFilenameInUrl,
        ),
        url_filename_of(manifest.foundation_url@) is Some ==> match res {
            Ok(p) => exists|cache: Seq<u8>|
                is_user_cache_dir(cache) && archive_path_under(cache, *manifest) == Some(p@),
            Err(e) => e == BuildError::UserDirsUnavailable,
        },
{
    let name = match manifest.foundation_archive_name() {
        Ok(name) => name,
        Err(e) => return Err(e),
    };
    match user_cache_dir() {
        Some(cache) => {
            let dir = foundation_cache_dir_in(cache.cache_bytes());
            let path = join(dir.as_slice(), name.as_slice());
            assert(archive_path_under(cache@, *manifest) == Some(path@));
            Ok(path)
        },
        None => Err(BuildError::UserDirsUnavailable),
    }
}

/// The image file of the platform `sbc_model` in an image directory:
/// `<image_dir>/<sbc_model>.img`.
pub open spec fn image_path_under(image_dir: Seq<u8>, sbc_model: Seq<char>) -> Seq<u8> {
    path_join(image_dir, encode_utf8(sbc_model) + lit_img_ext())
}

/// The image file of the platform `sbc_model` in `image_dir`.
pub fn image_path_in(image_dir: &[u8], sbc_model: &str) -> (res: Vec<u8>)
    ensures
        res@ == image_path_under(image_dir@, sbc_model@),
{
    let file = concat_bytes(bytes_of(sbc_model).as_slice(), img_ext().as_slice());
    join(image_dir, file.as_slice())
}

/// Whether an image already built is used as it is: exactly when it exists
/// and the user did not ask to overwrite it.
pub fn reuse_cached_image(image_exists: bool, overwrite: bool) -> (res: bool)
    ensures
        res == keeps_cached(image_exists, overwrite),
{
    image_exists && !overwrite
}

/// The two partitions of the mock SD card.
#[derive(Debug, Clone, PartialEq, Eq)]
pub struct PartitionPaths {
    pub boot: Vec<u8>,
    pub root: Vec<u8>,
}

/// The partitions of the loop device at `device`: `<device>p1` for boot and
/// `<device>p2` for the root filesystem.
pub fn partition_paths(device: &[u8]) -> (res: PartitionPaths)
    ensures
        res.boot@ == device@ + lit_p1(),
        res.root@ == device@ + lit_p2(),
{
    PartitionPaths {
        boot: concat_bytes(device, p1().as_slice()),
        root: concat_bytes(device, p2().as_slice()),
    }
}

/// Where the two partitions are mounted in a scratch directory.
#[derive(Debug, Clone, PartialEq, Eq)]
pub struct MountPoints {
    pub root: Vec<u8>,
    pub boot: Vec<u8>,
}

/// The mount points in the scratch directory `mount_dir`:
/// `<mount_dir>/root` and `<mount_dir>/boot`.
pub fn mount_points(mount_dir: &[u8]) -> (res: MountPoints)
    ensures
        res.root@ == path_join(mount_dir@, lit_root()),
        res.boot@ == path_join(mount_dir@, lit_boot()),
{
    MountPoints {
        root: join(mount_dir, root().as_slice()),
        boot: join(mount_dir, boot().as_slice()),
    }
}

/// `sudo <cmd_name> <args..>` as argument views.
pub open spec fn sudo_args(cmd_name: Seq<u8>, args: Seq<Seq<u8>>) -> Seq<Seq<u8>> {
    seq![cmd_name] + args
}

/// `sudo mount <device_partition> <mountpoint>`.
pub fn mount_command(device_partition: &[u8], mountpoint: &[u8]) -> (res: CommandLine)
    ensures
        res.program@ == crate::names::lit_sudo(),
        res.arg_views() == sudo_args(lit_mount(), seq![device_partition@, mountpoint@]),
{
    let mut cmd = sudo_cmd(mount());
    push_arg(&mut cmd.args, bytes_copy(device_partition));
    push_arg(&mut cmd.args, bytes_copy(mountpoint));
    assert(cmd.arg_views() =~= sudo_args(lit_mount(), seq![device_partition@, mountpoint@]));
    cmd
}

/// A copy of a byte string.
pub(crate) fn bytes_copy(b: &[u8]) -> (res: Vec<u8>)
    ensures
        res@ == b@,
{
    vstd::slice::slice_to_vec(b)
}

/// `sudo umount <mountpoint>`.
pub fn unmount_command(mountpoint: &[u8]) -> (res: CommandLine)
    ensures
        res.program@ == crate::names::lit_sudo(),
        res.arg_views() == sudo_args(lit_umount(), seq![mountpoint@]),
{
    let mut cmd = sudo_cmd(umount());
    push_arg(&mut cmd.args, bytes_copy(mountpoint));
    assert(cmd.arg_views() =~= sudo_args(lit_umount(), seq![mountpoint@]));
    cmd
}

/// `sudo sync`.
pub fn sync_command() -> (res: CommandLine)
    ensures
        res.program@ == crate::names::lit_sudo(),
        res.arg_views() == sudo_args(lit_sync(), Seq::empty()),
{
    let cmd = sudo_cmd(sync());
    assert(cmd.arg_views() =~= sudo_args(lit_sync(), Seq::empty()));
    cmd
}

/// How a path is written as text into an argument: displayed, lossily where
/// it is not UTF-8.
pub open spec fn displayed(p: Seq<u8>) -> Seq<u8> {
    encode_utf8(lossy_text(p))
}

/// `sudo bsdtar -xpf <foundation_path> -C <mount_root>`, both paths as
/// displayed: unpacks the foundation archive onto the mounted root
/// partition, keeping permissions.
pub fn extract_command(foundation_path: &[u8], mount_root: &[u8]) -> (res: CommandLine)
    ensures
        res.program@ == crate::names::lit_sudo(),
        res.arg_views() == sudo_args(
            lit_bsdtar(),
            seq![lit_xpf(), displayed(foundation_path@), lit_dash_c(), displayed(mount_root@)],
        ),
{
    let mut cmd = sudo_cmd(bsdtar());
    push_arg(&mut cmd.args, xpf());
    push_arg(&mut cmd.args, bytes_of(display_text(foundation_path).as_str()));
    push_arg(&mut cmd.args, dash_c());
    push_arg(&mut cmd.args, bytes_of(display_text(mount_root).as_str()));
    assert(cmd.arg_views() =~= sudo_args(
        lit_bsdtar(),
        seq![lit_xpf(), displayed(foundation_path@), lit_dash_c(), displayed(mount_root@)],
    ));
    cmd
}

/// The boot directory of the new filesystem mounted at `mount_root`, whose
/// files go to the boot partition: `<mount_root>/boot`.
pub fn boot_dir_to_copy(mount_root: &[u8]) -> (res: Vec<u8>)
    ensures
        res@ == path_join(mount_root@, lit_boot()),
{
    join(mount_root, boot().as_slice())
}

/// `sudo cp -a <boot_dir>/. <mount_boot>`: copies everything in the boot
/// directory of the new filesystem, attributes kept, onto the mounted boot
/// partition.
pub fn copy_boot_command(boot_dir: &[u8], mount_boot: &[u8]) -> (res: CommandLine)
    ensures
        res.program@ == crate::names::lit_sudo(),
        res.arg_views() == sudo_args(
            lit_cp(),
            seq![lit_dash_a(), path_join(boot_dir@, lit_dot()), mount_boot@],
        ),
{
    let mut cmd = sudo_cmd(cp());
    push_arg(&mut cmd.args, dash_a());
    push_arg(&mut cmd.args, join(boot_dir, dot().as_slice()));
    push_arg(&mut cmd.args, bytes_copy(mount_boot));
    assert(cmd.arg_views() =~= sudo_args(
        lit_cp(),
        seq![lit_dash_a(), path_join(boot_dir@, lit_dot()), mount_boot@],
    ));
    cmd
}

/// The arguments of `xz` that compress `image` and keep it: threads,
/// preset level, memory limit, `verbose` times `-v`, then the image.
pub open spec fn xz_args(
    image: Seq<u8>,
    threads: nat,
    level: nat,
    memory_limit: Seq<char>,
    verbose: nat,
) -> Seq<Seq<u8>> {
    seq![
        lit_keep(),
        lit_dash_t() + decimal_digits(threads),
        lit_dash() + decimal_digits(level),
        lit_memlimit() + encode_utf8(memory_limit),
    ] + Seq::new(verbose, |i: int| lit_dash_v()) + seq![image]
}

/// A planned compression: the command and the file it writes.
#[derive(Debug, Clone, PartialEq, Eq)]
pub struct Compression {
    pub command: CommandLine,
    pub compressed_path: Vec<u8>,
}

/// Plans the compression of the image at `image_path` with `xz`, given
/// whether that path is a file: refused where it is not; otherwise
/// `sudo xz --keep -T<threads> -<level> --memlimit-compress=<memory_limit>`
/// with `verbose` times `-v` and the image, writing the displayed image
/// path followed by `.xz`.
pub fn compress(
    image_path: &[u8],
    image_is_file: bool,
    threads: u32,
    level: u8,
    memory_limit: &str,
    verbose: u8,
) -> (res: Result<Compression, BuildError>)
    ensures
        !image_is_file ==> match res {
            Err(BuildError::ImageNotFound { path }) => path@ == lossy_text(image_path@),
            _ => false,
        },
        image_is_file ==> match res {
            Ok(c) => {
                &&& c.command.program@ == crate::names::lit_sudo()
                &&& c.command.arg_views() == sudo_args(
                    lit_xz(),
                    xz_args(
                        image_path@,
                        threads as nat,
                        level as nat,
                        memory_limit@,
                        verbose as nat,
                    ),
                )
                &&& c.compressed_path@ == encode_utf8(lossy_text(image_path@) + ".xz"@)
            },
            Err(_) => false,
        },
{
    if !image_is_file {
        return Err(BuildError::ImageNotFound { path: display_text(image_path) });
    }
    let mut cmd = sudo_cmd(xz());
    push_arg(&mut cmd.args, keep());
    push_arg(&mut cmd.args, concat_bytes(dash_t().as_slice(), decimal(threads as u64).as_slice()));
    push_arg(&mut cmd.args, concat_bytes(dash().as_slice(), decimal(level as u64).as_slice()));
    push_arg(&mut cmd.args, concat_bytes(memlimit().as_slice(), bytes_of(memory_limit).as_slice()));
    let mut args = cmd.args;
    let ghost head = byte_views(args@);
    let mut i: u8 = 0;
    while i < verbose
        invariant
            i <= verbose,
            byte_views(args@) == head + Seq::new(i as nat, |k: int| lit_dash_v()),
        decreases verbose - i,
    {
        push_arg(&mut args, dash_v());
        assert(byte_views(args@) =~= head + Seq::new((i + 1) as nat, |k: int| lit_dash_v()));
        i = i + 1;
    }
    push_arg(&mut args, bytes_copy(image_path));
    let cmd = CommandLine { program: cmd.program, args };
    let mut text = display_text(image_path);
    text.append(".xz");
    let compressed_path = bytes_of(text.as_str());
    assert(cmd.arg_views() =~= sudo_args(
        lit_xz(),
        xz_args(image_path@, threads as nat, level as nat, memory_limit@, verbose as nat),
    ));
    Ok(Compression { command: cmd, compressed_path })
}

} // verus!
