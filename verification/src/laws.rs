//! Properties that hold across the library's functions.
use vstd::prelude::*;
use vstd::utf8::encode_utf8;
use crate::fetch::{foundations_dir_under, keeps_cached, savepath_under};
use crate::fetch_steps::{
    fetch_carries, fetch_issues, fetch_next_phase, fetch_savepath, FetchEvent, FetchPhase, FetchState, FetchStep,
};
use crate::image::{archive_path_under, image_path_under, images_dir_under, xz_args};
use crate::manifest::{Manifest, manifest_dir_under, manifest_path_under};
use crate::names::{
    lit_boot, lit_foundations, lit_images, lit_img_ext, lit_keep, lit_manifests, lit_p1, lit_p2,
    lit_parch_builder, lit_yml_ext,
};
use crate::paths::{is_absolute, path_join, separator, lemma_after_last_separator_has_no_separator};
use crate::urls::url_filename_of;
use crate::user_dirs::{is_user_cache_dir, is_user_config_dir};

verus! {

/// Joining a non-empty relative name ends in that name.
proof fn lemma_join_ends_with(base: Seq<u8>, name: Seq<u8>)
    requires
        name.len() > 0,
        !is_absolute(name),
    ensures
        name.is_suffix_of(path_join(base, name)),
        path_join(base, name).len() > 0,
        path_join(base, name).last() == name.last(),
{
    let j = path_join(base, name);
    assert(j.subrange(j.len() - name.len(), j.len() as int) =~= name);
}

/// Joining a relative name onto a path that ends in `dir` (and not in the
/// separator) puts `dir/name` at its end.
proof fn lemma_join_under(base: Seq<u8>, dir: Seq<u8>, name: Seq<u8>)
    requires
        dir.len() > 0,
        dir.last() != separator(),
        dir.is_suffix_of(base),
        !is_absolute(name),
    ensures
        (dir + seq![separator()] + name).is_suffix_of(path_join(base, name)),
        path_join(base, name) == base + seq![separator()] + name,
{
    let j = path_join(base, name);
    let s = dir + seq![separator()] + name;
    assert(base.last() == dir.last()) by {
        assert(base[base.len() - 1] == base.subrange(base.len() - dir.len(), base.len() as int)[dir.len() - 1]);
    }
    assert(j == base + seq![separator()] + name);
    assert(j.subrange(j.len() - s.len(), j.len() as int) =~= s) by {
        assert forall|k: int| 0 <= k < s.len() implies j.subrange(j.len() - s.len(), j.len() as int)[k] == s[k] by {
            if k < dir.len() {
                assert(base.subrange(base.len() - dir.len(), base.len() as int)[k] == dir[k]);
            }
        }
    }
}

/// `<cache>/parch-builder/<leaf>` ends in `parch-builder/<leaf>`, and so in
/// the last byte of `leaf`.
proof fn lemma_app_dir_ends(cache: Seq<u8>, leaf: Seq<u8>)
    requires
        leaf.len() > 0,
        !is_absolute(leaf),
        leaf.last() != separator(),
    ensures
        (lit_parch_builder() + seq![separator()] + leaf).is_suffix_of(
            path_join(path_join(cache, lit_parch_builder()), leaf),
        ),
        path_join(path_join(cache, lit_parch_builder()), leaf).len() > 0,
        path_join(path_join(cache, lit_parch_builder()), leaf).last() == leaf.last(),
{
    lemma_join_ends_with(cache, lit_parch_builder());
    lemma_join_under(path_join(cache, lit_parch_builder()), lit_parch_builder(), leaf);
    let pl = lit_parch_builder() + seq![separator()] + leaf;
    let d = path_join(path_join(cache, lit_parch_builder()), leaf);
    assert(d[d.len() - 1] == d.subrange(d.len() - pl.len(), d.len() as int)[pl.len() - 1]);
}

/// A name followed by a suffix that does not start with the separator is
/// relative when the name is.
proof fn lemma_suffixed_relative(name: Seq<u8>, suffix: Seq<u8>)
    requires
        !is_absolute(name),
        suffix.len() > 0,
        suffix[0] != separator(),
    ensures
        !is_absolute(name + suffix),
{
    if name.len() == 0 {
        assert((name + suffix)[0] == suffix[0]);
    } else {
        assert((name + suffix)[0] == name[0]);
    }
}

/// The manifest of a platform whose name does not start with `/` lies at
/// `.../parch-builder/manifests/<name>.yml` under any configuration
/// directory.
pub proof fn law_manifest_path_location(config: Seq<u8>, name: Seq<char>)
    requires
        !is_absolute(encode_utf8(name)),
    ensures
        (lit_parch_builder() + seq![separator()] + lit_manifests() + seq![separator()]
            + encode_utf8(name) + lit_yml_ext()).is_suffix_of(manifest_path_under(config, name)),
{
    lemma_app_dir_ends(config, lit_manifests());
    let dir = manifest_dir_under(config);
    let file = encode_utf8(name) + lit_yml_ext();
    lemma_suffixed_relative(encode_utf8(name), lit_yml_ext());
    let pm = lit_parch_builder() + seq![separator()] + lit_manifests();
    lemma_join_under(dir, pm, file);
    assert(pm + seq![separator()] + file =~= lit_parch_builder() + seq![separator()] + lit_manifests()
        + seq![separator()] + encode_utf8(name) + lit_yml_ext());
}

/// Every manifest of a platform whose name does not start with `/` is the
/// manifest directory, a separator, the name and `.yml`: the file that the
/// listing pattern `<manifest_dir>/*.yml` matches with `*` read as the name.
pub proof fn law_manifest_path_in_listing(config: Seq<u8>, name: Seq<char>)
    requires
        !is_absolute(encode_utf8(name)),
    ensures
        manifest_path_under(config, name) == manifest_dir_under(config) + seq![separator()]
            + encode_utf8(name) + lit_yml_ext(),
{
    lemma_app_dir_ends(config, lit_manifests());
    let file = encode_utf8(name) + lit_yml_ext();
    lemma_suffixed_relative(encode_utf8(name), lit_yml_ext());
    assert(manifest_dir_under(config) + seq![separator()] + encode_utf8(name) + lit_yml_ext()
        =~= manifest_dir_under(config) + seq![separator()] + file);
}

/// The file name a URL gives holds no separator, so it is a relative name.
pub proof fn law_url_filename_is_plain_name(url: Seq<char>)
    requires
        url_filename_of(url) is Some,
    ensures
        !url_filename_of(url)->0.contains(separator()),
        !is_absolute(url_filename_of(url)->0),
{
    let p = encode_utf8(crate::urls::parsed_url_path(url)->0);
    lemma_after_last_separator_has_no_separator(p);
    let f = url_filename_of(url)->0;
    if f.len() > 0 {
        assert(f[0] != separator());
    }
}

/// A fetched foundation is saved directly in the foundation cache directory
/// under the last path segment of its URL:
/// `<cache>/parch-builder/foundations/<file name>`.
pub proof fn law_foundation_saved_in_cache(cache: Seq<u8>, url: Seq<char>)
    requires
        url_filename_of(url) is Some,
    ensures
        savepath_under(cache, url) == Some(
            foundations_dir_under(cache) + seq![separator()] + url_filename_of(url)->0,
        ),
        (lit_parch_builder() + seq![separator()] + lit_foundations() + seq![separator()]
            + url_filename_of(url)->0).is_suffix_of(savepath_under(cache, url)->0),
{
    let f = url_filename_of(url)->0;
    law_url_filename_is_plain_name(url);
    lemma_app_dir_ends(cache, lit_foundations());
    let pf = lit_parch_builder() + seq![separator()] + lit_foundations();
    lemma_join_under(foundations_dir_under(cache), pf, f);
    assert(pf + seq![separator()] + f =~= lit_parch_builder() + seq![separator()] + lit_foundations()
        + seq![separator()] + f);
}

/// The archive that an image build reads for a manifest is the file that
/// fetching that manifest's foundation saves, under the same cache
/// directory.
pub proof fn law_build_reads_fetched_archive(cache: Seq<u8>, manifest: Manifest)
    ensures
        archive_path_under(cache, manifest) == savepath_under(cache, manifest.foundation_url@),
{
}

/// The image of a platform whose name does not start with `/` lies at
/// `.../parch-builder/images/<sbc_model>.img` under any cache directory.
pub proof fn law_image_path_location(cache: Seq<u8>, sbc_model: Seq<char>)
    requires
        !is_absolute(encode_utf8(sbc_model)),
    ensures
        (lit_parch_builder() + seq![separator()] + lit_images() + seq![separator()]
            + encode_utf8(sbc_model) + lit_img_ext()).is_suffix_of(
            image_path_under(images_dir_under(cache), sbc_model),
        ),
{
    lemma_app_dir_ends(cache, lit_images());
    let pi = lit_parch_builder() + seq![separator()] + lit_images();
    let file = encode_utf8(sbc_model) + lit_img_ext();
    lemma_suffixed_relative(encode_utf8(sbc_model), lit_img_ext());
    lemma_join_under(images_dir_under(cache), pi, file);
    assert(pi + seq![separator()] + file =~= lit_parch_builder() + seq![separator()] + lit_images()
        + seq![separator()] + encode_utf8(sbc_model) + lit_img_ext());
}

/// The boot and root partitions of a device are different paths.
pub proof fn law_partitions_distinct(device: Seq<u8>)
    ensures
        device + lit_p1() != device + lit_p2(),
{
    let b = device + lit_p1();
    let r = device + lit_p2();
    assert(b[b.len() - 1] != r[r.len() - 1]);
}

/// The boot files are taken from inside the new filesystem: for a mounted
/// root that is not empty and does not end in the separator, its `boot`
/// directory is `<mount_root>/boot`.
pub proof fn law_boot_source_inside_new_root(mount_root: Seq<u8>)
    requires
        mount_root.len() > 0,
        mount_root.last() != separator(),
    ensures
        path_join(mount_root, lit_boot()) == mount_root + seq![separator()] + lit_boot(),
{
}

/// Compression keeps the source image: `--keep` is the first argument of
/// `xz` and the image the last.
pub proof fn law_compress_keeps_image(
    image: Seq<u8>,
    threads: nat,
    level: nat,
    memory_limit: Seq<char>,
    verbose: nat,
)
    ensures
        xz_args(image, threads, level, memory_limit, verbose)[0] == lit_keep(),
        xz_args(image, threads, level, memory_limit, verbose).last() == image,
        xz_args(image, threads, level, memory_limit, verbose).len() == 5 + verbose,
{
}

/// Reading the manifest and fetching its foundation is reading, then
/// fetching: once the manifest is read, the fetch goes on with its
/// foundation URL, saves where fetching that URL saves (`savepath_under`,
/// which is what `plan_fetch` plans and what an image build reads), and
/// keeps or downloads exactly as `fetch` decides (`keeps_cached`).
pub proof fn law_read_then_fetch(s: FetchState, manifest: Manifest, t: FetchState, u: FetchState, exists: bool)
    requires
        s.phase == FetchPhase::Manifest,
        url_filename_of(manifest.foundation_url@) is Some,
        fetch_carries(s, FetchEvent::ManifestRead { manifest }, t),
        t.phase == FetchPhase::Saved,
        fetch_carries(t, FetchEvent::SavedChecked { exists }, u),
    ensures
        fetch_next_phase(s, FetchEvent::ManifestRead { manifest }) == FetchPhase::CacheDir,
        t.url == manifest.foundation_url,
        savepath_under(s.cache_dir@, manifest.foundation_url@) == Some(fetch_savepath(t)),
        archive_path_under(s.cache_dir@, manifest) == Some(fetch_savepath(t)),
        fetch_next_phase(t, FetchEvent::SavedChecked { exists }) == if keeps_cached(exists, s.overwrite) {
            FetchPhase::Finished
        } else {
            FetchPhase::Download
        },
        u.cached == keeps_cached(exists, s.overwrite),
        fetch_savepath(u) == fetch_savepath(t),
{
}

/// A second fetch of a foundation, under the same cache directory and
/// without overwriting, checks the very file that the first fetch finished
/// with; where that file is still there, the second fetch finishes with it
/// as it is, marked as kept, and downloads nothing.
pub proof fn law_second_fetch_keeps_first(
    first: FetchState,
    first_step: FetchStep,
    second: FetchState,
    check: FetchStep,
    t: FetchState,
    step: FetchStep,
)
    requires
        first.phase == FetchPhase::Finished,
        fetch_issues(first, first_step),
        second.phase == FetchPhase::Saved,
        fetch_issues(second, check),
        second.cache_dir@ == first.cache_dir@,
        second.url@ == first.url@,
        !second.overwrite,
        t.phase == fetch_next_phase(second, FetchEvent::SavedChecked { exists: true }),
        fetch_carries(second, FetchEvent::SavedChecked { exists: true }, t),
        fetch_issues(t, step),
    ensures
        first_step matches FetchStep::Finish { savepath, .. } && check matches FetchStep::CheckSaved {
            path,
        } && path@ == savepath@,
        t.phase == FetchPhase::Finished,
        t.cached,
        step matches FetchStep::Finish { savepath, cached } && cached && (first_step matches FetchStep::Finish {
            savepath: first_path,
            ..
        } && savepath@ == first_path@),
        !(step is Download),
{
}

/// A fetch reads the manifest from the user's configuration directory and
/// keeps the foundation in the user's cache directory: a fetch begun with a
/// directory handed out as the configuration directory and one handed out
/// as the cache directory (as `new_fetch` begins one) keeps both after every
/// report; the manifest it reads is `<config>/parch-builder/manifests/<name>.yml`
/// under the configuration directory; and the directory it creates, the file
/// it checks, the file it downloads to and the file it finishes with all lie
/// in `<cache>/parch-builder/foundations` under the cache directory.
pub proof fn law_fetch_reads_config_keeps_cache(s: FetchState, e: FetchEvent, t: FetchState, a: FetchStep)
    requires
        is_user_config_dir(s.config_dir@),
        is_user_cache_dir(s.cache_dir@),
        fetch_carries(s, e, t),
    ensures
        is_user_config_dir(t.config_dir@),
        is_user_cache_dir(t.cache_dir@),
        fetch_issues(s, a) ==> match a {
            FetchStep::ReadManifest { path } => path@ == manifest_path_under(s.config_dir@, s.sbc_model@),
            FetchStep::CreateDir { path } => path@ == foundations_dir_under(s.cache_dir@),
            FetchStep::CheckSaved { path } => path@ == fetch_savepath(s),
            FetchStep::Download { savepath, .. } => savepath@ == fetch_savepath(s),
            FetchStep::Finish { savepath, .. } => savepath@ == fetch_savepath(s),
            FetchStep::Fail { .. } => true,
        },
        fetch_savepath(s) == path_join(
            foundations_dir_under(s.cache_dir@),
            match url_filename_of(s.url@) {
                Some(f) => f,
                None => Seq::empty(),
            },
        ),
{
}

} // verus!
