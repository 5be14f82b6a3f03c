use pbuilder::manifest::{
    manifest_dir, manifest_dir_in, manifest_glob_pattern, manifest_path, manifest_path_in, Manifest,
};
use pbuilder::BuildError;

fn b(s: &str) -> Vec<u8> {
    s.as_bytes().to_vec()
}

#[test]
fn manifest_path_expected_location_and_format() -> Result<(), BuildError> {
    let path = manifest_path("rpi2w")?;

    assert!(path.ends_with(b"/parch-builder/manifests/rpi2w.yml"));

    Ok(())
}

#[test]
fn manifest_dir_is_under_config_dir() {
    assert_eq!(manifest_dir_in(b"/home/alice/.config"), b("/home/alice/.config/parch-builder/manifests"));
    assert_eq!(manifest_dir_in(b"/home/alice/.config/"), b("/home/alice/.config/parch-builder/manifests"));
}

#[test]
fn manifest_path_names_yml_file() {
    assert_eq!(
        manifest_path_in(b"/home/alice/.config", "rpi2w"),
        b("/home/alice/.config/parch-builder/manifests/rpi2w.yml")
    );
    assert_eq!(
        manifest_path_in(b"/home/alice/.config", "rpi5"),
        b("/home/alice/.config/parch-builder/manifests/rpi5.yml")
    );
}

#[test]
fn manifest_path_keeps_non_utf8_config_dir() {
    let config = b"/home/\xffbob/.config";
    let mut expected = config.to_vec();
    expected.extend_from_slice(b"/parch-builder/manifests/rpi2w.yml");
    assert_eq!(manifest_path_in(config, "rpi2w"), expected);
}

#[test]
fn manifest_path_with_absolute_name_replaces_dir() {
    assert_eq!(manifest_path_in(b"/home/alice/.config", "/etc/x"), b("/etc/x.yml"));
}

#[test]
fn manifest_path_matches_user_manifest_dir() -> Result<(), BuildError> {
    let mut dir = manifest_dir()?;
    let path = manifest_path("opi3")?;
    dir.extend_from_slice(b"/opi3.yml");
    assert_eq!(path, dir);
    Ok(())
}

#[test]
fn glob_pattern_lists_yml_files() {
    assert_eq!(
        manifest_glob_pattern(b"/home/alice/.config/parch-builder/manifests"),
        "/home/alice/.config/parch-builder/manifests/*.yml"
    );
}

#[test]
fn glob_pattern_falls_back_for_non_utf8_dir() {
    assert_eq!(manifest_glob_pattern(b"/home/\xff/m"), ".config/parch-builder/manifests/*.yml");
}

#[test]
fn archive_name_is_last_url_segment() {
    let manifest = Manifest {
        foundation_url: String::from(
            "http://os.archlinuxarm.org/os/ArchLinuxARM-rpi-aarch64-latest.tar.gz",
        ),
    };
    assert_eq!(manifest.foundation_archive_name(), Ok(b("ArchLinuxARM-rpi-aarch64-latest.tar.gz")));
}

#[test]
fn archive_name_refused_without_path() {
    let manifest = Manifest { foundation_url: String::from("data:text/plain,HelloWorld") };
    assert_eq!(manifest.foundation_archive_name(), Err(BuildError::NoFilenameInUrl));
    let manifest = Manifest { foundation_url: String::from("not a url") };
    assert_eq!(manifest.foundation_archive_name(), Err(BuildError::NoFilenameInUrl));
}
