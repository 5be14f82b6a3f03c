use pbuilder::fetch::{
    fetch, foundation_cache_dir, foundation_cache_dir_in, plan_fetch, plan_fetch_checked, plan_fetch_in,
    FetchAction,
};
use pbuilder::BuildError;

const LOGO: &str = "https://www.rust-lang.org/static/images/rust-logo-blk.svg";

fn b(s: &str) -> Vec<u8> {
    s.as_bytes().to_vec()
}

#[test]
fn foundation_cache_dir_under_cache() {
    assert_eq!(foundation_cache_dir_in(b"/home/alice/.cache"), b("/home/alice/.cache/parch-builder/foundations"));
}

#[test]
fn plan_saves_under_last_segment() {
    let plan = plan_fetch_in(LOGO, b"/home/alice/.cache");
    assert_eq!(plan.url, LOGO);
    assert_eq!(plan.cache_dir, b("/home/alice/.cache/parch-builder/foundations"));
    assert_eq!(plan.savepath, b("/home/alice/.cache/parch-builder/foundations/rust-logo-blk.svg"));
}

#[test]
fn plan_keeps_non_utf8_cache_dir() {
    let plan = plan_fetch_in(LOGO, b"/home/\xfe/.cache");
    assert_eq!(plan.savepath, b"/home/\xfe/.cache/parch-builder/foundations/rust-logo-blk.svg".to_vec());
}

#[test]
fn plan_with_empty_last_segment() {
    let plan = plan_fetch_in("https://example.com/", b"/c");
    assert_eq!(plan.savepath, b("/c/parch-builder/foundations/"));
}

#[test]
fn plan_refused_without_path_segments() {
    assert_eq!(plan_fetch_checked("data:text/plain,HelloWorld"), None);
    assert_eq!(plan_fetch_checked("mailto:a@b.c"), None);
}

#[test]
fn plan_under_user_cache_dir() -> Result<(), BuildError> {
    let mut dir = foundation_cache_dir()?;
    let plan = plan_fetch(LOGO)?;
    assert_eq!(plan_fetch_checked(LOGO), Some(Ok(plan.clone())));
    assert_eq!(plan.cache_dir, dir);
    dir.extend_from_slice(b"/rust-logo-blk.svg");
    assert_eq!(plan.savepath, dir);
    Ok(())
}

#[test]
fn existing_file_kept_without_overwrite() {
    let plan = plan_fetch_in(LOGO, b"/c");
    assert_eq!(
        fetch(&plan, false, true),
        FetchAction::UseCached { savepath: b("/c/parch-builder/foundations/rust-logo-blk.svg") }
    );
}

#[test]
fn overwrite_downloads_again() {
    let plan = plan_fetch_in(LOGO, b"/c");
    assert_eq!(
        fetch(&plan, true, true),
        FetchAction::Download {
            url: String::from(LOGO),
            savepath: b("/c/parch-builder/foundations/rust-logo-blk.svg"),
        }
    );
}

#[test]
fn missing_file_downloaded() {
    let plan = plan_fetch_in(LOGO, b"/c");
    for overwrite in [false, true] {
        assert_eq!(
            fetch(&plan, overwrite, false),
            FetchAction::Download {
                url: String::from(LOGO),
                savepath: b("/c/parch-builder/foundations/rust-logo-blk.svg"),
            }
        );
    }
}

#[test]
fn second_fetch_keeps_first_download() {
    let first = plan_fetch_in(LOGO, b"/c");
    let second = plan_fetch_in(LOGO, b"/c");
    assert_eq!(first, second);
    assert_eq!(fetch(&second, false, true), FetchAction::UseCached { savepath: first.savepath });
}
