use pbuilder::fetch_steps::{new_fetch, new_fetch_in, FetchEvent, FetchPhase, FetchState, FetchStep};
use pbuilder::manifest::Manifest;
use pbuilder::read_manifest_and_fetch_foundation;
use pbuilder::BuildError;

const LOGO: &str = "https://rust-lang.org/static/images/rust-logo-blk.svg";
const SAVED: &str = "/home/u/.cache/parch-builder/foundations/rust-logo-blk.svg";

fn b(s: &str) -> Vec<u8> {
    s.as_bytes().to_vec()
}

fn step(state: &FetchState, event: FetchEvent) -> (FetchState, FetchStep) {
    read_manifest_and_fetch_foundation(state, event).unwrap()
}

fn read_manifest(overwrite: bool) -> FetchState {
    let s = new_fetch_in("rust-logo", overwrite, b"/home/u/.config", b"/home/u/.cache");
    let (s, a) = step(&s, FetchEvent::Begin);
    assert_eq!(
        a,
        FetchStep::ReadManifest {
            path: b("/home/u/.config/parch-builder/manifests/rust-logo.yml")
        }
    );
    let manifest = Manifest { foundation_url: String::from(LOGO) };
    let (s, a) = step(&s, FetchEvent::ManifestRead { manifest });
    assert_eq!(
        a,
        FetchStep::CreateDir { path: b("/home/u/.cache/parch-builder/foundations") }
    );
    let (s, a) = step(&s, FetchEvent::Done);
    assert_eq!(a, FetchStep::CheckSaved { path: b(SAVED) });
    s
}

#[test]
fn fetch_downloads_missing_foundation() {
    let s = read_manifest(false);
    let (s, a) = step(&s, FetchEvent::SavedChecked { exists: false });
    assert_eq!(a, FetchStep::Download { url: String::from(LOGO), savepath: b(SAVED) });
    let (s, a) = step(&s, FetchEvent::Downloaded);
    assert_eq!(s.phase, FetchPhase::Finished);
    assert_eq!(a, FetchStep::Finish { savepath: b(SAVED), cached: false });
}

#[test]
fn fetch_keeps_saved_foundation_without_overwrite() {
    let s = read_manifest(false);
    let (s, a) = step(&s, FetchEvent::SavedChecked { exists: true });
    assert_eq!(s.phase, FetchPhase::Finished);
    assert_eq!(a, FetchStep::Finish { savepath: b(SAVED), cached: true });
}

#[test]
fn fetch_overwrites_when_asked() {
    let s = read_manifest(true);
    let (_, a) = step(&s, FetchEvent::SavedChecked { exists: true });
    assert_eq!(a, FetchStep::Download { url: String::from(LOGO), savepath: b(SAVED) });
}

#[test]
fn fetch_stops_at_unexpected_report() {
    let s = new_fetch_in("rust-logo", false, b"/c", b"/k");
    let (s, a) = step(&s, FetchEvent::Downloaded);
    assert_eq!(s.phase, FetchPhase::Failed);
    assert_eq!(a, FetchStep::Fail { error: BuildError::UnexpectedEvent });
    let (s, a) = step(&s, FetchEvent::Begin);
    assert_eq!(s.phase, FetchPhase::Failed);
    assert_eq!(a, FetchStep::Fail { error: BuildError::UnexpectedEvent });
}

#[test]
fn fetch_refuses_manifest_without_file_name() {
    let s = new_fetch_in("m", false, b"/c", b"/k");
    let (s, _) = step(&s, FetchEvent::Begin);
    let manifest = Manifest { foundation_url: String::from("mailto:a@b.c") };
    assert!(read_manifest_and_fetch_foundation(&s, FetchEvent::ManifestRead { manifest }).is_none());
}

#[test]
fn fetch_under_user_dirs() -> Result<(), BuildError> {
    let s = new_fetch("rpi2w", false)?;
    let (_, a) = step(&s, FetchEvent::Begin);
    match a {
        FetchStep::ReadManifest { path } => assert!(path.ends_with(b"/parch-builder/manifests/rpi2w.yml")),
        other => panic!("unexpected step {other:?}"),
    }
    Ok(())
}
