use pbuilder::decimal::decimal;
use pbuilder::paths::{bytes_of, concat_bytes, join, last_path_segment, starts_with_separator};
use pbuilder::urls::url_filename;

fn b(s: &str) -> Vec<u8> {
    s.as_bytes().to_vec()
}

#[test]
fn join_inserts_one_separator() {
    assert_eq!(join(b"/a", b"b"), b("/a/b"));
    assert_eq!(join(b"/a/", b"b"), b("/a/b"));
    assert_eq!(join(b"", b"b"), b("b"));
    assert_eq!(join(b"/a", b""), b("/a/"));
}

#[test]
fn join_absolute_replaces() {
    assert_eq!(join(b"/a", b"/b"), b("/b"));
    assert_eq!(join(b"/tmp/root", b"/boot"), b("/boot"));
}

#[test]
fn join_agrees_with_pathbuf() {
    let cases: [(&str, &str); 6] = [
        ("/a", "b"),
        ("a/", "b"),
        ("", "x"),
        ("/x", "/y"),
        ("r", ""),
        ("é", "ü/v"),
    ];
    for (base, comp) in cases {
        let expected = std::path::Path::new(base).join(comp);
        assert_eq!(join(base.as_bytes(), comp.as_bytes()), b(expected.to_str().unwrap()));
    }
}

#[test]
fn join_keeps_non_utf8_bytes() {
    assert_eq!(join(b"/\xff\xfe", b"z"), b"/\xff\xfe/z".to_vec());
    assert_eq!(join(b"/\xff/", b"z\xfe"), b"/\xff/z\xfe".to_vec());
}

#[test]
fn bytes_and_concat() {
    assert_eq!(bytes_of("ünï"), "ünï".as_bytes().to_vec());
    assert_eq!(concat_bytes(b"ab", b"cd"), b("abcd"));
    assert_eq!(concat_bytes(b"", b""), Vec::<u8>::new());
}

#[test]
fn separator_detection() {
    assert!(starts_with_separator(b"/x"));
    assert!(!starts_with_separator(b"x/"));
    assert!(!starts_with_separator(b""));
}

#[test]
fn last_segment_of_paths() {
    assert_eq!(last_path_segment(b"/static/images/rust-logo-blk.svg"), Some(b("rust-logo-blk.svg")));
    assert_eq!(last_path_segment(b"/"), Some(Vec::new()));
    assert_eq!(last_path_segment(b"/a/"), Some(Vec::new()));
    assert_eq!(last_path_segment("/ünï".as_bytes()), Some(b("ünï")));
    assert_eq!(last_path_segment(b"a/b"), None);
    assert_eq!(last_path_segment(b""), None);
}

#[test]
fn url_filenames() {
    assert_eq!(
        url_filename("https://www.rust-lang.org/static/images/rust-logo-blk.svg"),
        Some(b("rust-logo-blk.svg"))
    );
    assert_eq!(url_filename("https://example.com"), Some(Vec::new()));
    assert_eq!(url_filename("https://example.com/countries/việt nam"), Some(b("vi%E1%BB%87t%20nam")));
    assert_eq!(url_filename("https://example.com/a?b=c/d#e/f"), Some(b("a")));
    assert_eq!(url_filename("data:text/plain,HelloWorld"), None);
    assert_eq!(url_filename("no scheme"), None);
}

#[test]
fn decimal_notation() {
    assert_eq!(decimal(0), b("0"));
    assert_eq!(decimal(7), b("7"));
    assert_eq!(decimal(10), b("10"));
    assert_eq!(decimal(8000), b("8000"));
    assert_eq!(decimal(u64::MAX), u64::MAX.to_string().into_bytes());
}
