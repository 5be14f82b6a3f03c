//! Download URLs and the file names they give.
use vstd::prelude::*;
use vstd::utf8::encode_utf8;
use crate::paths::{bytes_of, last_path_segment, last_segment};

verus! {

/// The path of the URL that `url::Url::parse` makes of `input`, or `None`
/// where `input` does not parse.
pub uninterp spec fn parsed_url_path(input: Seq<char>) -> Option<Seq<char>>;

/// Parses `input` with `url::Url::parse` and returns `Url::path` of the
/// result. The contract claims only that the result is a function of
/// `input` (named `parsed_url_path`); what the parser accepts and how it
/// normalises the path is the `url` crate's.
#[verifier::external_body]
fn url_path(input: &str) -> (res: Option<String>)
    ensures
        match res {
            Some(p) => parsed_url_path(input@) == Some(p@),
            None => parsed_url_path(input@) is None,
        },
{
    match url::Url::parse(input) {
        Ok(u) => Some(u.path().to_string()),
        Err(_) => None,
    }
}

/// The file name a URL gives, as bytes: the last segment of its path,
/// `None` where the URL does not parse or its path has no segments (a
/// cannot-be-a-base URL).
pub open spec fn url_filename_of(url: Seq<char>) -> Option<Seq<u8>> {
    match parsed_url_path(url) {
        Some(p) => last_segment(encode_utf8(p)),
        None => None,
    }
}

/// The last path segment of a URL, as `url.path_segments()` and `next_back`
/// give it.
pub fn url_filename(url: &str) -> (res: Option<Vec<u8>>)
    ensures
        match res {
            Some(f) => url_filename_of(url@) == Some(f@),
            None => url_filename_of(url@) is None,
        },
{
    match url_path(url) {
        Some(p) => {
            let bytes = bytes_of(p.as_str());
            last_path_segment(bytes.as_slice())
        },
        None => None,
    }
}

} // verus!
