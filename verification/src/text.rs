//! Paths as text: how a path is displayed, and whether it is UTF-8.
use vstd::prelude::*;
use vstd::utf8::{decode_utf8, valid_utf8};

verus! {

/// The text of `String::from_utf8_lossy(bytes)`: invalid UTF-8 sequences
/// replaced by U+FFFD, as a path's `display()` shows it.
pub uninterp spec fn lossy_text(bytes: Seq<u8>) -> Seq<char>;

/// `String::from_utf8_lossy`: how a path is written out by `Path::display`.
/// Claimed: the result is a function of the bytes (named `lossy_text`), and
/// valid UTF-8 is decoded as it is, as the std documentation says. How
/// invalid sequences are replaced is left unsaid.
#[verifier::external_body]
pub(crate) fn display_text(p: &[u8]) -> (res: String)
    ensures
        res@ == lossy_text(p@),
        valid_utf8(p@) ==> res@ == decode_utf8(p@),
{
    String::from_utf8_lossy(p).into_owned()
}

/// `std::str::from_utf8`: the text of the bytes where they are valid UTF-8,
/// `None` otherwise, as the std documentation says.
#[verifier::external_body]
pub(crate) fn utf8_text(p: &[u8]) -> (res: Option<String>)
    ensures
        res is Some <==> valid_utf8(p@),
        res matches Some(s) ==> s@ == decode_utf8(p@),
{
    match std::str::from_utf8(p) {
        Ok(s) => Some(s.to_string()),
        Err(_) => None,
    }
}

} // verus!
