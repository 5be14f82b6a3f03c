//! Paths as the bytes the operating system sees, joined the way a Unix
//! `PathBuf` joins them.
use vstd::prelude::*;
use vstd::slice::slice_to_vec;
use vstd::utf8::encode_utf8;

verus! {

/// The separator `/`.
pub open spec fn separator() -> u8 {
    47u8
}

/// Whether a path is absolute, i.e. starts with the separator.
pub open spec fn is_absolute(p: Seq<u8>) -> bool {
    p.len() > 0 && p[0] == separator()
}

/// Joining `comp` onto `base`: an absolute `comp` replaces `base`; otherwise
/// a separator is inserted unless `base` is empty or already ends in one.
pub open spec fn path_join(base: Seq<u8>, comp: Seq<u8>) -> Seq<u8> {
    if is_absolute(comp) {
        comp
    } else if base.len() == 0 || base.last() == separator() {
        base + comp
    } else {
        base + seq![separator()] + comp
    }
}

/// The bytes of a string, as the operating system sees it (UTF-8).
pub fn bytes_of(s: &str) -> (res: Vec<u8>)
    ensures
        res@ == encode_utf8(s@),
{
    slice_to_vec(s.as_bytes())
}

/// Whether the path starts with the separator.
pub fn starts_with_separator(p: &[u8]) -> (res: bool)
    ensures
        res == is_absolute(p@),
{
    p.len() > 0 && p[0] == 47u8
}

/// `base` followed by `tail`.
pub fn concat_bytes(base: &[u8], tail: &[u8]) -> (res: Vec<u8>)
    ensures
        res@ == base@ + tail@,
{
    let mut res = slice_to_vec(base);
    let mut i: usize = 0;
    while i < tail.len()
        invariant
            i <= tail@.len(),
            res@ == base@ + tail@.subrange(0, i as int),
        decreases tail@.len() - i,
    {
        res.push(tail[i]);
        assert(tail@.subrange(0, i + 1) == tail@.subrange(0, i as int).push(tail@[i as int]));
        i = i + 1;
    }
    assert(tail@.subrange(0, tail@.len() as int) == tail@);
    res
}

/// Joins `comp` onto `base` (`Path::join` on Unix).
pub fn join(base: &[u8], comp: &[u8]) -> (res: Vec<u8>)
    ensures
        res@ == path_join(base@, comp@),
{
    if starts_with_separator(comp) {
        return slice_to_vec(comp);
    }
    let n = base.len();
    if n > 0 && base[n - 1] != 47u8 {
        let sep: [u8; 1] = [47u8];
        let with_sep = concat_bytes(base, sep.as_slice());
        assert(sep@ =~= seq![separator()]);
        concat_bytes(with_sep.as_slice(), comp)
    } else {
        concat_bytes(base, comp)
    }
}

/// The part of `p` after its last separator, or all of `p` if it has none.
pub open spec fn after_last_separator(p: Seq<u8>) -> Seq<u8>
    decreases p.len(),
{
    if p.len() == 0 {
        p
    } else if p.last() == separator() {
        Seq::empty()
    } else {
        after_last_separator(p.drop_last()).push(p.last())
    }
}

/// The last separated segment of a path that starts with the separator,
/// and `None` for one that does not (splitting after the leading separator
/// and taking the last piece, which may be empty).
pub open spec fn last_segment(p: Seq<u8>) -> Option<Seq<u8>> {
    if is_absolute(p) {
        Some(after_last_separator(p))
    } else {
        None
    }
}

/// The part after the last separator holds no separator.
pub proof fn lemma_after_last_separator_has_no_separator(p: Seq<u8>)
    ensures
        !after_last_separator(p).contains(separator()),
    decreases p.len(),
{
    if p.len() > 0 && p.last() != separator() {
        lemma_after_last_separator_has_no_separator(p.drop_last());
        let a = after_last_separator(p.drop_last());
        assert forall|k: int| 0 <= k < a.push(p.last()).len() implies a.push(p.last())[k]
            != separator() by {
            if k < a.len() {
                assert(a[k] == a.push(p.last())[k]);
            }
        }
    }
}

/// When no separator occurs at or after `i`, the part after the last
/// separator of `p` is that of its first `i` bytes followed by the rest.
proof fn lemma_after_last_separator_split(p: Seq<u8>, i: int)
    requires
        0 <= i <= p.len(),
        forall|k: int| i <= k < p.len() ==> p[k] != separator(),
    ensures
        after_last_separator(p) == after_last_separator(p.subrange(0, i)) + p.subrange(
            i,
            p.len() as int,
        ),
    decreases p.len(),
{
    if p.len() == i {
        assert(p.subrange(0, i) == p);
        assert(p.subrange(i, p.len() as int) == Seq::<u8>::empty());
    } else {
        let q = p.drop_last();
        lemma_after_last_separator_split(q, i);
        assert(q.subrange(0, i) == p.subrange(0, i));
        assert(q.subrange(i, q.len() as int).push(p.last()) == p.subrange(i, p.len() as int));
        assert((after_last_separator(q.subrange(0, i)) + q.subrange(i, q.len() as int)).push(
            p.last(),
        ) == after_last_separator(q.subrange(0, i)) + q.subrange(i, q.len() as int).push(
            p.last(),
        ));
    }
}

/// The last segment of a path (`path_segments().next_back()` in `url`).
pub fn last_path_segment(p: &[u8]) -> (res: Option<Vec<u8>>)
    ensures
        match res {
            Some(s) => last_segment(p@) == Some(s@),
            None => last_segment(p@) is None,
        },
{
    if !starts_with_separator(p) {
        return None;
    }
    let n = p.len();
    let mut i = n;
    while i > 0 && p[i - 1] != 47u8
        invariant
            0 <= i <= n,
            n == p@.len(),
            forall|k: int| i <= k < n ==> p@[k] != separator(),
        decreases i,
    {
        i = i - 1;
    }
    proof {
        lemma_after_last_separator_split(p@, i as int);
        if i > 0 {
            assert(p@.subrange(0, i as int).last() == separator());
        } else {
            assert(p@.subrange(0, 0) == Seq::<u8>::empty());
        }
    }
    let mut seg: Vec<u8> = Vec::new();
    let mut j = i;
    while j < n
        invariant
            i <= j <= n,
            n == p@.len(),
            seg@ == p@.subrange(i as int, j as int),
        decreases n - j,
    {
        seg.push(p[j]);
        assert(p@.subrange(i as int, j + 1) == p@.subrange(i as int, j as int).push(p@[j as int]));
        j = j + 1;
    }
    Some(seg)
}

} // verus!
