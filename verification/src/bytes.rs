//! Helpers on byte slices and byte sequences: substring search, splitting
//! on a separator, prefix tests, trailing-whitespace trimming, and the
//! decimal rendering of a length.

use vstd::prelude::*;
use vstd::slice::slice_index_get;
use vstd::slice::slice_subrange;
use vstd::slice::slice_to_vec;

verus! {

/// The first index at or after `i` where `pat` occurs in `s`, or `-1`
/// when there is no such occurrence.
pub open spec fn spec_find_at(s: Seq<u8>, pat: Seq<u8>, i: int) -> int
    decreases s.len() + 1 - i,
{
    if i < 0 || i > s.len() {
        -1
    } else if i + pat.len() <= s.len() && s.subrange(i, i + pat.len() as int) == pat {
        i
    } else if i + pat.len() > s.len() {
        -1
    } else {
        spec_find_at(s, pat, i + 1)
    }
}

/// A found index lies at or after the start and leaves room for `pat`.
pub proof fn lemma_find_at_in_range(s: Seq<u8>, pat: Seq<u8>, i: int)
    ensures
        spec_find_at(s, pat, i) == -1 || (i <= spec_find_at(s, pat, i)
            && spec_find_at(s, pat, i) + pat.len() <= s.len()),
    decreases s.len() + 1 - i,
{
    if i < 0 || i > s.len() {
    } else if i + pat.len() <= s.len() && s.subrange(i, i + pat.len() as int) == pat {
    } else if i + pat.len() > s.len() {
    } else {
        lemma_find_at_in_range(s, pat, i + 1);
    }
}

/// Reads one byte of a slice.
pub fn byte_at(s: &[u8], i: usize) -> (b: u8)
    requires
        i < s@.len(),
    ensures
        b == s@[i as int],
{
    *slice_index_get(s, i)
}

/// Whether `pat` occurs in `s` at exactly the index `i`.
pub fn match_at(s: &[u8], pat: &[u8], i: usize) -> (b: bool)
    requires
        i + pat@.len() <= s@.len(),
    ensures
        b == (s@.subrange(i as int, i as int + pat@.len() as int) == pat@),
{
    let ghost sub = s@.subrange(i as int, i as int + pat@.len() as int);
    let n: usize = s.len();
    let mut j: usize = 0;
    while j < pat.len()
        invariant
            0 <= j <= pat@.len(),
            i + pat@.len() <= s@.len(),
            n == s@.len(),
            sub == s@.subrange(i as int, i as int + pat@.len() as int),
            forall|k: int| 0 <= k < j ==> s@[i + k] == pat@[k],
        decreases pat@.len() - j,
    {
        if byte_at(s, i + j) != byte_at(pat, j) {
            proof {
                assert(sub[j as int] == s@[i + j]);
            }
            return false;
        }
        j += 1;
    }
    proof {
        assert(sub =~= pat@);
    }
    true
}

/// Finds the first occurrence of `pat` in `s` at or after `from`.
pub fn find_from(s: &[u8], pat: &[u8], from: usize) -> (r: Option<usize>)
    requires
        pat@.len() >= 1,
    ensures
        match r {
            Some(k) => from <= k && k + pat@.len() <= s@.len()
                && s@.subrange(k as int, k as int + pat@.len() as int) == pat@
                && spec_find_at(s@, pat@, from as int) == k,
            None => spec_find_at(s@, pat@, from as int) == -1,
        },
{
    if s.len() < pat.len() || from > s.len() - pat.len() {
        return None;
    }
    let last: usize = s.len() - pat.len();
    let mut i: usize = from;
    while i <= last
        invariant
            from <= i,
            i <= last + 1,
            pat@.len() >= 1,
            last == s@.len() - pat@.len(),
            last + 1 <= usize::MAX,
            spec_find_at(s@, pat@, from as int) == spec_find_at(s@, pat@, i as int),
        decreases last + 1 - i,
    {
        if match_at(s, pat, i) {
            return Some(i);
        }
        i += 1;
    }
    None
}

/// Whether `p` is a prefix of `s`.
pub open spec fn is_prefix_of(p: Seq<u8>, s: Seq<u8>) -> bool {
    p.len() <= s.len() && s.subrange(0, p.len() as int) == p
}

/// Whether `s` starts with `p`.
pub fn starts_with(s: &[u8], p: &[u8]) -> (b: bool)
    ensures
        b == is_prefix_of(p@, s@),
{
    if p.len() > s.len() {
        false
    } else {
        match_at(s, p, 0)
    }
}

/// Whether two byte slices hold the same bytes.
pub fn bytes_eq(a: &[u8], b: &[u8]) -> (r: bool)
    ensures
        r == (a@ == b@),
{
    if a.len() != b.len() {
        return false;
    }
    let r = match_at(a, b, 0);
    proof {
        assert(a@.subrange(0, a@.len() as int) =~= a@);
    }
    r
}

/// Copies the bytes of `s` between `i` and `j` into a fresh vector.
pub fn subvec(s: &[u8], i: usize, j: usize) -> (r: Vec<u8>)
    requires
        i <= j && j <= s@.len(),
    ensures
        r@ == s@.subrange(i as int, j as int),
{
    slice_to_vec(slice_subrange(s, i, j))
}

/// Appends all bytes of `src` to `dst`.
pub fn push_all(dst: &mut Vec<u8>, src: &[u8])
    ensures
        final(dst)@ == old(dst)@ + src@,
{
    let mut k: usize = 0;
    while k < src.len()
        invariant
            k <= src@.len(),
            dst@ == old(dst)@ + src@.subrange(0, k as int),
        decreases src@.len() - k,
    {
        dst.push(byte_at(src, k));
        proof {
            assert(old(dst)@ + src@.subrange(0, k as int + 1)
                =~= (old(dst)@ + src@.subrange(0, k as int)).push(src@[k as int]));
        }
        k += 1;
    }
    proof {
        assert(src@.subrange(0, src@.len() as int) =~= src@);
    }
}

/// ASCII whitespace: space, tab, carriage return, line feed.
pub open spec fn is_ws(b: u8) -> bool {
    b == 32 || b == 9 || b == 13 || b == 10
}

/// Whether the byte is ASCII whitespace.
pub fn is_ws_byte(b: u8) -> (r: bool)
    ensures
        r == is_ws(b),
{
    b == 32 || b == 9 || b == 13 || b == 10
}

/// `s` with every trailing ASCII-whitespace byte removed.
pub open spec fn trim_ws_end(s: Seq<u8>) -> Seq<u8>
    decreases s.len(),
{
    if s.len() > 0 && is_ws(s.last()) {
        trim_ws_end(s.drop_last())
    } else {
        s
    }
}

/// Copies `s` without its trailing ASCII whitespace.
pub fn trim_end_ws(s: &[u8]) -> (r: Vec<u8>)
    ensures
        r@ == trim_ws_end(s@),
{
    proof {
        assert(s@.subrange(0, s@.len() as int) =~= s@);
    }
    let mut i: usize = s.len();
    while i > 0 && is_ws_byte(byte_at(s, i - 1))
        invariant
            i <= s@.len(),
            trim_ws_end(s@) == trim_ws_end(s@.subrange(0, i as int)),
        decreases i,
    {
        proof {
            let t = s@.subrange(0, i as int);
            assert(t.last() == s@[i - 1]);
            assert(t.drop_last() =~= s@.subrange(0, i - 1));
        }
        i -= 1;
    }
    subvec(s, 0, i)
}

/// The decimal digits of `n`, most significant first.
pub open spec fn dec_rep(n: nat) -> Seq<u8>
    decreases n,
{
    if n < 10 {
        seq![(48 + n) as u8]
    } else {
        dec_rep(n / 10) + seq![(48 + n % 10) as u8]
    }
}

/// Renders `n` in decimal.
pub fn dec_bytes(n: usize) -> (r: Vec<u8>)
    ensures
        r@ == dec_rep(n as nat),
    decreases n,
{
    if n < 10 {
        let mut r: Vec<u8> = Vec::new();
        r.push(48 + (n as u8));
        proof {
            assert(r@ =~= dec_rep(n as nat));
        }
        r
    } else {
        let mut r = dec_bytes(n / 10);
        r.push(48 + ((n % 10) as u8));
        proof {
            assert(r@ =~= dec_rep(n as nat));
        }
        r
    }
}

/// The views of a sequence of byte vectors.
pub open spec fn views_of(s: Seq<Vec<u8>>) -> Seq<Seq<u8>> {
    s.map_values(|v: Vec<u8>| v@)
}

/// The pieces of `s` between the occurrences of `sep`, in order. A byte
/// never belongs to two pieces, and an input without the separator is one
/// piece; splitting always yields at least one piece.
pub open spec fn split_on(s: Seq<u8>, sep: Seq<u8>) -> Seq<Seq<u8>>
    decreases s.len(),
    via split_on_decreases
{
    if sep.len() == 0 {
        seq![s]
    } else {
        let i = spec_find_at(s, sep, 0);
        if i < 0 {
            seq![s]
        } else {
            seq![s.subrange(0, i)] + split_on(s.subrange(i + sep.len() as int, s.len() as int), sep)
        }
    }
}

#[via_fn]
proof fn split_on_decreases(s: Seq<u8>, sep: Seq<u8>) {
    if sep.len() > 0 {
        lemma_find_at_in_range(s, sep, 0);
    }
}

/// Splits `s` on every occurrence of `sep`.
pub fn split_on_sep(s: &[u8], sep: &[u8]) -> (r: Vec<Vec<u8>>)
    requires
        sep@.len() >= 1,
    ensures
        views_of(r@) == split_on(s@, sep@),
    decreases s@.len(),
{
    match find_from(s, sep, 0) {
        None => {
            let mut r: Vec<Vec<u8>> = Vec::new();
            r.push(slice_to_vec(s));
            proof {
                assert(views_of(r@) =~= split_on(s@, sep@));
            }
            r
        }
        Some(i) => {
            let n: usize = s.len();
            let head: Vec<u8> = subvec(s, 0, i);
            let rest: &[u8] = slice_subrange(s, i + sep.len(), n);
            let mut tail: Vec<Vec<u8>> = split_on_sep(rest, sep);
            let mut r: Vec<Vec<u8>> = Vec::new();
            r.push(head);
            r.append(&mut tail);
            proof {
                assert(views_of(r@) =~= split_on(s@, sep@));
            }
            r
        }
    }
}

} // verus!
