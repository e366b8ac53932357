//! Substring matching over labels. The platform heuristics pick temperature
//! components by whether their label contains a platform-specific marker.

use vstd::prelude::*;

verus! {

/// `pat` occurs in `hay` starting at position `i`.
pub open spec fn matches_at(hay: Seq<char>, pat: Seq<char>, i: int) -> bool {
    &&& 0 <= i
    &&& i + pat.len() <= hay.len()
    &&& forall|j: int| 0 <= j < pat.len() ==> hay[i + j] == pat[j]
}

/// `pat` occurs somewhere in `hay` (the empty pattern occurs everywhere).
pub open spec fn contains_pattern(hay: Seq<char>, pat: Seq<char>) -> bool {
    exists|i: int| matches_at(hay, pat, i)
}

/// Whether `pat` occurs in `hay` starting exactly at `i`.
pub fn matches_at_exec(hay: &str, pat: &str, i: usize, hay_len: usize, pat_len: usize) -> (b: bool)
    requires
        hay_len == hay@.len(),
        pat_len == pat@.len(),
        i + pat_len <= hay_len,
    ensures
        b == matches_at(hay@, pat@, i as int),
{
    let mut j: usize = 0;
    while j < pat_len
        invariant
            hay_len == hay@.len(),
            pat_len == pat@.len(),
            i + pat_len <= hay_len,
            0 <= j <= pat_len,
            forall|k: int| 0 <= k < j ==> hay@[i + k] == pat@[k],
        decreases pat_len - j,
    {
        if hay.get_char(i + j) != pat.get_char(j) {
            return false;
        }
        j += 1;
    }
    true
}

/// Whether `hay` contains `pat` as a contiguous substring.
pub fn str_contains(hay: &str, pat: &str) -> (b: bool)
    ensures
        b == contains_pattern(hay@, pat@),
{
    let hay_len = hay.unicode_len();
    let pat_len = pat.unicode_len();
    if pat_len > hay_len {
        assert(forall|i: int| !matches_at(hay@, pat@, i));
        return false;
    }
    let mut i: usize = 0;
    while i <= hay_len - pat_len
        invariant
            hay_len == hay@.len(),
            pat_len == pat@.len(),
            pat_len <= hay_len,
            0 <= i <= hay_len - pat_len + 1,
            forall|k: int| 0 <= k < i ==> !matches_at(hay@, pat@, k),
        decreases hay_len - pat_len - i + 1,
    {
        if matches_at_exec(hay, pat, i, hay_len, pat_len) {
            return true;
        }
        i += 1;
    }
    assert(forall|k: int| !matches_at(hay@, pat@, k));
    false
}

} // verus!
