//! Character-level helpers for the header inspection that the retry policy
//! performs: equality and substring search over `&str`, with specifications
//! phrased over the `Seq<char>` views.

use vstd::prelude::*;

verus! {

/// `needle` occurs in `hay` as a contiguous run starting at `at`.
pub open spec fn matches_at(hay: Seq<char>, needle: Seq<char>, at: int) -> bool {
    &&& 0 <= at
    &&& at + needle.len() <= hay.len()
    &&& hay.subrange(at, at + needle.len()) == needle
}

/// `needle` occurs somewhere in `hay`.
pub open spec fn contains_seq(hay: Seq<char>, needle: Seq<char>) -> bool {
    exists|at: int| matches_at(hay, needle, at)
}

/// Character-for-character equality of two string slices.
pub fn str_eq(a: &str, b: &str) -> (r: bool)
    ensures
        r == (a@ == b@),
{
    let a_len = a.unicode_len();
    let b_len = b.unicode_len();
    if a_len != b_len {
        return false;
    }
    let mut i: usize = 0;
    while i < a_len
        invariant
            i <= a_len,
            a_len == a@.len(),
            b_len == b@.len(),
            a_len == b_len,
            forall|j: int| 0 <= j < i ==> a@[j] == b@[j],
        decreases a_len - i,
    {
        if a.get_char(i) != b.get_char(i) {
            return false;
        }
        i += 1;
    }
    proof {
        assert(a@ =~= b@);
    }
    true
}

/// Whether `needle` matches `hay` at position `at`, checked character by
/// character.
fn matches_at_exec(hay: &str, needle: &str, at: usize) -> (r: bool)
    requires
        at + needle@.len() <= hay@.len(),
    ensures
        r == matches_at(hay@, needle@, at as int),
{
    let hay_len = hay.unicode_len();
    let n = needle.unicode_len();
    let mut j: usize = 0;
    while j < n
        invariant
            j <= n,
            n == needle@.len(),
            hay_len == hay@.len(),
            at + n <= hay_len,
            forall|k: int| 0 <= k < j ==> hay@[at + k] == needle@[k],
        decreases n - j,
    {
        if hay.get_char(at + j) != needle.get_char(j) {
            proof {
                let s = hay@.subrange(at as int, at as int + needle@.len());
                assert(s[j as int] == hay@[at + j]);
            }
            return false;
        }
        j += 1;
    }
    proof {
        assert(hay@.subrange(at as int, at as int + needle@.len()) =~= needle@);
    }
    true
}

/// Substring search: whether `needle` occurs anywhere in `hay`.
pub fn str_contains(hay: &str, needle: &str) -> (r: bool)
    ensures
        r == contains_seq(hay@, needle@),
{
    let h = hay.unicode_len();
    let n = needle.unicode_len();
    if n == 0 {
        proof {
            assert(hay@.subrange(0, 0) =~= needle@);
            assert(matches_at(hay@, needle@, 0));
        }
        return true;
    }
    if n > h {
        proof {
            assert forall|at: int| !matches_at(hay@, needle@, at) by {}
        }
        return false;
    }
    let mut i: usize = 0;
    while i <= h - n
        invariant
            1 <= n <= h,
            h == hay@.len(),
            n == needle@.len(),
            i <= h - n + 1,
            forall|at: int| 0 <= at < i ==> !matches_at(hay@, needle@, at),
        decreases h - n + 1 - i,
    {
        if matches_at_exec(hay, needle, i) {
            return true;
        }
        i += 1;
    }
    proof {
        assert forall|at: int| !matches_at(hay@, needle@, at) by {
            if at + needle@.len() <= hay@.len() && 0 <= at {
                assert(at < i);
            }
        }
    }
    false
}

} // verus!
