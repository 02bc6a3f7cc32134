//! Character-level helpers on strings.

use vstd::prelude::*;

verus! {

/// Whether two string slices hold the same characters.
pub fn str_eq(a: &str, b: &str) -> (r: bool)
    ensures
        r == (a@ == b@),
{
    let n: usize = a.unicode_len();
    let m: usize = b.unicode_len();
    if n != m {
        return false;
    }
    let mut i: usize = 0;
    while i < n
        invariant
            n == a@.len(),
            m == b@.len(),
            n == m,
            i <= n,
            a@.subrange(0, i as int) == b@.subrange(0, i as int),
        decreases n - i,
    {
        if a.get_char(i) != b.get_char(i) {
            assert(a@[i as int] != b@[i as int]);
            return false;
        }
        assert(a@.subrange(0, i + 1) =~= a@.subrange(0, i as int).push(a@[i as int]));
        assert(b@.subrange(0, i + 1) =~= b@.subrange(0, i as int).push(b@[i as int]));
        i = i + 1;
    }
    assert(a@ =~= a@.subrange(0, n as int));
    assert(b@ =~= b@.subrange(0, n as int));
    true
}

/// Whether `tok` occurs in `t` starting at character `i`.
pub open spec fn occurs_at(t: Seq<char>, i: int, tok: Seq<char>) -> bool {
    i + tok.len() <= t.len() && t.subrange(i, i + tok.len()) == tok
}

/// Whether `tok` occurs in `t` starting at character `i`; `n` is the
/// number of characters of `t`.
pub fn occurs_at_exec(t: &str, n: usize, i: usize, tok: &str) -> (r: bool)
    requires
        n == t@.len(),
        i <= n,
    ensures
        r == occurs_at(t@, i as int, tok@),
{
    let k: usize = tok.unicode_len();
    if k > n - i {
        return false;
    }
    let mut j: usize = 0;
    while j < k
        invariant
            n == t@.len(),
            k == tok@.len(),
            i + k <= n,
            j <= k,
            t@.subrange(i as int, i + j) == tok@.subrange(0, j as int),
        decreases k - j,
    {
        if t.get_char(i + j) != tok.get_char(j) {
            assert(t@.subrange(i as int, i + k)[j as int] != tok@[j as int]);
            return false;
        }
        assert(t@.subrange(i as int, i + j + 1) =~= t@.subrange(i as int, i + j).push(t@[i + j]));
        assert(tok@.subrange(0, j + 1) =~= tok@.subrange(0, j as int).push(tok@[j as int]));
        j = j + 1;
    }
    assert(tok@ =~= tok@.subrange(0, k as int));
    true
}

} // verus!
