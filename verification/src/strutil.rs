//! Character-level string utilities: equality and substring search, with
//! exact specifications over `Seq<char>`.

use vstd::prelude::*;
use vstd::string::*;

verus! {

/// True iff `needle` occurs as a contiguous run inside `hay`.
pub open spec fn seq_contains_sub(hay: Seq<char>, needle: Seq<char>) -> bool {
    exists|i: int|
        0 <= i && i + needle.len() <= hay.len() && #[trigger] hay.subrange(
            i,
            i + needle.len(),
        ) == needle
}

/// Character-wise equality of two string slices.
pub fn str_eq(a: &str, b: &str) -> (r: bool)
    ensures
        r == (a@ == b@),
{
    let alen = a.unicode_len();
    let blen = b.unicode_len();
    if alen != blen {
        return false;
    }
    let mut i: usize = 0;
    while i < alen
        invariant
            alen == a@.len(),
            blen == b@.len(),
            alen == blen,
            0 <= i <= alen,
            forall|j: int| 0 <= j < i ==> a@[j] == b@[j],
        decreases alen - i,
    {
        if a.get_char(i) != b.get_char(i) {
            return false;
        }
        i += 1;
    }
    proof {
        assert(a@ =~= b@);
    }
    true
}

/// True iff `needle` occurs at position `i` of `hay`.
fn matches_at(hay: &Vec<char>, needle: &str, i: usize) -> (r: bool)
    requires
        i + needle@.len() <= hay@.len(),
    ensures
        r == (hay@.subrange(i as int, i as int + needle@.len() as int) == needle@),
{
    let hlen = hay.len();
    let m = needle.unicode_len();
    let mut j: usize = 0;
    while j < m
        invariant
            hlen == hay@.len(),
            m == needle@.len(),
            i + m <= hay@.len(),
            0 <= j <= m,
            forall|k: int| 0 <= k < j ==> hay@[i + k] == needle@[k],
        decreases m - j,
    {
        if hay[i + j] != needle.get_char(j) {
            proof {
                assert(hay@.subrange(i as int, i as int + m as int)[j as int] != needle@[j as int]);
            }
            return false;
        }
        j += 1;
    }
    proof {
        assert(hay@.subrange(i as int, i as int + m as int) =~= needle@);
    }
    true
}

/// True iff `needle` occurs as a contiguous run inside `hay`.
pub fn contains_substr(hay: &Vec<char>, needle: &str) -> (r: bool)
    ensures
        r == seq_contains_sub(hay@, needle@),
{
    let n = hay.len();
    let m = needle.unicode_len();
    if m > n {
        return false;
    }
    if m == 0 {
        proof {
            assert(hay@.subrange(0, 0 + needle@.len() as int) =~= needle@);
            assert(seq_contains_sub(hay@, needle@));
        }
        return true;
    }
    let mut i: usize = 0;
    while i <= n - m
        invariant
            n == hay@.len(),
            m == needle@.len(),
            0 < m <= n,
            0 <= i <= n - m + 1,
            forall|p: int|
                0 <= p < i ==> #[trigger] hay@.subrange(p, p + needle@.len()) != needle@,
        decreases n - i,
    {
        if matches_at(hay, needle, i) {
            return true;
        }
        i += 1;
    }
    false
}

/// A sequence occurs inside itself.
pub proof fn lemma_contains_itself(s: Seq<char>)
    ensures
        seq_contains_sub(s, s),
{
    assert(s.subrange(0, 0 + s.len() as int) =~= s);
}

/// Containment survives appending on either side.
pub proof fn lemma_contains_extend(a: Seq<char>, b: Seq<char>, sub: Seq<char>)
    requires
        seq_contains_sub(a, sub) || seq_contains_sub(b, sub),
    ensures
        seq_contains_sub(a + b, sub),
{
    if seq_contains_sub(a, sub) {
        let i = choose|i: int|
            0 <= i && i + sub.len() <= a.len() && #[trigger] a.subrange(i, i + sub.len()) == sub;
        assert((a + b).subrange(i, i + sub.len() as int) =~= a.subrange(i, i + sub.len() as int));
    } else {
        let i = choose|i: int|
            0 <= i && i + sub.len() <= b.len() && #[trigger] b.subrange(i, i + sub.len()) == sub;
        assert((a + b).subrange(a.len() + i, a.len() + i + sub.len() as int) =~= b.subrange(
            i,
            i + sub.len() as int,
        ));
    }
}

} // verus!
