//! Character-level string predicates used by the submission rules.
//!
//! All executable functions here carry exact contracts over the `Seq<char>`
//! views of their inputs.

use vstd::prelude::*;

verus! {

/// `p` is an initial segment of `s`.
pub open spec fn is_prefix_of(p: Seq<char>, s: Seq<char>) -> bool {
    p.len() <= s.len() && s.subrange(0, p.len() as int) == p
}

/// `n` occurs contiguously somewhere in `h`.
pub open spec fn contains_seq(h: Seq<char>, n: Seq<char>) -> bool {
    exists|i: int| 0 <= i && i + n.len() <= h.len() && #[trigger] h.subrange(i, i + n.len()) == n
}

/// Index of the last occurrence of `c` in `s`, or -1 when `c` does not occur.
pub open spec fn last_index_of(s: Seq<char>, c: char) -> int
    decreases s.len(),
{
    if s.len() == 0 {
        -1
    } else if s[s.len() - 1] == c {
        s.len() - 1
    } else {
        last_index_of(s.drop_last(), c)
    }
}

/// `last_index_of` points at the last occurrence: the index holds `c` and no
/// later index does; -1 means `c` is absent.
pub proof fn lemma_last_index_of(s: Seq<char>, c: char)
    ensures
        last_index_of(s, c) >= -1,
        last_index_of(s, c) < s.len(),
        last_index_of(s, c) == -1 ==> forall|i: int| 0 <= i < s.len() ==> s[i] != c,
        last_index_of(s, c) >= 0 ==> s[last_index_of(s, c)] == c,
        last_index_of(s, c) >= 0 ==> forall|i: int|
            last_index_of(s, c) < i < s.len() ==> s[i] != c,
    decreases s.len(),
{
    if s.len() > 0 && s[s.len() - 1] != c {
        lemma_last_index_of(s.drop_last(), c);
        assert(forall|i: int| 0 <= i < s.len() - 1 ==> s[i] == s.drop_last()[i]);
    }
}

/// Uppercase ASCII folds to the lowercase letter 32 positions later; every
/// other character stands for itself.
pub open spec fn lowers_to(a: char, b: char) -> bool {
    if 65 <= a as u32 && a as u32 <= 90 {
        b as u32 == a as u32 + 32
    } else {
        b == a
    }
}

/// `a` equals `b` after folding uppercase ASCII in `a` to lowercase.
pub open spec fn folds_to(a: Seq<char>, b: Seq<char>) -> bool {
    a.len() == b.len() && forall|i: int| 0 <= i < a.len() ==> lowers_to(a[i], b[i])
}

/// Character-for-character equality of two string slices.
pub fn chars_eq(a: &str, b: &str) -> (r: bool)
    ensures
        r == (a@ == b@),
{
    let alen = a.unicode_len();
    let blen = b.unicode_len();
    if alen != blen {
        return false;
    }
    let mut i: usize = 0;
    while i < alen
        invariant
            alen == a@.len(),
            alen == b@.len(),
            i <= alen,
            forall|j: int| 0 <= j < i ==> a@[j] == b@[j],
        decreases alen - i,
    {
        if a.get_char(i) != b.get_char(i) {
            return false;
        }
        i = i + 1;
    }
    proof {
        assert(a@ =~= b@);
    }
    true
}

/// Whether `p` is a prefix of `s`.
pub fn has_prefix(s: &str, p: &str) -> (r: bool)
    ensures
        r == is_prefix_of(p@, s@),
{
    let plen = p.unicode_len();
    let slen = s.unicode_len();
    if plen > slen {
        return false;
    }
    let mut i: usize = 0;
    while i < plen
        invariant
            plen == p@.len(),
            slen == s@.len(),
            plen <= slen,
            i <= plen,
            forall|j: int| 0 <= j < i ==> s@[j] == p@[j],
        decreases plen - i,
    {
        if s.get_char(i) != p.get_char(i) {
            assert(s@.subrange(0, plen as int)[i as int] != p@[i as int]);
            return false;
        }
        i = i + 1;
    }
    proof {
        assert(s@.subrange(0, plen as int) =~= p@);
    }
    true
}

/// Whether `n` occurs contiguously in `h`.
pub fn contains_substr(h: &str, n: &str) -> (r: bool)
    ensures
        r == contains_seq(h@, n@),
{
    let hlen = h.unicode_len();
    let nlen = n.unicode_len();
    if nlen > hlen {
        return false;
    }
    if nlen == 0 {
        proof {
            assert(h@.subrange(0, 0 + n@.len() as int) =~= n@);
            assert(contains_seq(h@, n@));
        }
        return true;
    }
    let mut i: usize = 0;
    while i <= hlen - nlen
        invariant
            hlen == h@.len(),
            nlen == n@.len(),
            0 < nlen <= hlen,
            i <= hlen - nlen + 1,
            forall|k: int| 0 <= k < i ==> #[trigger] h@.subrange(k, k + nlen as int) != n@,
        decreases hlen - nlen - i + 1,
    {
        let mut j: usize = 0;
        let mut mismatch = false;
        while j < nlen
            invariant
                hlen == h@.len(),
                nlen == n@.len(),
                i + nlen <= hlen,
                j <= nlen,
                !mismatch ==> forall|t: int| 0 <= t < j ==> h@[i + t] == n@[t],
                mismatch ==> h@.subrange(i as int, i + nlen as int) != n@,
            decreases nlen - j,
        {
            if h.get_char(i + j) != n.get_char(j) {
                assert(h@.subrange(i as int, i + nlen as int)[j as int] != n@[j as int]);
                mismatch = true;
                j = nlen;
            } else {
                j = j + 1;
            }
        }
        if !mismatch {
            proof {
                assert(h@.subrange(i as int, i + nlen as int) =~= n@);
            }
            return true;
        }
        i = i + 1;
    }
    proof {
        assert forall|k: int| 0 <= k && k + n@.len() <= h@.len() implies #[trigger] h@.subrange(
            k,
            k + n@.len(),
        ) != n@ by {
            assert(k < i);
        }
    }
    false
}

/// Whether `s` equals the (already lowercase) pattern `lower` after folding
/// uppercase ASCII.
pub fn folds_to_lower(s: &str, lower: &str) -> (r: bool)
    ensures
        r == folds_to(s@, lower@),
{
    let slen = s.unicode_len();
    let llen = lower.unicode_len();
    if slen != llen {
        return false;
    }
    let mut i: usize = 0;
    while i < slen
        invariant
            slen == s@.len(),
            slen == lower@.len(),
            i <= slen,
            forall|j: int| 0 <= j < i ==> lowers_to(s@[j], lower@[j]),
        decreases slen - i,
    {
        let a = s.get_char(i);
        let b = lower.get_char(i);
        let au = a as u32;
        let ok = if 65 <= au && au <= 90 {
            b as u32 == au + 32
        } else {
            a == b
        };
        if !ok {
            return false;
        }
        i = i + 1;
    }
    true
}

/// Index of the last occurrence of `c` in `s`, if any.
pub fn find_last(s: &str, c: char) -> (r: Option<usize>)
    ensures
        match r {
            Some(i) => i == last_index_of(s@, c),
            None => last_index_of(s@, c) == -1,
        },
{
    proof {
        lemma_last_index_of(s@, c);
    }
    let len = s.unicode_len();
    let mut i: usize = len;
    while i > 0
        invariant
            len == s@.len(),
            i <= len,
            forall|j: int| i <= j < len ==> s@[j] != c,
        decreases i,
    {
        i = i - 1;
        if s.get_char(i) == c {
            proof {
                lemma_last_index_of(s@, c);
                let l = last_index_of(s@, c);
                if l > i as int {
                    assert(s@[l] != c);
                } else if l < i as int {
                    assert(s@[i as int] != c);
                }
            }
            return Some(i);
        }
    }
    None
}

} // verus!
