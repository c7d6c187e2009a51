//! Byte-sequence scanning helpers used by the request router and the asset
//! archive logic.

use vstd::prelude::*;

verus! {

/// Index of the first occurrence of `b` in `s`, if any.
pub open spec fn first_index_of(s: Seq<u8>, b: u8) -> Option<int>
    decreases s.len(),
{
    if s.len() == 0 {
        None
    } else if s[0] == b {
        Some(0int)
    } else {
        match first_index_of(s.drop_first(), b) {
            Some(i) => Some(i + 1),
            None => None,
        }
    }
}

/// Index of the last occurrence of `b` in `s`, if any.
pub open spec fn last_index_of(s: Seq<u8>, b: u8) -> Option<int>
    decreases s.len(),
{
    if s.len() == 0 {
        None
    } else if s.last() == b {
        Some(s.len() - 1)
    } else {
        last_index_of(s.drop_last(), b)
    }
}

/// A hit at `i` with no hit before it is the first occurrence.
proof fn lemma_first_index_of_hit(s: Seq<u8>, b: u8, i: int)
    requires
        0 <= i < s.len(),
        s[i] == b,
        forall|k: int| 0 <= k < i ==> s[k] != b,
    ensures
        first_index_of(s, b) == Some(i),
    decreases i,
{
    if i > 0 {
        lemma_first_index_of_hit(s.drop_first(), b, i - 1);
    }
}

/// No hit anywhere means no first occurrence.
proof fn lemma_first_index_of_miss(s: Seq<u8>, b: u8)
    requires
        forall|k: int| 0 <= k < s.len() ==> s[k] != b,
    ensures
        first_index_of(s, b) is None,
    decreases s.len(),
{
    if s.len() > 0 {
        lemma_first_index_of_miss(s.drop_first(), b);
    }
}

/// A hit at `i` with no hit after it is the last occurrence.
proof fn lemma_last_index_of_hit(s: Seq<u8>, b: u8, i: int)
    requires
        0 <= i < s.len(),
        s[i] == b,
        forall|k: int| i < k < s.len() ==> s[k] != b,
    ensures
        last_index_of(s, b) == Some(i),
    decreases s.len(),
{
    if i < s.len() - 1 {
        lemma_last_index_of_hit(s.drop_last(), b, i);
    }
}

/// No hit anywhere means no last occurrence.
proof fn lemma_last_index_of_miss(s: Seq<u8>, b: u8)
    requires
        forall|k: int| 0 <= k < s.len() ==> s[k] != b,
    ensures
        last_index_of(s, b) is None,
    decreases s.len(),
{
    if s.len() > 0 {
        lemma_last_index_of_miss(s.drop_last(), b);
    }
}

/// Finds the first occurrence of `b` in `v`.
pub fn find_byte(v: &Vec<u8>, b: u8) -> (r: Option<usize>)
    ensures
        r is None <==> first_index_of(v@, b) is None,
        r matches Some(i) ==> first_index_of(v@, b) == Some(i as int) && i < v@.len(),
{
    let n = v.len();
    let mut i: usize = 0;
    while i < n
        invariant
            n == v@.len(),
            i <= n,
            forall|k: int| 0 <= k < i ==> v@[k] != b,
        decreases n - i,
    {
        if v[i] == b {
            proof {
                lemma_first_index_of_hit(v@, b, i as int);
            }
            return Some(i);
        }
        i = i + 1;
    }
    proof {
        lemma_first_index_of_miss(v@, b);
    }
    None
}

/// Finds the last occurrence of `b` in `v`.
pub fn rfind_byte(v: &Vec<u8>, b: u8) -> (r: Option<usize>)
    ensures
        r is None <==> last_index_of(v@, b) is None,
        r matches Some(i) ==> last_index_of(v@, b) == Some(i as int) && i < v@.len(),
{
    let n = v.len();
    let mut i: usize = n;
    while i > 0
        invariant
            n == v@.len(),
            i <= n,
            forall|k: int| i <= k < n ==> v@[k] != b,
        decreases i,
    {
        i = i - 1;
        if v[i] == b {
            proof {
                lemma_last_index_of_hit(v@, b, i as int);
            }
            return Some(i);
        }
    }
    proof {
        lemma_last_index_of_miss(v@, b);
    }
    None
}

/// Copies the bytes of `v` between `start` (inclusive) and `end` (exclusive).
pub fn bytes_range(v: &Vec<u8>, start: usize, end: usize) -> (r: Vec<u8>)
    requires
        start <= end <= v@.len(),
    ensures
        r@ == v@.subrange(start as int, end as int),
{
    let mut r: Vec<u8> = Vec::new();
    let mut i: usize = start;
    while i < end
        invariant
            start <= i <= end <= v@.len(),
            r@ == v@.subrange(start as int, i as int),
        decreases end - i,
    {
        r.push(v[i]);
        i = i + 1;
        proof {
            assert(v@.subrange(start as int, i as int) =~= v@.subrange(
                start as int,
                i - 1,
            ).push(v@[i - 1]));
        }
    }
    r
}

/// Whether the bytes of `v` equal the bytes of the slice `w`.
pub fn bytes_eq(v: &Vec<u8>, w: &[u8]) -> (r: bool)
    ensures
        r <==> v@ == w@,
{
    let n = v.len();
    if n != w.len() {
        proof {
            assert(v@.len() != w@.len());
        }
        return false;
    }
    let mut i: usize = 0;
    while i < n
        invariant
            n == v@.len() == w@.len(),
            i <= n,
            forall|k: int| 0 <= k < i ==> v@[k] == w@[k],
        decreases n - i,
    {
        if v[i] != w[i] {
            return false;
        }
        i = i + 1;
    }
    proof {
        assert(v@ =~= w@);
    }
    true
}

/// Whether `v` starts with the bytes of `prefix`.
pub fn bytes_starts_with(v: &Vec<u8>, prefix: &[u8]) -> (r: bool)
    ensures
        r <==> (v@.len() >= prefix@.len() && v@.subrange(0, prefix@.len() as int) == prefix@),
{
    let m = prefix.len();
    if v.len() < m {
        return false;
    }
    let mut i: usize = 0;
    while i < m
        invariant
            m == prefix@.len() <= v@.len(),
            i <= m,
            forall|k: int| 0 <= k < i ==> v@[k] == prefix@[k],
        decreases m - i,
    {
        if v[i] != prefix[i] {
            proof {
                assert(v@.subrange(0, m as int)[i as int] == v@[i as int]);
            }
            return false;
        }
        i = i + 1;
    }
    proof {
        assert(v@.subrange(0, m as int) =~= prefix@);
    }
    true
}

} // verus!
