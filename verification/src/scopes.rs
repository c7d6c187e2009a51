//! Locating a `{ ... }` scope inside configuration text.
//!
//! Given a scope opener (a fragment of text ending in `{`), the function
//! below finds the opener's first occurrence and walks forward, counting
//! braces, to the matching closing brace. It reports the byte index of the
//! opener's final character and the byte index of the matching `}`.

use vstd::prelude::*;
use vstd::utf8::encode_utf8;

verus! {

/// Why no scope was found.
#[derive(Debug, PartialEq, Eq, Structural, Clone, Copy)]
pub enum ScopeError {
    /// The scope opener does not occur in the text.
    ScopeOpenerNotFound,
    /// The braces after the opener never balance.
    MalformedScopes,
}

/// Whether `pat` occurs in `s` at position `i`.
pub open spec fn substr_at(s: Seq<u8>, pat: Seq<u8>, i: int) -> bool {
    &&& 0 <= i
    &&& i + pat.len() <= s.len()
    &&& s.subrange(i, i + pat.len()) == pat
}

/// Position of the first occurrence of `pat` in `s`, if any.
pub open spec fn first_substr_index(s: Seq<u8>, pat: Seq<u8>) -> Option<int>
    decreases s.len(),
{
    if pat.len() == 0 {
        Some(0int)
    } else if s.len() < pat.len() {
        None
    } else if substr_at(s, pat, 0) {
        Some(0int)
    } else {
        match first_substr_index(s.drop_first(), pat) {
            Some(i) => Some(i + 1),
            None => None,
        }
    }
}

/// Occurrences shift by one when the first byte is dropped.
proof fn lemma_substr_shift(s: Seq<u8>, pat: Seq<u8>, k: int)
    requires
        k >= 0,
        s.len() > 0,
    ensures
        substr_at(s.drop_first(), pat, k) <==> substr_at(s, pat, k + 1),
{
    if k + pat.len() <= s.drop_first().len() {
        assert(s.drop_first().subrange(k, k + pat.len()) =~= s.subrange(
            k + 1,
            k + 1 + pat.len(),
        ));
    }
}

/// An occurrence at `i` with none before it is the first occurrence.
proof fn lemma_first_substr_hit(s: Seq<u8>, pat: Seq<u8>, i: int)
    requires
        pat.len() > 0,
        substr_at(s, pat, i),
        forall|k: int| 0 <= k < i ==> !substr_at(s, pat, k),
    ensures
        first_substr_index(s, pat) == Some(i),
    decreases i,
{
    if i > 0 {
        assert forall|k: int| 0 <= k < i - 1 implies !substr_at(s.drop_first(), pat, k) by {
            lemma_substr_shift(s, pat, k);
        }
        lemma_substr_shift(s, pat, i - 1);
        lemma_first_substr_hit(s.drop_first(), pat, i - 1);
    }
}

/// No occurrence anywhere means no first occurrence.
proof fn lemma_first_substr_miss(s: Seq<u8>, pat: Seq<u8>)
    requires
        pat.len() > 0,
        forall|k: int| 0 <= k ==> !substr_at(s, pat, k),
    ensures
        first_substr_index(s, pat) is None,
    decreases s.len(),
{
    if s.len() >= pat.len() {
        assert forall|k: int| 0 <= k implies !substr_at(s.drop_first(), pat, k) by {
            lemma_substr_shift(s, pat, k);
        }
        lemma_first_substr_miss(s.drop_first(), pat);
    }
}

/// Finds the first occurrence of `pat` in `hay`.
fn find_substr(hay: &[u8], pat: &[u8]) -> (r: Option<usize>)
    ensures
        r is None <==> first_substr_index(hay@, pat@) is None,
        r matches Some(i) ==> first_substr_index(hay@, pat@) == Some(i as int) && i + pat@.len()
            <= hay@.len(),
{
    let n = hay.len();
    let m = pat.len();
    if m == 0 {
        proof {
            assert(hay@.subrange(0, 0) =~= pat@);
        }
        return Some(0);
    }
    if m > n {
        proof {
            assert forall|k: int| 0 <= k implies !substr_at(hay@, pat@, k) by {}
            lemma_first_substr_miss(hay@, pat@);
        }
        return None;
    }
    let last = n - m;
    let mut i: usize = 0;
    while i <= last
        invariant
            n == hay@.len(),
            m == pat@.len(),
            1 <= m <= n,
            last == n - m,
            i <= last + 1,
            forall|k: int| 0 <= k < i ==> !substr_at(hay@, pat@, k),
        decreases last + 1 - i,
    {
        let mut j: usize = 0;
        let mut matched = true;
        while j < m
            invariant
                n == hay@.len(),
                m == pat@.len(),
                i + m <= n,
                j <= m,
                matched ==> forall|k: int| 0 <= k < j ==> hay@[i + k] == pat@[k],
                !matched ==> !substr_at(hay@, pat@, i as int),
            decreases m - j,
        {
            if hay[i + j] != pat[j] {
                proof {
                    if substr_at(hay@, pat@, i as int) {
                        assert(hay@.subrange(i as int, i + pat@.len())[j as int] == pat@[j as int]);
                    }
                }
                matched = false;
                j = m;
            } else {
                j = j + 1;
            }
        }
        if matched {
            proof {
                assert(hay@.subrange(i as int, i + pat@.len()) =~= pat@);
                lemma_first_substr_hit(hay@, pat@, i as int);
            }
            return Some(i);
        }
        i = i + 1;
    }
    proof {
        assert forall|k: int| 0 <= k implies !substr_at(hay@, pat@, k) by {}
        lemma_first_substr_miss(hay@, pat@);
    }
    None
}

/// The brace contribution of one byte: `{` opens, `}` closes.
pub open spec fn brace_delta(b: u8) -> int {
    if b == 0x7bu8 {
        1int
    } else if b == 0x7du8 {
        -1int
    } else {
        0int
    }
}

/// The brace depth accumulated over `s[from..to)`.
pub open spec fn brace_depth(s: Seq<u8>, from: int, to: int) -> int
    recommends
        0 <= from <= to <= s.len(),
    decreases to - from,
{
    if to <= from {
        0int
    } else {
        brace_depth(s, from, to - 1) + brace_delta(s[to - 1])
    }
}

/// The depth over a range is at most the range's width.
proof fn lemma_brace_depth_bound(s: Seq<u8>, from: int, to: int)
    requires
        from <= to,
    ensures
        brace_depth(s, from, to) <= to - from,
    decreases to - from,
{
    if to > from {
        lemma_brace_depth_bound(s, from, to - 1);
    }
}

/// Finds the first occurrence of `scope_opener` in `text` and the closing
/// brace that matches the opener's final character, by byte index.
///
/// Returns `Ok((open, close))` where `open` is the index of the opener's last
/// byte (counted as one opened brace) and `close` is the index of the first
/// byte at which the braces balance again: the depth of the bytes strictly
/// between `open` and `close` never drops below zero, and the byte at `close`
/// closes the scope. Returns `ScopeOpenerNotFound` when the opener does not
/// occur, and `MalformedScopes` when the text ends before the braces balance.
pub fn get_scope_open_and_close_char_indexes(text: &String, scope_opener: &String) -> (r: Result<
    (usize, usize),
    ScopeError,
>)
    requires
        scope_opener@.len() > 0,
    ensures
        (r matches Err(e) && e == ScopeError::ScopeOpenerNotFound) <==> first_substr_index(
            encode_utf8(text@),
            encode_utf8(scope_opener@),
        ) is None,
        r matches Ok((open, close)) ==> {
            &&& first_substr_index(encode_utf8(text@), encode_utf8(scope_opener@)) == Some(
                open + 1 - encode_utf8(scope_opener@).len(),
            )
            &&& open < close < encode_utf8(text@).len()
            &&& 1 + brace_depth(encode_utf8(text@), open + 1, close + 1) == 0
            &&& forall|j: int|
                open + 1 <= j <= close ==> 1 + #[trigger] brace_depth(
                    encode_utf8(text@),
                    open + 1,
                    j,
                ) > 0
        },
        (r matches Err(e) && e == ScopeError::MalformedScopes) ==> (first_substr_index(
            encode_utf8(text@),
            encode_utf8(scope_opener@),
        ) matches Some(f) && forall|j: int|
            f + encode_utf8(scope_opener@).len() <= j <= encode_utf8(text@).len() ==> 1
                + #[trigger] brace_depth(
                encode_utf8(text@),
                f + encode_utf8(scope_opener@).len(),
                j,
            ) > 0),
{
    let bytes: &[u8] = text.as_str().as_bytes();
    let pat: &[u8] = scope_opener.as_str().as_bytes();
    let n = bytes.len();
    proof {
        crate::router::lemma_encode_utf8_nonempty(scope_opener@);
    }
    let found = match find_substr(bytes, pat) {
        Some(i) => i,
        None => {
            return Err(ScopeError::ScopeOpenerNotFound);
        },
    };
    let open_idx = found + pat.len() - 1;
    let mut index = open_idx;
    let mut count: usize = 1;
    while count > 0
        invariant
            n == bytes@.len(),
            bytes@ == encode_utf8(text@),
            pat@ == encode_utf8(scope_opener@),
            pat@.len() >= 1,
            first_substr_index(bytes@, pat@) == Some(found as int),
            found + pat@.len() <= n,
            open_idx == found + pat@.len() - 1,
            open_idx <= index < n,
            count == 1 + brace_depth(bytes@, open_idx + 1, index + 1),
            forall|j: int|
                open_idx + 1 <= j <= index ==> 1 + #[trigger] brace_depth(
                    bytes@,
                    open_idx + 1,
                    j,
                ) > 0,
        decreases n - index,
    {
        proof {
            lemma_brace_depth_bound(bytes@, open_idx + 1, index + 1);
        }
        if index + 1 >= n {
            return Err(ScopeError::MalformedScopes);
        }
        index = index + 1;
        let b = bytes[index];
        if b == 0x7b {
            count = count + 1;
        } else if b == 0x7d {
            count = count - 1;
        }
    }
    Ok((open_idx, index))
}

} // verus!
