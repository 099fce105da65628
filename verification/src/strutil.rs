//! Character-level string utilities: blankness, prefix and substring tests.
//!
//! All executable functions here are verified against spec functions over the
//! `Seq<char>` views of their arguments; nothing is taken on trust.

use vstd::prelude::*;

verus! {

/// The Unicode white-space code points, the set `char::is_whitespace` accepts.
pub open spec fn is_ws_char(c: char) -> bool {
    ||| c == '\u{0009}'
    ||| c == '\u{000A}'
    ||| c == '\u{000B}'
    ||| c == '\u{000C}'
    ||| c == '\u{000D}'
    ||| c == ' '
    ||| c == '\u{0085}'
    ||| c == '\u{00A0}'
    ||| c == '\u{1680}'
    ||| c == '\u{2000}'
    ||| c == '\u{2001}'
    ||| c == '\u{2002}'
    ||| c == '\u{2003}'
    ||| c == '\u{2004}'
    ||| c == '\u{2005}'
    ||| c == '\u{2006}'
    ||| c == '\u{2007}'
    ||| c == '\u{2008}'
    ||| c == '\u{2009}'
    ||| c == '\u{200A}'
    ||| c == '\u{2028}'
    ||| c == '\u{2029}'
    ||| c == '\u{202F}'
    ||| c == '\u{205F}'
    ||| c == '\u{3000}'
}

/// A character sequence is blank when every character is white space; in
/// particular the empty sequence is blank. A string trims to empty exactly
/// when its view is blank.
pub open spec fn blank(s: Seq<char>) -> bool {
    forall|i: int| 0 <= i < s.len() ==> is_ws_char(s[i])
}

fn char_is_ws(c: char) -> (r: bool)
    ensures
        r == is_ws_char(c),
{
    c == '\u{0009}' || c == '\u{000A}' || c == '\u{000B}' || c == '\u{000C}' || c == '\u{000D}'
        || c == ' ' || c == '\u{0085}' || c == '\u{00A0}' || c == '\u{1680}' || c == '\u{2000}'
        || c == '\u{2001}' || c == '\u{2002}' || c == '\u{2003}' || c == '\u{2004}'
        || c == '\u{2005}' || c == '\u{2006}' || c == '\u{2007}' || c == '\u{2008}'
        || c == '\u{2009}' || c == '\u{200A}' || c == '\u{2028}' || c == '\u{2029}'
        || c == '\u{202F}' || c == '\u{205F}' || c == '\u{3000}'
}

/// Whether `s` contains only white space (or nothing at all).
pub fn is_blank(s: &str) -> (r: bool)
    ensures
        r == blank(s@),
{
    let n = s.unicode_len();
    let mut i: usize = 0;
    while i < n
        invariant
            i <= n,
            n == s@.len(),
            forall|j: int| 0 <= j < i ==> is_ws_char(s@[j]),
        decreases n - i,
    {
        let c = s.get_char(i);
        if !char_is_ws(c) {
            assert(!blank(s@));
            return false;
        }
        i += 1;
    }
    true
}

/// The sequence `n` occurs in `h` starting at offset `k`.
pub open spec fn matches_at(h: Seq<char>, n: Seq<char>, k: int) -> bool {
    &&& 0 <= k
    &&& k + n.len() <= h.len()
    &&& forall|j: int| 0 <= j < n.len() ==> h[k + j] == n[j]
}

/// The sequence `n` occurs somewhere in `h` (true for empty `n`).
pub open spec fn contains_seq(h: Seq<char>, n: Seq<char>) -> bool {
    exists|k: int| matches_at(h, n, k)
}

/// The sequence `s` begins with the sequence `p`.
pub open spec fn starts_with_seq(s: Seq<char>, p: Seq<char>) -> bool {
    matches_at(s, p, 0)
}

fn check_match_at(hay: &str, needle: &str, k: usize) -> (r: bool)
    requires
        k + needle@.len() <= hay@.len(),
    ensures
        r == matches_at(hay@, needle@, k as int),
{
    let hn = hay.unicode_len();
    let nn = needle.unicode_len();
    let mut j: usize = 0;
    while j < nn
        invariant
            j <= nn,
            nn == needle@.len(),
            hn == hay@.len(),
            k + nn <= hay@.len(),
            forall|j2: int| 0 <= j2 < j ==> hay@[k + j2] == needle@[j2],
        decreases nn - j,
    {
        if hay.get_char(k + j) != needle.get_char(j) {
            assert(!matches_at(hay@, needle@, k as int));
            return false;
        }
        j += 1;
    }
    true
}

/// Whether `needle` occurs as a contiguous substring of `hay`.
pub fn str_contains(hay: &str, needle: &str) -> (r: bool)
    ensures
        r == contains_seq(hay@, needle@),
{
    let hn = hay.unicode_len();
    let nn = needle.unicode_len();
    if nn > hn {
        assert(forall|k: int| !matches_at(hay@, needle@, k));
        return false;
    }
    let mut k: usize = 0;
    while k <= hn - nn
        invariant
            nn <= hn,
            hn == hay@.len(),
            nn == needle@.len(),
            k <= hn - nn + 1,
            forall|k2: int| 0 <= k2 < k ==> !matches_at(hay@, needle@, k2),
        decreases hn - nn - k + 1,
    {
        if check_match_at(hay, needle, k) {
            return true;
        }
        k += 1;
    }
    assert(forall|k2: int| !matches_at(hay@, needle@, k2));
    false
}

/// Whether `s` begins with `prefix`.
pub fn str_starts_with(s: &str, prefix: &str) -> (r: bool)
    ensures
        r == starts_with_seq(s@, prefix@),
{
    let sn = s.unicode_len();
    let pn = prefix.unicode_len();
    if pn > sn {
        return false;
    }
    check_match_at(s, prefix, 0)
}

/// Character-wise string equality; agrees with equality of the views.
pub fn str_eq(a: &str, b: &str) -> (r: bool)
    ensures
        r == (a@ == b@),
{
    let an = a.unicode_len();
    let bn = b.unicode_len();
    if an != bn {
        return false;
    }
    let r = check_match_at(a, b, 0);
    if r {
        assert(a@ =~= b@);
    }
    r
}

} // verus!
