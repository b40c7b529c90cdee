//! Character-level string predicates: case-insensitive (ASCII) substring and
//! whole-string matching, and case-sensitive prefix matching.
//!
//! Declared type names arrive in arbitrary case; the classifier compares them
//! against lowercase keywords after ASCII lowercasing.  Rather than build the
//! lowercased string, the executable code compares character by character
//! against an already-lowercase pattern.

use vstd::prelude::*;

verus! {

/// Code point of `c` after ASCII lowercasing: `'A'..='Z'` shift down into
/// `'a'..='z'`, every other character keeps its code point.
pub open spec fn lower_code(c: char) -> int {
    if 65 <= c as u32 && c as u32 <= 90 {
        c as u32 + 32
    } else {
        c as u32 as int
    }
}

/// The lowercase pattern `p` occurs in `s` at position `k` once `s` is
/// ASCII-lowercased.
pub open spec fn matches_at(s: Seq<char>, p: Seq<char>, k: int) -> bool {
    &&& 0 <= k
    &&& k + p.len() <= s.len()
    &&& forall|j: int| 0 <= j < p.len() ==> #[trigger] lower_code(s[k + j]) == p[j] as u32
}

/// The lowercase pattern `p` occurs somewhere in `s` once `s` is
/// ASCII-lowercased.
pub open spec fn contains_lowered(s: Seq<char>, p: Seq<char>) -> bool {
    exists|k: int| matches_at(s, p, k)
}

/// `s`, once ASCII-lowercased, is exactly the lowercase pattern `p`.
pub open spec fn eq_lowered(s: Seq<char>, p: Seq<char>) -> bool {
    s.len() == p.len() && matches_at(s, p, 0)
}

/// `s` starts with `p`, compared exactly (case-sensitive).
pub open spec fn starts_with(s: Seq<char>, p: Seq<char>) -> bool {
    p.len() <= s.len() && forall|i: int| 0 <= i < p.len() ==> s[i] == #[trigger] p[i]
}

/// A single witnessed mismatch refutes a match of `p` at position `k`.
pub proof fn lemma_no_match_at(s: Seq<char>, p: Seq<char>, k: int, j: int)
    requires
        0 <= j < p.len(),
        lower_code(s[k + j]) != p[j] as u32,
    ensures
        !matches_at(s, p, k),
{
}

/// Does `c` ASCII-lowercase to exactly the pattern character `p`?
pub fn char_lowers_to(c: char, p: char) -> (b: bool)
    ensures
        b == (lower_code(c) == p as u32),
{
    let cu = c as u32;
    let pu = p as u32;
    if 65 <= cu && cu <= 90 {
        cu + 32 == pu
    } else {
        cu == pu
    }
}

/// Does the lowercase pattern `p` occur at position `i` of `s` once `s` is
/// ASCII-lowercased?
fn match_at(s: &str, p: &str, i: usize, n: usize, m: usize) -> (b: bool)
    requires
        n == s@.len(),
        m == p@.len(),
        i + m <= n,
    ensures
        b == matches_at(s@, p@, i as int),
{
    let mut j: usize = 0;
    while j < m
        invariant
            n == s@.len(),
            m == p@.len(),
            i + m <= n,
            j <= m,
            forall|t: int| 0 <= t < j ==> #[trigger] lower_code(s@[i + t]) == p@[t] as u32,
        decreases m - j,
    {
        if !char_lowers_to(s.get_char(i + j), p.get_char(j)) {
            proof {
                lemma_no_match_at(s@, p@, i as int, j as int);
            }
            return false;
        }
        j += 1;
    }
    true
}

/// Does the lowercase pattern `p` occur anywhere in `s` once `s` is
/// ASCII-lowercased?
pub fn contains_lowered_exec(s: &str, p: &str) -> (b: bool)
    ensures
        b == contains_lowered(s@, p@),
{
    let n = s.unicode_len();
    let m = p.unicode_len();
    if m > n {
        return false;
    }
    let mut i: usize = 0;
    while i <= n - m
        invariant
            n == s@.len(),
            m == p@.len(),
            m <= n,
            i <= n - m + 1,
            forall|k: int| 0 <= k < i ==> !#[trigger] matches_at(s@, p@, k),
        decreases n - m + 1 - i,
    {
        if match_at(s, p, i, n, m) {
            return true;
        }
        i += 1;
    }
    false
}

/// Is `s`, once ASCII-lowercased, exactly the lowercase pattern `p`?
pub fn eq_lowered_exec(s: &str, p: &str) -> (b: bool)
    ensures
        b == eq_lowered(s@, p@),
{
    let n = s.unicode_len();
    let m = p.unicode_len();
    if n != m {
        return false;
    }
    match_at(s, p, 0, n, m)
}

/// Does `s` start with `p`, compared exactly (case-sensitive)?
pub fn starts_with_exec(s: &str, p: &str) -> (b: bool)
    ensures
        b == starts_with(s@, p@),
{
    let n = s.unicode_len();
    let m = p.unicode_len();
    if m > n {
        return false;
    }
    let mut i: usize = 0;
    while i < m
        invariant
            n == s@.len(),
            m == p@.len(),
            m <= n,
            i <= m,
            forall|t: int| 0 <= t < i ==> s@[t] == #[trigger] p@[t],
        decreases m - i,
    {
        if s.get_char(i) != p.get_char(i) {
            return false;
        }
        i += 1;
    }
    true
}

} // verus!
