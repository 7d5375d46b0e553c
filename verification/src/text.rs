//! Character classes and scanning primitives shared by the grammar.
//!
//! The spec side models the input as a `Seq<char>`: character classes,
//! case-insensitive comparison, and the two scanners `ws_end` (end of a
//! whitespace run) and `ident_end` (end of an identifier run). The exec
//! side holds the matching character tests and scanners, each proved
//! against its spec counterpart.

use vstd::prelude::*;
use vstd::string::StrSliceExecFns;

verus! {

/// Whitespace accepted between tokens: space, tab, carriage return, newline.
pub open spec fn is_space(c: char) -> bool {
    c == ' ' || c == '\t' || c == '\r' || c == '\n'
}

pub open spec fn is_letter(c: char) -> bool {
    ('a' <= c && c <= 'z') || ('A' <= c && c <= 'Z')
}

pub open spec fn is_digit(c: char) -> bool {
    '0' <= c && c <= '9'
}

/// A character that may open an identifier: a letter or an underscore.
pub open spec fn is_ident_start(c: char) -> bool {
    is_letter(c) || c == '_'
}

/// A character that may continue an identifier.
pub open spec fn is_ident_char(c: char) -> bool {
    is_ident_start(c) || is_digit(c)
}

/// The lexical rule for option names: non-empty, opens with a letter or
/// underscore, and continues with letters, digits or underscores.
pub open spec fn is_identifier(s: Seq<char>) -> bool {
    &&& s.len() > 0
    &&& is_ident_start(s[0])
    &&& forall|i: int| 0 <= i < s.len() ==> is_ident_char(#[trigger] s[i])
}

/// The code point of `c` with an upper-case ASCII letter folded to lower case.
pub open spec fn fold_case(c: char) -> int {
    if 'A' <= c && c <= 'Z' {
        c as int + 32
    } else {
        c as int
    }
}

/// Case-insensitive character equality (ASCII folding only).
pub open spec fn eq_nocase(a: char, b: char) -> bool {
    fold_case(a) == fold_case(b)
}

/// `kw` occurs at position `at` of `s`, compared case-insensitively.
pub open spec fn matches_nocase(s: Seq<char>, at: int, kw: Seq<char>) -> bool {
    &&& 0 <= at
    &&& at + kw.len() <= s.len()
    &&& forall|i: int| 0 <= i < kw.len() ==> eq_nocase(s[at + i], #[trigger] kw[i])
}

/// Every character of `s` is whitespace.
pub open spec fn all_spaces(s: Seq<char>) -> bool {
    forall|i: int| 0 <= i < s.len() ==> is_space(#[trigger] s[i])
}

/// `a` and `b` are equal up to ASCII case.
pub open spec fn seq_eq_nocase(a: Seq<char>, b: Seq<char>) -> bool {
    &&& a.len() == b.len()
    &&& forall|i: int| 0 <= i < a.len() ==> eq_nocase(#[trigger] a[i], b[i])
}

/// First position at or after `from` that does not hold whitespace
/// (or the end of `s`).
pub open spec fn ws_end(s: Seq<char>, from: int) -> int
    decreases s.len() - from,
{
    if 0 <= from && from < s.len() && is_space(s[from]) {
        ws_end(s, from + 1)
    } else {
        from
    }
}

/// First position at or after `from` that does not hold an identifier
/// character (or the end of `s`).
pub open spec fn ident_end(s: Seq<char>, from: int) -> int
    decreases s.len() - from,
{
    if 0 <= from && from < s.len() && is_ident_char(s[from]) {
        ident_end(s, from + 1)
    } else {
        from
    }
}

/// `ws_end` is determined: a position `e` with the run's characteristics
/// is the result.
pub proof fn lemma_ws_end_is(s: Seq<char>, from: int, e: int)
    requires
        0 <= from <= e <= s.len(),
        forall|i: int| from <= i < e ==> is_space(#[trigger] s[i]),
        e < s.len() ==> !is_space(s[e]),
    ensures
        ws_end(s, from) == e,
    decreases e - from,
{
    if from < e {
        lemma_ws_end_is(s, from + 1, e);
    }
}

/// `ident_end` stays within `[from, s.len()]` and its characters up to the
/// result are exactly the identifier run.
pub proof fn lemma_ident_end_bounds(s: Seq<char>, from: int)
    requires
        0 <= from <= s.len(),
    ensures
        from <= ident_end(s, from) <= s.len(),
        forall|i: int| from <= i < ident_end(s, from) ==> is_ident_char(#[trigger] s[i]),
        ident_end(s, from) < s.len() ==> !is_ident_char(s[ident_end(s, from)]),
    decreases s.len() - from,
{
    if from < s.len() && is_ident_char(s[from]) {
        lemma_ident_end_bounds(s, from + 1);
    }
}

/// `ident_end` is determined: a position `e` with the run's
/// characteristics is the result.
pub proof fn lemma_ident_end_is(s: Seq<char>, from: int, e: int)
    requires
        0 <= from <= e <= s.len(),
        forall|i: int| from <= i < e ==> is_ident_char(#[trigger] s[i]),
        e < s.len() ==> !is_ident_char(s[e]),
    ensures
        ident_end(s, from) == e,
    decreases e - from,
{
    if from < e {
        lemma_ident_end_is(s, from + 1, e);
    }
}

/// Executable test for [`is_space`].
pub fn is_space_char(c: char) -> (r: bool)
    ensures
        r == is_space(c),
{
    c == ' ' || c == '\t' || c == '\r' || c == '\n'
}

/// Executable test for [`is_ident_start`].
pub fn is_ident_start_char(c: char) -> (r: bool)
    ensures
        r == is_ident_start(c),
{
    let u = c as u32;
    (97 <= u && u <= 122) || (65 <= u && u <= 90) || c == '_'
}

/// Executable test for [`is_ident_char`].
pub fn is_ident_char_char(c: char) -> (r: bool)
    ensures
        r == is_ident_char(c),
{
    let u = c as u32;
    is_ident_start_char(c) || (48 <= u && u <= 57)
}

/// Executable test for [`eq_nocase`].
pub fn eq_nocase_char(a: char, b: char) -> (r: bool)
    ensures
        r == eq_nocase(a, b),
{
    let ua = a as u32;
    let ub = b as u32;
    let fa: u32 = if 65 <= ua && ua <= 90 {
        ua + 32
    } else {
        ua
    };
    let fb: u32 = if 65 <= ub && ub <= 90 {
        ub + 32
    } else {
        ub
    };
    fa == fb
}

/// Position of the first non-whitespace character of `i` at or after
/// `from`, as [`ws_end`] gives it.
pub fn skip_spaces(i: &str, from: usize) -> (r: usize)
    requires
        from <= i@.len(),
    ensures
        r as int == ws_end(i@, from as int),
        from <= r <= i@.len(),
{
    let n = i.unicode_len();
    let mut pos = from;
    while pos < n
        invariant
            from <= pos <= n,
            n == i@.len(),
            ws_end(i@, from as int) == ws_end(i@, pos as int),
        decreases n - pos,
    {
        if !is_space_char(i.get_char(pos)) {
            return pos;
        }
        pos = pos + 1;
    }
    pos
}

/// Position of the first non-identifier character of `i` at or after
/// `from`, as [`ident_end`] gives it.
pub fn skip_ident(i: &str, from: usize) -> (r: usize)
    requires
        from <= i@.len(),
    ensures
        r as int == ident_end(i@, from as int),
        from <= r <= i@.len(),
{
    let n = i.unicode_len();
    let mut pos = from;
    while pos < n
        invariant
            from <= pos <= n,
            n == i@.len(),
            ident_end(i@, from as int) == ident_end(i@, pos as int),
        decreases n - pos,
    {
        if !is_ident_char_char(i.get_char(pos)) {
            return pos;
        }
        pos = pos + 1;
    }
    pos
}

/// `kw` occurs at position `pos` of `i`, compared case-insensitively.
pub fn tag_nocase(i: &str, pos: usize, kw: &str) -> (r: bool)
    requires
        pos <= i@.len(),
    ensures
        r == matches_nocase(i@, pos as int, kw@),
{
    let n = i.unicode_len();
    let k = kw.unicode_len();
    if n - pos < k {
        return false;
    }
    let mut j: usize = 0;
    while j < k
        invariant
            0 <= j <= k,
            k == kw@.len(),
            n == i@.len(),
            pos + k <= n,
            forall|jj: int| 0 <= jj < j ==> eq_nocase(i@[pos + jj], #[trigger] kw@[jj]),
        decreases k - j,
    {
        if !eq_nocase_char(i.get_char(pos + j), kw.get_char(j)) {
            return false;
        }
        j = j + 1;
    }
    true
}

} // verus!
