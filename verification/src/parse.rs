//! The grammar of the `OPTION` directive and its parser.
//!
//! ```text
//! statement       := "OPTION" MANDATORY_WS identifier [ assignment ]
//! assignment      := OPT_WS "=" OPT_WS boolean_literal
//! boolean_literal := "TRUE" | "FALSE"        (case-insensitive)
//! ```
//!
//! Keywords are case-insensitive, the identifier is case-sensitive.
//! Parsing is anchored at the start of the input and returns the
//! unconsumed remainder; leftover input is not an error at this layer.
//! A trailing fragment that does not complete the assignment grammar is
//! left unconsumed, and the directive defaults to `TRUE`.
//!
//! The spec functions below fix the positions each production reaches
//! on a given input; the parser's contract states, if and only if,
//! which inputs parse and what they parse to.

use vstd::prelude::*;
use vstd::string::StrSliceExecFns;
use crate::statement::{kw_false, kw_option, kw_true, OptionStatement};
use crate::text::{
    ident_end, is_ident_start, is_space, lemma_ident_end_bounds, matches_nocase, ws_end,
};
use crate::text::{is_ident_start_char, is_space_char, skip_ident, skip_spaces, tag_nocase};

verus! {

/// Why an input was rejected.
#[derive(Clone, Copy, Debug, PartialEq, Eq, Structural)]
pub enum ParseErrorKind {
    /// The input does not open with the keyword `OPTION`.
    Keyword,
    /// No whitespace separates the keyword from what follows.
    Separator,
    /// No identifier follows the separator.
    Identifier,
}

/// A recoverable grammar mismatch: the failing position (in characters
/// from the start of the input) and its reason. The caller may try a
/// different statement grammar at the same starting position.
#[derive(Clone, Copy, Debug, PartialEq, Eq, Structural)]
pub struct ParseError {
    pub pos: usize,
    pub kind: ParseErrorKind,
}

/// Where the identifier starts: past the keyword and the whitespace run
/// after it.
pub open spec fn name_start(s: Seq<char>) -> int {
    ws_end(s, kw_option().len() as int)
}

/// Where the identifier ends.
pub open spec fn name_end(s: Seq<char>) -> int {
    ident_end(s, name_start(s))
}

/// The input opens with `OPTION`, at least one whitespace character,
/// and an identifier: the minimal grammar matched.
pub open spec fn parse_ok(s: Seq<char>) -> bool {
    &&& matches_nocase(s, 0, kw_option())
    &&& kw_option().len() < s.len() && is_space(s[kw_option().len() as int])
    &&& name_start(s) < s.len() && is_ident_start(s[name_start(s)])
}

/// The error a rejected input carries, one reason per failing
/// production, checked in grammar order.
pub open spec fn parse_err(s: Seq<char>) -> ParseError {
    if !matches_nocase(s, 0, kw_option()) {
        ParseError { pos: 0, kind: ParseErrorKind::Keyword }
    } else if !(kw_option().len() < s.len() && is_space(s[kw_option().len() as int])) {
        ParseError { pos: kw_option().len() as usize, kind: ParseErrorKind::Separator }
    } else {
        ParseError { pos: name_start(s) as usize, kind: ParseErrorKind::Identifier }
    }
}

/// Position of the `=` of the assignment clause, were one to follow:
/// past the optional whitespace after the identifier.
pub open spec fn eq_pos(s: Seq<char>) -> int {
    ws_end(s, name_end(s))
}

/// Position of the boolean literal, were an assignment to follow: past
/// the `=` and the optional whitespace after it.
pub open spec fn lit_pos(s: Seq<char>) -> int {
    ws_end(s, eq_pos(s) + 1)
}

/// An assignment clause with literal `lit` follows the identifier.
pub open spec fn has_assign(s: Seq<char>, lit: Seq<char>) -> bool {
    &&& eq_pos(s) < s.len()
    &&& s[eq_pos(s)] == '='
    &&& matches_nocase(s, lit_pos(s), lit)
}

/// The boolean a successful parse resolves to: the literal's value when
/// an assignment clause matches, `true` when none does.
pub open spec fn parsed_what(s: Seq<char>) -> bool {
    if has_assign(s, kw_true()) {
        true
    } else if has_assign(s, kw_false()) {
        false
    } else {
        true
    }
}

/// Where a successful parse stops consuming: after the boolean literal
/// when an assignment clause matches, after the identifier when none
/// does.
pub open spec fn parse_end(s: Seq<char>) -> int {
    if has_assign(s, kw_true()) {
        lit_pos(s) + kw_true().len()
    } else if has_assign(s, kw_false()) {
        lit_pos(s) + kw_false().len()
    } else {
        name_end(s)
    }
}

/// The name a successful parse yields.
pub open spec fn parsed_name(s: Seq<char>) -> Seq<char> {
    s.subrange(name_start(s), name_end(s))
}

/// The remainder a successful parse leaves unconsumed.
pub open spec fn parsed_rest(s: Seq<char>) -> Seq<char> {
    s.subrange(parse_end(s), s.len() as int)
}

/// Parse one `OPTION` directive at the start of `i`.
///
/// On success, returns the unconsumed remainder and the directive; on
/// failure, the position and reason of the mismatch. The contract pins
/// both down exactly, over the spec model above.
pub fn option<'a>(i: &'a str) -> (r: Result<(&'a str, OptionStatement), ParseError>)
    ensures
        parse_ok(i@) ==> (r matches Ok(p)
            && p.0@ == parsed_rest(i@)
            && p.1.name@ == parsed_name(i@)
            && p.1.what == parsed_what(i@)
            && p.1.wf()),
        !parse_ok(i@) ==> (r matches Err(e) && e == parse_err(i@)),
{
    proof {
        reveal_strlit("OPTION");
        reveal_strlit("TRUE");
        reveal_strlit("FALSE");
        assert("OPTION"@ =~= kw_option());
        assert("TRUE"@ =~= kw_true());
        assert("FALSE"@ =~= kw_false());
    }
    let n = i.unicode_len();
    // "OPTION"
    if !tag_nocase(i, 0, "OPTION") {
        return Err(ParseError { pos: 0, kind: ParseErrorKind::Keyword });
    }
    // mandatory whitespace
    if n <= 6 || !is_space_char(i.get_char(6)) {
        return Err(ParseError { pos: 6, kind: ParseErrorKind::Separator });
    }
    let ns = skip_spaces(i, 6);
    // identifier
    if ns == n || !is_ident_start_char(i.get_char(ns)) {
        return Err(ParseError { pos: ns, kind: ParseErrorKind::Identifier });
    }
    let ne = skip_ident(i, ns);
    proof {
        lemma_ident_end_bounds(i@, ns as int);
    }
    let name = i.substring_char(ns, ne).to_owned();
    // optional assignment
    let mut what = true;
    let mut end = ne;
    let we = skip_spaces(i, ne);
    if we < n && i.get_char(we) == '=' {
        let wl = skip_spaces(i, we + 1);
        if tag_nocase(i, wl, "TRUE") {
            what = true;
            end = wl + 4;
        } else if tag_nocase(i, wl, "FALSE") {
            what = false;
            end = wl + 5;
        }
    }
    let rest = i.substring_char(end, n);
    Ok((rest, OptionStatement { name, what }))
}

} // verus!
