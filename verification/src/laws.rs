//! Grammar-wide laws of the directive: what every well-formed input
//! parses to, and that rendering then parsing reproduces a directive.

use vstd::prelude::*;
use crate::parse::{
    eq_pos, has_assign, lit_pos, name_end, name_start, parse_end, parse_ok, parsed_name,
    parsed_rest, parsed_what,
};
use crate::statement::{kw_false, kw_option, kw_true, render_spec, OptionStatement};
use crate::text::{
    all_spaces, eq_nocase, is_ident_char, is_ident_start, is_identifier, is_space,
    lemma_ident_end_is, lemma_ws_end_is, matches_nocase, seq_eq_nocase, ws_end,
};

verus! {

/// Head of the grammar on `kw_option() + ' ' + n + tail`: the keyword
/// and separator match, and the identifier run is exactly `n`, provided
/// `tail` does not extend it.
proof fn lemma_head(s: Seq<char>, n: Seq<char>, tail: Seq<char>)
    requires
        is_identifier(n),
        s == kw_option() + seq![' '] + n + tail,
        tail.len() > 0 ==> !is_ident_char(tail[0]),
    ensures
        parse_ok(s),
        name_start(s) == 7,
        name_end(s) == 7 + n.len(),
        parsed_name(s) == n,
{
    let kw = kw_option();
    assert(s.len() == 7 + n.len() + tail.len());
    assert forall|i: int| 0 <= i < 6 implies eq_nocase(s[0 + i], #[trigger] kw[i]) by {
        assert(s[i] == kw[i]);
    }
    assert(matches_nocase(s, 0, kw));
    assert(s[6] == ' ');
    assert(s[7] == n[0]);
    assert(is_ident_start(s[7]));
    assert(!is_space(s[7]));
    lemma_ws_end_is(s, 6, 7);
    assert forall|i: int| 7 <= i < 7 + n.len() implies is_ident_char(#[trigger] s[i]) by {
        assert(s[i] == n[i - 7]);
    }
    if tail.len() > 0 {
        assert(s[7 + n.len() as int] == tail[0]);
    }
    lemma_ident_end_is(s, 7, 7 + n.len() as int);
    assert(parsed_name(s) =~= n);
}

/// On `kw_option() + ' ' + n` nothing follows the identifier: no
/// assignment clause matches, the value defaults to `true`, and nothing
/// is left unconsumed.
proof fn lemma_plain_shape(s: Seq<char>, n: Seq<char>)
    requires
        is_identifier(n),
        s == kw_option() + seq![' '] + n,
    ensures
        parse_ok(s),
        parsed_name(s) == n,
        parsed_what(s) == true,
        parse_end(s) == s.len(),
        parsed_rest(s) == Seq::<char>::empty(),
{
    assert(s =~= kw_option() + seq![' '] + n + Seq::<char>::empty());
    lemma_head(s, n, Seq::<char>::empty());
    assert(name_end(s) == s.len());
    assert(ws_end(s, s.len() as int) == s.len());
    assert(eq_pos(s) == s.len());
    assert(!has_assign(s, kw_true()));
    assert(!has_assign(s, kw_false()));
    assert(parsed_rest(s) =~= Seq::<char>::empty());
}

/// On `kw_option() + ' ' + n + u + '=' + v + lit`, with `u` and `v`
/// whitespace and `lit` a case variant of `TRUE` or `FALSE`, the
/// assignment clause matches that literal exactly and consumes the
/// whole input.
proof fn lemma_assign_shape(s: Seq<char>, n: Seq<char>, u: Seq<char>, v: Seq<char>, lit: Seq<char>)
    requires
        is_identifier(n),
        all_spaces(u),
        all_spaces(v),
        seq_eq_nocase(lit, kw_true()) || seq_eq_nocase(lit, kw_false()),
        s == kw_option() + seq![' '] + n + u + seq!['='] + v + lit,
    ensures
        parse_ok(s),
        parsed_name(s) == n,
        parsed_what(s) == seq_eq_nocase(lit, kw_true()),
        parse_end(s) == s.len(),
        parsed_rest(s) == Seq::<char>::empty(),
{
    let tail = u + seq!['='] + v + lit;
    assert(s =~= kw_option() + seq![' '] + n + tail);
    if u.len() > 0 {
        assert(tail[0] == u[0]);
        assert(!is_ident_char(tail[0]));
    } else {
        assert(tail[0] == '=');
    }
    lemma_head(s, n, tail);
    let ie = 7 + n.len() as int;
    // the optional whitespace run `u`, then `=`
    assert forall|i: int| ie <= i < ie + u.len() implies is_space(#[trigger] s[i]) by {
        assert(s[i] == u[i - ie]);
    }
    let ep = ie + u.len() as int;
    assert(s[ep] == '=');
    assert(!is_space(s[ep]));
    lemma_ws_end_is(s, ie, ep);
    assert(eq_pos(s) == ep);
    // the optional whitespace run `v`, then the literal
    assert forall|i: int| ep + 1 <= i < ep + 1 + v.len() implies is_space(#[trigger] s[i]) by {
        assert(s[i] == v[i - (ep + 1)]);
    }
    let lp = ep + 1 + v.len() as int;
    assert(s[lp] == lit[0]);
    assert(!is_space(lit[0]));
    lemma_ws_end_is(s, ep + 1, lp);
    assert(lit_pos(s) == lp);
    assert(s.len() == lp + lit.len());
    assert forall|i: int| 0 <= i < lit.len() implies s[lp + i] == #[trigger] lit[i] by {}
    if seq_eq_nocase(lit, kw_true()) {
        assert forall|i: int| 0 <= i < 4 implies eq_nocase(s[lp + i], #[trigger] kw_true()[i]) by {
            assert(eq_nocase(lit[i], kw_true()[i]));
        }
        assert(has_assign(s, kw_true()));
        assert(parse_end(s) == s.len());
    } else {
        assert forall|i: int| 0 <= i < 5 implies eq_nocase(s[lp + i], #[trigger] kw_false()[i]) by {
            assert(eq_nocase(lit[i], kw_false()[i]));
        }
        assert(has_assign(s, kw_false()));
        assert(!matches_nocase(s, lp, kw_true())) by {
            if matches_nocase(s, lp, kw_true()) {
                assert(eq_nocase(s[lp + 0], kw_true()[0]));
                assert(eq_nocase(lit[0], kw_false()[0]));
            }
        }
        assert(parse_end(s) == s.len());
    }
    assert(parsed_rest(s) =~= Seq::<char>::empty());
}

/// For every valid identifier `n`, the input `OPTION <n>` parses: the
/// name is `n`, the value defaults to `true`, and nothing is left
/// unconsumed.
pub proof fn lemma_parse_plain(n: Seq<char>)
    requires
        is_identifier(n),
    ensures
        ({
            let s = kw_option() + seq![' '] + n;
            &&& parse_ok(s)
            &&& parsed_name(s) == n
            &&& parsed_what(s) == true
            &&& parsed_rest(s) == Seq::<char>::empty()
        }),
{
    let s = kw_option() + seq![' '] + n;
    lemma_plain_shape(s, n);
}

/// For every valid identifier `n`, any whitespace `u` and `v` around
/// the `=`, and any case variant `t` of `TRUE`, the input
/// `OPTION <n><u>=<v><t>` parses: the name is `n`, the value is `true`,
/// and nothing is left unconsumed.
pub proof fn lemma_parse_assign_true(n: Seq<char>, u: Seq<char>, v: Seq<char>, t: Seq<char>)
    requires
        is_identifier(n),
        all_spaces(u),
        all_spaces(v),
        seq_eq_nocase(t, kw_true()),
    ensures
        ({
            let s = kw_option() + seq![' '] + n + u + seq!['='] + v + t;
            &&& parse_ok(s)
            &&& parsed_name(s) == n
            &&& parsed_what(s) == true
            &&& parsed_rest(s) == Seq::<char>::empty()
        }),
{
    let s = kw_option() + seq![' '] + n + u + seq!['='] + v + t;
    lemma_assign_shape(s, n, u, v, t);
}

/// For every valid identifier `n`, any whitespace `u` and `v` around
/// the `=`, and any case variant `t` of `FALSE`, the input
/// `OPTION <n><u>=<v><t>` parses: the name is `n`, the value is
/// `false`, and nothing is left unconsumed.
pub proof fn lemma_parse_assign_false(n: Seq<char>, u: Seq<char>, v: Seq<char>, t: Seq<char>)
    requires
        is_identifier(n),
        all_spaces(u),
        all_spaces(v),
        seq_eq_nocase(t, kw_false()),
    ensures
        ({
            let s = kw_option() + seq![' '] + n + u + seq!['='] + v + t;
            &&& parse_ok(s)
            &&& parsed_name(s) == n
            &&& parsed_what(s) == false
            &&& parsed_rest(s) == Seq::<char>::empty()
        }),
{
    let s = kw_option() + seq![' '] + n + u + seq!['='] + v + t;
    assert(t.len() == 5);
    assert(!seq_eq_nocase(t, kw_true()));
    lemma_assign_shape(s, n, u, v, t);
}

/// Round trip: rendering a well-formed directive and parsing the result
/// reproduces the directive exactly, with nothing left unconsumed.
pub proof fn lemma_render_then_parse(d: OptionStatement)
    requires
        d.wf(),
    ensures
        ({
            let s = render_spec(d.name@, d.what);
            &&& parse_ok(s)
            &&& parsed_name(s) == d.name@
            &&& parsed_what(s) == d.what
            &&& parsed_rest(s) == Seq::<char>::empty()
        }),
{
    let s = render_spec(d.name@, d.what);
    if d.what {
        lemma_plain_shape(s, d.name@);
    } else {
        let u = seq![' '];
        let v = seq![' '];
        assert(s =~= kw_option() + seq![' '] + d.name@ + u + seq!['='] + v + kw_false());
        assert(seq_eq_nocase(kw_false(), kw_false()));
        assert(kw_false().len() == 5);
        assert(!seq_eq_nocase(kw_false(), kw_true()));
        lemma_assign_shape(s, d.name@, u, v, kw_false());
    }
}

} // verus!
