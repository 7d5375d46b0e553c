use option_directive::parse::{option, ParseError, ParseErrorKind};
use option_directive::statement::OptionStatement;

#[test]
fn option_statement() {
    let sql = "OPTION IMPORT";
    let res = option(sql);
    assert!(res.is_ok());
    let out = res.unwrap().1;
    assert_eq!("OPTION IMPORT", out.render());
}

#[test]
fn option_statement_true() {
    let sql = "OPTION IMPORT = TRUE";
    let res = option(sql);
    assert!(res.is_ok());
    let out = res.unwrap().1;
    assert_eq!("OPTION IMPORT", out.render());
}

#[test]
fn option_statement_false() {
    let sql = "OPTION IMPORT = FALSE";
    let res = option(sql);
    assert!(res.is_ok());
    let out = res.unwrap().1;
    assert_eq!("OPTION IMPORT = FALSE", out.render());
}

#[test]
fn plain_directive_fields() {
    let (rest, out) = option("OPTION IMPORT").unwrap();
    assert_eq!("IMPORT", out.name);
    assert!(out.what);
    assert_eq!("", rest);
}

#[test]
fn explicit_true_fields() {
    let (rest, out) = option("OPTION IMPORT = TRUE").unwrap();
    assert_eq!("IMPORT", out.name);
    assert!(out.what);
    assert_eq!("", rest);
}

#[test]
fn explicit_false_fields() {
    let (rest, out) = option("OPTION IMPORT = FALSE").unwrap();
    assert_eq!("IMPORT", out.name);
    assert!(!out.what);
    assert_eq!("", rest);
}

#[test]
fn compact_lowercase_false() {
    let (rest, out) = option("OPTION IMPORT=false").unwrap();
    assert_eq!("IMPORT", out.name);
    assert!(!out.what);
    assert_eq!("", rest);
}

#[test]
fn mixed_case_true_with_spaces() {
    let (rest, out) = option("OPTION strict  =  TrUe").unwrap();
    assert_eq!("strict", out.name);
    assert!(out.what);
    assert_eq!("", rest);
}

#[test]
fn keyword_is_case_insensitive() {
    let (rest, out) = option("option import").unwrap();
    assert_eq!("import", out.name);
    assert!(out.what);
    assert_eq!("", rest);
}

#[test]
fn name_is_case_sensitive() {
    let (_, out) = option("OPTION Import").unwrap();
    assert_eq!("Import", out.name);
}

#[test]
fn tab_is_a_valid_separator() {
    let (rest, out) = option("OPTION\t_x1").unwrap();
    assert_eq!("_x1", out.name);
    assert!(out.what);
    assert_eq!("", rest);
}

#[test]
fn leftover_input_is_not_an_error() {
    let (rest, out) = option("OPTION IMPORT; SELECT").unwrap();
    assert_eq!("IMPORT", out.name);
    assert!(out.what);
    assert_eq!("; SELECT", rest);
}

#[test]
fn incomplete_assignment_is_left_unconsumed() {
    let (rest, out) = option("OPTION IMPORT = MAYBE").unwrap();
    assert_eq!("IMPORT", out.name);
    assert!(out.what);
    assert_eq!(" = MAYBE", rest);
}

#[test]
fn dangling_equals_is_left_unconsumed() {
    let (rest, out) = option("OPTION IMPORT =").unwrap();
    assert_eq!("IMPORT", out.name);
    assert!(out.what);
    assert_eq!(" =", rest);
}

#[test]
fn garbage_after_literal_is_left_unconsumed() {
    let (rest, out) = option("OPTION IMPORT = TRUE now").unwrap();
    assert_eq!("IMPORT", out.name);
    assert!(out.what);
    assert_eq!(" now", rest);
}

#[test]
fn non_ascii_stops_the_identifier() {
    let (rest, out) = option("OPTION x \u{e9}t\u{e9}").unwrap();
    assert_eq!("x", out.name);
    assert_eq!(" \u{e9}t\u{e9}", rest);
}

#[test]
fn bare_keyword_fails() {
    let res = option("OPTION");
    assert_eq!(
        res,
        Err(ParseError { pos: 6, kind: ParseErrorKind::Separator })
    );
}

#[test]
fn keyword_fused_with_identifier_fails() {
    let res = option("OPTIONIMPORT");
    assert_eq!(
        res,
        Err(ParseError { pos: 6, kind: ParseErrorKind::Separator })
    );
}

#[test]
fn wrong_keyword_fails() {
    let res = option("SELECT * FROM thing");
    assert_eq!(res, Err(ParseError { pos: 0, kind: ParseErrorKind::Keyword }));
}

#[test]
fn empty_input_fails() {
    let res = option("");
    assert_eq!(res, Err(ParseError { pos: 0, kind: ParseErrorKind::Keyword }));
}

#[test]
fn missing_identifier_fails() {
    let res = option("OPTION   = TRUE");
    assert_eq!(
        res,
        Err(ParseError { pos: 9, kind: ParseErrorKind::Identifier })
    );
}

#[test]
fn identifier_must_not_open_with_a_digit() {
    let res = option("OPTION 1abc");
    assert_eq!(
        res,
        Err(ParseError { pos: 7, kind: ParseErrorKind::Identifier })
    );
}

#[test]
fn render_true_omits_the_assignment() {
    let d = OptionStatement { name: String::from("IMPORT"), what: true };
    assert_eq!("OPTION IMPORT", d.render());
}

#[test]
fn render_false_is_explicit() {
    let d = OptionStatement { name: String::from("IMPORT"), what: false };
    assert_eq!("OPTION IMPORT = FALSE", d.render());
}

#[test]
fn canonical_round_trip_true() {
    let (_, d) = option("OPTION X = TRUE").unwrap();
    assert_eq!("OPTION X", d.render());
}

#[test]
fn canonical_round_trip_false() {
    let (_, d) = option("OPTION X = FALSE").unwrap();
    assert_eq!("OPTION X = FALSE", d.render());
}

#[test]
fn parse_after_render_is_identity() {
    let on = OptionStatement { name: String::from("strict_mode"), what: true };
    let off = OptionStatement { name: String::from("strict_mode"), what: false };
    let rendered_on = on.render();
    let rendered_off = off.render();
    let (rest_on, back_on) = option(&rendered_on).unwrap();
    let (rest_off, back_off) = option(&rendered_off).unwrap();
    assert_eq!(on, back_on);
    assert_eq!("", rest_on);
    assert_eq!(off, back_off);
    assert_eq!("", rest_off);
}

#[test]
fn default_is_empty_and_off() {
    let d = OptionStatement::default();
    assert_eq!("", d.name);
    assert!(!d.what);
}
