use eqsimp::grammar::{ast_size, print_bytes, Term};
use eqsimp::parser::{parse, ParseError, ParseErrorKind};

fn bytes(s: &str) -> Vec<u8> {
    s.as_bytes().to_vec()
}

fn parse_expr(s: &str) -> Result<Term, ParseError> {
    parse(&bytes(s), false)
}

fn roundtrip(s: &str) -> String {
    let t = parse_expr(s).unwrap();
    String::from_utf8(print_bytes(&t)).unwrap()
}

fn error_kind(s: &str) -> ParseErrorKind {
    parse_expr(s).err().unwrap().kind
}

#[test]
fn parses_and_prints_simple_sum() {
    assert_eq!(roundtrip("(+ 1 2)"), "(+ 1 2)");
}

#[test]
fn whitespace_is_insignificant() {
    assert_eq!(roundtrip("  ( +   1\n\t2 )  "), "(+ 1 2)");
}

#[test]
fn rational_literals_come_out_reduced() {
    assert_eq!(roundtrip("(+ 1/2 2/4)"), "(+ 1/2 1/2)");
    assert_eq!(roundtrip("-6/4"), "-3/2");
    assert_eq!(roundtrip("3/-6"), "-1/2");
    assert_eq!(roundtrip("+7"), "7");
    assert_eq!(roundtrip("0/5"), "0");
}

#[test]
fn named_constants_and_variables() {
    assert_eq!(roundtrip("(* PI x)"), "(* PI x)");
    assert_eq!(roundtrip("E"), "E");
    assert_eq!(roundtrip("(PI)"), "PI");
    assert_eq!(roundtrip("(real->posit x)"), "(real->posit x)");
}

#[test]
fn ternary_and_unary_operators() {
    assert_eq!(roundtrip("(if TRUE 1 0)"), "(if TRUE 1 0)");
    assert_eq!(roundtrip("(sqrt (fabs x))"), "(sqrt (fabs x))");
    assert_eq!(roundtrip("(<= a b)"), "(<= a b)");
}

#[test]
fn size_counts_nodes() {
    assert_eq!(ast_size(&parse_expr("1").unwrap()), 1);
    assert_eq!(ast_size(&parse_expr("(+ 1 2)").unwrap()), 3);
    assert_eq!(ast_size(&parse_expr("(+ 1 (* 2 3))").unwrap()), 5);
    assert_eq!(ast_size(&parse_expr("(if x 1 (neg y))").unwrap()), 5);
}

#[test]
fn empty_input_is_an_error() {
    assert_eq!(error_kind(""), ParseErrorKind::EmptyInput);
    assert_eq!(error_kind("   "), ParseErrorKind::EmptyInput);
}

#[test]
fn unbalanced_parens_are_errors() {
    assert_eq!(error_kind("("), ParseErrorKind::UnexpectedEnd);
    assert_eq!(error_kind(")"), ParseErrorKind::UnexpectedClose);
    assert_eq!(error_kind("(+ 1 2"), ParseErrorKind::UnexpectedEnd);
    // A closing paren arriving where a second operand is owed.
    assert_eq!(error_kind("(+ 1)"), ParseErrorKind::UnexpectedClose);
}

#[test]
fn arity_mismatches_are_errors() {
    assert_eq!(error_kind("(+ 1 2 3)"), ParseErrorKind::ArityMismatch);
    assert_eq!(error_kind("(neg 1 2)"), ParseErrorKind::ArityMismatch);
    assert_eq!(error_kind("pow"), ParseErrorKind::ArityMismatch);
}

#[test]
fn head_must_be_an_operator() {
    assert_eq!(error_kind("(x 1)"), ParseErrorKind::ExpectedOperator);
    assert_eq!(error_kind("(3 1)"), ParseErrorKind::ExpectedOperator);
}

#[test]
fn malformed_numerals_are_errors() {
    assert_eq!(error_kind("12x"), ParseErrorKind::BadNumeral);
    assert_eq!(error_kind("1/0"), ParseErrorKind::BadNumeral);
    assert_eq!(error_kind("-3.5"), ParseErrorKind::BadNumeral);
    assert_eq!(error_kind("1//2"), ParseErrorKind::BadNumeral);
}

#[test]
fn trailing_tokens_are_errors() {
    assert_eq!(error_kind("1 2"), ParseErrorKind::TrailingTokens);
    assert_eq!(error_kind("(+ 1 2) x"), ParseErrorKind::TrailingTokens);
}

#[test]
fn pattern_variables_only_in_patterns() {
    let p = parse(&bytes("(+ ?a ?b)"), true).unwrap();
    assert_eq!(String::from_utf8(print_bytes(&p)).unwrap(), "(+ ?a ?b)");
    assert!(matches!(parse(&bytes("?a"), true).unwrap(), Term::PatVar(_)));
    assert!(matches!(parse(&bytes("?a"), false).unwrap(), Term::Var(_)));
}

#[test]
fn plain_variables_parse_in_patterns_too() {
    let p = parse(&bytes("(+ a b)"), true).unwrap();
    assert_eq!(String::from_utf8(print_bytes(&p)).unwrap(), "(+ a b)");
}
