//! Lossless parsing of the term grammar's textual notation.
//!
//! Input is a byte string. Tokens are runs of non-blank bytes, with `(` and
//! `)` always tokens of their own. An atom is an operator of arity 0, a
//! rational literal, a pattern variable (leading `?`, in patterns only) or a
//! named variable; a compound is `(op child...)` with exactly `arity(op)`
//! children. A token that starts like a numeral but is not one is a
//! malformed numeral and rejected, rather than silently taken as a variable.
//!
//! The specification parser `spec_parse` mirrors the executable one; the
//! executable parser returns a term `similar` to the specified one: same
//! shape, with every rational literal reduced to normal form.

use vstd::prelude::*;
use crate::rational::{RatV, is_digit, all_digits, is_numeral, numeral_num, numeral_den,
    fraction_split, has_slash, digits_val, is_int_lit, int_lit_val, rat_from_numeral};
use crate::grammar::{Op, Term, TermV, arity, op_arity, token_op, lookup_op, term_wf,
    no_pat_vars, term_size};

verus! {

// ---------------------------------------------------------------------------
// Tokens
// ---------------------------------------------------------------------------

pub open spec fn is_blank(c: u8) -> bool {
    c == 32 || c == 9 || c == 10 || c == 13
}

pub open spec fn is_paren(c: u8) -> bool {
    c == 40 || c == 41
}

/// Appends the pending token, if any, to the accumulator.
pub open spec fn flush(cur: Seq<u8>, acc: Seq<Seq<u8>>) -> Seq<Seq<u8>> {
    if cur.len() > 0 {
        acc.push(cur)
    } else {
        acc
    }
}

/// One left-to-right pass over the input, splitting at blanks and parens.
pub open spec fn tok_fold(s: Seq<u8>, i: int, cur: Seq<u8>, acc: Seq<Seq<u8>>) -> Seq<Seq<u8>>
    decreases s.len() - i,
{
    if i < 0 || i >= s.len() {
        flush(cur, acc)
    } else {
        let c = s[i];
        if is_blank(c) {
            tok_fold(s, i + 1, Seq::empty(), flush(cur, acc))
        } else if is_paren(c) {
            tok_fold(s, i + 1, Seq::empty(), flush(cur, acc).push(seq![c]))
        } else {
            tok_fold(s, i + 1, cur.push(c), acc)
        }
    }
}

/// The token sequence of a byte string.
pub open spec fn tokens(s: Seq<u8>) -> Seq<Seq<u8>> {
    tok_fold(s, 0, Seq::empty(), Seq::empty())
}

/// The views of a sequence of byte vectors.
pub open spec fn views_of(vs: Seq<Vec<u8>>) -> Seq<Seq<u8>> {
    vs.map_values(|v: Vec<u8>| v@)
}

pub fn tokenize(s: &Vec<u8>) -> (r: Vec<Vec<u8>>)
    ensures
        views_of(r@) == tokens(s@),
{
    let mut i: usize = 0;
    let mut cur: Vec<u8> = Vec::new();
    let mut acc: Vec<Vec<u8>> = Vec::new();
    proof {
        assert(views_of(acc@) =~= Seq::<Seq<u8>>::empty());
    }
    while i < s.len()
        invariant
            i <= s@.len(),
            tokens(s@) == tok_fold(s@, i as int, cur@, views_of(acc@)),
        decreases s@.len() - i,
    {
        let c = s[i];
        let ghost pre_acc = views_of(acc@);
        let ghost pre_cur = cur@;
        if c == 32 || c == 9 || c == 10 || c == 13 {
            if cur.len() > 0 {
                let ghost old_acc = acc@;
                let ghost old_cur = cur@;
                acc.push(cur);
                cur = Vec::new();
                proof {
                    assert(views_of(acc@) =~= flush(old_cur, views_of(old_acc)));
                }
            }
            proof {
                assert(views_of(acc@) =~= flush(pre_cur, pre_acc));
                assert(cur@ =~= Seq::<u8>::empty());
                assert(tok_fold(s@, i as int, pre_cur, pre_acc) == tok_fold(
                    s@,
                    i + 1,
                    Seq::empty(),
                    flush(pre_cur, pre_acc),
                ));
            }
        } else if c == 40 || c == 41 {
            let ghost old_acc = acc@;
            let ghost old_cur = cur@;
            if cur.len() > 0 {
                acc.push(cur);
                cur = Vec::new();
            }
            let mut p: Vec<u8> = Vec::new();
            p.push(c);
            acc.push(p);
            proof {
                assert(views_of(acc@) =~= flush(old_cur, views_of(old_acc)).push(seq![c]));
                assert(cur@ =~= Seq::<u8>::empty());
                assert(tok_fold(s@, i as int, pre_cur, pre_acc) == tok_fold(
                    s@,
                    i + 1,
                    Seq::empty(),
                    flush(pre_cur, pre_acc).push(seq![c]),
                ));
            }
        } else {
            cur.push(c);
            proof {
                assert(views_of(acc@) == pre_acc);
                assert(cur@ =~= pre_cur.push(c));
                assert(tok_fold(s@, i as int, pre_cur, pre_acc) == tok_fold(
                    s@,
                    i + 1,
                    pre_cur.push(c),
                    pre_acc,
                ));
            }
        }
        i += 1;
    }
    if cur.len() > 0 {
        let ghost old_acc = acc@;
        let ghost old_cur = cur@;
        acc.push(cur);
        proof {
            assert(views_of(acc@) =~= flush(old_cur, views_of(old_acc)));
        }
    }
    acc
}

// ---------------------------------------------------------------------------
// Numeral recognition
// ---------------------------------------------------------------------------

proof fn lemma_digits_val_bounds(s: Seq<u8>)
    requires
        all_digits(s),
    ensures
        digits_val(s) >= 0,
        (digits_val(s) == 0) <==> (forall|i: int| 0 <= i < s.len() ==> s[i] == 48),
    decreases s.len(),
{
    if s.len() > 0 {
        let p = s.drop_last();
        assert(forall|i: int| 0 <= i < p.len() ==> p[i] == s[i]);
        lemma_digits_val_bounds(p);
        assert(is_digit(s.last()));
        if digits_val(s) == 0 {
            assert(digits_val(p) == 0 && s.last() == 48);
            assert(forall|i: int| 0 <= i < s.len() ==> s[i] == 48) by {
                assert(forall|i: int| 0 <= i < p.len() ==> s[i] == p[i] && p[i] == 48);
                assert(s[s.len() - 1] == 48);
            }
        }
        if forall|i: int| 0 <= i < s.len() ==> s[i] == 48 {
            assert(forall|i: int| 0 <= i < p.len() ==> p[i] == 48);
            assert(s.last() == 48);
            assert(digits_val(s) == 0);
        }
    }
}

/// True when the bytes from `from` on are one or more decimal digits.
fn digits_from(t: &Vec<u8>, from: usize) -> (r: bool)
    requires
        from <= t@.len(),
    ensures
        r == (t@.len() - from > 0 && all_digits(t@.skip(from as int))),
{
    if t.len() == from {
        return false;
    }
    let mut i: usize = from;
    while i < t.len()
        invariant
            from <= i <= t@.len(),
            forall|j: int| from <= j < i ==> is_digit(#[trigger] t@[j]),
        decreases t@.len() - i,
    {
        let c = t[i];
        if !(48 <= c && c <= 57) {
            proof {
                assert(t@.skip(from as int)[i - from] == t@[i as int]);
                assert(!all_digits(t@.skip(from as int)));
            }
            return false;
        }
        i += 1;
    }
    proof {
        assert forall|j: int| 0 <= j < t@.skip(from as int).len() implies is_digit(
            #[trigger] t@.skip(from as int)[j],
        ) by {
            assert(t@.skip(from as int)[j] == t@[j + from]);
        }
    }
    true
}

/// True when the whole vector is an integer literal.
fn int_lit_check(t: &Vec<u8>) -> (r: bool)
    ensures
        r == is_int_lit(t@),
{
    if t.len() == 0 {
        return false;
    }
    let c = t[0];
    if c == 43 || c == 45 {
        digits_from(t, 1)
    } else {
        proof {
            assert(t@.skip(0) =~= t@);
        }
        digits_from(t, 0)
    }
}

/// True when the integer literal's value is nonzero.
fn int_lit_nonzero(t: &Vec<u8>) -> (r: bool)
    requires
        is_int_lit(t@),
    ensures
        r == (int_lit_val(t@) != 0),
{
    let first = t[0];
    let start: usize = if first == 43 || first == 45 {
        1
    } else {
        0
    };
    let ghost digits = t@.skip(start as int);
    proof {
        if start == 0 {
            assert(digits =~= t@);
        }
        assert(all_digits(digits));
        lemma_digits_val_bounds(digits);
        assert(int_lit_val(t@) == if first == 45 {
            -digits_val(digits)
        } else {
            digits_val(digits)
        });
    }
    let mut i: usize = start;
    while i < t.len()
        invariant
            start <= i <= t@.len(),
            start <= 1,
            digits == t@.skip(start as int),
            all_digits(digits),
            int_lit_val(t@) == if first == 45 {
                -digits_val(digits)
            } else {
                digits_val(digits)
            },
            forall|j: int| start <= j < i ==> t@[j] == 48,
        decreases t@.len() - i,
    {
        if t[i] != 48 {
            proof {
                lemma_digits_val_bounds(digits);
                assert(digits[i - start] == t@[i as int]);
                assert(digits[i - start] != 48);
                assert(digits_val(digits) != 0);
            }
            return true;
        }
        i += 1;
    }
    proof {
        lemma_digits_val_bounds(digits);
        assert forall|j: int| 0 <= j < digits.len() implies digits[j] == 48 by {
            assert(digits[j] == t@[j + start]);
        }
        assert(digits_val(digits) == 0);
    }
    false
}

/// Copies `t[from..to]`.
pub(crate) fn subvec(t: &Vec<u8>, from: usize, to: usize) -> (r: Vec<u8>)
    requires
        from <= to <= t@.len(),
    ensures
        r@ == t@.subrange(from as int, to as int),
{
    let mut r: Vec<u8> = Vec::new();
    let mut i: usize = from;
    while i < to
        invariant
            from <= i <= to <= t@.len(),
            r@ == t@.subrange(from as int, i as int),
        decreases to - i,
    {
        let ghost old_r = r@;
        r.push(t[i]);
        i += 1;
        proof {
            assert(r@ =~= t@.subrange(from as int, i as int));
        }
    }
    r
}

/// Finds the first slash, if any.
fn find_slash(t: &Vec<u8>) -> (r: Option<usize>)
    ensures
        match r {
            Some(i) => i < t@.len() && t@[i as int] == 47 && forall|j: int|
                0 <= j < i ==> t@[j] != 47,
            None => forall|j: int| 0 <= j < t@.len() ==> t@[j] != 47,
        },
{
    let mut i: usize = 0;
    while i < t.len()
        invariant
            i <= t@.len(),
            forall|j: int| 0 <= j < i ==> t@[j] != 47,
        decreases t@.len() - i,
    {
        if t[i] == 47 {
            return Some(i);
        }
        i += 1;
    }
    None
}

/// True when the token is a rational literal `num-rational` would accept:
/// an optional-sign integer, or two of them split by a slash with a nonzero
/// denominator.
pub fn numeral_check(t: &Vec<u8>) -> (r: bool)
    ensures
        r == is_numeral(t@),
{
    match find_slash(t) {
        None => {
            proof {
                assert(!has_slash(t@));
            }
            int_lit_check(t)
        }
        Some(i) => {
            proof {
                assert(has_slash(t@));
                assert(i < t@.len());
            }
            let n = t.len();
            let num = subvec(t, 0, i);
            let den = subvec(t, i + 1, n);
            proof {
                assert(num@ =~= t@.take(i as int));
                assert(den@ =~= t@.skip(i as int + 1));
            }
            if int_lit_check(&num) && int_lit_check(&den) && int_lit_nonzero(&den) {
                proof {
                    assert(fraction_split(t@, i as int));
                }
                true
            } else {
                proof {
                    assert forall|j: int| !#[trigger] fraction_split(t@, j) by {
                        if 0 <= j < t@.len() && t@[j] == 47 {
                            if j < i {
                                assert(t@[j] != 47);
                            } else if j > i {
                                let head = t@.take(j);
                                assert(head[i as int] == 47);
                                if is_int_lit(head) {
                                    if head[0] == 43 || head[0] == 45 {
                                        assert(i > 0);
                                        assert(head.skip(1)[i - 1] == 47);
                                        assert(!is_digit(47u8));
                                    } else {
                                        assert(!is_digit(47u8));
                                    }
                                }
                            }
                        }
                    }
                }
                false
            }
        }
    }
}

/// A token that begins like a numeral: a digit, or a sign then a digit.
/// Such a token must be a valid numeral, or the input is rejected.
pub open spec fn numeral_start(t: Seq<u8>) -> bool {
    t.len() > 0 && (is_digit(t[0]) || ((t[0] == 43 || t[0] == 45) && t.len() > 1 && is_digit(
        t[1],
    )))
}

fn numeral_start_check(t: &Vec<u8>) -> (r: bool)
    ensures
        r == numeral_start(t@),
{
    if t.len() == 0 {
        return false;
    }
    let c = t[0];
    if 48 <= c && c <= 57 {
        true
    } else if (c == 43 || c == 45) && t.len() > 1 {
        let d = t[1];
        48 <= d && d <= 57
    } else {
        false
    }
}


// ---------------------------------------------------------------------------
// Atoms
// ---------------------------------------------------------------------------

/// What a single non-paren token denotes: a 0-ary operator, a rational
/// literal (kept here exactly as written), a pattern or named variable; or
/// nothing, for an operator that needs arguments or a malformed numeral.
pub open spec fn classify_atom(t: Seq<u8>, pattern: bool) -> Option<TermV> {
    match token_op(t) {
        Option::Some(op) => if arity(op) == 0 {
            Option::Some(TermV::App0(op))
        } else {
            Option::None
        },
        Option::None => if is_numeral(t) {
            Option::Some(TermV::Num(RatV { n: numeral_num(t), d: numeral_den(t) }))
        } else if numeral_start(t) {
            Option::None
        } else if t.len() == 0 {
            Option::None
        } else if t[0] == 63 && pattern {
            Option::Some(TermV::PatVar(t))
        } else {
            Option::Some(TermV::Var(t))
        },
    }
}

/// Same shape, and every rational leaf denotes the same value: how the
/// executable parser's output (reduced literals) relates to the
/// specification parser's (literals as written).
pub open spec fn similar(a: TermV, b: TermV) -> bool
    decreases a,
{
    match (a, b) {
        (TermV::Num(x), TermV::Num(y)) => x.is_ratio(y.n, y.d),
        (TermV::Var(n), TermV::Var(m)) => n == m,
        (TermV::PatVar(n), TermV::PatVar(m)) => n == m,
        (TermV::App0(o), TermV::App0(p)) => o == p,
        (TermV::App1(o, a1), TermV::App1(p, b1)) => o == p && similar(*a1, *b1),
        (TermV::App2(o, a1, a2), TermV::App2(p, b1, b2)) => o == p && similar(*a1, *b1)
            && similar(*a2, *b2),
        (TermV::App3(o, a1, a2, a3), TermV::App3(p, b1, b2, b3)) => o == p && similar(*a1, *b1)
            && similar(*a2, *b2) && similar(*a3, *b3),
        _ => false,
    }
}

#[derive(Clone, Copy, PartialEq, Eq, Structural, Debug)]
pub enum ParseErrorKind {
    /// No tokens at all.
    EmptyInput,
    /// Input stopped where a term or closing paren was owed.
    UnexpectedEnd,
    /// A closing paren where a term was owed.
    UnexpectedClose,
    /// The head of a parenthesised form is not an operator.
    ExpectedOperator,
    /// An operator with the wrong number of arguments.
    ArityMismatch,
    /// A token that starts like a numeral but is not a valid one.
    BadNumeral,
    /// Tokens left over after a complete term.
    TrailingTokens,
}

/// A parse failure, carrying the offending text.
#[derive(Debug)]
pub struct ParseError {
    pub kind: ParseErrorKind,
    pub text: Vec<u8>,
}

fn classify_atom_exec(t: &Vec<u8>, pattern: bool) -> (r: Result<Term, ParseError>)
    ensures
        r.is_ok() == classify_atom(t@, pattern).is_some(),
        r matches Ok(term) ==> similar(term@, classify_atom(t@, pattern).unwrap()) && term_wf(
            term@,
        ) && (!pattern ==> no_pat_vars(term@)) && term_size(term@) == 1,
{
    match lookup_op(t) {
        Some(op) => {
            if op_arity(op) == 0 {
                Ok(Term::App0(op))
            } else {
                Err(ParseError { kind: ParseErrorKind::ArityMismatch, text: subvec(t, 0, t.len()) })
            }
        }
        None => {
            if numeral_check(t) {
                Ok(Term::Num(rat_from_numeral(t)))
            } else if numeral_start_check(t) {
                Err(ParseError { kind: ParseErrorKind::BadNumeral, text: subvec(t, 0, t.len()) })
            } else if t.len() == 0 {
                Err(ParseError { kind: ParseErrorKind::EmptyInput, text: Vec::new() })
            } else if t[0] == 63 && pattern {
                let name = subvec(t, 0, t.len());
                proof {
                    assert(name@ =~= t@);
                }
                Ok(Term::PatVar(name))
            } else {
                let name = subvec(t, 0, t.len());
                proof {
                    assert(name@ =~= t@);
                }
                Ok(Term::Var(name))
            }
        }
    }
}

// ---------------------------------------------------------------------------
// Parsing
// ---------------------------------------------------------------------------

/// Parses one term at token position `i`; on success yields the term and the
/// position just past it. The fuel only bounds recursion depth: with fuel of
/// at least the token count it never runs out, since every nesting level
/// consumes two tokens before descending.
pub open spec fn parse_toks(toks: Seq<Seq<u8>>, i: int, fuel: nat, pattern: bool) -> Option<
    (TermV, int),
>
    decreases fuel,
{
    if fuel == 0 || i < 0 || i >= toks.len() {
        Option::None
    } else {
        let t = toks[i];
        if t == seq![40u8] {
            if i + 1 >= toks.len() {
                Option::None
            } else {
                match token_op(toks[i + 1]) {
                    Option::None => Option::None,
                    Option::Some(op) => if arity(op) == 0 {
                        if i + 2 < toks.len() && toks[i + 2] == seq![41u8] {
                            Option::Some((TermV::App0(op), i + 3))
                        } else {
                            Option::None
                        }
                    } else if arity(op) == 1 {
                        match parse_toks(toks, i + 2, (fuel - 1) as nat, pattern) {
                            Option::None => Option::None,
                            Option::Some((a, j)) => if 0 <= j < toks.len() && toks[j] == seq![
                                41u8,
                            ] {
                                Option::Some((TermV::App1(op, Box::new(a)), j + 1))
                            } else {
                                Option::None
                            },
                        }
                    } else if arity(op) == 2 {
                        match parse_toks(toks, i + 2, (fuel - 1) as nat, pattern) {
                            Option::None => Option::None,
                            Option::Some((a, j)) => match parse_toks(
                                toks,
                                j,
                                (fuel - 1) as nat,
                                pattern,
                            ) {
                                Option::None => Option::None,
                                Option::Some((b, k)) => if 0 <= k < toks.len() && toks[k] == seq![
                                    41u8,
                                ] {
                                    Option::Some(
                                        (TermV::App2(op, Box::new(a), Box::new(b)), k + 1),
                                    )
                                } else {
                                    Option::None
                                },
                            },
                        }
                    } else {
                        match parse_toks(toks, i + 2, (fuel - 1) as nat, pattern) {
                            Option::None => Option::None,
                            Option::Some((a, j)) => match parse_toks(
                                toks,
                                j,
                                (fuel - 1) as nat,
                                pattern,
                            ) {
                                Option::None => Option::None,
                                Option::Some((b, k)) => match parse_toks(
                                    toks,
                                    k,
                                    (fuel - 1) as nat,
                                    pattern,
                                ) {
                                    Option::None => Option::None,
                                    Option::Some((c, l)) => if 0 <= l < toks.len() && toks[l]
                                        == seq![41u8] {
                                        Option::Some(
                                            (
                                                TermV::App3(
                                                    op,
                                                    Box::new(a),
                                                    Box::new(b),
                                                    Box::new(c),
                                                ),
                                                l + 1,
                                            ),
                                        )
                                    } else {
                                        Option::None
                                    },
                                },
                            },
                        }
                    },
                }
            }
        } else if t == seq![41u8] {
            Option::None
        } else {
            match classify_atom(t, pattern) {
                Option::None => Option::None,
                Option::Some(v) => Option::Some((v, i + 1)),
            }
        }
    }
}


/// The error for a missing closing paren: the input either ended too soon
/// or continues with something else where `)` was owed.
fn close_error(toks: &Vec<Vec<u8>>, at: usize, head: &Vec<u8>) -> ParseError {
    if at >= toks.len() {
        ParseError { kind: ParseErrorKind::UnexpectedEnd, text: subvec(head, 0, head.len()) }
    } else {
        ParseError { kind: ParseErrorKind::ArityMismatch, text: subvec(head, 0, head.len()) }
    }
}

#[verifier::rlimit(100)]
#[verifier::spinoff_prover]
fn parse_rec(toks: &Vec<Vec<u8>>, i: usize, fuel: usize, pattern: bool) -> (r: Result<
    (Term, usize),
    ParseError,
>)
    ensures
        r.is_ok() == parse_toks(views_of(toks@), i as int, fuel as nat, pattern).is_some(),
        r matches Ok(p) ==> ({
            let s = parse_toks(views_of(toks@), i as int, fuel as nat, pattern).unwrap();
            &&& p.1 == s.1
            &&& i < p.1 <= toks@.len()
            &&& similar(p.0@, s.0)
            &&& term_wf(p.0@)
            &&& (!pattern ==> no_pat_vars(p.0@))
            &&& term_size(p.0@) <= p.1 - i
        }),
    decreases fuel,
{
    let ghost tv = views_of(toks@);
    if fuel == 0 || i >= toks.len() {
        return Err(ParseError { kind: ParseErrorKind::UnexpectedEnd, text: Vec::new() });
    }
    let t = &toks[i];
    proof {
        assert(tv[i as int] == t@);
    }
    if t.len() == 1 && t[0] == 40 {
        proof {
            assert(t@ =~= seq![40u8]);
        }
        if i + 1 >= toks.len() {
            return Err(ParseError { kind: ParseErrorKind::UnexpectedEnd, text: Vec::new() });
        }
        let head = &toks[i + 1];
        proof {
            assert(tv[i + 1] == head@);
        }
        match lookup_op(head) {
            None => Err(
                ParseError {
                    kind: ParseErrorKind::ExpectedOperator,
                    text: subvec(head, 0, head.len()),
                },
            ),
            Some(op) => {
                let ar = op_arity(op);
                if ar == 0 {
                    if i + 2 < toks.len() {
                        let close = &toks[i + 2];
                        proof {
                            assert(tv[i + 2] == close@);
                        }
                        if close.len() == 1 && close[0] == 41 {
                            proof {
                                assert(close@ =~= seq![41u8]);
                            }
                            return Ok((Term::App0(op), i + 3));
                        }
                    }
                    Err(close_error(toks, i + 2, head))
                } else if ar == 1 {
                    let child = parse_rec(toks, i + 2, fuel - 1, pattern);
                    match child {
                        Err(e) => Err(e),
                        Ok((a, j)) => {
                            if j < toks.len() {
                                let close = &toks[j];
                                proof {
                                    assert(tv[j as int] == close@);
                                }
                                if close.len() == 1 && close[0] == 41 {
                                    proof {
                                        assert(close@ =~= seq![41u8]);
                                    }
                                    return Ok((Term::App1(op, Box::new(a)), j + 1));
                                }
                            }
                            Err(close_error(toks, j, head))
                        }
                    }
                } else if ar == 2 {
                    let child = parse_rec(toks, i + 2, fuel - 1, pattern);
                    match child {
                        Err(e) => Err(e),
                        Ok((a, j)) => {
                            let second = parse_rec(toks, j, fuel - 1, pattern);
                            match second {
                                Err(e) => Err(e),
                                Ok((b, k)) => {
                                    if k < toks.len() {
                                        let close = &toks[k];
                                        proof {
                                            assert(tv[k as int] == close@);
                                        }
                                        if close.len() == 1 && close[0] == 41 {
                                            proof {
                                                assert(close@ =~= seq![41u8]);
                                            }
                                            return Ok(
                                                (Term::App2(op, Box::new(a), Box::new(b)), k + 1),
                                            );
                                        }
                                    }
                                    Err(close_error(toks, k, head))
                                }
                            }
                        }
                    }
                } else {
                    let child = parse_rec(toks, i + 2, fuel - 1, pattern);
                    match child {
                        Err(e) => Err(e),
                        Ok((a, j)) => {
                            let second = parse_rec(toks, j, fuel - 1, pattern);
                            match second {
                                Err(e) => Err(e),
                                Ok((b, k)) => {
                                    let third = parse_rec(toks, k, fuel - 1, pattern);
                                    match third {
                                        Err(e) => Err(e),
                                        Ok((c, l)) => {
                                            if l < toks.len() {
                                                let close = &toks[l];
                                                proof {
                                                    assert(tv[l as int] == close@);
                                                }
                                                if close.len() == 1 && close[0] == 41 {
                                                    proof {
                                                        assert(close@ =~= seq![41u8]);
                                                    }
                                                    return Ok(
                                                        (
                                                            Term::App3(
                                                                op,
                                                                Box::new(a),
                                                                Box::new(b),
                                                                Box::new(c),
                                                            ),
                                                            l + 1,
                                                        ),
                                                    );
                                                }
                                            }
                                            Err(close_error(toks, l, head))
                                        }
                                    }
                                }
                            }
                        }
                    }
                }
            }
        }
    } else if t.len() == 1 && t[0] == 41 {
        proof {
            assert(t@ =~= seq![41u8]);
        }
        Err(ParseError { kind: ParseErrorKind::UnexpectedClose, text: subvec(t, 0, t.len()) })
    } else {
        proof {
            assert(t@ != seq![40u8]);
            assert(t@ != seq![41u8]);
        }
        match classify_atom_exec(t, pattern) {
            Err(e) => Err(e),
            Ok(term) => Ok((term, i + 1)),
        }
    }
}

/// The meaning of a byte string as a term: its tokens must form exactly one
/// term of the grammar. `pattern` admits pattern variables.
pub open spec fn spec_parse(s: Seq<u8>, pattern: bool) -> Option<TermV> {
    let tks = tokens(s);
    match parse_toks(tks, 0, tks.len(), pattern) {
        Option::None => Option::None,
        Option::Some((t, j)) => if j == tks.len() {
            Option::Some(t)
        } else {
            Option::None
        },
    }
}

/// Parses a byte string into a term. Succeeds exactly when `spec_parse`
/// does, and returns a term of the specified shape with every rational
/// literal in normal form; its size is bounded by the token count.
pub fn parse(s: &Vec<u8>, pattern: bool) -> (r: Result<Term, ParseError>)
    ensures
        r.is_ok() == spec_parse(s@, pattern).is_some(),
        r matches Ok(term) ==> similar(term@, spec_parse(s@, pattern).unwrap()) && term_wf(term@)
            && (!pattern ==> no_pat_vars(term@)) && term_size(term@) <= tokens(s@).len()
            && term_size(term@) <= usize::MAX,
{
    let toks = tokenize(s);
    proof {
        assert(views_of(toks@).len() == toks@.len());
    }
    if toks.len() == 0 {
        return Err(ParseError { kind: ParseErrorKind::EmptyInput, text: Vec::new() });
    }
    match parse_rec(&toks, 0, toks.len(), pattern) {
        Err(e) => Err(e),
        Ok((term, j)) => {
            if j == toks.len() {
                Ok(term)
            } else {
                Err(ParseError { kind: ParseErrorKind::TrailingTokens, text: Vec::new() })
            }
        }
    }
}

} // verus!
