//! The constant-fold analysis.
//!
//! Each equivalence class of the rewriting engine carries one datum: an
//! exact rational value when one is statically known, or nothing. `make`
//! derives a node's value from its children's for the operations that are
//! closed over the rationals; `merge` joins two classes' data without ever
//! overwriting a known value; `modify_plan` decides what the engine is to do
//! once a class's value is known: inject an exact-value leaf, and, when
//! pruning is on, delete the class's non-leaf members.

use vstd::prelude::*;
use vstd::arithmetic::power::pow;
use crate::rational::{Rat, RatV, rat_v, sq, is_square, int_abs, rat_add, rat_sub, rat_mul,
    rat_div, rat_neg, rat_abs, rat_floor, rat_ceil, rat_round, rat_is_zero, rat_is_integer,
    rat_numer, rat_denom, rat_from_parts, big_mul, big_eq, big_sqrt, big_pow, big_is_positive,
    big_is_negative, big_v};
use crate::grammar::{Op, Term, TermV, term_wf};

verus! {

/// One engine node, as the analysis sees it: an exact-value leaf, a named
/// variable leaf, or an operator over classes whose known values are given.
pub enum ENode {
    Num(Rat),
    Var,
    App(Op, Vec<Option<Rat>>),
}

/// The view of one class datum.
pub open spec fn datum_v(o: Option<Rat>) -> Option<RatV> {
    match o {
        Option::Some(r) => Option::Some(rat_v(r)),
        Option::None => Option::None,
    }
}

/// The views of a row of children's data.
pub open spec fn data_v(s: Seq<Option<Rat>>) -> Seq<Option<RatV>> {
    s.map_values(|o: Option<Rat>| datum_v(o))
}

/// Every known value in the row is in normal form.
pub open spec fn data_wf(s: Seq<Option<RatV>>) -> bool {
    forall|i: int| 0 <= i < s.len() ==> (#[trigger] s[i] matches Option::Some(v) ==> v.wf())
}

/// The value under an `Option`, for stating the fold rules; immaterial when
/// the option is empty.
pub open spec fn val_of(o: Option<RatV>) -> RatV {
    match o {
        Option::Some(v) => v,
        Option::None => RatV { n: 0, d: 1 },
    }
}

/// Exactly when the analysis derives a value: the operation must be closed
/// over the rationals on the given operands. Division is conservatively
/// unknown when the left operand is exactly zero (and when the divisor is,
/// where no exact value exists); a power folds only for a non-negative
/// integer exponent; a square root only for a positive operand whose reduced
/// numerator and denominator are both perfect squares. Everything else —
/// transcendental, comparison, logical, complex and reduced-precision
/// operators — never folds, and nothing folds when folding is off.
pub open spec fn folds(fold: bool, op: Op, ks: Seq<Option<RatV>>) -> bool {
    &&& fold
    &&& match op {
        Op::Add | Op::Sub | Op::Mul => ks.len() == 2 && ks[0].is_some() && ks[1].is_some(),
        Op::Div => ks.len() == 2 && ks[0].is_some() && ks[1].is_some() && val_of(ks[0]).n != 0
            && val_of(ks[1]).n != 0,
        Op::Neg | Op::Fabs | Op::Floor | Op::Ceil | Op::Round => ks.len() == 1
            && ks[0].is_some(),
        Op::Pow => ks.len() == 2 && ks[0].is_some() && ks[1].is_some() && val_of(ks[1]).is_int()
            && val_of(ks[1]).n >= 0,
        Op::Sqrt => ks.len() == 1 && ks[0].is_some() && val_of(ks[0]).n > 0 && is_square(
            val_of(ks[0]).n,
        ) && is_square(val_of(ks[0]).d),
        _ => false,
    }
}

/// What the derived value is, relative to the children's values `a` (and
/// `b`): the exact arithmetic result, stated by cross-multiplication where
/// the result is reduced, and exactly where reduction cannot change it.
pub open spec fn fold_ok(op: Op, ks: Seq<Option<RatV>>, v: RatV) -> bool {
    let a = val_of(ks[0]);
    let b = val_of(if ks.len() > 1 {
        ks[1]
    } else {
        Option::None
    });
    match op {
        Op::Add => v.is_ratio(a.n * b.d + b.n * a.d, a.d * b.d),
        Op::Sub => v.is_ratio(a.n * b.d - b.n * a.d, a.d * b.d),
        Op::Mul => v.is_ratio(a.n * b.n, a.d * b.d),
        Op::Div => v.is_ratio(a.n * b.d, a.d * b.n),
        Op::Neg => v == (RatV { n: -a.n, d: a.d }),
        Op::Pow => v.is_ratio(pow(a.n, b.n as nat), pow(a.d, b.n as nat)),
        Op::Sqrt => v.n > 0 && v.n * v.n * a.d == a.n * (v.d * v.d),
        Op::Fabs => v == (RatV { n: int_abs(a.n), d: a.d }),
        Op::Floor => v == (RatV { n: a.floor_val(), d: 1 }),
        Op::Ceil => v == (RatV { n: a.ceil_val(), d: 1 }),
        Op::Round => v == (RatV { n: a.round_val(), d: 1 }),
        _ => false,
    }
}

/// No integer squares to `x`, given the integer square root `s` of a range
/// around it.
proof fn lemma_not_square(x: int, s: int)
    requires
        s >= 0,
        s * s <= x,
        x < (s + 1) * (s + 1),
        s * s != x,
    ensures
        !is_square(x),
{
    assert forall|t: int| #[trigger] sq(t) != x by {
        let u = if t < 0 {
            -t
        } else {
            t
        };
        assert(sq(t) == u * u) by (nonlinear_arith)
            requires
                u == t || u == -t,
        ;
        if u <= s {
            assert(u * u <= s * s) by (nonlinear_arith)
                requires
                    0 <= u,
                    u <= s,
            ;
        } else {
            assert(u * u >= (s + 1) * (s + 1)) by (nonlinear_arith)
                requires
                    u >= s + 1,
                    s >= 0,
            ;
        }
    }
}

/// The value built from the two integer square roots is the square root of
/// the operand: positive, and squaring it gives the operand back.
proof fn lemma_sqrt_value(vn: int, vd: int, s1: int, s2: int, n: int, d: int)
    requires
        vn * s2 == s1 * vd,
        s1 > 0,
        s2 > 0,
        vd > 0,
        s1 * s1 == n,
        s2 * s2 == d,
    ensures
        vn > 0,
        vn * vn * d == n * (vd * vd),
{
    assert(vn > 0) by (nonlinear_arith)
        requires
            vn * s2 == s1 * vd,
            s1 > 0,
            s2 > 0,
            vd > 0,
    ;
    assert(vn * vn * (s2 * s2) == (s1 * s1) * (vd * vd)) by (nonlinear_arith)
        requires
            vn * s2 == s1 * vd,
    ;
}

/// The analysis configuration: whether folding happens at all, and whether a
/// class is pruned to its leaves once its value is known.
pub struct ConstantFold {
    pub constant_fold: bool,
    pub prune: bool,
}

impl Default for ConstantFold {
    /// Folding on, pruning on.
    fn default() -> (r: Self)
        ensures
            r.constant_fold,
            r.prune,
    {
        ConstantFold { constant_fold: true, prune: true }
    }
}

impl ConstantFold {
    /// Derives a node's exact value: an exact-value leaf is its own value,
    /// an operator node folds exactly when the operation is closed over the
    /// rationals on its children's known values; everything is unknown when
    /// folding is configured off.
    pub fn make(&self, node: &ENode) -> (r: Option<Rat>)
        requires
            node matches ENode::App(_, kids) ==> data_wf(data_v(kids@)),
            node matches ENode::Num(c) ==> rat_v(*c).wf(),
        ensures
            match node {
                ENode::Num(c) => if self.constant_fold {
                    r matches Some(v) && rat_v(v) == rat_v(*c) && rat_v(v).wf()
                } else {
                    r.is_none()
                },
                ENode::Var => r.is_none(),
                ENode::App(op, kids) => r.is_some() == folds(
                    self.constant_fold,
                    *op,
                    data_v(kids@),
                ) && (r matches Some(c) ==> rat_v(c).wf() && fold_ok(
                    *op,
                    data_v(kids@),
                    rat_v(c),
                )),
            },
    {
        if !self.constant_fold {
            return None;
        }
        let (op, kids) = match node {
            ENode::Num(c) => {
                return Some(c.clone());
            }
            ENode::Var => {
                return None;
            }
            ENode::App(op, kids) => (*op, kids),
        };
        let ghost ks = data_v(kids@);
        proof {
            assert(data_wf(ks));
        }
        match op {
            Op::Add => {
                if kids.len() == 2 {
                    if let (Some(a), Some(b)) = (&kids[0], &kids[1]) {
                        proof {
                            assert(ks[0] matches Option::Some(v) && v == rat_v(*a));
                            assert(ks[1] matches Option::Some(v) && v == rat_v(*b));
                        }
                        return Some(rat_add(a, b));
                    }
                }
                None
            }
            Op::Sub => {
                if kids.len() == 2 {
                    if let (Some(a), Some(b)) = (&kids[0], &kids[1]) {
                        proof {
                            assert(ks[0] matches Option::Some(v) && v == rat_v(*a));
                            assert(ks[1] matches Option::Some(v) && v == rat_v(*b));
                        }
                        return Some(rat_sub(a, b));
                    }
                }
                None
            }
            Op::Mul => {
                if kids.len() == 2 {
                    if let (Some(a), Some(b)) = (&kids[0], &kids[1]) {
                        proof {
                            assert(ks[0] matches Option::Some(v) && v == rat_v(*a));
                            assert(ks[1] matches Option::Some(v) && v == rat_v(*b));
                        }
                        return Some(rat_mul(a, b));
                    }
                }
                None
            }
            Op::Div => {
                if kids.len() == 2 {
                    if let (Some(a), Some(b)) = (&kids[0], &kids[1]) {
                        proof {
                            assert(ks[0] matches Option::Some(v) && v == rat_v(*a));
                            assert(ks[1] matches Option::Some(v) && v == rat_v(*b));
                        }
                        if rat_is_zero(a) || rat_is_zero(b) {
                            return None;
                        }
                        return Some(rat_div(a, b));
                    }
                }
                None
            }
            Op::Neg => {
                if kids.len() == 1 {
                    if let Some(a) = &kids[0] {
                        proof {
                            assert(ks[0] matches Option::Some(v) && v == rat_v(*a));
                        }
                        return Some(rat_neg(a));
                    }
                }
                None
            }
            Op::Fabs => {
                if kids.len() == 1 {
                    if let Some(a) = &kids[0] {
                        proof {
                            assert(ks[0] matches Option::Some(v) && v == rat_v(*a));
                        }
                        return Some(rat_abs(a));
                    }
                }
                None
            }
            Op::Floor => {
                if kids.len() == 1 {
                    if let Some(a) = &kids[0] {
                        proof {
                            assert(ks[0] matches Option::Some(v) && v == rat_v(*a));
                        }
                        return Some(rat_floor(a));
                    }
                }
                None
            }
            Op::Ceil => {
                if kids.len() == 1 {
                    if let Some(a) = &kids[0] {
                        proof {
                            assert(ks[0] matches Option::Some(v) && v == rat_v(*a));
                        }
                        return Some(rat_ceil(a));
                    }
                }
                None
            }
            Op::Round => {
                if kids.len() == 1 {
                    if let Some(a) = &kids[0] {
                        proof {
                            assert(ks[0] matches Option::Some(v) && v == rat_v(*a));
                        }
                        return Some(rat_round(a));
                    }
                }
                None
            }
            Op::Pow => {
                if kids.len() == 2 {
                    if let (Some(a), Some(b)) = (&kids[0], &kids[1]) {
                        proof {
                            assert(ks[0] matches Option::Some(v) && v == rat_v(*a));
                            assert(ks[1] matches Option::Some(v) && v == rat_v(*b));
                        }
                        if !rat_is_integer(b) {
                            return None;
                        }
                        let e = rat_numer(b);
                        if big_is_negative(&e) {
                            return None;
                        }
                        let top = big_pow(&rat_numer(a), &e);
                        let bot = big_pow(&rat_denom(a), &e);
                        proof {
                            vstd::arithmetic::power::lemma_pow_positive(
                                rat_v(*a).d,
                                big_v(e) as nat,
                            );
                        }
                        return Some(rat_from_parts(top, bot));
                    }
                }
                None
            }
            Op::Sqrt => {
                if kids.len() == 1 {
                    if let Some(a) = &kids[0] {
                        proof {
                            assert(ks[0] matches Option::Some(v) && v == rat_v(*a));
                        }
                        let n = rat_numer(a);
                        if !big_is_positive(&n) {
                            return None;
                        }
                        let d = rat_denom(a);
                        let s1 = big_sqrt(&n);
                        let s1_sq = big_mul(&s1, &s1);
                        if !big_eq(&s1_sq, &n) {
                            proof {
                                lemma_not_square(rat_v(*a).n, big_v(s1));
                            }
                            return None;
                        }
                        let s2 = big_sqrt(&d);
                        let s2_sq = big_mul(&s2, &s2);
                        if !big_eq(&s2_sq, &d) {
                            proof {
                                lemma_not_square(rat_v(*a).d, big_v(s2));
                                assert(sq(big_v(s1)) == rat_v(*a).n);
                            }
                            return None;
                        }
                        proof {
                            assert(big_v(s2) != 0) by {
                                if big_v(s2) == 0 {
                                    assert(big_v(s2) * big_v(s2) == 0);
                                }
                            }
                            assert(sq(big_v(s1)) == rat_v(*a).n);
                            assert(sq(big_v(s2)) == rat_v(*a).d);
                            assert(big_v(s1) > 0) by {
                                assert(big_v(s1) * big_v(s1) > 0);
                            }
                        }
                        let root = rat_from_parts(s1, s2);
                        proof {
                            lemma_sqrt_value(
                                rat_v(root).n,
                                rat_v(root).d,
                                big_v(s1),
                                big_v(s2),
                                rat_v(*a).n,
                                rat_v(*a).d,
                            );
                        }
                        return Some(root);
                    }
                }
                None
            }
            _ => None,
        }
    }

    /// Joins two classes' data when the engine unifies the classes. A known
    /// value is never overwritten: it changes only from unknown to known,
    /// and `true` (re-propagate) is reported exactly then.
    pub fn merge(&self, to: &mut Option<Rat>, from: Option<Rat>) -> (changed: bool)
        ensures
            changed == (old(to).is_none() && from.is_some()),
            changed ==> *final(to) == from,
            !changed ==> *final(to) == *old(to),
    {
        if to.is_none() && from.is_some() {
            *to = from;
            true
        } else {
            false
        }
    }

    /// The modify step's decision, for a class whose datum is `data`: when
    /// the value is known, the engine is to inject a fresh exact-value leaf
    /// carrying it and unite it with the class; the boolean says whether the
    /// class's non-leaf members are then to be deleted.
    pub fn modify_plan(&self, data: &Option<Rat>) -> (r: Option<(Term, bool)>)
        requires
            datum_v(*data) matches Option::Some(v) ==> v.wf(),
        ensures
            match datum_v(*data) {
                Option::Some(v) => r matches Some(p) && p.0@ == TermV::Num(v) && term_wf(p.0@)
                    && p.1 == self.prune,
                Option::None => r.is_none(),
            },
    {
        match data {
            Some(c) => Some((Term::Num(c.clone()), self.prune)),
            None => None,
        }
    }
}

// ---------------------------------------------------------------------------
// Laws of the fold rules
// ---------------------------------------------------------------------------

/// The exact-rational operators always fold: addition, subtraction and
/// multiplication whenever both operands are known, division whenever both
/// are known and nonzero. With `make`'s contract, the derived value is the
/// exact arithmetic result.
pub proof fn lemma_rational_ops_always_fold(a: RatV, b: RatV)
    ensures
        folds(true, Op::Add, seq![Option::Some(a), Option::Some(b)]),
        folds(true, Op::Sub, seq![Option::Some(a), Option::Some(b)]),
        folds(true, Op::Mul, seq![Option::Some(a), Option::Some(b)]),
        a.n != 0 && b.n != 0 ==> folds(true, Op::Div, seq![Option::Some(a), Option::Some(b)]),
{
}

/// Division with an exactly-zero left operand never folds, whatever the
/// right operand is (known or not, zero or not) — even though `0 / b` is 0
/// for every nonzero `b`.
pub proof fn lemma_div_zero_numerator_never_folds(a: RatV, b: Option<RatV>, fold: bool)
    requires
        a.n == 0,
    ensures
        !folds(fold, Op::Div, seq![Option::Some(a), b]),
{
}

/// A power with a non-integer exponent never folds, for every base.
pub proof fn lemma_pow_non_integer_never_folds(a: Option<RatV>, b: RatV, fold: bool)
    requires
        !b.is_int(),
    ensures
        !folds(fold, Op::Pow, seq![a, Option::Some(b)]),
{
}

/// A square root folds exactly on the positive rationals whose reduced
/// numerator and denominator are both perfect squares.
pub proof fn lemma_sqrt_folds_iff(a: RatV)
    ensures
        folds(true, Op::Sqrt, seq![Option::Some(a)]) == (a.n > 0 && is_square(a.n) && is_square(
            a.d,
        )),
{
}

} // verus!
