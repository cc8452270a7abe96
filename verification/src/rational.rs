//! Exact arbitrary-precision rational numbers.
//!
//! The mathematical model of a rational is `RatV`: a numerator/denominator
//! pair of unbounded integers, in lowest terms with a positive denominator.
//! The executable type `Rat` carries a `num_rational::BigRational`, which
//! maintains exactly that normal form; `rat_v` names the value it holds.
//! Arithmetic on `Rat` goes through trusted wrappers around `num-rational`
//! and `num-bigint`; every wrapper states the value of its result exactly,
//! by a cross-multiplication relation or by the model itself.

use vstd::prelude::*;

verus! {

/// The model of an exact rational number: `n / d`.
/// Well-formed models are in lowest terms with `d > 0`.
pub struct RatV {
    pub n: int,
    pub d: int,
}

/// `f` divides `x`.
pub open spec fn divides(f: int, x: int) -> bool {
    exists|k: int| x == #[trigger] (f * k)
}

/// The square of an integer; also serves as a quantifier trigger.
pub open spec fn sq(s: int) -> int {
    s * s
}

/// `x` is a perfect square.
pub open spec fn is_square(x: int) -> bool {
    exists|s: int| #[trigger] sq(s) == x
}

/// Absolute value.
pub open spec fn int_abs(x: int) -> int {
    if x < 0 {
        -x
    } else {
        x
    }
}

impl RatV {
    /// Lowest terms, positive denominator: the normal form that
    /// `num_rational::Ratio` maintains for every value it hands out.
    pub open spec fn wf(self) -> bool {
        &&& self.d > 0
        &&& forall|g: int|
            1 < g ==> !(#[trigger] divides(g, self.n) && divides(g, self.d))
    }

    /// `self` denotes the same rational number as the (not necessarily
    /// reduced) fraction `n / d`.
    pub open spec fn is_ratio(self, n: int, d: int) -> bool {
        self.n * d == n * self.d
    }

    pub open spec fn is_zero(self) -> bool {
        self.n == 0
    }

    /// Integers are exactly the rationals whose reduced denominator is 1.
    pub open spec fn is_int(self) -> bool {
        self.d == 1
    }

    /// Floor of `self`, as an integer. Since `d > 0`, Euclidean division
    /// (the meaning of `/` on `int`) is exactly the floor.
    pub open spec fn floor_val(self) -> int {
        self.n / self.d
    }

    /// Ceiling of `self`, as an integer.
    pub open spec fn ceil_val(self) -> int {
        -((-self.n) / self.d)
    }

    /// Nearest integer, half-way cases away from zero.
    pub open spec fn round_val(self) -> int {
        let q = self.n / self.d;
        let twice_rem = 2 * (self.n % self.d);
        if twice_rem < self.d {
            q
        } else if twice_rem > self.d {
            q + 1
        } else if self.n >= 0 {
            q + 1
        } else {
            q
        }
    }
}

#[verifier::external_type_specification]
#[verifier::external_body]
#[verifier::reject_recursive_types(T)]
pub struct ExRatio<T>(num_rational::Ratio<T>);

#[verifier::external_type_specification]
#[verifier::external_body]
pub struct ExBigInt(num_bigint::BigInt);

/// An exact rational, as `num-rational` keeps it: in lowest terms with a
/// positive denominator. Its view, `rat_v`, is the mathematical value it
/// holds; every wrapper below states how the call it makes acts on views.
#[derive(Debug)]
pub struct Rat {
    v: num_rational::Ratio<num_bigint::BigInt>,
}

/// An unbounded integer; its view, `big_v`, is the integer it holds.
pub struct Big {
    v: num_bigint::BigInt,
}

/// The value a `Rat` holds.
pub uninterp spec fn rat_v(r: Rat) -> RatV;

/// The value a `Big` holds.
pub uninterp spec fn big_v(b: Big) -> int;

impl View for Rat {
    type V = RatV;

    open spec fn view(&self) -> RatV {
        rat_v(*self)
    }
}

impl View for Big {
    type V = int;

    open spec fn view(&self) -> int {
        big_v(*self)
    }
}

impl Clone for Rat {
    /// Relies on `Clone for Ratio<BigInt>`: an exact copy of the value.
    #[verifier::external_body]
    fn clone(&self) -> (r: Self)
        ensures
            rat_v(r) == rat_v(*self),
    {
        Rat { v: self.v.clone() }
    }
}

/// Relies on `Add for &Ratio`: exact addition, result in lowest terms.
#[verifier::external_body]
pub(crate) fn rat_add(a: &Rat, b: &Rat) -> (r: Rat)
    requires
        a@.wf(),
        b@.wf(),
    ensures
        rat_v(r).wf(),
        rat_v(r).is_ratio(a@.n * b@.d + b@.n * a@.d, a@.d * b@.d),
{
    Rat { v: &a.v + &b.v }
}

/// Relies on `Sub for &Ratio`: exact subtraction, result in lowest terms.
#[verifier::external_body]
pub(crate) fn rat_sub(a: &Rat, b: &Rat) -> (r: Rat)
    requires
        a@.wf(),
        b@.wf(),
    ensures
        rat_v(r).wf(),
        rat_v(r).is_ratio(a@.n * b@.d - b@.n * a@.d, a@.d * b@.d),
{
    Rat { v: &a.v - &b.v }
}

/// Relies on `Mul for &Ratio`: exact multiplication, result in lowest terms.
#[verifier::external_body]
pub(crate) fn rat_mul(a: &Rat, b: &Rat) -> (r: Rat)
    requires
        a@.wf(),
        b@.wf(),
    ensures
        rat_v(r).wf(),
        rat_v(r).is_ratio(a@.n * b@.n, a@.d * b@.d),
{
    Rat { v: &a.v * &b.v }
}

/// Relies on `Div for &Ratio`: exact division, result in lowest terms.
/// Division by zero panics in `num-rational`, so a zero divisor is excluded.
#[verifier::external_body]
pub(crate) fn rat_div(a: &Rat, b: &Rat) -> (r: Rat)
    requires
        a@.wf(),
        b@.wf(),
        b@.n != 0,
    ensures
        rat_v(r).wf(),
        rat_v(r).is_ratio(a@.n * b@.d, a@.d * b@.n),
{
    Rat { v: &a.v / &b.v }
}

/// Relies on `Neg for &Ratio`: negation only negates the numerator.
#[verifier::external_body]
pub(crate) fn rat_neg(a: &Rat) -> (r: Rat)
    requires
        a@.wf(),
    ensures
        rat_v(r).wf(),
        rat_v(r) == (RatV { n: -a@.n, d: a@.d }),
{
    Rat { v: -a.v.clone() }
}

/// Relies on `Signed::abs for Ratio`: the absolute value, which only
/// negates a negative numerator.
#[verifier::external_body]
pub(crate) fn rat_abs(a: &Rat) -> (r: Rat)
    requires
        a@.wf(),
    ensures
        rat_v(r).wf(),
        rat_v(r) == (RatV { n: int_abs(a@.n), d: a@.d }),
{
    Rat { v: num_traits::Signed::abs(&a.v) }
}

/// Relies on `Ratio::floor`: rounds towards minus infinity, which for a
/// positive denominator is Euclidean division of the parts.
#[verifier::external_body]
pub(crate) fn rat_floor(a: &Rat) -> (r: Rat)
    requires
        a@.wf(),
    ensures
        rat_v(r).wf(),
        rat_v(r) == (RatV { n: a@.floor_val(), d: 1 }),
{
    Rat { v: a.v.floor() }
}

/// Relies on `Ratio::ceil`: rounds towards plus infinity.
#[verifier::external_body]
pub(crate) fn rat_ceil(a: &Rat) -> (r: Rat)
    requires
        a@.wf(),
    ensures
        rat_v(r).wf(),
        rat_v(r) == (RatV { n: a@.ceil_val(), d: 1 }),
{
    Rat { v: a.v.ceil() }
}

/// Relies on `Ratio::round`: nearest integer, half-way cases away from zero.
#[verifier::external_body]
pub(crate) fn rat_round(a: &Rat) -> (r: Rat)
    requires
        a@.wf(),
    ensures
        rat_v(r).wf(),
        rat_v(r) == (RatV { n: a@.round_val(), d: 1 }),
{
    Rat { v: a.v.round() }
}

/// Relies on `Zero::is_zero for Ratio`: true exactly when the numerator is zero.
#[verifier::external_body]
pub(crate) fn rat_is_zero(a: &Rat) -> (r: bool)
    requires
        a@.wf(),
    ensures
        r == rat_v(*a).is_zero(),
{
    num_traits::Zero::is_zero(&a.v)
}

/// Relies on `Ratio::is_integer`: true exactly when the reduced denominator is 1.
#[verifier::external_body]
pub(crate) fn rat_is_integer(a: &Rat) -> (r: bool)
    requires
        a@.wf(),
    ensures
        r == rat_v(*a).is_int(),
{
    a.v.is_integer()
}

/// Relies on `Ratio::numer`: the numerator of the reduced form.
#[verifier::external_body]
pub(crate) fn rat_numer(a: &Rat) -> (r: Big)
    requires
        a@.wf(),
    ensures
        big_v(r) == rat_v(*a).n,
{
    Big { v: a.v.numer().clone() }
}

/// Relies on `Ratio::denom`: the denominator of the reduced form.
#[verifier::external_body]
pub(crate) fn rat_denom(a: &Rat) -> (r: Big)
    requires
        a@.wf(),
    ensures
        big_v(r) == rat_v(*a).d,
{
    Big { v: a.v.denom().clone() }
}

/// Relies on `Ratio::new`: reduces `n / d` to lowest terms with a positive
/// denominator. A zero denominator panics in `num-rational`, so it is excluded.
#[verifier::external_body]
pub(crate) fn rat_from_parts(n: Big, d: Big) -> (r: Rat)
    requires
        d@ != 0,
    ensures
        rat_v(r).wf(),
        rat_v(r).is_ratio(n@, d@),
{
    Rat { v: num_rational::Ratio::new(n.v, d.v) }
}

/// Relies on `Mul for &BigInt`: exact integer multiplication.
#[verifier::external_body]
pub(crate) fn big_mul(a: &Big, b: &Big) -> (r: Big)
    ensures
        big_v(r) == big_v(*a) * big_v(*b),
{
    Big { v: &a.v * &b.v }
}

/// Relies on `PartialEq for BigInt`: equality of values.
#[verifier::external_body]
pub(crate) fn big_eq(a: &Big, b: &Big) -> (r: bool)
    ensures
        r == (big_v(*a) == big_v(*b)),
{
    a.v == b.v
}

/// Relies on `BigInt::sqrt`: the truncated principal square root. It panics
/// on a negative input, so those are excluded.
#[verifier::external_body]
pub(crate) fn big_sqrt(a: &Big) -> (r: Big)
    requires
        a@ >= 0,
    ensures
        big_v(r) >= 0,
        big_v(r) * big_v(r) <= big_v(*a),
        big_v(*a) < (big_v(r) + 1) * (big_v(r) + 1),
{
    Big { v: a.v.sqrt() }
}

/// Relies on `Pow<&BigUint> for &BigInt` (exact integer exponentiation) and
/// on `BigInt::to_biguint`, which succeeds exactly on non-negative values.
#[verifier::external_body]
pub(crate) fn big_pow(a: &Big, e: &Big) -> (r: Big)
    requires
        e@ >= 0,
    ensures
        big_v(r) == vstd::arithmetic::power::pow(big_v(*a), big_v(*e) as nat),
{
    let exponent = e.v.to_biguint().unwrap();
    Big { v: num_traits::Pow::pow(&a.v, &exponent) }
}

/// Relies on `Signed::is_positive for BigInt`.
#[verifier::external_body]
pub(crate) fn big_is_positive(a: &Big) -> (r: bool)
    ensures
        r == (big_v(*a) > 0),
{
    num_traits::Signed::is_positive(&a.v)
}

/// Relies on `Signed::is_negative for BigInt`.
#[verifier::external_body]
pub(crate) fn big_is_negative(a: &Big) -> (r: bool)
    ensures
        r == (big_v(*a) < 0),
{
    num_traits::Signed::is_negative(&a.v)
}

// ---------------------------------------------------------------------------
// Numerals as text: the byte-level grammar of rational literals, and the
// decimal rendering of a rational. Tokens are ASCII bytes; `48` is `'0'`,
// `43` is `'+'`, `45` is `'-'`, `47` is `'/'`.
// ---------------------------------------------------------------------------

pub open spec fn is_digit(c: u8) -> bool {
    48 <= c && c <= 57
}

pub open spec fn all_digits(s: Seq<u8>) -> bool {
    forall|i: int| 0 <= i < s.len() ==> is_digit(#[trigger] s[i])
}

/// The value of a non-empty string of decimal digits.
pub open spec fn digits_val(s: Seq<u8>) -> int
    decreases s.len(),
{
    if s.len() == 0 {
        0
    } else {
        10 * digits_val(s.drop_last()) + (s.last() - 48)
    }
}

/// An integer literal: an optional sign followed by at least one digit.
pub open spec fn is_int_lit(s: Seq<u8>) -> bool {
    if s.len() > 0 && (s[0] == 43 || s[0] == 45) {
        s.len() > 1 && all_digits(s.skip(1))
    } else {
        s.len() > 0 && all_digits(s)
    }
}

pub open spec fn int_lit_val(s: Seq<u8>) -> int {
    if s.len() > 0 && s[0] == 45 {
        -digits_val(s.skip(1))
    } else if s.len() > 0 && s[0] == 43 {
        digits_val(s.skip(1))
    } else {
        digits_val(s)
    }
}

/// Position `i` splits `s` into a valid fraction: an integer literal, a
/// slash, and an integer literal with a nonzero value.
pub open spec fn fraction_split(s: Seq<u8>, i: int) -> bool {
    &&& 0 <= i < s.len()
    &&& s[i] == 47
    &&& is_int_lit(s.take(i))
    &&& is_int_lit(s.skip(i + 1))
    &&& int_lit_val(s.skip(i + 1)) != 0
}

pub open spec fn has_slash(s: Seq<u8>) -> bool {
    exists|i: int| 0 <= i < s.len() && #[trigger] s[i] == 47
}

/// A rational literal: either an integer literal, or a fraction of two with
/// a nonzero denominator, as `num-rational` parses them.
pub open spec fn is_numeral(s: Seq<u8>) -> bool {
    if has_slash(s) {
        exists|i: int| #[trigger] fraction_split(s, i)
    } else {
        is_int_lit(s)
    }
}

pub open spec fn numeral_num(s: Seq<u8>) -> int {
    if has_slash(s) {
        int_lit_val(s.take(choose|i: int| fraction_split(s, i)))
    } else {
        int_lit_val(s)
    }
}

pub open spec fn numeral_den(s: Seq<u8>) -> int {
    if has_slash(s) {
        int_lit_val(s.skip((choose|i: int| fraction_split(s, i)) + 1))
    } else {
        1
    }
}

/// The decimal digits of a non-negative integer, most significant first.
pub open spec fn dec_digits(n: nat) -> Seq<u8>
    decreases n,
{
    if n < 10 {
        seq![(48 + n) as u8]
    } else {
        dec_digits(n / 10).push((48 + n % 10) as u8)
    }
}

/// The decimal rendering of an integer.
pub open spec fn dec_int(x: int) -> Seq<u8> {
    if x < 0 {
        seq![45u8] + dec_digits((-x) as nat)
    } else {
        dec_digits(x as nat)
    }
}

/// How `num-rational` displays a reduced rational `n / d`: just the
/// numerator when `d` is 1, else numerator, slash, denominator.
pub open spec fn dec_ratio(n: int, d: int) -> Seq<u8> {
    if d == 1 {
        dec_int(n)
    } else {
        dec_int(n) + seq![47u8] + dec_digits(d as nat)
    }
}

/// Relies on `FromStr for Ratio<BigInt>`: it splits at the first slash and
/// parses each part as a decimal integer with an optional sign, rejecting a
/// zero denominator, then reduces. Only called on tokens that match
/// `is_numeral`, where that parse succeeds.
#[verifier::external_body]
pub(crate) fn rat_from_numeral(s: &Vec<u8>) -> (r: Rat)
    requires
        is_numeral(s@),
    ensures
        rat_v(r).wf(),
        rat_v(r).is_ratio(numeral_num(s@), numeral_den(s@)),
{
    let text = core::str::from_utf8(s).unwrap();
    Rat { v: text.parse().unwrap() }
}

/// Relies on `Display for Ratio<BigInt>` and for `BigInt`: plain decimal
/// digits with a leading minus for negative values, the two parts separated
/// by a slash unless the denominator is 1.
#[verifier::external_body]
pub(crate) fn rat_display(a: &Rat) -> (r: Vec<u8>)
    requires
        a@.wf(),
    ensures
        r@ == dec_ratio(rat_v(*a).n, rat_v(*a).d),
{
    a.v.to_string().into_bytes()
}

} // verus!

