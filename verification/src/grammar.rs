//! The term grammar: every node kind of the expression language, with its
//! fixed arity and its textual token, and the terms built from them.
//!
//! A term is a node tagged by operator kind whose number of children always
//! matches the kind's arity; constants carry an exact rational, variables a
//! name. Pattern variables (tokens that start with `?`) occur only in
//! rewrite-rule patterns, never in plain expressions.

use vstd::prelude::*;
use crate::rational::{Rat, RatV, rat_v, dec_ratio};

verus! {

/// Every operator kind of the grammar, from the boolean and comparison
/// operators through complex, real, and reduced-precision arithmetic to the
/// named numeric constants (which are the 0-ary kinds).
#[derive(Clone, Copy, PartialEq, Eq, Structural)]
pub enum Op {
    True,
    False,
    E,
    Log2E,
    Log10E,
    Ln2,
    Ln10,
    Pi,
    Pi2,
    Pi4,
    Pi1Alt,
    Pi2Alt,
    Sqrtpi2,
    Sqrt2,
    Sqrt1_2,
    Infinity,
    Nan,
    If,
    Not,
    And,
    Or,
    Less,
    Greater,
    LessEq,
    GreaterEq,
    Re,
    Im,
    Complex,
    Conj,
    Addc,
    Subc,
    Negc,
    Divc,
    Mulc,
    Erf,
    Erfc,
    Tgamma,
    Lgamma,
    Ceil,
    Floor,
    Fmod,
    Remainder,
    Fmax,
    Fmin,
    Fdim,
    Copysign,
    Trunc,
    Round,
    NearbyInt,
    Add,
    Sub,
    Mul,
    Div,
    Pow,
    Neg,
    Exp,
    Exp2,
    Log,
    Sqrt,
    Cbrt,
    Fabs,
    Sin,
    Cos,
    Tan,
    Asin,
    Acos,
    Atan,
    Atan2,
    Sinh,
    Cosh,
    Tanh,
    Asinh,
    Acosh,
    Atanh,
    Fma,
    Log1p,
    Log10,
    Log2,
    Expm1,
    Hypot,
    PositAdd,
    PositSub,
    PositMul,
    PositDiv,
    RealToPosit,
}

/// The fixed arity of each operator kind.
pub open spec fn arity(op: Op) -> nat {
    match op {
        Op::True => 0,
        Op::False => 0,
        Op::E => 0,
        Op::Log2E => 0,
        Op::Log10E => 0,
        Op::Ln2 => 0,
        Op::Ln10 => 0,
        Op::Pi => 0,
        Op::Pi2 => 0,
        Op::Pi4 => 0,
        Op::Pi1Alt => 0,
        Op::Pi2Alt => 0,
        Op::Sqrtpi2 => 0,
        Op::Sqrt2 => 0,
        Op::Sqrt1_2 => 0,
        Op::Infinity => 0,
        Op::Nan => 0,
        Op::If => 3,
        Op::Not => 1,
        Op::And => 2,
        Op::Or => 2,
        Op::Less => 2,
        Op::Greater => 2,
        Op::LessEq => 2,
        Op::GreaterEq => 2,
        Op::Re => 1,
        Op::Im => 1,
        Op::Complex => 1,
        Op::Conj => 1,
        Op::Addc => 1,
        Op::Subc => 1,
        Op::Negc => 1,
        Op::Divc => 1,
        Op::Mulc => 1,
        Op::Erf => 1,
        Op::Erfc => 1,
        Op::Tgamma => 1,
        Op::Lgamma => 1,
        Op::Ceil => 1,
        Op::Floor => 1,
        Op::Fmod => 2,
        Op::Remainder => 2,
        Op::Fmax => 2,
        Op::Fmin => 2,
        Op::Fdim => 2,
        Op::Copysign => 1,
        Op::Trunc => 1,
        Op::Round => 1,
        Op::NearbyInt => 1,
        Op::Add => 2,
        Op::Sub => 2,
        Op::Mul => 2,
        Op::Div => 2,
        Op::Pow => 2,
        Op::Neg => 1,
        Op::Exp => 1,
        Op::Exp2 => 1,
        Op::Log => 1,
        Op::Sqrt => 1,
        Op::Cbrt => 1,
        Op::Fabs => 1,
        Op::Sin => 1,
        Op::Cos => 1,
        Op::Tan => 1,
        Op::Asin => 1,
        Op::Acos => 1,
        Op::Atan => 1,
        Op::Atan2 => 1,
        Op::Sinh => 1,
        Op::Cosh => 1,
        Op::Tanh => 1,
        Op::Asinh => 1,
        Op::Acosh => 1,
        Op::Atanh => 1,
        Op::Fma => 2,
        Op::Log1p => 1,
        Op::Log10 => 1,
        Op::Log2 => 1,
        Op::Expm1 => 1,
        Op::Hypot => 1,
        Op::PositAdd => 2,
        Op::PositSub => 2,
        Op::PositMul => 2,
        Op::PositDiv => 2,
        Op::RealToPosit => 1,
    }
}

pub fn op_arity(op: Op) -> (r: usize)
    ensures
        r == arity(op),
{
    match op {
        Op::True => 0,
        Op::False => 0,
        Op::E => 0,
        Op::Log2E => 0,
        Op::Log10E => 0,
        Op::Ln2 => 0,
        Op::Ln10 => 0,
        Op::Pi => 0,
        Op::Pi2 => 0,
        Op::Pi4 => 0,
        Op::Pi1Alt => 0,
        Op::Pi2Alt => 0,
        Op::Sqrtpi2 => 0,
        Op::Sqrt2 => 0,
        Op::Sqrt1_2 => 0,
        Op::Infinity => 0,
        Op::Nan => 0,
        Op::If => 3,
        Op::Not => 1,
        Op::And => 2,
        Op::Or => 2,
        Op::Less => 2,
        Op::Greater => 2,
        Op::LessEq => 2,
        Op::GreaterEq => 2,
        Op::Re => 1,
        Op::Im => 1,
        Op::Complex => 1,
        Op::Conj => 1,
        Op::Addc => 1,
        Op::Subc => 1,
        Op::Negc => 1,
        Op::Divc => 1,
        Op::Mulc => 1,
        Op::Erf => 1,
        Op::Erfc => 1,
        Op::Tgamma => 1,
        Op::Lgamma => 1,
        Op::Ceil => 1,
        Op::Floor => 1,
        Op::Fmod => 2,
        Op::Remainder => 2,
        Op::Fmax => 2,
        Op::Fmin => 2,
        Op::Fdim => 2,
        Op::Copysign => 1,
        Op::Trunc => 1,
        Op::Round => 1,
        Op::NearbyInt => 1,
        Op::Add => 2,
        Op::Sub => 2,
        Op::Mul => 2,
        Op::Div => 2,
        Op::Pow => 2,
        Op::Neg => 1,
        Op::Exp => 1,
        Op::Exp2 => 1,
        Op::Log => 1,
        Op::Sqrt => 1,
        Op::Cbrt => 1,
        Op::Fabs => 1,
        Op::Sin => 1,
        Op::Cos => 1,
        Op::Tan => 1,
        Op::Asin => 1,
        Op::Acos => 1,
        Op::Atan => 1,
        Op::Atan2 => 1,
        Op::Sinh => 1,
        Op::Cosh => 1,
        Op::Tanh => 1,
        Op::Asinh => 1,
        Op::Acosh => 1,
        Op::Atanh => 1,
        Op::Fma => 2,
        Op::Log1p => 1,
        Op::Log10 => 1,
        Op::Log2 => 1,
        Op::Expm1 => 1,
        Op::Hypot => 1,
        Op::PositAdd => 2,
        Op::PositSub => 2,
        Op::PositMul => 2,
        Op::PositDiv => 2,
        Op::RealToPosit => 1,
    }
}

/// The textual token of each operator kind.
pub open spec fn op_token(op: Op) -> Seq<u8> {
    match op {
        Op::True => seq![84u8, 82u8, 85u8, 69u8],
        Op::False => seq![70u8, 65u8, 76u8, 83u8, 69u8],
        Op::E => seq![69u8],
        Op::Log2E => seq![76u8, 79u8, 71u8, 50u8, 69u8],
        Op::Log10E => seq![76u8, 79u8, 71u8, 49u8, 48u8, 69u8],
        Op::Ln2 => seq![76u8, 78u8, 50u8],
        Op::Ln10 => seq![76u8, 78u8, 49u8, 48u8],
        Op::Pi => seq![80u8, 73u8],
        Op::Pi2 => seq![80u8, 73u8, 95u8, 50u8],
        Op::Pi4 => seq![80u8, 73u8, 95u8, 52u8],
        Op::Pi1Alt => seq![49u8, 95u8, 80u8, 73u8],
        Op::Pi2Alt => seq![50u8, 95u8, 80u8, 73u8],
        Op::Sqrtpi2 => seq![50u8, 95u8, 83u8, 81u8, 82u8, 84u8, 80u8, 73u8],
        Op::Sqrt2 => seq![83u8, 81u8, 82u8, 84u8, 50u8],
        Op::Sqrt1_2 => seq![83u8, 81u8, 82u8, 84u8, 49u8, 95u8, 50u8],
        Op::Infinity => seq![73u8, 78u8, 70u8, 73u8, 78u8, 73u8, 84u8, 89u8],
        Op::Nan => seq![78u8, 65u8, 78u8],
        Op::If => seq![105u8, 102u8],
        Op::Not => seq![110u8, 111u8, 116u8],
        Op::And => seq![97u8, 110u8, 100u8],
        Op::Or => seq![111u8, 114u8],
        Op::Less => seq![60u8],
        Op::Greater => seq![62u8],
        Op::LessEq => seq![60u8, 61u8],
        Op::GreaterEq => seq![62u8, 61u8],
        Op::Re => seq![114u8, 101u8],
        Op::Im => seq![105u8, 109u8],
        Op::Complex => seq![99u8, 111u8, 109u8, 112u8, 108u8, 101u8, 120u8],
        Op::Conj => seq![99u8, 111u8, 110u8, 106u8],
        Op::Addc => seq![43u8, 46u8, 99u8],
        Op::Subc => seq![45u8, 46u8, 99u8],
        Op::Negc => seq![110u8, 101u8, 103u8, 46u8, 99u8],
        Op::Divc => seq![47u8, 46u8, 99u8],
        Op::Mulc => seq![42u8, 46u8, 99u8],
        Op::Erf => seq![101u8, 114u8, 102u8],
        Op::Erfc => seq![101u8, 114u8, 102u8, 99u8],
        Op::Tgamma => seq![116u8, 103u8, 97u8, 109u8, 109u8, 97u8],
        Op::Lgamma => seq![108u8, 103u8, 97u8, 109u8, 109u8, 97u8],
        Op::Ceil => seq![99u8, 101u8, 105u8, 108u8],
        Op::Floor => seq![102u8, 108u8, 111u8, 111u8, 114u8],
        Op::Fmod => seq![102u8, 109u8, 111u8, 100u8],
        Op::Remainder => seq![114u8, 101u8, 109u8, 97u8, 105u8, 110u8, 100u8, 101u8, 114u8],
        Op::Fmax => seq![102u8, 109u8, 97u8, 120u8],
        Op::Fmin => seq![102u8, 109u8, 105u8, 110u8],
        Op::Fdim => seq![102u8, 100u8, 105u8, 109u8],
        Op::Copysign => seq![99u8, 111u8, 112u8, 121u8, 115u8, 105u8, 103u8, 110u8],
        Op::Trunc => seq![116u8, 114u8, 117u8, 110u8, 99u8],
        Op::Round => seq![114u8, 111u8, 117u8, 110u8, 100u8],
        Op::NearbyInt => seq![110u8, 101u8, 97u8, 114u8, 98u8, 121u8, 105u8, 110u8, 116u8],
        Op::Add => seq![43u8],
        Op::Sub => seq![45u8],
        Op::Mul => seq![42u8],
        Op::Div => seq![47u8],
        Op::Pow => seq![112u8, 111u8, 119u8],
        Op::Neg => seq![110u8, 101u8, 103u8],
        Op::Exp => seq![101u8, 120u8, 112u8],
        Op::Exp2 => seq![101u8, 120u8, 112u8, 50u8],
        Op::Log => seq![108u8, 111u8, 103u8],
        Op::Sqrt => seq![115u8, 113u8, 114u8, 116u8],
        Op::Cbrt => seq![99u8, 98u8, 114u8, 116u8],
        Op::Fabs => seq![102u8, 97u8, 98u8, 115u8],
        Op::Sin => seq![115u8, 105u8, 110u8],
        Op::Cos => seq![99u8, 111u8, 115u8],
        Op::Tan => seq![116u8, 97u8, 110u8],
        Op::Asin => seq![97u8, 115u8, 105u8, 110u8],
        Op::Acos => seq![97u8, 99u8, 111u8, 115u8],
        Op::Atan => seq![97u8, 116u8, 97u8, 110u8],
        Op::Atan2 => seq![97u8, 116u8, 97u8, 110u8, 50u8],
        Op::Sinh => seq![115u8, 105u8, 110u8, 104u8],
        Op::Cosh => seq![99u8, 111u8, 115u8, 104u8],
        Op::Tanh => seq![116u8, 97u8, 110u8, 104u8],
        Op::Asinh => seq![97u8, 115u8, 105u8, 110u8, 104u8],
        Op::Acosh => seq![97u8, 99u8, 111u8, 115u8, 104u8],
        Op::Atanh => seq![97u8, 116u8, 97u8, 110u8, 104u8],
        Op::Fma => seq![102u8, 109u8, 97u8],
        Op::Log1p => seq![108u8, 111u8, 103u8, 49u8, 112u8],
        Op::Log10 => seq![108u8, 111u8, 103u8, 49u8, 48u8],
        Op::Log2 => seq![108u8, 111u8, 103u8, 50u8],
        Op::Expm1 => seq![101u8, 120u8, 112u8, 109u8, 49u8],
        Op::Hypot => seq![104u8, 121u8, 112u8, 111u8, 116u8],
        Op::PositAdd => seq![43u8, 46u8, 112u8, 49u8, 54u8],
        Op::PositSub => seq![45u8, 46u8, 112u8, 49u8, 54u8],
        Op::PositMul => seq![42u8, 46u8, 112u8, 49u8, 54u8],
        Op::PositDiv => seq![47u8, 46u8, 112u8, 49u8, 54u8],
        Op::RealToPosit => seq![114u8, 101u8, 97u8, 108u8, 45u8, 62u8, 112u8, 111u8, 115u8, 105u8, 116u8],
    }
}

pub fn op_token_bytes(op: Op) -> (r: Vec<u8>)
    ensures
        r@ == op_token(op),
{
    match op {
        Op::True => vec![84u8, 82u8, 85u8, 69u8],
        Op::False => vec![70u8, 65u8, 76u8, 83u8, 69u8],
        Op::E => vec![69u8],
        Op::Log2E => vec![76u8, 79u8, 71u8, 50u8, 69u8],
        Op::Log10E => vec![76u8, 79u8, 71u8, 49u8, 48u8, 69u8],
        Op::Ln2 => vec![76u8, 78u8, 50u8],
        Op::Ln10 => vec![76u8, 78u8, 49u8, 48u8],
        Op::Pi => vec![80u8, 73u8],
        Op::Pi2 => vec![80u8, 73u8, 95u8, 50u8],
        Op::Pi4 => vec![80u8, 73u8, 95u8, 52u8],
        Op::Pi1Alt => vec![49u8, 95u8, 80u8, 73u8],
        Op::Pi2Alt => vec![50u8, 95u8, 80u8, 73u8],
        Op::Sqrtpi2 => vec![50u8, 95u8, 83u8, 81u8, 82u8, 84u8, 80u8, 73u8],
        Op::Sqrt2 => vec![83u8, 81u8, 82u8, 84u8, 50u8],
        Op::Sqrt1_2 => vec![83u8, 81u8, 82u8, 84u8, 49u8, 95u8, 50u8],
        Op::Infinity => vec![73u8, 78u8, 70u8, 73u8, 78u8, 73u8, 84u8, 89u8],
        Op::Nan => vec![78u8, 65u8, 78u8],
        Op::If => vec![105u8, 102u8],
        Op::Not => vec![110u8, 111u8, 116u8],
        Op::And => vec![97u8, 110u8, 100u8],
        Op::Or => vec![111u8, 114u8],
        Op::Less => vec![60u8],
        Op::Greater => vec![62u8],
        Op::LessEq => vec![60u8, 61u8],
        Op::GreaterEq => vec![62u8, 61u8],
        Op::Re => vec![114u8, 101u8],
        Op::Im => vec![105u8, 109u8],
        Op::Complex => vec![99u8, 111u8, 109u8, 112u8, 108u8, 101u8, 120u8],
        Op::Conj => vec![99u8, 111u8, 110u8, 106u8],
        Op::Addc => vec![43u8, 46u8, 99u8],
        Op::Subc => vec![45u8, 46u8, 99u8],
        Op::Negc => vec![110u8, 101u8, 103u8, 46u8, 99u8],
        Op::Divc => vec![47u8, 46u8, 99u8],
        Op::Mulc => vec![42u8, 46u8, 99u8],
        Op::Erf => vec![101u8, 114u8, 102u8],
        Op::Erfc => vec![101u8, 114u8, 102u8, 99u8],
        Op::Tgamma => vec![116u8, 103u8, 97u8, 109u8, 109u8, 97u8],
        Op::Lgamma => vec![108u8, 103u8, 97u8, 109u8, 109u8, 97u8],
        Op::Ceil => vec![99u8, 101u8, 105u8, 108u8],
        Op::Floor => vec![102u8, 108u8, 111u8, 111u8, 114u8],
        Op::Fmod => vec![102u8, 109u8, 111u8, 100u8],
        Op::Remainder => vec![114u8, 101u8, 109u8, 97u8, 105u8, 110u8, 100u8, 101u8, 114u8],
        Op::Fmax => vec![102u8, 109u8, 97u8, 120u8],
        Op::Fmin => vec![102u8, 109u8, 105u8, 110u8],
        Op::Fdim => vec![102u8, 100u8, 105u8, 109u8],
        Op::Copysign => vec![99u8, 111u8, 112u8, 121u8, 115u8, 105u8, 103u8, 110u8],
        Op::Trunc => vec![116u8, 114u8, 117u8, 110u8, 99u8],
        Op::Round => vec![114u8, 111u8, 117u8, 110u8, 100u8],
        Op::NearbyInt => vec![110u8, 101u8, 97u8, 114u8, 98u8, 121u8, 105u8, 110u8, 116u8],
        Op::Add => vec![43u8],
        Op::Sub => vec![45u8],
        Op::Mul => vec![42u8],
        Op::Div => vec![47u8],
        Op::Pow => vec![112u8, 111u8, 119u8],
        Op::Neg => vec![110u8, 101u8, 103u8],
        Op::Exp => vec![101u8, 120u8, 112u8],
        Op::Exp2 => vec![101u8, 120u8, 112u8, 50u8],
        Op::Log => vec![108u8, 111u8, 103u8],
        Op::Sqrt => vec![115u8, 113u8, 114u8, 116u8],
        Op::Cbrt => vec![99u8, 98u8, 114u8, 116u8],
        Op::Fabs => vec![102u8, 97u8, 98u8, 115u8],
        Op::Sin => vec![115u8, 105u8, 110u8],
        Op::Cos => vec![99u8, 111u8, 115u8],
        Op::Tan => vec![116u8, 97u8, 110u8],
        Op::Asin => vec![97u8, 115u8, 105u8, 110u8],
        Op::Acos => vec![97u8, 99u8, 111u8, 115u8],
        Op::Atan => vec![97u8, 116u8, 97u8, 110u8],
        Op::Atan2 => vec![97u8, 116u8, 97u8, 110u8, 50u8],
        Op::Sinh => vec![115u8, 105u8, 110u8, 104u8],
        Op::Cosh => vec![99u8, 111u8, 115u8, 104u8],
        Op::Tanh => vec![116u8, 97u8, 110u8, 104u8],
        Op::Asinh => vec![97u8, 115u8, 105u8, 110u8, 104u8],
        Op::Acosh => vec![97u8, 99u8, 111u8, 115u8, 104u8],
        Op::Atanh => vec![97u8, 116u8, 97u8, 110u8, 104u8],
        Op::Fma => vec![102u8, 109u8, 97u8],
        Op::Log1p => vec![108u8, 111u8, 103u8, 49u8, 112u8],
        Op::Log10 => vec![108u8, 111u8, 103u8, 49u8, 48u8],
        Op::Log2 => vec![108u8, 111u8, 103u8, 50u8],
        Op::Expm1 => vec![101u8, 120u8, 112u8, 109u8, 49u8],
        Op::Hypot => vec![104u8, 121u8, 112u8, 111u8, 116u8],
        Op::PositAdd => vec![43u8, 46u8, 112u8, 49u8, 54u8],
        Op::PositSub => vec![45u8, 46u8, 112u8, 49u8, 54u8],
        Op::PositMul => vec![42u8, 46u8, 112u8, 49u8, 54u8],
        Op::PositDiv => vec![47u8, 46u8, 112u8, 49u8, 54u8],
        Op::RealToPosit => vec![114u8, 101u8, 97u8, 108u8, 45u8, 62u8, 112u8, 111u8, 115u8, 105u8, 116u8],
    }
}

/// Which operator, if any, a token denotes. Grouped by token length so a
/// lookup only compares tokens of the right length.
pub open spec fn token_op(t: Seq<u8>) -> Option<Op> {

    if t.len() == 1 {
        if t == seq![69u8] {
            Some(Op::E)
        } else if t == seq![60u8] {
            Some(Op::Less)
        } else if t == seq![62u8] {
            Some(Op::Greater)
        } else if t == seq![43u8] {
            Some(Op::Add)
        } else if t == seq![45u8] {
            Some(Op::Sub)
        } else if t == seq![42u8] {
            Some(Op::Mul)
        } else if t == seq![47u8] {
            Some(Op::Div)
        } else {
            None
        }
    } else if t.len() == 2 {
        if t == seq![80u8, 73u8] {
            Some(Op::Pi)
        } else if t == seq![105u8, 102u8] {
            Some(Op::If)
        } else if t == seq![111u8, 114u8] {
            Some(Op::Or)
        } else if t == seq![60u8, 61u8] {
            Some(Op::LessEq)
        } else if t == seq![62u8, 61u8] {
            Some(Op::GreaterEq)
        } else if t == seq![114u8, 101u8] {
            Some(Op::Re)
        } else if t == seq![105u8, 109u8] {
            Some(Op::Im)
        } else {
            None
        }
    } else if t.len() == 3 {
        if t == seq![76u8, 78u8, 50u8] {
            Some(Op::Ln2)
        } else if t == seq![78u8, 65u8, 78u8] {
            Some(Op::Nan)
        } else if t == seq![110u8, 111u8, 116u8] {
            Some(Op::Not)
        } else if t == seq![97u8, 110u8, 100u8] {
            Some(Op::And)
        } else if t == seq![43u8, 46u8, 99u8] {
            Some(Op::Addc)
        } else if t == seq![45u8, 46u8, 99u8] {
            Some(Op::Subc)
        } else if t == seq![47u8, 46u8, 99u8] {
            Some(Op::Divc)
        } else if t == seq![42u8, 46u8, 99u8] {
            Some(Op::Mulc)
        } else if t == seq![101u8, 114u8, 102u8] {
            Some(Op::Erf)
        } else if t == seq![112u8, 111u8, 119u8] {
            Some(Op::Pow)
        } else if t == seq![110u8, 101u8, 103u8] {
            Some(Op::Neg)
        } else if t == seq![101u8, 120u8, 112u8] {
            Some(Op::Exp)
        } else if t == seq![108u8, 111u8, 103u8] {
            Some(Op::Log)
        } else if t == seq![115u8, 105u8, 110u8] {
            Some(Op::Sin)
        } else if t == seq![99u8, 111u8, 115u8] {
            Some(Op::Cos)
        } else if t == seq![116u8, 97u8, 110u8] {
            Some(Op::Tan)
        } else if t == seq![102u8, 109u8, 97u8] {
            Some(Op::Fma)
        } else {
            None
        }
    } else if t.len() == 4 {
        if t == seq![84u8, 82u8, 85u8, 69u8] {
            Some(Op::True)
        } else if t == seq![76u8, 78u8, 49u8, 48u8] {
            Some(Op::Ln10)
        } else if t == seq![80u8, 73u8, 95u8, 50u8] {
            Some(Op::Pi2)
        } else if t == seq![80u8, 73u8, 95u8, 52u8] {
            Some(Op::Pi4)
        } else if t == seq![49u8, 95u8, 80u8, 73u8] {
            Some(Op::Pi1Alt)
        } else if t == seq![50u8, 95u8, 80u8, 73u8] {
            Some(Op::Pi2Alt)
        } else if t == seq![99u8, 111u8, 110u8, 106u8] {
            Some(Op::Conj)
        } else if t == seq![101u8, 114u8, 102u8, 99u8] {
            Some(Op::Erfc)
        } else if t == seq![99u8, 101u8, 105u8, 108u8] {
            Some(Op::Ceil)
        } else if t == seq![102u8, 109u8, 111u8, 100u8] {
            Some(Op::Fmod)
        } else if t == seq![102u8, 109u8, 97u8, 120u8] {
            Some(Op::Fmax)
        } else if t == seq![102u8, 109u8, 105u8, 110u8] {
            Some(Op::Fmin)
        } else if t == seq![102u8, 100u8, 105u8, 109u8] {
            Some(Op::Fdim)
        } else if t == seq![101u8, 120u8, 112u8, 50u8] {
            Some(Op::Exp2)
        } else if t == seq![115u8, 113u8, 114u8, 116u8] {
            Some(Op::Sqrt)
        } else if t == seq![99u8, 98u8, 114u8, 116u8] {
            Some(Op::Cbrt)
        } else if t == seq![102u8, 97u8, 98u8, 115u8] {
            Some(Op::Fabs)
        } else if t == seq![97u8, 115u8, 105u8, 110u8] {
            Some(Op::Asin)
        } else if t == seq![97u8, 99u8, 111u8, 115u8] {
            Some(Op::Acos)
        } else if t == seq![97u8, 116u8, 97u8, 110u8] {
            Some(Op::Atan)
        } else if t == seq![115u8, 105u8, 110u8, 104u8] {
            Some(Op::Sinh)
        } else if t == seq![99u8, 111u8, 115u8, 104u8] {
            Some(Op::Cosh)
        } else if t == seq![116u8, 97u8, 110u8, 104u8] {
            Some(Op::Tanh)
        } else if t == seq![108u8, 111u8, 103u8, 50u8] {
            Some(Op::Log2)
        } else {
            None
        }
    } else if t.len() == 5 {
        if t == seq![70u8, 65u8, 76u8, 83u8, 69u8] {
            Some(Op::False)
        } else if t == seq![76u8, 79u8, 71u8, 50u8, 69u8] {
            Some(Op::Log2E)
        } else if t == seq![83u8, 81u8, 82u8, 84u8, 50u8] {
            Some(Op::Sqrt2)
        } else if t == seq![110u8, 101u8, 103u8, 46u8, 99u8] {
            Some(Op::Negc)
        } else if t == seq![102u8, 108u8, 111u8, 111u8, 114u8] {
            Some(Op::Floor)
        } else if t == seq![116u8, 114u8, 117u8, 110u8, 99u8] {
            Some(Op::Trunc)
        } else if t == seq![114u8, 111u8, 117u8, 110u8, 100u8] {
            Some(Op::Round)
        } else if t == seq![97u8, 116u8, 97u8, 110u8, 50u8] {
            Some(Op::Atan2)
        } else if t == seq![97u8, 115u8, 105u8, 110u8, 104u8] {
            Some(Op::Asinh)
        } else if t == seq![97u8, 99u8, 111u8, 115u8, 104u8] {
            Some(Op::Acosh)
        } else if t == seq![97u8, 116u8, 97u8, 110u8, 104u8] {
            Some(Op::Atanh)
        } else if t == seq![108u8, 111u8, 103u8, 49u8, 112u8] {
            Some(Op::Log1p)
        } else if t == seq![108u8, 111u8, 103u8, 49u8, 48u8] {
            Some(Op::Log10)
        } else if t == seq![101u8, 120u8, 112u8, 109u8, 49u8] {
            Some(Op::Expm1)
        } else if t == seq![104u8, 121u8, 112u8, 111u8, 116u8] {
            Some(Op::Hypot)
        } else if t == seq![43u8, 46u8, 112u8, 49u8, 54u8] {
            Some(Op::PositAdd)
        } else if t == seq![45u8, 46u8, 112u8, 49u8, 54u8] {
            Some(Op::PositSub)
        } else if t == seq![42u8, 46u8, 112u8, 49u8, 54u8] {
            Some(Op::PositMul)
        } else if t == seq![47u8, 46u8, 112u8, 49u8, 54u8] {
            Some(Op::PositDiv)
        } else {
            None
        }
    } else if t.len() == 6 {
        if t == seq![76u8, 79u8, 71u8, 49u8, 48u8, 69u8] {
            Some(Op::Log10E)
        } else if t == seq![116u8, 103u8, 97u8, 109u8, 109u8, 97u8] {
            Some(Op::Tgamma)
        } else if t == seq![108u8, 103u8, 97u8, 109u8, 109u8, 97u8] {
            Some(Op::Lgamma)
        } else {
            None
        }
    } else if t.len() == 7 {
        if t == seq![83u8, 81u8, 82u8, 84u8, 49u8, 95u8, 50u8] {
            Some(Op::Sqrt1_2)
        } else if t == seq![99u8, 111u8, 109u8, 112u8, 108u8, 101u8, 120u8] {
            Some(Op::Complex)
        } else {
            None
        }
    } else if t.len() == 8 {
        if t == seq![50u8, 95u8, 83u8, 81u8, 82u8, 84u8, 80u8, 73u8] {
            Some(Op::Sqrtpi2)
        } else if t == seq![73u8, 78u8, 70u8, 73u8, 78u8, 73u8, 84u8, 89u8] {
            Some(Op::Infinity)
        } else if t == seq![99u8, 111u8, 112u8, 121u8, 115u8, 105u8, 103u8, 110u8] {
            Some(Op::Copysign)
        } else {
            None
        }
    } else if t.len() == 9 {
        if t == seq![114u8, 101u8, 109u8, 97u8, 105u8, 110u8, 100u8, 101u8, 114u8] {
            Some(Op::Remainder)
        } else if t == seq![110u8, 101u8, 97u8, 114u8, 98u8, 121u8, 105u8, 110u8, 116u8] {
            Some(Op::NearbyInt)
        } else {
            None
        }
    } else if t.len() == 11 {
        if t == seq![114u8, 101u8, 97u8, 108u8, 45u8, 62u8, 112u8, 111u8, 115u8, 105u8, 116u8] {
            Some(Op::RealToPosit)
        } else {
            None
        }
    } else {
        None
    }
}

pub fn lookup_op(t: &Vec<u8>) -> (r: Option<Op>)
    ensures
        r == token_op(t@),
{

    if t.len() == 1 {
        if t[0] == 69 {
            proof {
                assert(t@ =~= seq![69u8]);
            }
            Some(Op::E)
        } else if t[0] == 60 {
            proof {
                assert(t@ =~= seq![60u8]);
            }
            Some(Op::Less)
        } else if t[0] == 62 {
            proof {
                assert(t@ =~= seq![62u8]);
            }
            Some(Op::Greater)
        } else if t[0] == 43 {
            proof {
                assert(t@ =~= seq![43u8]);
            }
            Some(Op::Add)
        } else if t[0] == 45 {
            proof {
                assert(t@ =~= seq![45u8]);
            }
            Some(Op::Sub)
        } else if t[0] == 42 {
            proof {
                assert(t@ =~= seq![42u8]);
            }
            Some(Op::Mul)
        } else if t[0] == 47 {
            proof {
                assert(t@ =~= seq![47u8]);
            }
            Some(Op::Div)
        } else {
            None
        }
    } else if t.len() == 2 {
        if t[0] == 80 && t[1] == 73 {
            proof {
                assert(t@ =~= seq![80u8, 73u8]);
            }
            Some(Op::Pi)
        } else if t[0] == 105 && t[1] == 102 {
            proof {
                assert(t@ =~= seq![105u8, 102u8]);
            }
            Some(Op::If)
        } else if t[0] == 111 && t[1] == 114 {
            proof {
                assert(t@ =~= seq![111u8, 114u8]);
            }
            Some(Op::Or)
        } else if t[0] == 60 && t[1] == 61 {
            proof {
                assert(t@ =~= seq![60u8, 61u8]);
            }
            Some(Op::LessEq)
        } else if t[0] == 62 && t[1] == 61 {
            proof {
                assert(t@ =~= seq![62u8, 61u8]);
            }
            Some(Op::GreaterEq)
        } else if t[0] == 114 && t[1] == 101 {
            proof {
                assert(t@ =~= seq![114u8, 101u8]);
            }
            Some(Op::Re)
        } else if t[0] == 105 && t[1] == 109 {
            proof {
                assert(t@ =~= seq![105u8, 109u8]);
            }
            Some(Op::Im)
        } else {
            None
        }
    } else if t.len() == 3 {
        if t[0] == 76 && t[1] == 78 && t[2] == 50 {
            proof {
                assert(t@ =~= seq![76u8, 78u8, 50u8]);
            }
            Some(Op::Ln2)
        } else if t[0] == 78 && t[1] == 65 && t[2] == 78 {
            proof {
                assert(t@ =~= seq![78u8, 65u8, 78u8]);
            }
            Some(Op::Nan)
        } else if t[0] == 110 && t[1] == 111 && t[2] == 116 {
            proof {
                assert(t@ =~= seq![110u8, 111u8, 116u8]);
            }
            Some(Op::Not)
        } else if t[0] == 97 && t[1] == 110 && t[2] == 100 {
            proof {
                assert(t@ =~= seq![97u8, 110u8, 100u8]);
            }
            Some(Op::And)
        } else if t[0] == 43 && t[1] == 46 && t[2] == 99 {
            proof {
                assert(t@ =~= seq![43u8, 46u8, 99u8]);
            }
            Some(Op::Addc)
        } else if t[0] == 45 && t[1] == 46 && t[2] == 99 {
            proof {
                assert(t@ =~= seq![45u8, 46u8, 99u8]);
            }
            Some(Op::Subc)
        } else if t[0] == 47 && t[1] == 46 && t[2] == 99 {
            proof {
                assert(t@ =~= seq![47u8, 46u8, 99u8]);
            }
            Some(Op::Divc)
        } else if t[0] == 42 && t[1] == 46 && t[2] == 99 {
            proof {
                assert(t@ =~= seq![42u8, 46u8, 99u8]);
            }
            Some(Op::Mulc)
        } else if t[0] == 101 && t[1] == 114 && t[2] == 102 {
            proof {
                assert(t@ =~= seq![101u8, 114u8, 102u8]);
            }
            Some(Op::Erf)
        } else if t[0] == 112 && t[1] == 111 && t[2] == 119 {
            proof {
                assert(t@ =~= seq![112u8, 111u8, 119u8]);
            }
            Some(Op::Pow)
        } else if t[0] == 110 && t[1] == 101 && t[2] == 103 {
            proof {
                assert(t@ =~= seq![110u8, 101u8, 103u8]);
            }
            Some(Op::Neg)
        } else if t[0] == 101 && t[1] == 120 && t[2] == 112 {
            proof {
                assert(t@ =~= seq![101u8, 120u8, 112u8]);
            }
            Some(Op::Exp)
        } else if t[0] == 108 && t[1] == 111 && t[2] == 103 {
            proof {
                assert(t@ =~= seq![108u8, 111u8, 103u8]);
            }
            Some(Op::Log)
        } else if t[0] == 115 && t[1] == 105 && t[2] == 110 {
            proof {
                assert(t@ =~= seq![115u8, 105u8, 110u8]);
            }
            Some(Op::Sin)
        } else if t[0] == 99 && t[1] == 111 && t[2] == 115 {
            proof {
                assert(t@ =~= seq![99u8, 111u8, 115u8]);
            }
            Some(Op::Cos)
        } else if t[0] == 116 && t[1] == 97 && t[2] == 110 {
            proof {
                assert(t@ =~= seq![116u8, 97u8, 110u8]);
            }
            Some(Op::Tan)
        } else if t[0] == 102 && t[1] == 109 && t[2] == 97 {
            proof {
                assert(t@ =~= seq![102u8, 109u8, 97u8]);
            }
            Some(Op::Fma)
        } else {
            None
        }
    } else if t.len() == 4 {
        if t[0] == 84 && t[1] == 82 && t[2] == 85 && t[3] == 69 {
            proof {
                assert(t@ =~= seq![84u8, 82u8, 85u8, 69u8]);
            }
            Some(Op::True)
        } else if t[0] == 76 && t[1] == 78 && t[2] == 49 && t[3] == 48 {
            proof {
                assert(t@ =~= seq![76u8, 78u8, 49u8, 48u8]);
            }
            Some(Op::Ln10)
        } else if t[0] == 80 && t[1] == 73 && t[2] == 95 && t[3] == 50 {
            proof {
                assert(t@ =~= seq![80u8, 73u8, 95u8, 50u8]);
            }
            Some(Op::Pi2)
        } else if t[0] == 80 && t[1] == 73 && t[2] == 95 && t[3] == 52 {
            proof {
                assert(t@ =~= seq![80u8, 73u8, 95u8, 52u8]);
            }
            Some(Op::Pi4)
        } else if t[0] == 49 && t[1] == 95 && t[2] == 80 && t[3] == 73 {
            proof {
                assert(t@ =~= seq![49u8, 95u8, 80u8, 73u8]);
            }
            Some(Op::Pi1Alt)
        } else if t[0] == 50 && t[1] == 95 && t[2] == 80 && t[3] == 73 {
            proof {
                assert(t@ =~= seq![50u8, 95u8, 80u8, 73u8]);
            }
            Some(Op::Pi2Alt)
        } else if t[0] == 99 && t[1] == 111 && t[2] == 110 && t[3] == 106 {
            proof {
                assert(t@ =~= seq![99u8, 111u8, 110u8, 106u8]);
            }
            Some(Op::Conj)
        } else if t[0] == 101 && t[1] == 114 && t[2] == 102 && t[3] == 99 {
            proof {
                assert(t@ =~= seq![101u8, 114u8, 102u8, 99u8]);
            }
            Some(Op::Erfc)
        } else if t[0] == 99 && t[1] == 101 && t[2] == 105 && t[3] == 108 {
            proof {
                assert(t@ =~= seq![99u8, 101u8, 105u8, 108u8]);
            }
            Some(Op::Ceil)
        } else if t[0] == 102 && t[1] == 109 && t[2] == 111 && t[3] == 100 {
            proof {
                assert(t@ =~= seq![102u8, 109u8, 111u8, 100u8]);
            }
            Some(Op::Fmod)
        } else if t[0] == 102 && t[1] == 109 && t[2] == 97 && t[3] == 120 {
            proof {
                assert(t@ =~= seq![102u8, 109u8, 97u8, 120u8]);
            }
            Some(Op::Fmax)
        } else if t[0] == 102 && t[1] == 109 && t[2] == 105 && t[3] == 110 {
            proof {
                assert(t@ =~= seq![102u8, 109u8, 105u8, 110u8]);
            }
            Some(Op::Fmin)
        } else if t[0] == 102 && t[1] == 100 && t[2] == 105 && t[3] == 109 {
            proof {
                assert(t@ =~= seq![102u8, 100u8, 105u8, 109u8]);
            }
            Some(Op::Fdim)
        } else if t[0] == 101 && t[1] == 120 && t[2] == 112 && t[3] == 50 {
            proof {
                assert(t@ =~= seq![101u8, 120u8, 112u8, 50u8]);
            }
            Some(Op::Exp2)
        } else if t[0] == 115 && t[1] == 113 && t[2] == 114 && t[3] == 116 {
            proof {
                assert(t@ =~= seq![115u8, 113u8, 114u8, 116u8]);
            }
            Some(Op::Sqrt)
        } else if t[0] == 99 && t[1] == 98 && t[2] == 114 && t[3] == 116 {
            proof {
                assert(t@ =~= seq![99u8, 98u8, 114u8, 116u8]);
            }
            Some(Op::Cbrt)
        } else if t[0] == 102 && t[1] == 97 && t[2] == 98 && t[3] == 115 {
            proof {
                assert(t@ =~= seq![102u8, 97u8, 98u8, 115u8]);
            }
            Some(Op::Fabs)
        } else if t[0] == 97 && t[1] == 115 && t[2] == 105 && t[3] == 110 {
            proof {
                assert(t@ =~= seq![97u8, 115u8, 105u8, 110u8]);
            }
            Some(Op::Asin)
        } else if t[0] == 97 && t[1] == 99 && t[2] == 111 && t[3] == 115 {
            proof {
                assert(t@ =~= seq![97u8, 99u8, 111u8, 115u8]);
            }
            Some(Op::Acos)
        } else if t[0] == 97 && t[1] == 116 && t[2] == 97 && t[3] == 110 {
            proof {
                assert(t@ =~= seq![97u8, 116u8, 97u8, 110u8]);
            }
            Some(Op::Atan)
        } else if t[0] == 115 && t[1] == 105 && t[2] == 110 && t[3] == 104 {
            proof {
                assert(t@ =~= seq![115u8, 105u8, 110u8, 104u8]);
            }
            Some(Op::Sinh)
        } else if t[0] == 99 && t[1] == 111 && t[2] == 115 && t[3] == 104 {
            proof {
                assert(t@ =~= seq![99u8, 111u8, 115u8, 104u8]);
            }
            Some(Op::Cosh)
        } else if t[0] == 116 && t[1] == 97 && t[2] == 110 && t[3] == 104 {
            proof {
                assert(t@ =~= seq![116u8, 97u8, 110u8, 104u8]);
            }
            Some(Op::Tanh)
        } else if t[0] == 108 && t[1] == 111 && t[2] == 103 && t[3] == 50 {
            proof {
                assert(t@ =~= seq![108u8, 111u8, 103u8, 50u8]);
            }
            Some(Op::Log2)
        } else {
            None
        }
    } else if t.len() == 5 {
        if t[0] == 70 && t[1] == 65 && t[2] == 76 && t[3] == 83 && t[4] == 69 {
            proof {
                assert(t@ =~= seq![70u8, 65u8, 76u8, 83u8, 69u8]);
            }
            Some(Op::False)
        } else if t[0] == 76 && t[1] == 79 && t[2] == 71 && t[3] == 50 && t[4] == 69 {
            proof {
                assert(t@ =~= seq![76u8, 79u8, 71u8, 50u8, 69u8]);
            }
            Some(Op::Log2E)
        } else if t[0] == 83 && t[1] == 81 && t[2] == 82 && t[3] == 84 && t[4] == 50 {
            proof {
                assert(t@ =~= seq![83u8, 81u8, 82u8, 84u8, 50u8]);
            }
            Some(Op::Sqrt2)
        } else if t[0] == 110 && t[1] == 101 && t[2] == 103 && t[3] == 46 && t[4] == 99 {
            proof {
                assert(t@ =~= seq![110u8, 101u8, 103u8, 46u8, 99u8]);
            }
            Some(Op::Negc)
        } else if t[0] == 102 && t[1] == 108 && t[2] == 111 && t[3] == 111 && t[4] == 114 {
            proof {
                assert(t@ =~= seq![102u8, 108u8, 111u8, 111u8, 114u8]);
            }
            Some(Op::Floor)
        } else if t[0] == 116 && t[1] == 114 && t[2] == 117 && t[3] == 110 && t[4] == 99 {
            proof {
                assert(t@ =~= seq![116u8, 114u8, 117u8, 110u8, 99u8]);
            }
            Some(Op::Trunc)
        } else if t[0] == 114 && t[1] == 111 && t[2] == 117 && t[3] == 110 && t[4] == 100 {
            proof {
                assert(t@ =~= seq![114u8, 111u8, 117u8, 110u8, 100u8]);
            }
            Some(Op::Round)
        } else if t[0] == 97 && t[1] == 116 && t[2] == 97 && t[3] == 110 && t[4] == 50 {
            proof {
                assert(t@ =~= seq![97u8, 116u8, 97u8, 110u8, 50u8]);
            }
            Some(Op::Atan2)
        } else if t[0] == 97 && t[1] == 115 && t[2] == 105 && t[3] == 110 && t[4] == 104 {
            proof {
                assert(t@ =~= seq![97u8, 115u8, 105u8, 110u8, 104u8]);
            }
            Some(Op::Asinh)
        } else if t[0] == 97 && t[1] == 99 && t[2] == 111 && t[3] == 115 && t[4] == 104 {
            proof {
                assert(t@ =~= seq![97u8, 99u8, 111u8, 115u8, 104u8]);
            }
            Some(Op::Acosh)
        } else if t[0] == 97 && t[1] == 116 && t[2] == 97 && t[3] == 110 && t[4] == 104 {
            proof {
                assert(t@ =~= seq![97u8, 116u8, 97u8, 110u8, 104u8]);
            }
            Some(Op::Atanh)
        } else if t[0] == 108 && t[1] == 111 && t[2] == 103 && t[3] == 49 && t[4] == 112 {
            proof {
                assert(t@ =~= seq![108u8, 111u8, 103u8, 49u8, 112u8]);
            }
            Some(Op::Log1p)
        } else if t[0] == 108 && t[1] == 111 && t[2] == 103 && t[3] == 49 && t[4] == 48 {
            proof {
                assert(t@ =~= seq![108u8, 111u8, 103u8, 49u8, 48u8]);
            }
            Some(Op::Log10)
        } else if t[0] == 101 && t[1] == 120 && t[2] == 112 && t[3] == 109 && t[4] == 49 {
            proof {
                assert(t@ =~= seq![101u8, 120u8, 112u8, 109u8, 49u8]);
            }
            Some(Op::Expm1)
        } else if t[0] == 104 && t[1] == 121 && t[2] == 112 && t[3] == 111 && t[4] == 116 {
            proof {
                assert(t@ =~= seq![104u8, 121u8, 112u8, 111u8, 116u8]);
            }
            Some(Op::Hypot)
        } else if t[0] == 43 && t[1] == 46 && t[2] == 112 && t[3] == 49 && t[4] == 54 {
            proof {
                assert(t@ =~= seq![43u8, 46u8, 112u8, 49u8, 54u8]);
            }
            Some(Op::PositAdd)
        } else if t[0] == 45 && t[1] == 46 && t[2] == 112 && t[3] == 49 && t[4] == 54 {
            proof {
                assert(t@ =~= seq![45u8, 46u8, 112u8, 49u8, 54u8]);
            }
            Some(Op::PositSub)
        } else if t[0] == 42 && t[1] == 46 && t[2] == 112 && t[3] == 49 && t[4] == 54 {
            proof {
                assert(t@ =~= seq![42u8, 46u8, 112u8, 49u8, 54u8]);
            }
            Some(Op::PositMul)
        } else if t[0] == 47 && t[1] == 46 && t[2] == 112 && t[3] == 49 && t[4] == 54 {
            proof {
                assert(t@ =~= seq![47u8, 46u8, 112u8, 49u8, 54u8]);
            }
            Some(Op::PositDiv)
        } else {
            None
        }
    } else if t.len() == 6 {
        if t[0] == 76 && t[1] == 79 && t[2] == 71 && t[3] == 49 && t[4] == 48 && t[5] == 69 {
            proof {
                assert(t@ =~= seq![76u8, 79u8, 71u8, 49u8, 48u8, 69u8]);
            }
            Some(Op::Log10E)
        } else if t[0] == 116 && t[1] == 103 && t[2] == 97 && t[3] == 109 && t[4] == 109 && t[5] == 97 {
            proof {
                assert(t@ =~= seq![116u8, 103u8, 97u8, 109u8, 109u8, 97u8]);
            }
            Some(Op::Tgamma)
        } else if t[0] == 108 && t[1] == 103 && t[2] == 97 && t[3] == 109 && t[4] == 109 && t[5] == 97 {
            proof {
                assert(t@ =~= seq![108u8, 103u8, 97u8, 109u8, 109u8, 97u8]);
            }
            Some(Op::Lgamma)
        } else {
            None
        }
    } else if t.len() == 7 {
        if t[0] == 83 && t[1] == 81 && t[2] == 82 && t[3] == 84 && t[4] == 49 && t[5] == 95 && t[6] == 50 {
            proof {
                assert(t@ =~= seq![83u8, 81u8, 82u8, 84u8, 49u8, 95u8, 50u8]);
            }
            Some(Op::Sqrt1_2)
        } else if t[0] == 99 && t[1] == 111 && t[2] == 109 && t[3] == 112 && t[4] == 108 && t[5] == 101 && t[6] == 120 {
            proof {
                assert(t@ =~= seq![99u8, 111u8, 109u8, 112u8, 108u8, 101u8, 120u8]);
            }
            Some(Op::Complex)
        } else {
            None
        }
    } else if t.len() == 8 {
        if t[0] == 50 && t[1] == 95 && t[2] == 83 && t[3] == 81 && t[4] == 82 && t[5] == 84 && t[6] == 80 && t[7] == 73 {
            proof {
                assert(t@ =~= seq![50u8, 95u8, 83u8, 81u8, 82u8, 84u8, 80u8, 73u8]);
            }
            Some(Op::Sqrtpi2)
        } else if t[0] == 73 && t[1] == 78 && t[2] == 70 && t[3] == 73 && t[4] == 78 && t[5] == 73 && t[6] == 84 && t[7] == 89 {
            proof {
                assert(t@ =~= seq![73u8, 78u8, 70u8, 73u8, 78u8, 73u8, 84u8, 89u8]);
            }
            Some(Op::Infinity)
        } else if t[0] == 99 && t[1] == 111 && t[2] == 112 && t[3] == 121 && t[4] == 115 && t[5] == 105 && t[6] == 103 && t[7] == 110 {
            proof {
                assert(t@ =~= seq![99u8, 111u8, 112u8, 121u8, 115u8, 105u8, 103u8, 110u8]);
            }
            Some(Op::Copysign)
        } else {
            None
        }
    } else if t.len() == 9 {
        if t[0] == 114 && t[1] == 101 && t[2] == 109 && t[3] == 97 && t[4] == 105 && t[5] == 110 && t[6] == 100 && t[7] == 101 && t[8] == 114 {
            proof {
                assert(t@ =~= seq![114u8, 101u8, 109u8, 97u8, 105u8, 110u8, 100u8, 101u8, 114u8]);
            }
            Some(Op::Remainder)
        } else if t[0] == 110 && t[1] == 101 && t[2] == 97 && t[3] == 114 && t[4] == 98 && t[5] == 121 && t[6] == 105 && t[7] == 110 && t[8] == 116 {
            proof {
                assert(t@ =~= seq![110u8, 101u8, 97u8, 114u8, 98u8, 121u8, 105u8, 110u8, 116u8]);
            }
            Some(Op::NearbyInt)
        } else {
            None
        }
    } else if t.len() == 11 {
        if t[0] == 114 && t[1] == 101 && t[2] == 97 && t[3] == 108 && t[4] == 45 && t[5] == 62 && t[6] == 112 && t[7] == 111 && t[8] == 115 && t[9] == 105 && t[10] == 116 {
            proof {
                assert(t@ =~= seq![114u8, 101u8, 97u8, 108u8, 45u8, 62u8, 112u8, 111u8, 115u8, 105u8, 116u8]);
            }
            Some(Op::RealToPosit)
        } else {
            None
        }
    } else {
        None
    }
}


// ---------------------------------------------------------------------------
// Terms
// ---------------------------------------------------------------------------

/// An expression or pattern node. The `App` variants carry exactly as many
/// children as their operator's arity; `wf` states that invariant.
pub enum Term {
    /// An exact-value leaf.
    Num(Rat),
    /// A named-variable leaf.
    Var(Vec<u8>),
    /// A pattern variable (token starting with `?`); only in patterns.
    PatVar(Vec<u8>),
    App0(Op),
    App1(Op, Box<Term>),
    App2(Op, Box<Term>, Box<Term>),
    App3(Op, Box<Term>, Box<Term>, Box<Term>),
}

/// The mathematical shape of a term: rationals and names by value.
pub enum TermV {
    Num(RatV),
    Var(Seq<u8>),
    PatVar(Seq<u8>),
    App0(Op),
    App1(Op, Box<TermV>),
    App2(Op, Box<TermV>, Box<TermV>),
    App3(Op, Box<TermV>, Box<TermV>, Box<TermV>),
}

pub open spec fn term_view(t: Term) -> TermV
    decreases t,
{
    match t {
        Term::Num(r) => TermV::Num(rat_v(r)),
        Term::Var(n) => TermV::Var(n@),
        Term::PatVar(n) => TermV::PatVar(n@),
        Term::App0(op) => TermV::App0(op),
        Term::App1(op, a) => TermV::App1(op, Box::new(term_view(*a))),
        Term::App2(op, a, b) => TermV::App2(op, Box::new(term_view(*a)), Box::new(term_view(*b))),
        Term::App3(op, a, b, c) => TermV::App3(
            op,
            Box::new(term_view(*a)),
            Box::new(term_view(*b)),
            Box::new(term_view(*c)),
        ),
    }
}

impl View for Term {
    type V = TermV;

    open spec fn view(&self) -> TermV {
        term_view(*self)
    }
}

/// Every node's child count matches its operator's arity, rationals are in
/// normal form, names are non-empty, and pattern variables start with `?`.
pub open spec fn term_wf(t: TermV) -> bool
    decreases t,
{
    match t {
        TermV::Num(v) => v.wf(),
        TermV::Var(n) => n.len() > 0,
        TermV::PatVar(n) => n.len() > 0 && n[0] == 63,
        TermV::App0(op) => arity(op) == 0,
        TermV::App1(op, a) => arity(op) == 1 && term_wf(*a),
        TermV::App2(op, a, b) => arity(op) == 2 && term_wf(*a) && term_wf(*b),
        TermV::App3(op, a, b, c) => arity(op) == 3 && term_wf(*a) && term_wf(*b) && term_wf(*c),
    }
}

/// True of plain expressions: no pattern variable anywhere.
pub open spec fn no_pat_vars(t: TermV) -> bool
    decreases t,
{
    match t {
        TermV::PatVar(_) => false,
        TermV::App1(_, a) => no_pat_vars(*a),
        TermV::App2(_, a, b) => no_pat_vars(*a) && no_pat_vars(*b),
        TermV::App3(_, a, b, c) => no_pat_vars(*a) && no_pat_vars(*b) && no_pat_vars(*c),
        _ => true,
    }
}

/// The uniform size metric: every node costs 1 plus its children.
pub open spec fn term_size(t: TermV) -> nat
    decreases t,
{
    match t {
        TermV::App1(_, a) => 1 + term_size(*a),
        TermV::App2(_, a, b) => 1 + term_size(*a) + term_size(*b),
        TermV::App3(_, a, b, c) => 1 + term_size(*a) + term_size(*b) + term_size(*c),
        _ => 1,
    }
}

/// The cost of a term under the unit-cost model: its node count.
pub fn ast_size(t: &Term) -> (r: usize)
    requires
        term_size(t@) <= usize::MAX,
    ensures
        r == term_size(t@),
    decreases *t,
{
    match t {
        Term::Num(_) => 1,
        Term::Var(_) => 1,
        Term::PatVar(_) => 1,
        Term::App0(_) => 1,
        Term::App1(_, a) => 1 + ast_size(a),
        Term::App2(_, a, b) => {
            let x = ast_size(a);
            let y = ast_size(b);
            1 + x + y
        }
        Term::App3(_, a, b, c) => {
            let x = ast_size(a);
            let y = ast_size(b);
            let z = ast_size(c);
            1 + x + y + z
        }
    }
}

// ---------------------------------------------------------------------------
// Printing
// ---------------------------------------------------------------------------

/// The textual form of a term: leaves are their own token, applications are
/// parenthesised with the operator first and children separated by spaces.
pub open spec fn print_term(t: TermV) -> Seq<u8>
    decreases t,
{
    match t {
        TermV::Num(v) => dec_ratio(v.n, v.d),
        TermV::Var(n) => n,
        TermV::PatVar(n) => n,
        TermV::App0(op) => op_token(op),
        TermV::App1(op, a) => seq![40u8] + op_token(op) + seq![32u8] + print_term(*a)
            + seq![41u8],
        TermV::App2(op, a, b) => seq![40u8] + op_token(op) + seq![32u8] + print_term(*a)
            + seq![32u8] + print_term(*b) + seq![41u8],
        TermV::App3(op, a, b, c) => seq![40u8] + op_token(op) + seq![32u8] + print_term(*a)
            + seq![32u8] + print_term(*b) + seq![32u8] + print_term(*c) + seq![41u8],
    }
}

/// Prints a term losslessly in the grammar's notation.
pub fn print_bytes(t: &Term) -> (r: Vec<u8>)
    requires
        term_wf(t@),
    ensures
        r@ == print_term(t@),
    decreases *t,
{
    match t {
        Term::Num(v) => crate::rational::rat_display(v),
        Term::Var(n) => n.clone(),
        Term::PatVar(n) => n.clone(),
        Term::App0(op) => op_token_bytes(*op),
        Term::App1(op, a) => {
            let mut r: Vec<u8> = Vec::new();
            r.push(40);
            let mut tok = op_token_bytes(*op);
            r.append(&mut tok);
            r.push(32);
            let mut ap = print_bytes(a);
            r.append(&mut ap);
            r.push(41);
            proof {
                assert(r@ =~= print_term(t@));
            }
            r
        }
        Term::App2(op, a, b) => {
            let mut r: Vec<u8> = Vec::new();
            r.push(40);
            let mut tok = op_token_bytes(*op);
            r.append(&mut tok);
            r.push(32);
            let mut ap = print_bytes(a);
            r.append(&mut ap);
            r.push(32);
            let mut bp = print_bytes(b);
            r.append(&mut bp);
            r.push(41);
            proof {
                assert(r@ =~= print_term(t@));
            }
            r
        }
        Term::App3(op, a, b, c) => {
            let mut r: Vec<u8> = Vec::new();
            r.push(40);
            let mut tok = op_token_bytes(*op);
            r.append(&mut tok);
            r.push(32);
            let mut ap = print_bytes(a);
            r.append(&mut ap);
            r.push(32);
            let mut bp = print_bytes(b);
            r.append(&mut bp);
            r.push(32);
            let mut cp = print_bytes(c);
            r.append(&mut cp);
            r.push(41);
            proof {
                assert(r@ =~= print_term(t@));
            }
            r
        }
    }
}

} // verus!
