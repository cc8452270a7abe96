//! Exact simplification of numeric expressions by constant folding and
//! equality-saturation rewriting.
//!
//! The library holds everything that is proved: the term grammar with its
//! parser and printer (`grammar`, `parser`), exact arbitrary-precision
//! rational arithmetic (`rational`), the constant-fold analysis that the
//! rewriting engine calls back into (`analysis`), and the session
//! orchestrator that validates requests, keeps the installed rewrite rules,
//! and prices the results (`session`). The rewriting engine itself — the
//! e-graph, rule matching and the saturation loop — is an external
//! collaborator driven by the host around this library.

use vstd::prelude::*;

pub mod rational;
pub mod grammar;
pub mod analysis;
pub mod parser;
pub mod session;

verus! {

/// Whether constant folding is on by default when a request does not say.
pub fn default_constant_fold() -> (r: bool)
    ensures
        r == true,
{
    true
}

} // verus!
