//! Front end of a compiler for a circuit-description language.
//!
//! The syntax tree and its mathematical model live in [`expression`],
//! [`statement`], [`program`] and [`types`]. The canonicalization pass
//! ([`canonicalizer`]) rewrites a tree into the canonical form that
//! [`canonical`] defines — `Self` resolved, arrays flattened, compound
//! assignments desugared, string literals exploded — and [`canonical_laws`]
//! proves the pass idempotent. [`tabi`] holds the symbol-table records the
//! resolver fills, and [`emitter`] lowers straight-line code into the
//! register-based instruction set of [`ir`].

use vstd::prelude::*;

pub mod canonical;
pub mod canonical_laws;
pub mod canonicalizer;
pub mod common;
pub mod emitter;
pub mod errors;
pub mod expression;
pub mod ir;
pub mod program;
pub mod span;
pub mod statement;
pub mod tabi;
pub mod types;

verus! {

} // verus!
