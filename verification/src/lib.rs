//! A small polymorphic lambda calculus: an abstract syntax, a type-synthesis
//! judgment, and a big-step evaluator, forming a minimal System-F fragment
//! with integers, strings, and a hook for host-provided primitives.
//!
//! The two core algorithms — type inference and evaluation — are structurally
//! parallel walks over the same expression tree; they never call each other.
//! Environments are persistent immutable maps, so extending a binding never
//! disturbs the parent environment that a closure may have captured.

pub mod ctx;
pub mod eval;
pub mod expr;
pub mod infer;
pub mod soundness;
pub mod ty;
pub mod value;
