//! The runtime representation of evaluation results: literals, closures,
//! suspended generic values, and host primitives.

use vstd::prelude::*;
use crate::ctx::{ValueContext, value_context_model};
use crate::expr::{Expr, ExprV, expr_view};

verus! {

/// The host-provided primitive functions that a value context may be seeded
/// with: the sole effectful hook of the calculus. Each primitive accepts one
/// value shape and rejects every other with a primitive-misuse error.
#[derive(Debug, Clone, Copy, PartialEq, Eq)]
pub enum Native {
    /// The demonstration primitive `print`: accepts an integer and hands it
    /// back unchanged; the host interprets the successful call as a request
    /// to print the integer.
    PrintInt,
}

/// The result of evaluating a term.
#[derive(Debug, PartialEq)]
pub enum Value {
    /// Integer result.
    Int(i64),
    /// String result (present for primitive demonstration use only).
    Str(String),
    /// Ordinary closure: captures the *defining* environment, not the
    /// calling one.
    Closure { param: String, body: Expr, context: ValueContext },
    /// A suspended generic value; evaluation of the quantified body is
    /// deferred until the value is type-applied.
    Forall { body: Expr, context: ValueContext },
    /// A host-provided primitive function.
    Native(Native),
}

/// The mathematical model of a `Value`.
#[verifier::ext_equal]
pub enum ValueV {
    Int(int),
    Str(Seq<char>),
    Closure { param: Seq<char>, body: ExprV, context: Map<Seq<char>, ValueV> },
    Forall { body: ExprV, context: Map<Seq<char>, ValueV> },
    Native(Native),
}

/// The model of a value.
pub open spec fn value_view(v: Value) -> ValueV {
    match v {
        Value::Int(n) => ValueV::Int(n as int),
        Value::Str(s) => ValueV::Str(s@),
        Value::Closure { param, body, context } => ValueV::Closure {
            param: param@,
            body: expr_view(body),
            context: value_context_model(context),
        },
        Value::Forall { body, context } => ValueV::Forall {
            body: expr_view(body),
            context: value_context_model(context),
        },
        Value::Native(op) => ValueV::Native(op),
    }
}

impl View for Value {
    type V = ValueV;

    open spec fn view(&self) -> ValueV {
        value_view(*self)
    }
}

impl Clone for Value {
    /// A clone of a value is the same value; a closure's captured context is
    /// shared, not rebuilt.
    fn clone(&self) -> (res: Self)
        ensures
            res == *self,
    {
        match self {
            Value::Int(n) => Value::Int(*n),
            Value::Str(s) => Value::Str(s.clone()),
            Value::Closure { param, body, context } => Value::Closure {
                param: param.clone(),
                body: body.clone(),
                context: context.clone(),
            },
            Value::Forall { body, context } => Value::Forall {
                body: body.clone(),
                context: context.clone(),
            },
            Value::Native(op) => Value::Native(*op),
        }
    }
}

} // verus!
