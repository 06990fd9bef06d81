//! The evaluator: reduces a term to a value under a value context, by
//! call-by-value, strict left-to-right big-step recursion. Types are erased
//! at evaluation time: a type argument is never consulted.
//!
//! The one recursion that a term's own structure does not bound is the step
//! from an application into the applied closure's body, so evaluation takes
//! an explicit budget for such steps and reports when it is exhausted.

use vstd::prelude::*;
use crate::ctx::ValueContext;
use crate::expr::{Expr, ExprV};
use crate::ty::TypeV;
use crate::value::{Native, Value, ValueV};

verus! {

/// Why evaluation failed.
#[derive(Debug, PartialEq)]
pub enum EvalError {
    /// A variable reference misses in the active value context.
    UnboundVariable(String),
    /// An application target evaluated to a value that is not callable.
    NotCallable(Value),
    /// A type-application target evaluated to a value that is not a
    /// suspended generic.
    InvalidTypeApplication(Value),
    /// A host primitive was invoked with a value shape it does not handle.
    PrimitiveMisuse(Value),
    /// The budget for steps into closure bodies ran out before evaluation
    /// finished.
    OutOfFuel,
}

/// The mathematical model of an `EvalError`.
#[verifier::ext_equal]
pub enum EvalErrorV {
    UnboundVariable(Seq<char>),
    NotCallable(ValueV),
    InvalidTypeApplication(ValueV),
    PrimitiveMisuse(ValueV),
    OutOfFuel,
}

/// The model of an evaluation error.
pub open spec fn eval_error_view(e: EvalError) -> EvalErrorV {
    match e {
        EvalError::UnboundVariable(x) => EvalErrorV::UnboundVariable(x@),
        EvalError::NotCallable(v) => EvalErrorV::NotCallable(v@),
        EvalError::InvalidTypeApplication(v) => EvalErrorV::InvalidTypeApplication(v@),
        EvalError::PrimitiveMisuse(v) => EvalErrorV::PrimitiveMisuse(v@),
        EvalError::OutOfFuel => EvalErrorV::OutOfFuel,
    }
}

impl View for EvalError {
    type V = EvalErrorV;

    open spec fn view(&self) -> EvalErrorV {
        eval_error_view(*self)
    }
}

/// The model of an evaluation result.
pub open spec fn eval_result_view(r: Result<Value, EvalError>) -> Result<ValueV, EvalErrorV> {
    match r {
        Ok(v) => Ok(v@),
        Err(e) => Err(e@),
    }
}

/// What each host primitive returns: `PrintInt` accepts an integer and hands
/// it back unchanged; every other value shape is a primitive misuse.
pub open spec fn native_spec(op: Native, arg: ValueV) -> Result<ValueV, EvalErrorV> {
    match op {
        Native::PrintInt => match arg {
            ValueV::Int(n) => Ok(ValueV::Int(n)),
            _ => Err(EvalErrorV::PrimitiveMisuse(arg)),
        },
    }
}

/// Invokes the host primitive `op` on `arg`.
pub fn apply_native(op: Native, arg: Value) -> (r: Result<Value, EvalError>)
    ensures
        eval_result_view(r) == native_spec(op, arg@),
{
    match op {
        Native::PrintInt => match arg {
            Value::Int(n) => Ok(Value::Int(n)),
            _ => Err(EvalError::PrimitiveMisuse(arg)),
        },
    }
}

/// The big-step evaluation judgment over term models, indexed by the budget
/// for steps into closure bodies: exactly one value or one error for every
/// term, context and budget.
///
/// An application evaluates its argument first, then its target, both under
/// the caller's context; a closure's body then runs in the closure's
/// *captured* context extended with the parameter — never in the caller's —
/// which is what makes scoping lexical. A type application runs the
/// suspended body in its captured context and ignores the type argument.
pub open spec fn eval_spec(e: ExprV, ctx: Map<Seq<char>, ValueV>, fuel: nat) -> Result<
    ValueV,
    EvalErrorV,
>
    decreases fuel, e,
{
    match e {
        ExprV::Int(n) => Ok(ValueV::Int(n)),
        ExprV::Str(s) => Ok(ValueV::Str(s)),
        ExprV::Var(x) => if ctx.contains_key(x) {
            Ok(ctx[x])
        } else {
            Err(EvalErrorV::UnboundVariable(x))
        },
        ExprV::Abs { param, param_type, body } => Ok(
            ValueV::Closure { param, body: *body, context: ctx },
        ),
        ExprV::App { arg, abs } => match eval_spec(*arg, ctx, fuel) {
            Ok(arg_value) => match eval_spec(*abs, ctx, fuel) {
                Ok(abs_value) => match abs_value {
                    ValueV::Closure { param, body, context } => if fuel == 0 {
                        Err(EvalErrorV::OutOfFuel)
                    } else {
                        eval_spec(body, context.insert(param, arg_value), (fuel - 1) as nat)
                    },
                    ValueV::Native(op) => native_spec(op, arg_value),
                    _ => Err(EvalErrorV::NotCallable(abs_value)),
                },
                Err(err) => Err(err),
            },
            Err(err) => Err(err),
        },
        ExprV::TypeAbs { param, body } => Ok(ValueV::Forall { body: *body, context: ctx }),
        ExprV::TypeApp { arg, abs } => match eval_spec(*abs, ctx, fuel) {
            Ok(abs_value) => match abs_value {
                ValueV::Forall { body, context } => if fuel == 0 {
                    Err(EvalErrorV::OutOfFuel)
                } else {
                    eval_spec(body, context, (fuel - 1) as nat)
                },
                _ => Err(EvalErrorV::InvalidTypeApplication(abs_value)),
            },
            Err(err) => Err(err),
        },
    }
}

/// Evaluates `expr` under `context`, spending at most `fuel` steps into
/// closure bodies: the result is precisely what the judgment `eval_spec`
/// assigns to the term's model.
pub fn eval(expr: Expr, context: ValueContext, fuel: u64) -> (r: Result<Value, EvalError>)
    ensures
        eval_result_view(r) == eval_spec(expr@, context@, fuel as nat),
    decreases fuel, expr,
{
    match expr {
        Expr::Int(n) => Ok(Value::Int(n)),
        Expr::Str(s) => Ok(Value::Str(s)),
        Expr::Var(var) => match context.get(&var) {
            Some(v) => Ok(v.clone()),
            None => Err(EvalError::UnboundVariable(var)),
        },
        Expr::Abs { param, param_type: _, body } => Ok(
            Value::Closure { param, body: *body, context },
        ),
        Expr::App { arg, abs } => match eval(*arg, context.clone(), fuel) {
            Ok(arg_value) => match eval(*abs, context, fuel) {
                Ok(abs_value) => match abs_value {
                    Value::Closure { param, body, context: captured } => if fuel == 0 {
                        Err(EvalError::OutOfFuel)
                    } else {
                        let extended = captured.update(param, arg_value);
                        eval(body, extended, fuel - 1)
                    },
                    Value::Native(op) => apply_native(op, arg_value),
                    _ => Err(EvalError::NotCallable(abs_value)),
                },
                Err(err) => Err(err),
            },
            Err(err) => Err(err),
        },
        Expr::TypeAbs { param: _, body } => Ok(Value::Forall { body: *body, context }),
        Expr::TypeApp { arg: _, abs } => match eval(*abs, context, fuel) {
            Ok(abs_value) => match abs_value {
                Value::Forall { body, context: captured } => if fuel == 0 {
                    Err(EvalError::OutOfFuel)
                } else {
                    eval(body, captured, fuel - 1)
                },
                _ => Err(EvalError::InvalidTypeApplication(abs_value)),
            },
            Err(err) => Err(err),
        },
    }
}

/// Lexical scoping law: the outcome of an application is fixed by the
/// outcomes of its two parts and the budget; the context at the call point
/// contributes nothing further. A closure value reached from two different
/// call-site contexts is applied identically in both, because its free
/// variables resolve in its captured (defining) context alone.
pub proof fn lemma_lexical_scoping(
    arg1: ExprV,
    abs1: ExprV,
    ctx1: Map<Seq<char>, ValueV>,
    arg2: ExprV,
    abs2: ExprV,
    ctx2: Map<Seq<char>, ValueV>,
    fuel: nat,
)
    requires
        eval_spec(arg1, ctx1, fuel) == eval_spec(arg2, ctx2, fuel),
        eval_spec(abs1, ctx1, fuel) == eval_spec(abs2, ctx2, fuel),
    ensures
        eval_spec((ExprV::App { arg: Box::new(arg1), abs: Box::new(abs1) }), ctx1, fuel)
            == eval_spec((ExprV::App { arg: Box::new(arg2), abs: Box::new(abs2) }), ctx2, fuel),
{
}

/// Type erasure law: the type argument of a type application never
/// influences evaluation; instantiating one target at two different types
/// yields identical outcomes.
pub proof fn lemma_type_erasure(
    abs: ExprV,
    t1: TypeV,
    t2: TypeV,
    ctx: Map<Seq<char>, ValueV>,
    fuel: nat,
)
    ensures
        eval_spec((ExprV::TypeApp { arg: t1, abs: Box::new(abs) }), ctx, fuel)
            == eval_spec((ExprV::TypeApp { arg: t2, abs: Box::new(abs) }), ctx, fuel),
{
}

} // verus!
