//! The type checker: synthesizes a type for a term under a type context.
//! This is type synthesis from fully annotated binders — no unification and
//! no type-variable solving.

use vstd::prelude::*;
use crate::ctx::TypeContext;
use crate::expr::{Expr, ExprV};
use crate::ty::{Type, TypeV, replace_type, subst, type_eq};

verus! {

/// Why type synthesis rejected a term.
#[derive(Debug, PartialEq)]
pub enum TypeError {
    /// A variable reference misses in the active type context.
    UnboundVariable(String),
    /// An application's argument type disagrees with the function's declared
    /// parameter type.
    TypeMismatch { expected: Type, actual: Type },
    /// An application target whose synthesized type is not a function type.
    NotAFunction(Type),
    /// A type-application target whose synthesized type is not a universal
    /// type.
    NotGeneric(Type),
}

/// The mathematical model of a `TypeError`.
#[verifier::ext_equal]
pub enum TypeErrorV {
    UnboundVariable(Seq<char>),
    TypeMismatch { expected: TypeV, actual: TypeV },
    NotAFunction(TypeV),
    NotGeneric(TypeV),
}

/// The model of a type error.
pub open spec fn type_error_view(e: TypeError) -> TypeErrorV {
    match e {
        TypeError::UnboundVariable(x) => TypeErrorV::UnboundVariable(x@),
        TypeError::TypeMismatch { expected, actual } => TypeErrorV::TypeMismatch {
            expected: expected@,
            actual: actual@,
        },
        TypeError::NotAFunction(t) => TypeErrorV::NotAFunction(t@),
        TypeError::NotGeneric(t) => TypeErrorV::NotGeneric(t@),
    }
}

impl View for TypeError {
    type V = TypeErrorV;

    open spec fn view(&self) -> TypeErrorV {
        type_error_view(*self)
    }
}

/// The model of an inference result.
pub open spec fn infer_result_view(r: Result<Type, TypeError>) -> Result<TypeV, TypeErrorV> {
    match r {
        Ok(t) => Ok(t@),
        Err(e) => Err(e@),
    }
}

/// The type-synthesis judgment, as a total function over term models:
/// exactly one type or one error for every term and context.
pub open spec fn infer_spec(e: ExprV, ctx: Map<Seq<char>, TypeV>) -> Result<TypeV, TypeErrorV>
    decreases e,
{
    match e {
        ExprV::Int(_) => Ok(TypeV::Int),
        ExprV::Str(_) => Ok(TypeV::Str),
        ExprV::Var(x) => if ctx.contains_key(x) {
            Ok(ctx[x])
        } else {
            Err(TypeErrorV::UnboundVariable(x))
        },
        ExprV::Abs { param, param_type, body } => match infer_spec(
            *body,
            ctx.insert(param, param_type),
        ) {
            Ok(t_body) => Ok(
                TypeV::Closure { param: Box::new(param_type), body: Box::new(t_body) },
            ),
            Err(err) => Err(err),
        },
        ExprV::App { arg, abs } => match infer_spec(*arg, ctx) {
            Ok(t_arg) => match infer_spec(*abs, ctx) {
                Ok(t_abs) => match t_abs {
                    TypeV::Closure { param, body } => if *param == t_arg {
                        Ok(*body)
                    } else {
                        Err(TypeErrorV::TypeMismatch { expected: *param, actual: t_arg })
                    },
                    _ => Err(TypeErrorV::NotAFunction(t_abs)),
                },
                Err(err) => Err(err),
            },
            Err(err) => Err(err),
        },
        ExprV::TypeAbs { param, body } => match infer_spec(*body, ctx) {
            Ok(t_body) => Ok(TypeV::Forall { param, body: Box::new(t_body) }),
            Err(err) => Err(err),
        },
        ExprV::TypeApp { arg, abs } => match infer_spec(*abs, ctx) {
            Ok(t_abs) => match t_abs {
                TypeV::Forall { param, body } => Ok(subst(*body, param, arg)),
                _ => Err(TypeErrorV::NotGeneric(t_abs)),
            },
            Err(err) => Err(err),
        },
    }
}

/// Synthesizes the type of `expr` under `context`, or reports exactly why no
/// type exists: the result is precisely what the judgment `infer_spec`
/// assigns to the term's model.
pub fn infer(expr: Expr, context: TypeContext) -> (r: Result<Type, TypeError>)
    ensures
        infer_result_view(r) == infer_spec(expr@, context@),
    decreases expr,
{
    match expr {
        Expr::Int(_n) => Ok(Type::Int),
        Expr::Str(_s) => Ok(Type::Str),
        Expr::Var(var) => match context.get(&var) {
            Some(t) => Ok(t.clone()),
            None => Err(TypeError::UnboundVariable(var)),
        },
        Expr::Abs { param, param_type, body } => {
            let extended = context.update(param, param_type.clone());
            match infer(*body, extended) {
                Ok(t_body) => Ok(
                    Type::Closure { param: Box::new(param_type), body: Box::new(t_body) },
                ),
                Err(err) => Err(err),
            }
        },
        Expr::App { arg, abs } => match infer(*arg, context.clone()) {
            Ok(t_arg) => match infer(*abs, context) {
                Ok(t_abs) => match t_abs {
                    Type::Closure { param, body } => if type_eq(&param, &t_arg) {
                        Ok(*body)
                    } else {
                        Err(TypeError::TypeMismatch { expected: *param, actual: t_arg })
                    },
                    _ => Err(TypeError::NotAFunction(t_abs)),
                },
                Err(err) => Err(err),
            },
            Err(err) => Err(err),
        },
        Expr::TypeAbs { param, body } => match infer(*body, context) {
            Ok(t_body) => Ok(Type::Forall { param, body: Box::new(t_body) }),
            Err(err) => Err(err),
        },
        Expr::TypeApp { arg, abs } => match infer(*abs, context) {
            Ok(t_abs) => match t_abs {
                Type::Forall { param, body } => Ok(replace_type(&body, param, arg)),
                _ => Err(TypeError::NotGeneric(t_abs)),
            },
            Err(err) => Err(err),
        },
    }
}

} // verus!
