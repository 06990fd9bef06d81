//! The grammar of terms: the expression trees that the type checker and the
//! evaluator both walk.

use vstd::prelude::*;
use crate::ty::{Type, TypeV, type_view};

verus! {

/// A term of the calculus. Every function binder carries an explicit type
/// annotation; type inference is synthesis, not constraint solving.
#[derive(Debug, PartialEq)]
pub enum Expr {
    /// Integer literal.
    Int(i64),
    /// String literal.
    Str(String),
    /// Term-variable reference.
    Var(String),
    /// Annotated function abstraction.
    Abs { param: String, param_type: Type, body: Box<Expr> },
    /// Generic abstraction over a type variable.
    TypeAbs { param: String, body: Box<Expr> },
    /// Instantiation of a generic value at a concrete type.
    TypeApp { arg: Type, abs: Box<Expr> },
    /// Ordinary function application.
    App { arg: Box<Expr>, abs: Box<Expr> },
}

/// The mathematical model of an `Expr`.
#[verifier::ext_equal]
pub enum ExprV {
    Int(int),
    Str(Seq<char>),
    Var(Seq<char>),
    Abs { param: Seq<char>, param_type: TypeV, body: Box<ExprV> },
    TypeAbs { param: Seq<char>, body: Box<ExprV> },
    TypeApp { arg: TypeV, abs: Box<ExprV> },
    App { arg: Box<ExprV>, abs: Box<ExprV> },
}

/// The model of a term tree.
pub open spec fn expr_view(e: Expr) -> ExprV
    decreases e,
{
    match e {
        Expr::Int(n) => ExprV::Int(n as int),
        Expr::Str(s) => ExprV::Str(s@),
        Expr::Var(x) => ExprV::Var(x@),
        Expr::Abs { param, param_type, body } => ExprV::Abs {
            param: param@,
            param_type: type_view(param_type),
            body: Box::new(expr_view(*body)),
        },
        Expr::TypeAbs { param, body } => ExprV::TypeAbs {
            param: param@,
            body: Box::new(expr_view(*body)),
        },
        Expr::TypeApp { arg, abs } => ExprV::TypeApp {
            arg: type_view(arg),
            abs: Box::new(expr_view(*abs)),
        },
        Expr::App { arg, abs } => ExprV::App {
            arg: Box::new(expr_view(*arg)),
            abs: Box::new(expr_view(*abs)),
        },
    }
}

impl View for Expr {
    type V = ExprV;

    open spec fn view(&self) -> ExprV {
        expr_view(*self)
    }
}

impl Clone for Expr {
    /// A clone of a term is the same term.
    fn clone(&self) -> (res: Self)
        ensures
            res == *self,
        decreases *self,
    {
        match self {
            Expr::Int(n) => Expr::Int(*n),
            Expr::Str(s) => Expr::Str(s.clone()),
            Expr::Var(x) => Expr::Var(x.clone()),
            Expr::Abs { param, param_type, body } => Expr::Abs {
                param: param.clone(),
                param_type: param_type.clone(),
                body: Box::new((**body).clone()),
            },
            Expr::TypeAbs { param, body } => Expr::TypeAbs {
                param: param.clone(),
                body: Box::new((**body).clone()),
            },
            Expr::TypeApp { arg, abs } => Expr::TypeApp {
                arg: arg.clone(),
                abs: Box::new((**abs).clone()),
            },
            Expr::App { arg, abs } => Expr::App {
                arg: Box::new((**arg).clone()),
                abs: Box::new((**abs).clone()),
            },
        }
    }
}

} // verus!
