use system_f::ctx::{TypeContext, ValueContext};
use system_f::eval::{eval, EvalError};
use system_f::expr::Expr;
use system_f::infer::{infer, TypeError};
use system_f::ty::Type;
use system_f::value::Value;

const FUEL: u64 = 64;

#[test]
fn an_unbound_variable_is_a_type_error() {
    let report = infer(Expr::Var(String::from("ghost")), TypeContext::new());
    assert_eq!(
        report,
        Err(TypeError::UnboundVariable(String::from("ghost")))
    );
}

#[test]
fn an_unbound_variable_is_an_evaluation_error() {
    let report = eval(Expr::Var(String::from("ghost")), ValueContext::new(), FUEL);
    assert_eq!(
        report,
        Err(EvalError::UnboundVariable(String::from("ghost")))
    );
}

#[test]
fn applying_a_string_where_an_integer_is_declared_is_a_mismatch() {
    let ast = Expr::App {
        arg: Box::new(Expr::Int(4)),
        abs: Box::new(Expr::Abs {
            param: String::from("x"),
            param_type: Type::Str,
            body: Box::new(Expr::Var(String::from("x"))),
        }),
    };
    let report = infer(ast, TypeContext::new());
    assert_eq!(
        report,
        Err(TypeError::TypeMismatch {
            expected: Type::Str,
            actual: Type::Int,
        })
    );
}

#[test]
fn applying_an_integer_literal_is_not_a_function() {
    let ast = Expr::App {
        arg: Box::new(Expr::Int(2)),
        abs: Box::new(Expr::Int(1)),
    };
    assert_eq!(
        infer(ast.clone(), TypeContext::new()),
        Err(TypeError::NotAFunction(Type::Int))
    );
    assert_eq!(
        eval(ast, ValueContext::new(), FUEL),
        Err(EvalError::NotCallable(Value::Int(1)))
    );
}

#[test]
fn type_applying_an_integer_literal_is_not_generic() {
    let ast = Expr::TypeApp {
        arg: Type::Int,
        abs: Box::new(Expr::Int(1)),
    };
    assert_eq!(
        infer(ast.clone(), TypeContext::new()),
        Err(TypeError::NotGeneric(Type::Int))
    );
    assert_eq!(
        eval(ast, ValueContext::new(), FUEL),
        Err(EvalError::InvalidTypeApplication(Value::Int(1)))
    );
}

#[test]
fn evaluation_without_budget_reports_it() {
    let ast = Expr::App {
        arg: Box::new(Expr::Int(4)),
        abs: Box::new(Expr::Abs {
            param: String::from("x"),
            param_type: Type::Int,
            body: Box::new(Expr::Var(String::from("x"))),
        }),
    };
    assert_eq!(
        eval(ast, ValueContext::new(), 0),
        Err(EvalError::OutOfFuel)
    );
}
