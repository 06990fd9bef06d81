use system_f::ctx::{TypeContext, ValueContext};
use system_f::eval::{eval, EvalError};
use system_f::expr::Expr;
use system_f::infer::{infer, TypeError};
use system_f::ty::Type;
use system_f::value::{Native, Value};

const FUEL: u64 = 64;

fn int_to_int() -> Type {
    Type::Closure {
        param: Box::new(Type::Int),
        body: Box::new(Type::Int),
    }
}

/// A closure called under a context that rebinds one of its free variables
/// must still see the value from its defining context.
#[test]
fn a_closure_resolves_free_variables_at_its_creation_point() {
    // f = λx:Int. λy:Int. x
    let f = Expr::Abs {
        param: String::from("x"),
        param_type: Type::Int,
        body: Box::new(Expr::Abs {
            param: String::from("y"),
            param_type: Type::Int,
            body: Box::new(Expr::Var(String::from("x"))),
        }),
    };
    // keeper = f 1, a closure that captured x = 1
    let keeper = Expr::App {
        arg: Box::new(Expr::Int(1)),
        abs: Box::new(f),
    };
    // h = λx:Int. λg:Int->Int. g 9, which calls g where x = 2 is in scope
    let h = Expr::Abs {
        param: String::from("x"),
        param_type: Type::Int,
        body: Box::new(Expr::Abs {
            param: String::from("g"),
            param_type: int_to_int(),
            body: Box::new(Expr::App {
                arg: Box::new(Expr::Int(9)),
                abs: Box::new(Expr::Var(String::from("g"))),
            }),
        }),
    };
    let whole = Expr::App {
        arg: Box::new(keeper),
        abs: Box::new(Expr::App {
            arg: Box::new(Expr::Int(2)),
            abs: Box::new(h),
        }),
    };

    assert_eq!(infer(whole.clone(), TypeContext::new()), Ok(Type::Int));
    // Lexical scoping: 1 from the defining context, not 2 from the call point.
    assert_eq!(eval(whole, ValueContext::new(), FUEL), Ok(Value::Int(1)));
}

/// Instantiating one generic value at two different types yields the same
/// runtime value, and applying either yields the same result: types are
/// erased at evaluation.
#[test]
fn type_arguments_do_not_influence_evaluation() {
    let generic_identity = Expr::TypeAbs {
        param: String::from("a"),
        body: Box::new(Expr::Abs {
            param: String::from("x"),
            param_type: Type::Var(String::from("a")),
            body: Box::new(Expr::Var(String::from("x"))),
        }),
    };
    let at_int = Expr::TypeApp {
        arg: Type::Int,
        abs: Box::new(generic_identity.clone()),
    };
    let at_str = Expr::TypeApp {
        arg: Type::Str,
        abs: Box::new(generic_identity),
    };

    let value_at_int = eval(at_int.clone(), ValueContext::new(), FUEL).unwrap();
    let value_at_str = eval(at_str.clone(), ValueContext::new(), FUEL).unwrap();
    assert_eq!(value_at_int, value_at_str);

    let fed_through_int = eval(
        Expr::App {
            arg: Box::new(Expr::Int(4)),
            abs: Box::new(at_int),
        },
        ValueContext::new(),
        FUEL,
    );
    let fed_through_str = eval(
        Expr::App {
            arg: Box::new(Expr::Int(4)),
            abs: Box::new(at_str),
        },
        ValueContext::new(),
        FUEL,
    );
    assert_eq!(fed_through_int, Ok(Value::Int(4)));
    assert_eq!(fed_through_str, Ok(Value::Int(4)));
}

/// A seeded primitive that only accepts integers: feeding it a string is
/// caught statically by the checker, and reported as a primitive misuse if
/// evaluation is attempted anyway.
#[test]
fn a_misused_primitive_is_caught_by_checker_and_evaluator() {
    let tctx = TypeContext::new().update(String::from("print"), int_to_int());
    let vctx = ValueContext::new().update(String::from("print"), Value::Native(Native::PrintInt));

    let bad = Expr::App {
        arg: Box::new(Expr::Str(String::from("Hello, World!"))),
        abs: Box::new(Expr::Var(String::from("print"))),
    };
    assert_eq!(
        infer(bad.clone(), tctx.clone()),
        Err(TypeError::TypeMismatch {
            expected: Type::Int,
            actual: Type::Str,
        })
    );
    assert_eq!(
        eval(bad, vctx.clone(), FUEL),
        Err(EvalError::PrimitiveMisuse(Value::Str(String::from(
            "Hello, World!"
        ))))
    );

    let good = Expr::App {
        arg: Box::new(Expr::Int(7)),
        abs: Box::new(Expr::Var(String::from("print"))),
    };
    assert_eq!(infer(good.clone(), tctx), Ok(Type::Int));
    assert_eq!(eval(good, vctx, FUEL), Ok(Value::Int(7)));
}

/// Two closures built from the same abstraction under different captured
/// bindings are different values; the same binding gives the same value.
#[test]
fn captured_contexts_distinguish_closure_values() {
    let f = Expr::Abs {
        param: String::from("x"),
        param_type: Type::Int,
        body: Box::new(Expr::Abs {
            param: String::from("y"),
            param_type: Type::Int,
            body: Box::new(Expr::Var(String::from("x"))),
        }),
    };
    let capture = |n: i64| {
        eval(
            Expr::App {
                arg: Box::new(Expr::Int(n)),
                abs: Box::new(f.clone()),
            },
            ValueContext::new(),
            FUEL,
        )
        .unwrap()
    };
    assert_ne!(capture(1), capture(2));
    assert_eq!(capture(1), capture(1));
}
