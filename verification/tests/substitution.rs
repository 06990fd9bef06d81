use system_f::ty::{replace_type, type_eq, Type};

#[test]
fn replacing_the_variable_itself_yields_the_replacement() {
    let replaced = replace_type(
        &Type::Var(String::from("a")),
        String::from("a"),
        Type::Int,
    );
    assert_eq!(replaced, Type::Int);
}

#[test]
fn replacing_another_variable_leaves_the_type_untouched() {
    let replaced = replace_type(
        &Type::Var(String::from("a")),
        String::from("b"),
        Type::Int,
    );
    assert_eq!(replaced, Type::Var(String::from("a")));
}

#[test]
fn a_quantifier_over_the_name_shadows_the_replacement() {
    let quantified = Type::Forall {
        param: String::from("a"),
        body: Box::new(Type::Var(String::from("a"))),
    };
    let replaced = replace_type(&quantified, String::from("a"), Type::Int);
    assert_eq!(replaced, quantified);
}

#[test]
fn replacement_descends_into_function_types_but_not_shadowing_quantifiers() {
    let mixed = Type::Closure {
        param: Box::new(Type::Var(String::from("a"))),
        body: Box::new(Type::Forall {
            param: String::from("a"),
            body: Box::new(Type::Var(String::from("a"))),
        }),
    };
    let replaced = replace_type(&mixed, String::from("a"), Type::Int);
    let expected = Type::Closure {
        param: Box::new(Type::Int),
        body: Box::new(Type::Forall {
            param: String::from("a"),
            body: Box::new(Type::Var(String::from("a"))),
        }),
    };
    assert_eq!(replaced, expected);
}

#[test]
fn type_equality_is_structural_not_alpha() {
    let forall_a = Type::Forall {
        param: String::from("a"),
        body: Box::new(Type::Var(String::from("a"))),
    };
    let forall_b = Type::Forall {
        param: String::from("b"),
        body: Box::new(Type::Var(String::from("b"))),
    };
    assert!(type_eq(&forall_a, &forall_a));
    assert!(!type_eq(&forall_a, &forall_b));
    assert!(type_eq(&Type::Int, &Type::Int));
    assert!(!type_eq(&Type::Int, &Type::Str));
}
