//! The grammar of types, structural type equality, and substitution of a
//! type variable by a type (used when instantiating a universal type).

use vstd::prelude::*;

verus! {

/// A type of the calculus. Type equality is structural (recursive equality on
/// the tree), not up-to-alpha-renaming: two `Forall` trees that differ only in
/// the name of the bound variable are distinct types.
#[derive(Debug, PartialEq)]
pub enum Type {
    /// Function type from `param` to `body`.
    Closure { param: Box<Type>, body: Box<Type> },
    /// Universal quantification binding the type-variable name `param` over `body`.
    Forall { param: String, body: Box<Type> },
    /// Reference to a bound type variable.
    Var(String),
    /// Base numeric type.
    Int,
    /// Base string type.
    Str,
}

/// The mathematical model of a `Type`: the same tree with every name taken
/// as a sequence of characters.
#[verifier::ext_equal]
pub enum TypeV {
    Closure { param: Box<TypeV>, body: Box<TypeV> },
    Forall { param: Seq<char>, body: Box<TypeV> },
    Var(Seq<char>),
    Int,
    Str,
}

/// The model of a type tree.
pub open spec fn type_view(t: Type) -> TypeV
    decreases t,
{
    match t {
        Type::Closure { param, body } => TypeV::Closure {
            param: Box::new(type_view(*param)),
            body: Box::new(type_view(*body)),
        },
        Type::Forall { param, body } => TypeV::Forall {
            param: param@,
            body: Box::new(type_view(*body)),
        },
        Type::Var(v) => TypeV::Var(v@),
        Type::Int => TypeV::Int,
        Type::Str => TypeV::Str,
    }
}

impl View for Type {
    type V = TypeV;

    open spec fn view(&self) -> TypeV {
        type_view(*self)
    }
}

impl Clone for Type {
    /// A clone of a type is the same type.
    fn clone(&self) -> (res: Self)
        ensures
            res == *self,
        decreases *self,
    {
        match self {
            Type::Closure { param, body } => Type::Closure {
                param: Box::new((**param).clone()),
                body: Box::new((**body).clone()),
            },
            Type::Forall { param, body } => Type::Forall {
                param: param.clone(),
                body: Box::new((**body).clone()),
            },
            Type::Var(v) => Type::Var(v.clone()),
            Type::Int => Type::Int,
            Type::Str => Type::Str,
        }
    }
}

/// Replacement of every free occurrence of the type variable `from` in `t`
/// by `to`. A `Forall` whose bound name equals `from` shadows it: nothing is
/// replaced under the shadowing binder. No alpha-renaming is performed, so a
/// free variable of `to` named like an enclosing binder is captured; this is
/// a deliberate simplification of the calculus.
pub open spec fn subst(t: TypeV, from: Seq<char>, to: TypeV) -> TypeV
    decreases t,
{
    match t {
        TypeV::Closure { param, body } => TypeV::Closure {
            param: Box::new(subst(*param, from, to)),
            body: Box::new(subst(*body, from, to)),
        },
        TypeV::Forall { param, body } => if param == from {
            TypeV::Forall { param, body }
        } else {
            TypeV::Forall { param, body: Box::new(subst(*body, from, to)) }
        },
        TypeV::Var(v) => if v == from {
            to
        } else {
            TypeV::Var(v)
        },
        TypeV::Int => TypeV::Int,
        TypeV::Str => TypeV::Str,
    }
}

/// Structural equality of two types. Not up to alpha-renaming: bound names
/// are compared literally.
pub fn type_eq(a: &Type, b: &Type) -> (r: bool)
    ensures
        r == (a@ == b@),
    decreases *a,
{
    match (a, b) {
        (Type::Closure { param: p1, body: b1 }, Type::Closure { param: p2, body: b2 }) => {
            type_eq(p1, p2) && type_eq(b1, b2)
        },
        (Type::Forall { param: p1, body: b1 }, Type::Forall { param: p2, body: b2 }) => {
            *p1 == *p2 && type_eq(b1, b2)
        },
        (Type::Var(v1), Type::Var(v2)) => *v1 == *v2,
        (Type::Int, Type::Int) => true,
        (Type::Str, Type::Str) => true,
        _ => false,
    }
}

/// Returns `t` with every free occurrence of the type variable `from`
/// replaced by `to`: the executable form of `subst`.
pub fn replace_type(type_: &Type, from: String, to: Type) -> (r: Type)
    ensures
        r@ == subst(type_@, from@, to@),
    decreases *type_,
{
    match type_ {
        Type::Closure { param, body } => {
            let param = replace_type(param, from.clone(), to.clone());
            let body = replace_type(body, from, to);
            Type::Closure { param: Box::new(param), body: Box::new(body) }
        },
        Type::Forall { param, body } => {
            if *param == from {
                Type::Forall { param: param.clone(), body: Box::new((**body).clone()) }
            } else {
                Type::Forall {
                    param: param.clone(),
                    body: Box::new(replace_type(body, from, to)),
                }
            }
        },
        Type::Var(var) => {
            if *var == from {
                to
            } else {
                type_.clone()
            }
        },
        Type::Int => Type::Int,
        Type::Str => Type::Str,
    }
}

/// Substitution law: replacing `n` in the variable `n` itself yields the
/// replacement type.
pub proof fn lemma_subst_var_hit(n: Seq<char>, to: TypeV)
    ensures
        subst(TypeV::Var(n), n, to) == to,
{
}

/// Substitution law: replacing `m` in the variable `n` leaves the variable
/// untouched whenever the two names differ.
pub proof fn lemma_subst_var_miss(n: Seq<char>, m: Seq<char>, to: TypeV)
    requires
        m != n,
    ensures
        subst(TypeV::Var(n), m, to) == TypeV::Var(n),
{
}

/// Substitution law: a quantifier over `n` shadows `n`, so replacing `n`
/// under it changes nothing.
pub proof fn lemma_subst_shadowed(n: Seq<char>, b: TypeV, to: TypeV)
    ensures
        subst((TypeV::Forall { param: n, body: Box::new(b) }), n, to)
            == (TypeV::Forall { param: n, body: Box::new(b) }),
{
}

} // verus!
