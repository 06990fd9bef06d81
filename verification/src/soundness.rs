//! Progress for the quantifier-free fragment of the calculus: a term that
//! the type checker accepts evaluates to a value of the synthesized type, or
//! runs out of budget — it never trips over an unbound variable, a
//! non-callable application target, a stray type application, or a misused
//! primitive.
//!
//! The fragment matters: with quantifiers the property fails, because
//! substitution does not rename binders and type equality is not up to
//! alpha-renaming, so a universal type whose bound name shadows an enclosing
//! one can hide a shape mismatch from the checker. The relations below
//! therefore speak of terms and types without `Forall`, `Var`, `TypeAbs`
//! and `TypeApp`.

use vstd::prelude::*;
use crate::eval::{eval_spec, EvalErrorV};
use crate::expr::ExprV;
use crate::infer::infer_spec;
use crate::ty::TypeV;
use crate::value::ValueV;

verus! {

broadcast use vstd::map::group_map_axioms;

/// A type of the quantifier-free fragment: no `Forall`, no type variables.
pub open spec fn ty_simple(t: TypeV) -> bool
    decreases t,
{
    match t {
        TypeV::Int => true,
        TypeV::Str => true,
        TypeV::Closure { param, body } => ty_simple(*param) && ty_simple(*body),
        TypeV::Forall { .. } => false,
        TypeV::Var(_) => false,
    }
}

/// A term of the quantifier-free fragment: no type abstraction or type
/// application, and every binder annotation quantifier-free.
pub open spec fn expr_simple(e: ExprV) -> bool
    decreases e,
{
    match e {
        ExprV::Int(_) => true,
        ExprV::Str(_) => true,
        ExprV::Var(_) => true,
        ExprV::Abs { param, param_type, body } => ty_simple(param_type) && expr_simple(*body),
        ExprV::TypeAbs { .. } => false,
        ExprV::TypeApp { .. } => false,
        ExprV::App { arg, abs } => expr_simple(*arg) && expr_simple(*abs),
    }
}

/// Every type the context binds is quantifier-free.
pub open spec fn ctx_simple(tctx: Map<Seq<char>, TypeV>) -> bool {
    forall|x: Seq<char>| #[trigger] tctx.contains_key(x) ==> ty_simple(tctx[x])
}

/// The typing witness that a well-typed closure value carries: the context
/// types its captured environment, and under that context extended at the
/// parameter, the quantifier-free body synthesizes the result type.
pub open spec fn closure_wt(
    b: ExprV,
    p: Seq<char>,
    cenv: Map<Seq<char>, ValueV>,
    param_t: TypeV,
    body_t: TypeV,
    tctx: Map<Seq<char>, TypeV>,
) -> bool
    decreases cenv, 1int,
{
    &&& expr_simple(b)
    &&& env_wt(cenv, tctx)
    &&& infer_spec(b, tctx.insert(p, param_t)) == Ok::<TypeV, crate::infer::TypeErrorV>(body_t)
}

/// Value `v` inhabits the quantifier-free type `t`: literal shapes match,
/// and a function value is either a closure carrying a typing witness under
/// some quantifier-free context, or a primitive of exactly that arrow type.
pub open spec fn val_wt(v: ValueV, t: TypeV) -> bool
    decreases v, 2int,
{
    match t {
        TypeV::Int => v is Int,
        TypeV::Str => v is Str,
        TypeV::Closure { param, body } => match v {
            ValueV::Closure { param: p, body: b, context: cenv } => exists|
                tctx: Map<Seq<char>, TypeV>,
            | #[trigger] ctx_simple(tctx) && closure_wt(b, p, cenv, *param, *body, tctx),
            ValueV::Native(_) => *param == TypeV::Int && *body == TypeV::Int,
            _ => false,
        },
        TypeV::Forall { .. } => false,
        TypeV::Var(_) => false,
    }
}

/// Environment `venv` is consistent with context `tctx`: it is finite and
/// holds, for every name the context types, a value of that type.
pub open spec fn env_wt(venv: Map<Seq<char>, ValueV>, tctx: Map<Seq<char>, TypeV>) -> bool
    decreases venv, 0int,
{
    &&& venv.dom().finite()
    &&& forall|x: Seq<char>| #[trigger] tctx.contains_key(x) ==> venv.contains_key(x)
        && val_wt(venv[x], tctx[x])
}

/// The checker accepts `e` at type `t`.
pub open spec fn infer_ok(e: ExprV, tctx: Map<Seq<char>, TypeV>, t: TypeV) -> bool {
    infer_spec(e, tctx) == Ok::<TypeV, crate::infer::TypeErrorV>(t)
}

/// Evaluation of `e` went right: a value of type `t`, unless the budget ran
/// out. In particular the outcome is never an unbound variable, a
/// non-callable target, an invalid type application, or a misused primitive.
pub open spec fn progress_outcome(
    e: ExprV,
    venv: Map<Seq<char>, ValueV>,
    t: TypeV,
    fuel: nat,
) -> bool {
    match eval_spec(e, venv, fuel) {
        Ok(v) => val_wt(v, t),
        Err(err) => err == EvalErrorV::OutOfFuel,
    }
}

/// On the quantifier-free fragment, the type the checker synthesizes is
/// itself quantifier-free.
pub proof fn lemma_infer_simple(e: ExprV, tctx: Map<Seq<char>, TypeV>, t: TypeV)
    requires
        expr_simple(e),
        ctx_simple(tctx),
        infer_ok(e, tctx, t),
    ensures
        ty_simple(t),
    decreases e,
{
    match e {
        ExprV::Int(_) => {},
        ExprV::Str(_) => {},
        ExprV::Var(x) => {
            assert(tctx.contains_key(x));
        },
        ExprV::Abs { param, param_type, body } => {
            let tctx2 = tctx.insert(param, param_type);
            assert(ctx_simple(tctx2)) by {
                assert forall|x: Seq<char>| #[trigger] tctx2.contains_key(x) implies ty_simple(
                    tctx2[x],
                ) by {
                    if x != param {
                        assert(tctx.contains_key(x));
                    }
                }
            }
            let t_body = infer_spec(*body, tctx2)->Ok_0;
            lemma_infer_simple(*body, tctx2, t_body);
        },
        ExprV::App { arg, abs } => {
            let t_abs = infer_spec(*abs, tctx)->Ok_0;
            lemma_infer_simple(*abs, tctx, t_abs);
        },
        ExprV::TypeAbs { .. } => {},
        ExprV::TypeApp { .. } => {},
    }
}

/// Extending a consistent environment with a value of the added type keeps
/// it consistent.
pub proof fn lemma_env_wt_insert(
    venv: Map<Seq<char>, ValueV>,
    tctx: Map<Seq<char>, TypeV>,
    x: Seq<char>,
    v: ValueV,
    t: TypeV,
)
    requires
        env_wt(venv, tctx),
        val_wt(v, t),
    ensures
        env_wt(venv.insert(x, v), tctx.insert(x, t)),
{
    let venv2 = venv.insert(x, v);
    let tctx2 = tctx.insert(x, t);
    assert forall|y: Seq<char>| #[trigger] tctx2.contains_key(y) implies venv2.contains_key(y)
        && val_wt(venv2[y], tctx2[y]) by {
        if y != x {
            assert(tctx.contains_key(y));
        }
    }
}

/// Progress (soundness-lite) for the quantifier-free fragment: if the
/// checker accepts `e` at `t` under `tctx`, and `venv` is consistent with
/// `tctx`, then for every budget, evaluation either yields a value
/// inhabiting `t` or stops for want of budget — never any other error.
pub proof fn lemma_progress(
    e: ExprV,
    tctx: Map<Seq<char>, TypeV>,
    venv: Map<Seq<char>, ValueV>,
    t: TypeV,
    fuel: nat,
)
    requires
        expr_simple(e),
        ctx_simple(tctx),
        env_wt(venv, tctx),
        infer_ok(e, tctx, t),
    ensures
        progress_outcome(e, venv, t, fuel),
    decreases fuel, e,
{
    match e {
        ExprV::Int(_) => {},
        ExprV::Str(_) => {},
        ExprV::Var(x) => {
            assert(tctx.contains_key(x));
        },
        ExprV::Abs { param, param_type, body } => {
            let tctx2 = tctx.insert(param, param_type);
            assert(ctx_simple(tctx2)) by {
                assert forall|y: Seq<char>| #[trigger] tctx2.contains_key(y) implies ty_simple(
                    tctx2[y],
                ) by {
                    if y != param {
                        assert(tctx.contains_key(y));
                    }
                }
            }
            let t_body = infer_spec(*body, tctx2)->Ok_0;
            assert(ctx_simple(tctx) && closure_wt(*body, param, venv, param_type, t_body, tctx));
        },
        ExprV::App { arg, abs } => {
            let r_arg = infer_spec(*arg, tctx);
            let r_abs = infer_spec(*abs, tctx);
            assert(r_arg is Ok && r_abs is Ok);
            let t_arg = r_arg->Ok_0;
            let t_abs = r_abs->Ok_0;
            assert(t_abs matches TypeV::Closure { param, body } && *param == t_arg && *body
                == t);
            lemma_infer_simple(*arg, tctx, t_arg);
            lemma_progress(*arg, tctx, venv, t_arg, fuel);
            lemma_progress(*abs, tctx, venv, t_abs, fuel);
            if eval_spec(*arg, venv, fuel) is Ok && eval_spec(*abs, venv, fuel) is Ok {
                let arg_value = eval_spec(*arg, venv, fuel)->Ok_0;
                let abs_value = eval_spec(*abs, venv, fuel)->Ok_0;
                assert(val_wt(arg_value, t_arg));
                assert(val_wt(abs_value, t_abs));
                let param_t = t_abs->Closure_param;
                let body_t = t_abs->Closure_body;
                match abs_value {
                    ValueV::Closure { param: p, body: b, context: cenv } => {
                        if fuel > 0 {
                            let tctx2 = choose|tctx2: Map<Seq<char>, TypeV>|
                                #[trigger] ctx_simple(tctx2) && closure_wt(
                                    b,
                                    p,
                                    cenv,
                                    *param_t,
                                    *body_t,
                                    tctx2,
                                );
                            assert(closure_wt(b, p, cenv, *param_t, *body_t, tctx2));
                            lemma_env_wt_insert(cenv, tctx2, p, arg_value, t_arg);
                            assert(ctx_simple(tctx2.insert(p, t_arg))) by {
                                assert forall|y: Seq<char>|
                                    #[trigger] tctx2.insert(p, t_arg).contains_key(y)
                                    implies ty_simple(tctx2.insert(p, t_arg)[y]) by {
                                    if y != p {
                                        assert(tctx2.contains_key(y));
                                    }
                                }
                            }
                            lemma_progress(
                                b,
                                tctx2.insert(p, t_arg),
                                cenv.insert(p, arg_value),
                                t,
                                (fuel - 1) as nat,
                            );
                        }
                    },
                    ValueV::Native(_) => {},
                    _ => {},
                }
            }
        },
        ExprV::TypeAbs { .. } => {},
        ExprV::TypeApp { .. } => {},
    }
}

} // verus!
