//! The persistent binding environments that the type checker and the
//! evaluator thread through their recursion. Both wrap a persistent
//! immutable map: extending a binding yields a new environment that shares
//! unmodified structure with its parent, so a closure can capture an
//! environment that keeps evolving independently elsewhere.

use vstd::prelude::*;
use crate::ty::{Type, TypeV};
use crate::value::{Value, ValueV};

verus! {

/// What a type context holds: a finite map from term-variable names to types.
pub uninterp spec fn type_context_model(m: TypeContext) -> Map<Seq<char>, TypeV>;

/// What a value context holds: a finite map from term-variable names to values.
pub uninterp spec fn value_context_model(m: ValueContext) -> Map<Seq<char>, ValueV>;

/// The model of an empty type context.
pub open spec fn type_context_empty() -> Map<Seq<char>, TypeV> {
    Map::<Seq<char>, TypeV>::empty()
}

/// The model of an empty value context.
pub open spec fn value_context_empty() -> Map<Seq<char>, ValueV> {
    Map::<Seq<char>, ValueV>::empty()
}

/// A persistent map from term-variable names to types.
#[verifier::external_body]
#[derive(Debug)]
pub struct TypeContext {
    map: im::hashmap::HashMap<String, Type>,
}

/// A persistent map from term-variable names to values.
#[verifier::external_body]
#[derive(Debug)]
pub struct ValueContext {
    map: im::hashmap::HashMap<String, Value>,
}

impl View for TypeContext {
    type V = Map<Seq<char>, TypeV>;

    open spec fn view(&self) -> Map<Seq<char>, TypeV> {
        type_context_model(*self)
    }
}

impl View for ValueContext {
    type V = Map<Seq<char>, ValueV>;

    open spec fn view(&self) -> Map<Seq<char>, ValueV> {
        value_context_model(*self)
    }
}

/// Relies on im::HashMap::new: the fresh map is empty.
#[verifier::external_body]
fn type_context_new() -> (r: TypeContext)
    ensures
        type_context_model(r) == type_context_empty(),
{
    TypeContext { map: im::hashmap::HashMap::new() }
}

/// Relies on im::HashMap::get: the value bound to a key equal to `name`,
/// if the map holds one; keys are compared as strings.
#[verifier::external_body]
fn type_context_get<'a>(m: &'a TypeContext, name: &String) -> (r: Option<&'a Type>)
    ensures
        (match r {
            Some(t) => type_context_model(*m).contains_key(name@)
                && t@ == type_context_model(*m)[name@],
            None => !type_context_model(*m).contains_key(name@),
        }),
{
    m.map.get(name)
}

/// Relies on im::HashMap::update: a copy of the map with the binding added,
/// the original left untouched.
#[verifier::external_body]
fn type_context_update(m: &TypeContext, name: String, ty: Type) -> (r: TypeContext)
    ensures
        type_context_model(r) == type_context_model(*m).insert(name@, ty@),
{
    TypeContext { map: m.map.update(name, ty) }
}

/// Relies on im::HashMap::clone: the clone is the same map (shared structure).
#[verifier::external_body]
fn type_context_clone(m: &TypeContext) -> (r: TypeContext)
    ensures
        r == *m,
{
    TypeContext { map: m.map.clone() }
}

/// Relies on im::HashMap::new: the fresh map is empty.
#[verifier::external_body]
fn value_context_new() -> (r: ValueContext)
    ensures
        value_context_model(r) == value_context_empty(),
{
    ValueContext { map: im::hashmap::HashMap::new() }
}

/// Relies on im::HashMap::get: the value bound to a key equal to `name`,
/// if the map holds one; keys are compared as strings.
#[verifier::external_body]
fn value_context_get<'a>(m: &'a ValueContext, name: &String) -> (r: Option<&'a Value>)
    ensures
        (match r {
            Some(v) => value_context_model(*m).contains_key(name@)
                && v@ == value_context_model(*m)[name@],
            None => !value_context_model(*m).contains_key(name@),
        }),
{
    m.map.get(name)
}

/// Relies on im::HashMap::update: a copy of the map with the binding added,
/// the original left untouched.
#[verifier::external_body]
fn value_context_update(m: &ValueContext, name: String, value: Value) -> (r: ValueContext)
    ensures
        value_context_model(r) == value_context_model(*m).insert(name@, value@),
{
    ValueContext { map: m.map.update(name, value) }
}

/// Relies on im::HashMap::clone: the clone is the same map (shared structure).
#[verifier::external_body]
fn value_context_clone(m: &ValueContext) -> (r: ValueContext)
    ensures
        r == *m,
{
    ValueContext { map: m.map.clone() }
}

/// Relies on im::HashMap::eq: true exactly when the two maps hold the same
/// bindings, values compared structurally.
#[verifier::external_body]
fn value_context_eq(a: &ValueContext, b: &ValueContext) -> (r: bool)
    ensures
        r == (value_context_model(*a) == value_context_model(*b)),
{
    a.map == b.map
}

impl TypeContext {
    /// An empty type context.
    pub fn new() -> (r: Self)
        ensures
            r@ == type_context_empty(),
    {
        type_context_new()
    }

    /// The type bound to `name`, if any.
    pub fn get<'a>(&'a self, name: &String) -> (r: Option<&'a Type>)
        ensures
            (match r {
                Some(t) => self@.contains_key(name@) && t@ == self@[name@],
                None => !self@.contains_key(name@),
            }),
    {
        type_context_get(self, name)
    }

    /// A context that binds `name` to `ty` and otherwise agrees with `self`;
    /// `self` is untouched (persistent-map semantics).
    pub fn update(&self, name: String, ty: Type) -> (r: Self)
        ensures
            r@ == self@.insert(name@, ty@),
    {
        type_context_update(self, name, ty)
    }
}

impl Clone for TypeContext {
    /// A clone of a context is the same context.
    fn clone(&self) -> (res: Self)
        ensures
            res == *self,
    {
        type_context_clone(self)
    }
}

impl ValueContext {
    /// An empty value context.
    pub fn new() -> (r: Self)
        ensures
            r@ == value_context_empty(),
    {
        value_context_new()
    }

    /// The value bound to `name`, if any.
    pub fn get<'a>(&'a self, name: &String) -> (r: Option<&'a Value>)
        ensures
            (match r {
                Some(v) => self@.contains_key(name@) && v@ == self@[name@],
                None => !self@.contains_key(name@),
            }),
    {
        value_context_get(self, name)
    }

    /// A context that binds `name` to `value` and otherwise agrees with
    /// `self`; `self` is untouched (persistent-map semantics).
    pub fn update(&self, name: String, value: Value) -> (r: Self)
        ensures
            r@ == self@.insert(name@, value@),
    {
        value_context_update(self, name, value)
    }
}

impl Clone for ValueContext {
    /// A clone of a context is the same context.
    fn clone(&self) -> (res: Self)
        ensures
            res == *self,
    {
        value_context_clone(self)
    }
}

impl PartialEq for ValueContext {
    /// Two contexts are equal when they hold the same bindings.
    fn eq(&self, other: &Self) -> (r: bool)
        ensures
            r == (self@ == other@),
    {
        value_context_eq(self, other)
    }
}

impl vstd::std_specs::cmp::PartialEqSpecImpl for ValueContext {
    open spec fn obeys_eq_spec() -> bool {
        true
    }

    open spec fn eq_spec(&self, other: &Self) -> bool {
        self@ == other@
    }
}

} // verus!
