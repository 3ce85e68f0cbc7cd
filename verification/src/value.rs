//! Field values and their type tags.
//!
//! A record's fields are carried as plain tagged values; a column's declared
//! type is a [`TypeTag`]. The spec-level shape of a value is [`ValueV`].

use vstd::prelude::*;

verus! {

/// The declared type of a column / field.
#[derive(Clone, Copy, PartialEq, Eq, Structural, Debug)]
pub enum TypeTag {
    Int,
    Text,
    Bool,
}

/// A field value, as bound into a statement or returned in a result row.
#[derive(Debug)]
pub enum Value {
    Int(i64),
    Text(String),
    Bool(bool),
}

/// The mathematical shape of a [`Value`].
pub enum ValueV {
    Int(int),
    Text(Seq<char>),
    Bool(bool),
}

/// The type tag a spec-level value carries.
pub open spec fn tag_of(v: ValueV) -> TypeTag {
    match v {
        ValueV::Int(_) => TypeTag::Int,
        ValueV::Text(_) => TypeTag::Text,
        ValueV::Bool(_) => TypeTag::Bool,
    }
}

impl View for Value {
    type V = ValueV;

    open spec fn view(&self) -> ValueV {
        match self {
            Value::Int(i) => ValueV::Int(*i as int),
            Value::Text(s) => ValueV::Text(s@),
            Value::Bool(b) => ValueV::Bool(*b),
        }
    }
}

impl Value {
    /// The type tag of this value.
    pub fn tag(&self) -> (t: TypeTag)
        ensures
            t == tag_of(self@),
    {
        match self {
            Value::Int(_) => TypeTag::Int,
            Value::Text(_) => TypeTag::Text,
            Value::Bool(_) => TypeTag::Bool,
        }
    }
}

impl Clone for Value {
    /// A clone carries the same value.
    fn clone(&self) -> (r: Value)
        ensures
            r@ == self@,
    {
        match self {
            Value::Int(i) => Value::Int(*i),
            Value::Text(s) => Value::Text(s.clone()),
            Value::Bool(b) => Value::Bool(*b),
        }
    }
}

impl PartialEq for Value {
    fn eq(&self, other: &Value) -> (r: bool) {
        match (self, other) {
            (Value::Int(a), Value::Int(b)) => *a == *b,
            (Value::Text(a), Value::Text(b)) => *a == *b,
            (Value::Bool(a), Value::Bool(b)) => *a == *b,
            _ => false,
        }
    }
}

impl vstd::std_specs::cmp::PartialEqSpecImpl for Value {
    open spec fn obeys_eq_spec() -> bool {
        true
    }

    open spec fn eq_spec(&self, other: &Value) -> bool {
        self@ == other@
    }
}

} // verus!
