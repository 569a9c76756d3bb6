//! Plain query parameter values.
//!
//! A value accumulated by a builder is carried as an opaque typed
//! parameter alongside the statement shape; the core never concatenates
//! a value into statement text.

use vstd::prelude::*;

verus! {

/// A single query parameter: the value a filter compares against or an
/// assignment writes.
#[derive(Debug, PartialEq, Eq)]
pub enum Value {
    /// SQL NULL.
    Null,
    /// A boolean parameter.
    Bool(bool),
    /// A signed integer parameter.
    Int(i64),
    /// A text parameter.
    Text(String),
}

impl Clone for Value {
    fn clone(&self) -> (r: Self)
        ensures
            r == *self,
    {
        match self {
            Value::Null => Value::Null,
            Value::Bool(b) => Value::Bool(*b),
            Value::Int(i) => Value::Int(*i),
            Value::Text(s) => Value::Text(s.clone()),
        }
    }
}

} // verus!
