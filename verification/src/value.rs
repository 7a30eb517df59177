//! A generic sum type: either no value or a value of type `T`.

use vstd::prelude::*;

verus! {

/// Either nothing, or one value of type `T`.
pub enum Value<T> {
    NONE,
    VALUE(T),
}

impl<T> Value<T> {
    /// Returns whether a value is present.
    pub fn is_present(&self) -> (r: bool)
        ensures
            r == (self matches Value::VALUE(_)),
    {
        match self {
            Value::NONE => false,
            Value::VALUE(_) => true,
        }
    }
}

} // verus!
