//! A generic two-field point and a trait that picks one coordinate out
//! of a value.

use vstd::prelude::*;

verus! {

/// A value that exposes one distinguished coordinate.
pub trait GetValue<T> {
    /// The coordinate this value exposes.
    spec fn value_spec(&self) -> T;

    /// Returns a reference to the distinguished coordinate.
    fn get_value(&self) -> (r: &T)
        ensures
            *r == self.value_spec(),
    ;
}

/// A pair of coordinates of one type.
pub struct Point<T> {
    pub x: T,
    pub y: T,
}

impl<T> Point<T> {
    /// Returns a reference to the second coordinate.
    pub fn get_y(&self) -> (r: &T)
        ensures
            *r == self.y,
    {
        &self.y
    }

    /// Returns a reference to the first coordinate.
    pub fn get_x(&self) -> (r: &T)
        ensures
            *r == self.x,
    {
        &self.x
    }
}

impl<T> GetValue<T> for Point<T> {
    open spec fn value_spec(&self) -> T {
        self.x
    }

    fn get_value(&self) -> (r: &T) {
        &self.x
    }
}

} // verus!
