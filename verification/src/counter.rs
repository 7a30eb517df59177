//! A counter over a single integer field.

use vstd::prelude::*;

verus! {

/// Holds a running count.
pub struct Counter {
    pub counter: i32,
}

impl Counter {
    /// Makes a counter that starts at the given value.
    pub fn new(counter: i32) -> (r: Counter)
        ensures
            r.counter == counter,
    {
        Counter { counter }
    }

    /// Raises the count by one.
    pub fn increment(&mut self)
        requires
            old(self).counter < i32::MAX,
        ensures
            final (self).counter == old(self).counter + 1,
    {
        self.counter = self.counter + 1;
    }
}

} // verus!
