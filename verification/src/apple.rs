//! A numeric wrapper that compares by its quantity and adds by summing
//! quantities.

use vstd::prelude::*;
use vstd::std_specs::cmp::PartialEqSpec;
use vstd::std_specs::cmp::PartialOrdSpec;
use core::cmp::Ordering;

verus! {

/// A quantity of apples.
pub struct Apple {
    pub quantity: i32,
}

impl PartialEq for Apple {
    fn eq(&self, other: &Self) -> (r: bool) {
        self.quantity == other.quantity
    }
}

impl vstd::std_specs::cmp::PartialEqSpecImpl for Apple {
    open spec fn obeys_eq_spec() -> bool {
        true
    }

    open spec fn eq_spec(&self, other: &Apple) -> bool {
        self.quantity == other.quantity
    }
}

impl PartialOrd for Apple {
    fn partial_cmp(&self, other: &Self) -> (r: Option<Ordering>) {
        self.quantity.partial_cmp(&other.quantity)
    }
}

impl vstd::std_specs::cmp::PartialOrdSpecImpl for Apple {
    open spec fn obeys_partial_cmp_spec() -> bool {
        true
    }

    open spec fn partial_cmp_spec(&self, other: &Apple) -> Option<Ordering> {
        if self.quantity < other.quantity {
            Some(Ordering::Less)
        } else if self.quantity == other.quantity {
            Some(Ordering::Equal)
        } else {
            Some(Ordering::Greater)
        }
    }
}

impl Apple {
    /// Combines two quantities into one wrapper holding their sum.
    pub fn add(self, rhs: Self) -> (r: Apple)
        requires
            self.quantity + rhs.quantity <= i32::MAX,
            self.quantity + rhs.quantity >= i32::MIN,
        ensures
            r.quantity == self.quantity + rhs.quantity,
    {
        Apple { quantity: self.quantity + rhs.quantity }
    }
}

/// Two wrappers compare equal exactly when their underlying quantities
/// are equal, both under `==` and under ordering.
pub proof fn lemma_equal_quantity_compares_equal(a: Apple, b: Apple)
    ensures
        a.eq_spec(&b) <==> a.quantity == b.quantity,
        a.partial_cmp_spec(&b) == Some(Ordering::Equal) <==> a.quantity == b.quantity,
{
}

} // verus!
