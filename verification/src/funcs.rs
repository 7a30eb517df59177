//! Free functions: minimum of two values, equality testing, identity,
//! and doubling of an optional number.

use vstd::prelude::*;

verus! {

/// Returns the smaller of the two arguments; when they are equal,
/// either answer is the same value.
pub fn min(value1: i32, value2: i32) -> (r: i32)
    ensures
        r == if value1 < value2 {
            value1
        } else {
            value2
        },
{
    if value1 < value2 {
        value1
    } else {
        value2
    }
}

/// Returns whether the two arguments are equal.
pub fn duplicated(value1: i32, value2: i32) -> (r: bool)
    ensures
        r == (value1 == value2),
{
    value1 == value2
}

/// Returns its argument unchanged.
pub fn say_my_name<T>(value: T) -> (r: T)
    ensures
        r == value,
{
    value
}

/// Doubles a present value and keeps an absent value absent.
pub fn double(x: Option<i32>) -> (r: Option<i32>)
    requires
        x matches Some(v) ==> 2 * v <= i32::MAX && 2 * v >= i32::MIN,
    ensures
        match x {
            None => r is None,
            Some(v) => r matches Some(d) && d == 2 * v,
        },
{
    match x {
        None => None,
        Some(v) => Some(v * 2),
    }
}

} // verus!
