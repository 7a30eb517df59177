//! Text filtering: mapping a string to its uppercase form.

use vstd::prelude::*;

verus! {

/// The uppercase form of a sequence of characters. The result depends
/// on the characters alone.
pub uninterp spec fn upper_of(s: Seq<char>) -> Seq<char>;

/// Relies on str::to_uppercase: the uppercase equivalent of the
/// string, determined by its characters alone.
#[verifier::external_body]
fn to_upper(value: &str) -> (r: String)
    ensures
        r@ == upper_of(value@),
{
    value.to_uppercase()
}

/// Maps a string to its uppercase form.
pub fn filter(value: String) -> (r: String)
    ensures
        r@ == upper_of(value@),
{
    to_upper(value.as_str())
}

} // verus!
