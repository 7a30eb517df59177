//! A record with an identifier and a name, and its printable form.

use vstd::prelude::*;
use vstd::string::*;

verus! {

/// A category record.
pub struct Category {
    pub id: String,
    pub name: String,
}

impl Category {
    /// The characters of the printable form of a category.
    pub open spec fn repr_spec(&self) -> Seq<char> {
        "Category { id: \""@ + self.id@ + "\", name: \""@ + self.name@ + "\" }"@
    }

    /// Renders the record as one line naming both fields.
    pub fn debug_repr(&self) -> (r: String)
        ensures
            r@ == self.repr_spec(),
    {
        let r = String::from_str("Category { id: \"");
        let r = r.concat(self.id.as_str());
        let r = r.concat("\", name: \"");
        let r = r.concat(self.name.as_str());
        r.concat("\" }")
    }
}

} // verus!
