//! Greeting capabilities: values that can produce a greeting line or a
//! farewell line, and holders bounded by those capabilities.

use vstd::prelude::*;
use vstd::string::*;

verus! {

/// A value that can produce a greeting line.
pub trait CanSayHello {
    /// The characters of the greeting this value produces.
    spec fn hello_spec(&self) -> Seq<char>;

    /// Produces the greeting line.
    fn say_hello(&self) -> (r: String)
        ensures
            r@ == self.hello_spec(),
    ;
}

/// A value that can produce a farewell line.
pub trait CanSayGoodBye {
    /// The characters of the farewell this value produces.
    spec fn good_bye_spec(&self) -> Seq<char>;

    /// Produces the farewell line.
    fn say_good_bye(&self) -> (r: String)
        ensures
            r@ == self.good_bye_spec(),
    ;
}

/// A named greeter with one fixed greeting form.
pub struct SimpleMan {
    pub name: String,
}

impl CanSayHello for SimpleMan {
    open spec fn hello_spec(&self) -> Seq<char> {
        "hello, my name is "@ + self.name@
    }

    fn say_hello(&self) -> (r: String) {
        let r = String::from_str("hello, my name is ");
        r.concat(self.name.as_str())
    }
}

/// A named greeter that can both greet and bid farewell.
pub struct SimplePerson {
    pub name: String,
}

impl CanSayHello for SimplePerson {
    open spec fn hello_spec(&self) -> Seq<char> {
        "hallo from "@ + self.name@
    }

    fn say_hello(&self) -> (r: String) {
        let r = String::from_str("hallo from ");
        r.concat(self.name.as_str())
    }
}

impl CanSayGoodBye for SimplePerson {
    open spec fn good_bye_spec(&self) -> Seq<char> {
        "goodbye "@ + self.name@
    }

    fn say_good_bye(&self) -> (r: String) {
        let r = String::from_str("goodbye ");
        r.concat(self.name.as_str())
    }
}

/// Holds one value that can greet.
pub struct Hi<T: CanSayHello> {
    pub value: T,
}

/// Holds one value that can bid farewell.
pub struct Bye<T: CanSayGoodBye> {
    pub value: T,
}

} // verus!
