//! Small verified building blocks: generic accessors, greeting types,
//! a numeric wrapper with comparison and addition, optional-value
//! doubling, text filtering, a counter, and an ordered key set.

mod apple;
mod category;
mod counter;
mod funcs;
mod greet;
mod ordered;
mod point;
mod text;
mod value;

pub use apple::lemma_equal_quantity_compares_equal;
pub use apple::Apple;
pub use category::Category;
pub use counter::Counter;
pub use greet::Bye;
pub use greet::CanSayGoodBye;
pub use greet::CanSayHello;
pub use greet::Hi;
pub use greet::SimpleMan;
pub use greet::SimplePerson;
pub use ordered::lemma_enumerates_ascending;
pub use ordered::OrderedSet;
pub use point::GetValue;
pub use point::Point;
pub use text::filter;
pub use text::upper_of;
pub use value::Value;

pub use funcs::double;
pub use funcs::duplicated;
pub use funcs::min;
pub use funcs::say_my_name;
