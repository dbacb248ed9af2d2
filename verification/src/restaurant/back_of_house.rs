//! The kitchen: breakfasts whose fruit the kitchen alone chooses, and the
//! appetizers of the day.

use vstd::prelude::*;
use vstd::string::*;

verus! {

pub struct Breakfast {
    pub toast: String,
    seasonal_fruit: String,
}

impl Breakfast {
    /// The toast the guest asked for.
    pub closed spec fn spec_toast(&self) -> Seq<char> {
        self.toast@
    }

    /// The fruit the kitchen chose to serve alongside.
    pub closed spec fn spec_fruit(&self) -> Seq<char> {
        self.seasonal_fruit@
    }

    /// A summer breakfast with the requested toast; the fruit is the
    /// kitchen's choice, and in summer it is peaches.
    pub fn summer(toast: &str) -> (b: Breakfast)
        ensures
            b.spec_toast() == toast@,
            b.spec_fruit() == "peaches"@,
    {
        Breakfast {
            toast: String::from_str(toast),
            seasonal_fruit: String::from_str("peaches"),
        }
    }
}

pub enum Appetizer {
    Soup,
    Salad,
}

/// Replaces a wrong dish: the kitchen cooks anew and the pass sends it out.
pub fn fix_incorrect_order() {
    cook_order();
    super::serve_order();
}

/// Cooks a dish; this lesson attaches no behaviour to it.
pub fn cook_order() {
}

} // verus!
