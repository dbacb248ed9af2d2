//! The same restaurant, used from outside: a guest joins the waiting list
//! through the re-exported hosting desk.

use vstd::prelude::*;

verus! {

/// A guest walks in and joins the waiting list three times over.
pub fn eat_at_restaurant() {
    crate::restaurant::hosting::add_to_waitlist();
    crate::restaurant::hosting::add_to_waitlist();
    crate::restaurant::hosting::add_to_waitlist();
}

} // verus!
