//! A restaurant, organised the way restaurants think about their space:
//! a front of house that seats guests and a back of house that cooks.

use vstd::prelude::*;

pub mod back_of_house;
pub mod hosting;
pub mod serving;

verus! {

/// The sum of two numbers.
pub fn add(left: usize, right: usize) -> (sum: usize)
    requires
        left + right <= usize::MAX,
    ensures
        sum == left + right,
{
    left + right
}

/// A guest walks in and joins the waiting list three times over.
pub fn eat_at_restaurant() {
    hosting::add_to_waitlist();
    hosting::add_to_waitlist();
    hosting::add_to_waitlist();
}

/// Brings an order out; this lesson attaches no behaviour to it.
pub fn serve_order() {
}

} // verus!
