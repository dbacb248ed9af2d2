//! The waiters' side of the front of house.

use vstd::prelude::*;

verus! {

/// Writes an order down; this lesson attaches no behaviour to it.
pub fn take_order() {
}

/// Brings an order out; this lesson attaches no behaviour to it.
pub fn serve_order() {
}

/// Settles the bill; this lesson attaches no behaviour to it.
pub fn take_payment() {
}

} // verus!
