//! The desk at the entrance.

use vstd::prelude::*;

verus! {

/// Puts a guest on the waiting list; this lesson attaches no behaviour to it.
pub fn add_to_waitlist() {
}

/// Shows a guest to a table; this lesson attaches no behaviour to it.
pub fn seat_at_table() {
}

} // verus!
