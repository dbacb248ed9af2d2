//! A guess whose constructor checks that the value is in range, so that the
//! rest of the program can rely on it without re-checking.

use vstd::prelude::*;

verus! {

pub struct Guess {
    value: i32,
}

impl Guess {
    /// Invariant: every guess that exists is between 1 and 100.
    #[verifier::type_invariant]
    pub closed spec fn in_range(&self) -> bool {
        1 <= self.value <= 100
    }

    /// The number this guess stands for.
    pub closed spec fn spec_value(&self) -> i32 {
        self.value
    }

    /// Wraps a raw guess. Values outside 1..=100 are not accepted.
    pub fn new(value: i32) -> (g: Guess)
        requires
            1 <= value <= 100,
        ensures
            g.spec_value() == value,
    {
        Guess { value }
    }

    /// Reads the checked value back out; it is always in range.
    pub fn value(&self) -> (v: i32)
        ensures
            v == self.spec_value(),
            1 <= v <= 100,
    {
        proof {
            use_type_invariant(self);
        }
        self.value
    }
}

} // verus!
