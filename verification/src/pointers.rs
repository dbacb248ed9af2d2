//! A box of one's own: a wrapper that owns a single value.

use vstd::prelude::*;

verus! {

pub struct MyBox<T>(pub T);

impl<T> MyBox<T> {
    /// Puts a value in the box.
    pub fn new(x: T) -> (b: MyBox<T>)
        ensures
            b.0 == x,
    {
        MyBox(x)
    }
}

/// A list is either a value followed by the rest, or the end.
pub enum List<T> {
    Cons(T, Box<List<T>>),
    Nil,
}

impl<T> List<T> {
    /// How many values the list holds.
    pub open spec fn spec_len(&self) -> nat
        decreases self,
    {
        match self {
            List::Cons(_, rest) => 1 + rest.spec_len(),
            List::Nil => 0,
        }
    }

    /// How many values the list holds.
    pub fn len(&self) -> (n: usize)
        requires
            self.spec_len() <= usize::MAX,
        ensures
            n == self.spec_len(),
        decreases self.spec_len(),
    {
        match self {
            List::Cons(_, rest) => 1 + rest.len(),
            List::Nil => 0,
        }
    }
}

} // verus!
