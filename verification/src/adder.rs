//! The arithmetic and the little types that the testing lesson exercises.

use vstd::prelude::*;
use vstd::string::*;

verus! {

/// The sum of two numbers.
pub fn add(left: usize, right: usize) -> (sum: usize)
    requires
        left + right <= usize::MAX,
    ensures
        sum == left + right,
{
    left + right
}

#[derive(Debug)]
pub struct Rectangle {
    pub length: u32,
    pub width: u32,
}

impl Rectangle {
    /// Whether `other` fits strictly inside `self`.
    pub fn can_hold(&self, other: &Rectangle) -> (b: bool)
        ensures
            b == (self.length > other.length && self.width > other.width),
    {
        self.length > other.length && self.width > other.width
    }
}

/// A fixed greeting; the name of the guest is not used.
pub fn greeting(name: &str) -> (r: String)
    ensures
        r@ == "Hello"@,
{
    let _ = name;
    String::from_str("Hello")
}

/// A guess in the guessing game, known to lie between 1 and 100.
pub struct Guess {
    value: u32,
}

impl Guess {
    /// The number this guess stands for.
    pub closed spec fn spec_value(&self) -> u32 {
        self.value
    }

    /// Wraps a raw guess. Values outside 1..=100 are not accepted.
    pub fn new(value: u32) -> (g: Guess)
        requires
            1 <= value <= 100,
        ensures
            g.spec_value() == value,
    {
        Guess { value }
    }
}

} // verus!
