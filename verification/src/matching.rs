//! Pattern matching over coins and optional numbers.

use vstd::prelude::*;

verus! {

#[derive(Debug)]
pub enum UsState {
    Alabama,
    Alaska,
}

pub enum Coin {
    Penny,
    Nickel,
    Dime,
    Quarter(UsState),
}

/// The face value of a coin, in cents.
pub open spec fn spec_value_in_cents(coin: Coin) -> u32 {
    match coin {
        Coin::Penny => 1,
        Coin::Nickel => 5,
        Coin::Dime => 10,
        Coin::Quarter(_) => 25,
    }
}

/// The face value of a coin, in cents.
pub fn value_in_cents(coin: Coin) -> (cents: u32)
    ensures
        cents == spec_value_in_cents(coin),
{
    match coin {
        Coin::Penny => 1,
        Coin::Nickel => 5,
        Coin::Dime => 10,
        Coin::Quarter(_state) => 25,
    }
}

/// One more than the number, or 0 when there is none.
pub fn plus_one(x: Option<i32>) -> (r: i32)
    requires
        x is Some ==> x->0 < i32::MAX,
    ensures
        r == match x {
            Option::None => 0int,
            Option::Some(i) => i + 1,
        },
{
    match x {
        None => 0,
        Some(i) => i + 1,
    }
}

/// One more than the number, or 0 when there is none.
pub fn get_plus_one(x: Option<i32>) -> (r: i32)
    requires
        x is Some ==> x->0 < i32::MAX,
    ensures
        r == match x {
            Option::None => 0int,
            Option::Some(i) => i + 1,
        },
{
    match x {
        None => 0,
        Some(i) => i + 1,
    }
}

/// One more than the number, still wrapped; `None` stays `None`.
pub fn plus_one_nonone(x: Option<i32>) -> (r: Option<i32>)
    requires
        x is Some ==> x->0 < i32::MAX,
    ensures
        r == match x {
            Option::None => Option::<i32>::None,
            Option::Some(i) => Option::Some((i + 1) as i32),
        },
{
    match x {
        Some(i) => Some(i + 1),
        _ => None,
    }
}

/// Keeps only the special numbers 1 and 3; everything else becomes 0.
pub fn special1_3(x: Option<i32>) -> (r: i32)
    ensures
        r == if x == Option::Some(3i32) {
            3int
        } else if x == Option::Some(1i32) {
            1int
        } else {
            0int
        },
{
    match x {
        Some(3) => 3,
        Some(1) => 1,
        _ => 0,
    }
}

} // verus!
