//! One `largest` function per element type, then one for every ordered
//! type, plus generic points.

use core::cmp::Ordering;
use vstd::prelude::*;
use vstd::std_specs::cmp::PartialOrdSpec;

verus! {

/// The largest number in the list.
pub fn get_largest(list: &[i32]) -> (r: i32)
    requires
        list@.len() > 0,
    ensures
        list@.contains(r),
        forall|k: int| 0 <= k < list@.len() ==> list@[k] <= r,
{
    let mut largest = list[0];
    let mut idx: usize = 1;
    while idx < list.len()
        invariant
            1 <= idx <= list@.len(),
            list@.contains(largest),
            forall|k: int| 0 <= k < idx ==> list@[k] <= largest,
        decreases list@.len() - idx,
    {
        let item = list[idx];
        if item > largest {
            largest = item;
        }
        idx = idx + 1;
    }
    largest
}

/// The largest number in the list.
pub fn largest_i32(list: &[i32]) -> (r: i32)
    requires
        list@.len() > 0,
    ensures
        list@.contains(r),
        forall|k: int| 0 <= k < list@.len() ==> list@[k] <= r,
{
    let mut largest = list[0];
    let mut idx: usize = 1;
    while idx < list.len()
        invariant
            1 <= idx <= list@.len(),
            list@.contains(largest),
            forall|k: int| 0 <= k < idx ==> list@[k] <= largest,
        decreases list@.len() - idx,
    {
        let item = list[idx];
        if item > largest {
            largest = item;
        }
        idx = idx + 1;
    }
    largest
}

/// The largest character in the list, by code point.
pub fn largest_char(list: &[char]) -> (r: char)
    requires
        list@.len() > 0,
    ensures
        list@.contains(r),
        forall|k: int| 0 <= k < list@.len() ==> list@[k] <= r,
{
    let mut largest = list[0];
    let mut idx: usize = 1;
    while idx < list.len()
        invariant
            1 <= idx <= list@.len(),
            list@.contains(largest),
            forall|k: int| 0 <= k < idx ==> list@[k] <= largest,
        decreases list@.len() - idx,
    {
        let item = list[idx];
        if item > largest {
            largest = item;
        }
        idx = idx + 1;
    }
    largest
}

/// What scanning the list keeps as "largest so far": each element in turn
/// replaces the running result exactly when it compares greater.
pub open spec fn running_largest<T: PartialOrd>(s: Seq<T>) -> T
    recommends
        s.len() > 0,
    decreases s.len(),
{
    if s.len() <= 1 {
        s[0]
    } else {
        let prev = running_largest(s.drop_last());
        if s.last().partial_cmp_spec(&prev) == Some(Ordering::Greater) {
            s.last()
        } else {
            prev
        }
    }
}

/// The largest element of the list, for any ordered, copyable type.
pub fn largest_fanxing<T: PartialOrd + Copy>(list: &[T]) -> (r: T)
    requires
        list@.len() > 0,
        T::obeys_partial_cmp_spec(),
    ensures
        r == running_largest(list@),
{
    let mut largest = list[0];
    let mut idx: usize = 1;
    proof {
        assert(list@.take(1).drop_last() =~= list@.take(0));
        assert(largest == running_largest(list@.take(1)));
    }
    while idx < list.len()
        invariant
            1 <= idx <= list@.len(),
            T::obeys_partial_cmp_spec(),
            largest == running_largest(list@.take(idx as int)),
        decreases list@.len() - idx,
    {
        let item = list[idx];
        proof {
            assert(list@.take(idx as int + 1).drop_last() =~= list@.take(idx as int));
            assert(list@.take(idx as int + 1).last() == list@[idx as int]);
        }
        if item > largest {
            largest = item;
        }
        idx = idx + 1;
    }
    proof {
        assert(list@.take(list@.len() as int) =~= list@);
    }
    largest
}

/// The largest element of the list, borrowed rather than copied.
pub fn largest_fanxing_yinyong<T: PartialOrd>(list: &[T]) -> (r: &T)
    requires
        list@.len() > 0,
        T::obeys_partial_cmp_spec(),
    ensures
        *r == running_largest(list@),
{
    let mut largest = &list[0];
    let mut idx: usize = 1;
    proof {
        assert(list@.take(1).drop_last() =~= list@.take(0));
        assert(*largest == running_largest(list@.take(1)));
    }
    while idx < list.len()
        invariant
            1 <= idx <= list@.len(),
            T::obeys_partial_cmp_spec(),
            *largest == running_largest(list@.take(idx as int)),
        decreases list@.len() - idx,
    {
        let item = &list[idx];
        proof {
            assert(list@.take(idx as int + 1).drop_last() =~= list@.take(idx as int));
            assert(list@.take(idx as int + 1).last() == list@[idx as int]);
        }
        if item > largest {
            largest = item;
        }
        idx = idx + 1;
    }
    proof {
        assert(list@.take(list@.len() as int) =~= list@);
    }
    largest
}

pub struct Point<T> {
    pub x: T,
    pub y: T,
}

impl<T> Point<T> {
    /// A borrow of the first coordinate.
    pub fn x(&self) -> (r: &T)
        ensures
            *r == self.x,
    {
        &self.x
    }
}

pub struct PointDouble<T, U> {
    pub x: T,
    pub y: U,
}

impl<T, U> PointDouble<T, U> {
    /// A point made of `self`'s first coordinate and `other`'s second.
    pub fn mixup<V, W>(self, other: PointDouble<V, W>) -> (r: PointDouble<T, W>)
        ensures
            r.x == self.x,
            r.y == other.y,
    {
        PointDouble { x: self.x, y: other.y }
    }
}

} // verus!
