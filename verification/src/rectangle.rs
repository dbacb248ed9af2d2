//! A rectangle with a width and a height, measured in pixels.

use vstd::prelude::*;

verus! {

#[derive(Debug)]
pub struct Rectangle {
    pub width: u32,
    pub height: u32,
}

impl Rectangle {
    /// The area, in square pixels.
    pub fn area(&self) -> (a: u32)
        requires
            self.width * self.height <= u32::MAX,
        ensures
            a == self.width * self.height,
    {
        self.width * self.height
    }

    /// Whether `rectangle` fits inside `self` without rotating it.
    pub fn can_hold(&self, rectangle: &Rectangle) -> (b: bool)
        ensures
            b == (self.width >= rectangle.width && self.height >= rectangle.height),
    {
        if self.width >= rectangle.width && self.height >= rectangle.height {
            return true;
        }
        return false;
    }

    /// A square with the given side length.
    pub fn square(size: u32) -> (r: Rectangle)
        ensures
            r.width == size,
            r.height == size,
    {
        return Rectangle { width: size, height: size };
    }
}

/// The area of a `width` by `height` rectangle given as two numbers.
pub fn area(width: u32, height: u32) -> (a: u32)
    requires
        width * height <= u32::MAX,
    ensures
        a == width * height,
{
    width * height
}

/// The area of a rectangle given as a `(width, height)` pair.
pub fn area_tuple(dimensions: (u32, u32)) -> (a: u32)
    requires
        dimensions.0 * dimensions.1 <= u32::MAX,
    ensures
        a == dimensions.0 * dimensions.1,
{
    dimensions.0 * dimensions.1
}

/// The area of a rectangle given as a struct.
pub fn area_struct(rectangle: &Rectangle) -> (a: u32)
    requires
        rectangle.width * rectangle.height <= u32::MAX,
    ensures
        a == rectangle.width * rectangle.height,
{
    return rectangle.width * rectangle.height;
}

} // verus!
