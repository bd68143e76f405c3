//! Rectangles with whole-number sides.

use vstd::prelude::*;

verus! {

/// A rectangle given by its width and height.
#[derive(Clone, Copy, Debug, PartialEq, Eq, Structural)]
pub struct Rectangle {
    pub width: u32,
    pub height: u32,
}

impl Rectangle {
    /// The number of unit squares that the rectangle covers.
    pub fn area(&self) -> (r: u32)
        requires
            self.width * self.height <= u32::MAX,
        ensures
            r == self.width * self.height,
    {
        self.width * self.height
    }

    /// Whether the width is not zero.
    pub fn width(&self) -> (r: bool)
        ensures
            r == (self.width > 0),
    {
        self.width > 0
    }

    /// The square with sides `size`.
    pub fn square(size: u32) -> (r: Self)
        ensures
            r.width == size,
            r.height == size,
    {
        Self { width: size, height: size }
    }

    /// Whether `other` fits strictly inside, both sides shorter.
    pub fn can_hold(&self, other: &Rectangle) -> (r: bool)
        ensures
            r == (self.width > other.width && self.height > other.height),
    {
        self.width > other.width && self.height > other.height
    }
}

/// The area of a rectangle given as the pair of its sides.
pub fn area(dimensions: (u32, u32)) -> (r: u32)
    requires
        dimensions.0 * dimensions.1 <= u32::MAX,
    ensures
        r == dimensions.0 * dimensions.1,
{
    let height = dimensions.0;
    let width = dimensions.1;
    height * width
}

/// The area of `rectangle`.
pub fn rect_area(rectangle: &Rectangle) -> (r: u32)
    requires
        rectangle.width * rectangle.height <= u32::MAX,
    ensures
        r == rectangle.width * rectangle.height,
{
    proof {
        assert(rectangle.height * rectangle.width == rectangle.width * rectangle.height) by (
        nonlinear_arith);
    }
    rectangle.height * rectangle.width
}

} // verus!
