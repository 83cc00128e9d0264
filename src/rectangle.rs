use vstd::prelude::*;

verus! {

/// An axis-aligned rectangle. Both dimensions are unsigned, so no negative
/// size can be represented.
#[derive(Debug, Clone, Copy, PartialEq, Eq, Structural)]
pub struct Rectangle {
    pub width: u32,
    pub height: u32,
}

impl Rectangle {
    /// The area of the rectangle, as a mathematical integer.
    pub open spec fn area_of(self) -> int {
        self.width * self.height
    }

    /// The area of the rectangle fits in a `u32`.
    pub open spec fn area_fits(self) -> bool {
        self.area_of() <= u32::MAX
    }

    /// `self` is at least as wide and at least as tall as `other`.
    pub open spec fn holds(self, other: Rectangle) -> bool {
        self.width >= other.width && self.height >= other.height
    }

    /// Width times height. The product must fit in a `u32`.
    pub fn area(&self) -> (r: u32)
        requires
            self.area_fits(),
        ensures
            r == self.area_of(),
    {
        self.width * self.height
    }

    /// Whether the rectangle has a non-zero width.
    pub fn width(&self) -> (r: bool)
        ensures
            r == (self.width > 0),
    {
        self.width > 0
    }

    /// Whether `other` fits inside `self`, dimension by dimension.
    pub fn can_fit(&self, other: &Rectangle) -> (r: bool)
        ensures
            r == self.holds(*other),
    {
        self.width >= other.width && self.height >= other.height
    }

    /// A square with the given side length.
    pub fn square(length: u32) -> (r: Rectangle)
        ensures
            r.width == length,
            r.height == length,
    {
        Rectangle { width: length, height: length }
    }

    /// A rectangle with exactly the given dimensions; any values are accepted.
    pub fn new(width: u32, height: u32) -> (r: Rectangle)
        ensures
            r.width == width,
            r.height == height,
    {
        Rectangle { width, height }
    }

    /// Does nothing; shows that a type can have several `impl` blocks.
    pub fn _example(&self) {
    }
}

/// Every rectangle can hold itself.
pub proof fn lemma_can_fit_reflexive(r: Rectangle)
    ensures
        r.holds(r),
{
}

/// Containment is not symmetric: some rectangle holds another that does not
/// hold it back.
pub proof fn lemma_can_fit_not_symmetric()
    ensures
        exists|a: Rectangle, b: Rectangle| a.holds(b) != b.holds(a),
{
    let a = Rectangle { width: 30, height: 50 };
    let b = Rectangle { width: 10, height: 40 };
    assert(a.holds(b) != b.holds(a));
}

} // verus!
