//! Axis-aligned rectangles.
use vstd::prelude::*;
use crate::geometry::fixed::Fixed;
use crate::geometry::vector::Vector;

verus! {

/// An axis-aligned rectangle given by its top-left corner and its size.
/// Sizes are expected to be non-negative; the type does not enforce it.
#[derive(Clone, Copy, Debug, PartialEq, Eq, Structural)]
pub struct Rectangle {
    pub pos: Vector,
    pub size: Vector,
}

impl Rectangle {
    pub open spec fn spec_new(pos: Vector, size: Vector) -> Rectangle {
        Rectangle { pos, size }
    }

    pub open spec fn spec_new_sized(size: Vector) -> Rectangle {
        Rectangle { pos: Vector::zero(), size }
    }

    pub open spec fn spec_from_corners(top_left: Vector, bottom_right: Vector) -> Rectangle {
        Rectangle { pos: top_left, size: bottom_right.minus(top_left) }
    }

    pub open spec fn spec_center(self) -> Vector {
        self.pos.plus(self.size.divided(Fixed::from_int(2)))
    }

    pub open spec fn spec_bottom_right(self) -> Vector {
        self.pos.plus(self.size)
    }

    /// Containment with an inclusive lower and an exclusive upper bound on
    /// each axis. The upper bounds are the exact sums, not saturated ones.
    pub open spec fn spec_contains(self, p: Vector) -> bool {
        &&& self.pos.x@ <= p.x@ < self.pos.x@ + self.size.x@
        &&& self.pos.y@ <= p.y@ < self.pos.y@ + self.size.y@
    }

    /// The rectangle with the given top-left corner and size.
    #[verifier::when_used_as_spec(spec_new)]
    pub fn new(pos: Vector, size: Vector) -> (r: Rectangle)
        ensures
            r == Rectangle::spec_new(pos, size),
    {
        Rectangle { pos, size }
    }

    /// The rectangle of the given size whose top-left corner is the origin.
    #[verifier::when_used_as_spec(spec_new_sized)]
    pub fn new_sized(size: Vector) -> (r: Rectangle)
        ensures
            r == Rectangle::spec_new_sized(size),
    {
        Rectangle { pos: Vector::zero(), size }
    }

    /// The rectangle spanned by its top-left and bottom-right corners.
    #[verifier::when_used_as_spec(spec_from_corners)]
    pub fn from_corners(top_left: Vector, bottom_right: Vector) -> (r: Rectangle)
        ensures
            r == Rectangle::spec_from_corners(top_left, bottom_right),
    {
        Rectangle { pos: top_left, size: bottom_right.minus(top_left) }
    }

    /// Horizontal position of the left edge.
    pub fn x(&self) -> (r: Fixed)
        ensures
            r == self.pos.x,
    {
        self.pos.x
    }

    /// Vertical position of the top edge.
    pub fn y(&self) -> (r: Fixed)
        ensures
            r == self.pos.y,
    {
        self.pos.y
    }

    /// Horizontal extent.
    pub fn width(&self) -> (r: Fixed)
        ensures
            r == self.size.x,
    {
        self.size.x
    }

    /// Vertical extent.
    pub fn height(&self) -> (r: Fixed)
        ensures
            r == self.size.y,
    {
        self.size.y
    }

    /// The top-left corner.
    pub fn top_left(&self) -> (r: Vector)
        ensures
            r == self.pos,
    {
        self.pos
    }

    /// The extent along both axes.
    pub fn size(&self) -> (r: Vector)
        ensures
            r == self.size,
    {
        self.size
    }

    /// The corner opposite to the top-left one.
    #[verifier::when_used_as_spec(spec_bottom_right)]
    pub fn bottom_right(self) -> (r: Vector)
        ensures
            r == self.spec_bottom_right(),
    {
        self.pos.plus(self.size)
    }

    /// The centre point.
    #[verifier::when_used_as_spec(spec_center)]
    pub fn center(self) -> (r: Vector)
        ensures
            r == self.spec_center(),
    {
        self.pos.plus(self.size.divided(Fixed::from_int(2)))
    }

    /// Whether `p` lies inside: on or after the left and top edges, and
    /// strictly before the right and bottom edges.
    #[verifier::when_used_as_spec(spec_contains)]
    pub fn contains(self, p: Vector) -> (r: bool)
        ensures
            r == self.spec_contains(p),
    {
        let px: i128 = p.x.raw as i128;
        let py: i128 = p.y.raw as i128;
        let left: i128 = self.pos.x.raw as i128;
        let top: i128 = self.pos.y.raw as i128;
        let right: i128 = left + self.size.x.raw as i128;
        let bottom: i128 = top + self.size.y.raw as i128;
        left <= px && px < right && top <= py && py < bottom
    }
}

} // verus!
