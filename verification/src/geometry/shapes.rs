//! Circles, triangles and line segments.
use vstd::prelude::*;
use crate::geometry::fixed::Fixed;
use crate::geometry::vector::Vector;

verus! {

/// A circle given by its centre and radius. The radius is expected to be
/// non-negative.
#[derive(Clone, Copy, Debug, PartialEq, Eq, Structural)]
pub struct Circle {
    pub pos: Vector,
    pub radius: Fixed,
}

impl Circle {
    /// The circle around `center` with the given radius.
    pub fn new(center: Vector, radius: Fixed) -> (r: Circle)
        ensures
            r == (Circle { pos: center, radius }),
    {
        Circle { pos: center, radius }
    }

    /// The centre point.
    pub fn center(&self) -> (r: Vector)
        ensures
            r == self.pos,
    {
        self.pos
    }
}

/// A triangle given by its three corners.
#[derive(Clone, Copy, Debug, PartialEq, Eq, Structural)]
pub struct Triangle {
    pub a: Vector,
    pub b: Vector,
    pub c: Vector,
}

impl Triangle {
    pub open spec fn spec_center(self) -> Vector {
        self.a.plus(self.b).plus(self.c).divided(Fixed::from_int(3))
    }

    /// The triangle with the given corners.
    pub fn new(a: Vector, b: Vector, c: Vector) -> (r: Triangle)
        ensures
            r == (Triangle { a, b, c }),
    {
        Triangle { a, b, c }
    }

    /// The centroid: the mean of the three corners.
    #[verifier::when_used_as_spec(spec_center)]
    pub fn center(self) -> (r: Vector)
        ensures
            r == self.spec_center(),
    {
        self.a.plus(self.b).plus(self.c).divided(Fixed::from_int(3))
    }
}

/// A line segment from `a` to `b`, drawn `t` thick.
#[derive(Clone, Copy, Debug, PartialEq, Eq, Structural)]
pub struct Line {
    pub a: Vector,
    pub b: Vector,
    pub t: Fixed,
}

impl Line {
    /// The segment from `a` to `b` with a thickness of one.
    pub fn new(a: Vector, b: Vector) -> (r: Line)
        ensures
            r == (Line { a, b, t: Fixed { raw: crate::geometry::fixed::SCALE } }),
    {
        Line { a, b, t: Fixed::one() }
    }

    /// The same segment with thickness `t`.
    pub fn with_thickness(self, t: Fixed) -> (r: Line)
        ensures
            r == (Line { a: self.a, b: self.b, t }),
    {
        Line { a: self.a, b: self.b, t }
    }
}

} // verus!
