//! Two-dimensional vectors of fixed-point components.
use vstd::prelude::*;
use crate::geometry::fixed::{Fixed, isqrt, mul_raw, narrow, wide_isqrt, wide_mul, wide_mul_raw};

verus! {

/// A point or displacement in the plane.
#[derive(Clone, Copy, Debug, PartialEq, Eq, Structural)]
pub struct Vector {
    pub x: Fixed,
    pub y: Fixed,
}

impl Vector {
    pub open spec fn spec_new(x: Fixed, y: Fixed) -> Vector {
        Vector { x, y }
    }

    pub open spec fn spec_from_ints(x: i64, y: i64) -> Vector {
        Vector { x: Fixed::from_int(x), y: Fixed::from_int(y) }
    }

    pub open spec fn spec_zero() -> Vector {
        Vector { x: Fixed { raw: 0 }, y: Fixed { raw: 0 } }
    }

    pub open spec fn spec_one() -> Vector {
        Vector::spec_from_ints(1, 1)
    }

    pub open spec fn spec_unit_x() -> Vector {
        Vector::spec_from_ints(1, 0)
    }

    pub open spec fn spec_unit_y() -> Vector {
        Vector::spec_from_ints(0, 1)
    }

    pub open spec fn spec_plus(self, rhs: Vector) -> Vector {
        Vector { x: self.x.plus(rhs.x), y: self.y.plus(rhs.y) }
    }

    pub open spec fn spec_minus(self, rhs: Vector) -> Vector {
        Vector { x: self.x.minus(rhs.x), y: self.y.minus(rhs.y) }
    }

    pub open spec fn spec_neg(self) -> Vector {
        Vector { x: self.x.neg(), y: self.y.neg() }
    }

    pub open spec fn spec_scaled(self, factor: Fixed) -> Vector {
        Vector { x: self.x.times(factor), y: self.y.times(factor) }
    }

    pub open spec fn spec_divided(self, divisor: Fixed) -> Vector {
        Vector { x: self.x.div(divisor), y: self.y.div(divisor) }
    }

    pub open spec fn spec_times(self, rhs: Vector) -> Vector {
        Vector { x: self.x.times(rhs.x), y: self.y.times(rhs.y) }
    }

    pub open spec fn spec_recip(self) -> Vector {
        Vector { x: self.x.recip(), y: self.y.recip() }
    }

    pub open spec fn spec_dot(self, rhs: Vector) -> Fixed {
        Fixed::of(mul_raw(self.x@, rhs.x@) + mul_raw(self.y@, rhs.y@))
    }

    /// Euclidean length: the integer square root of the exact sum of the
    /// squared raw components, saturated.
    pub open spec fn spec_len(self) -> Fixed {
        Fixed::of(isqrt((self.x@ * self.x@ + self.y@ * self.y@) as nat) as int)
    }

    pub open spec fn spec_distance(self, other: Vector) -> Fixed {
        other.minus(self).len()
    }

    pub open spec fn spec_normalize(self) -> Vector {
        self.divided(self.len())
    }

    /// Rotation by the angle whose cosine and sine are given.
    pub open spec fn spec_rotated(self, cos: Fixed, sin: Fixed) -> Vector {
        Vector {
            x: Fixed::of(mul_raw(self.x@, cos@) - mul_raw(self.y@, sin@)),
            y: Fixed::of(mul_raw(self.x@, sin@) + mul_raw(self.y@, cos@)),
        }
    }

    /// The vector with the given components.
    #[verifier::when_used_as_spec(spec_new)]
    pub fn new(x: Fixed, y: Fixed) -> (r: Vector)
        ensures
            r == Vector::spec_new(x, y),
    {
        Vector { x, y }
    }

    /// The vector with the given whole-number components.
    #[verifier::when_used_as_spec(spec_from_ints)]
    pub fn from_ints(x: i64, y: i64) -> (r: Vector)
        ensures
            r == Vector::spec_from_ints(x, y),
    {
        Vector { x: Fixed::from_int(x), y: Fixed::from_int(y) }
    }

    /// The origin.
    #[verifier::when_used_as_spec(spec_zero)]
    pub fn zero() -> (r: Vector)
        ensures
            r == Vector::spec_zero(),
    {
        Vector { x: Fixed::zero(), y: Fixed::zero() }
    }

    /// The vector (1, 1).
    #[verifier::when_used_as_spec(spec_one)]
    pub fn one() -> (r: Vector)
        ensures
            r == Vector::spec_one(),
    {
        Vector::from_ints(1, 1)
    }

    /// The vector (1, 0).
    #[verifier::when_used_as_spec(spec_unit_x)]
    pub fn unit_x() -> (r: Vector)
        ensures
            r == Vector::spec_unit_x(),
    {
        Vector::from_ints(1, 0)
    }

    /// The vector (0, 1).
    #[verifier::when_used_as_spec(spec_unit_y)]
    pub fn unit_y() -> (r: Vector)
        ensures
            r == Vector::spec_unit_y(),
    {
        Vector::from_ints(0, 1)
    }

    /// Componentwise sum.
    #[verifier::when_used_as_spec(spec_plus)]
    pub fn plus(self, rhs: Vector) -> (r: Vector)
        ensures
            r == self.spec_plus(rhs),
    {
        Vector { x: self.x.plus(rhs.x), y: self.y.plus(rhs.y) }
    }

    /// Componentwise difference.
    #[verifier::when_used_as_spec(spec_minus)]
    pub fn minus(self, rhs: Vector) -> (r: Vector)
        ensures
            r == self.spec_minus(rhs),
    {
        Vector { x: self.x.minus(rhs.x), y: self.y.minus(rhs.y) }
    }

    /// The opposite vector.
    #[verifier::when_used_as_spec(spec_neg)]
    pub fn neg(self) -> (r: Vector)
        ensures
            r == self.spec_neg(),
    {
        Vector { x: self.x.neg(), y: self.y.neg() }
    }

    /// Both components multiplied by `factor`.
    #[verifier::when_used_as_spec(spec_scaled)]
    pub fn scaled(self, factor: Fixed) -> (r: Vector)
        ensures
            r == self.spec_scaled(factor),
    {
        Vector { x: self.x.times(factor), y: self.y.times(factor) }
    }

    /// Both components divided by `divisor`.
    #[verifier::when_used_as_spec(spec_divided)]
    pub fn divided(self, divisor: Fixed) -> (r: Vector)
        ensures
            r == self.spec_divided(divisor),
    {
        Vector { x: self.x.div(divisor), y: self.y.div(divisor) }
    }

    /// Componentwise product.
    #[verifier::when_used_as_spec(spec_times)]
    pub fn times(self, rhs: Vector) -> (r: Vector)
        ensures
            r == self.spec_times(rhs),
    {
        Vector { x: self.x.times(rhs.x), y: self.y.times(rhs.y) }
    }

    /// Componentwise reciprocal; a zero component turns into the largest
    /// representable value, which callers are expected to guard against.
    #[verifier::when_used_as_spec(spec_recip)]
    pub fn recip(self) -> (r: Vector)
        ensures
            r == self.spec_recip(),
    {
        Vector { x: self.x.recip(), y: self.y.recip() }
    }

    /// Dot product.
    #[verifier::when_used_as_spec(spec_dot)]
    pub fn dot(self, rhs: Vector) -> (r: Fixed)
        ensures
            r == self.spec_dot(rhs),
    {
        let sum: i128 = wide_mul_raw(self.x.raw, rhs.x.raw) + wide_mul_raw(self.y.raw, rhs.y.raw);
        Fixed { raw: narrow(sum) }
    }

    /// Euclidean length, rounded down to the next millionth.
    #[verifier::when_used_as_spec(spec_len)]
    pub fn len(self) -> (r: Fixed)
        ensures
            r == self.spec_len(),
    {
        let xx: i128 = wide_mul(self.x.raw, self.x.raw);
        let yy: i128 = wide_mul(self.y.raw, self.y.raw);
        assert(xx >= 0 && yy >= 0) by (nonlinear_arith)
            requires
                xx == self.x.raw as int * self.x.raw as int,
                yy == self.y.raw as int * self.y.raw as int,
        ;
        let sum: u128 = xx as u128 + yy as u128;
        let root: u64 = wide_isqrt(sum);
        Fixed { raw: narrow(root as i128) }
    }

    /// Distance between two points.
    #[verifier::when_used_as_spec(spec_distance)]
    pub fn distance(self, other: Vector) -> (r: Fixed)
        ensures
            r == self.spec_distance(other),
    {
        other.minus(self).len()
    }

    /// The vector divided by its own length; the zero vector stays zero.
    #[verifier::when_used_as_spec(spec_normalize)]
    pub fn normalize(self) -> (r: Vector)
        ensures
            r == self.spec_normalize(),
    {
        self.divided(self.len())
    }

    /// Rotation about the origin by the angle with the given cosine and sine.
    #[verifier::when_used_as_spec(spec_rotated)]
    pub fn rotated(self, cos: Fixed, sin: Fixed) -> (r: Vector)
        ensures
            r == self.spec_rotated(cos, sin),
    {
        let x: i128 = wide_mul_raw(self.x.raw, cos.raw) - wide_mul_raw(self.y.raw, sin.raw);
        let y: i128 = wide_mul_raw(self.x.raw, sin.raw) + wide_mul_raw(self.y.raw, cos.raw);
        Vector { x: Fixed { raw: narrow(x) }, y: Fixed { raw: narrow(y) } }
    }
}

} // verus!
