//! Affine transforms of the plane.
use vstd::prelude::*;
use crate::geometry::fixed::{
    Fixed, SCALE, fits, floor_div, mul_raw, narrow, wide_floor_div, wide_mul, wide_mul_raw,
};
use crate::geometry::rectangle::Rectangle;
use crate::geometry::vector::Vector;

verus! {

/// Raw value of the square of the scale, by which an exact inverse is scaled
/// before it is divided by the exact determinant.
pub const SCALE_SQUARED: i64 = 1_000_000_000_000;

/// A 3×3 homogeneous matrix whose last row is fixed to (0, 0, 1):
///
/// ```text
/// | xx xy tx |
/// | yx yy ty |
/// |  0  0  1 |
/// ```
#[derive(Clone, Copy, Debug, PartialEq, Eq, Structural)]
pub struct Transform {
    pub xx: Fixed,
    pub xy: Fixed,
    pub tx: Fixed,
    pub yx: Fixed,
    pub yy: Fixed,
    pub ty: Fixed,
}

/// One entry of a matrix product before saturation: two rounded products
/// and an offset, summed exactly.
pub open spec fn exact_entry(a: Fixed, b: Fixed, c: Fixed, d: Fixed, offset: Fixed) -> int {
    mul_raw(a@, b@) + mul_raw(c@, d@) + offset@
}

/// One entry of a matrix product, saturated once.
pub open spec fn entry(a: Fixed, b: Fixed, c: Fixed, d: Fixed, offset: Fixed) -> Fixed {
    Fixed::of(exact_entry(a, b, c, d, offset))
}

fn compute_entry(a: Fixed, b: Fixed, c: Fixed, d: Fixed, offset: Fixed) -> (r: Fixed)
    ensures
        r == entry(a, b, c, d, offset),
{
    let sum: i128 = wide_mul_raw(a.raw, b.raw) + wide_mul_raw(c.raw, d.raw) + offset.raw as i128;
    Fixed { raw: narrow(sum) }
}

proof fn lemma_signed_product_range(x: int, y: int)
    by (nonlinear_arith)
    requires
        -0x8000_0000_0000_0000 <= x < 0x8000_0000_0000_0000,
        -0x8000_0000_0000_0000 <= y < 0x8000_0000_0000_0000,
    ensures
        -0x8000_0000_0000_0000 * 0x7fff_ffff_ffff_ffff <= x * y <= 0x8000_0000_0000_0000
            * 0x8000_0000_0000_0000,
{
    if x >= 0 && y >= 0 {
        assert(x * y <= 0x7fff_ffff_ffff_ffff * 0x7fff_ffff_ffff_ffff);
    } else if x < 0 && y < 0 {
        assert((-x) * (-y) <= 0x8000_0000_0000_0000 * 0x8000_0000_0000_0000);
    } else if x >= 0 {
        assert(x * (-y) <= 0x7fff_ffff_ffff_ffff * 0x8000_0000_0000_0000);
    } else {
        assert((-x) * y <= 0x8000_0000_0000_0000 * 0x7fff_ffff_ffff_ffff);
    }
}

impl Transform {
    pub open spec fn spec_identity() -> Transform {
        Transform {
            xx: Fixed { raw: SCALE },
            xy: Fixed { raw: 0 },
            tx: Fixed { raw: 0 },
            yx: Fixed { raw: 0 },
            yy: Fixed { raw: SCALE },
            ty: Fixed { raw: 0 },
        }
    }

    pub open spec fn spec_translate(v: Vector) -> Transform {
        Transform {
            xx: Fixed { raw: SCALE },
            xy: Fixed { raw: 0 },
            tx: v.x,
            yx: Fixed { raw: 0 },
            yy: Fixed { raw: SCALE },
            ty: v.y,
        }
    }

    pub open spec fn spec_scale(v: Vector) -> Transform {
        Transform {
            xx: v.x,
            xy: Fixed { raw: 0 },
            tx: Fixed { raw: 0 },
            yx: Fixed { raw: 0 },
            yy: v.y,
            ty: Fixed { raw: 0 },
        }
    }

    pub open spec fn spec_rotate(cos: Fixed, sin: Fixed) -> Transform {
        Transform {
            xx: cos,
            xy: sin.neg(),
            tx: Fixed { raw: 0 },
            yx: sin,
            yy: cos,
            ty: Fixed { raw: 0 },
        }
    }

    /// Matrix product `self * rhs`: applying it equals applying `rhs` first
    /// and `self` second.
    pub open spec fn spec_compose(self, rhs: Transform) -> Transform {
        let zero = Fixed { raw: 0 };
        Transform {
            xx: entry(self.xx, rhs.xx, self.xy, rhs.yx, zero),
            xy: entry(self.xx, rhs.xy, self.xy, rhs.yy, zero),
            tx: entry(self.xx, rhs.tx, self.xy, rhs.ty, self.tx),
            yx: entry(self.yx, rhs.xx, self.yy, rhs.yx, zero),
            yy: entry(self.yx, rhs.xy, self.yy, rhs.yy, zero),
            ty: entry(self.yx, rhs.tx, self.yy, rhs.ty, self.ty),
        }
    }

    /// Whether `self * rhs` is computed without saturating any entry.
    pub open spec fn composes_exactly(self, rhs: Transform) -> bool {
        let zero = Fixed { raw: 0 };
        &&& fits(exact_entry(self.xx, rhs.xx, self.xy, rhs.yx, zero))
        &&& fits(exact_entry(self.xx, rhs.xy, self.xy, rhs.yy, zero))
        &&& fits(exact_entry(self.xx, rhs.tx, self.xy, rhs.ty, self.tx))
        &&& fits(exact_entry(self.yx, rhs.xx, self.yy, rhs.yx, zero))
        &&& fits(exact_entry(self.yx, rhs.xy, self.yy, rhs.yy, zero))
        &&& fits(exact_entry(self.yx, rhs.tx, self.yy, rhs.ty, self.ty))
    }

    /// Whether every entry is a whole number.
    pub open spec fn is_whole(self) -> bool {
        &&& self.xx.is_whole()
        &&& self.xy.is_whole()
        &&& self.tx.is_whole()
        &&& self.yx.is_whole()
        &&& self.yy.is_whole()
        &&& self.ty.is_whole()
    }

    /// Matrix-vector product with the homogeneous point (x, y, 1).
    pub open spec fn spec_apply(self, v: Vector) -> Vector {
        Vector {
            x: entry(self.xx, v.x, self.xy, v.y, self.tx),
            y: entry(self.yx, v.x, self.yy, v.y, self.ty),
        }
    }

    /// Exact determinant of the linear part, in squared raw units.
    pub open spec fn det(self) -> int {
        self.xx@ * self.yy@ - self.xy@ * self.yx@
    }

    /// One entry of the inverse linear part: the cofactor scaled up and
    /// divided by the exact determinant, rounded down and saturated.
    pub open spec fn inverse_entry(self, cofactor: int) -> Fixed {
        Fixed::of(floor_div(cofactor * SCALE_SQUARED, self.det()))
    }

    /// Inverse transform. The linear part is the adjugate over the exact
    /// determinant; the offset is the negated image of the offset
    /// under that linear part. A zero determinant turns every non-zero
    /// cofactor into the largest value of its sign.
    pub open spec fn spec_inverse(self) -> Transform {
        let xx = self.inverse_entry(self.yy@);
        let xy = self.inverse_entry(-self.xy@);
        let yx = self.inverse_entry(-self.yx@);
        let yy = self.inverse_entry(self.xx@);
        Transform {
            xx,
            xy,
            tx: Fixed::of(-(mul_raw(xx@, self.tx@) + mul_raw(xy@, self.ty@))),
            yx,
            yy,
            ty: Fixed::of(-(mul_raw(yx@, self.tx@) + mul_raw(yy@, self.ty@))),
        }
    }

    /// Whether the linear part has a non-zero determinant.
    pub open spec fn spec_is_invertible(self) -> bool {
        self.det() != 0
    }

    /// Axis-aligned bounding rectangle of the images of the four corners.
    pub open spec fn spec_apply_rect(self, rect: Rectangle) -> Rectangle {
        let p0 = self.apply(rect.pos);
        let p1 = self.apply(rect.pos.plus(Vector { x: rect.size.x, y: Fixed { raw: 0 } }));
        let p2 = self.apply(rect.pos.plus(rect.size));
        let p3 = self.apply(rect.pos.plus(Vector { x: Fixed { raw: 0 }, y: rect.size.y }));
        let low = Vector {
            x: p0.x.min(p1.x).min(p2.x.min(p3.x)),
            y: p0.y.min(p1.y).min(p2.y.min(p3.y)),
        };
        let high = Vector {
            x: p0.x.max(p1.x).max(p2.x.max(p3.x)),
            y: p0.y.max(p1.y).max(p2.y.max(p3.y)),
        };
        Rectangle { pos: low, size: high.minus(low) }
    }

    /// The transform that leaves every point in place.
    #[verifier::when_used_as_spec(spec_identity)]
    pub fn identity() -> (r: Transform)
        ensures
            r == Transform::spec_identity(),
    {
        Transform {
            xx: Fixed::one(),
            xy: Fixed::zero(),
            tx: Fixed::zero(),
            yx: Fixed::zero(),
            yy: Fixed::one(),
            ty: Fixed::zero(),
        }
    }

    /// The transform that moves every point by `v`.
    #[verifier::when_used_as_spec(spec_translate)]
    pub fn translate(v: Vector) -> (r: Transform)
        ensures
            r == Transform::spec_translate(v),
    {
        Transform {
            xx: Fixed::one(),
            xy: Fixed::zero(),
            tx: v.x,
            yx: Fixed::zero(),
            yy: Fixed::one(),
            ty: v.y,
        }
    }

    /// The transform that scales each axis by the matching component of `v`.
    #[verifier::when_used_as_spec(spec_scale)]
    pub fn scale(v: Vector) -> (r: Transform)
        ensures
            r == Transform::spec_scale(v),
    {
        Transform {
            xx: v.x,
            xy: Fixed::zero(),
            tx: Fixed::zero(),
            yx: Fixed::zero(),
            yy: v.y,
            ty: Fixed::zero(),
        }
    }

    /// The rotation about the origin by the angle with the given cosine and
    /// sine.
    #[verifier::when_used_as_spec(spec_rotate)]
    pub fn rotate(cos: Fixed, sin: Fixed) -> (r: Transform)
        ensures
            r == Transform::spec_rotate(cos, sin),
    {
        Transform {
            xx: cos,
            xy: sin.neg(),
            tx: Fixed::zero(),
            yx: sin,
            yy: cos,
            ty: Fixed::zero(),
        }
    }

    /// Matrix product `self * rhs`.
    #[verifier::when_used_as_spec(spec_compose)]
    pub fn compose(self, rhs: Transform) -> (r: Transform)
        ensures
            r == self.spec_compose(rhs),
    {
        let zero = Fixed::zero();
        Transform {
            xx: compute_entry(self.xx, rhs.xx, self.xy, rhs.yx, zero),
            xy: compute_entry(self.xx, rhs.xy, self.xy, rhs.yy, zero),
            tx: compute_entry(self.xx, rhs.tx, self.xy, rhs.ty, self.tx),
            yx: compute_entry(self.yx, rhs.xx, self.yy, rhs.yx, zero),
            yy: compute_entry(self.yx, rhs.xy, self.yy, rhs.yy, zero),
            ty: compute_entry(self.yx, rhs.tx, self.yy, rhs.ty, self.ty),
        }
    }

    /// Image of the point `v`.
    #[verifier::when_used_as_spec(spec_apply)]
    pub fn apply(self, v: Vector) -> (r: Vector)
        ensures
            r == self.spec_apply(v),
    {
        Vector {
            x: compute_entry(self.xx, v.x, self.xy, v.y, self.tx),
            y: compute_entry(self.yx, v.x, self.yy, v.y, self.ty),
        }
    }

    /// Exact determinant of the linear part, in squared raw units.
    fn wide_det(self) -> (r: i128)
        ensures
            r == self.det(),
            r > i128::MIN,
    {
        proof {
            lemma_signed_product_range(self.xx@, self.yy@);
            lemma_signed_product_range(self.xy@, self.yx@);
        }
        wide_mul(self.xx.raw, self.yy.raw) - wide_mul(self.xy.raw, self.yx.raw)
    }

    fn compute_inverse_entry(self, cofactor: i128, det: i128) -> (r: Fixed)
        requires
            -0x8000_0000_0000_0000 <= cofactor <= 0x8000_0000_0000_0000,
            det == self.det(),
            det > i128::MIN,
        ensures
            r == self.inverse_entry(cofactor as int),
    {
        let n: i128 = cofactor * (SCALE_SQUARED as i128);
        assert(n == cofactor * 1_000_000_000_000);
        Fixed { raw: narrow(wide_floor_div(n, det)) }
    }

    /// Whether the transform can be inverted: its determinant is not zero.
    #[verifier::when_used_as_spec(spec_is_invertible)]
    pub fn is_invertible(self) -> (r: bool)
        ensures
            r == self.spec_is_invertible(),
    {
        self.wide_det() != 0
    }

    /// The inverse transform; see [`Transform::spec_inverse`] for the
    /// rounding and for what a singular transform yields.
    #[verifier::when_used_as_spec(spec_inverse)]
    pub fn inverse(self) -> (r: Transform)
        ensures
            r == self.spec_inverse(),
    {
        let det: i128 = self.wide_det();
        let xx = self.compute_inverse_entry(self.yy.raw as i128, det);
        let xy = self.compute_inverse_entry(-(self.xy.raw as i128), det);
        let yx = self.compute_inverse_entry(-(self.yx.raw as i128), det);
        let yy = self.compute_inverse_entry(self.xx.raw as i128, det);
        let tx: i128 = -(wide_mul_raw(xx.raw, self.tx.raw) + wide_mul_raw(xy.raw, self.ty.raw));
        let ty: i128 = -(wide_mul_raw(yx.raw, self.tx.raw) + wide_mul_raw(yy.raw, self.ty.raw));
        Transform { xx, xy, tx: Fixed { raw: narrow(tx) }, yx, yy, ty: Fixed { raw: narrow(ty) } }
    }

    /// Axis-aligned bounding rectangle of the image of `rect`. A rotated
    /// rectangle loses its rotation here.
    #[verifier::when_used_as_spec(spec_apply_rect)]
    pub fn apply_rect(self, rect: Rectangle) -> (r: Rectangle)
        ensures
            r == self.spec_apply_rect(rect),
    {
        let p0 = self.apply(rect.pos);
        let p1 = self.apply(rect.pos.plus(Vector { x: rect.size.x, y: Fixed::zero() }));
        let p2 = self.apply(rect.pos.plus(rect.size));
        let p3 = self.apply(rect.pos.plus(Vector { x: Fixed::zero(), y: rect.size.y }));
        let low = Vector {
            x: p0.x.min(p1.x).min(p2.x.min(p3.x)),
            y: p0.y.min(p1.y).min(p2.y.min(p3.y)),
        };
        let high = Vector {
            x: p0.x.max(p1.x).max(p2.x.max(p3.x)),
            y: p0.y.max(p1.y).max(p2.y.max(p3.y)),
        };
        Rectangle { pos: low, size: high.minus(low) }
    }
}

} // verus!
