//! What the tessellation of rectangles and circles always yields.
use vstd::prelude::*;
use crate::geometry::fixed::{Fixed, SCALE, fits, mul_raw};
use crate::geometry::laws::{lemma_identity_apply, lemma_mul_raw_unit};
use crate::geometry::rectangle::Rectangle;
use crate::geometry::shapes::{Circle, Triangle};
use crate::geometry::transform::Transform;
use crate::geometry::vector::Vector;
use crate::graphics::abstract_mesh::AbstractTriangle;
use crate::graphics::background::Background;
use crate::graphics::tessellation::{
    CIRCLE_X, CIRCLE_Y, Tessellate, circle_placement, circle_points, rectangle_placement,
    triangle_placement, unit_square,
};

verus! {

/// Twice the area of the triangle with the given corners, in squared raw
/// units.
pub open spec fn twice_area(a: Vector, b: Vector, c: Vector) -> int {
    let cross = (b.x@ - a.x@) * (c.y@ - a.y@) - (c.x@ - a.x@) * (b.y@ - a.y@);
    if cross < 0 {
        -cross
    } else {
        cross
    }
}

/// Twice the area that a face covers among the local points `points`.
pub open spec fn face_twice_area(points: Seq<Vector>, face: AbstractTriangle) -> int {
    twice_area(
        points[face.indices.0 as int],
        points[face.indices.1 as int],
        points[face.indices.2 as int],
    )
}

/// A rectangle always turns into 4 vertices and 2 triangles over them, and
/// in the unit square, before the rectangle's placement, the two triangles
/// together cover an area of exactly one.
pub proof fn lemma_rectangle_tessellation(rect: Rectangle, bkg: Background)
    ensures
        rect.shape_mesh(bkg).vertices.len() == 4,
        rect.shape_mesh(bkg).triangles.len() == 2,
        rect.shape_mesh(bkg).wf(),
        face_twice_area(unit_square(), rect.shape_mesh(bkg).triangles[0]) + face_twice_area(
            unit_square(),
            rect.shape_mesh(bkg).triangles[1],
        ) == 2 * (SCALE * SCALE),
{
    let mesh = rect.shape_mesh(bkg);
    let points = unit_square();
    assert(points[0] == Vector::zero());
    assert(points[1] == Vector::unit_x());
    assert(points[2] == Vector::one());
    assert(points[3] == Vector::unit_y());
    assert(points[1].x@ == 1_000_000 && points[1].y@ == 0);
    assert(points[2].x@ == 1_000_000 && points[2].y@ == 1_000_000);
    assert(points[3].x@ == 0 && points[3].y@ == 1_000_000);
    assert(mesh.triangles[0].indices == (0usize, 1usize, 2usize));
    assert(mesh.triangles[1].indices == (2usize, 3usize, 0usize));
    assert(face_twice_area(points, mesh.triangles[0]) == 1_000_000_000_000) by {
        assert((1_000_000 - 0) * (1_000_000 - 0) - (1_000_000 - 0) * (0 - 0) == 1_000_000_000_000)
            by (nonlinear_arith);
    }
    assert(face_twice_area(points, mesh.triangles[1]) == 1_000_000_000_000) by {
        assert((0 - 1_000_000) * (0 - 1_000_000) - (0 - 1_000_000) * (1_000_000 - 1_000_000)
            == 1_000_000_000_000) by (nonlinear_arith);
    }
    assert(SCALE * SCALE == 1_000_000_000_000) by (nonlinear_arith);
}

/// Whether the centre and the far corner of a rectangle are representable,
/// so that placing it saturates nowhere.
pub open spec fn rectangle_fits(rect: Rectangle) -> bool {
    let half = rect.size.divided(Fixed::from_int(2));
    &&& fits(rect.pos.x@ + half.x@)
    &&& fits(rect.pos.y@ + half.y@)
    &&& fits(rect.pos.x@ + rect.size.x@)
    &&& fits(rect.pos.y@ + rect.size.y@)
}

/// The vertices of a rectangle are its corners: top left, top right,
/// bottom right and bottom left.
pub proof fn lemma_rectangle_corners(rect: Rectangle, bkg: Background)
    requires
        rectangle_fits(rect),
    ensures
        rect.shape_mesh(bkg).vertices[0].pos == rect.pos,
        rect.shape_mesh(bkg).vertices[1].pos == (Vector {
            x: Fixed::of(rect.pos.x@ + rect.size.x@),
            y: rect.pos.y,
        }),
        rect.shape_mesh(bkg).vertices[2].pos == (Vector {
            x: Fixed::of(rect.pos.x@ + rect.size.x@),
            y: Fixed::of(rect.pos.y@ + rect.size.y@),
        }),
        rect.shape_mesh(bkg).vertices[3].pos == (Vector {
            x: rect.pos.x,
            y: Fixed::of(rect.pos.y@ + rect.size.y@),
        }),
{
    let half = rect.size.divided(Fixed::from_int(2));
    let placement = rectangle_placement(rect);
    assert(half.x@ == rect.size.x@ / 2 && half.y@ == rect.size.y@ / 2) by {
        assert(Fixed::from_int(2)@ == 2_000_000);
        assert((rect.size.x@ * 1_000_000) / 2_000_000 == rect.size.x@ / 2);
        assert((rect.size.y@ * 1_000_000) / 2_000_000 == rect.size.y@ / 2);
    }
    lemma_mul_raw_unit(half.neg().x@);
    lemma_mul_raw_unit(half.neg().y@);
    lemma_mul_raw_unit(rect.size.x@);
    lemma_mul_raw_unit(rect.size.y@);
    lemma_mul_raw_unit(0);
    lemma_mul_raw_unit(SCALE as int);
    assert(placement.xx == rect.size.x);
    assert(placement.yy == rect.size.y);
    assert(placement.xy@ == 0 && placement.yx@ == 0);
    assert(placement.tx == rect.pos.x);
    assert(placement.ty == rect.pos.y);
    let points = unit_square();
    assert(points[1].x@ == 1_000_000 && points[1].y@ == 0);
    assert(points[2].x@ == 1_000_000 && points[2].y@ == 1_000_000);
    assert(points[3].x@ == 0 && points[3].y@ == 1_000_000);
}

/// A triangle always turns into its three corners, in their order, and one
/// triangle over them: moving to the centroid and back moves nothing.
pub proof fn lemma_triangle_corners(triangle: Triangle, bkg: Background)
    ensures
        triangle_placement(triangle) == Transform::identity(),
        triangle.shape_mesh(bkg).vertices.len() == 3,
        triangle.shape_mesh(bkg).triangles.len() == 1,
        triangle.shape_mesh(bkg).wf(),
        triangle.shape_mesh(bkg).vertices[0].pos == triangle.a,
        triangle.shape_mesh(bkg).vertices[1].pos == triangle.b,
        triangle.shape_mesh(bkg).vertices[2].pos == triangle.c,
{
    let center = triangle.center();
    let sum = triangle.a.plus(triangle.b).plus(triangle.c);
    assert(center.x@ == sum.x@ / 3 && center.y@ == sum.y@ / 3) by {
        assert(Fixed::from_int(3)@ == 3_000_000);
        assert((sum.x@ * 1_000_000) / 3_000_000 == sum.x@ / 3);
        assert((sum.y@ * 1_000_000) / 3_000_000 == sum.y@ / 3);
    }
    lemma_mul_raw_unit(center.neg().x@);
    lemma_mul_raw_unit(center.neg().y@);
    lemma_mul_raw_unit(0);
    lemma_mul_raw_unit(SCALE as int);
    assert(triangle_placement(triangle) == Transform::identity());
    lemma_identity_apply(triangle.a);
    lemma_identity_apply(triangle.b);
    lemma_identity_apply(triangle.c);
    let points = seq![triangle.a, triangle.b, triangle.c];
    assert(points[0] == triangle.a && points[1] == triangle.b && points[2] == triangle.c);
}

/// A circle always turns into 64 vertices and 64 triangles over them,
/// whatever its radius.
pub proof fn lemma_circle_tessellation(circle: Circle, bkg: Background)
    ensures
        circle.shape_mesh(bkg).vertices.len() == 64,
        circle.shape_mesh(bkg).triangles.len() == 64,
        circle.shape_mesh(bkg).wf(),
{
    let mesh = circle.shape_mesh(bkg);
    assert forall|i: int| 0 <= i < mesh.triangles.len() implies (#[trigger] mesh.triangles[i]).in_range(
        mesh.vertices.len() as int,
    ) by {
        assert(0 <= (i + 1) % 64 < 64);
    }
}

/// How far point `i` of a circle of the given radius lies from the centre
/// along each axis, in raw units.
pub open spec fn circle_offset(radius: Fixed, i: int) -> (int, int) {
    (mul_raw(radius@, CIRCLE_X[i] as int), mul_raw(radius@, CIRCLE_Y[i] as int))
}

/// Whether point `i` of the circle is representable.
pub open spec fn circle_point_fits(circle: Circle, i: int) -> bool {
    &&& fits(circle.pos.x@ + circle_offset(circle.radius, i).0)
    &&& fits(circle.pos.y@ + circle_offset(circle.radius, i).1)
}

/// Vertex `i` of a circle is the centre plus the radius times point `i` of
/// the unit circle.
pub proof fn lemma_circle_vertex(circle: Circle, bkg: Background, i: int)
    requires
        0 <= i < 64,
        circle_point_fits(circle, i),
    ensures
        circle.shape_mesh(bkg).vertices[i].pos.x@ == circle.pos.x@ + circle_offset(
            circle.radius,
            i,
        ).0,
        circle.shape_mesh(bkg).vertices[i].pos.y@ == circle.pos.y@ + circle_offset(
            circle.radius,
            i,
        ).1,
{
    let placement = circle_placement(circle);
    lemma_mul_raw_unit(circle.radius@);
    lemma_mul_raw_unit(0);
    lemma_mul_raw_unit(SCALE as int);
    assert(Vector::one().scaled(circle.radius) == (Vector { x: circle.radius, y: circle.radius }));
    assert(placement.xx == circle.radius);
    assert(placement.yy == circle.radius);
    assert(placement.xy@ == 0 && placement.yx@ == 0);
    assert(placement.tx == circle.pos.x);
    assert(placement.ty == circle.pos.y);
    let p = circle_points()[i];
    lemma_mul_raw_unit(p.x@);
    lemma_mul_raw_unit(p.y@);
}

/// A rounded product of a `k`-fold factor is the `k`-fold rounded product,
/// up to what `k` roundings can lose.
pub proof fn lemma_scaled_product(r: int, p: int, k: int)
    requires
        k >= 1,
    ensures
        k * mul_raw(r, p) <= mul_raw(k * r, p) <= k * mul_raw(r, p) + (k - 1),
{
    let x = r * p;
    let q = x / 1_000_000;
    let rem = x % 1_000_000;
    assert(x == 1_000_000 * q + rem);
    assert((k * r) * p == k * x) by (nonlinear_arith)
        requires
            x == r * p,
    ;
    assert(k * x == 1_000_000 * (k * q) + k * rem) by (nonlinear_arith)
        requires
            x == 1_000_000 * q + rem,
    ;
    assert(0 <= k * rem <= (k - 1) * 1_000_000 + 999_999) by (nonlinear_arith)
        requires
            0 <= rem <= 999_999,
            k >= 1,
    ;
    let y = k * x;
    let kq = k * q;
    let krem = k * rem;
    assert(kq <= y / 1_000_000 <= kq + (k - 1)) by {
        assert(y == 1_000_000 * kq + krem);
        assert(1_000_000 * kq <= y < 1_000_000 * (kq + k));
    }
}

/// Scaling the radius of a circle by a whole factor `k` scales the offset
/// of every vertex from the centre by `k`, up to what rounding loses: along
/// each axis the offset lies between the `k`-fold offset and `k - 1` raw
/// units more.
pub proof fn lemma_circle_scaling(small: Circle, large: Circle, bkg: Background, k: int, i: int)
    requires
        0 <= i < 64,
        k >= 1,
        large.pos == small.pos,
        large.radius@ == k * small.radius@,
        circle_point_fits(small, i),
        circle_point_fits(large, i),
    ensures
        ({
            let center = small.pos;
            let a = small.shape_mesh(bkg).vertices[i].pos;
            let b = large.shape_mesh(bkg).vertices[i].pos;
            &&& k * (a.x@ - center.x@) <= b.x@ - center.x@ <= k * (a.x@ - center.x@) + (k - 1)
            &&& k * (a.y@ - center.y@) <= b.y@ - center.y@ <= k * (a.y@ - center.y@) + (k - 1)
        }),
{
    lemma_circle_vertex(small, bkg, i);
    lemma_circle_vertex(large, bkg, i);
    lemma_scaled_product(small.radius@, CIRCLE_X[i] as int, k);
    lemma_scaled_product(small.radius@, CIRCLE_Y[i] as int, k);
}

/// For a radius that is a whole number, the offsets of the vertices are
/// exact multiples of the unit circle's points, so scaling the radius by a
/// whole factor scales every offset by exactly that factor.
pub proof fn lemma_circle_scaling_whole(
    small: Circle,
    large: Circle,
    bkg: Background,
    k: int,
    i: int,
)
    requires
        0 <= i < 64,
        k >= 1,
        large.pos == small.pos,
        large.radius@ == k * small.radius@,
        small.radius.is_whole(),
        circle_point_fits(small, i),
        circle_point_fits(large, i),
    ensures
        ({
            let center = small.pos;
            let a = small.shape_mesh(bkg).vertices[i].pos;
            let b = large.shape_mesh(bkg).vertices[i].pos;
            &&& b.x@ - center.x@ == k * (a.x@ - center.x@)
            &&& b.y@ - center.y@ == k * (a.y@ - center.y@)
        }),
{
    lemma_circle_vertex(small, bkg, i);
    lemma_circle_vertex(large, bkg, i);
    let n = small.radius@ / 1_000_000;
    let px = CIRCLE_X[i] as int;
    let py = CIRCLE_Y[i] as int;
    lemma_whole_product(n, px, 1);
    lemma_whole_product(n, py, 1);
    lemma_whole_product(n, px, k);
    lemma_whole_product(n, py, k);
    assert(1 * (1_000_000 * n) == small.radius@);
}

proof fn lemma_whole_product(n: int, p: int, k: int)
    ensures
        mul_raw(k * (1_000_000 * n), p) == k * (n * p),
{
    assert((k * (1_000_000 * n)) * p == 1_000_000 * (k * (n * p))) by (nonlinear_arith);
}

} // verus!
