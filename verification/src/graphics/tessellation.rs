//! Tessellation: turning shapes into triangles of a mesh.
use vstd::prelude::*;
use crate::geometry::fixed::Fixed;
use crate::geometry::rectangle::Rectangle;
use crate::geometry::shapes::{Circle, Line, Triangle};
use crate::geometry::transform::Transform;
use crate::geometry::vector::Vector;
use crate::graphics::abstract_mesh::{AbstractMesh, AbstractTriangle, MeshView, positioned};
use crate::graphics::background::Background;

verus! {

/// A shape that can be turned into triangles.
pub trait Tessellate {
    /// The mesh that the shape turns into when it is filled with `bkg`:
    /// its vertices in the caller's coordinates, and its triangles over
    /// those vertices, counted from zero, at stacking key zero.
    spec fn shape_mesh(&self, bkg: Background) -> MeshView;

    /// Appends the shape's vertices to `mesh`, contiguously, and its
    /// triangles, which refer to these vertices only.
    fn tessellate(&self, mesh: &mut AbstractMesh, bkg: Background)
        requires
            old(mesh).wf(),
        ensures
            final(mesh).wf(),
            final(mesh)@ == old(mesh)@.append(self.shape_mesh(bkg)),
    ;
}

/// Number of points on the circle approximation.
pub const CIRCLE_POINT_COUNT: usize = 64;

/// Horizontal raw coordinates of points on the unit circle, evenly spaced by
/// angle; the first and the last lie at angle zero.
pub const CIRCLE_X: [i64; 64] = [
    1000000, 995031, 980172, 955573, 921476, 878222, 826239, 766044,
    698237, 623490, 542546, 456211, 365341, 270840, 173648, 74730,
    -24931, -124344, -222521, -318487, -411287, -500000, -583744, -661686,
    -733052, -797133, -853291, -900969, -939693, -969077, -988831, -998757,
    -998757, -988831, -969077, -939693, -900969, -853291, -797133, -733052,
    -661686, -583744, -500000, -411287, -318487, -222521, -124344, -24931,
    74730, 173648, 270840, 365341, 456211, 542546, 623490, 698237,
    766044, 826239, 878222, 921476, 955573, 980172, 995031, 1000000,
];

/// Vertical raw coordinates of the same points.
pub const CIRCLE_Y: [i64; 64] = [
    0, 99568, 198146, 294755, 388435, 478254, 563320, 642788,
    715867, 781831, 840026, 889872, 930874, 962624, 984808, 997204,
    999689, 992239, 974928, 947927, 911506, 866025, 811938, 749781,
    680173, 603804, 521435, 433884, 342020, 246757, 149042, 49846,
    -49846, -149042, -246757, -342020, -433884, -521435, -603804, -680173,
    -749781, -811938, -866025, -911506, -947927, -974928, -992239, -999689,
    -997204, -984808, -962624, -930874, -889872, -840026, -781831, -715867,
    -642788, -563320, -478254, -388435, -294755, -198146, -99568, 0,
];

/// The local triangle over the given indices, painted with `bkg`.
pub open spec fn face(a: usize, b: usize, c: usize, bkg: Background) -> AbstractTriangle {
    AbstractTriangle { indices: (a, b, c), z: 0, paint: bkg }
}

/// Corners of the unit square, in the order in which a rectangle's vertices
/// are appended.
pub open spec fn unit_square() -> Seq<Vector> {
    seq![Vector::zero(), Vector::unit_x(), Vector::one(), Vector::unit_y()]
}

/// The two faces of a quad, split along the diagonal from corner 0 to
/// corner 2.
pub open spec fn quad_faces(bkg: Background) -> Seq<AbstractTriangle> {
    seq![face(0, 1, 2, bkg), face(2, 3, 0, bkg)]
}

/// The transform that takes the unit square to `rect`: it scales by the
/// size, moves back by half the size and forth to the centre.
pub open spec fn rectangle_placement(rect: Rectangle) -> Transform {
    let half = rect.size.divided(Fixed::from_int(2));
    Transform::translate(rect.pos.plus(half)).compose(Transform::translate(half.neg())).compose(
        Transform::scale(rect.size),
    )
}

/// The points of the circle approximation.
pub open spec fn circle_points() -> Seq<Vector> {
    Seq::new(
        64,
        |i: int| Vector { x: Fixed { raw: CIRCLE_X[i] }, y: Fixed { raw: CIRCLE_Y[i] } },
    )
}

/// The faces of the fan around point 0: face `i` spans the points 0, `i`
/// and the successor of `i`, which for the last point is point 0 again.
pub open spec fn fan_faces(bkg: Background) -> Seq<AbstractTriangle> {
    Seq::new(64, |i: int| face(0, i as usize, ((i + 1) % 64) as usize, bkg))
}

/// The transform that takes the unit circle to `circle`.
pub open spec fn circle_placement(circle: Circle) -> Transform {
    Transform::translate(circle.pos).compose(Transform::scale(Vector::one().scaled(circle.radius)))
}

/// The transform under which a triangle's corners are appended: moving to
/// the centroid and back.
pub open spec fn triangle_placement(triangle: Triangle) -> Transform {
    Transform::translate(triangle.center()).compose(Transform::translate(triangle.center().neg()))
}

/// The rectangle that stands for a line: as long as the segment, as high as
/// it is thick, and not rotated towards the segment's direction.
pub open spec fn line_rectangle(line: Line) -> Rectangle {
    Rectangle {
        pos: Vector { x: line.a.x, y: line.a.y.plus(line.t.div(Fixed::from_int(2))) },
        size: Vector { x: line.a.distance(line.b), y: line.t },
    }
}

/// The points of the circle approximation as values.
pub fn circle_point_list() -> (points: Vec<Vector>)
    ensures
        points@ == circle_points(),
{
    let mut points: Vec<Vector> = Vec::new();
    let mut i: usize = 0;
    while i < 64
        invariant
            i <= 64,
            points@ == circle_points().take(i as int),
        decreases 64 - i,
    {
        points.push(Vector { x: Fixed { raw: CIRCLE_X[i] }, y: Fixed { raw: CIRCLE_Y[i] } });
        proof {
            assert(circle_points().take(i as int + 1) =~= circle_points().take(i as int).push(
                circle_points()[i as int],
            ));
        }
        i += 1;
    }
    proof {
        assert(circle_points().take(64) =~= circle_points());
    }
    points
}

impl Tessellate for Rectangle {
    open spec fn shape_mesh(&self, bkg: Background) -> MeshView {
        MeshView {
            vertices: positioned(
                unit_square(),
                rectangle_placement(*self),
                bkg.texture_transform(),
                bkg,
            ),
            triangles: quad_faces(bkg),
        }
    }

    fn tessellate(&self, mesh: &mut AbstractMesh, bkg: Background) {
        let half = self.size.divided(Fixed::from_int(2));
        let trans = Transform::translate(self.pos.plus(half)).compose(
            Transform::translate(half.neg()),
        ).compose(Transform::scale(self.size));
        let tex_trans = bkg.texture_transform();
        let mut points: Vec<Vector> = Vec::new();
        points.push(Vector::zero());
        points.push(Vector::unit_x());
        points.push(Vector::one());
        points.push(Vector::unit_y());
        proof {
            assert(points@ =~= unit_square());
        }
        let offset = mesh.add_positioned_vertices(&points, trans, tex_trans, bkg);
        mesh.push_triangle(offset, (0, 1, 2), bkg);
        mesh.push_triangle(offset, (2, 3, 0), bkg);
        proof {
            let target = old(mesh)@.append(self.shape_mesh(bkg));
            assert(mesh@.vertices =~= target.vertices);
            assert(mesh@.triangles =~= target.triangles);
        }
    }
}

impl Tessellate for Vector {
    open spec fn shape_mesh(&self, bkg: Background) -> MeshView {
        Rectangle::new(*self, Vector::one()).shape_mesh(bkg)
    }

    fn tessellate(&self, mesh: &mut AbstractMesh, bkg: Background) {
        Rectangle::new(*self, Vector::one()).tessellate(mesh, bkg);
    }
}

impl Tessellate for Circle {
    open spec fn shape_mesh(&self, bkg: Background) -> MeshView {
        MeshView {
            vertices: positioned(
                circle_points(),
                circle_placement(*self),
                bkg.texture_transform(),
                bkg,
            ),
            triangles: fan_faces(bkg),
        }
    }

    fn tessellate(&self, mesh: &mut AbstractMesh, bkg: Background) {
        let trans = Transform::translate(self.center()).compose(
            Transform::scale(Vector::one().scaled(self.radius)),
        );
        let tex_trans = bkg.texture_transform();
        let points = circle_point_list();
        let offset = mesh.add_positioned_vertices(&points, trans, tex_trans, bkg);
        let ghost before = old(mesh)@;
        let ghost target = before.append(self.shape_mesh(bkg));
        let mut index: usize = 0;
        while index < 64
            invariant
                index <= 64,
                mesh.wf(),
                offset == before.vertices.len(),
                mesh@.vertices == target.vertices,
                mesh@.vertices.len() == offset + 64,
                target == before.append(self.shape_mesh(bkg)),
                mesh@.triangles == target.triangles.take(before.triangles.len() as int + index),
            decreases 64 - index,
        {
            let next: usize = if index == 63 {
                0
            } else {
                index + 1
            };
            mesh.push_triangle(offset, (0, index, next), bkg);
            proof {
                let k = before.triangles.len() as int + index;
                assert(target.triangles[k] == fan_faces(bkg)[index as int].shifted(offset as int));
                assert(target.triangles.take(k + 1) =~= target.triangles.take(k).push(
                    target.triangles[k],
                ));
            }
            index += 1;
        }
        proof {
            assert(target.triangles.take(before.triangles.len() as int + 64) =~= target.triangles);
        }
    }
}

impl Tessellate for Triangle {
    open spec fn shape_mesh(&self, bkg: Background) -> MeshView {
        MeshView {
            vertices: positioned(
                seq![self.a, self.b, self.c],
                triangle_placement(*self),
                bkg.texture_transform(),
                bkg,
            ),
            triangles: seq![face(0, 1, 2, bkg)],
        }
    }

    fn tessellate(&self, mesh: &mut AbstractMesh, bkg: Background) {
        let center = self.center();
        let trans = Transform::translate(center).compose(Transform::translate(center.neg()));
        let tex_trans = bkg.texture_transform();
        let mut points: Vec<Vector> = Vec::new();
        points.push(self.a);
        points.push(self.b);
        points.push(self.c);
        proof {
            assert(points@ =~= seq![self.a, self.b, self.c]);
        }
        let offset = mesh.add_positioned_vertices(&points, trans, tex_trans, bkg);
        mesh.push_triangle(offset, (0, 1, 2), bkg);
        proof {
            let target = old(mesh)@.append(self.shape_mesh(bkg));
            assert(mesh@.vertices =~= target.vertices);
            assert(mesh@.triangles =~= target.triangles);
        }
    }
}

impl Tessellate for Line {
    open spec fn shape_mesh(&self, bkg: Background) -> MeshView {
        line_rectangle(*self).shape_mesh(bkg)
    }

    fn tessellate(&self, mesh: &mut AbstractMesh, bkg: Background) {
        let rect = Rectangle::new(
            Vector::new(self.a.x, self.a.y.plus(self.t.div(Fixed::from_int(2)))),
            Vector::new(self.a.distance(self.b), self.t),
        );
        rect.tessellate(mesh, bkg)
    }
}

} // verus!
