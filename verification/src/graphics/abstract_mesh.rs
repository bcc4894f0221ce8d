//! The mesh accumulator: vertices and triangles gathered from draw calls.
use vstd::prelude::*;
use crate::geometry::transform::Transform;
use crate::geometry::vector::Vector;
use crate::graphics::background::Background;
use crate::graphics::color::Color;
use crate::graphics::stacking::{sort_by_z, stacked};

verus! {

/// A positioned, textured and tinted corner of a triangle.
#[derive(Clone, Copy, Debug)]
pub struct AbstractVertex {
    pub pos: Vector,
    pub tex_pos: Vector,
    pub col: Color,
}

impl AbstractVertex {
    /// The vertex that a local point turns into: placed by `trans`, with
    /// texture coordinates by `tex_trans` and the tint of `bkg`.
    pub open spec fn spec_new(
        point: Vector,
        trans: Transform,
        tex_trans: Transform,
        bkg: Background,
    ) -> AbstractVertex {
        AbstractVertex { pos: trans.apply(point), tex_pos: tex_trans.apply(point), col: bkg.color() }
    }

    /// The same vertex with its position taken through `trans`.
    pub open spec fn spec_moved(self, trans: Transform) -> AbstractVertex {
        AbstractVertex { pos: trans.apply(self.pos), tex_pos: self.tex_pos, col: self.col }
    }

    /// See [`AbstractVertex::spec_new`].
    #[verifier::when_used_as_spec(spec_new)]
    pub fn new(point: Vector, trans: Transform, tex_trans: Transform, bkg: Background) -> (r:
        AbstractVertex)
        ensures
            r == AbstractVertex::spec_new(point, trans, tex_trans, bkg),
    {
        AbstractVertex { pos: trans.apply(point), tex_pos: tex_trans.apply(point), col: bkg.color() }
    }

    /// See [`AbstractVertex::spec_moved`].
    #[verifier::when_used_as_spec(spec_moved)]
    pub fn moved(self, trans: Transform) -> (r: AbstractVertex)
        ensures
            r == self.spec_moved(trans),
    {
        AbstractVertex { pos: trans.apply(self.pos), tex_pos: self.tex_pos, col: self.col }
    }
}

/// Three indices into a vertex sequence, a stacking key and a paint.
#[derive(Clone, Copy, Debug)]
pub struct AbstractTriangle {
    pub indices: (usize, usize, usize),
    pub z: i16,
    pub paint: Background,
}

impl AbstractTriangle {
    /// Whether all three indices are below `count`.
    pub open spec fn in_range(self, count: int) -> bool {
        self.indices.0 < count && self.indices.1 < count && self.indices.2 < count
    }

    /// The same triangle with every index raised by `offset`.
    pub open spec fn shifted(self, offset: int) -> AbstractTriangle {
        AbstractTriangle {
            indices: (
                (self.indices.0 + offset) as usize,
                (self.indices.1 + offset) as usize,
                (self.indices.2 + offset) as usize,
            ),
            z: self.z,
            paint: self.paint,
        }
    }

    /// The same triangle with stacking key `z`.
    pub open spec fn with_z(self, z: i16) -> AbstractTriangle {
        AbstractTriangle { indices: self.indices, z, paint: self.paint }
    }

    /// The triangle over the local indices `indices` of a batch of vertices
    /// that starts at `offset`, at stacking key zero.
    pub open spec fn spec_new(offset: usize, indices: (usize, usize, usize), paint: Background)
        -> AbstractTriangle {
        (AbstractTriangle { indices, z: 0, paint }).shifted(offset as int)
    }

    /// See [`AbstractTriangle::spec_new`]. The indices must not overflow.
    #[verifier::when_used_as_spec(spec_new)]
    pub fn new(offset: usize, indices: (usize, usize, usize), paint: Background) -> (r:
        AbstractTriangle)
        requires
            offset + indices.0 <= usize::MAX,
            offset + indices.1 <= usize::MAX,
            offset + indices.2 <= usize::MAX,
        ensures
            r == AbstractTriangle::spec_new(offset, indices, paint),
    {
        AbstractTriangle {
            indices: (offset + indices.0, offset + indices.1, offset + indices.2),
            z: 0,
            paint,
        }
    }
}

/// The vertices that a sequence of local points turns into.
pub open spec fn positioned(
    points: Seq<Vector>,
    trans: Transform,
    tex_trans: Transform,
    bkg: Background,
) -> Seq<AbstractVertex> {
    Seq::new(points.len(), |i: int| AbstractVertex::new(points[i], trans, tex_trans, bkg))
}

/// The mathematical content of a mesh.
pub struct MeshView {
    pub vertices: Seq<AbstractVertex>,
    pub triangles: Seq<AbstractTriangle>,
}

impl MeshView {
    /// The mesh without vertices and triangles.
    pub open spec fn empty() -> MeshView {
        MeshView { vertices: Seq::empty(), triangles: Seq::empty() }
    }

    /// Every triangle refers to vertices that exist.
    pub open spec fn wf(self) -> bool {
        forall|i: int|
            0 <= i < self.triangles.len() ==> (#[trigger] self.triangles[i]).in_range(
                self.vertices.len() as int,
            )
    }

    /// The mesh with `vertices` added behind the present ones.
    pub open spec fn extended(self, vertices: Seq<AbstractVertex>) -> MeshView {
        MeshView { vertices: self.vertices + vertices, triangles: self.triangles }
    }

    /// The mesh with `other` added behind it: the vertices follow the
    /// present ones, and the triangles of `other` go on referring to them.
    pub open spec fn append(self, other: MeshView) -> MeshView {
        MeshView {
            vertices: self.vertices + other.vertices,
            triangles: self.triangles + Seq::new(
                other.triangles.len(),
                |i: int| other.triangles[i].shifted(self.vertices.len() as int),
            ),
        }
    }

    /// The mesh with every position taken through `trans`.
    pub open spec fn transformed(self, trans: Transform) -> MeshView {
        MeshView {
            vertices: Seq::new(self.vertices.len(), |i: int| self.vertices[i].moved(trans)),
            triangles: self.triangles,
        }
    }

    /// The mesh with every triangle at stacking key `z`.
    pub open spec fn with_z(self, z: i16) -> MeshView {
        MeshView {
            vertices: self.vertices,
            triangles: Seq::new(self.triangles.len(), |i: int| self.triangles[i].with_z(z)),
        }
    }

    /// The first `vertices` vertices and the first `triangles` triangles.
    pub open spec fn prefix(self, vertices: int, triangles: int) -> MeshView {
        MeshView {
            vertices: self.vertices.take(vertices),
            triangles: self.triangles.take(triangles),
        }
    }

    /// Whether the mesh can be cut back to its first `vertices` vertices
    /// and `triangles` triangles: it holds as many, and the triangles that
    /// stay refer to vertices that stay.
    pub open spec fn has_prefix(self, vertices: int, triangles: int) -> bool {
        &&& 0 <= vertices <= self.vertices.len()
        &&& 0 <= triangles <= self.triangles.len()
        &&& self.prefix(vertices, triangles).wf()
    }

    /// The mesh with `other` merged in as one draw call: placed by `trans`
    /// and stacked at `z`.
    pub open spec fn merged(self, other: MeshView, trans: Transform, z: i16) -> MeshView {
        self.append(other.transformed(trans).with_z(z))
    }
}

/// Appending to the empty mesh yields the appended mesh.
pub proof fn lemma_append_to_empty(mesh: MeshView)
    ensures
        MeshView::empty().append(mesh) == mesh,
{
    let r = MeshView::empty().append(mesh);
    assert(r.vertices =~= mesh.vertices);
    assert(r.triangles =~= mesh.triangles);
}

/// The mesh after one batch of vertices after the other has been added.
pub open spec fn extended_by_all(mesh: MeshView, batches: Seq<Seq<AbstractVertex>>) -> MeshView
    decreases batches.len(),
{
    if batches.len() == 0 {
        mesh
    } else {
        extended_by_all(mesh, batches.drop_last()).extended(batches.last())
    }
}

/// The offset that adding batch `n` returns: the number of vertices that
/// the mesh holds once the batches before it have been added.
pub open spec fn batch_offset(mesh: MeshView, batches: Seq<Seq<AbstractVertex>>, n: int) -> nat {
    extended_by_all(mesh, batches.take(n)).vertices.len()
}

/// The number of vertices in the first `n` batches.
pub open spec fn batch_total(batches: Seq<Seq<AbstractVertex>>, n: int) -> nat
    decreases n,
{
    if n <= 0 {
        0
    } else {
        batch_total(batches, n - 1) + batches[n - 1].len()
    }
}

/// Each batch of vertices is added at the offset that is the number of
/// vertices there were before plus the sizes of all batches added earlier.
/// For a mesh that starts empty, the offset is the sum of the sizes of the
/// earlier batches.
pub proof fn lemma_batch_offsets(mesh: MeshView, batches: Seq<Seq<AbstractVertex>>, n: int)
    requires
        0 <= n <= batches.len(),
    ensures
        batch_offset(mesh, batches, n) == mesh.vertices.len() + batch_total(batches, n),
    decreases n,
{
    if n == 0 {
        assert(batches.take(0) =~= Seq::<Seq<AbstractVertex>>::empty());
    } else {
        lemma_batch_offsets(mesh, batches, n - 1);
        assert(batches.take(n).drop_last() =~= batches.take(n - 1));
        assert(batches.take(n).last() == batches[n - 1]);
    }
}

/// The offsets of successive batches never decrease, and they increase
/// strictly after every batch that is not empty.
pub proof fn lemma_batch_offsets_increase(
    mesh: MeshView,
    batches: Seq<Seq<AbstractVertex>>,
    n: int,
)
    requires
        0 <= n < batches.len(),
    ensures
        batch_offset(mesh, batches, n) <= batch_offset(mesh, batches, n + 1),
        batches[n].len() > 0 ==> batch_offset(mesh, batches, n) < batch_offset(
            mesh,
            batches,
            n + 1,
        ),
{
    lemma_batch_offsets(mesh, batches, n);
    lemma_batch_offsets(mesh, batches, n + 1);
}

/// A growable buffer of vertices and triangles. It only grows until it is
/// cleared, and every triangle in it refers to vertices in it.
pub struct AbstractMesh {
    vertices: Vec<AbstractVertex>,
    triangles: Vec<AbstractTriangle>,
}

impl View for AbstractMesh {
    type V = MeshView;

    closed spec fn view(&self) -> MeshView {
        MeshView { vertices: self.vertices@, triangles: self.triangles@ }
    }
}

impl AbstractMesh {
    /// The invariant of the buffer: every triangle refers to vertices that
    /// exist.
    pub open spec fn wf(&self) -> bool {
        self@.wf()
    }

    /// An empty mesh.
    pub fn new() -> (r: AbstractMesh)
        ensures
            r.wf(),
            r@ == MeshView::empty(),
    {
        AbstractMesh { vertices: Vec::new(), triangles: Vec::new() }
    }

    /// Removes all vertices and triangles.
    pub fn clear(&mut self)
        ensures
            final(self).wf(),
            final(self)@ == MeshView::empty(),
    {
        self.vertices.clear();
        self.triangles.clear();
    }

    /// Number of vertices.
    pub fn vertex_count(&self) -> (r: usize)
        ensures
            r == self@.vertices.len(),
    {
        self.vertices.len()
    }

    /// Number of triangles.
    pub fn triangle_count(&self) -> (r: usize)
        ensures
            r == self@.triangles.len(),
    {
        self.triangles.len()
    }

    /// The vertex at `index`.
    pub fn vertex(&self, index: usize) -> (r: AbstractVertex)
        requires
            index < self@.vertices.len(),
        ensures
            r == self@.vertices[index as int],
    {
        self.vertices[index]
    }

    /// The triangle at `index`.
    pub fn triangle(&self, index: usize) -> (r: AbstractTriangle)
        requires
            index < self@.triangles.len(),
        ensures
            r == self@.triangles[index as int],
    {
        self.triangles[index]
    }

    /// Appends one vertex for each of `points`: positioned by `trans`, with
    /// texture coordinates by `tex_trans` and the tint of `bkg`. Returns the
    /// offset of the first appended vertex.
    pub fn add_positioned_vertices(
        &mut self,
        points: &Vec<Vector>,
        trans: Transform,
        tex_trans: Transform,
        bkg: Background,
    ) -> (offset: usize)
        requires
            old(self).wf(),
        ensures
            final(self).wf(),
            offset == old(self)@.vertices.len(),
            final(self)@ == old(self)@.extended(positioned(points@, trans, tex_trans, bkg)),
    {
        let offset = self.vertices.len();
        let mut i: usize = 0;
        while i < points.len()
            invariant
                i <= points.len(),
                old(self).wf(),
                self.triangles@ == old(self).triangles@,
                self.vertices@ == old(self).vertices@ + positioned(
                    points@,
                    trans,
                    tex_trans,
                    bkg,
                ).take(i as int),
            decreases points.len() - i,
        {
            let vertex = AbstractVertex::new(points[i], trans, tex_trans, bkg);
            self.vertices.push(vertex);
            proof {
                let all = positioned(points@, trans, tex_trans, bkg);
                assert(all.take(i as int + 1) =~= all.take(i as int).push(all[i as int]));
            }
            i += 1;
        }
        proof {
            let all = positioned(points@, trans, tex_trans, bkg);
            assert(all.take(points.len() as int) =~= all);
            assert forall|k: int| 0 <= k < self@.triangles.len() implies (
            #[trigger] self@.triangles[k]).in_range(self@.vertices.len() as int) by {
                assert(old(self)@.triangles[k].in_range(old(self)@.vertices.len() as int));
            }
        }
        offset
    }

    /// Merges `other` in as one draw call: its vertices follow the present
    /// ones, each position taken through `trans`, and its triangles go on
    /// referring to them, each stacked at `z`.
    pub fn merge(&mut self, other: &AbstractMesh, trans: Transform, z: i16)
        requires
            old(self).wf(),
            other.wf(),
        ensures
            final(self).wf(),
            final(self)@ == old(self)@.merged(other@, trans, z),
    {
        let ghost target = old(self)@.merged(other@, trans, z);
        let offset = self.vertices.len();
        let mut i: usize = 0;
        while i < other.vertices.len()
            invariant
                i <= other.vertices.len(),
                old(self).wf(),
                offset == old(self).vertices@.len(),
                target == old(self)@.merged(other@, trans, z),
                self.triangles@ == old(self).triangles@,
                self.vertices@ == target.vertices.take(offset + i),
            decreases other.vertices.len() - i,
        {
            self.vertices.push(other.vertices[i].moved(trans));
            proof {
                assert(target.vertices.take(offset + i + 1) =~= target.vertices.take(
                    offset + i,
                ).push(target.vertices[offset + i]));
            }
            i += 1;
        }
        proof {
            assert(target.vertices.take(offset + other.vertices.len()) =~= target.vertices);
        }
        let count = self.vertices.len();
        let ghost base = old(self).triangles@.len() as int;
        let mut k: usize = 0;
        while k < other.triangles.len()
            invariant
                k <= other.triangles.len(),
                old(self).wf(),
                other.wf(),
                offset == old(self).vertices@.len(),
                count == offset + other.vertices@.len(),
                base == old(self).triangles@.len(),
                target == old(self)@.merged(other@, trans, z),
                self.vertices@ == target.vertices,
                self.triangles@ == target.triangles.take(base + k),
            decreases other.triangles.len() - k,
        {
            let t = other.triangles[k];
            proof {
                assert(other@.triangles[k as int].in_range(other@.vertices.len() as int));
            }
            self.triangles.push(
                AbstractTriangle {
                    indices: (t.indices.0 + offset, t.indices.1 + offset, t.indices.2 + offset),
                    z,
                    paint: t.paint,
                },
            );
            proof {
                assert(target.triangles.take(base + k + 1) =~= target.triangles.take(base + k).push(
                    target.triangles[base + k],
                ));
            }
            k += 1;
        }
        proof {
            assert(target.triangles.take(base + other.triangles.len()) =~= target.triangles);
            assert forall|j: int| 0 <= j < self@.triangles.len() implies (
            #[trigger] self@.triangles[j]).in_range(self@.vertices.len() as int) by {
                if j < base {
                    assert(old(self)@.triangles[j].in_range(old(self)@.vertices.len() as int));
                } else {
                    assert(other@.triangles[j - base].in_range(other@.vertices.len() as int));
                }
            }
        }
    }

    /// Cuts the mesh back to its first `vertices` vertices and `triangles`
    /// triangles, which discards what was added after it had that size.
    /// Where the mesh cannot be cut back like that, it stays as it is.
    pub fn truncate(&mut self, vertices: usize, triangles: usize) -> (done: bool)
        requires
            old(self).wf(),
        ensures
            final(self).wf(),
            done == old(self)@.has_prefix(vertices as int, triangles as int),
            final(self)@ == if done {
                old(self)@.prefix(vertices as int, triangles as int)
            } else {
                old(self)@
            },
    {
        if vertices > self.vertices.len() || triangles > self.triangles.len() {
            return false;
        }
        let ghost kept = self@.prefix(vertices as int, triangles as int);
        let mut i: usize = 0;
        while i < triangles
            invariant
                i <= triangles <= self.triangles@.len(),
                vertices <= self.vertices@.len(),
                old(self).wf(),
                self@ == old(self)@,
                kept == self@.prefix(vertices as int, triangles as int),
                forall|k: int| 0 <= k < i ==> (#[trigger] kept.triangles[k]).in_range(vertices as int),
            decreases triangles - i,
        {
            let t = self.triangles[i];
            if t.indices.0 >= vertices || t.indices.1 >= vertices || t.indices.2 >= vertices {
                proof {
                    assert(!kept.triangles[i as int].in_range(kept.vertices.len() as int));
                }
                return false;
            }
            i += 1;
        }
        self.vertices.truncate(vertices);
        self.triangles.truncate(triangles);
        proof {
            assert(self@.vertices =~= kept.vertices);
            assert(self@.triangles =~= kept.triangles);
        }
        true
    }

    /// Moves the content of `source` here, its triangles in stacking
    /// order, and leaves `source` empty.
    pub fn take_sorted(&mut self, source: &mut AbstractMesh)
        requires
            old(source).wf(),
        ensures
            final(self).wf(),
            final(source).wf(),
            final(source)@ == MeshView::empty(),
            final(self)@.vertices == old(source)@.vertices,
            stacked(final(self)@.triangles, old(source)@.triangles),
    {
        let sorted = sort_by_z(&source.triangles);
        self.triangles = sorted;
        self.vertices = Vec::new();
        self.vertices.append(&mut source.vertices);
        source.triangles.clear();
        proof {
            assert forall|j: int| 0 <= j < self@.triangles.len() implies (
            #[trigger] self@.triangles[j]).in_range(self@.vertices.len() as int) by {
                let t = self@.triangles[j];
                assert(old(source)@.triangles.contains(t));
                let k = choose|k: int|
                    0 <= k < old(source)@.triangles.len() && old(source)@.triangles[k] == t;
                assert(old(source)@.triangles[k].in_range(old(source)@.vertices.len() as int));
            }
        }
    }

    /// Appends the triangle over the local indices `indices` of the batch
    /// of vertices that starts at `offset`, at stacking key zero. The
    /// vertices it refers to must be in the mesh already.
    pub fn push_triangle(&mut self, offset: usize, indices: (usize, usize, usize), paint: Background)
        requires
            old(self).wf(),
            offset + indices.0 < old(self)@.vertices.len(),
            offset + indices.1 < old(self)@.vertices.len(),
            offset + indices.2 < old(self)@.vertices.len(),
        ensures
            final(self).wf(),
            final(self)@.vertices == old(self)@.vertices,
            final(self)@.triangles == old(self)@.triangles.push(
                AbstractTriangle::new(offset, indices, paint),
            ),
    {
        let count = self.vertices.len();
        let triangle = AbstractTriangle::new(offset, indices, paint);
        self.triangles.push(triangle);
        proof {
            assert(triangle.in_range(count as int));
            assert forall|k: int| 0 <= k < self@.triangles.len() implies (
            #[trigger] self@.triangles[k]).in_range(self@.vertices.len() as int) by {
                if k < old(self)@.triangles.len() {
                    assert(old(self)@.triangles[k].in_range(old(self)@.vertices.len() as int));
                }
            }
        }
    }
}

} // verus!
