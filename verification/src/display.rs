//! The display: the whole drawing surface and its draw queue.
use vstd::prelude::*;
use crate::error::PaddleError;
use crate::geometry::fixed::{Fixed, SCALE, fits, mul_raw, narrow};
use crate::geometry::transform::Transform;
use crate::geometry::vector::Vector;
use crate::graphics::abstract_mesh::{AbstractMesh, MeshView, lemma_append_to_empty};
use crate::graphics::background::Background;
use crate::graphics::stacking::{sort_by_z, stacked};
use crate::graphics::tessellation::Tessellate;

pub mod display_area;

pub use display_area::DisplayArea;

verus! {

/// Names a rectangular region of the host page that lies over the display
/// and can hold host content.
#[derive(Clone, Copy, Debug, PartialEq, Eq, Structural)]
pub struct PaneId {
    pub index: usize,
}

/// The size of the draw queue at one moment, to which it can be cut back.
#[derive(Clone, Copy, Debug, PartialEq, Eq, Structural)]
pub struct DrawMark {
    pub vertices: usize,
    pub triangles: usize,
}

/// The mathematical content of a display.
pub struct DisplayView {
    /// Size of the drawing surface in game coordinates.
    pub game_coordinates: Vector,
    /// Native pixels per unit of game coordinates.
    pub pixel_ratio: Fixed,
    /// The host region that covers the whole display.
    pub div: PaneId,
    /// What has been drawn since the last flush, in the order of the draw
    /// calls.
    pub mesh: MeshView,
}

impl DisplayView {
    /// The display after a draw call that places `mesh` by `trans` and
    /// stacks it at `z`.
    pub open spec fn drew(self, mesh: MeshView, trans: Transform, z: i16) -> DisplayView {
        DisplayView {
            game_coordinates: self.game_coordinates,
            pixel_ratio: self.pixel_ratio,
            div: self.div,
            mesh: self.mesh.merged(mesh, trans, z),
        }
    }

    /// The display with another scale between pixels and game coordinates.
    pub open spec fn scaled(self, pixel_ratio: Fixed) -> DisplayView {
        DisplayView {
            game_coordinates: self.game_coordinates,
            pixel_ratio,
            div: self.div,
            mesh: self.mesh,
        }
    }

    /// The display after it has been fitted to the visible area
    /// `viewport` with `margin` around the game area: at the fitting scale,
    /// or unchanged where fitting is refused.
    pub open spec fn fitted(self, viewport: Vector, margin: Fixed) -> DisplayView {
        if fit_failure(self.game_coordinates, viewport, margin).is_some() {
            self
        } else {
            self.scaled(fit_ratio(self.game_coordinates, viewport, margin))
        }
    }

    /// The display with its draw queue cut back to the given size.
    pub open spec fn cut_back(self, mark: DrawMark) -> DisplayView {
        DisplayView {
            game_coordinates: self.game_coordinates,
            pixel_ratio: self.pixel_ratio,
            div: self.div,
            mesh: self.mesh.prefix(mark.vertices as int, mark.triangles as int),
        }
    }

    /// The display with an empty draw queue.
    pub open spec fn flushed(self) -> DisplayView {
        DisplayView {
            game_coordinates: self.game_coordinates,
            pixel_ratio: self.pixel_ratio,
            div: self.div,
            mesh: MeshView::empty(),
        }
    }
}

/// One side of the game area with the margin on both of its ends, exact.
pub open spec fn inflated(side: Fixed, margin: Fixed) -> int {
    side@ + 2 * margin@
}

/// Whether fitting to the visible area `viewport` is refused.
pub open spec fn fit_failure(game: Vector, viewport: Vector, margin: Fixed) -> Option<
    PaddleError,
> {
    if viewport.x@ <= 0 || viewport.y@ <= 0 {
        Some(PaddleError::EmptyViewport)
    } else if inflated(game.x, margin) <= 0 || inflated(game.y, margin) <= 0 {
        Some(PaddleError::EmptyGameArea)
    } else {
        None
    }
}

/// The largest scale at which the game area, with `margin` around it, fits
/// into `viewport` along both axes: the smaller of the two quotients of the
/// viewport's extent by the inflated extent.
pub open spec fn fit_ratio(game: Vector, viewport: Vector, margin: Fixed) -> Fixed {
    viewport.x.div(Fixed::of(inflated(game.x, margin))).min(
        viewport.y.div(Fixed::of(inflated(game.y, margin))),
    )
}

/// What is drawn after a mark can be discarded again: a draw call on a
/// well-formed display followed by cutting back to the mark taken before
/// leaves the draw queue as it was.
pub proof fn lemma_discard_undoes_draw(display: DisplayView, mesh: MeshView, trans: Transform, z: i16)
    requires
        display.mesh.wf(),
    ensures
        display.drew(mesh, trans, z).mesh.has_prefix(
            display.mesh.vertices.len() as int,
            display.mesh.triangles.len() as int,
        ),
        display.drew(mesh, trans, z).mesh.prefix(
            display.mesh.vertices.len() as int,
            display.mesh.triangles.len() as int,
        ) == display.mesh,
{
    let after = display.drew(mesh, trans, z).mesh;
    let cut = after.prefix(display.mesh.vertices.len() as int, display.mesh.triangles.len() as int);
    assert(cut.vertices =~= display.mesh.vertices);
    assert(cut.triangles =~= display.mesh.triangles);
}

proof fn lemma_quotient_fits(v: int, w: int, ratio: int)
    by (nonlinear_arith)
    requires
        v > 0,
        w > 0,
        0 <= ratio <= (v * 1_000_000) / w,
    ensures
        (ratio * w) / 1_000_000 <= v,
{
}

proof fn lemma_quotient_sign(v: int, w: int)
    by (nonlinear_arith)
    requires
        v > 0,
        w > 0,
    ensures
        (v * 1_000_000) / w >= 0,
{
}

/// At the fitting scale the game area with its margin fits into the
/// visible area along both axes: each inflated extent, taken to pixels,
/// is at most the visible extent.
pub proof fn lemma_fit_fits(game: Vector, viewport: Vector, margin: Fixed)
    requires
        fit_failure(game, viewport, margin).is_none(),
        fits(inflated(game.x, margin)),
        fits(inflated(game.y, margin)),
    ensures
        fit_ratio(game, viewport, margin)@ >= 0,
        mul_raw(fit_ratio(game, viewport, margin)@, inflated(game.x, margin)) <= viewport.x@,
        mul_raw(fit_ratio(game, viewport, margin)@, inflated(game.y, margin)) <= viewport.y@,
{
    let w = inflated(game.x, margin);
    let h = inflated(game.y, margin);
    let ratio = fit_ratio(game, viewport, margin)@;
    lemma_quotient_sign(viewport.x@, w);
    lemma_quotient_sign(viewport.y@, h);
    assert(viewport.x@ * SCALE == viewport.x@ * 1_000_000);
    assert(viewport.y@ * SCALE == viewport.y@ * 1_000_000);
    lemma_quotient_fits(viewport.x@, w, ratio);
    lemma_quotient_fits(viewport.y@, h, ratio);
}

/// Fitting is idempotent: fitting a display twice to the same visible area
/// with the same margin leaves it as fitting it once does, with the same
/// scale.
pub proof fn lemma_fit_idempotent(display: DisplayView, viewport: Vector, margin: Fixed)
    ensures
        display.fitted(viewport, margin).fitted(viewport, margin) == display.fitted(
            viewport,
            margin,
        ),
        display.fitted(viewport, margin).fitted(viewport, margin).pixel_ratio == display.fitted(
            viewport,
            margin,
        ).pixel_ratio,
{
}

/// The full drawing surface, addressed in game coordinates, with the mesh
/// that accumulates the draw calls of the current frame.
pub struct Display {
    game_coordinates: Vector,
    pixel_ratio: Fixed,
    div: PaneId,
    mesh: AbstractMesh,
}

impl View for Display {
    type V = DisplayView;

    closed spec fn view(&self) -> DisplayView {
        DisplayView {
            game_coordinates: self.game_coordinates,
            pixel_ratio: self.pixel_ratio,
            div: self.div,
            mesh: self.mesh@,
        }
    }
}

impl Display {
    /// The invariant of the display: its mesh is well-formed.
    pub open spec fn wf(&self) -> bool {
        self@.mesh.wf()
    }

    /// A display of the given size in game coordinates that the host
    /// region `div` covers, at a scale of one pixel per unit and with
    /// nothing drawn.
    pub fn new(game_coordinates: Vector, div: PaneId) -> (r: Display)
        ensures
            r.wf(),
            r@ == (DisplayView {
                game_coordinates,
                pixel_ratio: Fixed { raw: crate::geometry::fixed::SCALE },
                div,
                mesh: MeshView::empty(),
            }),
    {
        Display { game_coordinates, pixel_ratio: Fixed::one(), div, mesh: AbstractMesh::new() }
    }

    /// The host region that covers the whole display.
    pub fn div(&self) -> (r: PaneId)
        ensures
            r == self@.div,
    {
        self.div
    }

    /// Size of the drawing surface in game coordinates.
    pub fn game_coordinates(&self) -> (r: Vector)
        ensures
            r == self@.game_coordinates,
    {
        self.game_coordinates
    }

    /// Native pixels per unit of game coordinates.
    pub fn browser_to_game_pixel_ratio(&self) -> (r: Fixed)
        ensures
            r == self@.pixel_ratio,
    {
        self.pixel_ratio
    }

    /// The transform from game coordinates to native pixels.
    pub fn game_to_browser_coordinates(&self) -> (r: Transform)
        ensures
            r == Transform::scale(Vector { x: self@.pixel_ratio, y: self@.pixel_ratio }),
    {
        Transform::scale(Vector::new(self.pixel_ratio, self.pixel_ratio))
    }

    /// What has been drawn since the last flush.
    pub fn mesh(&self) -> (r: &AbstractMesh)
        ensures
            r@ == self@.mesh,
    {
        &self.mesh
    }

    /// Draws a shape at stacking key zero, untransformed.
    pub fn draw<S: Tessellate>(&mut self, shape: &S, bkg: Background)
        requires
            old(self).wf(),
        ensures
            final(self).wf(),
            final(self)@ == old(self)@.drew(shape.shape_mesh(bkg), Transform::identity(), 0),
    {
        self.draw_ex(shape, bkg, Transform::identity(), 0)
    }

    /// Draws a shape placed by `trans` and stacked at `z`: a higher `z`
    /// is drawn later, and equal keys in the order of the draw calls.
    pub fn draw_ex<S: Tessellate>(&mut self, shape: &S, bkg: Background, trans: Transform, z: i16)
        requires
            old(self).wf(),
        ensures
            final(self).wf(),
            final(self)@ == old(self)@.drew(shape.shape_mesh(bkg), trans, z),
    {
        let mut buffer = AbstractMesh::new();
        shape.tessellate(&mut buffer, bkg);
        proof {
            lemma_append_to_empty(shape.shape_mesh(bkg));
        }
        self.mesh.merge(&buffer, trans, z);
    }

    /// Draws a mesh at stacking key zero, untransformed.
    pub fn draw_mesh(&mut self, mesh: &AbstractMesh)
        requires
            old(self).wf(),
            mesh.wf(),
        ensures
            final(self).wf(),
            final(self)@ == old(self)@.drew(mesh@, Transform::identity(), 0),
    {
        self.mesh.merge(mesh, Transform::identity(), 0);
    }

    /// Merges a mesh into the queue: every vertex position is taken
    /// through `trans`, and every triangle is stacked at `z`.
    pub fn draw_mesh_ex(&mut self, mesh: &AbstractMesh, trans: Transform, z: i16)
        requires
            old(self).wf(),
            mesh.wf(),
        ensures
            final(self).wf(),
            final(self)@ == old(self)@.drew(mesh@, trans, z),
    {
        self.mesh.merge(mesh, trans, z);
    }

    /// Sets the scale between pixels and game coordinates so that the game
    /// area with `margin` around it fits into the visible area `viewport`
    /// and keeps its aspect ratio. A visible area or an inflated game area
    /// without extent is reported, and the scale stays as it was.
    pub fn fit_to_visible_area(&mut self, viewport: Vector, margin: Fixed) -> (r: Result<
        (),
        PaddleError,
    >)
        ensures
            old(self).wf() ==> final(self).wf(),
            final(self)@ == old(self)@.fitted(viewport, margin),
            match fit_failure(old(self)@.game_coordinates, viewport, margin) {
                Some(error) => r == Err::<(), PaddleError>(error),
                None => r.is_ok(),
            },
    {
        if viewport.x.raw <= 0 || viewport.y.raw <= 0 {
            return Err(PaddleError::EmptyViewport);
        }
        let width: i128 = self.game_coordinates.x.raw as i128 + 2 * (margin.raw as i128);
        let height: i128 = self.game_coordinates.y.raw as i128 + 2 * (margin.raw as i128);
        if width <= 0 || height <= 0 {
            return Err(PaddleError::EmptyGameArea);
        }
        let horizontal = viewport.x.div(Fixed { raw: narrow(width) });
        let vertical = viewport.y.div(Fixed { raw: narrow(height) });
        self.pixel_ratio = horizontal.min(vertical);
        Ok(())
    }

    /// The present size of the draw queue.
    pub fn mark(&self) -> (r: DrawMark)
        ensures
            r.vertices == self@.mesh.vertices.len(),
            r.triangles == self@.mesh.triangles.len(),
    {
        DrawMark { vertices: self.mesh.vertex_count(), triangles: self.mesh.triangle_count() }
    }

    /// Discards what has been drawn since `mark` was taken, as is due when
    /// a frame's drawing fails half way. A mark that does not fit the queue
    /// discards nothing.
    pub fn discard_since(&mut self, mark: DrawMark) -> (done: bool)
        requires
            old(self).wf(),
        ensures
            final(self).wf(),
            done == old(self)@.mesh.has_prefix(mark.vertices as int, mark.triangles as int),
            final(self)@ == if done {
                old(self)@.cut_back(mark)
            } else {
                old(self)@
            },
    {
        self.mesh.truncate(mark.vertices, mark.triangles)
    }

    /// Settles one frame's drawing, which began when `mark` was taken. If
    /// the drawing failed, what the frame has drawn since is discarded, so
    /// that the other frames' drawing of this tick stands alone; the outcome
    /// is handed on to the caller either way.
    pub fn settle_draw(&mut self, mark: DrawMark, outcome: Result<(), PaddleError>) -> (r: Result<
        (),
        PaddleError,
    >)
        requires
            old(self).wf(),
        ensures
            final(self).wf(),
            r == outcome,
            final(self)@ == if outcome.is_err() && old(self)@.mesh.has_prefix(
                mark.vertices as int,
                mark.triangles as int,
            ) {
                old(self)@.cut_back(mark)
            } else {
                old(self)@
            },
    {
        if outcome.is_err() {
            self.discard_since(mark);
        }
        outcome
    }

    /// Hands out what has been drawn, its triangles in stacking order, and
    /// starts the next frame with an empty queue.
    pub fn flush(&mut self) -> (r: AbstractMesh)
        requires
            old(self).wf(),
        ensures
            final(self).wf(),
            final(self)@ == old(self)@.flushed(),
            r.wf(),
            r@.vertices == old(self)@.mesh.vertices,
            stacked(r@.triangles, old(self)@.mesh.triangles),
    {
        let mut mesh = AbstractMesh::new();
        mesh.take_sorted(&mut self.mesh);
        mesh
    }
}

} // verus!
