//! A rectangular part of the display, as one frame sees it.
use vstd::prelude::*;
use vstd::std_specs::convert::FromSpecImpl;
use crate::display::{Display, DisplayView, PaneId};
use crate::error::PaddleError;
use crate::geometry::fixed::{Fixed, fits};
use crate::geometry::rectangle::Rectangle;
use crate::geometry::transform::Transform;
use crate::geometry::vector::Vector;
use crate::graphics::abstract_mesh::{AbstractMesh, MeshView};
use crate::graphics::background::Background;
use crate::graphics::tessellation::Tessellate;
use crate::graphics::tessellation_laws::{
    lemma_rectangle_corners, lemma_rectangle_tessellation, rectangle_fits,
};

verus! {

/// The mathematical content of a display area.
pub struct DisplayAreaView {
    /// The selected region in game coordinates; (0, 0) is the top left
    /// corner of the display.
    pub region: Rectangle,
    /// The full display.
    pub display: DisplayView,
    /// The host region that covers the area.
    pub div: PaneId,
}

impl DisplayAreaView {
    /// The transform from coordinates inside the area to coordinates of
    /// the full display: the translation by the region's top left corner.
    pub open spec fn frame_to_display(self) -> Transform {
        Transform::translate(self.region.pos)
    }

    /// The area after a draw call that places `mesh` by `trans` relative
    /// to the area and stacks it at `z`.
    pub open spec fn drew(self, mesh: MeshView, trans: Transform, z: i16) -> DisplayAreaView {
        DisplayAreaView {
            region: self.region,
            display: self.display.drew(mesh, self.frame_to_display().compose(trans), z),
            div: self.div,
        }
    }

    /// The area after its display has been fitted to a visible area.
    pub open spec fn fitted(self, viewport: Vector, margin: Fixed) -> DisplayAreaView {
        DisplayAreaView {
            region: self.region,
            display: self.display.fitted(viewport, margin),
            div: self.div,
        }
    }
}

/// Drawing through an area is drawing on its display with the area's
/// translation applied on top: a draw call on the area with transform `t`
/// leaves the display as the same draw call on the display with transform
/// `translate(top left) * t` does.
pub proof fn lemma_area_draw_is_display_draw(
    area: DisplayAreaView,
    mesh: MeshView,
    t: Transform,
    z: i16,
)
    ensures
        area.drew(mesh, t, z).display == area.display.drew(
            mesh,
            Transform::translate(area.region.pos).compose(t),
            z,
        ),
        area.drew(mesh, t, z).region == area.region,
        area.drew(mesh, t, z).div == area.div,
{
}

/// Drawing through an area without a transform of one's own places the
/// mesh by the area's translation alone.
pub proof fn lemma_area_plain_draw(area: DisplayAreaView, mesh: MeshView, z: i16)
    ensures
        area.drew(mesh, Transform::identity(), z).display == area.display.drew(
            mesh,
            Transform::translate(area.region.pos),
            z,
        ),
{
    crate::geometry::laws::lemma_identity_neutral(Transform::translate(area.region.pos));
}

/// A rectangle drawn through an area lands where the same rectangle, moved
/// by the area's top left corner, lands when it is drawn on the display
/// directly: both draw calls leave the display with the same mesh.
pub proof fn lemma_area_rectangle(area: DisplayAreaView, rect: Rectangle, bkg: Background, z: i16)
    requires
        rectangle_fits(rect),
        rectangle_fits(Rectangle { pos: rect.pos.plus(area.region.pos), size: rect.size }),
        fits(rect.pos.x@ + area.region.pos.x@),
        fits(rect.pos.y@ + area.region.pos.y@),
    ensures
        area.drew(rect.shape_mesh(bkg), Transform::identity(), z).display == area.display.drew(
            (Rectangle { pos: rect.pos.plus(area.region.pos), size: rect.size }).shape_mesh(bkg),
            Transform::identity(),
            z,
        ),
{
    let offset = area.region.pos;
    let moved = Rectangle { pos: rect.pos.plus(offset), size: rect.size };
    let through = Transform::translate(offset).compose(Transform::identity());
    crate::geometry::laws::lemma_identity_neutral(Transform::translate(offset));
    lemma_rectangle_corners(rect, bkg);
    lemma_rectangle_corners(moved, bkg);
    lemma_rectangle_tessellation(rect, bkg);
    lemma_rectangle_tessellation(moved, bkg);
    let local = rect.shape_mesh(bkg);
    let global = moved.shape_mesh(bkg);
    let left = local.transformed(through).with_z(z);
    let right = global.transformed(Transform::identity()).with_z(z);
    assert forall|i: int| 0 <= i < 4 implies left.vertices[i] == right.vertices[i] by {
        let p = local.vertices[i].pos;
        let q = global.vertices[i].pos;
        crate::geometry::laws::lemma_mul_raw_unit(p.x@);
        crate::geometry::laws::lemma_mul_raw_unit(p.y@);
        crate::geometry::laws::lemma_identity_apply(q);
        assert(Transform::translate(offset).apply(p) == q);
    }
    assert(left.vertices =~= right.vertices);
    assert(left.triangles =~= right.triangles);
}

/// A region of the display. Whatever is drawn through it is placed relative
/// to the region's top left corner and lands on the display it belongs to.
pub struct DisplayArea {
    region: Rectangle,
    display: Display,
    div: PaneId,
}

impl View for DisplayArea {
    type V = DisplayAreaView;

    closed spec fn view(&self) -> DisplayAreaView {
        DisplayAreaView { region: self.region, display: self.display@, div: self.div }
    }
}

impl From<Display> for DisplayArea {
    /// The area that covers the whole of `display`.
    fn from(display: Display) -> (r: DisplayArea)
        ensures
            r@ == (DisplayAreaView {
                region: Rectangle::new_sized(display@.game_coordinates),
                display: display@,
                div: display@.div,
            }),
    {
        DisplayArea {
            region: Rectangle::new_sized(display.game_coordinates()),
            div: display.div(),
            display,
        }
    }
}

impl FromSpecImpl<Display> for DisplayArea {
    open spec fn obeys_from_spec() -> bool {
        true
    }

    /// The area that covers the whole display.
    closed spec fn from_spec(display: Display) -> DisplayArea {
        DisplayArea {
            region: Rectangle::new_sized(display@.game_coordinates),
            div: display@.div,
            display,
        }
    }
}

impl DisplayArea {
    /// The invariant of the area: its display is well-formed.
    pub open spec fn wf(&self) -> bool {
        self@.display.mesh.wf()
    }

    /// Selects an area inside the full display, given in game coordinates,
    /// together with the host region that covers it.
    pub fn select(&mut self, rect: Rectangle, div: PaneId) -> (r: &mut DisplayArea)
        ensures
            r@ == (DisplayAreaView { region: rect, display: old(self)@.display, div }),
            final(self)@ == final(r)@,
    {
        self.region = rect;
        self.div = div;
        self
    }

    /// The full display.
    pub fn full(&self) -> (r: &Display)
        ensures
            r@ == self@.display,
    {
        &self.display
    }

    /// The full display, for changes.
    pub fn full_mut(&mut self) -> (r: &mut Display)
        ensures
            r@ == old(self)@.display,
            final(self)@ == (DisplayAreaView {
                region: old(self)@.region,
                display: final(r)@,
                div: old(self)@.div,
            }),
    {
        &mut self.display
    }

    /// The host region that covers the area.
    pub fn div(&self) -> (r: PaneId)
        ensures
            r == self@.div,
    {
        self.div
    }

    /// The transform from coordinates inside the area, where (0, 0) is the
    /// area's top left corner, to coordinates of the full display.
    pub fn frame_to_display_coordinates(&self) -> (r: Transform)
        ensures
            r == Transform::translate(self@.region.pos),
    {
        Transform::translate(self.region.pos)
    }

    /// The transform from coordinates of the full display to coordinates
    /// inside the area: the inverse of the transform the other way.
    pub fn display_to_frame_coordinates(&self) -> (r: Transform)
        ensures
            r == Transform::translate(self@.region.pos.neg()),
            r == Transform::translate(self@.region.pos).inverse(),
    {
        proof {
            crate::geometry::laws::lemma_translate_inverse(self.region.pos);
        }
        Transform::translate(self.region.pos.neg())
    }

    /// Whether a point, given in coordinates of the full display, lies in
    /// the area.
    pub fn is_inside(&self, display_coordinates: Vector) -> (r: bool)
        ensures
            r == self@.region.contains(display_coordinates),
    {
        self.region.contains(display_coordinates)
    }

    /// Draws a shape at stacking key zero, placed relative to the area.
    pub fn draw<S: Tessellate>(&mut self, shape: &S, bkg: Background)
        requires
            old(self).wf(),
        ensures
            final(self).wf(),
            final(self)@ == old(self)@.drew(shape.shape_mesh(bkg), Transform::identity(), 0),
    {
        let trans = self.frame_to_display_coordinates();
        proof {
            lemma_area_plain_draw(self@, shape.shape_mesh(bkg), 0);
        }
        self.display.draw_ex(shape, bkg, trans, 0);
    }

    /// Fills the area with the given paint.
    pub fn fill(&mut self, bkg: Background)
        requires
            old(self).wf(),
        ensures
            final(self).wf(),
            final(self)@ == old(self)@.drew(
                Rectangle::new_sized(old(self)@.region.size).shape_mesh(bkg),
                Transform::identity(),
                0,
            ),
    {
        let region = Rectangle::new_sized(self.region.size);
        self.draw(&region, bkg);
    }

    /// Draws a shape placed by `trans` relative to the area and stacked at
    /// `z`: the same as drawing it on the display with the area's own
    /// translation applied after `trans`.
    pub fn draw_ex<S: Tessellate>(&mut self, shape: &S, bkg: Background, trans: Transform, z: i16)
        requires
            old(self).wf(),
        ensures
            final(self).wf(),
            final(self)@ == old(self)@.drew(shape.shape_mesh(bkg), trans, z),
    {
        let frame_transform = self.frame_to_display_coordinates();
        self.display.draw_ex(shape, bkg, frame_transform.compose(trans), z)
    }

    /// Fits the entire display into the visible area; see
    /// [`Display::fit_to_visible_area`].
    pub fn fit_display(&mut self, viewport: Vector, margin: Fixed) -> (r: Result<(), PaddleError>)
        ensures
            old(self).wf() ==> final(self).wf(),
            final(self)@ == old(self)@.fitted(viewport, margin),
            match crate::display::fit_failure(
                old(self)@.display.game_coordinates,
                viewport,
                margin,
            ) {
                Some(error) => r == Err::<(), PaddleError>(error),
                None => r.is_ok(),
            },
    {
        self.display.fit_to_visible_area(viewport, margin)
    }

    /// Draws a mesh of triangles onto the area, at stacking key zero.
    pub fn draw_mesh(&mut self, mesh: &AbstractMesh)
        requires
            old(self).wf(),
            mesh.wf(),
        ensures
            final(self).wf(),
            final(self)@ == old(self)@.drew(mesh@, Transform::identity(), 0),
    {
        let frame_transform = self.frame_to_display_coordinates();
        proof {
            lemma_area_plain_draw(self@, mesh@, 0);
        }
        self.display.draw_mesh_ex(mesh, frame_transform, 0);
    }

    /// Draws a mesh of triangles onto the area; `t` is applied to each
    /// vertex before the area's own translation.
    pub fn draw_mesh_ex(&mut self, mesh: &AbstractMesh, t: Transform, z: i16)
        requires
            old(self).wf(),
            mesh.wf(),
        ensures
            final(self).wf(),
            final(self)@ == old(self)@.drew(mesh@, t, z),
    {
        let frame_transform = self.frame_to_display_coordinates();
        self.display.draw_mesh_ex(mesh, frame_transform.compose(t), z);
    }

    /// The size of the selected area, in game coordinates.
    pub fn size(&self) -> (r: Vector)
        ensures
            r == self@.region.size,
    {
        self.region.size()
    }

    /// Gives the display back.
    pub fn into_display(self) -> (r: Display)
        ensures
            r@ == self@.display,
    {
        self.display
    }
}

} // verus!
