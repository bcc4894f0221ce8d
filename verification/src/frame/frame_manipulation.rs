//! Placing a frame's host region over its region of the display.
use vstd::prelude::*;
use crate::display::{Display, PaneId};
use crate::frame::frame_registration::FrameHandle;
use crate::geometry::fixed::{Fixed, SCALE};
use crate::geometry::rectangle::Rectangle;
use crate::geometry::transform::Transform;
use crate::geometry::vector::Vector;

verus! {

/// The request to place a frame's host region.
#[derive(Clone, Copy, Debug)]
pub struct FrameInitialization {
    pub div: PaneId,
    /// The frame's region in game coordinates.
    pub region: Rectangle,
}

/// Where a host region is to be put, in native pixels.
#[derive(Clone, Copy, Debug, PartialEq, Eq, Structural)]
pub struct PaneGeometry {
    pub div: PaneId,
    pub x: u32,
    pub y: u32,
    pub w: u32,
    pub h: u32,
}

/// Whole pixels of a length: the fraction is dropped, a negative length
/// counts as zero and one beyond the largest pixel count as the largest.
pub open spec fn spec_pixels(length: Fixed) -> u32 {
    if length@ < 0 {
        0
    } else if length@ / (SCALE as int) > u32::MAX {
        u32::MAX
    } else {
        (length@ / (SCALE as int)) as u32
    }
}

/// The region in native pixels that covers `region` at `pixel_ratio`
/// pixels per unit of game coordinates.
pub open spec fn pixel_region(region: Rectangle, pixel_ratio: Fixed) -> Rectangle {
    Transform::scale(Vector { x: pixel_ratio, y: pixel_ratio }).apply_rect(region)
}

/// See [`spec_pixels`].
#[verifier::when_used_as_spec(spec_pixels)]
pub fn pixels(length: Fixed) -> (r: u32)
    ensures
        r == spec_pixels(length),
{
    if length.raw < 0 {
        0
    } else {
        let whole: i64 = length.raw / SCALE;
        if whole > u32::MAX as i64 {
            u32::MAX
        } else {
            whole as u32
        }
    }
}

/// The activity that places the host regions of frames.
pub struct FrameManipulator {
    _private: (),
}

impl FrameManipulator {
    /// The manipulator; the caller registers it with the frame domain.
    pub fn init() -> (r: FrameManipulator) {
        FrameManipulator { _private: () }
    }

    /// The request to place the host region of `f`, which the caller sends
    /// to the manipulator.
    pub fn init_frame(f: &FrameHandle) -> (r: FrameInitialization)
        ensures
            r == (FrameInitialization { div: f@.div, region: f@.region }),
    {
        FrameInitialization { div: f.div(), region: f.region() }
    }

    /// Answers a request: converts the frame's region to native pixels at
    /// the display's present scale. The caller moves and resizes the host
    /// region accordingly.
    pub fn priv_init_frame(&mut self, display: &Display, init: FrameInitialization) -> (r:
        PaneGeometry)
        ensures
            r == ({
                let region = pixel_region(init.region, display@.pixel_ratio);
                PaneGeometry {
                    div: init.div,
                    x: pixels(region.pos.x),
                    y: pixels(region.pos.y),
                    w: pixels(region.size.x),
                    h: pixels(region.size.y),
                }
            }),
    {
        let region = display.game_to_browser_coordinates().apply_rect(init.region);
        PaneGeometry {
            div: init.div,
            x: pixels(region.x()),
            y: pixels(region.y()),
            w: pixels(region.width()),
            h: pixels(region.height()),
        }
    }
}

} // verus!
