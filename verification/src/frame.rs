//! Frames: independently registered visual components, each with its own
//! region of the display, and the routing of lifecycle messages to them.
pub mod frame_manipulation;
pub mod frame_registration;

pub use frame_manipulation::{FrameInitialization, FrameManipulator, PaneGeometry};
pub use frame_registration::{
    register_frame, register_frame_no_state, ActivityId, Delivery, FrameDomain, FrameHandle,
    FrameHooks, FrameView, Message, Subscription, Topic,
};
