//! Rendering composition core of a 2D presentation engine.
//!
//! Shapes are tessellated into triangle meshes, positioned through affine
//! transforms, queued on a display in stacking order, and lifecycle events
//! are routed to independently registered frames. All numbers are exact
//! fixed-point values, so every result is reproducible and specified.
pub mod context;
pub mod display;
pub mod error;
pub mod frame;
pub mod geometry;
pub mod graphics;
pub mod input;

