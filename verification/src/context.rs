//! Settings with which the engine is started.
pub mod config;

pub use config::{CanvasConfig, DisplayConfig, PaddleConfig};
