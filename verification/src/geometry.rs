//! Geometry kernel: fixed-point scalars, vectors, shapes and affine transforms.
pub mod fixed;
pub mod laws;
pub mod rectangle;
pub mod shapes;
pub mod transform;
pub mod vector;

pub use fixed::Fixed;
pub use rectangle::Rectangle;
pub use shapes::{Circle, Line, Triangle};
pub use transform::Transform;
pub use vector::Vector;
