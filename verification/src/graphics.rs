//! Paints, images, meshes and the tessellation of shapes.
pub mod abstract_mesh;
pub mod background;
pub mod color;
pub mod image;
pub mod stacking;
pub mod tessellation;
pub mod tessellation_laws;
pub mod texture_config;

pub use abstract_mesh::{AbstractMesh, AbstractTriangle, AbstractVertex, MeshView};
pub use background::Background;
pub use color::Color;
pub use image::{Image, ImageError, PixelFormat};
pub use tessellation::Tessellate;
pub use texture_config::TextureConfig;
