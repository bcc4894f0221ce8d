//! Paints: what a shape is filled with.
use vstd::prelude::*;
use crate::geometry::rectangle::Rectangle;
use crate::geometry::transform::Transform;
use crate::geometry::vector::Vector;
use crate::graphics::color::Color;
use crate::graphics::image::Image;

verus! {

/// A fill: a solid colour, or a region of a texture.
#[derive(Clone, Copy, Debug)]
pub enum Background {
    /// A uniform colour.
    Col(Color),
    /// A textured fill.
    Img(Image),
}

impl Background {
    pub open spec fn spec_image(self) -> Option<Image> {
        match self {
            Background::Col(_) => None,
            Background::Img(image) => Some(image),
        }
    }

    pub open spec fn spec_color(self) -> Color {
        match self {
            Background::Col(color) => color,
            Background::Img(_) => Color::white(),
        }
    }

    pub open spec fn spec_texture_transform(self) -> Transform {
        match self {
            Background::Col(_) => Transform::identity(),
            Background::Img(image) => image.projection(Rectangle::new_sized(Vector::one())),
        }
    }

    /// The image of a textured fill.
    #[verifier::when_used_as_spec(spec_image)]
    pub fn image(self) -> (r: Option<Image>)
        ensures
            r == self.spec_image(),
    {
        match self {
            Background::Col(_) => None,
            Background::Img(image) => Some(image),
        }
    }

    /// The tint of the fill: the colour itself, or white for a texture.
    #[verifier::when_used_as_spec(spec_color)]
    pub fn color(self) -> (r: Color)
        ensures
            r == self.spec_color(),
    {
        match self {
            Background::Col(color) => color,
            Background::Img(_) => Color::white(),
        }
    }

    /// The transform from the unit square to texture coordinates. For a
    /// texture it projects the unit square onto the image's region; for a
    /// colour, which has no texture, it is the identity.
    #[verifier::when_used_as_spec(spec_texture_transform)]
    pub fn texture_transform(self) -> (r: Transform)
        ensures
            r == self.spec_texture_transform(),
    {
        match self {
            Background::Col(_) => Transform::identity(),
            Background::Img(image) => image.projection(Rectangle::new_sized(Vector::one())),
        }
    }
}

} // verus!
