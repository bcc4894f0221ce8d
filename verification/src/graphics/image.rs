//! Images: a region of a texture that the rendering backend holds.
use vstd::prelude::*;
use vstd::std_specs::cmp::PartialEqSpecImpl;
use vstd::std_specs::convert::FromSpecImpl;
use crate::geometry::fixed::Fixed;
use crate::geometry::rectangle::Rectangle;
use crate::geometry::transform::Transform;
use crate::geometry::vector::Vector;

verus! {

/// Pixel formats of raw image data.
#[derive(Copy, Clone, Debug, Eq, PartialEq, Hash)]
pub enum PixelFormat {
    /// Red, green and blue.
    RGB,
    /// Red, green, blue and alpha.
    RGBA,
}

/// The error type of the standard library's input and output, carried
/// through unread.
#[verifier::external_type_specification]
#[verifier::external_body]
pub struct ExIoError(std::io::Error);

/// An error met while an image was loaded.
#[derive(Debug)]
pub enum ImageError {
    /// The image file could not be read.
    IOError(std::io::Error),
}

impl From<std::io::Error> for ImageError {
    fn from(err: std::io::Error) -> (r: ImageError) {
        ImageError::IOError(err)
    }
}

impl FromSpecImpl<std::io::Error> for ImageError {
    open spec fn obeys_from_spec() -> bool {
        true
    }

    open spec fn from_spec(err: std::io::Error) -> ImageError {
        ImageError::IOError(err)
    }
}

/// An image that can fill a shape: a rectangular region of a loaded texture.
///
/// `source` identifies the texture that the backend holds; two images show
/// the same picture exactly if they name the same texture and region.
#[derive(Clone, Copy, Debug)]
pub struct Image {
    /// Identity of the underlying texture.
    pub source: u64,
    /// Width of the underlying texture in pixels.
    pub source_width: u32,
    /// Height of the underlying texture in pixels.
    pub source_height: u32,
    /// The region of the texture that the image shows, in pixels.
    pub region: Rectangle,
}

impl PartialEq for Image {
    fn eq(&self, other: &Image) -> (r: bool) {
        self.source == other.source && self.region == other.region
    }
}

impl Eq for Image {

}

impl PartialEqSpecImpl for Image {
    open spec fn obeys_eq_spec() -> bool {
        true
    }

    open spec fn eq_spec(&self, other: &Image) -> bool {
        self.source == other.source && self.region == other.region
    }
}

impl Image {
    pub open spec fn spec_new(source: u64, width: u32, height: u32, region: Rectangle) -> Image {
        Image { source, source_width: width, source_height: height, region }
    }

    /// Size of the underlying texture as a vector of whole numbers.
    pub open spec fn source_size(self) -> Vector {
        Vector::from_ints(self.source_width as i64, self.source_height as i64)
    }

    pub open spec fn spec_subimage(self, rect: Rectangle) -> Image {
        Image {
            source: self.source,
            source_width: self.source_width,
            source_height: self.source_height,
            region: Rectangle {
                pos: Vector {
                    x: self.region.pos.x.plus(rect.pos.x),
                    y: self.region.pos.y.plus(rect.pos.y),
                },
                size: rect.size,
            },
        }
    }

    /// Position of the image's region in the texture, as fractions of the
    /// texture's size.
    pub open spec fn normalized_pos(self) -> Vector {
        Vector {
            x: self.region.pos.x.div(self.source_size().x),
            y: self.region.pos.y.div(self.source_size().y),
        }
    }

    /// Size of the image's region, as fractions of the texture's size.
    pub open spec fn normalized_size(self) -> Vector {
        Vector {
            x: self.region.size.x.div(self.source_size().x),
            y: self.region.size.y.div(self.source_size().y),
        }
    }

    /// The transform that takes a point of `region` to texture coordinates:
    /// it moves the region's corner to the origin, scales the region to the
    /// unit square, scales that to the image's share of the texture and
    /// moves it to the image's place in the texture.
    pub open spec fn spec_projection(self, region: Rectangle) -> Transform {
        Transform::translate(self.normalized_pos()).compose(
            Transform::scale(self.normalized_size()),
        ).compose(Transform::scale(region.size.recip())).compose(
            Transform::translate(region.pos.neg()),
        )
    }

    /// The image that shows `region` of the texture `source`, whose size in
    /// pixels is `width` by `height`.
    #[verifier::when_used_as_spec(spec_new)]
    pub fn new(source: u64, width: u32, height: u32, region: Rectangle) -> (r: Image)
        ensures
            r == Image::spec_new(source, width, height, region),
    {
        Image { source, source_width: width, source_height: height, region }
    }

    /// The area of the source texture that this image takes up.
    pub fn area(&self) -> (r: Rectangle)
        ensures
            r == self.region,
    {
        self.region
    }

    /// The part of this image that `rect` selects, `rect` being relative to
    /// this image's own corner.
    #[verifier::when_used_as_spec(spec_subimage)]
    pub fn subimage(self, rect: Rectangle) -> (r: Image)
        ensures
            r == self.spec_subimage(rect),
    {
        Image {
            source: self.source,
            source_width: self.source_width,
            source_height: self.source_height,
            region: Rectangle::new(
                Vector::new(
                    self.region.pos.x.plus(rect.pos.x),
                    self.region.pos.y.plus(rect.pos.y),
                ),
                Vector::new(rect.width(), rect.height()),
            ),
        }
    }

    /// The projection of `region` onto the image: a transform from points
    /// of `region` to texture coordinates.
    #[verifier::when_used_as_spec(spec_projection)]
    pub fn projection(self, region: Rectangle) -> (r: Transform)
        ensures
            r == self.spec_projection(region),
    {
        let source_size = Vector::from_ints(self.source_width as i64, self.source_height as i64);
        let normalized_pos = Vector::new(
            self.region.pos.x.div(source_size.x),
            self.region.pos.y.div(source_size.y),
        );
        let normalized_size = Vector::new(
            self.region.size.x.div(source_size.x),
            self.region.size.y.div(source_size.y),
        );
        Transform::translate(normalized_pos).compose(Transform::scale(normalized_size)).compose(
            Transform::scale(region.size().recip()),
        ).compose(Transform::translate(region.top_left().neg()))
    }
}

} // verus!
