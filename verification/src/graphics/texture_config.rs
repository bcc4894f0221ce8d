//! Settings for textures.
use vstd::prelude::*;
use crate::graphics::image::PixelFormat;

verus! {

/// How textures are created from images.
#[derive(Clone, Copy, Debug)]
pub struct TextureConfig {
    /// Whether texels are interpolated when a texture is scaled.
    pub filter: bool,
    /// The pixel format in which textures are stored.
    pub format: PixelFormat,
}

impl TextureConfig {
    /// Filtered textures without an alpha channel.
    pub open spec fn spec_default() -> TextureConfig {
        TextureConfig { filter: true, format: PixelFormat::RGB }
    }

    /// The same settings without interpolation.
    pub fn without_filter(self) -> (r: TextureConfig)
        ensures
            r == (TextureConfig { filter: false, format: self.format }),
    {
        TextureConfig { filter: false, format: self.format }
    }

    /// The same settings with an alpha channel.
    pub fn with_rgba(self) -> (r: TextureConfig)
        ensures
            r == (TextureConfig { filter: self.filter, format: PixelFormat::RGBA }),
    {
        TextureConfig { filter: self.filter, format: PixelFormat::RGBA }
    }
}

impl Default for TextureConfig {
    fn default() -> (r: TextureConfig)
        ensures
            r == TextureConfig::spec_default(),
    {
        TextureConfig { filter: true, format: PixelFormat::RGB }
    }
}

} // verus!
