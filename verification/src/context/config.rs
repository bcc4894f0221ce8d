//! The configuration object and its builders.
use vstd::prelude::*;
use crate::geometry::vector::Vector;
use crate::graphics::color::Color;
use crate::graphics::texture_config::TextureConfig;

verus! {

/// Which canvas of the host page the display draws to.
#[derive(Clone, Copy, Debug)]
pub enum CanvasConfig {
    /// The canvas with the given id.
    HtmlId(&'static str),
}

/// Settings of the display.
#[derive(Clone, Copy, Debug)]
pub struct DisplayConfig {
    pub canvas: CanvasConfig,
    /// Resolution of the display, which is its size in game coordinates.
    pub pixels: Vector,
    /// Milliseconds between two updates of the world.
    pub update_delay_ms: i32,
    pub texture_config: TextureConfig,
    /// The colour with which the display is cleared, if any.
    pub background: Option<Color>,
}

impl DisplayConfig {
    /// The canvas `paddle-canvas` at 1280 by 720, updated every 8 ms, with
    /// default textures and no background.
    pub open spec fn spec_default() -> DisplayConfig {
        DisplayConfig {
            canvas: CanvasConfig::HtmlId("paddle-canvas"),
            pixels: Vector::from_ints(1280, 720),
            update_delay_ms: 8,
            texture_config: TextureConfig::spec_default(),
            background: None,
        }
    }
}

impl Default for DisplayConfig {
    fn default() -> (r: DisplayConfig)
        ensures
            r == DisplayConfig::spec_default(),
    {
        DisplayConfig {
            canvas: CanvasConfig::HtmlId("paddle-canvas"),
            pixels: Vector::from_ints(1280, 720),
            update_delay_ms: 8,
            texture_config: TextureConfig::default(),
            background: None,
        }
    }
}

/// Everything that can be set before the engine starts.
#[derive(Clone, Copy, Debug)]
pub struct PaddleConfig {
    pub display: DisplayConfig,
    pub enable_text_board: bool,
}

impl PaddleConfig {
    /// The default display without a text board.
    pub open spec fn spec_default() -> PaddleConfig {
        PaddleConfig { display: DisplayConfig::spec_default(), enable_text_board: false }
    }

    /// The default configuration.
    pub fn new() -> (r: PaddleConfig)
        ensures
            r == PaddleConfig::spec_default(),
    {
        PaddleConfig::default()
    }

    /// Draws to the canvas with the given id.
    pub fn with_canvas_id(self, id: &'static str) -> (r: PaddleConfig)
        ensures
            r == (PaddleConfig {
                display: DisplayConfig {
                    canvas: CanvasConfig::HtmlId(id),
                    pixels: self.display.pixels,
                    update_delay_ms: self.display.update_delay_ms,
                    texture_config: self.display.texture_config,
                    background: self.display.background,
                },
                enable_text_board: self.enable_text_board,
            }),
    {
        let mut config = self;
        config.display.canvas = CanvasConfig::HtmlId(id);
        config
    }

    /// Sets the resolution of the display.
    pub fn with_resolution(self, pixels: Vector) -> (r: PaddleConfig)
        ensures
            r == (PaddleConfig {
                display: DisplayConfig {
                    canvas: self.display.canvas,
                    pixels,
                    update_delay_ms: self.display.update_delay_ms,
                    texture_config: self.display.texture_config,
                    background: self.display.background,
                },
                enable_text_board: self.enable_text_board,
            }),
    {
        let mut config = self;
        config.display.pixels = pixels;
        config
    }

    /// Sets how textures are created.
    pub fn with_texture_config(self, texture_config: TextureConfig) -> (r: PaddleConfig)
        ensures
            r == (PaddleConfig {
                display: DisplayConfig {
                    canvas: self.display.canvas,
                    pixels: self.display.pixels,
                    update_delay_ms: self.display.update_delay_ms,
                    texture_config,
                    background: self.display.background,
                },
                enable_text_board: self.enable_text_board,
            }),
    {
        let mut config = self;
        config.display.texture_config = texture_config;
        config
    }

    /// Clears the display with the given colour.
    pub fn with_background_color(self, color: Color) -> (r: PaddleConfig)
        ensures
            r == (PaddleConfig {
                display: DisplayConfig {
                    canvas: self.display.canvas,
                    pixels: self.display.pixels,
                    update_delay_ms: self.display.update_delay_ms,
                    texture_config: self.display.texture_config,
                    background: Some(color),
                },
                enable_text_board: self.enable_text_board,
            }),
    {
        let mut config = self;
        config.display.background = Some(color);
        config
    }

    /// Shows a text board.
    pub fn with_text_board(self) -> (r: PaddleConfig)
        ensures
            r == (PaddleConfig { display: self.display, enable_text_board: true }),
    {
        let mut config = self;
        config.enable_text_board = true;
        config
    }

    /// Shows no text board.
    pub fn without_text_board(self) -> (r: PaddleConfig)
        ensures
            r == (PaddleConfig { display: self.display, enable_text_board: false }),
    {
        let mut config = self;
        config.enable_text_board = false;
        config
    }
}

impl Default for PaddleConfig {
    fn default() -> (r: PaddleConfig)
        ensures
            r == PaddleConfig::spec_default(),
    {
        PaddleConfig { display: DisplayConfig::default(), enable_text_board: false }
    }
}

} // verus!
