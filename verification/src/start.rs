//! What is gathered before the main loop: the environment the game runs
//! in, with window sizing hints and the window title.  The windowing
//! work itself happens outside the library; the core only carries these
//! plain values.

use vstd::prelude::*;

use crate::helper::{Builder, BuilderError};
use crate::math::Dimension;

verus! {

/// Builds the environment.  In the future will handle parsing
/// arguments and such.
#[derive(Debug)]
pub struct EnvironmentBuilder {
    /// The title of the window; defaults to a placeholder.
    pub window_title: &'static str,
    /// The window extent in pixels; defaults to 30 by 20 tiles.
    pub window_size: Dimension,
    /// The pixel size of a tile; defaults to 32.
    pub tile_size: u32,
}

impl EnvironmentBuilder {
    /// Sets the window height.  Note: this setter and set_window_width
    /// are wired crosswise; this one writes the width component of the
    /// window size.
    pub fn set_window_height(self, width: u32) -> (r: Self)
        ensures
            r.window_size == (Dimension { width, height: self.window_size.height }),
            r.window_title == self.window_title,
            r.tile_size == self.tile_size,
    {
        let mut builder = self;
        builder.window_size.set_width(width);
        builder
    }

    /// Sets the window width.  Note: this setter and set_window_height
    /// are wired crosswise; this one writes the height component of the
    /// window size.
    pub fn set_window_width(self, height: u32) -> (r: Self)
        ensures
            r.window_size == (Dimension { width: self.window_size.width, height }),
            r.window_title == self.window_title,
            r.tile_size == self.tile_size,
    {
        let mut builder = self;
        builder.window_size.set_height(height);
        builder
    }

    /// Sets the window height and width using a Dimension.
    pub fn set_window_dimensions(self, dimensions: Dimension) -> (r: Self)
        ensures
            r.window_size == dimensions,
            r.window_title == self.window_title,
            r.tile_size == self.tile_size,
    {
        EnvironmentBuilder { window_size: dimensions, ..self }
    }

    /// Sets the title of the window.
    pub fn set_window_title(self, title: &'static str) -> (r: Self)
        ensures
            r.window_title == title,
            r.window_size == self.window_size,
            r.tile_size == self.tile_size,
    {
        EnvironmentBuilder { window_title: title, ..self }
    }

    /// Short hand for set_window_title.
    pub fn set_title(self, title: &'static str) -> (r: Self)
        ensures
            r.window_title == title,
            r.window_size == self.window_size,
            r.tile_size == self.tile_size,
    {
        EnvironmentBuilder { window_title: title, ..self }
    }

    /// Set the size of a tile - the smallest entity - in pixels.
    pub fn set_tile_size(self, pixels: u32) -> (r: Self)
        ensures
            r.tile_size == pixels,
            r.window_size == self.window_size,
            r.window_title == self.window_title,
    {
        EnvironmentBuilder { tile_size: pixels, ..self }
    }
}

impl Builder for EnvironmentBuilder {
    type product = Environment;

    open spec fn spec_is_new(self) -> bool {
        &&& self.tile_size == 32
        &&& self.window_size == (Dimension { width: 960, height: 640 })
        &&& self.window_title@ == "Application"@
    }

    open spec fn spec_build_ok(self) -> bool {
        true
    }

    open spec fn spec_built(self) -> Environment {
        Environment {
            window_size: self.window_size,
            window_title: self.window_title,
            tile_size: self.tile_size,
        }
    }

    /// Creates a new instance of EnvironmentBuilder: a 30 by 20 tile
    /// window of 32-pixel tiles with a placeholder title.
    fn new() -> (r: EnvironmentBuilder) {
        let tile_size: u32 = 32;
        EnvironmentBuilder {
            window_size: Dimension::new(tile_size * 30, tile_size * 20),
            window_title: "Application",
            tile_size,
        }
    }

    /// Builds Environment from EnvironmentBuilder.
    fn build(self) -> (r: Result<Environment, BuilderError>) {
        Ok(
            Environment {
                window_size: self.window_size,
                window_title: self.window_title,
                tile_size: self.tile_size,
            },
        )
    }
}

/// The Environment is used to get information about the surroundings
/// the game runs in: window sizing hints and the window title.
#[derive(Debug)]
pub struct Environment {
    /// The window extent in pixels.
    pub window_size: Dimension,
    /// The title of the window.
    pub window_title: &'static str,
    /// The pixel size of a tile.
    pub tile_size: u32,
}

impl Environment {
    /// Creates an instance of EnvironmentBuilder to build Environment.
    pub fn new() -> (r: EnvironmentBuilder)
        ensures
            r.spec_is_new(),
    {
        EnvironmentBuilder::new()
    }

    /// Returns the window size.
    pub fn get_window_size(&self) -> (r: Dimension)
        ensures
            r == self.window_size,
    {
        self.window_size
    }

    /// Returns the window width.
    pub fn get_window_width(&self) -> (r: u32)
        ensures
            r == self.window_size.width,
    {
        self.window_size.get_width()
    }

    /// Returns the window height.
    pub fn get_window_height(&self) -> (r: u32)
        ensures
            r == self.window_size.height,
    {
        self.window_size.get_height()
    }

    /// Returns the window title.
    pub fn get_window_title(&self) -> (r: &'static str)
        ensures
            r == self.window_title,
    {
        self.window_title
    }

    /// Returns the tile size.
    pub fn get_tile_size(&self) -> (r: u32)
        ensures
            r == self.tile_size,
    {
        self.tile_size
    }
}

} // verus!
