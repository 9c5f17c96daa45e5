//! Window size, tile size and zoom.

use vstd::prelude::*;

verus! {

/// The largest window side, in pixels, that the editor works with.
pub const MAX_RESOLUTION: u32 = 8192;

/// The largest tile side, in pixels.
pub const MAX_TILE_SIZE: u32 = 64;

/// Window and drawing settings: the window size, the side of a tile in
/// the atlases, and the zoom factor applied to every tile drawn.
#[derive(Clone, Copy, PartialEq, Eq, Structural, Debug)]
pub struct Graphics {
    pub resolution_x: u32,
    pub resolution_y: u32,
    pub tile_size: u32,
    pub render_multiplier: u32,
}

impl Graphics {
    pub open spec fn wf(&self) -> bool {
        &&& 1 <= self.resolution_x <= MAX_RESOLUTION
        &&& 1 <= self.resolution_y <= MAX_RESOLUTION
        &&& 1 <= self.tile_size <= MAX_TILE_SIZE
        &&& (self.render_multiplier == 1 || self.render_multiplier == 2)
    }

    /// The side of a tile on screen, in pixels.
    pub open spec fn render_size(&self) -> u32 {
        (self.tile_size * self.render_multiplier) as u32
    }

    /// Tiles that fit whole across the window.
    pub open spec fn full_x_tiles(&self) -> u32 {
        (self.resolution_x / self.render_size()) as u32
    }

    /// Tiles that fit whole down the window.
    pub open spec fn full_y_tiles(&self) -> u32 {
        (self.resolution_y / self.render_size()) as u32
    }

    /// Tiles that are at least partly visible across the window.
    pub open spec fn x_tiles(&self) -> u32 {
        ((self.resolution_x + self.render_size() - 1) / self.render_size() as int) as u32
    }

    /// Tiles that are at least partly visible down the window.
    pub open spec fn y_tiles(&self) -> u32 {
        ((self.resolution_y + self.render_size() - 1) / self.render_size() as int) as u32
    }

    /// A 640 by 480 window, tiles of 20 pixels, no zoom.
    pub open spec fn default_spec() -> Graphics {
        Graphics { resolution_x: 640, resolution_y: 480, tile_size: 20, render_multiplier: 1 }
    }

    pub fn new() -> (r: Graphics)
        ensures
            r == Self::default_spec(),
            r.wf(),
    {
        Graphics { resolution_x: 640, resolution_y: 480, tile_size: 20, render_multiplier: 1 }
    }

    pub fn get_render_size(&self) -> (r: u32)
        requires
            self.wf(),
        ensures
            r == self.render_size(),
            1 <= r <= 2 * MAX_TILE_SIZE,
    {
        self.tile_size * self.render_multiplier
    }

    pub fn get_full_x_tiles_per_screen(&self) -> (r: u32)
        requires
            self.wf(),
        ensures
            r == self.full_x_tiles(),
    {
        self.resolution_x / self.get_render_size()
    }

    pub fn get_full_y_tiles_per_screen(&self) -> (r: u32)
        requires
            self.wf(),
        ensures
            r == self.full_y_tiles(),
    {
        self.resolution_y / self.get_render_size()
    }

    pub fn get_x_tiles_per_screen(&self) -> (r: u32)
        requires
            self.wf(),
        ensures
            r == self.x_tiles(),
            1 <= r <= MAX_RESOLUTION,
    {
        let rs = self.get_render_size();
        let r = (self.resolution_x + rs - 1) / rs;
        assert(r <= MAX_RESOLUTION) by (nonlinear_arith)
            requires r == (self.resolution_x + rs - 1) / rs as int, rs >= 1,
                self.resolution_x <= MAX_RESOLUTION, rs <= 2 * MAX_TILE_SIZE;
        assert(r >= 1) by (nonlinear_arith)
            requires r == (self.resolution_x + rs - 1) / rs as int, rs >= 1,
                self.resolution_x >= 1;
        r
    }

    pub fn get_y_tiles_per_screen(&self) -> (r: u32)
        requires
            self.wf(),
        ensures
            r == self.y_tiles(),
            1 <= r <= MAX_RESOLUTION,
    {
        let rs = self.get_render_size();
        let r = (self.resolution_y + rs - 1) / rs;
        assert(r <= MAX_RESOLUTION) by (nonlinear_arith)
            requires r == (self.resolution_y + rs - 1) / rs as int, rs >= 1,
                self.resolution_y <= MAX_RESOLUTION, rs <= 2 * MAX_TILE_SIZE;
        assert(r >= 1) by (nonlinear_arith)
            requires r == (self.resolution_y + rs - 1) / rs as int, rs >= 1,
                self.resolution_y >= 1;
        r
    }
}

} // verus!
