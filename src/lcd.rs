use vstd::prelude::*;
use crate::address::TILE_COUNT;
use crate::palette::{Colors, Palette};
use crate::ppu::{PPU, TILE_MAP_OFFSET};
use crate::tile::{Tile, tile_pixel};

verus! {

pub const SCREEN_WIDTH: usize = 160;
pub const SCREEN_HEIGHT: usize = 144;
pub const SCREEN_PIXELS: usize = 23040;
/// Side of the 32x32-tile background map, in pixels.
pub const MAP_SIZE: usize = 256;
pub const MAP_PIXELS: usize = 65536;
/// The tile set is shown 16 tiles per row, 24 rows.
pub const TILE_SET_WIDTH: usize = 128;
pub const TILE_SET_PIXELS: usize = 24576;

/// Colour index of pixel (`x`, `y`) of the 256x256 background map.
pub open spec fn map_pixel(ppu: PPU, x: int, y: int) -> u8 {
    let id = ppu.vram@[TILE_MAP_OFFSET + 32 * (y / 8) + x / 8];
    tile_pixel(ppu.tile_bytes(id as int), y % 8, x % 8)
}

/// Colour index of screen pixel (`x`, `y`): the map scrolled by (SCX, SCY), wrapping at 256.
pub open spec fn screen_pixel(ppu: PPU, x: int, y: int) -> u8 {
    map_pixel(ppu, (ppu.scx + x) % 256, (ppu.scy + y) % 256)
}

/// Colour index of pixel (`x`, `y`) of the tile-set sheet, 16 tiles per row.
pub open spec fn tile_set_pixel(ppu: PPU, x: int, y: int) -> u8 {
    tile_pixel(ppu.tile_bytes((y / 8) * 16 + x / 8), y % 8, x % 8)
}

/// The default greyscale palette.
pub open spec fn grey_palette() -> Seq<Colors> {
    seq![Colors::White, Colors::LightGray, Colors::DarkGray, Colors::Black]
}

/// The 160x144 screen, shown at three times its size, and a count of rendered frames.
pub struct LCD {
    pub screen_height: i32,
    pub screen_width: i32,
    pub scale: i32,
    pub frame_count: usize,
}

impl LCD {
    pub fn new() -> (r: LCD)
        ensures
            r.screen_width == 160 && r.screen_height == 144 && r.scale == 3,
            r.frame_count == 0,
    {
        LCD { screen_width: 160, screen_height: 144, scale: 3, frame_count: 0 }
    }

    /// The size of the scaled screen, as (width, height).
    pub fn get_screen_dimensions(&self) -> (r: (i32, i32))
        requires
            0 <= self.screen_width <= 0x10000,
            0 <= self.screen_height <= 0x10000,
            0 <= self.scale <= 0x1000,
        ensures
            r.0 == self.screen_width * self.scale,
            r.1 == self.screen_height * self.scale,
    {
        assert(0 <= self.screen_width * self.scale <= 0x10000 * 0x1000) by (nonlinear_arith)
            requires
                0 <= self.screen_width <= 0x10000,
                0 <= self.scale <= 0x1000,
        ;
        assert(0 <= self.screen_height * self.scale <= 0x10000 * 0x1000) by (nonlinear_arith)
            requires
                0 <= self.screen_height <= 0x10000,
                0 <= self.scale <= 0x1000,
        ;
        (self.screen_width * self.scale, self.screen_height * self.scale)
    }

    pub fn get_frame_count(&self) -> (r: usize)
        ensures
            r == self.frame_count,
    {
        self.frame_count
    }

    /// Colour of screen pixel (`screen_x`, `screen_y`) under `palette`.
    pub fn background_color(ppu: &PPU, palette: &Palette, screen_x: usize, screen_y: usize) -> (r: Colors)
        requires
            screen_x < SCREEN_WIDTH,
            screen_y < SCREEN_HEIGHT,
        ensures
            r == palette.colors@[screen_pixel(*ppu, screen_x as int, screen_y as int) as int % 4],
    {
        let map_x: usize = (ppu.scx as usize + screen_x) % MAP_SIZE;
        let map_y: usize = (ppu.scy as usize + screen_y) % MAP_SIZE;
        let tile_id: u8 = ppu.get_tile_id(map_x / 8, map_y / 8);
        let tile: Tile = ppu.get_tile(tile_id as usize);
        let color: u8 = tile.get_pixel(map_x % 8, map_y % 8);
        palette.get_color(color)
    }

    /// Renders the visible screen in the greyscale palette, row by row, and counts the frame.
    pub fn render_frame(&mut self, ppu: &PPU) -> (r: Vec<Colors>)
        ensures
            r@.len() == SCREEN_PIXELS,
            forall|i: int| 0 <= i < SCREEN_PIXELS ==> #[trigger] r@[i] == grey_palette()[screen_pixel(*ppu, i % 160, i / 160) as int % 4],
            final(self).frame_count == (old(self).frame_count + 1) % (usize::MAX + 1),
            final(self).screen_width == old(self).screen_width,
            final(self).screen_height == old(self).screen_height,
            final(self).scale == old(self).scale,
    {
        let palette: Palette = Palette::new();
        let mut pixels: Vec<Colors> = Vec::new();
        let mut i: usize = 0;
        while i < SCREEN_PIXELS
            invariant
                0 <= i <= SCREEN_PIXELS,
                pixels@.len() == i,
                palette.colors@ == grey_palette(),
                forall|j: int| 0 <= j < i ==> #[trigger] pixels@[j] == grey_palette()[screen_pixel(*ppu, j % 160, j / 160) as int % 4],
            decreases SCREEN_PIXELS - i,
        {
            let color: Colors = LCD::background_color(ppu, &palette, i % SCREEN_WIDTH, i / SCREEN_WIDTH);
            pixels.push(color);
            i += 1;
        }
        self.frame_count = self.frame_count.wrapping_add(1);
        pixels
    }

    /// Renders the whole 256x256 background map in the greyscale palette, row by row.
    pub fn render_debug_tile_map(&self, ppu: &PPU) -> (r: Vec<Colors>)
        ensures
            r@.len() == MAP_PIXELS,
            forall|i: int| 0 <= i < MAP_PIXELS ==> #[trigger] r@[i] == grey_palette()[map_pixel(*ppu, i % 256, i / 256) as int % 4],
    {
        let palette: Palette = Palette::new();
        let mut pixels: Vec<Colors> = Vec::new();
        let mut i: usize = 0;
        while i < MAP_PIXELS
            invariant
                0 <= i <= MAP_PIXELS,
                pixels@.len() == i,
                palette.colors@ == grey_palette(),
                forall|j: int| 0 <= j < i ==> #[trigger] pixels@[j] == grey_palette()[map_pixel(*ppu, j % 256, j / 256) as int % 4],
            decreases MAP_PIXELS - i,
        {
            let x: usize = i % MAP_SIZE;
            let y: usize = i / MAP_SIZE;
            let tile_id: u8 = ppu.get_tile_id(x / 8, y / 8);
            let tile: Tile = Tile::from_address(ppu, tile_id as usize);
            let color: u8 = tile.get_pixel(x % 8, y % 8);
            pixels.push(palette.get_color(color));
            i += 1;
        }
        pixels
    }

    /// Renders the 384 tiles of the tile set, 16 per row, in the greyscale palette.
    pub fn render_tile_set(&self, ppu: &PPU) -> (r: Vec<Colors>)
        ensures
            r@.len() == TILE_SET_PIXELS,
            forall|i: int| 0 <= i < TILE_SET_PIXELS ==> #[trigger] r@[i] == grey_palette()[tile_set_pixel(*ppu, i % 128, i / 128) as int % 4],
    {
        let palette: Palette = Palette::new();
        let mut pixels: Vec<Colors> = Vec::new();
        let mut i: usize = 0;
        while i < TILE_SET_PIXELS
            invariant
                0 <= i <= TILE_SET_PIXELS,
                pixels@.len() == i,
                palette.colors@ == grey_palette(),
                forall|j: int| 0 <= j < i ==> #[trigger] pixels@[j] == grey_palette()[tile_set_pixel(*ppu, j % 128, j / 128) as int % 4],
            decreases TILE_SET_PIXELS - i,
        {
            let x: usize = i % TILE_SET_WIDTH;
            let y: usize = i / TILE_SET_WIDTH;
            let tile_id: usize = (y / 8) * 16 + x / 8;
            assert(tile_id < TILE_COUNT);
            let tile: Tile = ppu.get_tile(tile_id);
            let color: u8 = tile.get_pixel(x % 8, y % 8);
            pixels.push(palette.get_color(color));
            i += 1;
        }
        pixels
    }
}

} // verus!
