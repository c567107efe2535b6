use vstd::prelude::*;
use crate::address::{
    OAM_END, OAM_SIZE, OAM_START, TILE_COUNT, TILE_MAP_START, TILE_SET_START, VRAM_END, VRAM_SIZE,
    VRAM_START,
};
use crate::tile::{Tile, tile_pixel};

verus! {

/// Offset of the first tile map inside VRAM.
pub const TILE_MAP_OFFSET: usize = 0x1800;
/// Tile-map column and row at which the boot logo is placed.
pub const LOGO_MAP_X: usize = 4;
pub const LOGO_MAP_Y: usize = 8;
/// Number of logo columns written to the tile set: twelve logo columns and the registered mark.
pub const LOGO_COLUMNS: usize = 13;

/// The registered-trademark mark drawn right of the logo, as one 32-byte column.
pub open spec fn r_symbol() -> Seq<u8> {
    seq![
        0x3Cu8, 0x3C, 0x42, 0x42, 0xB9, 0xB9, 0xA5, 0xA5, 0xB9, 0xB9, 0xA5, 0xA5, 0x42, 0x42, 0x3C, 0x3C,
        0x00, 0x00, 0x00, 0x00, 0x00, 0x00, 0x00, 0x00, 0x00, 0x00, 0x00, 0x00, 0x00, 0x00, 0x00, 0x00,
    ]
}

/// Whether VRAM offset `j` is one of the two tile-map rows that reference the logo tiles.
pub open spec fn is_logo_map_entry(j: int) -> bool {
    let top = TILE_MAP_OFFSET + LOGO_MAP_Y * 32 + LOGO_MAP_X;
    let bottom = top + 32;
    (top <= j < top + LOGO_COLUMNS) || (bottom <= j < bottom + LOGO_COLUMNS)
}

/// Video memory, sprite attribute memory and the background scroll registers.
pub struct PPU {
    pub vram: [u8; VRAM_SIZE],
    pub oam: [u8; OAM_SIZE],
    pub scx: u8,
    pub scy: u8,
}

impl PPU {
    /// The 16 bytes of tile `id` of the tile set.
    pub open spec fn tile_bytes(&self, id: int) -> Seq<u8> {
        self.vram@.subrange(16 * id, 16 * id + 16)
    }

    pub fn new() -> (r: PPU)
        ensures
            forall|i: int| 0 <= i < VRAM_SIZE ==> r.vram@[i] == 0,
            forall|i: int| 0 <= i < OAM_SIZE ==> r.oam@[i] == 0,
            r.scx == 0 && r.scy == 0,
    {
        PPU { vram: [0u8; VRAM_SIZE], oam: [0u8; OAM_SIZE], scx: 0, scy: 0 }
    }

    pub fn read_vram(&self, address: u16) -> (r: u8)
        requires
            VRAM_START <= address <= VRAM_END,
        ensures
            r == self.vram@[address - VRAM_START],
    {
        self.vram[(address - VRAM_START) as usize]
    }

    pub fn write_vram(&mut self, address: u16, value: u8)
        requires
            VRAM_START <= address <= VRAM_END,
        ensures
            final(self).vram@ == old(self).vram@.update(address - VRAM_START, value),
            final(self).oam == old(self).oam,
            final(self).scx == old(self).scx && final(self).scy == old(self).scy,
    {
        self.vram[(address - VRAM_START) as usize] = value;
    }

    pub fn read_oam(&self, address: u16) -> (r: u8)
        requires
            OAM_START <= address <= OAM_END,
        ensures
            r == self.oam@[address - OAM_START],
    {
        self.oam[(address - OAM_START) as usize]
    }

    pub fn write_oam(&mut self, address: u16, value: u8)
        requires
            OAM_START <= address <= OAM_END,
        ensures
            final(self).oam@ == old(self).oam@.update(address - OAM_START, value),
            final(self).vram == old(self).vram,
            final(self).scx == old(self).scx && final(self).scy == old(self).scy,
    {
        self.oam[(address - OAM_START) as usize] = value;
    }

    /// Fills VRAM with zeros.
    pub fn reset_vram(&mut self)
        ensures
            forall|i: int| 0 <= i < VRAM_SIZE ==> final(self).vram@[i] == 0,
            final(self).oam == old(self).oam,
            final(self).scx == old(self).scx && final(self).scy == old(self).scy,
    {
        let mut i: usize = 0;
        while i < VRAM_SIZE
            invariant
                0 <= i <= VRAM_SIZE,
                forall|j: int| 0 <= j < i ==> self.vram@[j] == 0,
                self.oam == old(self).oam,
                self.scx == old(self).scx && self.scy == old(self).scy,
            decreases VRAM_SIZE - i,
        {
            self.vram[i] = 0;
            i += 1;
        }
    }

    /// Fills OAM with zeros.
    pub fn reset_oam(&mut self)
        ensures
            forall|i: int| 0 <= i < OAM_SIZE ==> final(self).oam@[i] == 0,
            final(self).vram == old(self).vram,
            final(self).scx == old(self).scx && final(self).scy == old(self).scy,
    {
        let mut i: usize = 0;
        while i < OAM_SIZE
            invariant
                0 <= i <= OAM_SIZE,
                forall|j: int| 0 <= j < i ==> self.oam@[j] == 0,
                self.vram == old(self).vram,
                self.scx == old(self).scx && self.scy == old(self).scy,
            decreases OAM_SIZE - i,
        {
            self.oam[i] = 0;
            i += 1;
        }
    }

    /// Decodes tile `id` of the tile set.
    pub fn get_tile(&self, id: usize) -> (t: Tile)
        requires
            id < TILE_COUNT,
        ensures
            forall|r: int, c: int| 0 <= r < 8 && 0 <= c < 8 ==> #[trigger] t.pixel(r, c) == tile_pixel(self.tile_bytes(id as int), r, c),
    {
        Tile::from_address(self, id)
    }

    /// The tile id stored at column `x`, row `y` of the background tile map.
    pub fn get_tile_id(&self, x: usize, y: usize) -> (r: u8)
        requires
            x < 32,
            y < 32,
        ensures
            r == self.vram@[TILE_MAP_OFFSET + 32 * y + x],
    {
        self.read_vram(TILE_MAP_START + (y * 32 + x) as u16)
    }

    pub fn set_screen_scroll(&mut self, scx: u8, scy: u8)
        ensures
            final(self).scx == scx && final(self).scy == scy,
            final(self).vram == old(self).vram && final(self).oam == old(self).oam,
    {
        self.scx = scx;
        self.scy = scy;
    }

    /// The background scroll, as (SCX, SCY).
    pub fn get_screen_scroll(&self) -> (r: (u8, u8))
        ensures
            r == (self.scx, self.scy),
    {
        (self.scx, self.scy)
    }

    /// Writes the expanded boot logo (32 rows of 12 bytes) into the tile set, one 32-byte
    /// column after another, followed by the registered mark, and references the resulting
    /// tiles from two rows of the tile map at column 4, row 8.
    pub fn print_logo(&mut self, logo: [[u8; 12]; 32])
        ensures
            forall|col: int, i: int| 0 <= col < 12 && 0 <= i < 32 ==> #[trigger] final(self).vram@[col * 32 + i] == logo@[i]@[col],
            forall|i: int| 0 <= i < 32 ==> #[trigger] final(self).vram@[12 * 32 + i] == r_symbol()[i],
            forall|t: int| 0 <= t < LOGO_COLUMNS ==> #[trigger] final(self).vram@[TILE_MAP_OFFSET + LOGO_MAP_Y * 32 + LOGO_MAP_X + t] == 2 * t,
            forall|t: int| 0 <= t < LOGO_COLUMNS ==> #[trigger] final(self).vram@[TILE_MAP_OFFSET + (LOGO_MAP_Y + 1) * 32 + LOGO_MAP_X + t] == 2 * t + 1,
            forall|j: int| LOGO_COLUMNS * 32 <= j < VRAM_SIZE && !is_logo_map_entry(j) ==> #[trigger] final(self).vram@[j] == old(self).vram@[j],
            final(self).oam == old(self).oam,
            final(self).scx == old(self).scx && final(self).scy == old(self).scy,
    {
        let r_bytes: [u8; 32] = [
            0x3C, 0x3C, 0x42, 0x42, 0xB9, 0xB9, 0xA5, 0xA5, 0xB9, 0xB9, 0xA5, 0xA5, 0x42, 0x42, 0x3C, 0x3C,
            0x00, 0x00, 0x00, 0x00, 0x00, 0x00, 0x00, 0x00, 0x00, 0x00, 0x00, 0x00, 0x00, 0x00, 0x00, 0x00,
        ];
        assert(r_bytes@ =~= r_symbol());
        let mut col: usize = 0;
        while col < LOGO_COLUMNS
            invariant
                0 <= col <= LOGO_COLUMNS,
                r_bytes@ == r_symbol(),
                forall|c: int, i: int| 0 <= c < col && c < 12 && 0 <= i < 32 ==> #[trigger] self.vram@[c * 32 + i] == logo@[i]@[c],
                col == LOGO_COLUMNS ==> forall|i: int| 0 <= i < 32 ==> #[trigger] self.vram@[12 * 32 + i] == r_symbol()[i],
                forall|j: int| col * 32 <= j < VRAM_SIZE ==> #[trigger] self.vram@[j] == old(self).vram@[j],
                self.oam == old(self).oam,
                self.scx == old(self).scx && self.scy == old(self).scy,
            decreases LOGO_COLUMNS - col,
        {
            let mut i: usize = 0;
            while i < 32
                invariant
                    0 <= col < LOGO_COLUMNS,
                    0 <= i <= 32,
                    r_bytes@ == r_symbol(),
                    forall|c: int, k: int| 0 <= c < col && c < 12 && 0 <= k < 32 ==> #[trigger] self.vram@[c * 32 + k] == logo@[k]@[c],
                    forall|k: int| 0 <= k < i ==> #[trigger] self.vram@[col * 32 + k] == (if col < 12 { logo@[k]@[col as int] } else { r_symbol()[k] }),
                    forall|j: int| col * 32 + i <= j < VRAM_SIZE ==> #[trigger] self.vram@[j] == old(self).vram@[j],
                    self.oam == old(self).oam,
                    self.scx == old(self).scx && self.scy == old(self).scy,
                decreases 32 - i,
            {
                let byte: u8 = if col < 12 { logo[i][col] } else { r_bytes[i] };
                self.vram[col * 32 + i] = byte;
                i += 1;
            }
            col += 1;
        }
        let top: usize = TILE_MAP_OFFSET + LOGO_MAP_Y * 32 + LOGO_MAP_X;
        let mut t: usize = 0;
        while t < LOGO_COLUMNS
            invariant
                0 <= t <= LOGO_COLUMNS,
                top == TILE_MAP_OFFSET + LOGO_MAP_Y * 32 + LOGO_MAP_X,
                forall|c: int, i: int| 0 <= c < 12 && 0 <= i < 32 ==> #[trigger] self.vram@[c * 32 + i] == logo@[i]@[c],
                forall|i: int| 0 <= i < 32 ==> #[trigger] self.vram@[12 * 32 + i] == r_symbol()[i],
                forall|k: int| 0 <= k < t ==> #[trigger] self.vram@[top + k] == 2 * k,
                forall|k: int| 0 <= k < t ==> #[trigger] self.vram@[top + 32 + k] == 2 * k + 1,
                forall|j: int| LOGO_COLUMNS * 32 <= j < VRAM_SIZE && !is_logo_map_entry(j) ==> #[trigger] self.vram@[j] == old(self).vram@[j],
                self.oam == old(self).oam,
                self.scx == old(self).scx && self.scy == old(self).scy,
            decreases LOGO_COLUMNS - t,
        {
            self.vram[top + t] = (t * 2) as u8;
            self.vram[top + 32 + t] = (t * 2 + 1) as u8;
            t += 1;
        }
    }
}

impl Tile {
    /// Decodes tile `tile_id` of the tile set in `ppu`'s VRAM.
    pub fn from_address(ppu: &PPU, tile_id: usize) -> (t: Tile)
        requires
            tile_id < TILE_COUNT,
        ensures
            forall|r: int, c: int| 0 <= r < 8 && 0 <= c < 8 ==> #[trigger] t.pixel(r, c) == tile_pixel(ppu.tile_bytes(tile_id as int), r, c),
    {
        let start: u16 = TILE_SET_START + (tile_id * 16) as u16;
        let mut bytes: [u8; 16] = [0u8; 16];
        let mut i: usize = 0;
        while i < 16
            invariant
                0 <= i <= 16,
                tile_id < TILE_COUNT,
                start == TILE_SET_START + tile_id * 16,
                forall|k: int| 0 <= k < i ==> bytes@[k] == ppu.vram@[16 * tile_id + k],
            decreases 16 - i,
        {
            bytes[i] = ppu.read_vram(start + i as u16);
            i += 1;
        }
        assert(bytes@ =~= ppu.tile_bytes(tile_id as int));
        Tile::from_bytes(bytes)
    }
}

} // verus!
