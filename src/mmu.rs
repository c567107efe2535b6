use vstd::prelude::*;
use crate::address::{
    ADDRESS, HRAM_END, HRAM_SIZE, HRAM_START, IO_END, IO_SIZE, IO_START, OAM_START, RAM_START,
    Region, VRAM_SIZE, VRAM_START, WRAM_END, WRAM_SIZE, WRAM_START, region_of,
};
use crate::boot_rom::BootAnimation;
use crate::cartridge::{Cartridge, is_ejected, logo_byte};
use crate::ppu::{PPU, TILE_MAP_OFFSET, LOGO_COLUMNS, LOGO_MAP_X, LOGO_MAP_Y, is_logo_map_entry, r_symbol};

verus! {

/// Frames the boot logo stays on screen once it has scrolled in.
pub const BOOT_HOLD_FRAMES: u8 = 30;
/// Tile id written across the tile map before the logo is placed.
pub const BACKGROUND_TILE: u8 = 99;

/// Whether a write to `a` is stored (every region but ROM, echo, invalid OAM and IE).
pub open spec fn writable(a: u16) -> bool {
    match region_of(a) {
        Region::Rom | Region::Echo | Region::InvalidOam | Region::IeRegister => false,
        _ => true,
    }
}

/// The 64 KiB address space after a write of `v` to `a`.
pub open spec fn write_spec(m: Seq<u8>, a: u16, v: u8) -> Seq<u8> {
    if writable(a) {
        m.update(a as int, v)
    } else {
        m
    }
}

/// What VRAM offset `j` holds once the boot sequence has run on a cartridge with ROM `rom`.
pub open spec fn boot_vram(rom: Seq<u8>, j: int) -> u8 {
    let top = TILE_MAP_OFFSET + LOGO_MAP_Y * 32 + LOGO_MAP_X;
    if j < 12 * 32 {
        logo_byte(rom, j % 32, j / 32)
    } else if j < LOGO_COLUMNS * 32 {
        r_symbol()[j - 12 * 32]
    } else if j < TILE_MAP_OFFSET {
        0
    } else if top <= j < top + LOGO_COLUMNS {
        (2 * (j - top)) as u8
    } else if top + 32 <= j < top + 32 + LOGO_COLUMNS {
        (2 * (j - top - 32) + 1) as u8
    } else {
        BACKGROUND_TILE
    }
}

/// Why the bus refuses a cartridge.
#[derive(Debug, Clone, Copy, PartialEq, Eq, Structural)]
pub enum MmuError {
    /// The logo or the header checksum of the cartridge is wrong.
    InvalidCartridge,
}

/// The memory bus: routes every access to the cartridge, the PPU or its own RAM.
pub struct MMU {
    pub ppu: PPU,
    pub cartridge: Cartridge,
    pub wram: [u8; WRAM_SIZE],
    pub hram: [u8; HRAM_SIZE],
    pub io: [u8; IO_SIZE],
    pub boot: BootAnimation,
    /// Frames left before the boot logo is cleared; set by the first wait.
    pub frame_counter: Option<u8>,
}

impl View for MMU {
    type V = Seq<u8>;

    /// The byte that a read of each of the 65536 addresses returns.
    open spec fn view(&self) -> Seq<u8> {
        Seq::new(0x10000, |a: int| self.read_spec(a as u16))
    }
}

impl MMU {
    pub open spec fn read_spec(&self, a: u16) -> u8 {
        match region_of(a) {
            Region::Rom => self.cartridge.rom@[a as int],
            Region::Vram => self.ppu.vram@[a - VRAM_START],
            Region::Ram => self.cartridge.ram@[a - RAM_START],
            Region::Wram => self.wram@[a - WRAM_START],
            Region::Oam => self.ppu.oam@[a - OAM_START],
            Region::Io => self.io@[a - IO_START],
            Region::Hram => self.hram@[a - HRAM_START],
            _ => 0xFF,
        }
    }

    /// Whether two buses agree on all state that no memory write reaches.
    pub open spec fn same_config(&self, o: &MMU) -> bool {
        &&& self.cartridge.same_but_ram(&o.cartridge)
        &&& self.ppu.scx == o.ppu.scx
        &&& self.ppu.scy == o.ppu.scy
        &&& self.boot == o.boot
        &&& self.frame_counter == o.frame_counter
    }

    pub fn new() -> (r: MMU)
        ensures
            is_ejected(r.cartridge),
            forall|a: int| 0 <= a < 0x10000 ==> #[trigger] r@[a] == (if writable(a as u16) || region_of(a as u16) == Region::Rom { 0u8 } else { 0xFFu8 }),
            r.boot == BootAnimation::new_spec(),
            r.frame_counter.is_none(),
            r.ppu.scx == 0 && r.ppu.scy == 0,
    {
        let r = MMU {
            ppu: PPU::new(),
            cartridge: Cartridge::eject(),
            wram: [0u8; WRAM_SIZE],
            hram: [0u8; HRAM_SIZE],
            io: [0u8; IO_SIZE],
            boot: BootAnimation::new(),
            frame_counter: None,
        };
        r
    }

    pub fn get_ppu(&mut self) -> (r: &mut PPU)
        ensures
            *r == old(self).ppu,
            final(self).ppu == *final(r),
            final(self).cartridge == old(self).cartridge,
            final(self).wram == old(self).wram && final(self).hram == old(self).hram && final(self).io == old(self).io,
            final(self).boot == old(self).boot && final(self).frame_counter == old(self).frame_counter,
    {
        &mut self.ppu
    }

    pub fn get_cartridge(&mut self) -> (r: &mut Cartridge)
        ensures
            *r == old(self).cartridge,
            final(self).cartridge == *final(r),
            final(self).ppu == old(self).ppu,
            final(self).wram == old(self).wram && final(self).hram == old(self).hram && final(self).io == old(self).io,
            final(self).boot == old(self).boot && final(self).frame_counter == old(self).frame_counter,
    {
        &mut self.cartridge
    }

    fn read_wram(&self, address: u16) -> (r: u8)
        requires
            WRAM_START <= address <= WRAM_END,
        ensures
            r == self.wram@[address - WRAM_START],
    {
        self.wram[(address - WRAM_START) as usize]
    }

    fn write_wram(&mut self, address: u16, value: u8)
        requires
            WRAM_START <= address <= WRAM_END,
        ensures
            final(self).wram@ == old(self).wram@.update(address - WRAM_START, value),
            final(self).ppu == old(self).ppu && final(self).cartridge == old(self).cartridge,
            final(self).hram == old(self).hram && final(self).io == old(self).io,
            final(self).boot == old(self).boot && final(self).frame_counter == old(self).frame_counter,
    {
        self.wram[(address - WRAM_START) as usize] = value;
    }

    fn read_hram(&self, address: u16) -> (r: u8)
        requires
            HRAM_START <= address <= HRAM_END,
        ensures
            r == self.hram@[address - HRAM_START],
    {
        self.hram[(address - HRAM_START) as usize]
    }

    fn write_hram(&mut self, address: u16, value: u8)
        requires
            HRAM_START <= address <= HRAM_END,
        ensures
            final(self).hram@ == old(self).hram@.update(address - HRAM_START, value),
            final(self).ppu == old(self).ppu && final(self).cartridge == old(self).cartridge,
            final(self).wram == old(self).wram && final(self).io == old(self).io,
            final(self).boot == old(self).boot && final(self).frame_counter == old(self).frame_counter,
    {
        self.hram[(address - HRAM_START) as usize] = value;
    }

    fn read_io(&self, address: u16) -> (r: u8)
        requires
            IO_START <= address <= IO_END,
        ensures
            r == self.io@[address - IO_START],
    {
        self.io[(address - IO_START) as usize]
    }

    fn write_io(&mut self, address: u16, value: u8)
        requires
            IO_START <= address <= IO_END,
        ensures
            final(self).io@ == old(self).io@.update(address - IO_START, value),
            final(self).ppu == old(self).ppu && final(self).cartridge == old(self).cartridge,
            final(self).wram == old(self).wram && final(self).hram == old(self).hram,
            final(self).boot == old(self).boot && final(self).frame_counter == old(self).frame_counter,
    {
        self.io[(address - IO_START) as usize] = value;
    }

    /// Reads one byte; echo RAM, invalid OAM and the IE register read as 0xFF.
    pub fn read_memory(&self, address: u16) -> (r: u8)
        ensures
            r == self@[address as int],
            r == self.read_spec(address),
    {
        match ADDRESS::region(address) {
            Region::Rom => self.cartridge.read_rom(address),
            Region::Vram => self.ppu.read_vram(address),
            Region::Ram => self.cartridge.read_ram(address),
            Region::Wram => self.read_wram(address),
            Region::Oam => self.ppu.read_oam(address),
            Region::Io => self.read_io(address),
            Region::Hram => self.read_hram(address),
            Region::Echo | Region::InvalidOam | Region::IeRegister => 0xFF,
        }
    }

    /// Writes one byte; writes to ROM, echo RAM, invalid OAM and the IE register are ignored.
    pub fn write_memory(&mut self, address: u16, value: u8)
        ensures
            final(self)@ == write_spec(old(self)@, address, value),
            final(self).same_config(old(self)),
    {
        match ADDRESS::region(address) {
            Region::Vram => self.ppu.write_vram(address, value),
            Region::Ram => self.cartridge.write_ram(address, value),
            Region::Wram => self.write_wram(address, value),
            Region::Oam => self.ppu.write_oam(address, value),
            Region::Io => self.write_io(address, value),
            Region::Hram => self.write_hram(address, value),
            Region::Rom | Region::Echo | Region::InvalidOam | Region::IeRegister => {},
        }
        assert(self@ =~= write_spec(old(self)@, address, value));
    }
}

impl MMU {
    pub fn set_screen_scroll(&mut self, scx: u8, scy: u8)
        ensures
            final(self).ppu.scx == scx && final(self).ppu.scy == scy,
            final(self)@ == old(self)@,
            final(self).cartridge == old(self).cartridge,
            final(self).boot == old(self).boot && final(self).frame_counter == old(self).frame_counter,
    {
        self.ppu.set_screen_scroll(scx, scy);
        assert(self@ =~= old(self)@);
    }

    /// The background scroll, as (SCX, SCY).
    pub fn get_screen_scroll(&self) -> (r: (u8, u8))
        ensures
            r == (self.ppu.scx, self.ppu.scy),
    {
        self.ppu.get_screen_scroll()
    }

    /// Installs a cartridge and runs the boot sequence; an invalid cartridge is refused and
    /// the bus is left as it was.
    pub fn set_cartridge(&mut self, cartridge: Cartridge) -> (r: Result<(), MmuError>)
        ensures
            r is Err <==> !cartridge.is_valid_spec(),
            r is Err ==> *final(self) == *old(self),
            r is Ok ==> final(self).booted_from(old(self), &cartridge),
    {
        if !cartridge.is_valid() {
            return Err(MmuError::InvalidCartridge);
        }
        self.cartridge = cartridge;
        self.boot_init_sequence();
        Ok(())
    }

    /// Whether this bus is `old` after installing `cartridge` and running the boot sequence.
    pub open spec fn booted_from(&self, old: &MMU, cartridge: &Cartridge) -> bool {
        &&& self.cartridge == *cartridge
        &&& forall|j: int| 0 <= j < VRAM_SIZE ==> #[trigger] self.ppu.vram@[j] == boot_vram(cartridge.rom@, j)
        &&& self.ppu.oam == old.ppu.oam
        &&& self.ppu.scx == 0 && self.ppu.scy == 80
        &&& self.wram == old.wram && self.hram == old.hram && self.io == old.io
        &&& self.boot == (BootAnimation { is_active: true, ..BootAnimation::new_spec() })
        &&& self.frame_counter == old.frame_counter
    }

    /// The boot sequence: clears VRAM, fills the tile map with the background tile, draws
    /// the cartridge's logo into the tile set and the map, scrolls it off screen and arms
    /// the scroll-in animation.
    pub fn boot_init_sequence(&mut self)
        ensures
            final(self).booted_from(old(self), &old(self).cartridge),
    {
        self.ppu.reset_vram();
        let mut j: usize = TILE_MAP_OFFSET;
        while j < VRAM_SIZE
            invariant
                TILE_MAP_OFFSET <= j <= VRAM_SIZE,
                forall|k: int| 0 <= k < TILE_MAP_OFFSET ==> #[trigger] self.ppu.vram@[k] == 0,
                forall|k: int| TILE_MAP_OFFSET <= k < j ==> #[trigger] self.ppu.vram@[k] == BACKGROUND_TILE,
                self.ppu.oam == old(self).ppu.oam,
                self.cartridge == old(self).cartridge,
                self.wram == old(self).wram && self.hram == old(self).hram && self.io == old(self).io,
                self.boot == old(self).boot && self.frame_counter == old(self).frame_counter,
            decreases VRAM_SIZE - j,
        {
            self.ppu.write_vram(VRAM_START + j as u16, BACKGROUND_TILE);
            j += 1;
        }
        let logo: [[u8; 12]; 32] = self.cartridge.get_nintendo_logo();
        self.ppu.print_logo(logo);
        self.ppu.set_screen_scroll(0, 80);
        self.boot = BootAnimation::new();
        self.boot.start();
        assert forall|k: int| 0 <= k < VRAM_SIZE implies #[trigger] self.ppu.vram@[k] == boot_vram(self.cartridge.rom@, k) by {
            if k < 12 * 32 {
                assert(self.ppu.vram@[(k / 32) * 32 + k % 32] == logo@[k % 32]@[k / 32]);
            } else if k < LOGO_COLUMNS * 32 {
                assert(self.ppu.vram@[12 * 32 + (k - 12 * 32)] == r_symbol()[k - 12 * 32]);
            } else {
                let top = TILE_MAP_OFFSET + LOGO_MAP_Y * 32 + LOGO_MAP_X;
                if top <= k < top + LOGO_COLUMNS {
                    assert(self.ppu.vram@[top + (k - top)] == 2 * (k - top));
                } else if top + 32 <= k < top + 32 + LOGO_COLUMNS {
                    assert(self.ppu.vram@[TILE_MAP_OFFSET + (LOGO_MAP_Y + 1) * 32 + LOGO_MAP_X + (k - top - 32)] == 2 * (k - top - 32) + 1);
                } else {
                    assert(!is_logo_map_entry(k));
                }
            }
        }
    }

    /// A wait of `frames` frames, counted across calls: the first call sets the counter
    /// to `frames`; each call then counts down one (never below zero) and returns true on
    /// the call that brings the counter to zero and on every call after it.
    pub fn delay_frames(&mut self, frames: u8) -> (r: bool)
        ensures
            ({
                let count = match old(self).frame_counter {
                    Some(c) => c,
                    None => frames,
                };
                &&& r == (count <= 1)
                &&& final(self).frame_counter == Some(if count > 0 { (count - 1) as u8 } else { 0u8 })
            }),
            final(self)@ == old(self)@,
            final(self).cartridge == old(self).cartridge && final(self).ppu == old(self).ppu,
            final(self).wram == old(self).wram && final(self).hram == old(self).hram && final(self).io == old(self).io,
            final(self).boot == old(self).boot,
    {
        let count: u8 = match self.frame_counter {
            Some(c) => c,
            None => frames,
        };
        let r = if count > 1 {
            self.frame_counter = Some(count - 1);
            false
        } else {
            self.frame_counter = Some(0);
            true
        };
        assert(self@ =~= old(self)@);
        r
    }

    /// Sets a started frame wait to zero; a wait that has not started stays unstarted.
    pub fn reset_delay(&mut self)
        ensures
            final(self).frame_counter == (if old(self).frame_counter.is_some() { Some(0u8) } else { None }),
            final(self)@ == old(self)@,
            final(self).cartridge == old(self).cartridge && final(self).ppu == old(self).ppu,
            final(self).wram == old(self).wram && final(self).hram == old(self).hram && final(self).io == old(self).io,
            final(self).boot == old(self).boot,
    {
        if self.frame_counter.is_some() {
            self.frame_counter = Some(0);
        }
        assert(self@ =~= old(self)@);
    }

    /// The frame counter as the boot animation's hold starts or continues it.
    pub open spec fn hold_count(&self) -> u8 {
        match self.frame_counter {
            Some(c) => c,
            None => BOOT_HOLD_FRAMES,
        }
    }

    /// Whether the next frame ends the boot animation (and clears VRAM).
    pub open spec fn frame_ends_boot(&self) -> bool {
        self.boot.is_active && self.boot.next().is_complete && self.hold_count() <= 1
    }

    /// Whether `new` is this bus one frame of the boot animation later.
    pub open spec fn frame_step(&self, new: &MMU) -> bool {
        if !self.boot.is_active {
            *new == *self
        } else {
            let b = self.boot.next();
            let mid = MMU { ppu: PPU { scy: b.current_y, ..self.ppu }, boot: b, ..*self };
            if !b.is_complete {
                *new == mid
            } else {
                let count = self.hold_count();
                &&& new.frame_counter == Some(if count > 0 { (count - 1) as u8 } else { 0u8 })
                &&& new.cartridge == self.cartridge
                &&& new.wram == self.wram && new.hram == self.hram && new.io == self.io
                &&& new.ppu.oam == self.ppu.oam
                &&& new.ppu.scx == self.ppu.scx && new.ppu.scy == b.current_y
                &&& count <= 1 ==> new.boot == (BootAnimation { is_active: false, ..b })
                    && forall|j: int| 0 <= j < VRAM_SIZE ==> #[trigger] new.ppu.vram@[j] == 0
                &&& count > 1 ==> new.boot == b && new.ppu.vram == self.ppu.vram
            }
        }
    }

    /// One frame of the boot animation: while it runs, SCY follows the animation; once the
    /// logo has arrived and the hold time is over, VRAM is cleared, the animation stops and
    /// true is returned.
    pub fn boot_update_animation(&mut self) -> (r: bool)
        ensures
            r == old(self).frame_ends_boot(),
            old(self).frame_step(final(self)),
    {
        if !self.boot.is_active {
            return false;
        }
        let new_y: u8 = self.boot.update();
        let scx: u8 = self.ppu.scx;
        self.ppu.set_screen_scroll(scx, new_y);
        if self.boot.is_complete() {
            if self.delay_frames(BOOT_HOLD_FRAMES) {
                self.ppu.reset_vram();
                self.boot.is_active = false;
                true
            } else {
                false
            }
        } else {
            false
        }
    }

    /// Advances the per-frame state (the boot animation).
    pub fn on_frame(&mut self)
        ensures
            old(self).frame_step(final(self)),
    {
        self.boot_update_animation();
    }
}

/// Writing `v` to `a` and reading `a` back gives `v`, except in ROM, where the ROM image
/// byte comes back, and in echo RAM, invalid OAM and the IE register, which read as 0xFF.
pub proof fn lemma_write_then_read(m: MMU, a: u16, v: u8)
    ensures
        write_spec(m@, a, v)[a as int] == (if writable(a) {
            v
        } else if region_of(a) == Region::Rom {
            m.cartridge.rom@[a as int]
        } else {
            0xFFu8
        }),
{
}

} // verus!
