use vstd::prelude::*;

verus! {

pub type Address = u16;

pub type Byte = u8;

pub const ROM_START: u16 = 0x0000;
pub const ROM_END: u16 = 0x7FFF;
pub const VRAM_START: u16 = 0x8000;
pub const VRAM_END: u16 = 0x9FFF;
pub const RAM_START: u16 = 0xA000;
pub const RAM_END: u16 = 0xBFFF;
pub const WRAM_START: u16 = 0xC000;
pub const WRAM_END: u16 = 0xDFFF;
pub const ECHO_START: u16 = 0xE000;
pub const ECHO_END: u16 = 0xFDFF;
pub const OAM_START: u16 = 0xFE00;
pub const OAM_END: u16 = 0xFE9F;
pub const INVALID_OAM_START: u16 = 0xFEA0;
pub const INVALID_OAM_END: u16 = 0xFEFF;
pub const IO_START: u16 = 0xFF00;
pub const IO_END: u16 = 0xFF7F;
pub const HRAM_START: u16 = 0xFF80;
pub const HRAM_END: u16 = 0xFFFE;
pub const IE_REGISTER: u16 = 0xFFFF;

pub const ROM_SIZE: usize = 0x8000;
pub const VRAM_SIZE: usize = 0x2000;
pub const RAM_SIZE: usize = 0x2000;
pub const WRAM_SIZE: usize = 0x2000;
pub const OAM_SIZE: usize = 0xA0;
pub const IO_SIZE: usize = 0x80;
pub const HRAM_SIZE: usize = 0x7F;

/// Start of the tile set (384 tiles of 16 bytes) inside VRAM.
pub const TILE_SET_START: u16 = 0x8000;
pub const TILE_SET_END: u16 = 0x97FF;
/// Start of the 32x32 background tile map inside VRAM.
pub const TILE_MAP_START: u16 = 0x9800;
pub const TILE_MAP_END: u16 = 0x9FFF;
pub const TILE_COUNT: usize = 384;

/// The regions of the 64 KiB address space.
#[derive(Debug, Clone, Copy, PartialEq, Eq, Structural)]
pub enum Region {
    Rom,
    Vram,
    Ram,
    Wram,
    Echo,
    Oam,
    InvalidOam,
    Io,
    Hram,
    IeRegister,
}

/// The region that an address belongs to.
pub open spec fn region_of(a: u16) -> Region {
    if a <= ROM_END {
        Region::Rom
    } else if a <= VRAM_END {
        Region::Vram
    } else if a <= RAM_END {
        Region::Ram
    } else if a <= WRAM_END {
        Region::Wram
    } else if a <= ECHO_END {
        Region::Echo
    } else if a <= OAM_END {
        Region::Oam
    } else if a <= INVALID_OAM_END {
        Region::InvalidOam
    } else if a <= IO_END {
        Region::Io
    } else if a <= HRAM_END {
        Region::Hram
    } else {
        Region::IeRegister
    }
}

/// An inclusive range of addresses.
#[derive(Debug, Clone, Copy, PartialEq, Eq, Structural)]
pub struct AddressRange {
    pub start: u16,
    pub end: u16,
}

impl AddressRange {
    pub open spec fn contains_spec(&self, a: u16) -> bool {
        self.start <= a <= self.end
    }

    pub fn contains(&self, a: u16) -> (r: bool)
        ensures
            r == self.contains_spec(a),
    {
        self.start <= a && a <= self.end
    }

    /// The number of addresses in the range (zero for an empty one).
    pub fn size(&self) -> (r: usize)
        ensures
            r == (if self.start <= self.end { self.end - self.start + 1 } else { 0int }),
    {
        if self.start <= self.end {
            (self.end - self.start) as usize + 1
        } else {
            0
        }
    }
}

/// The memory map.
pub struct ADDRESS;

impl ADDRESS {
    pub open spec fn range_spec(region: Region) -> AddressRange {
        match region {
            Region::Rom => AddressRange { start: ROM_START, end: ROM_END },
            Region::Vram => AddressRange { start: VRAM_START, end: VRAM_END },
            Region::Ram => AddressRange { start: RAM_START, end: RAM_END },
            Region::Wram => AddressRange { start: WRAM_START, end: WRAM_END },
            Region::Echo => AddressRange { start: ECHO_START, end: ECHO_END },
            Region::Oam => AddressRange { start: OAM_START, end: OAM_END },
            Region::InvalidOam => AddressRange { start: INVALID_OAM_START, end: INVALID_OAM_END },
            Region::Io => AddressRange { start: IO_START, end: IO_END },
            Region::Hram => AddressRange { start: HRAM_START, end: HRAM_END },
            Region::IeRegister => AddressRange { start: IE_REGISTER, end: IE_REGISTER },
        }
    }

    /// The addresses that a region covers.
    pub fn range(region: Region) -> (r: AddressRange)
        ensures
            r == Self::range_spec(region),
    {
        match region {
            Region::Rom => AddressRange { start: ROM_START, end: ROM_END },
            Region::Vram => AddressRange { start: VRAM_START, end: VRAM_END },
            Region::Ram => AddressRange { start: RAM_START, end: RAM_END },
            Region::Wram => AddressRange { start: WRAM_START, end: WRAM_END },
            Region::Echo => AddressRange { start: ECHO_START, end: ECHO_END },
            Region::Oam => AddressRange { start: OAM_START, end: OAM_END },
            Region::InvalidOam => AddressRange { start: INVALID_OAM_START, end: INVALID_OAM_END },
            Region::Io => AddressRange { start: IO_START, end: IO_END },
            Region::Hram => AddressRange { start: HRAM_START, end: HRAM_END },
            Region::IeRegister => AddressRange { start: IE_REGISTER, end: IE_REGISTER },
        }
    }

    /// The region that routes an access to `address`; every address has one.
    pub fn region(address: u16) -> (r: Region)
        ensures
            r == region_of(address),
            Self::range_spec(r).contains_spec(address),
    {
        if address <= ROM_END {
            Region::Rom
        } else if address <= VRAM_END {
            Region::Vram
        } else if address <= RAM_END {
            Region::Ram
        } else if address <= WRAM_END {
            Region::Wram
        } else if address <= ECHO_END {
            Region::Echo
        } else if address <= OAM_END {
            Region::Oam
        } else if address <= INVALID_OAM_END {
            Region::InvalidOam
        } else if address <= IO_END {
            Region::Io
        } else if address <= HRAM_END {
            Region::Hram
        } else {
            Region::IeRegister
        }
    }
}

} // verus!
