//! The core of a Game Boy (DMG) emulator: cartridge header parsing, the memory bus, the
//! LR35902 instruction set, and tile-based background rendering, each with its behaviour
//! stated in contracts and proved.
//!
//! - `cartridge`, `licensee`: ROM images and their headers.
//! - `address`, `mmu`, `boot_rom`, `memory`: the 64 KiB address space and the boot animation.
//! - `registers`, `alu`, `instructions`, `cpu`: registers, flag arithmetic, decoding and
//!   execution.
//! - `tile`, `palette`, `ppu`, `lcd`: video memory, tiles and the rendered screen.

pub mod address;
pub mod alu;
pub mod boot_rom;
pub mod cartridge;
pub mod cpu;
pub mod instructions;
pub mod lcd;
pub mod licensee;
pub mod memory;
pub mod mmu;
pub mod palette;
pub mod ppu;
pub mod registers;
pub mod tile;
