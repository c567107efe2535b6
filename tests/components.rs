use gameboy::address::{ADDRESS, AddressRange, Region};
use gameboy::boot_rom::BootAnimation;
use gameboy::cartridge::Cartridge;
use gameboy::instructions::{Condition, Instructions};
use gameboy::lcd::LCD;
use gameboy::memory::Memory;
use gameboy::mmu::MMU;
use gameboy::palette::{Colors, Palette};
use gameboy::ppu::PPU;
use gameboy::registers::{Flags, Registers, Registers16, Registers8};

const LOGO: [u8; 48] = [
    0xCE, 0xED, 0x66, 0x66, 0xCC, 0x0D, 0x00, 0x0B, 0x03, 0x73, 0x00, 0x83, 0x00, 0x0C, 0x00, 0x0D,
    0x00, 0x08, 0x11, 0x1F, 0x88, 0x89, 0x00, 0x0E, 0xDC, 0xCC, 0x6E, 0xE6, 0xDD, 0xDD, 0xD9, 0x99,
    0xBB, 0xBB, 0x67, 0x63, 0x6E, 0x0E, 0xEC, 0xCC, 0xDD, 0xDC, 0x99, 0x9F, 0xBB, 0xB9, 0x33, 0x3E,
];

fn valid_cartridge() -> Cartridge {
    let mut image = vec![0u8; 0x8000];
    image[0x104..0x134].copy_from_slice(&LOGO);
    let mut x: u8 = 0;
    for b in &image[0x134..=0x14C] {
        x = x.wrapping_sub(*b).wrapping_sub(1);
    }
    image[0x14D] = x;
    Cartridge::insert(&image)
}

#[test]
fn decoder_gaps_are_none() {
    for op in [0xD3u8, 0xDB, 0xDD, 0xE3, 0xE4, 0xEB, 0xEC, 0xED, 0xF4, 0xFC, 0xFD] {
        assert_eq!(Instructions::get_instruction(op), Instructions::NONE);
    }
    assert_eq!(Instructions::get_instruction(0x00), Instructions::NOP);
    assert_eq!(Instructions::get_instruction(0x01), Instructions::LD_r16_n16(Registers16::BC));
    assert_eq!(Instructions::get_instruction(0x76), Instructions::HALT);
    assert_eq!(Instructions::get_instruction(0x78), Instructions::LD_r8_r8(Registers8::A, Registers8::B));
    assert_eq!(Instructions::get_instruction(0xC4), Instructions::CALL_cc_n16(Condition::NZ));
    assert_eq!(Instructions::get_instruction(0xFF), Instructions::RST(0x38));
    assert_eq!(Instructions::get_instruction(0xCB), Instructions::PREFIX);
}

#[test]
fn prefixed_decoder() {
    assert_eq!(Instructions::get_instruction_prefixed(0x00), Instructions::RLC_r8(Registers8::B));
    assert_eq!(Instructions::get_instruction_prefixed(0x36), Instructions::SWAP_HL);
    assert_eq!(Instructions::get_instruction_prefixed(0x7F), Instructions::BIT_u3_r8(7, Registers8::A));
    assert_eq!(Instructions::get_instruction_prefixed(0x86), Instructions::RES_u3_HL(0));
    assert_eq!(Instructions::get_instruction_prefixed(0xFF), Instructions::SET_u3_r8(7, Registers8::A));
}

#[test]
fn register_pairs_and_flags() {
    let mut r = Registers::new();
    r.set_register_16(Registers16::HL, 0xABCD);
    assert_eq!(r.get_register_8(Registers8::H), 0xAB);
    assert_eq!(r.get_register_8(Registers8::L), 0xCD);
    r.set_register_8(Registers8::F, 0xFF);
    assert_eq!(r.get_register_8(Registers8::F), 0xF0);
    r.flag_down(Flags::Zero);
    assert!(r.is_flag_down(Flags::Zero));
    assert!(r.is_flag_up(Flags::Carry));
    assert_eq!(r.get_register_8(Registers8::F), 0x70);
    r.set_flag(Flags::Carry, false);
    assert!(!r.get_flag(Flags::Carry));
    r.set_program_counter(0xFFFF);
    r.increase_program_counter(2);
    assert_eq!(r.get_program_counter(), 0x0001);
    r.set_stack_pointer(0x1234);
    assert_eq!(r.get_stack_pointer(), 0x1234);
    assert!(Flags::HalfCarry.is_set());
}

#[test]
fn address_regions() {
    assert_eq!(ADDRESS::region(0x7FFF), Region::Rom);
    assert_eq!(ADDRESS::region(0xFEA0), Region::InvalidOam);
    assert_eq!(ADDRESS::region(0xFFFF), Region::IeRegister);
    let hram: AddressRange = ADDRESS::range(Region::Hram);
    assert_eq!(hram.size(), 127);
    assert!(hram.contains(0xFF80));
    assert!(!hram.contains(0xFFFF));
}

#[test]
fn boot_sequence_draws_logo() {
    let mut mmu = MMU::new();
    mmu.write_memory(0xC000, 0x12);
    let cartridge = valid_cartridge();
    let logo = cartridge.get_nintendo_logo();
    // The top-left 4x4 pixels of the logo: byte 0xCE has its high nibble 0xC = 1100.
    assert_eq!(logo[0][0], 0xF0);
    assert_eq!(logo[3][0], 0xF0);
    assert_eq!(mmu.set_cartridge(cartridge), Ok(()));
    assert_eq!(mmu.read_memory(0x8000), 0xF0);
    assert_eq!(mmu.read_memory(0x8000 + 12 * 32), 0x3C);
    assert_eq!(mmu.read_memory(0x9800), 99);
    assert_eq!(mmu.read_memory(0x9800 + 8 * 32 + 4), 0);
    assert_eq!(mmu.read_memory(0x9800 + 9 * 32 + 5), 3);
    assert_eq!(mmu.get_screen_scroll(), (0, 80));
    assert_eq!(mmu.read_memory(0xC000), 0x12);
}

#[test]
fn boot_animation_scrolls_then_clears() {
    let mut mmu = MMU::new();
    mmu.set_cartridge(valid_cartridge()).unwrap();
    mmu.on_frame();
    assert_eq!(mmu.get_screen_scroll(), (0, 79));
    for _ in 0..79 {
        mmu.on_frame();
    }
    assert_eq!(mmu.get_screen_scroll(), (0, 0));
    assert_eq!(mmu.read_memory(0x9800), 99);
    let mut cleared_at = None;
    for frame in 0..40 {
        if mmu.boot_update_animation() {
            cleared_at = Some(frame);
            break;
        }
    }
    // The hold lasts 30 frames: the 30th call after the logo arrived clears VRAM.
    assert_eq!(cleared_at, Some(29));
    assert_eq!(mmu.read_memory(0x9800), 0);
    assert!(!mmu.boot_update_animation());
}

#[test]
fn boot_animation_state() {
    let mut animation = BootAnimation::new();
    assert_eq!(animation.update(), 80);
    animation.start();
    assert_eq!(animation.update(), 79);
    assert!(!animation.is_complete());
}

#[test]
fn delay_frames_counts_down() {
    let mut mmu = MMU::new();
    assert!(!mmu.delay_frames(2));
    assert!(mmu.delay_frames(2));
    assert!(mmu.delay_frames(2));
    assert!(mmu.delay_frames(9));
    mmu.reset_delay();
    assert!(mmu.delay_frames(5));
}

#[test]
fn ppu_memory() {
    let mut ppu = PPU::new();
    ppu.write_vram(0x8010, 0xFF);
    ppu.write_vram(0x8011, 0x00);
    assert_eq!(ppu.read_vram(0x8010), 0xFF);
    assert_eq!(ppu.get_tile(1).get_pixels()[0], [1, 1, 1, 1, 1, 1, 1, 1]);
    ppu.write_vram(0x9800 + 32 * 2 + 3, 7);
    assert_eq!(ppu.get_tile_id(3, 2), 7);
    ppu.write_oam(0xFE9F, 0x44);
    assert_eq!(ppu.read_oam(0xFE9F), 0x44);
    ppu.reset_oam();
    assert_eq!(ppu.read_oam(0xFE9F), 0);
    ppu.reset_vram();
    assert_eq!(ppu.read_vram(0x8010), 0);
    ppu.set_screen_scroll(3, 4);
    assert_eq!(ppu.get_screen_scroll(), (3, 4));
}

#[test]
fn palette_lookup() {
    let mut palette = Palette::from_colors(Colors::Black, Colors::DarkGray, Colors::LightGray, Colors::White);
    assert_eq!(palette.get_color(0), Colors::Black);
    assert_eq!(palette.get_color(7), Colors::White);
    palette.set_color(9, Colors::Debug);
    palette.set_color(1, Colors::Debug);
    assert_eq!(palette.get_color(1), Colors::Debug);
    assert_eq!(Palette::new().get_color(2), Colors::DarkGray);
}

#[test]
fn lcd_renders_scrolled_background() {
    let mut mmu = MMU::new();
    let ppu = mmu.get_ppu();
    ppu.write_vram(0x8010, 0x80);
    ppu.write_vram(0x8011, 0x80);
    ppu.write_vram(0x9800 + 32 + 1, 1);
    ppu.set_screen_scroll(8, 8);
    let mut lcd = LCD::new();
    let frame = lcd.render_frame(mmu.get_ppu());
    assert_eq!(frame.len(), 160 * 144);
    assert_eq!(frame[0], Colors::Black);
    assert_eq!(frame[1], Colors::White);
    assert_eq!(lcd.get_frame_count(), 1);
    assert_eq!(lcd.get_screen_dimensions(), (480, 432));
    let map = lcd.render_debug_tile_map(mmu.get_ppu());
    assert_eq!(map[8 * 256 + 8], Colors::Black);
    let set = lcd.render_tile_set(mmu.get_ppu());
    assert_eq!(set[8], Colors::Black);
    assert_eq!(set[0], Colors::White);
}

#[test]
fn empty_bus_reads_zero() {
    assert_eq!(Memory {}.read_memory(0x1234), 0);
}

#[test]
fn delay_of_one_frame_ends_at_once() {
    let mut mmu = MMU::new();
    assert!(mmu.delay_frames(1));
}
