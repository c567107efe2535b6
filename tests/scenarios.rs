use gameboy::cartridge::{Cartridge, CartridgeType, DestinationCode, Licensee};
use gameboy::cpu::{CPU, IME};
use gameboy::instructions::{Condition, Instructions};
use gameboy::mmu::{MMU, MmuError};
use gameboy::registers::{Registers16, Registers8};
use gameboy::tile::Tile;

const LOGO: [u8; 48] = [
    0xCE, 0xED, 0x66, 0x66, 0xCC, 0x0D, 0x00, 0x0B, 0x03, 0x73, 0x00, 0x83, 0x00, 0x0C, 0x00, 0x0D,
    0x00, 0x08, 0x11, 0x1F, 0x88, 0x89, 0x00, 0x0E, 0xDC, 0xCC, 0x6E, 0xE6, 0xDD, 0xDD, 0xD9, 0x99,
    0xBB, 0xBB, 0x67, 0x63, 0x6E, 0x0E, 0xEC, 0xCC, 0xDD, 0xDC, 0x99, 0x9F, 0xBB, 0xB9, 0x33, 0x3E,
];

fn header_checksum(image: &[u8]) -> u8 {
    let mut x: u8 = 0;
    for b in &image[0x134..=0x14C] {
        x = x.wrapping_sub(*b).wrapping_sub(1);
    }
    x
}

/// A 32 KiB image with the right logo and header checksum.
fn valid_image() -> Vec<u8> {
    let mut image = vec![0u8; 0x8000];
    image[0x104..0x134].copy_from_slice(&LOGO);
    image[0x134..0x13A].copy_from_slice(b"TETRIS");
    image[0x14D] = header_checksum(&image);
    image
}

fn booted_mmu(image: Vec<u8>) -> MMU {
    let mut mmu = MMU::new();
    let cartridge = Cartridge::insert(&image);
    assert!(cartridge.is_valid());
    mmu.set_cartridge(cartridge).unwrap();
    mmu
}

#[test]
fn boot_rejection() {
    let cartridge = Cartridge::insert(&vec![0u8; 0x8000]);
    assert!(!cartridge.is_valid());
    let mut mmu = MMU::new();
    assert_eq!(mmu.set_cartridge(cartridge), Err(MmuError::InvalidCartridge));
}

#[test]
fn short_image_gives_empty_cartridge() {
    let cartridge = Cartridge::insert(&vec![0u8; 100]);
    assert!(!cartridge.is_valid());
    assert_eq!(cartridge.read_rom(0x0150), 0);
}

#[test]
fn header_checksum_of_zero_header() {
    let mut image = vec![0u8; 0x8000];
    assert!(!Cartridge::insert(&image).is_header_checksum_valid);
    image[0x14D] = 0xE7;
    let cartridge = Cartridge::insert(&image);
    assert!(cartridge.is_header_checksum_valid);
    assert!(!cartridge.is_nintendo_logo);
    assert!(!cartridge.is_valid());
}

#[test]
fn valid_cartridge_is_accepted() {
    let cartridge = Cartridge::insert(&valid_image());
    assert!(cartridge.is_nintendo_logo);
    assert!(cartridge.is_header_checksum_valid);
    assert!(cartridge.is_valid());
    let mut mmu = MMU::new();
    assert_eq!(mmu.set_cartridge(cartridge), Ok(()));
}

#[test]
fn tile_decode_first_row() {
    let bytes: [u8; 16] = [
        0x3C, 0x7E, 0x42, 0x42, 0x42, 0x42, 0x42, 0x42, 0x7E, 0x5E, 0x7E, 0x0A, 0x7C, 0x56, 0x38, 0x7C,
    ];
    let tile = Tile::from_bytes(bytes);
    assert_eq!(tile.get_pixels()[0], [0, 2, 3, 3, 3, 3, 2, 0]);
    assert_eq!(tile.get_pixel(1, 0), 2);
    assert_eq!(tile.get_pixels()[7], [0, 2, 3, 3, 3, 2, 0, 0]);
}

#[test]
fn add_a_n8_flag_table() {
    let mut mmu = MMU::new();
    let mut cpu = CPU::new();
    mmu.write_memory(0xC000, 0xC6);
    mmu.write_memory(0xC001, 0xC6);
    cpu.registers.pc = 0xC000;
    cpu.registers.a = 0x3A;
    cpu.step(&mut mmu);
    assert_eq!(cpu.registers.a, 0x00);
    assert!(cpu.registers.zero);
    assert!(!cpu.registers.subtraction);
    assert!(cpu.registers.half_carry);
    assert!(cpu.registers.carry);
    assert_eq!(cpu.registers.pc, 0xC002);
}

#[test]
fn daa_after_add() {
    let mut mmu = MMU::new();
    let mut cpu = CPU::new();
    mmu.write_memory(0xC000, 0xC6);
    mmu.write_memory(0xC001, 0x38);
    mmu.write_memory(0xC002, 0x27);
    cpu.registers.pc = 0xC000;
    cpu.registers.a = 0x45;
    cpu.step(&mut mmu);
    assert_eq!(cpu.registers.a, 0x7D);
    // 0x5 + 0x8 does not carry out of bit 3.
    assert!(!cpu.registers.half_carry);
    cpu.step(&mut mmu);
    assert_eq!(cpu.registers.a, 0x83);
    assert!(!cpu.registers.zero);
    assert!(!cpu.registers.half_carry);
    assert!(!cpu.registers.carry);
}

#[test]
fn jr_z_taken() {
    let mut image = valid_image();
    image[0x1000] = 0x28;
    image[0x1001] = 0x05;
    image[0x14D] = header_checksum(&image);
    let mut mmu = booted_mmu(image);
    let mut cpu = CPU::new();
    cpu.registers.pc = 0x1000;
    cpu.registers.zero = true;
    cpu.step(&mut mmu);
    assert_eq!(cpu.registers.pc, 0x1007);
}

#[test]
fn jr_z_not_taken() {
    let mut image = valid_image();
    image[0x1000] = 0x28;
    image[0x1001] = 0x05;
    let mut mmu = booted_mmu(image);
    let mut cpu = CPU::new();
    cpu.registers.pc = 0x1000;
    cpu.registers.zero = false;
    cpu.step(&mut mmu);
    assert_eq!(cpu.registers.pc, 0x1002);
}

#[test]
fn jr_backwards() {
    let mut mmu = MMU::new();
    let mut cpu = CPU::new();
    mmu.write_memory(0xC010, 0x18);
    mmu.write_memory(0xC011, 0xFE);
    cpu.registers.pc = 0xC010;
    cpu.step(&mut mmu);
    assert_eq!(cpu.registers.pc, 0xC010);
}

#[test]
fn memory_routing() {
    let mut mmu = MMU::new();
    mmu.write_memory(0xC123, 0x5A);
    assert_eq!(mmu.read_memory(0xC123), 0x5A);
    assert_eq!(mmu.read_memory(0xE123), 0xFF);
}

#[test]
fn cartridge_header_fields() {
    let mut image = valid_image();
    image[0x147] = 0x13;
    image[0x148] = 0x05;
    image[0x149] = 0x03;
    image[0x14A] = 0x01;
    image[0x14B] = 0x01;
    image[0x146] = 0x03;
    image[0x14C] = 0x02;
    let cartridge = Cartridge::insert(&image);
    assert_eq!(cartridge.get_title(), "TETRIS");
    assert_eq!(cartridge.cartridge_type, CartridgeType::Mbc3RamBattery);
    assert_eq!(cartridge.rom_size, 1024 * 1024);
    assert_eq!(cartridge.rom_number_banks, 64);
    assert_eq!(cartridge.ram_size, 32 * 1024);
    assert_eq!(cartridge.destination_code, DestinationCode::Overseas);
    assert!(cartridge.supports_sgb);
    assert_eq!(cartridge.mask_rom_version_number, 0x02);
    match &cartridge.licensee_code {
        Licensee::Known(name) => assert_eq!(name, "Nintendo"),
        _ => panic!("licensee not decoded"),
    }
}

#[test]
fn cartridge_unknown_codes() {
    let mut image = valid_image();
    image[0x147] = 0x42;
    image[0x148] = 0x30;
    image[0x149] = 0x09;
    image[0x14A] = 0x07;
    image[0x14B] = 0x02;
    let cartridge = Cartridge::insert(&image);
    assert_eq!(cartridge.cartridge_type, CartridgeType::Unknown(0x42));
    assert_eq!((cartridge.rom_size, cartridge.rom_number_banks), (0, 0));
    assert_eq!(cartridge.ram_size, 0);
    assert_eq!(cartridge.destination_code, DestinationCode::Unknown(0x07));
    assert!(matches!(cartridge.licensee_code, Licensee::UnknownOld(0x02)));
}

#[test]
fn cartridge_new_licensee_code() {
    let mut image = valid_image();
    image[0x14B] = 0x33;
    image[0x144] = b'A';
    image[0x145] = b'4';
    let cartridge = Cartridge::insert(&image);
    match &cartridge.licensee_code {
        Licensee::Known(name) => assert_eq!(name, "Konami (Yu-Gi-Oh!)"),
        _ => panic!("licensee not decoded"),
    }
    image[0x144] = b'Z';
    image[0x145] = b'Z';
    let cartridge = Cartridge::insert(&image);
    assert!(matches!(cartridge.licensee_code, Licensee::UnknownNew(b'Z', b'Z')));
}

#[test]
fn title_stops_at_nul_and_keeps_sixteen_bytes() {
    let mut image = valid_image();
    image[0x134..0x144].copy_from_slice(b"ABCDEFGHIJKLMNOP");
    let cartridge = Cartridge::insert(&image);
    assert_eq!(cartridge.get_title(), "ABCDEFGHIJKLMNOP");
    image[0x136] = 0;
    let cartridge = Cartridge::insert(&image);
    assert_eq!(cartridge.get_title(), "AB");
}

#[test]
fn cartridge_ram_window() {
    let mut cartridge = Cartridge::insert(&valid_image());
    assert_eq!(cartridge.read_ram(0xA000), 0);
    cartridge.write_ram(0xA010, 0x77);
    assert_eq!(cartridge.read_ram(0xA010), 0x77);
    assert_eq!(cartridge.get_ram()[0x10], 0x77);
    let mut image = vec![0u8; 0xC000];
    image[0xA001] = 0x99;
    let cartridge = Cartridge::insert(&image);
    assert_eq!(cartridge.read_ram(0xA001), 0x99);
}

#[test]
fn execute_decoded_instructions() {
    let mut mmu = MMU::new();
    let mut cpu = CPU::new();
    cpu.registers.pc = 0xC000;
    cpu.registers.b = 0x12;
    cpu.execute(&mut mmu, Instructions::LD_r8_r8(Registers8::A, Registers8::B));
    assert_eq!(cpu.registers.a, 0x12);
    cpu.registers.set_register_16(Registers16::HL, 0xC100);
    cpu.execute(&mut mmu, Instructions::LD_HLI_A);
    assert_eq!(mmu.read_memory(0xC100), 0x12);
    assert_eq!(cpu.registers.get_register_16(Registers16::HL), 0xC101);
    cpu.registers.zero = false;
    mmu.write_memory(0xC000, 0x34);
    mmu.write_memory(0xC001, 0x12);
    cpu.execute(&mut mmu, Instructions::JP_cc_n16(Condition::NZ));
    assert_eq!(cpu.registers.pc, 0x1234);
}

#[test]
fn call_and_ret() {
    let mut mmu = MMU::new();
    let mut cpu = CPU::new();
    cpu.registers.sp = 0xDFFE;
    cpu.registers.pc = 0xC000;
    mmu.write_memory(0xC000, 0xCD);
    mmu.write_memory(0xC001, 0x00);
    mmu.write_memory(0xC002, 0xC2);
    mmu.write_memory(0xC200, 0xC9);
    cpu.step(&mut mmu);
    assert_eq!(cpu.registers.pc, 0xC200);
    assert_eq!(cpu.registers.sp, 0xDFFC);
    assert_eq!(mmu.read_memory(0xDFFC), 0x03);
    assert_eq!(mmu.read_memory(0xDFFD), 0xC0);
    cpu.step(&mut mmu);
    assert_eq!(cpu.registers.pc, 0xC003);
    assert_eq!(cpu.registers.sp, 0xDFFE);
}

#[test]
fn rst_pushes_and_jumps() {
    let mut mmu = MMU::new();
    let mut cpu = CPU::new();
    cpu.registers.sp = 0xDFF0;
    cpu.registers.pc = 0xC000;
    mmu.write_memory(0xC000, 0xEF);
    cpu.step(&mut mmu);
    assert_eq!(cpu.registers.pc, 0x0028);
    assert_eq!(mmu.read_memory(0xDFEE), 0x01);
    assert_eq!(mmu.read_memory(0xDFEF), 0xC0);
}

#[test]
fn ei_enables_after_next_instruction() {
    let mut mmu = MMU::new();
    let mut cpu = CPU::new();
    cpu.registers.pc = 0xC000;
    mmu.write_memory(0xC000, 0xFB);
    mmu.write_memory(0xC001, 0x00);
    mmu.write_memory(0xC002, 0xF3);
    cpu.step(&mut mmu);
    assert_eq!(cpu.get_status(), IME::Disabled);
    assert!(cpu.enable_ime_next_cycle);
    cpu.step(&mut mmu);
    assert_eq!(cpu.get_status(), IME::Enabled);
    cpu.step(&mut mmu);
    assert_eq!(cpu.get_status(), IME::Disabled);
}

#[test]
fn halt_suspends_fetching() {
    let mut mmu = MMU::new();
    let mut cpu = CPU::new();
    cpu.registers.pc = 0xC000;
    mmu.write_memory(0xC000, 0x76);
    cpu.step(&mut mmu);
    assert!(cpu.halted);
    assert_eq!(cpu.registers.pc, 0xC001);
    cpu.step(&mut mmu);
    assert_eq!(cpu.registers.pc, 0xC001);
}

#[test]
fn cpu_start_at_entry_point() {
    let cartridge = Cartridge::insert(&valid_image());
    let mut cpu = CPU::new();
    cpu.start(&cartridge);
    assert_eq!(cpu.registers.pc, 0x0100);
    assert_eq!(cpu.get_status(), IME::Enabled);
}

#[test]
fn prefixed_bit_and_set() {
    let mut mmu = MMU::new();
    let mut cpu = CPU::new();
    cpu.registers.pc = 0xC000;
    cpu.registers.c = 0x00;
    mmu.write_memory(0xC000, 0xCB);
    mmu.write_memory(0xC001, 0xD9);
    mmu.write_memory(0xC002, 0xCB);
    mmu.write_memory(0xC003, 0x59);
    cpu.step(&mut mmu);
    assert_eq!(cpu.registers.c, 0x08);
    cpu.step(&mut mmu);
    assert!(!cpu.registers.zero);
    assert!(cpu.registers.half_carry);
    assert_eq!(cpu.registers.pc, 0xC004);
}

#[test]
fn title_with_non_ascii_bytes() {
    let mut image = valid_image();
    image[0x134..0x13A].copy_from_slice(&[b'P', 0xC3, 0xA9, b'!', 0xFF, 0x00]);
    let cartridge = Cartridge::insert(&image);
    assert_eq!(cartridge.get_title(), "P\u{e9}!\u{FFFD}");
}

#[test]
fn rom_size_table_extremes() {
    let mut image = valid_image();
    image[0x148] = 0x08;
    let cartridge = Cartridge::insert(&image);
    assert_eq!((cartridge.rom_size, cartridge.rom_number_banks), (8 * 1024 * 1024, 512));
    image[0x148] = 0x54;
    let cartridge = Cartridge::insert(&image);
    assert_eq!((cartridge.rom_size, cartridge.rom_number_banks), (1536 * 1024, 96));
    image[0x149] = 0x04;
    assert_eq!(Cartridge::insert(&image).ram_size, 128 * 1024);
}

#[test]
fn ejected_cartridge_is_a_placeholder() {
    let cartridge = Cartridge::eject();
    assert!(!cartridge.is_valid());
    assert_eq!(cartridge.get_title(), "none");
    assert_eq!(cartridge.read_rom(0x7FFF), 0);
    assert_eq!(cartridge.read_ram(0xBFFF), 0);
    assert_eq!(cartridge.cartridge_type, CartridgeType::RomOnly);
    assert_eq!(cartridge.destination_code, DestinationCode::Japan);
    assert!(matches!(&cartridge.licensee_code, Licensee::Known(name) if name == "none"));
}

#[test]
fn checksum_check_on_images() {
    let mut image = vec![0u8; 0x8000];
    image[0x14D] = 0xE7;
    assert!(Cartridge::is_header_checksum_valid(&image));
    image[0x14D] = 0xE6;
    assert!(!Cartridge::is_header_checksum_valid(&image));
    assert!(!Cartridge::is_nintendo_logo(&image));
    image[0x104..0x134].copy_from_slice(&LOGO);
    assert!(Cartridge::is_nintendo_logo(&image));
}
