use gameboy::cartridge::Cartridge;
use gameboy::cpu::CPU;
use gameboy::instructions::Instructions;
use gameboy::mmu::MMU;
use gameboy::registers::{Registers16, Registers8};
use gameboy::tile::Tile;

#[test]
fn write_then_read_by_region() {
    let mut image = vec![0u8; 0x8000];
    image[0x0200] = 0x42;
    let mut mmu = MMU::new();
    // An invalid cartridge is refused, so reach the ROM through the bus's own slot.
    *mmu.get_cartridge() = Cartridge::insert(&image);
    let cases: [(u16, u8, u8); 10] = [
        (0x0200, 0x11, 0x42),
        (0x8123, 0x22, 0x22),
        (0xA456, 0x33, 0x33),
        (0xC789, 0x44, 0x44),
        (0xE001, 0x55, 0xFF),
        (0xFE10, 0x66, 0x66),
        (0xFEA5, 0x77, 0xFF),
        (0xFF40, 0x88, 0x88),
        (0xFF90, 0x99, 0x99),
        (0xFFFF, 0xAA, 0xFF),
    ];
    for (address, value, expected) in cases {
        mmu.write_memory(address, value);
        assert_eq!(mmu.read_memory(address), expected, "address {:04X}", address);
    }
}

#[test]
fn tile_round_trip() {
    let bytes: [u8; 16] = [
        0x3C, 0x7E, 0x42, 0x42, 0x42, 0x42, 0x42, 0x42, 0x7E, 0x5E, 0x7E, 0x0A, 0x7C, 0x56, 0x38, 0x7C,
    ];
    assert_eq!(Tile::from_bytes(bytes).to_bytes(), bytes);
    let mut other = [0u8; 16];
    for (i, b) in other.iter_mut().enumerate() {
        *b = (i as u8).wrapping_mul(37).wrapping_add(5);
    }
    assert_eq!(Tile::from_bytes(other).to_bytes(), other);
}

fn run(cpu: &mut CPU, mmu: &mut MMU, instruction: Instructions) {
    cpu.execute(mmu, instruction);
}

#[test]
fn add_flags_on_values() {
    let mut mmu = MMU::new();
    for (a, x) in [(0x0Fu8, 0x01u8), (0xFF, 0x01), (0x80, 0x80), (0x12, 0x34)] {
        let mut cpu = CPU::new();
        cpu.registers.a = a;
        cpu.registers.b = x;
        run(&mut cpu, &mut mmu, Instructions::ADD_A_r8(Registers8::B));
        let sum = a as u16 + x as u16;
        assert_eq!(cpu.registers.a, (sum % 256) as u8);
        assert_eq!(cpu.registers.zero, sum % 256 == 0);
        assert_eq!(cpu.registers.carry, sum >= 256);
        assert_eq!(cpu.registers.half_carry, (a & 0x0F) + (x & 0x0F) >= 0x10);
        assert!(!cpu.registers.subtraction);
    }
}

#[test]
fn adc_then_sbc_restores_a() {
    let mut mmu = MMU::new();
    let mut cpu = CPU::new();
    cpu.registers.a = 0x20;
    cpu.registers.b = 0x13;
    cpu.registers.carry = true;
    run(&mut cpu, &mut mmu, Instructions::ADC_A_r8(Registers8::B));
    assert_eq!(cpu.registers.a, 0x34);
    assert!(!cpu.registers.carry);
    cpu.registers.carry = true;
    run(&mut cpu, &mut mmu, Instructions::SBC_A_r8(Registers8::B));
    assert_eq!(cpu.registers.a, 0x20);
    assert!(cpu.registers.subtraction);
}

#[test]
fn inc_then_dec_restores_register() {
    let mut mmu = MMU::new();
    for v in [0x00u8, 0x0F, 0xFF, 0x7A] {
        let mut cpu = CPU::new();
        cpu.registers.d = v;
        cpu.registers.carry = true;
        run(&mut cpu, &mut mmu, Instructions::INC_r8(Registers8::D));
        let incremented = cpu.registers.d;
        run(&mut cpu, &mut mmu, Instructions::DEC_r8(Registers8::D));
        assert_eq!(cpu.registers.d, v);
        assert_eq!(cpu.registers.zero, v == 0);
        assert!(cpu.registers.subtraction);
        assert_eq!(cpu.registers.half_carry, incremented & 0x0F == 0);
        assert!(cpu.registers.carry);
    }
}

#[test]
fn swap_twice_and_rlc_eight_times() {
    let mut mmu = MMU::new();
    let mut cpu = CPU::new();
    cpu.registers.e = 0xA7;
    run(&mut cpu, &mut mmu, Instructions::SWAP_r8(Registers8::E));
    assert_eq!(cpu.registers.e, 0x7A);
    run(&mut cpu, &mut mmu, Instructions::SWAP_r8(Registers8::E));
    assert_eq!(cpu.registers.e, 0xA7);
    for k in 1..=8u32 {
        run(&mut cpu, &mut mmu, Instructions::RLC_r8(Registers8::E));
        assert_eq!(cpu.registers.e, 0xA7u8.rotate_left(k));
    }
    assert_eq!(cpu.registers.e, 0xA7);
}

#[test]
fn checksum_depends_on_header_only() {
    let mut first = vec![0u8; 0x8000];
    let mut second = vec![0xFFu8; 0x8000];
    for i in 0x134..=0x14C {
        first[i] = i as u8;
        second[i] = i as u8;
    }
    first[0x14D] = 0;
    second[0x14D] = 0;
    let mut expected: u8 = 0;
    for i in 0x134..=0x14C {
        expected = expected.wrapping_sub(i as u8).wrapping_sub(1);
    }
    first[0x14D] = expected;
    second[0x14D] = expected;
    assert!(Cartridge::insert(&first).is_header_checksum_valid);
    assert!(Cartridge::insert(&second).is_header_checksum_valid);
}

#[test]
fn push_then_pop_af() {
    let mut mmu = MMU::new();
    let mut cpu = CPU::new();
    cpu.registers.sp = 0xFFFE;
    cpu.registers.set_register_16(Registers16::AF, 0x12FF);
    assert_eq!(cpu.registers.get_register_16(Registers16::AF), 0x12F0);
    run(&mut cpu, &mut mmu, Instructions::PUSH_AF);
    cpu.registers.set_register_16(Registers16::AF, 0);
    run(&mut cpu, &mut mmu, Instructions::POP_AF);
    assert_eq!(cpu.registers.get_register_16(Registers16::AF), 0x12F0);
    assert_eq!(cpu.registers.sp, 0xFFFE);
    mmu.write_memory(0xFFF0, 0x0F);
    mmu.write_memory(0xFFF1, 0xAB);
    cpu.registers.sp = 0xFFF0;
    run(&mut cpu, &mut mmu, Instructions::POP_AF);
    assert_eq!(cpu.registers.get_register_16(Registers16::AF), 0xAB00);
}

#[test]
fn push_then_pop_word() {
    let mut mmu = MMU::new();
    let mut cpu = CPU::new();
    cpu.registers.sp = 0xD000;
    cpu.registers.set_register_16(Registers16::BC, 0xBEEF);
    run(&mut cpu, &mut mmu, Instructions::PUSH_r16(Registers16::BC));
    assert_eq!(cpu.registers.sp, 0xCFFE);
    cpu.registers.set_register_16(Registers16::BC, 0);
    run(&mut cpu, &mut mmu, Instructions::POP_r16(Registers16::BC));
    assert_eq!(cpu.registers.get_register_16(Registers16::BC), 0xBEEF);
    assert_eq!(cpu.registers.sp, 0xD000);
}

#[test]
fn push_one_pair_pop_another() {
    let mut mmu = MMU::new();
    let mut cpu = CPU::new();
    cpu.registers.sp = 0xFFF0;
    cpu.registers.set_register_16(Registers16::HL, 0x1357);
    run(&mut cpu, &mut mmu, Instructions::PUSH_r16(Registers16::HL));
    run(&mut cpu, &mut mmu, Instructions::POP_r16(Registers16::DE));
    assert_eq!(cpu.registers.get_register_16(Registers16::DE), 0x1357);
    assert_eq!(cpu.registers.sp, 0xFFF0);
}
