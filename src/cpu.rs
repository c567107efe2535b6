use vstd::prelude::*;
use crate::alu::{
    lemma_adc_then_sbc,
    AluOp, Outcome, ShiftOp, add16, add16_spec, add_sp, add_sp_spec, alu, alu_spec, daa, daa_spec,
    dec, dec_spec, inc, inc_spec, shift, shift_spec, signed8, wrap16,
};
use crate::cartridge::{Cartridge, ENTRY_POINT};
use crate::instructions::{Condition, Instructions, decode_prefixed_spec, decode_spec};
use crate::mmu::{MMU, writable, write_spec};
use crate::registers::{
    Flags, Registers, Registers16, Registers8, lemma_flags_byte_bits, lemma_flags_byte_round_trip,
};

verus! {

/// The interrupt master enable flag.
#[derive(Debug, Clone, Copy, PartialEq, Eq, Structural)]
pub enum IME {
    Enabled,
    Disabled,
}

/// The processor: its registers, the interrupt master enable flag, the one-instruction
/// delay that EI arms, and whether HALT or STOP has suspended it.
pub struct CPU {
    pub registers: Registers,
    pub status: IME,
    pub enable_ime_next_cycle: bool,
    pub halted: bool,
}

/// The low byte of a 16-bit value.
pub open spec fn low(v: u16) -> u8 {
    (v % 256) as u8
}

/// The high byte of a 16-bit value.
pub open spec fn high(v: u16) -> u8 {
    (v / 256) as u8
}

/// The little-endian 16-bit value of bytes `a` and `a + 1` (wrapping) of `m`.
pub open spec fn read16(m: Seq<u8>, a: u16) -> u16 {
    (m[a as int] + 256 * m[wrap16(a + 1) as int]) as u16
}

/// `m` after writing `v` little-endian at `a` and `a + 1` (wrapping).
pub open spec fn write16(m: Seq<u8>, a: u16, v: u16) -> Seq<u8> {
    write_spec(write_spec(m, a, low(v)), wrap16(a + 1), high(v))
}

/// The target of a relative jump by the signed offset `e` from `pc`.
pub open spec fn jr_target(pc: u16, e: u8) -> u16 {
    wrap16(pc + signed8(e))
}

impl CPU {
    pub open spec fn with_regs(self, r: Registers) -> CPU {
        CPU { registers: r, ..self }
    }

    pub open spec fn set8(self, r: Registers8, v: u8) -> CPU {
        self.with_regs(self.registers.set8(r, v))
    }

    pub open spec fn set16(self, r: Registers16, v: u16) -> CPU {
        self.with_regs(self.registers.set16(r, v))
    }

    pub open spec fn get8(self, r: Registers8) -> u8 {
        self.registers.get8(r)
    }

    pub open spec fn get16(self, r: Registers16) -> u16 {
        self.registers.get16(r)
    }

    pub open spec fn flags(self, z: bool, n: bool, h: bool, c: bool) -> CPU {
        self.with_regs(self.registers.with_flags(z, n, h, c))
    }

    /// The processor with PC moved on by `n` bytes.
    pub open spec fn advance(self, n: int) -> CPU {
        self.set16(Registers16::PC, wrap16(self.registers.pc + n))
    }

    pub open spec fn jump(self, target: u16) -> CPU {
        self.set16(Registers16::PC, target)
    }

    pub open spec fn hl(self) -> u16 {
        self.get16(Registers16::HL)
    }

    pub open spec fn condition(self, cond: Condition) -> bool {
        match cond {
            Condition::NZ => !self.registers.zero,
            Condition::Z => self.registers.zero,
            Condition::NC => !self.registers.carry,
            Condition::C => self.registers.carry,
        }
    }

    /// `op A, x`: A takes the result (but for CP) and all four flags are set.
    pub open spec fn alu_a(self, op: AluOp, x: u8) -> CPU {
        let o = alu_spec(op, self.registers.a, x, self.registers.carry);
        let c = self.flags(o.z, o.n, o.h, o.c);
        if op == AluOp::Cp {
            c
        } else {
            c.set8(Registers8::A, o.value)
        }
    }

    /// The flags after a CB rotate or shift of `v`, and the shifted value.
    pub open spec fn shifted(self, op: ShiftOp, v: u8) -> (CPU, u8) {
        let (r, c) = shift_spec(op, v, self.registers.carry);
        (self.flags(r == 0, false, false, c), r)
    }

    /// A rotate of A without the prefix: as the CB form, but Z is always cleared.
    pub open spec fn rotate_a(self, op: ShiftOp) -> CPU {
        let (r, c) = shift_spec(op, self.registers.a, self.registers.carry);
        self.flags(false, false, false, c).set8(Registers8::A, r)
    }

    pub open spec fn bit_test(self, bit: u8, v: u8) -> CPU {
        self.flags((v >> (bit % 8)) & 1 == 0, false, true, self.registers.carry)
    }

    /// The processor and memory after pushing `v`: low byte at SP - 2, high byte at SP - 1.
    pub open spec fn push(self, m: Seq<u8>, v: u16) -> (CPU, Seq<u8>) {
        let sp = wrap16(self.registers.sp - 2);
        (self.set16(Registers16::SP, sp), write16(m, sp, v))
    }

    /// The value that a pop reads.
    pub open spec fn top(self, m: Seq<u8>) -> u16 {
        read16(m, self.registers.sp)
    }

    /// The processor with SP moved past a popped value.
    pub open spec fn popped(self) -> CPU {
        self.set16(Registers16::SP, wrap16(self.registers.sp + 2))
    }

    pub open spec fn imm8(self, m: Seq<u8>) -> u8 {
        m[self.registers.pc as int]
    }

    pub open spec fn imm16(self, m: Seq<u8>) -> u16 {
        read16(m, self.registers.pc)
    }

    /// A CB-prefixed instruction (rotate, shift, BIT, RES, SET).
    pub open spec fn prefixed_spec(self, m: Seq<u8>, i: Instructions) -> (CPU, Seq<u8>) {
        let hl = self.hl();
        match i {
            Instructions::RLC_r8(r) => self.shift_reg(m, ShiftOp::Rlc, r),
            Instructions::RRC_r8(r) => self.shift_reg(m, ShiftOp::Rrc, r),
            Instructions::RL_r8(r) => self.shift_reg(m, ShiftOp::Rl, r),
            Instructions::RR_r8(r) => self.shift_reg(m, ShiftOp::Rr, r),
            Instructions::SLA_r8(r) => self.shift_reg(m, ShiftOp::Sla, r),
            Instructions::SRA_r8(r) => self.shift_reg(m, ShiftOp::Sra, r),
            Instructions::SWAP_r8(r) => self.shift_reg(m, ShiftOp::Swap, r),
            Instructions::SRL_r8(r) => self.shift_reg(m, ShiftOp::Srl, r),
            Instructions::RLC_HL => self.shift_mem(m, ShiftOp::Rlc),
            Instructions::RRC_HL => self.shift_mem(m, ShiftOp::Rrc),
            Instructions::RL_HL => self.shift_mem(m, ShiftOp::Rl),
            Instructions::RR_HL => self.shift_mem(m, ShiftOp::Rr),
            Instructions::SLA_HL => self.shift_mem(m, ShiftOp::Sla),
            Instructions::SRA_HL => self.shift_mem(m, ShiftOp::Sra),
            Instructions::SWAP_HL => self.shift_mem(m, ShiftOp::Swap),
            Instructions::SRL_HL => self.shift_mem(m, ShiftOp::Srl),
            Instructions::BIT_u3_r8(b, r) => (self.bit_test(b, self.get8(r)), m),
            Instructions::BIT_u3_HL(b) => (self.bit_test(b, m[hl as int]), m),
            Instructions::RES_u3_r8(b, r) => (self.set8(r, self.get8(r) & !(1u8 << (b % 8))), m),
            Instructions::RES_u3_HL(b) => (self, write_spec(m, hl, m[hl as int] & !(1u8 << (b % 8)))),
            Instructions::SET_u3_r8(b, r) => (self.set8(r, self.get8(r) | (1u8 << (b % 8))), m),
            Instructions::SET_u3_HL(b) => (self, write_spec(m, hl, m[hl as int] | (1u8 << (b % 8)))),
            _ => (self, m),
        }
    }

    pub open spec fn shift_reg(self, m: Seq<u8>, op: ShiftOp, r: Registers8) -> (CPU, Seq<u8>) {
        let (c, v) = self.shifted(op, self.get8(r));
        (c.set8(r, v), m)
    }

    pub open spec fn shift_mem(self, m: Seq<u8>, op: ShiftOp) -> (CPU, Seq<u8>) {
        let hl = self.hl();
        let (c, v) = self.shifted(op, m[hl as int]);
        (c, write_spec(m, hl, v))
    }
}

impl CPU {
    pub open spec fn is_load(i: Instructions) -> bool {
        i is LD_r8_r8
            || i is LD_r8_n8
            || i is LD_r16_r16
            || i is LD_r16_n16
            || i is LD_HL_r8
            || i is LD_HL_n8
            || i is LD_r8_HL
            || i is LD_r16_A
            || i is LD_n16_A
            || i is LDH_n16_A
            || i is LDH_C_A
            || i is LD_A_r16
            || i is LD_A_n16
            || i is LDH_A_n16
            || i is LDH_A_C
            || i is LD_HLI_A
            || i is LD_HLD_A
            || i is LD_A_HLI
            || i is LD_A_HLD
    }

    /// 8-bit and 16-bit loads and stores.
    pub open spec fn load_spec(self, m: Seq<u8>, i: Instructions) -> (CPU, Seq<u8>) {
        let c = self;
        let hl = c.hl();
        let a = c.registers.a;
        match i {
            Instructions::LD_r8_r8(d, s) => (c.set8(d, c.get8(s)), m),
            Instructions::LD_r8_n8(d) => (c.advance(1).set8(d, c.imm8(m)), m),
            Instructions::LD_r16_r16(d, s) => (c.set16(d, c.get16(s)), m),
            Instructions::LD_r16_n16(d) => (c.advance(2).set16(d, c.imm16(m)), m),
            Instructions::LD_HL_r8(s) => (c, write_spec(m, hl, c.get8(s))),
            Instructions::LD_HL_n8 => (c.advance(1), write_spec(m, hl, c.imm8(m))),
            Instructions::LD_r8_HL(d) => (c.set8(d, m[hl as int]), m),
            Instructions::LD_r16_A(d) => (c, write_spec(m, c.get16(d), a)),
            Instructions::LD_n16_A => (c.advance(2), write_spec(m, c.imm16(m), a)),
            Instructions::LDH_n16_A => (c.advance(1), write_spec(m, (0xFF00 + c.imm8(m)) as u16, a)),
            Instructions::LDH_C_A => (c, write_spec(m, (0xFF00 + c.registers.c) as u16, a)),
            Instructions::LD_A_r16(s) => (c.set8(Registers8::A, m[c.get16(s) as int]), m),
            Instructions::LD_A_n16 => (c.advance(2).set8(Registers8::A, m[c.imm16(m) as int]), m),
            Instructions::LDH_A_n16 => (c.advance(1).set8(Registers8::A, m[0xFF00 + c.imm8(m)]), m),
            Instructions::LDH_A_C => (c.set8(Registers8::A, m[0xFF00 + c.registers.c]), m),
            Instructions::LD_HLI_A => (c.set16(Registers16::HL, wrap16(hl + 1)), write_spec(m, hl, a)),
            Instructions::LD_HLD_A => (c.set16(Registers16::HL, wrap16(hl - 1)), write_spec(m, hl, a)),
            Instructions::LD_A_HLI => (c.set8(Registers8::A, m[hl as int]).set16(Registers16::HL, wrap16(hl + 1)), m),
            Instructions::LD_A_HLD => (c.set8(Registers8::A, m[hl as int]).set16(Registers16::HL, wrap16(hl - 1)), m),
            _ => (c, m),
        }
    }

    pub open spec fn is_alu(i: Instructions) -> bool {
        i is ADD_A_r8
            || i is ADD_A_HL
            || i is ADD_A_n8
            || i is ADC_A_r8
            || i is ADC_A_HL
            || i is ADC_A_n8
            || i is SUB_A_r8
            || i is SUB_A_HL
            || i is SUB_A_n8
            || i is SBC_A_r8
            || i is SBC_A_HL
            || i is SBC_A_n8
            || i is AND_A_r8
            || i is AND_A_HL
            || i is AND_A_n8
            || i is XOR_A_r8
            || i is XOR_A_HL
            || i is XOR_A_n8
            || i is OR_A_r8
            || i is OR_A_HL
            || i is OR_A_n8
            || i is CP_A_r8
            || i is CP_A_HL
            || i is CP_A_n8
    }

    /// `op A, x` for the eight ALU operations.
    pub open spec fn arith_spec(self, m: Seq<u8>, i: Instructions) -> (CPU, Seq<u8>) {
        let c = self;
        let hl = c.hl();
        let a = c.registers.a;
        match i {
            Instructions::ADD_A_r8(s) => (c.alu_a(AluOp::Add, c.get8(s)), m),
            Instructions::ADD_A_HL => (c.alu_a(AluOp::Add, m[hl as int]), m),
            Instructions::ADD_A_n8 => (c.advance(1).alu_a(AluOp::Add, c.imm8(m)), m),
            Instructions::ADC_A_r8(s) => (c.alu_a(AluOp::Adc, c.get8(s)), m),
            Instructions::ADC_A_HL => (c.alu_a(AluOp::Adc, m[hl as int]), m),
            Instructions::ADC_A_n8 => (c.advance(1).alu_a(AluOp::Adc, c.imm8(m)), m),
            Instructions::SUB_A_r8(s) => (c.alu_a(AluOp::Sub, c.get8(s)), m),
            Instructions::SUB_A_HL => (c.alu_a(AluOp::Sub, m[hl as int]), m),
            Instructions::SUB_A_n8 => (c.advance(1).alu_a(AluOp::Sub, c.imm8(m)), m),
            Instructions::SBC_A_r8(s) => (c.alu_a(AluOp::Sbc, c.get8(s)), m),
            Instructions::SBC_A_HL => (c.alu_a(AluOp::Sbc, m[hl as int]), m),
            Instructions::SBC_A_n8 => (c.advance(1).alu_a(AluOp::Sbc, c.imm8(m)), m),
            Instructions::AND_A_r8(s) => (c.alu_a(AluOp::And, c.get8(s)), m),
            Instructions::AND_A_HL => (c.alu_a(AluOp::And, m[hl as int]), m),
            Instructions::AND_A_n8 => (c.advance(1).alu_a(AluOp::And, c.imm8(m)), m),
            Instructions::XOR_A_r8(s) => (c.alu_a(AluOp::Xor, c.get8(s)), m),
            Instructions::XOR_A_HL => (c.alu_a(AluOp::Xor, m[hl as int]), m),
            Instructions::XOR_A_n8 => (c.advance(1).alu_a(AluOp::Xor, c.imm8(m)), m),
            Instructions::OR_A_r8(s) => (c.alu_a(AluOp::Or, c.get8(s)), m),
            Instructions::OR_A_HL => (c.alu_a(AluOp::Or, m[hl as int]), m),
            Instructions::OR_A_n8 => (c.advance(1).alu_a(AluOp::Or, c.imm8(m)), m),
            Instructions::CP_A_r8(s) => (c.alu_a(AluOp::Cp, c.get8(s)), m),
            Instructions::CP_A_HL => (c.alu_a(AluOp::Cp, m[hl as int]), m),
            Instructions::CP_A_n8 => (c.advance(1).alu_a(AluOp::Cp, c.imm8(m)), m),
            _ => (c, m),
        }
    }

    pub open spec fn is_misc(i: Instructions) -> bool {
        i is INC_r8
            || i is DEC_r8
            || i is INC_HL
            || i is DEC_HL
            || i is CPL
            || i is CCF
            || i is SCF
            || i is DAA
            || i is RLCA
            || i is RRCA
            || i is RLA
            || i is RRA
    }

    /// INC, DEC, the A-only rotates and the flag and decimal-adjust instructions on A.
    pub open spec fn misc_spec(self, m: Seq<u8>, i: Instructions) -> (CPU, Seq<u8>) {
        let c = self;
        let hl = c.hl();
        let a = c.registers.a;
        match i {
            Instructions::INC_r8(r) => {
                let (v, z, h) = inc_spec(c.get8(r));
                (c.flags(z, false, h, c.registers.carry).set8(r, v), m)
            },
            Instructions::DEC_r8(r) => {
                let (v, z, h) = dec_spec(c.get8(r));
                (c.flags(z, true, h, c.registers.carry).set8(r, v), m)
            },
            Instructions::INC_HL => {
                let (v, z, h) = inc_spec(m[hl as int]);
                (c.flags(z, false, h, c.registers.carry), write_spec(m, hl, v))
            },
            Instructions::DEC_HL => {
                let (v, z, h) = dec_spec(m[hl as int]);
                (c.flags(z, true, h, c.registers.carry), write_spec(m, hl, v))
            },
            Instructions::CPL => (c.flags(c.registers.zero, true, true, c.registers.carry).set8(Registers8::A, !a), m),
            Instructions::CCF => (c.flags(c.registers.zero, false, false, !c.registers.carry), m),
            Instructions::SCF => (c.flags(c.registers.zero, false, false, true), m),
            Instructions::DAA => {
                let (v, cy) = daa_spec(a, c.registers.subtraction, c.registers.half_carry, c.registers.carry);
                (c.flags(v == 0, c.registers.subtraction, false, cy).set8(Registers8::A, v), m)
            },
            Instructions::RLCA => (c.rotate_a(ShiftOp::Rlc), m),
            Instructions::RRCA => (c.rotate_a(ShiftOp::Rrc), m),
            Instructions::RLA => (c.rotate_a(ShiftOp::Rl), m),
            Instructions::RRA => (c.rotate_a(ShiftOp::Rr), m),
            _ => (c, m),
        }
    }

    pub open spec fn is_control(i: Instructions) -> bool {
        i is JP_HL
            || i is JP_n16
            || i is JP_cc_n16
            || i is JR_n16
            || i is JR_cc_n16
            || i is CALL_n16
            || i is CALL_cc_n16
            || i is RET
            || i is RET_cc
            || i is RETI
            || i is RST
    }

    /// Jumps, calls, returns and restarts.
    pub open spec fn control_spec(self, m: Seq<u8>, i: Instructions) -> (CPU, Seq<u8>) {
        let c = self;
        let hl = c.hl();
        let a = c.registers.a;
        match i {
            Instructions::JP_HL => (c.jump(hl), m),
            Instructions::JP_n16 => (c.jump(c.imm16(m)), m),
            Instructions::JP_cc_n16(cc) => (if c.condition(cc) { c.jump(c.imm16(m)) } else { c.advance(2) }, m),
            Instructions::JR_n16 => (c.advance(1).jump(jr_target(c.advance(1).registers.pc, c.imm8(m))), m),
            Instructions::JR_cc_n16(cc) => (
                if c.condition(cc) {
                    c.advance(1).jump(jr_target(c.advance(1).registers.pc, c.imm8(m)))
                } else {
                    c.advance(1)
                },
                m,
            ),
            Instructions::CALL_n16 => {
                let (c2, m2) = c.advance(2).push(m, c.advance(2).registers.pc);
                (c2.jump(c.imm16(m)), m2)
            },
            Instructions::CALL_cc_n16(cc) => {
                if c.condition(cc) {
                    let (c2, m2) = c.advance(2).push(m, c.advance(2).registers.pc);
                    (c2.jump(c.imm16(m)), m2)
                } else {
                    (c.advance(2), m)
                }
            },
            Instructions::RET => (c.popped().jump(c.top(m)), m),
            Instructions::RET_cc(cc) => (if c.condition(cc) { c.popped().jump(c.top(m)) } else { c }, m),
            Instructions::RETI => (CPU { status: IME::Enabled, ..c.popped().jump(c.top(m)) }, m),
            Instructions::RST(t) => {
                let (c2, m2) = c.push(m, c.registers.pc);
                (c2.jump(t as u16), m2)
            },
            _ => (c, m),
        }
    }

    pub open spec fn is_word(i: Instructions) -> bool {
        i is ADD_HL_SP
            || i is INC_SP
            || i is DEC_SP
            || i is LD_SP_n16
            || i is ADD_HL_r16
            || i is INC_r16
            || i is DEC_r16
            || i is ADD_SP_e8
            || i is LD_HL_SP_e8
            || i is LD_n16_SP
            || i is LD_SP_HL
            || i is POP_AF
            || i is POP_r16
            || i is PUSH_AF
            || i is PUSH_r16
    }

    /// 16-bit arithmetic and the stack.
    pub open spec fn word_spec(self, m: Seq<u8>, i: Instructions) -> (CPU, Seq<u8>) {
        let c = self;
        let hl = c.hl();
        let a = c.registers.a;
        match i {
            Instructions::ADD_HL_SP => {
                let (v, h, cy) = add16_spec(hl, c.registers.sp);
                (c.flags(c.registers.zero, false, h, cy).set16(Registers16::HL, v), m)
            },
            Instructions::INC_SP => (c.set16(Registers16::SP, wrap16(c.registers.sp + 1)), m),
            Instructions::DEC_SP => (c.set16(Registers16::SP, wrap16(c.registers.sp - 1)), m),
            Instructions::LD_SP_n16 => (c.advance(2).set16(Registers16::SP, c.imm16(m)), m),
            Instructions::ADD_HL_r16(r) => {
                let (v, h, cy) = add16_spec(hl, c.get16(r));
                (c.flags(c.registers.zero, false, h, cy).set16(Registers16::HL, v), m)
            },
            Instructions::INC_r16(r) => (c.set16(r, wrap16(c.get16(r) + 1)), m),
            Instructions::DEC_r16(r) => (c.set16(r, wrap16(c.get16(r) - 1)), m),
            Instructions::ADD_SP_e8 => {
                let (v, h, cy) = add_sp_spec(c.registers.sp, c.imm8(m));
                (c.advance(1).flags(false, false, h, cy).set16(Registers16::SP, v), m)
            },
            Instructions::LD_HL_SP_e8 => {
                let (v, h, cy) = add_sp_spec(c.registers.sp, c.imm8(m));
                (c.advance(1).flags(false, false, h, cy).set16(Registers16::HL, v), m)
            },
            Instructions::LD_n16_SP => (c.advance(2), write16(m, c.imm16(m), c.registers.sp)),
            Instructions::LD_SP_HL => (c.set16(Registers16::SP, hl), m),
            Instructions::POP_AF => (c.popped().set16(Registers16::AF, c.top(m)), m),
            Instructions::POP_r16(r) => (c.popped().set16(r, c.top(m)), m),
            Instructions::PUSH_AF => c.push(m, c.get16(Registers16::AF)),
            Instructions::PUSH_r16(r) => c.push(m, c.get16(r)),
            _ => (c, m),
        }
    }

    /// What executing `i` does to the processor and to the 64 KiB address space `m`. PC
    /// already points past the opcode; immediate operands are read from PC on.
    pub open spec fn exec_spec(self, m: Seq<u8>, i: Instructions) -> (CPU, Seq<u8>) {
        let c = self;
        let hl = c.hl();
        let a = c.registers.a;
        match i {
            Instructions::NONE | Instructions::NOP => (c, m),
            Instructions::PREFIX => c.advance(1).prefixed_spec(m, decode_prefixed_spec(c.imm8(m))),
            Instructions::DI => (CPU { status: IME::Disabled, enable_ime_next_cycle: false, ..c }, m),
            Instructions::EI => (CPU { enable_ime_next_cycle: true, ..c }, m),
            Instructions::HALT | Instructions::STOP => (CPU { halted: true, ..c }, m),
            _ => if CPU::is_load(i) {
                c.load_spec(m, i)
            } else if CPU::is_alu(i) {
                c.arith_spec(m, i)
            } else if CPU::is_misc(i) {
                c.misc_spec(m, i)
            } else if CPU::is_control(i) {
                c.control_spec(m, i)
            } else if CPU::is_word(i) {
                c.word_spec(m, i)
            } else {
                c.prefixed_spec(m, i)
            },
        }
    }

    /// One step: a halted processor does nothing; otherwise the opcode at PC is fetched,
    /// PC moves past it and the instruction runs. An EI that was pending before the step
    /// (and not cancelled by it) turns the interrupt master enable on after it.
    pub open spec fn step_spec(self, m: Seq<u8>) -> (CPU, Seq<u8>) {
        if self.halted {
            (self, m)
        } else {
            let (c, m2) = self.advance(1).exec_spec(m, decode_spec(m[self.registers.pc as int]));
            if self.enable_ime_next_cycle && c.enable_ime_next_cycle {
                (CPU { status: IME::Enabled, enable_ime_next_cycle: false, ..c }, m2)
            } else {
                (c, m2)
            }
        }
    }
}


impl CPU {
    pub fn new() -> (r: CPU)
        ensures
            r.registers == Registers::new_spec(),
            r.status == IME::Disabled,
            !r.enable_ime_next_cycle,
            !r.halted,
    {
        CPU { registers: Registers::new(), status: IME::Disabled, enable_ime_next_cycle: false, halted: false }
    }

    /// Prepares to run a cartridge: PC at its entry point, interrupts enabled.
    pub fn start(&mut self, cartridge: &Cartridge)
        ensures
            *final(self) == (CPU { status: IME::Enabled, ..old(self).jump(ENTRY_POINT as u16) }),
    {
        self.set_status(IME::Enabled);
        let entry_point: u16 = cartridge.get_entry_point();
        self.registers.set_program_counter(entry_point);
    }

    pub fn get_status(&self) -> (r: IME)
        ensures
            r == self.status,
    {
        self.status
    }

    pub fn set_status(&mut self, status: IME)
        ensures
            *final(self) == (CPU { status, ..*old(self) }),
    {
        self.status = status;
    }

    /// Runs one instruction (nothing while halted); see `step_spec`.
    pub fn step(&mut self, mmu: &mut MMU)
        ensures
            (*final(self), final(mmu)@) == old(self).step_spec(old(mmu)@),
            final(mmu).same_config(old(mmu)),
    {
        if self.halted {
            return;
        }
        let arming: bool = self.enable_ime_next_cycle;
        let pc: u16 = self.registers.get_program_counter();
        let opcode: u8 = mmu.read_memory(pc);
        let instruction: Instructions = Instructions::get_instruction(opcode);
        self.registers.increase_program_counter(1);
        self.execute(mmu, instruction);
        if arming && self.enable_ime_next_cycle {
            self.status = IME::Enabled;
            self.enable_ime_next_cycle = false;
        }
    }

    /// Executes a decoded instruction; PC must already point past its opcode.
    pub fn execute(&mut self, mmu: &mut MMU, instruction: Instructions)
        ensures
            (*final(self), final(mmu)@) == old(self).exec_spec(old(mmu)@, instruction),
            final(mmu).same_config(old(mmu)),
    {
        match instruction {
            Instructions::NONE | Instructions::NOP => {},
            Instructions::PREFIX => self.prefix(mmu),
            Instructions::DI => self.di(),
            Instructions::EI => self.ei(),
            Instructions::HALT => self.halt(),
            Instructions::STOP => self.stop(),
            _ => {
                if CPU::is_load_exec(&instruction) {
                    self.execute_load(mmu, instruction);
                } else if CPU::is_alu_exec(&instruction) {
                    self.execute_alu(mmu, instruction);
                } else if CPU::is_misc_exec(&instruction) {
                    self.execute_misc(mmu, instruction);
                } else if CPU::is_control_exec(&instruction) {
                    self.execute_control(mmu, instruction);
                } else if CPU::is_word_exec(&instruction) {
                    self.execute_word(mmu, instruction);
                } else {
                    self.execute_prefixed(mmu, instruction);
                }
            },
        }
    }

    fn is_load_exec(i: &Instructions) -> (r: bool)
        ensures
            r == CPU::is_load(*i),
    {
        match i {
            Instructions::LD_r8_r8(..)
            | Instructions::LD_r8_n8(..)
            | Instructions::LD_r16_r16(..)
            | Instructions::LD_r16_n16(..)
            | Instructions::LD_HL_r8(..)
            | Instructions::LD_HL_n8
            | Instructions::LD_r8_HL(..)
            | Instructions::LD_r16_A(..)
            | Instructions::LD_n16_A
            | Instructions::LDH_n16_A
            | Instructions::LDH_C_A
            | Instructions::LD_A_r16(..)
            | Instructions::LD_A_n16
            | Instructions::LDH_A_n16
            | Instructions::LDH_A_C
            | Instructions::LD_HLI_A
            | Instructions::LD_HLD_A
            | Instructions::LD_A_HLI
            | Instructions::LD_A_HLD => true,
            _ => false,
        }
    }

    /// Executes one of the loads.
    fn execute_load(&mut self, mmu: &mut MMU, instruction: Instructions)
        requires
            CPU::is_load(instruction),
        ensures
            (*final(self), final(mmu)@) == old(self).load_spec(old(mmu)@, instruction),
            final(mmu).same_config(old(mmu)),
    {
        match instruction {
            Instructions::LD_r8_r8(destination, source) => self.ld_r8_r8(destination, source),
            Instructions::LD_r8_n8(destination) => self.ld_r8_n8(mmu, destination),
            Instructions::LD_r16_r16(destination, source) => self.ld_r16_r16(destination, source),
            Instructions::LD_r16_n16(destination) => self.ld_r16_n16(mmu, destination),
            Instructions::LD_HL_r8(source) => self.ld_hl_r8(mmu, source),
            Instructions::LD_HL_n8 => self.ld_hl_n8(mmu),
            Instructions::LD_r8_HL(destination) => self.ld_r8_hl(mmu, destination),
            Instructions::LD_r16_A(destination) => self.ld_r16_a(mmu, destination),
            Instructions::LD_n16_A => self.ld_n16_a(mmu),
            Instructions::LDH_n16_A => self.ldh_n16_a(mmu),
            Instructions::LDH_C_A => self.ldh_c_a(mmu),
            Instructions::LD_A_r16(source) => self.ld_a_r16(mmu, source),
            Instructions::LD_A_n16 => self.ld_a_n16(mmu),
            Instructions::LDH_A_n16 => self.ldh_a_n16(mmu),
            Instructions::LDH_A_C => self.ldh_a_c(mmu),
            Instructions::LD_HLI_A => self.ld_hli_a(mmu),
            Instructions::LD_HLD_A => self.ld_hld_a(mmu),
            Instructions::LD_A_HLI => self.ld_a_hli(mmu),
            Instructions::LD_A_HLD => self.ld_a_hld(mmu),
            _ => {},
        }
    }

    fn is_alu_exec(i: &Instructions) -> (r: bool)
        ensures
            r == CPU::is_alu(*i),
    {
        match i {
            Instructions::ADD_A_r8(..)
            | Instructions::ADD_A_HL
            | Instructions::ADD_A_n8
            | Instructions::ADC_A_r8(..)
            | Instructions::ADC_A_HL
            | Instructions::ADC_A_n8
            | Instructions::SUB_A_r8(..)
            | Instructions::SUB_A_HL
            | Instructions::SUB_A_n8
            | Instructions::SBC_A_r8(..)
            | Instructions::SBC_A_HL
            | Instructions::SBC_A_n8
            | Instructions::AND_A_r8(..)
            | Instructions::AND_A_HL
            | Instructions::AND_A_n8
            | Instructions::XOR_A_r8(..)
            | Instructions::XOR_A_HL
            | Instructions::XOR_A_n8
            | Instructions::OR_A_r8(..)
            | Instructions::OR_A_HL
            | Instructions::OR_A_n8
            | Instructions::CP_A_r8(..)
            | Instructions::CP_A_HL
            | Instructions::CP_A_n8 => true,
            _ => false,
        }
    }

    /// Executes one of the ALU operations on A.
    fn execute_alu(&mut self, mmu: &mut MMU, instruction: Instructions)
        requires
            CPU::is_alu(instruction),
        ensures
            (*final(self), final(mmu)@) == old(self).arith_spec(old(mmu)@, instruction),
            final(mmu).same_config(old(mmu)),
    {
        match instruction {
            Instructions::ADD_A_r8(source) => self.add_a_r8(source),
            Instructions::ADD_A_HL => self.add_a_hl(mmu),
            Instructions::ADD_A_n8 => self.add_a_n8(mmu),
            Instructions::ADC_A_r8(source) => self.adc_a_r8(source),
            Instructions::ADC_A_HL => self.adc_a_hl(mmu),
            Instructions::ADC_A_n8 => self.adc_a_n8(mmu),
            Instructions::SUB_A_r8(source) => self.sub_a_r8(source),
            Instructions::SUB_A_HL => self.sub_a_hl(mmu),
            Instructions::SUB_A_n8 => self.sub_a_n8(mmu),
            Instructions::SBC_A_r8(source) => self.sbc_a_r8(source),
            Instructions::SBC_A_HL => self.sbc_a_hl(mmu),
            Instructions::SBC_A_n8 => self.sbc_a_n8(mmu),
            Instructions::AND_A_r8(source) => self.and_a_r8(source),
            Instructions::AND_A_HL => self.and_a_hl(mmu),
            Instructions::AND_A_n8 => self.and_a_n8(mmu),
            Instructions::XOR_A_r8(source) => self.xor_a_r8(source),
            Instructions::XOR_A_HL => self.xor_a_hl(mmu),
            Instructions::XOR_A_n8 => self.xor_a_n8(mmu),
            Instructions::OR_A_r8(source) => self.or_a_r8(source),
            Instructions::OR_A_HL => self.or_a_hl(mmu),
            Instructions::OR_A_n8 => self.or_a_n8(mmu),
            Instructions::CP_A_r8(source) => self.cp_a_r8(source),
            Instructions::CP_A_HL => self.cp_a_hl(mmu),
            Instructions::CP_A_n8 => self.cp_a_n8(mmu),
            _ => {},
        }
    }

    fn is_misc_exec(i: &Instructions) -> (r: bool)
        ensures
            r == CPU::is_misc(*i),
    {
        match i {
            Instructions::INC_r8(..)
            | Instructions::DEC_r8(..)
            | Instructions::INC_HL
            | Instructions::DEC_HL
            | Instructions::CPL
            | Instructions::CCF
            | Instructions::SCF
            | Instructions::DAA
            | Instructions::RLCA
            | Instructions::RRCA
            | Instructions::RLA
            | Instructions::RRA => true,
            _ => false,
        }
    }

    /// Executes one of the INC, DEC and the instructions on A and the flags.
    fn execute_misc(&mut self, mmu: &mut MMU, instruction: Instructions)
        requires
            CPU::is_misc(instruction),
        ensures
            (*final(self), final(mmu)@) == old(self).misc_spec(old(mmu)@, instruction),
            final(mmu).same_config(old(mmu)),
    {
        match instruction {
            Instructions::INC_r8(target) => self.inc_r8(target),
            Instructions::DEC_r8(target) => self.dec_r8(target),
            Instructions::INC_HL => self.inc_hl(mmu),
            Instructions::DEC_HL => self.dec_hl(mmu),
            Instructions::CPL => self.cpl(),
            Instructions::CCF => self.ccf(),
            Instructions::SCF => self.scf(),
            Instructions::DAA => self.daa(),
            Instructions::RLCA => self.rlca(),
            Instructions::RRCA => self.rrca(),
            Instructions::RLA => self.rla(),
            Instructions::RRA => self.rra(),
            _ => {},
        }
    }

    fn is_control_exec(i: &Instructions) -> (r: bool)
        ensures
            r == CPU::is_control(*i),
    {
        match i {
            Instructions::JP_HL
            | Instructions::JP_n16
            | Instructions::JP_cc_n16(..)
            | Instructions::JR_n16
            | Instructions::JR_cc_n16(..)
            | Instructions::CALL_n16
            | Instructions::CALL_cc_n16(..)
            | Instructions::RET
            | Instructions::RET_cc(..)
            | Instructions::RETI
            | Instructions::RST(..) => true,
            _ => false,
        }
    }

    /// Executes one of the jumps, calls and returns.
    fn execute_control(&mut self, mmu: &mut MMU, instruction: Instructions)
        requires
            CPU::is_control(instruction),
        ensures
            (*final(self), final(mmu)@) == old(self).control_spec(old(mmu)@, instruction),
            final(mmu).same_config(old(mmu)),
    {
        match instruction {
            Instructions::JP_HL => self.jp_hl(),
            Instructions::JP_n16 => self.jp_n16(mmu),
            Instructions::JP_cc_n16(condition) => self.jp_cc_n16(mmu, condition),
            Instructions::JR_n16 => self.jr_n16(mmu),
            Instructions::JR_cc_n16(condition) => self.jr_cc_n16(mmu, condition),
            Instructions::CALL_n16 => self.call_n16(mmu),
            Instructions::CALL_cc_n16(condition) => self.call_cc_n16(mmu, condition),
            Instructions::RET => self.ret(mmu),
            Instructions::RET_cc(condition) => self.ret_cc(mmu, condition),
            Instructions::RETI => self.reti(mmu),
            Instructions::RST(target) => self.rst(mmu, target),
            _ => {},
        }
    }

    fn is_word_exec(i: &Instructions) -> (r: bool)
        ensures
            r == CPU::is_word(*i),
    {
        match i {
            Instructions::ADD_HL_SP
            | Instructions::INC_SP
            | Instructions::DEC_SP
            | Instructions::LD_SP_n16
            | Instructions::ADD_HL_r16(..)
            | Instructions::INC_r16(..)
            | Instructions::DEC_r16(..)
            | Instructions::ADD_SP_e8
            | Instructions::LD_HL_SP_e8
            | Instructions::LD_n16_SP
            | Instructions::LD_SP_HL
            | Instructions::POP_AF
            | Instructions::POP_r16(..)
            | Instructions::PUSH_AF
            | Instructions::PUSH_r16(..) => true,
            _ => false,
        }
    }

    /// Executes one of the 16-bit arithmetic and stack operations.
    fn execute_word(&mut self, mmu: &mut MMU, instruction: Instructions)
        requires
            CPU::is_word(instruction),
        ensures
            (*final(self), final(mmu)@) == old(self).word_spec(old(mmu)@, instruction),
            final(mmu).same_config(old(mmu)),
    {
        match instruction {
            Instructions::ADD_HL_SP => self.add_hl_sp(),
            Instructions::INC_SP => self.inc_sp(),
            Instructions::DEC_SP => self.dec_sp(),
            Instructions::LD_SP_n16 => self.ld_sp_n16(mmu),
            Instructions::ADD_HL_r16(source) => self.add_hl_r16(source),
            Instructions::INC_r16(target) => self.inc_r16(target),
            Instructions::DEC_r16(target) => self.dec_r16(target),
            Instructions::ADD_SP_e8 => self.add_sp_e8(mmu),
            Instructions::LD_HL_SP_e8 => self.ld_hl_sp_e8(mmu),
            Instructions::LD_n16_SP => self.ld_n16_sp(mmu),
            Instructions::LD_SP_HL => self.ld_sp_hl(),
            Instructions::POP_AF => self.pop_af(mmu),
            Instructions::POP_r16(target) => self.pop_r16(mmu, target),
            Instructions::PUSH_AF => self.push_af(mmu),
            Instructions::PUSH_r16(source) => self.push_r16(mmu, source),
            _ => {},
        }
    }

    /// Reads the opcode after the 0xCB prefix and executes it.
    fn prefix(&mut self, mmu: &mut MMU)
        ensures
            (*final(self), final(mmu)@) == old(self).advance(1).prefixed_spec(
                old(mmu)@,
                decode_prefixed_spec(old(self).imm8(old(mmu)@)),
            ),
            final(mmu).same_config(old(mmu)),
    {
        let opcode: u8 = self.fetch8(mmu);
        let instruction: Instructions = Instructions::get_instruction_prefixed(opcode);
        self.execute_prefixed(mmu, instruction);
    }

    /// Executes a rotate, shift or bit instruction of the CB table; any other
    /// instruction does nothing here.
    fn execute_prefixed(&mut self, mmu: &mut MMU, instruction: Instructions)
        ensures
            (*final(self), final(mmu)@) == old(self).prefixed_spec(old(mmu)@, instruction),
            final(mmu).same_config(old(mmu)),
    {
        match instruction {
            Instructions::RLC_r8(target) => self.rlc_r8(target),
            Instructions::RLC_HL => self.rlc_hl(mmu),
            Instructions::RRC_r8(target) => self.rrc_r8(target),
            Instructions::RRC_HL => self.rrc_hl(mmu),
            Instructions::RL_r8(target) => self.rl_r8(target),
            Instructions::RL_HL => self.rl_hl(mmu),
            Instructions::RR_r8(target) => self.rr_r8(target),
            Instructions::RR_HL => self.rr_hl(mmu),
            Instructions::SLA_r8(target) => self.sla_r8(target),
            Instructions::SLA_HL => self.sla_hl(mmu),
            Instructions::SRA_r8(target) => self.sra_r8(target),
            Instructions::SRA_HL => self.sra_hl(mmu),
            Instructions::SWAP_r8(target) => self.swap_r8(target),
            Instructions::SWAP_HL => self.swap_hl(mmu),
            Instructions::SRL_r8(target) => self.srl_r8(target),
            Instructions::SRL_HL => self.srl_hl(mmu),
            Instructions::BIT_u3_r8(bit, target) => self.bit_u3_r8(bit, target),
            Instructions::BIT_u3_HL(bit) => self.bit_u3_hl(mmu, bit),
            Instructions::RES_u3_r8(bit, target) => self.res_u3_r8(bit, target),
            Instructions::RES_u3_HL(bit) => self.res_u3_hl(mmu, bit),
            Instructions::SET_u3_r8(bit, target) => self.set_u3_r8(bit, target),
            Instructions::SET_u3_HL(bit) => self.set_u3_hl(mmu, bit),
            _ => {},
        }
    }

    /// Reads the byte at PC and moves PC past it.
    fn fetch8(&mut self, mmu: &MMU) -> (r: u8)
        ensures
            r == old(self).imm8(mmu@),
            *final(self) == old(self).advance(1),
    {
        let pc: u16 = self.registers.get_program_counter();
        let value: u8 = mmu.read_memory(pc);
        self.registers.increase_program_counter(1);
        value
    }

    /// Reads the little-endian word at PC and moves PC past it.
    fn fetch16(&mut self, mmu: &MMU) -> (r: u16)
        ensures
            r == old(self).imm16(mmu@),
            *final(self) == old(self).advance(2),
    {
        let pc: u16 = self.registers.get_program_counter();
        let low: u8 = mmu.read_memory(pc);
        let high: u8 = mmu.read_memory(pc.wrapping_add(1));
        self.registers.increase_program_counter(2);
        high as u16 * 256 + low as u16
    }

    fn push16(&mut self, mmu: &mut MMU, value: u16)
        ensures
            (*final(self), final(mmu)@) == old(self).push(old(mmu)@, value),
            final(mmu).same_config(old(mmu)),
    {
        let sp: u16 = self.registers.get_stack_pointer().wrapping_sub(2);
        mmu.write_memory(sp, (value % 256) as u8);
        mmu.write_memory(sp.wrapping_add(1), (value / 256) as u8);
        self.registers.set_register_16(Registers16::SP, sp);
    }

    fn pop16(&mut self, mmu: &MMU) -> (r: u16)
        ensures
            r == old(self).top(mmu@),
            *final(self) == old(self).popped(),
    {
        let sp: u16 = self.registers.get_stack_pointer();
        let low: u8 = mmu.read_memory(sp);
        let high: u8 = mmu.read_memory(sp.wrapping_add(1));
        self.registers.set_register_16(Registers16::SP, sp.wrapping_add(2));
        high as u16 * 256 + low as u16
    }

    fn condition_holds(&self, condition: Condition) -> (r: bool)
        ensures
            r == self.condition(condition),
    {
        match condition {
            Condition::NZ => self.registers.is_flag_down(Flags::Zero),
            Condition::Z => self.registers.is_flag_up(Flags::Zero),
            Condition::NC => self.registers.is_flag_down(Flags::Carry),
            Condition::C => self.registers.is_flag_up(Flags::Carry),
        }
    }

    fn apply_alu(&mut self, op: AluOp, value: u8)
        ensures
            *final(self) == old(self).alu_a(op, value),
    {
        let o: Outcome = alu(op, self.registers.a, value, self.registers.carry);
        self.registers.set_flags(o.z, o.n, o.h, o.c);
        if op != AluOp::Cp {
            self.registers.set_register_8(Registers8::A, o.value);
        }
    }

    fn shift_value(&mut self, op: ShiftOp, value: u8) -> (r: u8)
        ensures
            (*final(self), r) == old(self).shifted(op, value),
    {
        let (result, carry): (u8, bool) = shift(op, value, self.registers.carry);
        self.registers.set_flags(result == 0, false, false, carry);
        result
    }

    fn test_bit(&mut self, bit: u8, value: u8)
        ensures
            *final(self) == old(self).bit_test(bit, value),
    {
        let carry: bool = self.registers.carry;
        self.registers.set_flags((value >> (bit % 8)) & 1 == 0, false, true, carry);
    }
}

/// The target of a relative jump by the signed offset `e` from `pc`.
fn relative_target(pc: u16, e: u8) -> (r: u16)
    ensures
        r == jr_target(pc, e),
{
    if e < 128 {
        pc.wrapping_add(e as u16)
    } else {
        pc.wrapping_sub(256 - e as u16)
    }
}

impl CPU {
    fn ld_r8_r8(&mut self, destination: Registers8, source: Registers8)
        ensures
            *final(self) == old(self).set8(destination, old(self).get8(source)),
    {
        let value: u8 = self.registers.get_register_8(source);
        self.registers.set_register_8(destination, value);
    }

    fn ld_r8_n8(&mut self, mmu: &MMU, destination: Registers8)
        ensures
            *final(self) == old(self).advance(1).set8(destination, old(self).imm8(mmu@)),
    {
        let value: u8 = self.fetch8(mmu);
        self.registers.set_register_8(destination, value);
    }

    fn ld_r16_r16(&mut self, destination: Registers16, source: Registers16)
        ensures
            *final(self) == old(self).set16(destination, old(self).get16(source)),
    {
        let value: u16 = self.registers.get_register_16(source);
        self.registers.set_register_16(destination, value);
    }

    fn ld_r16_n16(&mut self, mmu: &MMU, destination: Registers16)
        ensures
            *final(self) == old(self).advance(2).set16(destination, old(self).imm16(mmu@)),
    {
        let value: u16 = self.fetch16(mmu);
        self.registers.set_register_16(destination, value);
    }

    fn ld_hl_r8(&mut self, mmu: &mut MMU, source: Registers8)
        ensures
            *final(self) == *old(self),
            final(mmu)@ == write_spec(old(mmu)@, old(self).hl(), old(self).get8(source)),
            final(mmu).same_config(old(mmu)),
    {
        let value: u8 = self.registers.get_register_8(source);
        let address: u16 = self.registers.get_register_16(Registers16::HL);
        mmu.write_memory(address, value);
    }

    fn ld_hl_n8(&mut self, mmu: &mut MMU)
        ensures
            *final(self) == old(self).advance(1),
            final(mmu)@ == write_spec(old(mmu)@, old(self).hl(), old(self).imm8(old(mmu)@)),
            final(mmu).same_config(old(mmu)),
    {
        let value: u8 = self.fetch8(mmu);
        let address: u16 = self.registers.get_register_16(Registers16::HL);
        mmu.write_memory(address, value);
    }

    fn ld_r8_hl(&mut self, mmu: &MMU, destination: Registers8)
        ensures
            *final(self) == old(self).set8(destination, mmu@[old(self).hl() as int]),
    {
        let address: u16 = self.registers.get_register_16(Registers16::HL);
        let value: u8 = mmu.read_memory(address);
        self.registers.set_register_8(destination, value);
    }

    fn ld_r16_a(&mut self, mmu: &mut MMU, destination: Registers16)
        ensures
            *final(self) == *old(self),
            final(mmu)@ == write_spec(old(mmu)@, old(self).get16(destination), old(self).registers.a),
            final(mmu).same_config(old(mmu)),
    {
        let address: u16 = self.registers.get_register_16(destination);
        let value: u8 = self.registers.get_register_8(Registers8::A);
        mmu.write_memory(address, value);
    }

    fn ld_n16_a(&mut self, mmu: &mut MMU)
        ensures
            *final(self) == old(self).advance(2),
            final(mmu)@ == write_spec(old(mmu)@, old(self).imm16(old(mmu)@), old(self).registers.a),
            final(mmu).same_config(old(mmu)),
    {
        let address: u16 = self.fetch16(mmu);
        let value: u8 = self.registers.get_register_8(Registers8::A);
        mmu.write_memory(address, value);
    }

    fn ldh_n16_a(&mut self, mmu: &mut MMU)
        ensures
            *final(self) == old(self).advance(1),
            final(mmu)@ == write_spec(old(mmu)@, (0xFF00 + old(self).imm8(old(mmu)@)) as u16, old(self).registers.a),
            final(mmu).same_config(old(mmu)),
    {
        let offset: u8 = self.fetch8(mmu);
        let value: u8 = self.registers.get_register_8(Registers8::A);
        mmu.write_memory(0xFF00 + offset as u16, value);
    }

    fn ldh_c_a(&mut self, mmu: &mut MMU)
        ensures
            *final(self) == *old(self),
            final(mmu)@ == write_spec(old(mmu)@, (0xFF00 + old(self).registers.c) as u16, old(self).registers.a),
            final(mmu).same_config(old(mmu)),
    {
        let offset: u8 = self.registers.get_register_8(Registers8::C);
        let value: u8 = self.registers.get_register_8(Registers8::A);
        mmu.write_memory(0xFF00 + offset as u16, value);
    }

    fn ld_a_r16(&mut self, mmu: &MMU, source: Registers16)
        ensures
            *final(self) == old(self).set8(Registers8::A, mmu@[old(self).get16(source) as int]),
    {
        let address: u16 = self.registers.get_register_16(source);
        let value: u8 = mmu.read_memory(address);
        self.registers.set_register_8(Registers8::A, value);
    }

    fn ld_a_n16(&mut self, mmu: &MMU)
        ensures
            *final(self) == old(self).advance(2).set8(Registers8::A, mmu@[old(self).imm16(mmu@) as int]),
    {
        let address: u16 = self.fetch16(mmu);
        let value: u8 = mmu.read_memory(address);
        self.registers.set_register_8(Registers8::A, value);
    }

    fn ldh_a_n16(&mut self, mmu: &MMU)
        ensures
            *final(self) == old(self).advance(1).set8(Registers8::A, mmu@[0xFF00 + old(self).imm8(mmu@)]),
    {
        let offset: u8 = self.fetch8(mmu);
        let value: u8 = mmu.read_memory(0xFF00 + offset as u16);
        self.registers.set_register_8(Registers8::A, value);
    }

    fn ldh_a_c(&mut self, mmu: &MMU)
        ensures
            *final(self) == old(self).set8(Registers8::A, mmu@[0xFF00 + old(self).registers.c]),
    {
        let offset: u8 = self.registers.get_register_8(Registers8::C);
        let value: u8 = mmu.read_memory(0xFF00 + offset as u16);
        self.registers.set_register_8(Registers8::A, value);
    }

    fn ld_hli_a(&mut self, mmu: &mut MMU)
        ensures
            *final(self) == old(self).set16(Registers16::HL, wrap16(old(self).hl() + 1)),
            final(mmu)@ == write_spec(old(mmu)@, old(self).hl(), old(self).registers.a),
            final(mmu).same_config(old(mmu)),
    {
        let address: u16 = self.registers.get_register_16(Registers16::HL);
        let value: u8 = self.registers.get_register_8(Registers8::A);
        mmu.write_memory(address, value);
        self.registers.set_register_16(Registers16::HL, address.wrapping_add(1));
    }

    fn ld_hld_a(&mut self, mmu: &mut MMU)
        ensures
            *final(self) == old(self).set16(Registers16::HL, wrap16(old(self).hl() - 1)),
            final(mmu)@ == write_spec(old(mmu)@, old(self).hl(), old(self).registers.a),
            final(mmu).same_config(old(mmu)),
    {
        let address: u16 = self.registers.get_register_16(Registers16::HL);
        let value: u8 = self.registers.get_register_8(Registers8::A);
        mmu.write_memory(address, value);
        self.registers.set_register_16(Registers16::HL, address.wrapping_sub(1));
    }

    fn ld_a_hli(&mut self, mmu: &MMU)
        ensures
            *final(self) == old(self).set8(Registers8::A, mmu@[old(self).hl() as int]).set16(Registers16::HL, wrap16(old(self).hl() + 1)),
    {
        let address: u16 = self.registers.get_register_16(Registers16::HL);
        let value: u8 = mmu.read_memory(address);
        self.registers.set_register_8(Registers8::A, value);
        self.registers.set_register_16(Registers16::HL, address.wrapping_add(1));
    }

    fn ld_a_hld(&mut self, mmu: &MMU)
        ensures
            *final(self) == old(self).set8(Registers8::A, mmu@[old(self).hl() as int]).set16(Registers16::HL, wrap16(old(self).hl() - 1)),
    {
        let address: u16 = self.registers.get_register_16(Registers16::HL);
        let value: u8 = mmu.read_memory(address);
        self.registers.set_register_8(Registers8::A, value);
        self.registers.set_register_16(Registers16::HL, address.wrapping_sub(1));
    }

    fn add_a_r8(&mut self, source: Registers8)
        ensures
            *final(self) == old(self).alu_a(AluOp::Add, old(self).get8(source)),
    {
        let value: u8 = self.registers.get_register_8(source);
        self.apply_alu(AluOp::Add, value);
    }

    fn add_a_hl(&mut self, mmu: &MMU)
        ensures
            *final(self) == old(self).alu_a(AluOp::Add, mmu@[old(self).hl() as int]),
    {
        let address: u16 = self.registers.get_register_16(Registers16::HL);
        let value: u8 = mmu.read_memory(address);
        self.apply_alu(AluOp::Add, value);
    }

    fn add_a_n8(&mut self, mmu: &MMU)
        ensures
            *final(self) == old(self).advance(1).alu_a(AluOp::Add, old(self).imm8(mmu@)),
    {
        let value: u8 = self.fetch8(mmu);
        self.apply_alu(AluOp::Add, value);
    }

    fn adc_a_r8(&mut self, source: Registers8)
        ensures
            *final(self) == old(self).alu_a(AluOp::Adc, old(self).get8(source)),
    {
        let value: u8 = self.registers.get_register_8(source);
        self.apply_alu(AluOp::Adc, value);
    }

    fn adc_a_hl(&mut self, mmu: &MMU)
        ensures
            *final(self) == old(self).alu_a(AluOp::Adc, mmu@[old(self).hl() as int]),
    {
        let address: u16 = self.registers.get_register_16(Registers16::HL);
        let value: u8 = mmu.read_memory(address);
        self.apply_alu(AluOp::Adc, value);
    }

    fn adc_a_n8(&mut self, mmu: &MMU)
        ensures
            *final(self) == old(self).advance(1).alu_a(AluOp::Adc, old(self).imm8(mmu@)),
    {
        let value: u8 = self.fetch8(mmu);
        self.apply_alu(AluOp::Adc, value);
    }

    fn sub_a_r8(&mut self, source: Registers8)
        ensures
            *final(self) == old(self).alu_a(AluOp::Sub, old(self).get8(source)),
    {
        let value: u8 = self.registers.get_register_8(source);
        self.apply_alu(AluOp::Sub, value);
    }

    fn sub_a_hl(&mut self, mmu: &MMU)
        ensures
            *final(self) == old(self).alu_a(AluOp::Sub, mmu@[old(self).hl() as int]),
    {
        let address: u16 = self.registers.get_register_16(Registers16::HL);
        let value: u8 = mmu.read_memory(address);
        self.apply_alu(AluOp::Sub, value);
    }

    fn sub_a_n8(&mut self, mmu: &MMU)
        ensures
            *final(self) == old(self).advance(1).alu_a(AluOp::Sub, old(self).imm8(mmu@)),
    {
        let value: u8 = self.fetch8(mmu);
        self.apply_alu(AluOp::Sub, value);
    }

    fn sbc_a_r8(&mut self, source: Registers8)
        ensures
            *final(self) == old(self).alu_a(AluOp::Sbc, old(self).get8(source)),
    {
        let value: u8 = self.registers.get_register_8(source);
        self.apply_alu(AluOp::Sbc, value);
    }

    fn sbc_a_hl(&mut self, mmu: &MMU)
        ensures
            *final(self) == old(self).alu_a(AluOp::Sbc, mmu@[old(self).hl() as int]),
    {
        let address: u16 = self.registers.get_register_16(Registers16::HL);
        let value: u8 = mmu.read_memory(address);
        self.apply_alu(AluOp::Sbc, value);
    }

    fn sbc_a_n8(&mut self, mmu: &MMU)
        ensures
            *final(self) == old(self).advance(1).alu_a(AluOp::Sbc, old(self).imm8(mmu@)),
    {
        let value: u8 = self.fetch8(mmu);
        self.apply_alu(AluOp::Sbc, value);
    }

    fn and_a_r8(&mut self, source: Registers8)
        ensures
            *final(self) == old(self).alu_a(AluOp::And, old(self).get8(source)),
    {
        let value: u8 = self.registers.get_register_8(source);
        self.apply_alu(AluOp::And, value);
    }

    fn and_a_hl(&mut self, mmu: &MMU)
        ensures
            *final(self) == old(self).alu_a(AluOp::And, mmu@[old(self).hl() as int]),
    {
        let address: u16 = self.registers.get_register_16(Registers16::HL);
        let value: u8 = mmu.read_memory(address);
        self.apply_alu(AluOp::And, value);
    }

    fn and_a_n8(&mut self, mmu: &MMU)
        ensures
            *final(self) == old(self).advance(1).alu_a(AluOp::And, old(self).imm8(mmu@)),
    {
        let value: u8 = self.fetch8(mmu);
        self.apply_alu(AluOp::And, value);
    }

    fn xor_a_r8(&mut self, source: Registers8)
        ensures
            *final(self) == old(self).alu_a(AluOp::Xor, old(self).get8(source)),
    {
        let value: u8 = self.registers.get_register_8(source);
        self.apply_alu(AluOp::Xor, value);
    }

    fn xor_a_hl(&mut self, mmu: &MMU)
        ensures
            *final(self) == old(self).alu_a(AluOp::Xor, mmu@[old(self).hl() as int]),
    {
        let address: u16 = self.registers.get_register_16(Registers16::HL);
        let value: u8 = mmu.read_memory(address);
        self.apply_alu(AluOp::Xor, value);
    }

    fn xor_a_n8(&mut self, mmu: &MMU)
        ensures
            *final(self) == old(self).advance(1).alu_a(AluOp::Xor, old(self).imm8(mmu@)),
    {
        let value: u8 = self.fetch8(mmu);
        self.apply_alu(AluOp::Xor, value);
    }

    fn or_a_r8(&mut self, source: Registers8)
        ensures
            *final(self) == old(self).alu_a(AluOp::Or, old(self).get8(source)),
    {
        let value: u8 = self.registers.get_register_8(source);
        self.apply_alu(AluOp::Or, value);
    }

    fn or_a_hl(&mut self, mmu: &MMU)
        ensures
            *final(self) == old(self).alu_a(AluOp::Or, mmu@[old(self).hl() as int]),
    {
        let address: u16 = self.registers.get_register_16(Registers16::HL);
        let value: u8 = mmu.read_memory(address);
        self.apply_alu(AluOp::Or, value);
    }

    fn or_a_n8(&mut self, mmu: &MMU)
        ensures
            *final(self) == old(self).advance(1).alu_a(AluOp::Or, old(self).imm8(mmu@)),
    {
        let value: u8 = self.fetch8(mmu);
        self.apply_alu(AluOp::Or, value);
    }

    fn cp_a_r8(&mut self, source: Registers8)
        ensures
            *final(self) == old(self).alu_a(AluOp::Cp, old(self).get8(source)),
    {
        let value: u8 = self.registers.get_register_8(source);
        self.apply_alu(AluOp::Cp, value);
    }

    fn cp_a_hl(&mut self, mmu: &MMU)
        ensures
            *final(self) == old(self).alu_a(AluOp::Cp, mmu@[old(self).hl() as int]),
    {
        let address: u16 = self.registers.get_register_16(Registers16::HL);
        let value: u8 = mmu.read_memory(address);
        self.apply_alu(AluOp::Cp, value);
    }

    fn cp_a_n8(&mut self, mmu: &MMU)
        ensures
            *final(self) == old(self).advance(1).alu_a(AluOp::Cp, old(self).imm8(mmu@)),
    {
        let value: u8 = self.fetch8(mmu);
        self.apply_alu(AluOp::Cp, value);
    }

    fn inc_r8(&mut self, target: Registers8)
        ensures
            ({
                let (v, z, h) = inc_spec(old(self).get8(target));
                *final(self) == old(self).flags(z, false, h, old(self).registers.carry).set8(target, v)
            }),
    {
        let value: u8 = self.registers.get_register_8(target);
        let (result, z, h): (u8, bool, bool) = inc(value);
        let carry: bool = self.registers.carry;
        self.registers.set_flags(z, false, h, carry);
        self.registers.set_register_8(target, result);
    }

    fn inc_hl(&mut self, mmu: &mut MMU)
        ensures
            ({
                let (v, z, h) = inc_spec(old(mmu)@[old(self).hl() as int]);
                &&& *final(self) == old(self).flags(z, false, h, old(self).registers.carry)
                &&& final(mmu)@ == write_spec(old(mmu)@, old(self).hl(), v)
            }),
            final(mmu).same_config(old(mmu)),
    {
        let address: u16 = self.registers.get_register_16(Registers16::HL);
        let value: u8 = mmu.read_memory(address);
        let (result, z, h): (u8, bool, bool) = inc(value);
        let carry: bool = self.registers.carry;
        self.registers.set_flags(z, false, h, carry);
        mmu.write_memory(address, result);
    }

    fn dec_r8(&mut self, target: Registers8)
        ensures
            ({
                let (v, z, h) = dec_spec(old(self).get8(target));
                *final(self) == old(self).flags(z, true, h, old(self).registers.carry).set8(target, v)
            }),
    {
        let value: u8 = self.registers.get_register_8(target);
        let (result, z, h): (u8, bool, bool) = dec(value);
        let carry: bool = self.registers.carry;
        self.registers.set_flags(z, true, h, carry);
        self.registers.set_register_8(target, result);
    }

    fn dec_hl(&mut self, mmu: &mut MMU)
        ensures
            ({
                let (v, z, h) = dec_spec(old(mmu)@[old(self).hl() as int]);
                &&& *final(self) == old(self).flags(z, true, h, old(self).registers.carry)
                &&& final(mmu)@ == write_spec(old(mmu)@, old(self).hl(), v)
            }),
            final(mmu).same_config(old(mmu)),
    {
        let address: u16 = self.registers.get_register_16(Registers16::HL);
        let value: u8 = mmu.read_memory(address);
        let (result, z, h): (u8, bool, bool) = dec(value);
        let carry: bool = self.registers.carry;
        self.registers.set_flags(z, true, h, carry);
        mmu.write_memory(address, result);
    }

    fn add_hl_r16(&mut self, source: Registers16)
        ensures
            ({
                let (v, h, c) = add16_spec(old(self).hl(), old(self).get16(source));
                *final(self) == old(self).flags(old(self).registers.zero, false, h, c).set16(Registers16::HL, v)
            }),
    {
        let hl: u16 = self.registers.get_register_16(Registers16::HL);
        let value: u16 = self.registers.get_register_16(source);
        let (result, h, c): (u16, bool, bool) = add16(hl, value);
        let zero: bool = self.registers.zero;
        self.registers.set_flags(zero, false, h, c);
        self.registers.set_register_16(Registers16::HL, result);
    }

    fn inc_r16(&mut self, target: Registers16)
        ensures
            *final(self) == old(self).set16(target, wrap16(old(self).get16(target) + 1)),
    {
        let value: u16 = self.registers.get_register_16(target);
        self.registers.set_register_16(target, value.wrapping_add(1));
    }

    fn dec_r16(&mut self, target: Registers16)
        ensures
            *final(self) == old(self).set16(target, wrap16(old(self).get16(target) - 1)),
    {
        let value: u16 = self.registers.get_register_16(target);
        self.registers.set_register_16(target, value.wrapping_sub(1));
    }

    fn cpl(&mut self)
        ensures
            *final(self) == old(self).flags(old(self).registers.zero, true, true, old(self).registers.carry).set8(Registers8::A, !old(self).registers.a),
    {
        let a: u8 = self.registers.get_register_8(Registers8::A);
        let zero: bool = self.registers.zero;
        let carry: bool = self.registers.carry;
        self.registers.set_flags(zero, true, true, carry);
        self.registers.set_register_8(Registers8::A, !a);
    }

    fn ccf(&mut self)
        ensures
            *final(self) == old(self).flags(old(self).registers.zero, false, false, !old(self).registers.carry),
    {
        let carry: bool = self.registers.get_flag(Flags::Carry);
        self.registers.set_flag(Flags::Carry, !carry);
        self.registers.set_flag(Flags::Subtraction, false);
        self.registers.set_flag(Flags::HalfCarry, false);
    }

    fn scf(&mut self)
        ensures
            *final(self) == old(self).flags(old(self).registers.zero, false, false, true),
    {
        self.registers.set_flag(Flags::Carry, true);
        self.registers.set_flag(Flags::Subtraction, false);
        self.registers.set_flag(Flags::HalfCarry, false);
    }

    fn daa(&mut self)
        ensures
            ({
                let r = old(self).registers;
                let (v, c) = daa_spec(r.a, r.subtraction, r.half_carry, r.carry);
                *final(self) == old(self).flags(v == 0, r.subtraction, false, c).set8(Registers8::A, v)
            }),
    {
        let a: u8 = self.registers.get_register_8(Registers8::A);
        let n: bool = self.registers.subtraction;
        let (result, carry): (u8, bool) = daa(a, n, self.registers.half_carry, self.registers.carry);
        self.registers.set_flags(result == 0, n, false, carry);
        self.registers.set_register_8(Registers8::A, result);
    }

    fn rlca(&mut self)
        ensures
            *final(self) == old(self).rotate_a(ShiftOp::Rlc),
    {
        let a: u8 = self.registers.get_register_8(Registers8::A);
        let (result, carry): (u8, bool) = shift(ShiftOp::Rlc, a, self.registers.carry);
        self.registers.set_flags(false, false, false, carry);
        self.registers.set_register_8(Registers8::A, result);
    }

    fn rrca(&mut self)
        ensures
            *final(self) == old(self).rotate_a(ShiftOp::Rrc),
    {
        let a: u8 = self.registers.get_register_8(Registers8::A);
        let (result, carry): (u8, bool) = shift(ShiftOp::Rrc, a, self.registers.carry);
        self.registers.set_flags(false, false, false, carry);
        self.registers.set_register_8(Registers8::A, result);
    }

    fn rla(&mut self)
        ensures
            *final(self) == old(self).rotate_a(ShiftOp::Rl),
    {
        let a: u8 = self.registers.get_register_8(Registers8::A);
        let (result, carry): (u8, bool) = shift(ShiftOp::Rl, a, self.registers.carry);
        self.registers.set_flags(false, false, false, carry);
        self.registers.set_register_8(Registers8::A, result);
    }

    fn rra(&mut self)
        ensures
            *final(self) == old(self).rotate_a(ShiftOp::Rr),
    {
        let a: u8 = self.registers.get_register_8(Registers8::A);
        let (result, carry): (u8, bool) = shift(ShiftOp::Rr, a, self.registers.carry);
        self.registers.set_flags(false, false, false, carry);
        self.registers.set_register_8(Registers8::A, result);
    }

    fn rlc_r8(&mut self, target: Registers8)
        ensures
            *final(self) == old(self).shift_reg(Seq::empty(), ShiftOp::Rlc, target).0,
    {
        let value: u8 = self.registers.get_register_8(target);
        let result: u8 = self.shift_value(ShiftOp::Rlc, value);
        self.registers.set_register_8(target, result);
    }

    fn rlc_hl(&mut self, mmu: &mut MMU)
        ensures
            *final(self) == old(self).shift_mem(old(mmu)@, ShiftOp::Rlc).0,
            final(mmu)@ == old(self).shift_mem(old(mmu)@, ShiftOp::Rlc).1,
            final(mmu).same_config(old(mmu)),
    {
        let address: u16 = self.registers.get_register_16(Registers16::HL);
        let value: u8 = mmu.read_memory(address);
        let result: u8 = self.shift_value(ShiftOp::Rlc, value);
        mmu.write_memory(address, result);
    }

    fn rrc_r8(&mut self, target: Registers8)
        ensures
            *final(self) == old(self).shift_reg(Seq::empty(), ShiftOp::Rrc, target).0,
    {
        let value: u8 = self.registers.get_register_8(target);
        let result: u8 = self.shift_value(ShiftOp::Rrc, value);
        self.registers.set_register_8(target, result);
    }

    fn rrc_hl(&mut self, mmu: &mut MMU)
        ensures
            *final(self) == old(self).shift_mem(old(mmu)@, ShiftOp::Rrc).0,
            final(mmu)@ == old(self).shift_mem(old(mmu)@, ShiftOp::Rrc).1,
            final(mmu).same_config(old(mmu)),
    {
        let address: u16 = self.registers.get_register_16(Registers16::HL);
        let value: u8 = mmu.read_memory(address);
        let result: u8 = self.shift_value(ShiftOp::Rrc, value);
        mmu.write_memory(address, result);
    }

    fn rl_r8(&mut self, target: Registers8)
        ensures
            *final(self) == old(self).shift_reg(Seq::empty(), ShiftOp::Rl, target).0,
    {
        let value: u8 = self.registers.get_register_8(target);
        let result: u8 = self.shift_value(ShiftOp::Rl, value);
        self.registers.set_register_8(target, result);
    }

    fn rl_hl(&mut self, mmu: &mut MMU)
        ensures
            *final(self) == old(self).shift_mem(old(mmu)@, ShiftOp::Rl).0,
            final(mmu)@ == old(self).shift_mem(old(mmu)@, ShiftOp::Rl).1,
            final(mmu).same_config(old(mmu)),
    {
        let address: u16 = self.registers.get_register_16(Registers16::HL);
        let value: u8 = mmu.read_memory(address);
        let result: u8 = self.shift_value(ShiftOp::Rl, value);
        mmu.write_memory(address, result);
    }

    fn rr_r8(&mut self, target: Registers8)
        ensures
            *final(self) == old(self).shift_reg(Seq::empty(), ShiftOp::Rr, target).0,
    {
        let value: u8 = self.registers.get_register_8(target);
        let result: u8 = self.shift_value(ShiftOp::Rr, value);
        self.registers.set_register_8(target, result);
    }

    fn rr_hl(&mut self, mmu: &mut MMU)
        ensures
            *final(self) == old(self).shift_mem(old(mmu)@, ShiftOp::Rr).0,
            final(mmu)@ == old(self).shift_mem(old(mmu)@, ShiftOp::Rr).1,
            final(mmu).same_config(old(mmu)),
    {
        let address: u16 = self.registers.get_register_16(Registers16::HL);
        let value: u8 = mmu.read_memory(address);
        let result: u8 = self.shift_value(ShiftOp::Rr, value);
        mmu.write_memory(address, result);
    }

    fn sla_r8(&mut self, target: Registers8)
        ensures
            *final(self) == old(self).shift_reg(Seq::empty(), ShiftOp::Sla, target).0,
    {
        let value: u8 = self.registers.get_register_8(target);
        let result: u8 = self.shift_value(ShiftOp::Sla, value);
        self.registers.set_register_8(target, result);
    }

    fn sla_hl(&mut self, mmu: &mut MMU)
        ensures
            *final(self) == old(self).shift_mem(old(mmu)@, ShiftOp::Sla).0,
            final(mmu)@ == old(self).shift_mem(old(mmu)@, ShiftOp::Sla).1,
            final(mmu).same_config(old(mmu)),
    {
        let address: u16 = self.registers.get_register_16(Registers16::HL);
        let value: u8 = mmu.read_memory(address);
        let result: u8 = self.shift_value(ShiftOp::Sla, value);
        mmu.write_memory(address, result);
    }

    fn sra_r8(&mut self, target: Registers8)
        ensures
            *final(self) == old(self).shift_reg(Seq::empty(), ShiftOp::Sra, target).0,
    {
        let value: u8 = self.registers.get_register_8(target);
        let result: u8 = self.shift_value(ShiftOp::Sra, value);
        self.registers.set_register_8(target, result);
    }

    fn sra_hl(&mut self, mmu: &mut MMU)
        ensures
            *final(self) == old(self).shift_mem(old(mmu)@, ShiftOp::Sra).0,
            final(mmu)@ == old(self).shift_mem(old(mmu)@, ShiftOp::Sra).1,
            final(mmu).same_config(old(mmu)),
    {
        let address: u16 = self.registers.get_register_16(Registers16::HL);
        let value: u8 = mmu.read_memory(address);
        let result: u8 = self.shift_value(ShiftOp::Sra, value);
        mmu.write_memory(address, result);
    }

    fn swap_r8(&mut self, target: Registers8)
        ensures
            *final(self) == old(self).shift_reg(Seq::empty(), ShiftOp::Swap, target).0,
    {
        let value: u8 = self.registers.get_register_8(target);
        let result: u8 = self.shift_value(ShiftOp::Swap, value);
        self.registers.set_register_8(target, result);
    }

    fn swap_hl(&mut self, mmu: &mut MMU)
        ensures
            *final(self) == old(self).shift_mem(old(mmu)@, ShiftOp::Swap).0,
            final(mmu)@ == old(self).shift_mem(old(mmu)@, ShiftOp::Swap).1,
            final(mmu).same_config(old(mmu)),
    {
        let address: u16 = self.registers.get_register_16(Registers16::HL);
        let value: u8 = mmu.read_memory(address);
        let result: u8 = self.shift_value(ShiftOp::Swap, value);
        mmu.write_memory(address, result);
    }

    fn srl_r8(&mut self, target: Registers8)
        ensures
            *final(self) == old(self).shift_reg(Seq::empty(), ShiftOp::Srl, target).0,
    {
        let value: u8 = self.registers.get_register_8(target);
        let result: u8 = self.shift_value(ShiftOp::Srl, value);
        self.registers.set_register_8(target, result);
    }

    fn srl_hl(&mut self, mmu: &mut MMU)
        ensures
            *final(self) == old(self).shift_mem(old(mmu)@, ShiftOp::Srl).0,
            final(mmu)@ == old(self).shift_mem(old(mmu)@, ShiftOp::Srl).1,
            final(mmu).same_config(old(mmu)),
    {
        let address: u16 = self.registers.get_register_16(Registers16::HL);
        let value: u8 = mmu.read_memory(address);
        let result: u8 = self.shift_value(ShiftOp::Srl, value);
        mmu.write_memory(address, result);
    }

    fn bit_u3_r8(&mut self, bit: u8, target: Registers8)
        ensures
            *final(self) == old(self).bit_test(bit, old(self).get8(target)),
    {
        let value: u8 = self.registers.get_register_8(target);
        self.test_bit(bit, value);
    }

    fn bit_u3_hl(&mut self, mmu: &MMU, bit: u8)
        ensures
            *final(self) == old(self).bit_test(bit, mmu@[old(self).hl() as int]),
    {
        let address: u16 = self.registers.get_register_16(Registers16::HL);
        let value: u8 = mmu.read_memory(address);
        self.test_bit(bit, value);
    }

    fn res_u3_r8(&mut self, bit: u8, target: Registers8)
        ensures
            *final(self) == old(self).set8(target, old(self).get8(target) & !(1u8 << (bit % 8))),
    {
        let value: u8 = self.registers.get_register_8(target);
        self.registers.set_register_8(target, value & !(1u8 << (bit % 8)));
    }

    fn res_u3_hl(&mut self, mmu: &mut MMU, bit: u8)
        ensures
            *final(self) == *old(self),
            final(mmu)@ == write_spec(old(mmu)@, old(self).hl(), old(mmu)@[old(self).hl() as int] & !(1u8 << (bit % 8))),
            final(mmu).same_config(old(mmu)),
    {
        let address: u16 = self.registers.get_register_16(Registers16::HL);
        let value: u8 = mmu.read_memory(address);
        mmu.write_memory(address, value & !(1u8 << (bit % 8)));
    }

    fn set_u3_r8(&mut self, bit: u8, target: Registers8)
        ensures
            *final(self) == old(self).set8(target, old(self).get8(target) | (1u8 << (bit % 8))),
    {
        let value: u8 = self.registers.get_register_8(target);
        self.registers.set_register_8(target, value | (1u8 << (bit % 8)));
    }

    fn set_u3_hl(&mut self, mmu: &mut MMU, bit: u8)
        ensures
            *final(self) == *old(self),
            final(mmu)@ == write_spec(old(mmu)@, old(self).hl(), old(mmu)@[old(self).hl() as int] | (1u8 << (bit % 8))),
            final(mmu).same_config(old(mmu)),
    {
        let address: u16 = self.registers.get_register_16(Registers16::HL);
        let value: u8 = mmu.read_memory(address);
        mmu.write_memory(address, value | (1u8 << (bit % 8)));
    }

    fn jp_hl(&mut self)
        ensures
            *final(self) == old(self).jump(old(self).hl()),
    {
        let address: u16 = self.registers.get_register_16(Registers16::HL);
        self.registers.set_program_counter(address);
    }

    fn jp_n16(&mut self, mmu: &MMU)
        ensures
            *final(self) == old(self).jump(old(self).imm16(mmu@)),
    {
        let address: u16 = self.fetch16(mmu);
        self.registers.set_program_counter(address);
    }

    fn jp_cc_n16(&mut self, mmu: &MMU, condition: Condition)
        ensures
            *final(self) == (if old(self).condition(condition) { old(self).jump(old(self).imm16(mmu@)) } else { old(self).advance(2) }),
    {
        let address: u16 = self.fetch16(mmu);
        if self.condition_holds(condition) {
            self.registers.set_program_counter(address);
        }
    }

    fn jr_n16(&mut self, mmu: &MMU)
        ensures
            *final(self) == old(self).advance(1).jump(jr_target(old(self).advance(1).registers.pc, old(self).imm8(mmu@))),
    {
        let offset: u8 = self.fetch8(mmu);
        let target: u16 = relative_target(self.registers.pc, offset);
        self.registers.set_program_counter(target);
    }

    fn jr_cc_n16(&mut self, mmu: &MMU, condition: Condition)
        ensures
            *final(self) == (if old(self).condition(condition) { old(self).advance(1).jump(jr_target(old(self).advance(1).registers.pc, old(self).imm8(mmu@))) } else { old(self).advance(1) }),
    {
        let offset: u8 = self.fetch8(mmu);
        if self.condition_holds(condition) {
            let target: u16 = relative_target(self.registers.pc, offset);
            self.registers.set_program_counter(target);
        }
    }

    fn call_n16(&mut self, mmu: &mut MMU)
        ensures
            *final(self) == old(self).advance(2).push(old(mmu)@, old(self).advance(2).registers.pc).0.jump(old(self).imm16(old(mmu)@)),
            final(mmu)@ == old(self).advance(2).push(old(mmu)@, old(self).advance(2).registers.pc).1,
            final(mmu).same_config(old(mmu)),
    {
        let address: u16 = self.fetch16(mmu);
        let pc: u16 = self.registers.pc;
        self.push16(mmu, pc);
        self.registers.set_program_counter(address);
    }

    fn call_cc_n16(&mut self, mmu: &mut MMU, condition: Condition)
        ensures
            *final(self) == (if old(self).condition(condition) {
                old(self).advance(2).push(old(mmu)@, old(self).advance(2).registers.pc).0.jump(old(self).imm16(old(mmu)@))
            } else {
                old(self).advance(2)
            }),
            final(mmu)@ == (if old(self).condition(condition) { old(self).advance(2).push(old(mmu)@, old(self).advance(2).registers.pc).1 } else { old(mmu)@ }),
            final(mmu).same_config(old(mmu)),
    {
        let address: u16 = self.fetch16(mmu);
        if self.condition_holds(condition) {
            let pc: u16 = self.registers.pc;
            self.push16(mmu, pc);
            self.registers.set_program_counter(address);
        }
    }

    fn ret(&mut self, mmu: &MMU)
        ensures
            *final(self) == old(self).popped().jump(old(self).top(mmu@)),
    {
        let address: u16 = self.pop16(mmu);
        self.registers.set_program_counter(address);
    }

    fn ret_cc(&mut self, mmu: &MMU, condition: Condition)
        ensures
            *final(self) == (if old(self).condition(condition) { old(self).popped().jump(old(self).top(mmu@)) } else { *old(self) }),
    {
        if self.condition_holds(condition) {
            let address: u16 = self.pop16(mmu);
            self.registers.set_program_counter(address);
        }
    }

    fn reti(&mut self, mmu: &MMU)
        ensures
            *final(self) == (CPU { status: IME::Enabled, ..old(self).popped().jump(old(self).top(mmu@)) }),
    {
        let address: u16 = self.pop16(mmu);
        self.registers.set_program_counter(address);
        self.set_status(IME::Enabled);
    }

    fn rst(&mut self, mmu: &mut MMU, target: u8)
        ensures
            *final(self) == old(self).push(old(mmu)@, old(self).registers.pc).0.jump(target as u16),
            final(mmu)@ == old(self).push(old(mmu)@, old(self).registers.pc).1,
            final(mmu).same_config(old(mmu)),
    {
        let pc: u16 = self.registers.pc;
        self.push16(mmu, pc);
        self.registers.set_program_counter(target as u16);
    }

    fn add_sp_e8(&mut self, mmu: &MMU)
        ensures
            ({
                let (v, h, c) = add_sp_spec(old(self).registers.sp, old(self).imm8(mmu@));
                *final(self) == old(self).advance(1).flags(false, false, h, c).set16(Registers16::SP, v)
            }),
    {
        let offset: u8 = self.fetch8(mmu);
        let (result, h, c): (u16, bool, bool) = add_sp(self.registers.sp, offset);
        self.registers.set_flags(false, false, h, c);
        self.registers.set_register_16(Registers16::SP, result);
    }

    fn ld_hl_sp_e8(&mut self, mmu: &MMU)
        ensures
            ({
                let (v, h, c) = add_sp_spec(old(self).registers.sp, old(self).imm8(mmu@));
                *final(self) == old(self).advance(1).flags(false, false, h, c).set16(Registers16::HL, v)
            }),
    {
        let offset: u8 = self.fetch8(mmu);
        let (result, h, c): (u16, bool, bool) = add_sp(self.registers.sp, offset);
        self.registers.set_flags(false, false, h, c);
        self.registers.set_register_16(Registers16::HL, result);
    }

    fn ld_n16_sp(&mut self, mmu: &mut MMU)
        ensures
            *final(self) == old(self).advance(2),
            final(mmu)@ == write16(old(mmu)@, old(self).imm16(old(mmu)@), old(self).registers.sp),
            final(mmu).same_config(old(mmu)),
    {
        let address: u16 = self.fetch16(mmu);
        let sp: u16 = self.registers.sp;
        mmu.write_memory(address, (sp % 256) as u8);
        mmu.write_memory(address.wrapping_add(1), (sp / 256) as u8);
    }

    fn add_hl_sp(&mut self)
        ensures
            *final(self) == old(self).flags(
                old(self).registers.zero,
                false,
                add16_spec(old(self).hl(), old(self).registers.sp).1,
                add16_spec(old(self).hl(), old(self).registers.sp).2,
            ).set16(Registers16::HL, add16_spec(old(self).hl(), old(self).registers.sp).0),
    {
        let hl: u16 = self.registers.get_register_16(Registers16::HL);
        let sp: u16 = self.registers.get_stack_pointer();
        let (result, h, c): (u16, bool, bool) = add16(hl, sp);
        let zero: bool = self.registers.zero;
        self.registers.set_flags(zero, false, h, c);
        self.registers.set_register_16(Registers16::HL, result);
    }

    fn inc_sp(&mut self)
        ensures
            *final(self) == old(self).set16(Registers16::SP, wrap16(old(self).registers.sp + 1)),
    {
        let sp: u16 = self.registers.get_stack_pointer();
        self.registers.set_stack_pointer(sp.wrapping_add(1));
    }

    fn dec_sp(&mut self)
        ensures
            *final(self) == old(self).set16(Registers16::SP, wrap16(old(self).registers.sp - 1)),
    {
        let sp: u16 = self.registers.get_stack_pointer();
        self.registers.set_stack_pointer(sp.wrapping_sub(1));
    }

    fn ld_sp_n16(&mut self, mmu: &MMU)
        ensures
            *final(self) == old(self).advance(2).set16(Registers16::SP, old(self).imm16(mmu@)),
    {
        let value: u16 = self.fetch16(mmu);
        self.registers.set_stack_pointer(value);
    }

    fn ld_sp_hl(&mut self)
        ensures
            *final(self) == old(self).set16(Registers16::SP, old(self).hl()),
    {
        let hl: u16 = self.registers.get_register_16(Registers16::HL);
        self.registers.set_register_16(Registers16::SP, hl);
    }

    fn pop_af(&mut self, mmu: &MMU)
        ensures
            *final(self) == old(self).popped().set16(Registers16::AF, old(self).top(mmu@)),
    {
        let value: u16 = self.pop16(mmu);
        self.registers.set_register_16(Registers16::AF, value);
    }

    fn pop_r16(&mut self, mmu: &MMU, target: Registers16)
        ensures
            *final(self) == old(self).popped().set16(target, old(self).top(mmu@)),
    {
        let value: u16 = self.pop16(mmu);
        self.registers.set_register_16(target, value);
    }

    fn push_af(&mut self, mmu: &mut MMU)
        ensures
            *final(self) == old(self).push(old(mmu)@, old(self).get16(Registers16::AF)).0,
            final(mmu)@ == old(self).push(old(mmu)@, old(self).get16(Registers16::AF)).1,
            final(mmu).same_config(old(mmu)),
    {
        let value: u16 = self.registers.get_register_16(Registers16::AF);
        self.push16(mmu, value);
    }

    fn push_r16(&mut self, mmu: &mut MMU, source: Registers16)
        ensures
            *final(self) == old(self).push(old(mmu)@, old(self).get16(source)).0,
            final(mmu)@ == old(self).push(old(mmu)@, old(self).get16(source)).1,
            final(mmu).same_config(old(mmu)),
    {
        let value: u16 = self.registers.get_register_16(source);
        self.push16(mmu, value);
    }

    fn di(&mut self)
        ensures
            *final(self) == (CPU { status: IME::Disabled, enable_ime_next_cycle: false, ..*old(self) }),
    {
        self.set_status(IME::Disabled);
        self.enable_ime_next_cycle = false;
    }

    fn ei(&mut self)
        ensures
            *final(self) == (CPU { enable_ime_next_cycle: true, ..*old(self) }),
    {
        self.enable_ime_next_cycle = true;
    }

    fn halt(&mut self)
        ensures
            *final(self) == (CPU { halted: true, ..*old(self) }),
    {
        self.halted = true;
    }

    fn stop(&mut self)
        ensures
            *final(self) == (CPU { halted: true, ..*old(self) }),
    {
        self.halted = true;
    }

    fn nop(&mut self)
        ensures
            *final(self) == *old(self),
    {
    }
}


/// `INC r; DEC r` gives the register back; afterwards Z says whether it is 0, N is set,
/// H says whether the incremented value had a zero low nibble, and C is unchanged.
#[verifier::rlimit(60)]
pub proof fn lemma_inc_then_dec(c: CPU, m: Seq<u8>, r: Registers8)
    requires
        r != Registers8::F,
    ensures
        ({
            let after_inc = c.exec_spec(m, Instructions::INC_r8(r)).0;
            let after_dec = after_inc.exec_spec(m, Instructions::DEC_r8(r)).0;
            &&& after_dec.get8(r) == c.get8(r)
            &&& after_dec.registers.zero == (c.get8(r) == 0)
            &&& after_dec.registers.subtraction
            &&& after_dec.registers.half_carry == (after_inc.get8(r) % 16 == 0)
            &&& after_dec.registers.carry == c.registers.carry
        }),
{
    let v = c.get8(r);
    let (v1, z1, h1) = inc_spec(v);
    let c1 = c.flags(z1, false, h1, c.registers.carry).set8(r, v1);
    assert(CPU::is_misc(Instructions::INC_r8(r)));
    assert(c.misc_spec(m, Instructions::INC_r8(r)).0 == c1);
    assert(c.exec_spec(m, Instructions::INC_r8(r)).0 == c1);
    assert(c1.get8(r) == v1);
    let (v2, z2, h2) = dec_spec(v1);
    let c2 = c1.flags(z2, true, h2, c1.registers.carry).set8(r, v2);
    assert(CPU::is_misc(Instructions::DEC_r8(r)));
    assert(c1.misc_spec(m, Instructions::DEC_r8(r)).0 == c2);
    assert(c1.exec_spec(m, Instructions::DEC_r8(r)).0 == c2);
    assert(c2.get8(r) == v2);
}

/// A little-endian word written at two writable addresses reads back unchanged.
pub proof fn lemma_write16_read16(m: Seq<u8>, a: u16, v: u16)
    requires
        m.len() == 0x10000,
        writable(a),
        writable(wrap16(a + 1)),
    ensures
        read16(write16(m, a, v), a) == v,
{
    let m1 = write_spec(m, a, low(v));
    let m2 = write_spec(m1, wrap16(a + 1), high(v));
    assert(wrap16(a + 1) != a);
    assert(m2[a as int] == low(v));
    assert(m2[wrap16(a + 1) as int] == high(v));
}

/// Pushing a register pair and popping it back restores the pair and SP, when the two
/// stack bytes are writable memory.
/// Pushing a register pair and popping into a register pair gives the second pair the
/// value of the first and restores SP, when the two stack bytes are writable memory.
#[verifier::rlimit(60)]
pub proof fn lemma_push_then_pop(c: CPU, m: Seq<u8>, src: Registers16, dst: Registers16)
    requires
        m.len() == 0x10000,
        src == Registers16::BC || src == Registers16::DE || src == Registers16::HL,
        dst == Registers16::BC || dst == Registers16::DE || dst == Registers16::HL,
        writable(wrap16(c.registers.sp - 2)),
        writable(wrap16(c.registers.sp - 1)),
    ensures
        ({
            let (c1, m1) = c.exec_spec(m, Instructions::PUSH_r16(src));
            let (c2, m2) = c1.exec_spec(m1, Instructions::POP_r16(dst));
            &&& c2.get16(dst) == c.get16(src)
            &&& c2.registers.sp == c.registers.sp
        }),
{
    let sp = wrap16(c.registers.sp - 2);
    assert(wrap16(sp + 1) == wrap16(c.registers.sp - 1));
    assert(wrap16(sp + 2) == c.registers.sp);
    let v = c.get16(src);
    let (c1, m1) = c.push(m, v);
    assert(CPU::is_word(Instructions::PUSH_r16(src)));
    assert(c.word_spec(m, Instructions::PUSH_r16(src)) == (c1, m1));
    assert(c.exec_spec(m, Instructions::PUSH_r16(src)) == (c1, m1));
    assert(CPU::is_word(Instructions::POP_r16(dst)));
    assert(c1.word_spec(m1, Instructions::POP_r16(dst)) == (c1.popped().set16(dst, c1.top(m1)), m1));
    assert(c1.exec_spec(m1, Instructions::POP_r16(dst)) == (c1.popped().set16(dst, c1.top(m1)), m1));
    assert(c1.registers.sp == sp);
    lemma_write16_read16(m, sp, v);
}

/// `ADC A, r` followed, with the carry flag set back to what it was, by `SBC A, r` gives
/// A back and leaves r unchanged.
#[verifier::rlimit(60)]
pub proof fn lemma_adc_then_sbc_restores_a(c: CPU, m: Seq<u8>, src: Registers8)
    requires
        src != Registers8::A,
        src != Registers8::F,
    ensures
        ({
            let c1 = c.exec_spec(m, Instructions::ADC_A_r8(src)).0;
            let c2 = c1.with_regs(c1.registers.with_flag(Flags::Carry, c.registers.carry));
            let c3 = c2.exec_spec(m, Instructions::SBC_A_r8(src)).0;
            &&& c3.registers.a == c.registers.a
            &&& c3.get8(src) == c.get8(src)
        }),
{
    let x = c.get8(src);
    let c1 = c.alu_a(AluOp::Adc, x);
    assert(CPU::is_alu(Instructions::ADC_A_r8(src)));
    assert(c.arith_spec(m, Instructions::ADC_A_r8(src)).0 == c1);
    assert(c.exec_spec(m, Instructions::ADC_A_r8(src)).0 == c1);
    assert(c1.get8(src) == x);
    let c2 = c1.with_regs(c1.registers.with_flag(Flags::Carry, c.registers.carry));
    assert(c2.get8(src) == x);
    let c3 = c2.alu_a(AluOp::Sbc, x);
    assert(CPU::is_alu(Instructions::SBC_A_r8(src)));
    assert(c2.arith_spec(m, Instructions::SBC_A_r8(src)).0 == c3);
    assert(c2.exec_spec(m, Instructions::SBC_A_r8(src)).0 == c3);
    lemma_adc_then_sbc(c.registers.a, x, c.registers.carry);
}

/// `PUSH AF; POP AF` gives back AF with the low nibble of F cleared (which it already
/// is), and SP, when the two stack bytes are writable memory.
/// `PUSH AF; POP AF` gives back AF with the low nibble of F cleared (which it already
/// is), and SP, when the two stack bytes are writable memory.
#[verifier::rlimit(100)]
pub proof fn lemma_push_then_pop_af(c: CPU, m: Seq<u8>)
    requires
        m.len() == 0x10000,
        writable(wrap16(c.registers.sp - 2)),
        writable(wrap16(c.registers.sp - 1)),
    ensures
        ({
            let (c1, m1) = c.exec_spec(m, Instructions::PUSH_AF);
            let (c2, m2) = c1.exec_spec(m1, Instructions::POP_AF);
            &&& c2.get16(Registers16::AF) == c.get16(Registers16::AF) & 0xFFF0
            &&& c2.get16(Registers16::AF) == c.get16(Registers16::AF)
            &&& c2.registers.sp == c.registers.sp
            &&& c2.registers.b == c.registers.b && c2.registers.c == c.registers.c
            &&& c2.registers.d == c.registers.d && c2.registers.e == c.registers.e
            &&& c2.registers.h == c.registers.h && c2.registers.l == c.registers.l
        }),
{
    let sp = wrap16(c.registers.sp - 2);
    assert(wrap16(sp + 1) == wrap16(c.registers.sp - 1));
    assert(wrap16(sp + 2) == c.registers.sp);
    let af = c.get16(Registers16::AF);
    let (c1, m1) = c.push(m, af);
    assert(CPU::is_word(Instructions::PUSH_AF));
    assert(c.word_spec(m, Instructions::PUSH_AF) == (c1, m1));
    assert(c.exec_spec(m, Instructions::PUSH_AF) == (c1, m1));
    let c2 = c1.popped().set16(Registers16::AF, c1.top(m1));
    assert(CPU::is_word(Instructions::POP_AF));
    assert(c1.word_spec(m1, Instructions::POP_AF) == (c2, m1));
    assert(c1.exec_spec(m1, Instructions::POP_AF) == (c2, m1));
    assert(c1.registers.sp == sp);
    lemma_write16_read16(m, sp, af);
    let p = c1.popped().registers;
    assert(p.get16(Registers16::AF) == af);
    lemma_af_round_trip(p);
}

/// Writing AF's own value back to AF changes nothing that AF shows, and that value
/// already has a zero low nibble.
proof fn lemma_af_round_trip(r: Registers)
    ensures
        r.set16(Registers16::AF, r.get16(Registers16::AF)).get16(Registers16::AF) == r.get16(Registers16::AF),
        r.get16(Registers16::AF) & 0xFFF0 == r.get16(Registers16::AF),
{
    let af = r.get16(Registers16::AF);
    let f = r.f_spec();
    lemma_flags_byte_bits(r.zero, r.subtraction, r.half_carry, r.carry);
    assert(af % 256 == f && af / 256 == r.a);
    let r2 = r.set16(Registers16::AF, af);
    assert(r2.a == r.a && r2.zero == r.zero && r2.subtraction == r.subtraction);
    assert(r2.half_carry == r.half_carry && r2.carry == r.carry);
    lemma_word_low_nibble(r.a, f);
}

proof fn lemma_word_low_nibble(a: u8, f: u8)
    requires
        f & 0x0F == 0,
    ensures
        ((a * 256 + f) as u16) & 0xFFF0 == (a * 256 + f) as u16,
{
    let a16 = a as u16;
    let flags16 = f as u16;
    assert(f & 0x0F == 0 ==> (f as u16) & 0x0F == 0) by (bit_vector);
    assert(flags16 & 0x0F == 0 && flags16 < 256 && a16 < 256 ==> (((a16 * 256 + flags16) as u16) & 0xFFF0) == ((a16 * 256 + flags16) as u16)) by (bit_vector);
}

} // verus!
