use vstd::prelude::*;
use crate::alu::wrap16;

verus! {

/// The LR35902 register file.
///
/// Register F is held as its four flag bits (Zero = bit 7, Subtraction = bit 6,
/// HalfCarry = bit 5, Carry = bit 4), so its low nibble is zero by construction.
/// The 16-bit registers AF, BC, DE and HL are views over the 8-bit ones, high byte first.
pub struct Registers {
    pub a: u8,
    pub b: u8,
    pub c: u8,
    pub d: u8,
    pub e: u8,
    pub h: u8,
    pub l: u8,
    pub zero: bool,
    pub subtraction: bool,
    pub half_carry: bool,
    pub carry: bool,
    pub sp: u16,
    pub pc: u16,
}

#[derive(Debug, Clone, Copy, PartialEq, Eq, Structural)]
pub enum Registers8 {
    A,
    B,
    C,
    D,
    E,
    F,
    H,
    L,
}

#[derive(Debug, Clone, Copy, PartialEq, Eq, Structural)]
pub enum Registers16 {
    AF,
    BC,
    DE,
    HL,
    SP,
    PC,
}

#[derive(Debug, Clone, Copy, PartialEq, Eq, Structural)]
pub enum Flags {
    Zero,
    Subtraction,
    HalfCarry,
    Carry,
}

/// The byte that register F holds for the four given flags.
pub open spec fn flags_byte(z: bool, n: bool, h: bool, c: bool) -> u8 {
    (if z { 0x80u8 } else { 0u8 }) | (if n { 0x40u8 } else { 0u8 }) | (if h { 0x20u8 } else { 0u8 })
        | (if c { 0x10u8 } else { 0u8 })
}

/// Whether `v` has any of the bits of `mask` set.
pub open spec fn has_bits(v: u8, mask: u8) -> bool {
    v & mask != 0
}

/// Writing a byte to F and reading it back clears its low nibble.
pub proof fn lemma_flags_byte_round_trip(v: u8)
    ensures
        flags_byte(has_bits(v, 0x80), has_bits(v, 0x40), has_bits(v, 0x20), has_bits(v, 0x10))
            == v & 0xF0,
{
    assert(((if v & 0x80 != 0 { 0x80u8 } else { 0u8 }) | (if v & 0x40 != 0 { 0x40u8 } else { 0u8 })
        | (if v & 0x20 != 0 { 0x20u8 } else { 0u8 }) | (if v & 0x10 != 0 { 0x10u8 } else { 0u8 }))
        == v & 0xF0) by (bit_vector);
}

/// Reading a flag back from the byte of four flags gives that flag.
pub proof fn lemma_flags_byte_bits(z: bool, n: bool, h: bool, c: bool)
    ensures
        has_bits(flags_byte(z, n, h, c), 0x80) == z,
        has_bits(flags_byte(z, n, h, c), 0x40) == n,
        has_bits(flags_byte(z, n, h, c), 0x20) == h,
        has_bits(flags_byte(z, n, h, c), 0x10) == c,
        flags_byte(z, n, h, c) & 0x0F == 0,
{
    let f = flags_byte(z, n, h, c);
    assert(f == ((if z { 0x80u8 } else { 0u8 }) | (if n { 0x40u8 } else { 0u8 }) | (if h { 0x20u8 } else { 0u8 })
        | (if c { 0x10u8 } else { 0u8 })));
    assert(f == ((if z { 0x80u8 } else { 0u8 }) | (if n { 0x40u8 } else { 0u8 }) | (if h { 0x20u8 } else { 0u8 })
        | (if c { 0x10u8 } else { 0u8 })) ==> (f & 0x80 != 0) == z && (f & 0x40 != 0) == n
        && (f & 0x20 != 0) == h && (f & 0x10 != 0) == c && f & 0x0F == 0) by (bit_vector);
}

/// Clearing the low nibble of a word is clearing the low nibble of its low byte.
proof fn lemma_word_mask(v: u16)
    ensures
        (v / 256) as u8 as int * 256 + (((v % 256) as u8) & 0xF0) as int == (v & 0xFFF0) as int,
{
    assert((v / 256) * 256 + ((v % 256) & 0xF0) == v & 0xFFF0) by (bit_vector);
    assert(((v % 256) as u8) & 0xF0 == ((v % 256) & 0xF0) as u8) by (bit_vector);
}

impl Registers {
    pub open spec fn new_spec() -> Registers {
        Registers {
            a: 0,
            b: 0,
            c: 0,
            d: 0,
            e: 0,
            h: 0,
            l: 0,
            zero: false,
            subtraction: false,
            half_carry: false,
            carry: false,
            sp: 0,
            pc: 0,
        }
    }

    pub open spec fn f_spec(&self) -> u8 {
        flags_byte(self.zero, self.subtraction, self.half_carry, self.carry)
    }

    pub open spec fn get8(&self, r: Registers8) -> u8 {
        match r {
            Registers8::A => self.a,
            Registers8::B => self.b,
            Registers8::C => self.c,
            Registers8::D => self.d,
            Registers8::E => self.e,
            Registers8::F => self.f_spec(),
            Registers8::H => self.h,
            Registers8::L => self.l,
        }
    }

    pub open spec fn with_f(self, v: u8) -> Registers {
        Registers {
            zero: has_bits(v, 0x80),
            subtraction: has_bits(v, 0x40),
            half_carry: has_bits(v, 0x20),
            carry: has_bits(v, 0x10),
            ..self
        }
    }

    pub open spec fn set8(self, r: Registers8, v: u8) -> Registers {
        match r {
            Registers8::A => Registers { a: v, ..self },
            Registers8::B => Registers { b: v, ..self },
            Registers8::C => Registers { c: v, ..self },
            Registers8::D => Registers { d: v, ..self },
            Registers8::E => Registers { e: v, ..self },
            Registers8::F => self.with_f(v),
            Registers8::H => Registers { h: v, ..self },
            Registers8::L => Registers { l: v, ..self },
        }
    }

    pub open spec fn get16(&self, r: Registers16) -> u16 {
        match r {
            Registers16::AF => (self.a as int * 256 + self.f_spec() as int) as u16,
            Registers16::BC => (self.b as int * 256 + self.c as int) as u16,
            Registers16::DE => (self.d as int * 256 + self.e as int) as u16,
            Registers16::HL => (self.h as int * 256 + self.l as int) as u16,
            Registers16::SP => self.sp,
            Registers16::PC => self.pc,
        }
    }

    pub open spec fn set16(self, r: Registers16, v: u16) -> Registers {
        let hi = (v / 256) as u8;
        let lo = (v % 256) as u8;
        match r {
            Registers16::AF => Registers { a: hi, ..self }.with_f(lo),
            Registers16::BC => Registers { b: hi, c: lo, ..self },
            Registers16::DE => Registers { d: hi, e: lo, ..self },
            Registers16::HL => Registers { h: hi, l: lo, ..self },
            Registers16::SP => Registers { sp: v, ..self },
            Registers16::PC => Registers { pc: v, ..self },
        }
    }

    pub open spec fn flag(&self, f: Flags) -> bool {
        match f {
            Flags::Zero => self.zero,
            Flags::Subtraction => self.subtraction,
            Flags::HalfCarry => self.half_carry,
            Flags::Carry => self.carry,
        }
    }

    pub open spec fn with_flag(self, f: Flags, b: bool) -> Registers {
        match f {
            Flags::Zero => Registers { zero: b, ..self },
            Flags::Subtraction => Registers { subtraction: b, ..self },
            Flags::HalfCarry => Registers { half_carry: b, ..self },
            Flags::Carry => Registers { carry: b, ..self },
        }
    }

    /// The registers with all four flags replaced.
    pub open spec fn with_flags(self, z: bool, n: bool, h: bool, c: bool) -> Registers {
        Registers { zero: z, subtraction: n, half_carry: h, carry: c, ..self }
    }
}

impl Flags {
    /// Every flag names a bit of F.
    pub fn is_set(&self) -> (r: bool)
        ensures
            r,
    {
        match self {
            Flags::Zero => true,
            Flags::Subtraction => true,
            Flags::HalfCarry => true,
            Flags::Carry => true,
        }
    }
}

impl Registers {
    pub fn new() -> (r: Registers)
        ensures
            r == Registers::new_spec(),
    {
        Registers {
            a: 0,
            b: 0,
            c: 0,
            d: 0,
            e: 0,
            h: 0,
            l: 0,
            zero: false,
            subtraction: false,
            half_carry: false,
            carry: false,
            sp: 0,
            pc: 0,
        }
    }

    /// Writes an 8-bit register; a write to F keeps only its high nibble.
    pub fn set_register_8(&mut self, register: Registers8, value: u8)
        ensures
            *final(self) == old(self).set8(register, value),
            register == Registers8::F ==> final(self).get8(Registers8::F) == value & 0xF0,
    {
        match register {
            Registers8::A => self.a = value,
            Registers8::B => self.b = value,
            Registers8::C => self.c = value,
            Registers8::D => self.d = value,
            Registers8::E => self.e = value,
            Registers8::F => {
                proof {
                    lemma_flags_byte_round_trip(value);
                }
                self.zero = value & 0x80 != 0;
                self.subtraction = value & 0x40 != 0;
                self.half_carry = value & 0x20 != 0;
                self.carry = value & 0x10 != 0;
            },
            Registers8::H => self.h = value,
            Registers8::L => self.l = value,
        }
    }

    pub fn get_register_8(&self, register: Registers8) -> (r: u8)
        ensures
            r == self.get8(register),
    {
        match register {
            Registers8::A => self.a,
            Registers8::B => self.b,
            Registers8::C => self.c,
            Registers8::D => self.d,
            Registers8::E => self.e,
            Registers8::F => {
                let z: u8 = if self.zero { 0x80 } else { 0 };
                let n: u8 = if self.subtraction { 0x40 } else { 0 };
                let h: u8 = if self.half_carry { 0x20 } else { 0 };
                let c: u8 = if self.carry { 0x10 } else { 0 };
                z | n | h | c
            },
            Registers8::H => self.h,
            Registers8::L => self.l,
        }
    }

    /// Writes a 16-bit register; a write to AF clears the low nibble of F.
    pub fn set_register_16(&mut self, register: Registers16, value: u16)
        ensures
            *final(self) == old(self).set16(register, value),
            register == Registers16::AF ==> final(self).get16(Registers16::AF) == value & 0xFFF0,
    {
        let hi: u8 = (value / 256) as u8;
        let lo: u8 = (value % 256) as u8;
        match register {
            Registers16::AF => {
                self.a = hi;
                self.set_register_8(Registers8::F, lo);
                proof {
                    lemma_word_mask(value);
                }
            },
            Registers16::BC => {
                self.b = hi;
                self.c = lo;
            },
            Registers16::DE => {
                self.d = hi;
                self.e = lo;
            },
            Registers16::HL => {
                self.h = hi;
                self.l = lo;
            },
            Registers16::SP => self.sp = value,
            Registers16::PC => self.pc = value,
        }
    }

    pub fn get_register_16(&self, register: Registers16) -> (r: u16)
        ensures
            r == self.get16(register),
    {
        match register {
            Registers16::AF => {
                let f: u8 = self.get_register_8(Registers8::F);
                self.a as u16 * 256 + f as u16
            },
            Registers16::BC => self.b as u16 * 256 + self.c as u16,
            Registers16::DE => self.d as u16 * 256 + self.e as u16,
            Registers16::HL => self.h as u16 * 256 + self.l as u16,
            Registers16::SP => self.sp,
            Registers16::PC => self.pc,
        }
    }

    pub fn set_stack_pointer(&mut self, value: u16)
        ensures
            *final(self) == old(self).set16(Registers16::SP, value),
    {
        self.sp = value;
    }

    pub fn get_stack_pointer(&self) -> (r: u16)
        ensures
            r == self.sp,
    {
        self.sp
    }

    pub fn set_program_counter(&mut self, value: u16)
        ensures
            *final(self) == old(self).set16(Registers16::PC, value),
    {
        self.pc = value;
    }

    pub fn get_program_counter(&self) -> (r: u16)
        ensures
            r == self.pc,
    {
        self.pc
    }

    pub fn set_flag(&mut self, flag: Flags, condition: bool)
        ensures
            *final(self) == old(self).with_flag(flag, condition),
    {
        if condition {
            self.flag_up(flag);
        } else {
            self.flag_down(flag);
        }
    }

    pub fn flag_up(&mut self, flag: Flags)
        ensures
            *final(self) == old(self).with_flag(flag, true),
    {
        match flag {
            Flags::Zero => self.zero = true,
            Flags::Subtraction => self.subtraction = true,
            Flags::HalfCarry => self.half_carry = true,
            Flags::Carry => self.carry = true,
        }
    }

    pub fn flag_down(&mut self, flag: Flags)
        ensures
            *final(self) == old(self).with_flag(flag, false),
    {
        match flag {
            Flags::Zero => self.zero = false,
            Flags::Subtraction => self.subtraction = false,
            Flags::HalfCarry => self.half_carry = false,
            Flags::Carry => self.carry = false,
        }
    }

    pub fn get_flag(&self, flag: Flags) -> (r: bool)
        ensures
            r == self.flag(flag),
    {
        match flag {
            Flags::Zero => self.zero,
            Flags::Subtraction => self.subtraction,
            Flags::HalfCarry => self.half_carry,
            Flags::Carry => self.carry,
        }
    }

    pub fn is_flag_up(&self, flag: Flags) -> (r: bool)
        ensures
            r == self.flag(flag),
    {
        self.get_flag(flag)
    }

    pub fn is_flag_down(&self, flag: Flags) -> (r: bool)
        ensures
            r == !self.flag(flag),
    {
        !self.get_flag(flag)
    }

    /// Sets all four flags at once.
    pub fn set_flags(&mut self, z: bool, n: bool, h: bool, c: bool)
        ensures
            *final(self) == old(self).with_flags(z, n, h, c),
    {
        self.zero = z;
        self.subtraction = n;
        self.half_carry = h;
        self.carry = c;
    }

    pub fn increase_program_counter(&mut self, value: u16)
        ensures
            *final(self) == old(self).set16(Registers16::PC, wrap16(old(self).pc + value)),
    {
        self.pc = self.pc.wrapping_add(value);
    }
}

} // verus!
