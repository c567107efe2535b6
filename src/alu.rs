use vstd::prelude::*;

verus! {

/// The eight operations of the `ALU A, x` family.
#[derive(Debug, Clone, Copy, PartialEq, Eq, Structural)]
pub enum AluOp {
    Add,
    Adc,
    Sub,
    Sbc,
    And,
    Xor,
    Or,
    Cp,
}

/// The eight rotate and shift operations of the CB-prefixed table.
#[derive(Debug, Clone, Copy, PartialEq, Eq, Structural)]
pub enum ShiftOp {
    Rlc,
    Rrc,
    Rl,
    Rr,
    Sla,
    Sra,
    Swap,
    Srl,
}

/// The value and the four flags (Z, N, H, C) that an 8-bit operation produces.
pub struct Outcome {
    pub value: u8,
    pub z: bool,
    pub n: bool,
    pub h: bool,
    pub c: bool,
}

pub open spec fn outcome(value: u8, z: bool, n: bool, h: bool, c: bool) -> Outcome {
    Outcome { value, z, n, h, c }
}

/// `x` reduced modulo 256, for `x` in -256..512.
pub open spec fn wrap8(x: int) -> u8 {
    (if x < 0 { x + 256 } else if x > 0xFF { x - 256 } else { x }) as u8
}

/// `x` reduced modulo 65536, for `x` in -65536..131072.
pub open spec fn wrap16(x: int) -> u16 {
    (if x < 0 { x + 0x10000 } else if x > 0xFFFF { x - 0x10000 } else { x }) as u16
}

pub open spec fn carry_bit(c: bool) -> int {
    if c { 1 } else { 0 }
}

/// `A + x + carry`: Z when the 8-bit result is 0, H on a carry out of bit 3, C on a carry
/// out of bit 7.
pub open spec fn add_spec(a: u8, x: u8, cin: bool) -> Outcome {
    let sum = a + x + carry_bit(cin);
    outcome(wrap8(sum), wrap8(sum) == 0, false, a % 16 + x % 16 + carry_bit(cin) > 0x0F, sum > 0xFF)
}

/// `A - x - carry`: Z when the 8-bit result is 0, H on a borrow from bit 4, C on a borrow.
pub open spec fn sub_spec(a: u8, x: u8, cin: bool) -> Outcome {
    let diff = a - x - carry_bit(cin);
    outcome(wrap8(diff), wrap8(diff) == 0, true, a % 16 < x % 16 + carry_bit(cin), diff < 0)
}

/// The outcome of `op A, x` when the carry flag is `cin`.
pub open spec fn alu_spec(op: AluOp, a: u8, x: u8, cin: bool) -> Outcome {
    match op {
        AluOp::Add => add_spec(a, x, false),
        AluOp::Adc => add_spec(a, x, cin),
        AluOp::Sub | AluOp::Cp => sub_spec(a, x, false),
        AluOp::Sbc => sub_spec(a, x, cin),
        AluOp::And => outcome(a & x, a & x == 0, false, true, false),
        AluOp::Xor => outcome(a ^ x, a ^ x == 0, false, false, false),
        AluOp::Or => outcome(a | x, a | x == 0, false, false, false),
    }
}

/// `v + 1`, with Z and H (carry out of bit 3); C is not touched.
pub open spec fn inc_spec(v: u8) -> (u8, bool, bool) {
    let r = wrap8(v + 1);
    (r, r == 0, v % 16 == 0x0F)
}

/// `v - 1`, with Z and H (borrow from bit 4); C is not touched.
pub open spec fn dec_spec(v: u8) -> (u8, bool, bool) {
    let r = wrap8(v - 1);
    (r, r == 0, v % 16 == 0)
}

/// The result of a rotate or shift and the bit shifted out (the new carry).
pub open spec fn shift_spec(op: ShiftOp, v: u8, cin: bool) -> (u8, bool) {
    match op {
        ShiftOp::Rlc => ((v << 1u8) | (v >> 7u8), v & 0x80 != 0),
        ShiftOp::Rrc => ((v >> 1u8) | (v << 7u8), v & 1 != 0),
        ShiftOp::Rl => ((v << 1u8) | (if cin { 1u8 } else { 0u8 }), v & 0x80 != 0),
        ShiftOp::Rr => ((v >> 1u8) | (if cin { 0x80u8 } else { 0u8 }), v & 1 != 0),
        ShiftOp::Sla => (v << 1u8, v & 0x80 != 0),
        ShiftOp::Sra => ((v >> 1u8) | (v & 0x80), v & 1 != 0),
        ShiftOp::Swap => ((v << 4u8) | (v >> 4u8), false),
        ShiftOp::Srl => (v >> 1u8, v & 1 != 0),
    }
}

/// Decimal adjust of A after a BCD addition (`n` clear) or subtraction (`n` set): the new
/// A and the new carry.
pub open spec fn daa_spec(a: u8, n: bool, h: bool, c: bool) -> (u8, bool) {
    if !n {
        let low = if h || a % 16 > 9 { 0x06int } else { 0 };
        let high = if c || a > 0x99 { 0x60int } else { 0 };
        (wrap8(a + low + high), c || a > 0x99)
    } else {
        let low = if h { 0x06int } else { 0 };
        let high = if c { 0x60int } else { 0 };
        (wrap8(a - low - high), c)
    }
}

/// `HL + r`: the sum, H on a carry out of bit 11, C on a carry out of bit 15.
pub open spec fn add16_spec(hl: u16, r: u16) -> (u16, bool, bool) {
    (wrap16(hl + r), hl % 0x1000 + r % 0x1000 > 0x0FFF, hl + r > 0xFFFF)
}

/// The signed value of an 8-bit offset.
pub open spec fn signed8(e: u8) -> int {
    if e < 128 { e as int } else { e - 256 }
}

/// `SP + e` for a signed offset `e`: the sum, H on a carry out of bit 3 and C on a carry
/// out of bit 7 of the unsigned low-byte addition.
pub open spec fn add_sp_spec(sp: u16, e: u8) -> (u16, bool, bool) {
    (wrap16(sp + signed8(e)), sp % 16 + e % 16 > 0x0F, sp % 256 + e > 0xFF)
}

pub fn alu(op: AluOp, a: u8, x: u8, cin: bool) -> (r: Outcome)
    ensures
        r == alu_spec(op, a, x, cin),
{
    match op {
        AluOp::Add => add8(a, x, false),
        AluOp::Adc => add8(a, x, cin),
        AluOp::Sub | AluOp::Cp => sub8(a, x, false),
        AluOp::Sbc => sub8(a, x, cin),
        AluOp::And => Outcome { value: a & x, z: a & x == 0, n: false, h: true, c: false },
        AluOp::Xor => Outcome { value: a ^ x, z: a ^ x == 0, n: false, h: false, c: false },
        AluOp::Or => Outcome { value: a | x, z: a | x == 0, n: false, h: false, c: false },
    }
}

pub fn add8(a: u8, x: u8, cin: bool) -> (r: Outcome)
    ensures
        r == add_spec(a, x, cin),
{
    let c: u16 = if cin { 1 } else { 0 };
    let sum: u16 = a as u16 + x as u16 + c;
    let value: u8 = if sum > 0xFF { (sum - 256) as u8 } else { sum as u8 };
    Outcome { value, z: value == 0, n: false, h: (a % 16) as u16 + (x % 16) as u16 + c > 0x0F, c: sum > 0xFF }
}

pub fn sub8(a: u8, x: u8, cin: bool) -> (r: Outcome)
    ensures
        r == sub_spec(a, x, cin),
{
    let c: u16 = if cin { 1 } else { 0 };
    let borrow: bool = (a as u16) < x as u16 + c;
    let value: u8 = if borrow { (a as u16 + 256 - x as u16 - c) as u8 } else { (a as u16 - x as u16 - c) as u8 };
    Outcome { value, z: value == 0, n: true, h: ((a % 16) as u16) < (x % 16) as u16 + c, c: borrow }
}

pub fn inc(v: u8) -> (r: (u8, bool, bool))
    ensures
        r == inc_spec(v),
{
    let r: u8 = v.wrapping_add(1);
    (r, r == 0, v % 16 == 0x0F)
}

pub fn dec(v: u8) -> (r: (u8, bool, bool))
    ensures
        r == dec_spec(v),
{
    let r: u8 = v.wrapping_sub(1);
    (r, r == 0, v % 16 == 0)
}

pub fn shift(op: ShiftOp, v: u8, cin: bool) -> (r: (u8, bool))
    ensures
        r == shift_spec(op, v, cin),
{
    match op {
        ShiftOp::Rlc => ((v << 1u8) | (v >> 7u8), v & 0x80 != 0),
        ShiftOp::Rrc => ((v >> 1u8) | (v << 7u8), v & 1 != 0),
        ShiftOp::Rl => ((v << 1u8) | (if cin { 1u8 } else { 0u8 }), v & 0x80 != 0),
        ShiftOp::Rr => ((v >> 1u8) | (if cin { 0x80u8 } else { 0u8 }), v & 1 != 0),
        ShiftOp::Sla => (v << 1u8, v & 0x80 != 0),
        ShiftOp::Sra => ((v >> 1u8) | (v & 0x80), v & 1 != 0),
        ShiftOp::Swap => ((v << 4u8) | (v >> 4u8), false),
        ShiftOp::Srl => (v >> 1u8, v & 1 != 0),
    }
}

pub fn daa(a: u8, n: bool, h: bool, c: bool) -> (r: (u8, bool))
    ensures
        r == daa_spec(a, n, h, c),
{
    if !n {
        let low: u8 = if h || a % 16 > 9 { 0x06 } else { 0 };
        let high: u8 = if c || a > 0x99 { 0x60 } else { 0 };
        (a.wrapping_add(low + high), c || a > 0x99)
    } else {
        let low: u8 = if h { 0x06 } else { 0 };
        let high: u8 = if c { 0x60 } else { 0 };
        (a.wrapping_sub(low + high), c)
    }
}

pub fn add16(hl: u16, r: u16) -> (out: (u16, bool, bool))
    ensures
        out == add16_spec(hl, r),
{
    let sum: u32 = hl as u32 + r as u32;
    let value: u16 = if sum > 0xFFFF { (sum - 0x10000) as u16 } else { sum as u16 };
    (value, hl % 0x1000 + r % 0x1000 > 0x0FFF, sum > 0xFFFF)
}

pub fn add_sp(sp: u16, e: u8) -> (out: (u16, bool, bool))
    ensures
        out == add_sp_spec(sp, e),
{
    let value: u16 = if e < 128 { sp.wrapping_add(e as u16) } else { sp.wrapping_sub(256 - e as u16) };
    (value, sp % 16 + (e % 16) as u16 > 0x0F, sp % 256 + e as u16 > 0xFF)
}

/// `ADD A, x` sets Z exactly when (A + x) mod 256 is 0, C exactly when A + x >= 256 and
/// H exactly when (A & 0x0F) + (x & 0x0F) >= 0x10.
pub proof fn lemma_add_flags(a: u8, x: u8)
    ensures
        add_spec(a, x, false).z <==> (a + x) % 256 == 0,
        add_spec(a, x, false).c <==> a + x >= 256,
        add_spec(a, x, false).h <==> (a & 0x0F) + (x & 0x0F) >= 0x10,
        add_spec(a, x, false).value == (a + x) % 256,
{
    assert(a & 0x0F == a % 16) by (bit_vector);
    assert(x & 0x0F == x % 16) by (bit_vector);
}

/// Subtracting with borrow the operand and carry that were added with carry gives A back.
pub proof fn lemma_adc_then_sbc(a: u8, x: u8, c: bool)
    ensures
        sub_spec(add_spec(a, x, c).value, x, c).value == a,
{
}

/// `SWAP` is its own inverse.
pub proof fn lemma_swap_involutive(v: u8)
    ensures
        shift_spec(ShiftOp::Swap, shift_spec(ShiftOp::Swap, v, false).0, false).0 == v,
{
    assert((((v << 4u8) | (v >> 4u8)) << 4u8) | (((v << 4u8) | (v >> 4u8)) >> 4u8) == v) by (bit_vector);
}

/// `RLC` applied `k` times.
pub open spec fn rlc_times(v: u8, k: nat) -> u8
    decreases k,
{
    if k == 0 {
        v
    } else {
        shift_spec(ShiftOp::Rlc, rlc_times(v, (k - 1) as nat), false).0
    }
}

/// Rotation of `v` left by `k` bits, for `k` in 0..8.
pub open spec fn rotate_left(v: u8, k: u8) -> u8 {
    (v << k) | (v >> ((8 - k) as u8))
}

/// `RLC` applied `k` times, for `k` in 0..8, rotates left by `k` bits, and `RLC` applied
/// eight times gives the value back.
pub proof fn lemma_rlc_times(v: u8, k: u8)
    requires
        k < 8,
    ensures
        rlc_times(v, k as nat) == rotate_left(v, k),
        rlc_times(v, 8) == v,
{
    lemma_rlc_times_rotates(v, k);
    lemma_rlc_times_rotates(v, 7);
    let r = rotate_left(v, 7);
    assert(((((v << 7u8) | (v >> 1u8)) << 1u8) | (((v << 7u8) | (v >> 1u8)) >> 7u8)) == v) by (bit_vector);
    assert(r == (v << 7u8) | (v >> 1u8));
}

proof fn lemma_rlc_times_rotates(v: u8, k: u8)
    requires
        k < 8,
    ensures
        rlc_times(v, k as nat) == rotate_left(v, k),
    decreases k,
{
    if k == 0 {
        assert((v << 0u8) | (v >> 8u8) == v) by (bit_vector);
    } else {
        let j = (k - 1) as u8;
        lemma_rlc_times_rotates(v, j);
        let r = rotate_left(v, j);
        assert(j < 7 ==> ((((v << j) | (v >> ((8 - j) as u8))) << 1u8) | (((v << j) | (v >> ((8 - j) as u8))) >> 7u8))
            == ((v << ((j + 1) as u8)) | (v >> ((8 - (j + 1)) as u8)))) by (bit_vector);
        assert(k as nat - 1 == j as nat);
    }
}

} // verus!
