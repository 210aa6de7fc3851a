use vstd::prelude::*;

use crate::regs::Flags;

verus! {

/// A computed byte and the flags that come with it.
#[derive(Clone, Copy, Debug, PartialEq, Eq, Structural)]
pub struct AluOut {
    pub value: u8,
    pub flags: Flags,
}

pub open spec fn cin(c: bool) -> int {
    if c {
        1
    } else {
        0
    }
}

/// ADD / ADC: carry out of bit 3 into H, out of bit 7 into C.
pub open spec fn add8_spec(a: u8, b: u8, carry: bool) -> AluOut {
    let sum = a + b + cin(carry);
    AluOut {
        value: (sum % 256) as u8,
        flags: Flags {
            z: sum % 256 == 0,
            n: false,
            h: a % 16 + b % 16 + cin(carry) > 15,
            c: sum > 255,
        },
    }
}

/// SUB / SBC / CP: borrow from bit 4 into H, from bit 8 into C.
pub open spec fn sub8_spec(a: u8, b: u8, carry: bool) -> AluOut {
    let diff = a - b - cin(carry);
    AluOut {
        value: (diff % 256) as u8,
        flags: Flags {
            z: diff % 256 == 0,
            n: true,
            h: a % 16 < b % 16 + cin(carry),
            c: diff < 0,
        },
    }
}

pub open spec fn and8_spec(a: u8, b: u8) -> AluOut {
    AluOut { value: a & b, flags: Flags { z: a & b == 0, n: false, h: true, c: false } }
}

pub open spec fn or8_spec(a: u8, b: u8) -> AluOut {
    AluOut { value: a | b, flags: Flags { z: a | b == 0, n: false, h: false, c: false } }
}

pub open spec fn xor8_spec(a: u8, b: u8) -> AluOut {
    AluOut { value: a ^ b, flags: Flags { z: a ^ b == 0, n: false, h: false, c: false } }
}

/// INC r: C is kept.
pub open spec fn inc8_spec(v: u8, f: Flags) -> AluOut {
    let r = ((v + 1) % 256) as u8;
    AluOut { value: r, flags: Flags { z: r == 0, n: false, h: v % 16 == 15, c: f.c } }
}

/// DEC r: C is kept.
pub open spec fn dec8_spec(v: u8, f: Flags) -> AluOut {
    let r = ((v - 1) % 256) as u8;
    AluOut { value: r, flags: Flags { z: r == 0, n: true, h: v % 16 == 0, c: f.c } }
}

/// DAA: packed-BCD correction of A after an addition (N clear) or a
/// subtraction (N set).
pub open spec fn daa_spec(a: u8, f: Flags) -> AluOut {
    let hi = if f.n { f.c } else { f.c || a > 0x99 };
    let lo = if f.n { f.h } else { f.h || a % 16 > 9 };
    let adj = (if hi { 0x60int } else { 0 }) + (if lo { 6int } else { 0 });
    let r = (if f.n { (a - adj) % 256 } else { (a + adj) % 256 }) as u8;
    AluOut { value: r, flags: Flags { z: r == 0, n: f.n, h: false, c: hi } }
}

/// Which single-bit shift or rotation of the extended table.
#[derive(Clone, Copy, Debug, PartialEq, Eq, Structural)]
pub enum Shift {
    Rlc,
    Rrc,
    Rl,
    Rr,
    Sla,
    Sra,
    Swap,
    Srl,
}

/// The byte after a shift or rotation, and the bit that left it.
pub open spec fn shift_value(k: Shift, v: u8, carry: bool) -> u8 {
    (match k {
        Shift::Rlc => (v * 2) % 256 + v / 128,
        Shift::Rrc => v / 2 + (v % 2) * 128,
        Shift::Rl => (v * 2) % 256 + cin(carry),
        Shift::Rr => v / 2 + cin(carry) * 128,
        Shift::Sla => (v * 2) % 256,
        Shift::Sra => v / 2 + (v / 128) * 128,
        Shift::Swap => (v % 16) * 16 + v / 16,
        Shift::Srl => v as int / 2,
    }) as u8
}

pub open spec fn shift_carry(k: Shift, v: u8) -> bool {
    match k {
        Shift::Rlc | Shift::Rl | Shift::Sla => v >= 128,
        Shift::Rrc | Shift::Rr | Shift::Sra | Shift::Srl => v % 2 == 1,
        Shift::Swap => false,
    }
}

/// Extended-table form: Z from the result, N and H clear, C the bit shifted
/// out (clear for SWAP).
pub open spec fn shift_spec(k: Shift, v: u8, f: Flags) -> AluOut {
    let r = shift_value(k, v, f.c);
    AluOut { value: r, flags: Flags { z: r == 0, n: false, h: false, c: shift_carry(k, v) } }
}

/// Accumulator short form (RLCA, RRCA, RLA, RRA): same byte, Z always clear.
pub open spec fn shift_a_spec(k: Shift, v: u8, f: Flags) -> AluOut {
    AluOut { value: shift_value(k, v, f.c), flags: Flags { z: false, ..shift_spec(k, v, f).flags } }
}

pub open spec fn bit_set(v: u8, i: u8) -> bool {
    (v as int / pow2(i as nat) as int) % 2 == 1
}

pub open spec fn pow2(i: nat) -> nat
    decreases i,
{
    if i == 0 {
        1
    } else {
        2 * pow2((i - 1) as nat)
    }
}

/// BIT: Z is the complement of the tested bit, N clear, H set, C kept.
pub open spec fn bit_test_flags(v: u8, i: u8, f: Flags) -> Flags {
    Flags { z: !bit_set(v, i), n: false, h: true, c: f.c }
}

/// SET / RES: the byte with bit `i` forced to 1 / 0.
pub open spec fn with_bit(v: u8, i: u8, on: bool) -> u8 {
    let p = pow2(i as nat) as int;
    (if on == bit_set(v, i) {
        v as int
    } else if on {
        v + p
    } else {
        v - p
    }) as u8
}

/// 16-bit ADD HL,rr: Z kept, N clear, H out of bit 11, C out of bit 15.
pub open spec fn add16_spec(x: u16, y: u16, f: Flags) -> (u16, Flags) {
    (
        ((x + y) % 0x10000) as u16,
        Flags { z: f.z, n: false, h: x % 0x1000 + y % 0x1000 > 0xFFF, c: x + y > 0xFFFF },
    )
}

/// The signed value of a displacement byte.
pub open spec fn signed8(e: u8) -> int {
    if e < 128 {
        e as int
    } else {
        e - 256
    }
}

/// SP plus a signed byte (ADD SP,e and LD HL,SP+e): Z and N clear, H and C
/// from the unsigned addition of the low byte.
pub open spec fn sp_offset_spec(sp: u16, e: u8) -> (u16, Flags) {
    (
        ((sp + signed8(e) + 0x10000) % 0x10000) as u16,
        Flags { z: false, n: false, h: sp % 16 + e % 16 > 15, c: sp % 256 + e > 255 },
    )
}

/// ADD / ADC on the accumulator.
pub fn add8(a: u8, b: u8, carry: bool) -> (r: AluOut)
    ensures
        r == add8_spec(a, b, carry),
        r.value == (a + b + cin(carry)) % 256,
        r.flags.z == (r.value == 0),
        r.flags.h == (a % 16 + b % 16 + cin(carry) >= 16),
        r.flags.c == (a + b + cin(carry) >= 256),
{
    let ci: u16 = if carry { 1 } else { 0 };
    let sum: u16 = a as u16 + b as u16 + ci;
    let value = (sum % 256) as u8;
    AluOut {
        value,
        flags: Flags {
            z: value == 0,
            n: false,
            h: (a % 16) as u16 + (b % 16) as u16 + ci > 15,
            c: sum > 255,
        },
    }
}

/// SUB / SBC / CP on the accumulator.
pub fn sub8(a: u8, b: u8, carry: bool) -> (r: AluOut)
    ensures
        r == sub8_spec(a, b, carry),
        r.value == (a - b - cin(carry)) % 256,
        r.flags.z == (r.value == 0),
        r.flags.h == (a % 16 < b % 16 + cin(carry)),
        r.flags.c == (a < b + cin(carry)),
{
    let ci: u16 = if carry { 1 } else { 0 };
    let sub: u16 = b as u16 + ci;
    let value = ((a as u16 + 256 - sub) % 256) as u8;
    AluOut {
        value,
        flags: Flags { z: value == 0, n: true, h: ((a % 16) as u16) < (b % 16) as u16 + ci, c: (a as u16) < sub },
    }
}

pub fn and8(a: u8, b: u8) -> (r: AluOut)
    ensures
        r == and8_spec(a, b),
{
    let v = a & b;
    AluOut { value: v, flags: Flags { z: v == 0, n: false, h: true, c: false } }
}

pub fn or8(a: u8, b: u8) -> (r: AluOut)
    ensures
        r == or8_spec(a, b),
{
    let v = a | b;
    AluOut { value: v, flags: Flags { z: v == 0, n: false, h: false, c: false } }
}

pub fn xor8(a: u8, b: u8) -> (r: AluOut)
    ensures
        r == xor8_spec(a, b),
{
    let v = a ^ b;
    AluOut { value: v, flags: Flags { z: v == 0, n: false, h: false, c: false } }
}

pub fn inc8(v: u8, f: Flags) -> (r: AluOut)
    ensures
        r == inc8_spec(v, f),
{
    let value = v.wrapping_add(1);
    AluOut { value, flags: Flags { z: value == 0, n: false, h: v % 16 == 15, c: f.c } }
}

pub fn dec8(v: u8, f: Flags) -> (r: AluOut)
    ensures
        r == dec8_spec(v, f),
{
    let value = v.wrapping_sub(1);
    AluOut { value, flags: Flags { z: value == 0, n: true, h: v % 16 == 0, c: f.c } }
}

pub fn daa(a: u8, f: Flags) -> (r: AluOut)
    ensures
        r == daa_spec(a, f),
{
    let hi = if f.n { f.c } else { f.c || a > 0x99 };
    let lo = if f.n { f.h } else { f.h || a % 16 > 9 };
    let adj: u8 = (if hi { 0x60u8 } else { 0 }) + (if lo { 6u8 } else { 0 });
    let value = if f.n { a.wrapping_sub(adj) } else { a.wrapping_add(adj) };
    AluOut { value, flags: Flags { z: value == 0, n: f.n, h: false, c: hi } }
}

fn shifted(k: Shift, v: u8, carry: bool) -> (r: u8)
    ensures
        r == shift_value(k, v, carry),
{
    let ci: u8 = if carry { 1 } else { 0 };
    match k {
        Shift::Rlc => (v % 128) * 2 + v / 128,
        Shift::Rrc => v / 2 + (v % 2) * 128,
        Shift::Rl => (v % 128) * 2 + ci,
        Shift::Rr => v / 2 + ci * 128,
        Shift::Sla => (v % 128) * 2,
        Shift::Sra => v / 2 + (v / 128) * 128,
        Shift::Swap => (v % 16) * 16 + v / 16,
        Shift::Srl => v / 2,
    }
}

fn shifted_out(k: Shift, v: u8) -> (c: bool)
    ensures
        c == shift_carry(k, v),
{
    match k {
        Shift::Rlc | Shift::Rl | Shift::Sla => v >= 128,
        Shift::Rrc | Shift::Rr | Shift::Sra | Shift::Srl => v % 2 == 1,
        Shift::Swap => false,
    }
}

/// RLC, RRC, RL, RR, SLA, SRA, SWAP, SRL on a register or (HL).
pub fn shift(k: Shift, v: u8, f: Flags) -> (r: AluOut)
    ensures
        r == shift_spec(k, v, f),
{
    let value = shifted(k, v, f.c);
    AluOut { value, flags: Flags { z: value == 0, n: false, h: false, c: shifted_out(k, v) } }
}

/// RLCA, RRCA, RLA, RRA.
pub fn shift_a(k: Shift, v: u8, f: Flags) -> (r: AluOut)
    ensures
        r == shift_a_spec(k, v, f),
{
    let value = shifted(k, v, f.c);
    AluOut { value, flags: Flags { z: false, n: false, h: false, c: shifted_out(k, v) } }
}

fn bit_weight(i: u8) -> (p: u8)
    requires
        i < 8,
    ensures
        p as nat == pow2(i as nat),
        p == 1 || p == 2 || p == 4 || p == 8 || p == 16 || p == 32 || p == 64 || p == 128,
{
    proof {
        reveal_with_fuel(pow2, 8);
    }
    match i {
        0 => 1,
        1 => 2,
        2 => 4,
        3 => 8,
        4 => 16,
        5 => 32,
        6 => 64,
        _ => 128,
    }
}

/// BIT i: flags only.
pub fn bit_test(v: u8, i: u8, f: Flags) -> (r: Flags)
    requires
        i < 8,
    ensures
        r == bit_test_flags(v, i, f),
{
    let p = bit_weight(i);
    Flags { z: (v / p) % 2 == 0, n: false, h: true, c: f.c }
}

/// SET i (`on`) or RES i.
pub fn bit_write(v: u8, i: u8, on: bool) -> (r: u8)
    requires
        i < 8,
    ensures
        r == with_bit(v, i, on),
{
    let p = bit_weight(i);
    let is_set = (v / p) % 2 == 1;
    if on == is_set {
        v
    } else if on {
        proof {
            assert(v as int + p as int <= 255) by (nonlinear_arith)
                requires
                    (v as int / p as int) % 2 == 0,
                    p == 1 || p == 2 || p == 4 || p == 8 || p == 16 || p == 32 || p == 64 || p == 128,
            ;
        }
        v + p
    } else {
        proof {
            assert(v as int >= p as int) by (nonlinear_arith)
                requires
                    (v as int / p as int) % 2 == 1,
                    p >= 1,
            ;
        }
        v - p
    }
}

pub fn add16(x: u16, y: u16, f: Flags) -> (r: (u16, Flags))
    ensures
        r == add16_spec(x, y, f),
{
    let sum: u32 = x as u32 + y as u32;
    ((sum % 0x10000) as u16, Flags { z: f.z, n: false, h: x % 0x1000 + y % 0x1000 > 0xFFF, c: sum > 0xFFFF })
}

pub fn sp_offset(sp: u16, e: u8) -> (r: (u16, Flags))
    ensures
        r == sp_offset_spec(sp, e),
{
    let wide: u32 = if e < 128 { sp as u32 + e as u32 } else { sp as u32 + 0x10000 - (256 - e as u32) };
    (
        (wide % 0x10000) as u16,
        Flags { z: false, n: false, h: sp % 16 + (e % 16) as u16 > 15, c: sp % 256 + e as u16 > 255 },
    )
}

/// Every shift and rotation moves each bit of the byte by exactly one place
/// (SWAP by four), and the bit that leaves becomes the carry. RLC and RRC
/// bring it back in at the other end, RL and RR bring in the old carry, SLA
/// and SRL bring in 0, and SRA keeps the top bit.
pub proof fn lemma_shift_bits(v: u8, c: bool)
    ensures
        shift_value(Shift::Rlc, v, c) == ((v << 1u8) | (v >> 7u8)),
        shift_value(Shift::Rrc, v, c) == ((v >> 1u8) | (v << 7u8)),
        shift_value(Shift::Rl, v, c) == ((v << 1u8) | (if c { 1u8 } else { 0u8 })),
        shift_value(Shift::Rr, v, c) == ((v >> 1u8) | (if c { 0x80u8 } else { 0u8 })),
        shift_value(Shift::Sla, v, c) == (v << 1u8),
        shift_value(Shift::Sra, v, c) == ((v >> 1u8) | (v & 0x80u8)),
        shift_value(Shift::Srl, v, c) == (v >> 1u8),
        shift_value(Shift::Swap, v, c) == ((v << 4u8) | (v >> 4u8)),
        shift_carry(Shift::Rlc, v) == (v >> 7u8 == 1u8),
        shift_carry(Shift::Rl, v) == (v >> 7u8 == 1u8),
        shift_carry(Shift::Sla, v) == (v >> 7u8 == 1u8),
        shift_carry(Shift::Rrc, v) == (v & 1u8 == 1u8),
        shift_carry(Shift::Rr, v) == (v & 1u8 == 1u8),
        shift_carry(Shift::Sra, v) == (v & 1u8 == 1u8),
        shift_carry(Shift::Srl, v) == (v & 1u8 == 1u8),
{
    let w = v as u32;
    assert(((w * 2) % 256 + w / 128) as u8 == ((v << 1u8) | (v >> 7u8))) by (bit_vector)
        requires
            w == v as u32,
    ;
    assert((w / 2 + (w % 2) * 128) as u8 == ((v >> 1u8) | (v << 7u8))) by (bit_vector)
        requires
            w == v as u32,
    ;
    assert(((w * 2) % 256 + 1) as u8 == ((v << 1u8) | 1u8)) by (bit_vector)
        requires
            w == v as u32,
    ;
    assert(((w * 2) % 256) as u8 == ((v << 1u8) | 0u8)) by (bit_vector)
        requires
            w == v as u32,
    ;
    assert((w / 2 + 128) as u8 == ((v >> 1u8) | 0x80u8)) by (bit_vector)
        requires
            w == v as u32,
    ;
    assert((w / 2) as u8 == ((v >> 1u8) | 0u8)) by (bit_vector)
        requires
            w == v as u32,
    ;
    assert(((w * 2) % 256) as u8 == (v << 1u8)) by (bit_vector)
        requires
            w == v as u32,
    ;
    assert((w / 2 + (w / 128) * 128) as u8 == ((v >> 1u8) | (v & 0x80u8))) by (bit_vector)
        requires
            w == v as u32,
    ;
    assert((w / 2) as u8 == (v >> 1u8)) by (bit_vector)
        requires
            w == v as u32,
    ;
    assert(((w % 16) * 16 + w / 16) as u8 == ((v << 4u8) | (v >> 4u8))) by (bit_vector)
        requires
            w == v as u32,
    ;
    assert((w >= 128) == (v >> 7u8 == 1u8)) by (bit_vector)
        requires
            w == v as u32,
    ;
    assert((w % 2 == 1) == (v & 1u8 == 1u8)) by (bit_vector)
        requires
            w == v as u32,
    ;
}

} // verus!
