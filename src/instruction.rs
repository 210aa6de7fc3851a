use vstd::prelude::*;

use crate::memory::Memory;
use crate::regs::Register;

verus! {

/// Instruction identities, one executor each.
#[derive(Clone, Copy, Debug, PartialEq, Eq, Structural)]
pub enum Op {
    Nop,
    Stop,
    Halt,
    Ld,
    Ldh,
    Push,
    Pop,
    Add,
    Adc,
    Sub,
    Sbc,
    And,
    Xor,
    Or,
    Cp,
    Inc,
    Dec,
    Daa,
    Cpl,
    Scf,
    Ccf,
    Rlca,
    Rrca,
    Rla,
    Rra,
    Jr,
    JrNz,
    JrZ,
    JrNc,
    JrC,
    Jp,
    JpNz,
    JpZ,
    JpNc,
    JpC,
    Call,
    CallNz,
    CallZ,
    CallNc,
    CallC,
    Ret,
    RetNz,
    RetZ,
    RetNc,
    RetC,
    Reti,
    Rst,
    Di,
    Ei,
    PrefixCb,
    Invalid,
    Rlc,
    Rrc,
    Rl,
    Rr,
    Sla,
    Sra,
    Swap,
    Srl,
    Bit,
    Res,
    SetBit,
}

/// Addressing modes; resolved against the machine state only when the
/// instruction runs.
#[derive(Clone, Copy, Debug, PartialEq, Eq, Structural)]
pub enum Operand {
    Implied,
    /// A register or register pair.
    Reg(Register),
    /// The byte after the opcode.
    Imm8,
    /// The two bytes after the opcode, little-endian.
    Imm16,
    /// Memory at the address held in a pair.
    Ind(Register),
    /// Memory at the address in a pair, which is incremented afterwards.
    IndInc(Register),
    /// Memory at the address in a pair, which is decremented afterwards.
    IndDec(Register),
    /// Memory at a 16-bit immediate address.
    Abs,
    /// Memory at 0xFF00 plus an 8-bit immediate.
    HighImm,
    /// Memory at 0xFF00 plus register C.
    HighC,
    /// A signed 8-bit immediate displacement.
    Rel,
    /// SP plus a signed 8-bit immediate.
    SpRel,
    /// A bit index, 0 to 7.
    Bit(u8),
    /// A restart target address.
    Vector(u8),
}

/// Static description of one opcode.
#[derive(Clone, Copy, Debug, PartialEq, Eq, Structural)]
pub struct Entry {
    pub op: Op,
    pub first: Operand,
    pub second: Operand,
    pub len: u16,
    /// Cycles when no branch is taken.
    pub cycles: u8,
    /// Cycles when a branch is taken; equal to `cycles` for other opcodes.
    pub cycles_taken: u8,
}

/// A decoded instruction.
#[derive(Clone, Copy, Debug, PartialEq, Eq, Structural)]
pub struct Instruction {
    /// The opcode byte; for the extended table, the byte after the prefix.
    pub opcode: u8,
    pub extended: bool,
    pub op: Op,
    pub first: Operand,
    pub second: Operand,
    pub len: u16,
    pub cycles: u8,
    pub cycles_taken: u8,
    /// The byte after the opcode, when the instruction has one.
    pub imm8: u8,
    /// The two bytes after the opcode, little-endian, when it has them.
    pub imm16: u16,
}

/// Faults of a step.
#[derive(Clone, Copy, Debug, PartialEq, Eq, Structural)]
pub enum CpuError {
    /// The instruction runs past the end of the address space.
    Truncated,
    /// The opcode is one of the undefined ones.
    InvalidOpcode,
    /// An executor was handed an operand shape it does not support.
    BadOperand,
}

pub open spec fn fixed(op: Op, first: Operand, second: Operand, len: u16, cycles: u8) -> Entry {
    Entry { op, first, second, len, cycles, cycles_taken: cycles }
}

/// The 8-bit operand selected by a 3-bit field: B, C, D, E, H, L, (HL), A.
pub open spec fn r8(i: int) -> Operand {
    if i == 0 {
        Operand::Reg(Register::B)
    } else if i == 1 {
        Operand::Reg(Register::C)
    } else if i == 2 {
        Operand::Reg(Register::D)
    } else if i == 3 {
        Operand::Reg(Register::E)
    } else if i == 4 {
        Operand::Reg(Register::H)
    } else if i == 5 {
        Operand::Reg(Register::L)
    } else if i == 6 {
        Operand::Ind(Register::HL)
    } else {
        Operand::Reg(Register::A)
    }
}

/// The pair selected by a 2-bit field: BC, DE, HL and, for PUSH/POP, AF
/// in place of SP.
pub open spec fn pair(i: int, with_af: bool) -> Register {
    if i == 0 {
        Register::BC
    } else if i == 1 {
        Register::DE
    } else if i == 2 {
        Register::HL
    } else if with_af {
        Register::AF
    } else {
        Register::SP
    }
}

/// NZ, Z, NC, C forms of a branch family.
pub open spec fn cond_op(i: int, nz: Op, z: Op, nc: Op, c: Op) -> Op {
    if i == 0 {
        nz
    } else if i == 1 {
        z
    } else if i == 2 {
        nc
    } else {
        c
    }
}

/// The eight accumulator operations, with `src` as their operand.
pub open spec fn alu_entry(i: int, src: Operand, len: u16, cycles: u8) -> Entry {
    let a = Operand::Reg(Register::A);
    if i == 0 {
        fixed(Op::Add, a, src, len, cycles)
    } else if i == 1 {
        fixed(Op::Adc, a, src, len, cycles)
    } else if i == 2 {
        fixed(Op::Sub, src, Operand::Implied, len, cycles)
    } else if i == 3 {
        fixed(Op::Sbc, a, src, len, cycles)
    } else if i == 4 {
        fixed(Op::And, src, Operand::Implied, len, cycles)
    } else if i == 5 {
        fixed(Op::Xor, src, Operand::Implied, len, cycles)
    } else if i == 6 {
        fixed(Op::Or, src, Operand::Implied, len, cycles)
    } else {
        fixed(Op::Cp, src, Operand::Implied, len, cycles)
    }
}

/// The one-byte accumulator and flag operations of column 7.
pub open spec fn misc_op(i: int) -> Op {
    if i == 0 {
        Op::Rlca
    } else if i == 1 {
        Op::Rrca
    } else if i == 2 {
        Op::Rla
    } else if i == 3 {
        Op::Rra
    } else if i == 4 {
        Op::Daa
    } else if i == 5 {
        Op::Cpl
    } else if i == 6 {
        Op::Scf
    } else {
        Op::Ccf
    }
}

pub open spec fn invalid_entry() -> Entry {
    fixed(Op::Invalid, Operand::Implied, Operand::Implied, 1, 4)
}

/// The primary opcode table, by the fields of the opcode byte: `x` its top
/// two bits, `y` the middle three, `z` the low three (`y = 2p + q`).
pub open spec fn primary_spec(b: u8) -> Entry {
    let x = b as int / 64;
    let y = (b as int / 8) % 8;
    let z = b as int % 8;
    let p = y / 2;
    let q = y % 2;
    let none = Operand::Implied;
    let hl = Operand::Reg(Register::HL);
    let a = Operand::Reg(Register::A);
    if x == 0 {
        if z == 0 {
            if y == 0 {
                fixed(Op::Nop, none, none, 1, 4)
            } else if y == 1 {
                fixed(Op::Ld, Operand::Abs, Operand::Reg(Register::SP), 3, 20)
            } else if y == 2 {
                fixed(Op::Stop, none, none, 2, 4)
            } else if y == 3 {
                fixed(Op::Jr, Operand::Rel, none, 2, 12)
            } else {
                Entry {
                    op: cond_op(y - 4, Op::JrNz, Op::JrZ, Op::JrNc, Op::JrC),
                    first: Operand::Rel,
                    second: none,
                    len: 2,
                    cycles: 8,
                    cycles_taken: 12,
                }
            }
        } else if z == 1 {
            if q == 0 {
                fixed(Op::Ld, Operand::Reg(pair(p, false)), Operand::Imm16, 3, 12)
            } else {
                fixed(Op::Add, hl, Operand::Reg(pair(p, false)), 1, 8)
            }
        } else if z == 2 {
            let m = if p == 0 {
                Operand::Ind(Register::BC)
            } else if p == 1 {
                Operand::Ind(Register::DE)
            } else if p == 2 {
                Operand::IndInc(Register::HL)
            } else {
                Operand::IndDec(Register::HL)
            };
            if q == 0 {
                fixed(Op::Ld, m, a, 1, 8)
            } else {
                fixed(Op::Ld, a, m, 1, 8)
            }
        } else if z == 3 {
            fixed(if q == 0 { Op::Inc } else { Op::Dec }, Operand::Reg(pair(p, false)), none, 1, 8)
        } else if z == 4 {
            fixed(Op::Inc, r8(y), none, 1, if y == 6 { 12 } else { 4 })
        } else if z == 5 {
            fixed(Op::Dec, r8(y), none, 1, if y == 6 { 12 } else { 4 })
        } else if z == 6 {
            fixed(Op::Ld, r8(y), Operand::Imm8, 2, if y == 6 { 12 } else { 8 })
        } else {
            fixed(misc_op(y), none, none, 1, 4)
        }
    } else if x == 1 {
        if y == 6 && z == 6 {
            fixed(Op::Halt, none, none, 1, 4)
        } else {
            fixed(Op::Ld, r8(y), r8(z), 1, if y == 6 || z == 6 { 8 } else { 4 })
        }
    } else if x == 2 {
        alu_entry(y, r8(z), 1, if z == 6 { 8 } else { 4 })
    } else if z == 0 {
        if y < 4 {
            Entry {
                op: cond_op(y, Op::RetNz, Op::RetZ, Op::RetNc, Op::RetC),
                first: none,
                second: none,
                len: 1,
                cycles: 8,
                cycles_taken: 20,
            }
        } else if y == 4 {
            fixed(Op::Ldh, Operand::HighImm, a, 2, 12)
        } else if y == 5 {
            fixed(Op::Add, Operand::Reg(Register::SP), Operand::Rel, 2, 16)
        } else if y == 6 {
            fixed(Op::Ldh, a, Operand::HighImm, 2, 12)
        } else {
            fixed(Op::Ld, hl, Operand::SpRel, 2, 12)
        }
    } else if z == 1 {
        if q == 0 {
            fixed(Op::Pop, Operand::Reg(pair(p, true)), none, 1, 12)
        } else if p == 0 {
            fixed(Op::Ret, none, none, 1, 16)
        } else if p == 1 {
            fixed(Op::Reti, none, none, 1, 16)
        } else if p == 2 {
            fixed(Op::Jp, hl, none, 1, 4)
        } else {
            fixed(Op::Ld, Operand::Reg(Register::SP), hl, 1, 8)
        }
    } else if z == 2 {
        if y < 4 {
            Entry {
                op: cond_op(y, Op::JpNz, Op::JpZ, Op::JpNc, Op::JpC),
                first: Operand::Imm16,
                second: none,
                len: 3,
                cycles: 12,
                cycles_taken: 16,
            }
        } else if y == 4 {
            fixed(Op::Ld, Operand::HighC, a, 1, 8)
        } else if y == 5 {
            fixed(Op::Ld, Operand::Abs, a, 3, 16)
        } else if y == 6 {
            fixed(Op::Ld, a, Operand::HighC, 1, 8)
        } else {
            fixed(Op::Ld, a, Operand::Abs, 3, 16)
        }
    } else if z == 3 {
        if y == 0 {
            fixed(Op::Jp, Operand::Imm16, none, 3, 16)
        } else if y == 1 {
            fixed(Op::PrefixCb, none, none, 2, 4)
        } else if y == 6 {
            fixed(Op::Di, none, none, 1, 4)
        } else if y == 7 {
            fixed(Op::Ei, none, none, 1, 4)
        } else {
            invalid_entry()
        }
    } else if z == 4 {
        if y < 4 {
            Entry {
                op: cond_op(y, Op::CallNz, Op::CallZ, Op::CallNc, Op::CallC),
                first: Operand::Imm16,
                second: none,
                len: 3,
                cycles: 12,
                cycles_taken: 24,
            }
        } else {
            invalid_entry()
        }
    } else if z == 5 {
        if q == 0 {
            fixed(Op::Push, Operand::Reg(pair(p, true)), none, 1, 16)
        } else if p == 0 {
            fixed(Op::Call, Operand::Imm16, none, 3, 24)
        } else {
            invalid_entry()
        }
    } else if z == 6 {
        alu_entry(y, Operand::Imm8, 2, 8)
    } else {
        fixed(Op::Rst, Operand::Vector((y * 8) as u8), none, 1, 16)
    }
}

pub open spec fn shift_op(i: int) -> Op {
    if i == 0 {
        Op::Rlc
    } else if i == 1 {
        Op::Rrc
    } else if i == 2 {
        Op::Rl
    } else if i == 3 {
        Op::Rr
    } else if i == 4 {
        Op::Sla
    } else if i == 5 {
        Op::Sra
    } else if i == 6 {
        Op::Swap
    } else {
        Op::Srl
    }
}

/// The extended table, entered through the 0xCB prefix: shifts and
/// rotations (x = 0), BIT (1), RES (2), SET (3).
pub open spec fn extended_spec(b: u8) -> Entry {
    let x = b as int / 64;
    let y = (b as int / 8) % 8;
    let z = b as int % 8;
    let slow = z == 6;
    if x == 0 {
        fixed(shift_op(y), r8(z), Operand::Implied, 2, if slow { 16 } else { 8 })
    } else if x == 1 {
        fixed(Op::Bit, Operand::Bit(y as u8), r8(z), 2, if slow { 12 } else { 8 })
    } else if x == 2 {
        fixed(Op::Res, Operand::Bit(y as u8), r8(z), 2, if slow { 16 } else { 8 })
    } else {
        fixed(Op::SetBit, Operand::Bit(y as u8), r8(z), 2, if slow { 16 } else { 8 })
    }
}

pub open spec fn byte_at(mem: Seq<u8>, addr: int) -> u8 {
    mem[addr % 0x10000]
}

/// The instruction at `pc`: the prefix selects the extended table; an
/// instruction that would run past the end of the address space is a fault.
pub open spec fn decode_spec(mem: Seq<u8>, pc: u16) -> Result<Instruction, CpuError> {
    let b0 = byte_at(mem, pc as int);
    let ext = b0 == 0xCB;
    let e = if ext {
        extended_spec(byte_at(mem, pc + 1))
    } else {
        primary_spec(b0)
    };
    if pc + e.len > 0x10000 {
        Err(CpuError::Truncated)
    } else {
        let b1 = byte_at(mem, pc + 1);
        let b2 = byte_at(mem, pc + 2);
        Ok(
            Instruction {
                opcode: if ext {
                    b1
                } else {
                    b0
                },
                extended: ext,
                op: e.op,
                first: e.first,
                second: e.second,
                len: e.len,
                cycles: e.cycles,
                cycles_taken: e.cycles_taken,
                imm8: if !ext && e.len >= 2 {
                    b1
                } else {
                    0
                },
                imm16: if !ext && e.len == 3 {
                    (b1 + b2 * 256) as u16
                } else {
                    0
                },
            },
        )
    }
}

fn entry(op: Op, first: Operand, second: Operand, len: u16, cycles: u8, cycles_taken: u8) -> (e:
    Entry)
    ensures
        e == (Entry { op, first, second, len, cycles, cycles_taken }),
{
    Entry { op, first, second, len, cycles, cycles_taken }
}

/// The primary opcode table, one row per opcode byte.
pub fn primary_entry(b: u8) -> (e: Entry)
    ensures
        e == primary_spec(b),
{
    if b < 0x40 {
        primary_row_00(b)
    } else if b < 0x80 {
        primary_row_40(b)
    } else if b < 0xC0 {
        primary_row_80(b)
    } else {
        primary_row_c0(b)
    }
}

/// Opcodes 0x00 to 0x3F: loads, 16-bit arithmetic, increments and relative jumps.
#[verifier::rlimit(60)]
fn primary_row_00(b: u8) -> (e: Entry)
    requires
        0x00 <= b < 0x40,
    ensures
        e == primary_spec(b),
{
    match b {
        0x00 => entry(Op::Nop, Operand::Implied, Operand::Implied, 1, 4, 4),
        0x01 => entry(Op::Ld, Operand::Reg(Register::BC), Operand::Imm16, 3, 12, 12),
        0x02 => entry(Op::Ld, Operand::Ind(Register::BC), Operand::Reg(Register::A), 1, 8, 8),
        0x03 => entry(Op::Inc, Operand::Reg(Register::BC), Operand::Implied, 1, 8, 8),
        0x04 => entry(Op::Inc, Operand::Reg(Register::B), Operand::Implied, 1, 4, 4),
        0x05 => entry(Op::Dec, Operand::Reg(Register::B), Operand::Implied, 1, 4, 4),
        0x06 => entry(Op::Ld, Operand::Reg(Register::B), Operand::Imm8, 2, 8, 8),
        0x07 => entry(Op::Rlca, Operand::Implied, Operand::Implied, 1, 4, 4),
        0x08 => entry(Op::Ld, Operand::Abs, Operand::Reg(Register::SP), 3, 20, 20),
        0x09 => entry(Op::Add, Operand::Reg(Register::HL), Operand::Reg(Register::BC), 1, 8, 8),
        0x0A => entry(Op::Ld, Operand::Reg(Register::A), Operand::Ind(Register::BC), 1, 8, 8),
        0x0B => entry(Op::Dec, Operand::Reg(Register::BC), Operand::Implied, 1, 8, 8),
        0x0C => entry(Op::Inc, Operand::Reg(Register::C), Operand::Implied, 1, 4, 4),
        0x0D => entry(Op::Dec, Operand::Reg(Register::C), Operand::Implied, 1, 4, 4),
        0x0E => entry(Op::Ld, Operand::Reg(Register::C), Operand::Imm8, 2, 8, 8),
        0x0F => entry(Op::Rrca, Operand::Implied, Operand::Implied, 1, 4, 4),
        0x10 => entry(Op::Stop, Operand::Implied, Operand::Implied, 2, 4, 4),
        0x11 => entry(Op::Ld, Operand::Reg(Register::DE), Operand::Imm16, 3, 12, 12),
        0x12 => entry(Op::Ld, Operand::Ind(Register::DE), Operand::Reg(Register::A), 1, 8, 8),
        0x13 => entry(Op::Inc, Operand::Reg(Register::DE), Operand::Implied, 1, 8, 8),
        0x14 => entry(Op::Inc, Operand::Reg(Register::D), Operand::Implied, 1, 4, 4),
        0x15 => entry(Op::Dec, Operand::Reg(Register::D), Operand::Implied, 1, 4, 4),
        0x16 => entry(Op::Ld, Operand::Reg(Register::D), Operand::Imm8, 2, 8, 8),
        0x17 => entry(Op::Rla, Operand::Implied, Operand::Implied, 1, 4, 4),
        0x18 => entry(Op::Jr, Operand::Rel, Operand::Implied, 2, 12, 12),
        0x19 => entry(Op::Add, Operand::Reg(Register::HL), Operand::Reg(Register::DE), 1, 8, 8),
        0x1A => entry(Op::Ld, Operand::Reg(Register::A), Operand::Ind(Register::DE), 1, 8, 8),
        0x1B => entry(Op::Dec, Operand::Reg(Register::DE), Operand::Implied, 1, 8, 8),
        0x1C => entry(Op::Inc, Operand::Reg(Register::E), Operand::Implied, 1, 4, 4),
        0x1D => entry(Op::Dec, Operand::Reg(Register::E), Operand::Implied, 1, 4, 4),
        0x1E => entry(Op::Ld, Operand::Reg(Register::E), Operand::Imm8, 2, 8, 8),
        0x1F => entry(Op::Rra, Operand::Implied, Operand::Implied, 1, 4, 4),
        0x20 => entry(Op::JrNz, Operand::Rel, Operand::Implied, 2, 8, 12),
        0x21 => entry(Op::Ld, Operand::Reg(Register::HL), Operand::Imm16, 3, 12, 12),
        0x22 => entry(Op::Ld, Operand::IndInc(Register::HL), Operand::Reg(Register::A), 1, 8, 8),
        0x23 => entry(Op::Inc, Operand::Reg(Register::HL), Operand::Implied, 1, 8, 8),
        0x24 => entry(Op::Inc, Operand::Reg(Register::H), Operand::Implied, 1, 4, 4),
        0x25 => entry(Op::Dec, Operand::Reg(Register::H), Operand::Implied, 1, 4, 4),
        0x26 => entry(Op::Ld, Operand::Reg(Register::H), Operand::Imm8, 2, 8, 8),
        0x27 => entry(Op::Daa, Operand::Implied, Operand::Implied, 1, 4, 4),
        0x28 => entry(Op::JrZ, Operand::Rel, Operand::Implied, 2, 8, 12),
        0x29 => entry(Op::Add, Operand::Reg(Register::HL), Operand::Reg(Register::HL), 1, 8, 8),
        0x2A => entry(Op::Ld, Operand::Reg(Register::A), Operand::IndInc(Register::HL), 1, 8, 8),
        0x2B => entry(Op::Dec, Operand::Reg(Register::HL), Operand::Implied, 1, 8, 8),
        0x2C => entry(Op::Inc, Operand::Reg(Register::L), Operand::Implied, 1, 4, 4),
        0x2D => entry(Op::Dec, Operand::Reg(Register::L), Operand::Implied, 1, 4, 4),
        0x2E => entry(Op::Ld, Operand::Reg(Register::L), Operand::Imm8, 2, 8, 8),
        0x2F => entry(Op::Cpl, Operand::Implied, Operand::Implied, 1, 4, 4),
        0x30 => entry(Op::JrNc, Operand::Rel, Operand::Implied, 2, 8, 12),
        0x31 => entry(Op::Ld, Operand::Reg(Register::SP), Operand::Imm16, 3, 12, 12),
        0x32 => entry(Op::Ld, Operand::IndDec(Register::HL), Operand::Reg(Register::A), 1, 8, 8),
        0x33 => entry(Op::Inc, Operand::Reg(Register::SP), Operand::Implied, 1, 8, 8),
        0x34 => entry(Op::Inc, Operand::Ind(Register::HL), Operand::Implied, 1, 12, 12),
        0x35 => entry(Op::Dec, Operand::Ind(Register::HL), Operand::Implied, 1, 12, 12),
        0x36 => entry(Op::Ld, Operand::Ind(Register::HL), Operand::Imm8, 2, 12, 12),
        0x37 => entry(Op::Scf, Operand::Implied, Operand::Implied, 1, 4, 4),
        0x38 => entry(Op::JrC, Operand::Rel, Operand::Implied, 2, 8, 12),
        0x39 => entry(Op::Add, Operand::Reg(Register::HL), Operand::Reg(Register::SP), 1, 8, 8),
        0x3A => entry(Op::Ld, Operand::Reg(Register::A), Operand::IndDec(Register::HL), 1, 8, 8),
        0x3B => entry(Op::Dec, Operand::Reg(Register::SP), Operand::Implied, 1, 8, 8),
        0x3C => entry(Op::Inc, Operand::Reg(Register::A), Operand::Implied, 1, 4, 4),
        0x3D => entry(Op::Dec, Operand::Reg(Register::A), Operand::Implied, 1, 4, 4),
        0x3E => entry(Op::Ld, Operand::Reg(Register::A), Operand::Imm8, 2, 8, 8),
        0x3F => entry(Op::Ccf, Operand::Implied, Operand::Implied, 1, 4, 4),
        _ => entry(Op::Invalid, Operand::Implied, Operand::Implied, 1, 4, 4),
    }
}

/// Opcodes 0x40 to 0x7F: 8-bit register moves and halt.
#[verifier::rlimit(60)]
fn primary_row_40(b: u8) -> (e: Entry)
    requires
        0x40 <= b < 0x80,
    ensures
        e == primary_spec(b),
{
    match b {
        0x40 => entry(Op::Ld, Operand::Reg(Register::B), Operand::Reg(Register::B), 1, 4, 4),
        0x41 => entry(Op::Ld, Operand::Reg(Register::B), Operand::Reg(Register::C), 1, 4, 4),
        0x42 => entry(Op::Ld, Operand::Reg(Register::B), Operand::Reg(Register::D), 1, 4, 4),
        0x43 => entry(Op::Ld, Operand::Reg(Register::B), Operand::Reg(Register::E), 1, 4, 4),
        0x44 => entry(Op::Ld, Operand::Reg(Register::B), Operand::Reg(Register::H), 1, 4, 4),
        0x45 => entry(Op::Ld, Operand::Reg(Register::B), Operand::Reg(Register::L), 1, 4, 4),
        0x46 => entry(Op::Ld, Operand::Reg(Register::B), Operand::Ind(Register::HL), 1, 8, 8),
        0x47 => entry(Op::Ld, Operand::Reg(Register::B), Operand::Reg(Register::A), 1, 4, 4),
        0x48 => entry(Op::Ld, Operand::Reg(Register::C), Operand::Reg(Register::B), 1, 4, 4),
        0x49 => entry(Op::Ld, Operand::Reg(Register::C), Operand::Reg(Register::C), 1, 4, 4),
        0x4A => entry(Op::Ld, Operand::Reg(Register::C), Operand::Reg(Register::D), 1, 4, 4),
        0x4B => entry(Op::Ld, Operand::Reg(Register::C), Operand::Reg(Register::E), 1, 4, 4),
        0x4C => entry(Op::Ld, Operand::Reg(Register::C), Operand::Reg(Register::H), 1, 4, 4),
        0x4D => entry(Op::Ld, Operand::Reg(Register::C), Operand::Reg(Register::L), 1, 4, 4),
        0x4E => entry(Op::Ld, Operand::Reg(Register::C), Operand::Ind(Register::HL), 1, 8, 8),
        0x4F => entry(Op::Ld, Operand::Reg(Register::C), Operand::Reg(Register::A), 1, 4, 4),
        0x50 => entry(Op::Ld, Operand::Reg(Register::D), Operand::Reg(Register::B), 1, 4, 4),
        0x51 => entry(Op::Ld, Operand::Reg(Register::D), Operand::Reg(Register::C), 1, 4, 4),
        0x52 => entry(Op::Ld, Operand::Reg(Register::D), Operand::Reg(Register::D), 1, 4, 4),
        0x53 => entry(Op::Ld, Operand::Reg(Register::D), Operand::Reg(Register::E), 1, 4, 4),
        0x54 => entry(Op::Ld, Operand::Reg(Register::D), Operand::Reg(Register::H), 1, 4, 4),
        0x55 => entry(Op::Ld, Operand::Reg(Register::D), Operand::Reg(Register::L), 1, 4, 4),
        0x56 => entry(Op::Ld, Operand::Reg(Register::D), Operand::Ind(Register::HL), 1, 8, 8),
        0x57 => entry(Op::Ld, Operand::Reg(Register::D), Operand::Reg(Register::A), 1, 4, 4),
        0x58 => entry(Op::Ld, Operand::Reg(Register::E), Operand::Reg(Register::B), 1, 4, 4),
        0x59 => entry(Op::Ld, Operand::Reg(Register::E), Operand::Reg(Register::C), 1, 4, 4),
        0x5A => entry(Op::Ld, Operand::Reg(Register::E), Operand::Reg(Register::D), 1, 4, 4),
        0x5B => entry(Op::Ld, Operand::Reg(Register::E), Operand::Reg(Register::E), 1, 4, 4),
        0x5C => entry(Op::Ld, Operand::Reg(Register::E), Operand::Reg(Register::H), 1, 4, 4),
        0x5D => entry(Op::Ld, Operand::Reg(Register::E), Operand::Reg(Register::L), 1, 4, 4),
        0x5E => entry(Op::Ld, Operand::Reg(Register::E), Operand::Ind(Register::HL), 1, 8, 8),
        0x5F => entry(Op::Ld, Operand::Reg(Register::E), Operand::Reg(Register::A), 1, 4, 4),
        0x60 => entry(Op::Ld, Operand::Reg(Register::H), Operand::Reg(Register::B), 1, 4, 4),
        0x61 => entry(Op::Ld, Operand::Reg(Register::H), Operand::Reg(Register::C), 1, 4, 4),
        0x62 => entry(Op::Ld, Operand::Reg(Register::H), Operand::Reg(Register::D), 1, 4, 4),
        0x63 => entry(Op::Ld, Operand::Reg(Register::H), Operand::Reg(Register::E), 1, 4, 4),
        0x64 => entry(Op::Ld, Operand::Reg(Register::H), Operand::Reg(Register::H), 1, 4, 4),
        0x65 => entry(Op::Ld, Operand::Reg(Register::H), Operand::Reg(Register::L), 1, 4, 4),
        0x66 => entry(Op::Ld, Operand::Reg(Register::H), Operand::Ind(Register::HL), 1, 8, 8),
        0x67 => entry(Op::Ld, Operand::Reg(Register::H), Operand::Reg(Register::A), 1, 4, 4),
        0x68 => entry(Op::Ld, Operand::Reg(Register::L), Operand::Reg(Register::B), 1, 4, 4),
        0x69 => entry(Op::Ld, Operand::Reg(Register::L), Operand::Reg(Register::C), 1, 4, 4),
        0x6A => entry(Op::Ld, Operand::Reg(Register::L), Operand::Reg(Register::D), 1, 4, 4),
        0x6B => entry(Op::Ld, Operand::Reg(Register::L), Operand::Reg(Register::E), 1, 4, 4),
        0x6C => entry(Op::Ld, Operand::Reg(Register::L), Operand::Reg(Register::H), 1, 4, 4),
        0x6D => entry(Op::Ld, Operand::Reg(Register::L), Operand::Reg(Register::L), 1, 4, 4),
        0x6E => entry(Op::Ld, Operand::Reg(Register::L), Operand::Ind(Register::HL), 1, 8, 8),
        0x6F => entry(Op::Ld, Operand::Reg(Register::L), Operand::Reg(Register::A), 1, 4, 4),
        0x70 => entry(Op::Ld, Operand::Ind(Register::HL), Operand::Reg(Register::B), 1, 8, 8),
        0x71 => entry(Op::Ld, Operand::Ind(Register::HL), Operand::Reg(Register::C), 1, 8, 8),
        0x72 => entry(Op::Ld, Operand::Ind(Register::HL), Operand::Reg(Register::D), 1, 8, 8),
        0x73 => entry(Op::Ld, Operand::Ind(Register::HL), Operand::Reg(Register::E), 1, 8, 8),
        0x74 => entry(Op::Ld, Operand::Ind(Register::HL), Operand::Reg(Register::H), 1, 8, 8),
        0x75 => entry(Op::Ld, Operand::Ind(Register::HL), Operand::Reg(Register::L), 1, 8, 8),
        0x76 => entry(Op::Halt, Operand::Implied, Operand::Implied, 1, 4, 4),
        0x77 => entry(Op::Ld, Operand::Ind(Register::HL), Operand::Reg(Register::A), 1, 8, 8),
        0x78 => entry(Op::Ld, Operand::Reg(Register::A), Operand::Reg(Register::B), 1, 4, 4),
        0x79 => entry(Op::Ld, Operand::Reg(Register::A), Operand::Reg(Register::C), 1, 4, 4),
        0x7A => entry(Op::Ld, Operand::Reg(Register::A), Operand::Reg(Register::D), 1, 4, 4),
        0x7B => entry(Op::Ld, Operand::Reg(Register::A), Operand::Reg(Register::E), 1, 4, 4),
        0x7C => entry(Op::Ld, Operand::Reg(Register::A), Operand::Reg(Register::H), 1, 4, 4),
        0x7D => entry(Op::Ld, Operand::Reg(Register::A), Operand::Reg(Register::L), 1, 4, 4),
        0x7E => entry(Op::Ld, Operand::Reg(Register::A), Operand::Ind(Register::HL), 1, 8, 8),
        0x7F => entry(Op::Ld, Operand::Reg(Register::A), Operand::Reg(Register::A), 1, 4, 4),
        _ => entry(Op::Invalid, Operand::Implied, Operand::Implied, 1, 4, 4),
    }
}

/// Opcodes 0x80 to 0xBF: accumulator arithmetic on registers.
#[verifier::rlimit(60)]
fn primary_row_80(b: u8) -> (e: Entry)
    requires
        0x80 <= b < 0xC0,
    ensures
        e == primary_spec(b),
{
    match b {
        0x80 => entry(Op::Add, Operand::Reg(Register::A), Operand::Reg(Register::B), 1, 4, 4),
        0x81 => entry(Op::Add, Operand::Reg(Register::A), Operand::Reg(Register::C), 1, 4, 4),
        0x82 => entry(Op::Add, Operand::Reg(Register::A), Operand::Reg(Register::D), 1, 4, 4),
        0x83 => entry(Op::Add, Operand::Reg(Register::A), Operand::Reg(Register::E), 1, 4, 4),
        0x84 => entry(Op::Add, Operand::Reg(Register::A), Operand::Reg(Register::H), 1, 4, 4),
        0x85 => entry(Op::Add, Operand::Reg(Register::A), Operand::Reg(Register::L), 1, 4, 4),
        0x86 => entry(Op::Add, Operand::Reg(Register::A), Operand::Ind(Register::HL), 1, 8, 8),
        0x87 => entry(Op::Add, Operand::Reg(Register::A), Operand::Reg(Register::A), 1, 4, 4),
        0x88 => entry(Op::Adc, Operand::Reg(Register::A), Operand::Reg(Register::B), 1, 4, 4),
        0x89 => entry(Op::Adc, Operand::Reg(Register::A), Operand::Reg(Register::C), 1, 4, 4),
        0x8A => entry(Op::Adc, Operand::Reg(Register::A), Operand::Reg(Register::D), 1, 4, 4),
        0x8B => entry(Op::Adc, Operand::Reg(Register::A), Operand::Reg(Register::E), 1, 4, 4),
        0x8C => entry(Op::Adc, Operand::Reg(Register::A), Operand::Reg(Register::H), 1, 4, 4),
        0x8D => entry(Op::Adc, Operand::Reg(Register::A), Operand::Reg(Register::L), 1, 4, 4),
        0x8E => entry(Op::Adc, Operand::Reg(Register::A), Operand::Ind(Register::HL), 1, 8, 8),
        0x8F => entry(Op::Adc, Operand::Reg(Register::A), Operand::Reg(Register::A), 1, 4, 4),
        0x90 => entry(Op::Sub, Operand::Reg(Register::B), Operand::Implied, 1, 4, 4),
        0x91 => entry(Op::Sub, Operand::Reg(Register::C), Operand::Implied, 1, 4, 4),
        0x92 => entry(Op::Sub, Operand::Reg(Register::D), Operand::Implied, 1, 4, 4),
        0x93 => entry(Op::Sub, Operand::Reg(Register::E), Operand::Implied, 1, 4, 4),
        0x94 => entry(Op::Sub, Operand::Reg(Register::H), Operand::Implied, 1, 4, 4),
        0x95 => entry(Op::Sub, Operand::Reg(Register::L), Operand::Implied, 1, 4, 4),
        0x96 => entry(Op::Sub, Operand::Ind(Register::HL), Operand::Implied, 1, 8, 8),
        0x97 => entry(Op::Sub, Operand::Reg(Register::A), Operand::Implied, 1, 4, 4),
        0x98 => entry(Op::Sbc, Operand::Reg(Register::A), Operand::Reg(Register::B), 1, 4, 4),
        0x99 => entry(Op::Sbc, Operand::Reg(Register::A), Operand::Reg(Register::C), 1, 4, 4),
        0x9A => entry(Op::Sbc, Operand::Reg(Register::A), Operand::Reg(Register::D), 1, 4, 4),
        0x9B => entry(Op::Sbc, Operand::Reg(Register::A), Operand::Reg(Register::E), 1, 4, 4),
        0x9C => entry(Op::Sbc, Operand::Reg(Register::A), Operand::Reg(Register::H), 1, 4, 4),
        0x9D => entry(Op::Sbc, Operand::Reg(Register::A), Operand::Reg(Register::L), 1, 4, 4),
        0x9E => entry(Op::Sbc, Operand::Reg(Register::A), Operand::Ind(Register::HL), 1, 8, 8),
        0x9F => entry(Op::Sbc, Operand::Reg(Register::A), Operand::Reg(Register::A), 1, 4, 4),
        0xA0 => entry(Op::And, Operand::Reg(Register::B), Operand::Implied, 1, 4, 4),
        0xA1 => entry(Op::And, Operand::Reg(Register::C), Operand::Implied, 1, 4, 4),
        0xA2 => entry(Op::And, Operand::Reg(Register::D), Operand::Implied, 1, 4, 4),
        0xA3 => entry(Op::And, Operand::Reg(Register::E), Operand::Implied, 1, 4, 4),
        0xA4 => entry(Op::And, Operand::Reg(Register::H), Operand::Implied, 1, 4, 4),
        0xA5 => entry(Op::And, Operand::Reg(Register::L), Operand::Implied, 1, 4, 4),
        0xA6 => entry(Op::And, Operand::Ind(Register::HL), Operand::Implied, 1, 8, 8),
        0xA7 => entry(Op::And, Operand::Reg(Register::A), Operand::Implied, 1, 4, 4),
        0xA8 => entry(Op::Xor, Operand::Reg(Register::B), Operand::Implied, 1, 4, 4),
        0xA9 => entry(Op::Xor, Operand::Reg(Register::C), Operand::Implied, 1, 4, 4),
        0xAA => entry(Op::Xor, Operand::Reg(Register::D), Operand::Implied, 1, 4, 4),
        0xAB => entry(Op::Xor, Operand::Reg(Register::E), Operand::Implied, 1, 4, 4),
        0xAC => entry(Op::Xor, Operand::Reg(Register::H), Operand::Implied, 1, 4, 4),
        0xAD => entry(Op::Xor, Operand::Reg(Register::L), Operand::Implied, 1, 4, 4),
        0xAE => entry(Op::Xor, Operand::Ind(Register::HL), Operand::Implied, 1, 8, 8),
        0xAF => entry(Op::Xor, Operand::Reg(Register::A), Operand::Implied, 1, 4, 4),
        0xB0 => entry(Op::Or, Operand::Reg(Register::B), Operand::Implied, 1, 4, 4),
        0xB1 => entry(Op::Or, Operand::Reg(Register::C), Operand::Implied, 1, 4, 4),
        0xB2 => entry(Op::Or, Operand::Reg(Register::D), Operand::Implied, 1, 4, 4),
        0xB3 => entry(Op::Or, Operand::Reg(Register::E), Operand::Implied, 1, 4, 4),
        0xB4 => entry(Op::Or, Operand::Reg(Register::H), Operand::Implied, 1, 4, 4),
        0xB5 => entry(Op::Or, Operand::Reg(Register::L), Operand::Implied, 1, 4, 4),
        0xB6 => entry(Op::Or, Operand::Ind(Register::HL), Operand::Implied, 1, 8, 8),
        0xB7 => entry(Op::Or, Operand::Reg(Register::A), Operand::Implied, 1, 4, 4),
        0xB8 => entry(Op::Cp, Operand::Reg(Register::B), Operand::Implied, 1, 4, 4),
        0xB9 => entry(Op::Cp, Operand::Reg(Register::C), Operand::Implied, 1, 4, 4),
        0xBA => entry(Op::Cp, Operand::Reg(Register::D), Operand::Implied, 1, 4, 4),
        0xBB => entry(Op::Cp, Operand::Reg(Register::E), Operand::Implied, 1, 4, 4),
        0xBC => entry(Op::Cp, Operand::Reg(Register::H), Operand::Implied, 1, 4, 4),
        0xBD => entry(Op::Cp, Operand::Reg(Register::L), Operand::Implied, 1, 4, 4),
        0xBE => entry(Op::Cp, Operand::Ind(Register::HL), Operand::Implied, 1, 8, 8),
        0xBF => entry(Op::Cp, Operand::Reg(Register::A), Operand::Implied, 1, 4, 4),
        _ => entry(Op::Invalid, Operand::Implied, Operand::Implied, 1, 4, 4),
    }
}

/// Opcodes 0xC0 to 0xFF: control flow, stack, high-page loads and immediate arithmetic.
#[verifier::rlimit(60)]
fn primary_row_c0(b: u8) -> (e: Entry)
    requires
        0xC0 <= b,
    ensures
        e == primary_spec(b),
{
    match b {
        0xC0 => entry(Op::RetNz, Operand::Implied, Operand::Implied, 1, 8, 20),
        0xC1 => entry(Op::Pop, Operand::Reg(Register::BC), Operand::Implied, 1, 12, 12),
        0xC2 => entry(Op::JpNz, Operand::Imm16, Operand::Implied, 3, 12, 16),
        0xC3 => entry(Op::Jp, Operand::Imm16, Operand::Implied, 3, 16, 16),
        0xC4 => entry(Op::CallNz, Operand::Imm16, Operand::Implied, 3, 12, 24),
        0xC5 => entry(Op::Push, Operand::Reg(Register::BC), Operand::Implied, 1, 16, 16),
        0xC6 => entry(Op::Add, Operand::Reg(Register::A), Operand::Imm8, 2, 8, 8),
        0xC7 => entry(Op::Rst, Operand::Vector(0x00), Operand::Implied, 1, 16, 16),
        0xC8 => entry(Op::RetZ, Operand::Implied, Operand::Implied, 1, 8, 20),
        0xC9 => entry(Op::Ret, Operand::Implied, Operand::Implied, 1, 16, 16),
        0xCA => entry(Op::JpZ, Operand::Imm16, Operand::Implied, 3, 12, 16),
        0xCB => entry(Op::PrefixCb, Operand::Implied, Operand::Implied, 2, 4, 4),
        0xCC => entry(Op::CallZ, Operand::Imm16, Operand::Implied, 3, 12, 24),
        0xCD => entry(Op::Call, Operand::Imm16, Operand::Implied, 3, 24, 24),
        0xCE => entry(Op::Adc, Operand::Reg(Register::A), Operand::Imm8, 2, 8, 8),
        0xCF => entry(Op::Rst, Operand::Vector(0x08), Operand::Implied, 1, 16, 16),
        0xD0 => entry(Op::RetNc, Operand::Implied, Operand::Implied, 1, 8, 20),
        0xD1 => entry(Op::Pop, Operand::Reg(Register::DE), Operand::Implied, 1, 12, 12),
        0xD2 => entry(Op::JpNc, Operand::Imm16, Operand::Implied, 3, 12, 16),
        0xD3 => entry(Op::Invalid, Operand::Implied, Operand::Implied, 1, 4, 4),
        0xD4 => entry(Op::CallNc, Operand::Imm16, Operand::Implied, 3, 12, 24),
        0xD5 => entry(Op::Push, Operand::Reg(Register::DE), Operand::Implied, 1, 16, 16),
        0xD6 => entry(Op::Sub, Operand::Imm8, Operand::Implied, 2, 8, 8),
        0xD7 => entry(Op::Rst, Operand::Vector(0x10), Operand::Implied, 1, 16, 16),
        0xD8 => entry(Op::RetC, Operand::Implied, Operand::Implied, 1, 8, 20),
        0xD9 => entry(Op::Reti, Operand::Implied, Operand::Implied, 1, 16, 16),
        0xDA => entry(Op::JpC, Operand::Imm16, Operand::Implied, 3, 12, 16),
        0xDB => entry(Op::Invalid, Operand::Implied, Operand::Implied, 1, 4, 4),
        0xDC => entry(Op::CallC, Operand::Imm16, Operand::Implied, 3, 12, 24),
        0xDD => entry(Op::Invalid, Operand::Implied, Operand::Implied, 1, 4, 4),
        0xDE => entry(Op::Sbc, Operand::Reg(Register::A), Operand::Imm8, 2, 8, 8),
        0xDF => entry(Op::Rst, Operand::Vector(0x18), Operand::Implied, 1, 16, 16),
        0xE0 => entry(Op::Ldh, Operand::HighImm, Operand::Reg(Register::A), 2, 12, 12),
        0xE1 => entry(Op::Pop, Operand::Reg(Register::HL), Operand::Implied, 1, 12, 12),
        0xE2 => entry(Op::Ld, Operand::HighC, Operand::Reg(Register::A), 1, 8, 8),
        0xE3 => entry(Op::Invalid, Operand::Implied, Operand::Implied, 1, 4, 4),
        0xE4 => entry(Op::Invalid, Operand::Implied, Operand::Implied, 1, 4, 4),
        0xE5 => entry(Op::Push, Operand::Reg(Register::HL), Operand::Implied, 1, 16, 16),
        0xE6 => entry(Op::And, Operand::Imm8, Operand::Implied, 2, 8, 8),
        0xE7 => entry(Op::Rst, Operand::Vector(0x20), Operand::Implied, 1, 16, 16),
        0xE8 => entry(Op::Add, Operand::Reg(Register::SP), Operand::Rel, 2, 16, 16),
        0xE9 => entry(Op::Jp, Operand::Reg(Register::HL), Operand::Implied, 1, 4, 4),
        0xEA => entry(Op::Ld, Operand::Abs, Operand::Reg(Register::A), 3, 16, 16),
        0xEB => entry(Op::Invalid, Operand::Implied, Operand::Implied, 1, 4, 4),
        0xEC => entry(Op::Invalid, Operand::Implied, Operand::Implied, 1, 4, 4),
        0xED => entry(Op::Invalid, Operand::Implied, Operand::Implied, 1, 4, 4),
        0xEE => entry(Op::Xor, Operand::Imm8, Operand::Implied, 2, 8, 8),
        0xEF => entry(Op::Rst, Operand::Vector(0x28), Operand::Implied, 1, 16, 16),
        0xF0 => entry(Op::Ldh, Operand::Reg(Register::A), Operand::HighImm, 2, 12, 12),
        0xF1 => entry(Op::Pop, Operand::Reg(Register::AF), Operand::Implied, 1, 12, 12),
        0xF2 => entry(Op::Ld, Operand::Reg(Register::A), Operand::HighC, 1, 8, 8),
        0xF3 => entry(Op::Di, Operand::Implied, Operand::Implied, 1, 4, 4),
        0xF4 => entry(Op::Invalid, Operand::Implied, Operand::Implied, 1, 4, 4),
        0xF5 => entry(Op::Push, Operand::Reg(Register::AF), Operand::Implied, 1, 16, 16),
        0xF6 => entry(Op::Or, Operand::Imm8, Operand::Implied, 2, 8, 8),
        0xF7 => entry(Op::Rst, Operand::Vector(0x30), Operand::Implied, 1, 16, 16),
        0xF8 => entry(Op::Ld, Operand::Reg(Register::HL), Operand::SpRel, 2, 12, 12),
        0xF9 => entry(Op::Ld, Operand::Reg(Register::SP), Operand::Reg(Register::HL), 1, 8, 8),
        0xFA => entry(Op::Ld, Operand::Reg(Register::A), Operand::Abs, 3, 16, 16),
        0xFB => entry(Op::Ei, Operand::Implied, Operand::Implied, 1, 4, 4),
        0xFC => entry(Op::Invalid, Operand::Implied, Operand::Implied, 1, 4, 4),
        0xFD => entry(Op::Invalid, Operand::Implied, Operand::Implied, 1, 4, 4),
        0xFE => entry(Op::Cp, Operand::Imm8, Operand::Implied, 2, 8, 8),
        0xFF => entry(Op::Rst, Operand::Vector(0x38), Operand::Implied, 1, 16, 16),
        _ => entry(Op::Invalid, Operand::Implied, Operand::Implied, 1, 4, 4),
    }
}

fn r8_operand(i: u8) -> (o: Operand)
    requires
        i < 8,
    ensures
        o == r8(i as int),
{
    match i {
        0 => Operand::Reg(Register::B),
        1 => Operand::Reg(Register::C),
        2 => Operand::Reg(Register::D),
        3 => Operand::Reg(Register::E),
        4 => Operand::Reg(Register::H),
        5 => Operand::Reg(Register::L),
        6 => Operand::Ind(Register::HL),
        _ => Operand::Reg(Register::A),
    }
}

/// The extended opcode table.
pub fn extended_entry(b: u8) -> (e: Entry)
    ensures
        e == extended_spec(b),
{
    let x = b / 64;
    let y = (b / 8) % 8;
    let target = r8_operand(b % 8);
    let slow = b % 8 == 6;
    if x == 0 {
        let op = match y {
            0 => Op::Rlc,
            1 => Op::Rrc,
            2 => Op::Rl,
            3 => Op::Rr,
            4 => Op::Sla,
            5 => Op::Sra,
            6 => Op::Swap,
            _ => Op::Srl,
        };
        entry(op, target, Operand::Implied, 2, if slow { 16 } else { 8 }, if slow { 16 } else { 8 })
    } else if x == 1 {
        entry(Op::Bit, Operand::Bit(y), target, 2, if slow { 12 } else { 8 }, if slow { 12 } else { 8 })
    } else if x == 2 {
        entry(Op::Res, Operand::Bit(y), target, 2, if slow { 16 } else { 8 }, if slow { 16 } else { 8 })
    } else {
        entry(Op::SetBit, Operand::Bit(y), target, 2, if slow { 16 } else { 8 }, if slow { 16 } else { 8 })
    }
}

/// Decodes the instruction at `pc`. Reads memory only; an instruction that
/// would run past the end of the address space is a fault.
pub fn decode(mem: &Memory, pc: u16) -> (r: Result<Instruction, CpuError>)
    requires
        mem.wf(),
    ensures
        r == decode_spec(mem@, pc),
{
    let b0 = mem.read(pc);
    let b1 = mem.read(pc.wrapping_add(1));
    let b2 = mem.read(pc.wrapping_add(2));
    let ext = b0 == 0xCB;
    let e = if ext {
        extended_entry(b1)
    } else {
        primary_entry(b0)
    };
    if pc as u32 + e.len as u32 > 0x10000 {
        return Err(CpuError::Truncated);
    }
    Ok(
        Instruction {
            opcode: if ext {
                b1
            } else {
                b0
            },
            extended: ext,
            op: e.op,
            first: e.first,
            second: e.second,
            len: e.len,
            cycles: e.cycles,
            cycles_taken: e.cycles_taken,
            imm8: if !ext && e.len >= 2 {
                b1
            } else {
                0
            },
            imm16: if !ext && e.len == 3 {
                b1 as u16 + b2 as u16 * 256
            } else {
                0
            },
        },
    )
}

/// Decoding reads nothing but the (at most three) bytes at the address:
/// memories that agree on them decode the same instruction, so decoding the
/// same address of unchanged memory always gives the same result.
pub proof fn lemma_decode_depends_on_bytes(m1: Seq<u8>, m2: Seq<u8>, pc: u16)
    requires
        byte_at(m1, pc as int) == byte_at(m2, pc as int),
        byte_at(m1, pc + 1) == byte_at(m2, pc + 1),
        byte_at(m1, pc + 2) == byte_at(m2, pc + 2),
    ensures
        decode_spec(m1, pc) == decode_spec(m2, pc),
{
}

/// Length, cycle costs, identity and operand shapes are fixed by the opcode
/// alone, never by operand values or by where the instruction stands.
pub proof fn lemma_shape_from_opcode(m1: Seq<u8>, pc1: u16, m2: Seq<u8>, pc2: u16)
    requires
        decode_spec(m1, pc1) is Ok,
        decode_spec(m2, pc2) is Ok,
        byte_at(m1, pc1 as int) == byte_at(m2, pc2 as int),
        byte_at(m1, pc1 as int) == 0xCB ==> byte_at(m1, pc1 + 1) == byte_at(m2, pc2 + 1),
    ensures
        ({
            let a = decode_spec(m1, pc1)->Ok_0;
            let b = decode_spec(m2, pc2)->Ok_0;
            a.op == b.op && a.first == b.first && a.second == b.second && a.len == b.len
                && a.cycles == b.cycles && a.cycles_taken == b.cycles_taken
        }),
{
}

/// Exactly eleven primary opcodes are undefined, and only they decode to the
/// invalid-opcode identity.
pub proof fn lemma_invalid_opcodes(b: u8)
    ensures
        (primary_spec(b).op == Op::Invalid) <==> (b == 0xD3 || b == 0xDB || b == 0xDD || b
            == 0xE3 || b == 0xE4 || b == 0xEB || b == 0xEC || b == 0xED || b == 0xF4 || b == 0xFC
            || b == 0xFD),
{
}

} // verus!
