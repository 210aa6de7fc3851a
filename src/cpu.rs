use vstd::prelude::*;

use crate::alu::{
    add16, add8, and8, bit_test, bit_write, daa, dec8, inc8, or8, shift, shift_a, sp_offset, sub8, xor8,
    add16_spec, add8_spec, and8_spec, bit_test_flags, daa_spec, dec8_spec, inc8_spec, or8_spec,
    shift_a_spec, shift_spec, signed8, sp_offset_spec, sub8_spec, with_bit, xor8_spec, AluOut, Shift,
};
use crate::instruction::{decode, decode_spec, primary_spec, CpuError, Instruction, Op, Operand};
use crate::memory::Memory;
use crate::regs::{is_byte_reg, Flags, Register, RegisterFile};

verus! {

/// Run states: only a running CPU fetches.
#[derive(Clone, Copy, Debug, PartialEq, Eq, Structural)]
pub enum RunState {
    Running,
    Halted,
    Stopped,
}

/// What an executor hands back: the next PC and the cycles it took.
#[derive(Clone, Copy, Debug, PartialEq, Eq, Structural)]
pub struct OpOk {
    pub pc: u16,
    pub cycles: usize,
}

/// The machine state as a mathematical value.
pub struct CpuView {
    pub regs: RegisterFile,
    pub mem: Seq<u8>,
    pub cycles: int,
    /// Interrupt master enable.
    pub ime: bool,
    /// An EI whose effect waits for the end of the next instruction.
    pub ime_pending: bool,
    pub run: RunState,
}

/// The CPU: register file, memory, cycle counter and interrupt state.
pub struct CPU {
    pub bus: Memory,
    pub regs: RegisterFile,
    cycles: usize,
    ime: bool,
    ime_pending: bool,
    run: RunState,
}

// ---------------------------------------------------------------------------
// Operand resolution
// ---------------------------------------------------------------------------

/// A pair that can hold an address.
pub open spec fn is_addr_reg(r: Register) -> bool {
    r == Register::BC || r == Register::DE || r == Register::HL || r == Register::SP
}

/// An operand that names a memory byte.
pub open spec fn is_mem(o: Operand) -> bool {
    match o {
        Operand::Ind(r) | Operand::IndInc(r) | Operand::IndDec(r) => is_addr_reg(r),
        Operand::Abs | Operand::HighImm | Operand::HighC => true,
        _ => false,
    }
}

/// An operand that can be written as a byte.
pub open spec fn is_dst8(o: Operand) -> bool {
    match o {
        Operand::Reg(r) => is_byte_reg(r),
        _ => is_mem(o),
    }
}

/// An operand that can be read as a byte.
pub open spec fn is_src8(o: Operand) -> bool {
    o == Operand::Imm8 || is_dst8(o)
}

/// A byte operand that is read, changed and written back: a register or
/// plain register-indirect memory.
pub open spec fn is_rmw8(o: Operand) -> bool {
    match o {
        Operand::Reg(r) => is_byte_reg(r),
        Operand::Ind(r) => is_addr_reg(r),
        _ => false,
    }
}

pub open spec fn wrap16(v: int) -> u16 {
    (v % 0x10000) as u16
}

/// The address a memory operand names, in the state before the access.
pub open spec fn mem_addr(s: CpuView, ins: Instruction, o: Operand) -> u16 {
    match o {
        Operand::Ind(r) | Operand::IndInc(r) | Operand::IndDec(r) => s.regs.get(r),
        Operand::Abs => ins.imm16,
        Operand::HighImm => (0xFF00 + ins.imm8) as u16,
        Operand::HighC => (0xFF00 + s.regs.c) as u16,
        _ => 0,
    }
}

/// The byte an operand reads.
pub open spec fn load8(s: CpuView, ins: Instruction, o: Operand) -> u8 {
    match o {
        Operand::Reg(r) => s.regs.get(r) as u8,
        Operand::Imm8 => ins.imm8,
        _ => s.mem[mem_addr(s, ins, o) as int],
    }
}

/// The state after writing a byte through an operand.
pub open spec fn store8(s: CpuView, ins: Instruction, o: Operand, v: u8) -> CpuView {
    match o {
        Operand::Reg(r) => CpuView { regs: s.regs.set(r, v as u16), ..s },
        _ => CpuView { mem: s.mem.update(mem_addr(s, ins, o) as int, v), ..s },
    }
}

/// The auto-increment or auto-decrement that follows an access.
pub open spec fn after_access(s: CpuView, o: Operand) -> CpuView {
    match o {
        Operand::IndInc(r) => CpuView { regs: s.regs.set(r, wrap16(s.regs.get(r) + 1)), ..s },
        Operand::IndDec(r) => CpuView { regs: s.regs.set(r, wrap16(s.regs.get(r) - 1)), ..s },
        _ => s,
    }
}

pub open spec fn with_flags(s: CpuView, f: Flags) -> CpuView {
    CpuView { regs: RegisterFile { flags: f, ..s.regs }, ..s }
}

pub open spec fn with_reg(s: CpuView, r: Register, v: u16) -> CpuView {
    CpuView { regs: s.regs.set(r, v), ..s }
}

// ---------------------------------------------------------------------------
// Stack
// ---------------------------------------------------------------------------

/// Memory and SP after pushing `v`: high byte at SP-1, low byte at SP-2.
pub open spec fn push16(mem: Seq<u8>, sp: u16, v: u16) -> (Seq<u8>, u16) {
    (
        mem.update(wrap16(sp - 1) as int, (v / 256) as u8).update(
            wrap16(sp - 2) as int,
            (v % 256) as u8,
        ),
        wrap16(sp - 2),
    )
}

/// The value popped (low byte at SP, high byte at SP+1) and the new SP.
pub open spec fn pop16(mem: Seq<u8>, sp: u16) -> (u16, u16) {
    (
        (mem[sp as int] + mem[wrap16(sp + 1) as int] * 256) as u16,
        wrap16(sp + 2),
    )
}

pub open spec fn push_state(s: CpuView, v: u16) -> CpuView {
    let (m, sp) = push16(s.mem, s.regs.sp, v);
    CpuView { mem: m, regs: RegisterFile { sp, ..s.regs }, ..s }
}

// ---------------------------------------------------------------------------
// Semantics of each instruction family
// ---------------------------------------------------------------------------

pub type Outcome = Result<(CpuView, OpOk), CpuError>;

/// Address of the next instruction.
pub open spec fn next_pc(s: CpuView, ins: Instruction) -> u16 {
    wrap16(s.regs.pc + ins.len)
}

/// Falls through to the next instruction at the base cycle cost.
pub open spec fn fall(s: CpuView, s2: CpuView, ins: Instruction) -> Outcome {
    Ok((s2, OpOk { pc: next_pc(s, ins), cycles: ins.cycles as usize }))
}

pub open spec fn is_wide(r: Register) -> bool {
    r == Register::BC || r == Register::DE || r == Register::HL || r == Register::SP
}

/// LD and LDH: 8-bit moves between any byte operands (with the
/// auto-increment or decrement of `(HL+)` / `(HL-)` after the access),
/// 16-bit immediates into pairs, `LD SP,HL`, `LD (a16),SP`, and
/// `LD HL,SP+e`, which alone sets flags.
pub open spec fn ld_spec(s: CpuView, ins: Instruction) -> Outcome {
    let d = ins.first;
    let src = ins.second;
    match d {
        Operand::Reg(r) if is_wide(r) => match src {
            Operand::Imm16 => fall(s, with_reg(s, r, ins.imm16), ins),
            Operand::Reg(Register::HL) if r == Register::SP => fall(
                s,
                with_reg(s, r, s.regs.get(Register::HL)),
                ins,
            ),
            Operand::SpRel if r == Register::HL => {
                let (v, f) = sp_offset_spec(s.regs.sp, ins.imm8);
                fall(s, with_flags(with_reg(s, r, v), f), ins)
            },
            _ => Err(CpuError::BadOperand),
        },
        Operand::Abs if src == Operand::Reg(Register::SP) => {
            let a = ins.imm16;
            let sp = s.regs.sp;
            fall(
                s,
                CpuView {
                    mem: s.mem.update(a as int, (sp % 256) as u8).update(
                        wrap16(a + 1) as int,
                        (sp / 256) as u8,
                    ),
                    ..s
                },
                ins,
            )
        },
        _ => if is_dst8(d) && is_src8(src) {
            let v = load8(s, ins, src);
            let s1 = after_access(s, src);
            fall(s, after_access(store8(s1, ins, d, v), d), ins)
        } else {
            Err(CpuError::BadOperand)
        },
    }
}

/// LDH: A to or from 0xFF00 plus an immediate byte.
pub open spec fn ldh_spec(s: CpuView, ins: Instruction) -> Outcome {
    if (ins.first == Operand::HighImm && ins.second == Operand::Reg(Register::A)) || (ins.first
        == Operand::Reg(Register::A) && ins.second == Operand::HighImm) {
        ld_spec(s, ins)
    } else {
        Err(CpuError::BadOperand)
    }
}

pub open spec fn is_stack_pair(r: Register) -> bool {
    r == Register::BC || r == Register::DE || r == Register::HL || r == Register::AF
}

/// PUSH rr.
pub open spec fn push_spec(s: CpuView, ins: Instruction) -> Outcome {
    match ins.first {
        Operand::Reg(r) if is_stack_pair(r) => fall(s, push_state(s, s.regs.get(r)), ins),
        _ => Err(CpuError::BadOperand),
    }
}

/// POP rr; for AF the low nibble of the flags byte is dropped.
pub open spec fn pop_spec(s: CpuView, ins: Instruction) -> Outcome {
    match ins.first {
        Operand::Reg(r) if is_stack_pair(r) => {
            let (v, sp) = pop16(s.mem, s.regs.sp);
            fall(s, CpuView { regs: RegisterFile { sp, ..s.regs.set(r, v) }, ..s }, ins)
        },
        _ => Err(CpuError::BadOperand),
    }
}

/// The accumulator operations on A and a byte `v`.
pub open spec fn alu8_out(op: Op, a: u8, v: u8, f: Flags) -> AluOut {
    match op {
        Op::Add => add8_spec(a, v, false),
        Op::Adc => add8_spec(a, v, f.c),
        Op::Sub => sub8_spec(a, v, false),
        Op::Sbc => sub8_spec(a, v, f.c),
        Op::And => and8_spec(a, v),
        Op::Xor => xor8_spec(a, v),
        Op::Or => or8_spec(a, v),
        _ => sub8_spec(a, v, false),
    }
}

/// The byte operand of an accumulator operation: the second operand of the
/// two-operand forms (ADD A,x / ADC A,x / SBC A,x), the first otherwise.
pub open spec fn alu_source(ins: Instruction) -> Option<Operand> {
    match ins.op {
        Op::Add | Op::Adc | Op::Sbc => if ins.first == Operand::Reg(Register::A) {
            Some(ins.second)
        } else {
            None
        },
        _ => Some(ins.first),
    }
}

/// ADD, ADC, SUB, SBC, AND, XOR, OR, CP on A; CP keeps A.
pub open spec fn alu8_spec(s: CpuView, ins: Instruction) -> Outcome {
    match alu_source(ins) {
        Some(src) if is_src8(src) => {
            let out = alu8_out(ins.op, s.regs.a, load8(s, ins, src), s.regs.flags);
            let s1 = after_access(s, src);
            let a = if ins.op == Op::Cp {
                s.regs.a
            } else {
                out.value
            };
            fall(s, CpuView { regs: RegisterFile { a, flags: out.flags, ..s1.regs }, ..s1 }, ins)
        },
        _ => Err(CpuError::BadOperand),
    }
}

/// ADD: the 8-bit form, `ADD HL,rr` and `ADD SP,e`.
pub open spec fn add_spec(s: CpuView, ins: Instruction) -> Outcome {
    match (ins.first, ins.second) {
        (Operand::Reg(Register::HL), Operand::Reg(r)) if is_wide(r) => {
            let (v, f) = add16_spec(s.regs.get(Register::HL), s.regs.get(r), s.regs.flags);
            fall(s, with_flags(with_reg(s, Register::HL, v), f), ins)
        },
        (Operand::Reg(Register::SP), Operand::Rel) => {
            let (v, f) = sp_offset_spec(s.regs.sp, ins.imm8);
            fall(s, with_flags(with_reg(s, Register::SP, v), f), ins)
        },
        _ => alu8_spec(s, ins),
    }
}

/// INC and DEC: 8-bit forms set Z, N, H and keep C; pair forms touch no flag.
pub open spec fn incdec_spec(s: CpuView, ins: Instruction, up: bool) -> Outcome {
    let o = ins.first;
    match o {
        Operand::Reg(r) if is_wide(r) => fall(
            s,
            with_reg(s, r, wrap16(s.regs.get(r) + if up { 1int } else { -1int })),
            ins,
        ),
        _ => if is_rmw8(o) {
            let v = load8(s, ins, o);
            let out = if up {
                inc8_spec(v, s.regs.flags)
            } else {
                dec8_spec(v, s.regs.flags)
            };
            fall(s, with_flags(store8(s, ins, o, out.value), out.flags), ins)
        } else {
            Err(CpuError::BadOperand)
        },
    }
}

/// DAA, CPL, SCF, CCF and the accumulator rotations.
pub open spec fn acc_spec(s: CpuView, ins: Instruction) -> Outcome {
    let a = s.regs.a;
    let f = s.regs.flags;
    let out = match ins.op {
        Op::Daa => daa_spec(a, f),
        Op::Cpl => AluOut { value: (255 - a) as u8, flags: Flags { n: true, h: true, ..f } },
        Op::Scf => AluOut { value: a, flags: Flags { n: false, h: false, c: true, ..f } },
        Op::Ccf => AluOut { value: a, flags: Flags { n: false, h: false, c: !f.c, ..f } },
        Op::Rlca => shift_a_spec(Shift::Rlc, a, f),
        Op::Rrca => shift_a_spec(Shift::Rrc, a, f),
        Op::Rla => shift_a_spec(Shift::Rl, a, f),
        _ => shift_a_spec(Shift::Rr, a, f),
    };
    fall(s, CpuView { regs: RegisterFile { a: out.value, flags: out.flags, ..s.regs }, ..s }, ins)
}

/// Whether a conditional branch is taken.
pub open spec fn cond_holds(op: Op, f: Flags) -> bool {
    match op {
        Op::JrNz | Op::JpNz | Op::CallNz | Op::RetNz => !f.z,
        Op::JrZ | Op::JpZ | Op::CallZ | Op::RetZ => f.z,
        Op::JrNc | Op::JpNc | Op::CallNc | Op::RetNc => !f.c,
        Op::JrC | Op::JpC | Op::CallC | Op::RetC => f.c,
        _ => true,
    }
}

pub open spec fn is_conditional(op: Op) -> bool {
    match op {
        Op::JrNz | Op::JrZ | Op::JrNc | Op::JrC | Op::JpNz | Op::JpZ | Op::JpNc | Op::JpC
        | Op::CallNz | Op::CallZ | Op::CallNc | Op::CallC | Op::RetNz | Op::RetZ | Op::RetNc
        | Op::RetC => true,
        _ => false,
    }
}

/// A branch: when its condition holds, the state `s2`, the target and the
/// taken cost; otherwise nothing changes and the step falls through.
pub open spec fn branch(s: CpuView, ins: Instruction, s2: CpuView, target: u16) -> Outcome {
    if cond_holds(ins.op, s.regs.flags) {
        Ok((s2, OpOk { pc: target, cycles: ins.cycles_taken as usize }))
    } else {
        fall(s, s, ins)
    }
}

/// JR: relative to the next instruction.
pub open spec fn jr_spec(s: CpuView, ins: Instruction) -> Outcome {
    branch(s, ins, s, wrap16(next_pc(s, ins) + signed8(ins.imm8)))
}

/// JP: to an immediate address, or to HL.
pub open spec fn jp_spec(s: CpuView, ins: Instruction) -> Outcome {
    match ins.first {
        Operand::Imm16 => branch(s, ins, s, ins.imm16),
        Operand::Reg(Register::HL) if ins.op == Op::Jp => branch(
            s,
            ins,
            s,
            s.regs.get(Register::HL),
        ),
        _ => Err(CpuError::BadOperand),
    }
}

/// CALL: pushes the address of the next instruction, then jumps.
pub open spec fn call_spec(s: CpuView, ins: Instruction) -> Outcome {
    branch(s, ins, push_state(s, next_pc(s, ins)), ins.imm16)
}

/// RET and RETI: pop the return address; RETI also sets IME.
pub open spec fn ret_spec(s: CpuView, ins: Instruction) -> Outcome {
    let (target, sp) = pop16(s.mem, s.regs.sp);
    let s2 = CpuView {
        regs: RegisterFile { sp, ..s.regs },
        ime: if ins.op == Op::Reti {
            true
        } else {
            s.ime
        },
        ..s
    };
    branch(s, ins, s2, target)
}

/// RST: a call to a fixed low address.
pub open spec fn rst_spec(s: CpuView, ins: Instruction) -> Outcome {
    match ins.first {
        Operand::Vector(v) => Ok(
            (
                push_state(s, next_pc(s, ins)),
                OpOk { pc: v as u16, cycles: ins.cycles as usize },
            ),
        ),
        _ => Err(CpuError::BadOperand),
    }
}

/// EI, DI, HALT, STOP, NOP.
pub open spec fn control_spec(s: CpuView, ins: Instruction) -> Outcome {
    let s2 = match ins.op {
        Op::Ei => CpuView { ime_pending: true, ..s },
        Op::Di => CpuView { ime: false, ime_pending: false, ..s },
        Op::Halt => CpuView { run: RunState::Halted, ..s },
        Op::Stop => CpuView { run: RunState::Stopped, ..s },
        _ => s,
    };
    fall(s, s2, ins)
}

pub open spec fn shift_kind(op: Op) -> Shift {
    match op {
        Op::Rlc => Shift::Rlc,
        Op::Rrc => Shift::Rrc,
        Op::Rl => Shift::Rl,
        Op::Rr => Shift::Rr,
        Op::Sla => Shift::Sla,
        Op::Sra => Shift::Sra,
        Op::Swap => Shift::Swap,
        _ => Shift::Srl,
    }
}

/// The extended-table shifts and rotations on a register or (HL).
pub open spec fn shift_op_spec(s: CpuView, ins: Instruction) -> Outcome {
    let o = ins.first;
    if is_rmw8(o) {
        let out = shift_spec(shift_kind(ins.op), load8(s, ins, o), s.regs.flags);
        fall(s, with_flags(store8(s, ins, o, out.value), out.flags), ins)
    } else {
        Err(CpuError::BadOperand)
    }
}

/// BIT, RES and SET.
pub open spec fn bit_op_spec(s: CpuView, ins: Instruction) -> Outcome {
    match ins.first {
        Operand::Bit(i) if i < 8 && is_rmw8(ins.second) => {
            let v = load8(s, ins, ins.second);
            if ins.op == Op::Bit {
                fall(s, with_flags(s, bit_test_flags(v, i, s.regs.flags)), ins)
            } else {
                fall(s, store8(s, ins, ins.second, with_bit(v, i, ins.op == Op::SetBit)), ins)
            }
        },
        _ => Err(CpuError::BadOperand),
    }
}

pub open spec fn is_extended_op(op: Op) -> bool {
    match op {
        Op::Rlc | Op::Rrc | Op::Rl | Op::Rr | Op::Sla | Op::Sra | Op::Swap | Op::Srl | Op::Bit
        | Op::Res | Op::SetBit => true,
        _ => false,
    }
}

/// Instructions of the extended table.
pub open spec fn extended_op_spec(s: CpuView, ins: Instruction) -> Outcome {
    match ins.op {
        Op::Bit | Op::Res | Op::SetBit => bit_op_spec(s, ins),
        _ => if is_extended_op(ins.op) {
            shift_op_spec(s, ins)
        } else {
            Err(CpuError::BadOperand)
        },
    }
}

/// What executing `ins` in state `s` does.
#[verifier::opaque]
pub open spec fn exec_spec(s: CpuView, ins: Instruction) -> Outcome {
    match ins.op {
        Op::Nop | Op::Stop | Op::Halt | Op::Ei | Op::Di => control_spec(s, ins),
        Op::Ld => ld_spec(s, ins),
        Op::Ldh => ldh_spec(s, ins),
        Op::Push => push_spec(s, ins),
        Op::Pop => pop_spec(s, ins),
        Op::Add => add_spec(s, ins),
        Op::Adc | Op::Sub | Op::Sbc | Op::And | Op::Xor | Op::Or | Op::Cp => alu8_spec(s, ins),
        Op::Inc => incdec_spec(s, ins, true),
        Op::Dec => incdec_spec(s, ins, false),
        Op::Daa | Op::Cpl | Op::Scf | Op::Ccf | Op::Rlca | Op::Rrca | Op::Rla | Op::Rra => acc_spec(
            s,
            ins,
        ),
        Op::Jr | Op::JrNz | Op::JrZ | Op::JrNc | Op::JrC => jr_spec(s, ins),
        Op::Jp | Op::JpNz | Op::JpZ | Op::JpNc | Op::JpC => jp_spec(s, ins),
        Op::Call | Op::CallNz | Op::CallZ | Op::CallNc | Op::CallC => call_spec(s, ins),
        Op::Ret | Op::RetNz | Op::RetZ | Op::RetNc | Op::RetC | Op::Reti => ret_spec(s, ins),
        Op::Rst => rst_spec(s, ins),
        Op::Invalid => Err(CpuError::InvalidOpcode),
        Op::PrefixCb => Err(CpuError::BadOperand),
        _ => extended_op_spec(s, ins),
    }
}

/// Commits an executed instruction: new PC, cycle total, and the delayed
/// effect of an EI that ran one instruction earlier.
pub open spec fn commit(before: CpuView, after: CpuView, ok: OpOk) -> CpuView {
    let enable = before.ime_pending && after.ime_pending;
    CpuView {
        regs: RegisterFile { pc: ok.pc, ..after.regs },
        cycles: after.cycles + ok.cycles,
        ime: if enable {
            true
        } else {
            after.ime
        },
        ime_pending: if enable {
            false
        } else {
            after.ime_pending
        },
        ..after
    }
}

/// One step: a CPU that is not running does nothing; otherwise decode at
/// PC, execute, commit.
pub open spec fn step_spec(s: CpuView) -> Result<CpuView, CpuError> {
    if s.run != RunState::Running {
        Ok(s)
    } else {
        match decode_spec(s.mem, s.regs.pc) {
            Err(e) => Err(e),
            Ok(ins) => match exec_spec(s, ins) {
                Err(e) => Err(e),
                Ok((s2, ok)) => Ok(commit(s, s2, ok)),
            },
        }
    }
}

/// Every instruction takes fewer than 256 cycles, and executing one leaves
/// the cycle total to the commit.
#[verifier::rlimit(50)]
pub proof fn lemma_cycles_fit(s: CpuView, ins: Instruction)
    ensures
        exec_spec(s, ins) is Ok ==> exec_spec(s, ins)->Ok_0.1.cycles < 256 && exec_spec(
            s,
            ins,
        )->Ok_0.0.cycles == s.cycles,
{
    reveal(exec_spec);
    let o = exec_spec(s, ins);
    match ins.op {
        Op::Ld => assert(o == ld_spec(s, ins)),
        Op::Ldh => assert(o == ldh_spec(s, ins)),
        Op::Add => assert(o == add_spec(s, ins)),
        Op::Inc => assert(o == incdec_spec(s, ins, true)),
        Op::Dec => assert(o == incdec_spec(s, ins, false)),
        _ => {},
    }
}

/// An executor's result and final state agree with `spec`; on a fault
/// nothing changed.
pub open spec fn agrees(spec: Outcome, r: Result<OpOk, CpuError>, s0: CpuView, s1: CpuView) -> bool {
    match spec {
        Ok((s, ok)) => r == Ok::<OpOk, CpuError>(ok) && s1 == s,
        Err(e) => r == Err::<OpOk, CpuError>(e) && s1 == s0,
    }
}

/// The executor for `op` run on `ins`: what `ins` does when it is of that
/// identity, a fault otherwise.
pub open spec fn run_as(op: Op, s: CpuView, ins: Instruction) -> Outcome {
    if ins.op == op {
        exec_spec(s, ins)
    } else {
        Err(CpuError::BadOperand)
    }
}

/// Pushing a value and popping it back returns the value, and SP returns to
/// where it was, for every value and every SP.
pub proof fn lemma_push_pop16(mem: Seq<u8>, sp: u16, v: u16)
    requires
        mem.len() == 0x10000,
    ensures
        ({
            let (m, sp2) = push16(mem, sp, v);
            pop16(m, sp2) == (v, sp)
        }),
{
    let (m, sp2) = push16(mem, sp, v);
    assert(wrap16(sp2 + 1) == wrap16(sp - 1));
    assert(wrap16(sp2 + 2) == sp);
    assert(wrap16(sp - 1) != wrap16(sp - 2));
    assert(m[sp2 as int] == (v % 256) as u8);
    assert(m[wrap16(sp2 + 1) as int] == (v / 256) as u8);
}

/// Writing a pair with the value it holds changes nothing.
pub proof fn lemma_set_own_value(regs: RegisterFile, r: Register)
    requires
        is_stack_pair(r),
    ensures
        regs.set(r, regs.get(r)) == regs,
{
    if r == Register::AF {
        reveal(Flags::byte_spec);
        reveal(Flags::from_byte_spec);
    }
}

/// PUSH of a pair followed by POP of the same pair gives back the whole
/// register file (SP included), for every pair value.
pub proof fn lemma_push_then_pop(s: CpuView, push: Instruction, pop: Instruction, r: Register)
    requires
        s.mem.len() == 0x10000,
        is_stack_pair(r),
        push.op == Op::Push,
        pop.op == Op::Pop,
        push.first == Operand::Reg(r),
        pop.first == Operand::Reg(r),
    ensures
        exec_spec(s, push) is Ok,
        exec_spec(exec_spec(s, push)->Ok_0.0, pop) is Ok,
        exec_spec(exec_spec(s, push)->Ok_0.0, pop)->Ok_0.0.regs == s.regs,
{
    reveal(exec_spec);
    let v = s.regs.get(r);
    lemma_push_pop16(s.mem, s.regs.sp, v);
    let s1 = push_state(s, v);
    assert(exec_spec(s, push) == fall(s, s1, push));
    let (w, sp) = pop16(s1.mem, s1.regs.sp);
    assert(w == v && sp == s.regs.sp);
    lemma_set_own_value(s1.regs, r);
    assert(s1.regs.get(r) == v);
}

/// Where a branch goes when it is taken.
pub open spec fn branch_target(s: CpuView, ins: Instruction) -> u16 {
    match ins.op {
        Op::JrNz | Op::JrZ | Op::JrNc | Op::JrC => wrap16(next_pc(s, ins) + signed8(ins.imm8)),
        Op::RetNz | Op::RetZ | Op::RetNc | Op::RetC => pop16(s.mem, s.regs.sp).0,
        _ => ins.imm16,
    }
}

/// A conditional branch of either table has the operand its family reads:
/// a displacement, an immediate address, or none.
proof fn lemma_conditional_shape(m: Seq<u8>, pc: u16)
    requires
        decode_spec(m, pc) is Ok,
        is_conditional(decode_spec(m, pc)->Ok_0.op),
    ensures
        decode_spec(m, pc)->Ok_0.first != Operand::Reg(Register::HL),
        ({
            let op = decode_spec(m, pc)->Ok_0.op;
            op == Op::JpNz || op == Op::JpZ || op == Op::JpNc || op == Op::JpC
        }) ==> decode_spec(m, pc)->Ok_0.first == Operand::Imm16,
{
}

proof fn lemma_branch_outcome(s: CpuView, ins: Instruction)
    requires
        is_conditional(ins.op),
        ins.first != Operand::Reg(Register::HL),
        (ins.op == Op::JpNz || ins.op == Op::JpZ || ins.op == Op::JpNc || ins.op == Op::JpC)
            ==> ins.first == Operand::Imm16,
    ensures
        exec_spec(s, ins) is Ok,
        cond_holds(ins.op, s.regs.flags) ==> exec_spec(s, ins)->Ok_0.1 == (OpOk {
            pc: branch_target(s, ins),
            cycles: ins.cycles_taken as usize,
        }),
        exec_spec(s, ins)->Ok_0.0.cycles == s.cycles,
        !cond_holds(ins.op, s.regs.flags) ==> exec_spec(s, ins)->Ok_0 == (s, OpOk {
            pc: next_pc(s, ins),
            cycles: ins.cycles as usize,
        }),
{
    reveal(exec_spec);
}

/// Stepping over a decoded conditional branch: when its flag condition
/// holds, PC moves to the target and the taken cost is counted; otherwise
/// nothing happens but the commit: PC moves just past the instruction and
/// the base cost is counted.
pub proof fn lemma_conditional_branch(s: CpuView, ins: Instruction)
    requires
        s.run == RunState::Running,
        decode_spec(s.mem, s.regs.pc) == Ok::<Instruction, CpuError>(ins),
        is_conditional(ins.op),
    ensures
        step_spec(s) is Ok,
        cond_holds(ins.op, s.regs.flags) ==> step_spec(s)->Ok_0.regs.pc == branch_target(s, ins)
            && step_spec(s)->Ok_0.cycles == s.cycles + ins.cycles_taken,
        !cond_holds(ins.op, s.regs.flags) ==> step_spec(s)->Ok_0 == commit(
            s,
            s,
            OpOk { pc: next_pc(s, ins), cycles: ins.cycles as usize },
        ),
{
    lemma_conditional_shape(s.mem, s.regs.pc);
    lemma_branch_outcome(s, ins);
}

/// Every conditional branch of the primary table costs more when taken.
pub proof fn lemma_taken_costs_more(b: u8)
    requires
        is_conditional(primary_spec(b).op),
    ensures
        primary_spec(b).cycles_taken > primary_spec(b).cycles,
{
}

// ---------------------------------------------------------------------------
// Executable predicates
// ---------------------------------------------------------------------------

fn addr_reg(r: Register) -> (b: bool)
    ensures
        b == is_addr_reg(r),
{
    match r {
        Register::BC | Register::DE | Register::HL | Register::SP => true,
        _ => false,
    }
}

fn byte_reg(r: Register) -> (b: bool)
    ensures
        b == is_byte_reg(r),
{
    match r {
        Register::A | Register::B | Register::C | Register::D | Register::E | Register::H
        | Register::L => true,
        _ => false,
    }
}

fn stack_pair(r: Register) -> (b: bool)
    ensures
        b == is_stack_pair(r),
{
    match r {
        Register::BC | Register::DE | Register::HL | Register::AF => true,
        _ => false,
    }
}

fn mem_operand(o: Operand) -> (b: bool)
    ensures
        b == is_mem(o),
{
    match o {
        Operand::Ind(r) | Operand::IndInc(r) | Operand::IndDec(r) => addr_reg(r),
        Operand::Abs | Operand::HighImm | Operand::HighC => true,
        _ => false,
    }
}

fn dst8(o: Operand) -> (b: bool)
    ensures
        b == is_dst8(o),
{
    match o {
        Operand::Reg(r) => byte_reg(r),
        _ => mem_operand(o),
    }
}

fn src8(o: Operand) -> (b: bool)
    ensures
        b == is_src8(o),
{
    match o {
        Operand::Imm8 => true,
        _ => dst8(o),
    }
}

fn rmw8(o: Operand) -> (b: bool)
    ensures
        b == is_rmw8(o),
{
    match o {
        Operand::Reg(r) => byte_reg(r),
        Operand::Ind(r) => addr_reg(r),
        _ => false,
    }
}

fn condition(op: Op, f: Flags) -> (b: bool)
    ensures
        b == cond_holds(op, f),
{
    match op {
        Op::JrNz | Op::JpNz | Op::CallNz | Op::RetNz => !f.z,
        Op::JrZ | Op::JpZ | Op::CallZ | Op::RetZ => f.z,
        Op::JrNc | Op::JpNc | Op::CallNc | Op::RetNc => !f.c,
        Op::JrC | Op::JpC | Op::CallC | Op::RetC => f.c,
        _ => true,
    }
}

fn alu_out(op: Op, a: u8, v: u8, f: Flags) -> (r: AluOut)
    ensures
        r == alu8_out(op, a, v, f),
{
    match op {
        Op::Add => add8(a, v, false),
        Op::Adc => add8(a, v, f.c),
        Op::Sub => sub8(a, v, false),
        Op::Sbc => sub8(a, v, f.c),
        Op::And => and8(a, v),
        Op::Xor => xor8(a, v),
        Op::Or => or8(a, v),
        _ => sub8(a, v, false),
    }
}

fn kind_of(op: Op) -> (k: Shift)
    ensures
        k == shift_kind(op),
{
    match op {
        Op::Rlc => Shift::Rlc,
        Op::Rrc => Shift::Rrc,
        Op::Rl => Shift::Rl,
        Op::Rr => Shift::Rr,
        Op::Sla => Shift::Sla,
        Op::Sra => Shift::Sra,
        Op::Swap => Shift::Swap,
        _ => Shift::Srl,
    }
}

fn wrapping_offset(x: u16, e: u8) -> (r: u16)
    ensures
        r == wrap16(x + signed8(e)),
{
    if e < 128 {
        x.wrapping_add(e as u16)
    } else {
        x.wrapping_sub(256 - e as u16)
    }
}

impl OpOk {
    /// Falls through to the next instruction at the base cycle cost.
    pub fn ok(cpu: &CPU, instr: &Instruction) -> (r: OpOk)
        ensures
            r == (OpOk { pc: next_pc(cpu@, *instr), cycles: instr.cycles as usize }),
    {
        OpOk { pc: cpu.regs.pc.wrapping_add(instr.len), cycles: instr.cycles as usize }
    }
}

impl CPU {
    pub closed spec fn view(&self) -> CpuView {
        CpuView {
            regs: self.regs,
            mem: self.bus@,
            cycles: self.cycles as int,
            ime: self.ime,
            ime_pending: self.ime_pending,
            run: self.run,
        }
    }

    /// Well-formed: the memory backs the whole address space.
    pub closed spec fn wf(&self) -> bool {
        self.bus.wf()
    }

    /// A running CPU with zeroed registers, interrupts disabled and no
    /// cycles counted.
    pub fn new(bus: Memory) -> (cpu: CPU)
        ensures
            cpu@.regs == RegisterFile::new_spec(),
            cpu@.mem == bus@,
            cpu@.cycles == 0,
            !cpu@.ime && !cpu@.ime_pending,
            cpu@.run == RunState::Running,
            cpu.wf() == bus.wf(),
    {
        CPU {
            bus,
            regs: RegisterFile::new(),
            cycles: 0,
            ime: false,
            ime_pending: false,
            run: RunState::Running,
        }
    }

    /// Decodes the instruction at PC without changing anything.
    pub fn peek_next_instr(&self) -> (r: Result<Instruction, CpuError>)
        requires
            self.wf(),
        ensures
            r == decode_spec(self@.mem, self@.regs.pc),
    {
        decode(&self.bus, self.regs.pc)
    }

    /// Total cycles of the instructions run so far.
    pub fn get_cycles(&self) -> (c: usize)
        ensures
            c == self@.cycles,
    {
        self.cycles
    }

    pub fn run_state(&self) -> (r: RunState)
        ensures
            r == self@.run,
    {
        self.run
    }

    /// Set by whatever delivers interrupts or wake-ups.
    pub fn set_run_state(&mut self, run: RunState)
        ensures
            final(self)@ == (CpuView { run, ..old(self)@ }),
            final(self).wf() == old(self).wf(),
    {
        self.run = run;
    }

    pub fn interrupts_enabled(&self) -> (r: bool)
        ensures
            r == self@.ime,
    {
        self.ime
    }

    /// Executes one instruction: decode at PC, execute, then commit the new
    /// PC and the cycles. A CPU that is not running does nothing. On a fault
    /// nothing changes.
    pub fn step(&mut self) -> (r: Result<(), CpuError>)
        requires
            old(self).wf(),
            old(self)@.cycles + 255 <= usize::MAX,
        ensures
            final(self).wf(),
            match step_spec(old(self)@) {
                Ok(s) => r is Ok && final(self)@ == s,
                Err(e) => r == Err::<(), CpuError>(e) && final(self)@ == old(self)@,
            },
    {
        if self.run != RunState::Running {
            return Ok(());
        }
        let instr = match self.peek_next_instr() {
            Ok(i) => i,
            Err(e) => return Err(e),
        };
        let pending = self.ime_pending;
        let ghost s0 = self@;
        proof {
            lemma_cycles_fit(s0, instr);
        }
        let result = match self.execute(&instr) {
            Ok(ok) => ok,
            Err(e) => return Err(e),
        };
        assert(exec_spec(s0, instr) == Ok::<(CpuView, OpOk), CpuError>((self@, result)));
        self.regs.pc = result.pc;
        self.cycles = self.cycles + result.cycles;
        if pending && self.ime_pending {
            self.ime = true;
            self.ime_pending = false;
        }
        Ok(())
    }

    /// Runs the executor of the instruction's identity.
    pub fn execute(&mut self, instr: &Instruction) -> (r: Result<OpOk, CpuError>)
        requires
            old(self).wf(),
        ensures
            final(self).wf(),
            agrees(exec_spec(old(self)@, *instr), r, old(self)@, final(self)@),
    {
        proof {
            reveal(exec_spec);
        }
        match instr.op {
            Op::Nop => self.op_nop(instr),
            Op::Stop => self.op_stop(instr),
            Op::Halt => self.op_halt(instr),
            Op::Ei => self.op_ei(instr),
            Op::Di => self.op_di(instr),
            Op::Ld => self.op_ld(instr),
            Op::Ldh => self.op_ldh(instr),
            Op::Push => self.op_push(instr),
            Op::Pop => self.op_pop(instr),
            Op::Add => self.op_add(instr),
            Op::Adc => self.op_adc(instr),
            Op::Sub => self.op_sub(instr),
            Op::Sbc => self.op_sbc(instr),
            Op::And => self.op_and(instr),
            Op::Xor => self.op_xor(instr),
            Op::Or => self.op_or(instr),
            Op::Cp => self.op_cp(instr),
            Op::Inc => self.op_inc(instr),
            Op::Dec => self.op_dec(instr),
            Op::Daa => self.op_daa(instr),
            Op::Cpl => self.op_cpl(instr),
            Op::Scf => self.op_scf(instr),
            Op::Ccf => self.op_ccf(instr),
            Op::Rlca => self.op_rlca(instr),
            Op::Rrca => self.op_rrca(instr),
            Op::Rla => self.op_rla(instr),
            Op::Rra => self.op_rra(instr),
            Op::Jr => self.op_jr(instr),
            Op::JrNz => self.op_jr_nz(instr),
            Op::JrZ => self.op_jr_z(instr),
            Op::JrNc => self.op_jr_nc(instr),
            Op::JrC => self.op_jr_c(instr),
            Op::Jp => self.op_jp(instr),
            Op::JpNz => self.op_jp_nz(instr),
            Op::JpZ => self.op_jp_z(instr),
            Op::JpNc => self.op_jp_nc(instr),
            Op::JpC => self.op_jp_c(instr),
            Op::Call => self.op_call(instr),
            Op::CallNz => self.op_call_nz(instr),
            Op::CallZ => self.op_call_z(instr),
            Op::CallNc => self.op_call_nc(instr),
            Op::CallC => self.op_call_c(instr),
            Op::Ret => self.op_ret(instr),
            Op::RetNz => self.op_ret_nz(instr),
            Op::RetZ => self.op_ret_z(instr),
            Op::RetNc => self.op_ret_nc(instr),
            Op::RetC => self.op_ret_c(instr),
            Op::Reti => self.op_reti(instr),
            Op::Rst => self.op_rst(instr),
            Op::Invalid => self.op_invalid(instr),
            Op::PrefixCb => Err(CpuError::BadOperand),
            _ => self.op_prefix_cb(instr),
        }
    }

    // -----------------------------------------------------------------------
    // Operand access
    // -----------------------------------------------------------------------

    fn mem_address(&self, ins: &Instruction, o: Operand) -> (a: u16)
        requires
            is_mem(o),
        ensures
            a == mem_addr(self@, *ins, o),
    {
        match o {
            Operand::Ind(r) | Operand::IndInc(r) | Operand::IndDec(r) => self.regs.read(r),
            Operand::Abs => ins.imm16,
            Operand::HighImm => 0xFF00 + ins.imm8 as u16,
            Operand::HighC => 0xFF00 + self.regs.c as u16,
            _ => 0,
        }
    }

    fn load(&self, ins: &Instruction, o: Operand) -> (v: u8)
        requires
            self.wf(),
            is_src8(o),
        ensures
            v == load8(self@, *ins, o),
    {
        match o {
            Operand::Reg(r) => self.regs.read(r) as u8,
            Operand::Imm8 => ins.imm8,
            _ => {
                let a = self.mem_address(ins, o);
                self.bus.read(a)
            },
        }
    }

    fn store(&mut self, ins: &Instruction, o: Operand, v: u8)
        requires
            old(self).wf(),
            is_dst8(o),
        ensures
            final(self).wf(),
            final(self)@ == store8(old(self)@, *ins, o, v),
    {
        match o {
            Operand::Reg(r) => {
                let _ = self.regs.write(r, v as u16);
            },
            _ => {
                let a = self.mem_address(ins, o);
                self.bus.write(a, v);
            },
        }
    }

    #[verifier::rlimit(40)]
    fn finish_access(&mut self, o: Operand)
        requires
            is_src8(o),
        ensures
            final(self).bus == old(self).bus,
            final(self)@ == after_access(old(self)@, o),
    {
        match o {
            Operand::IndInc(r) => {
                let _ = self.regs.read_inc(r);
            },
            Operand::IndDec(r) => {
                let _ = self.regs.read_dec(r);
            },
            _ => {},
        }
    }

    fn push(&mut self, v: u16)
        requires
            old(self).wf(),
        ensures
            final(self).wf(),
            final(self)@ == push_state(old(self)@, v),
    {
        let sp1 = self.regs.sp.wrapping_sub(1);
        self.bus.write(sp1, (v / 256) as u8);
        let sp2 = sp1.wrapping_sub(1);
        self.bus.write(sp2, (v % 256) as u8);
        self.regs.sp = sp2;
    }

    fn pop(&mut self) -> (v: u16)
        requires
            old(self).wf(),
        ensures
            final(self).bus == old(self).bus,
            (v, final(self)@.regs.sp) == pop16(old(self)@.mem, old(self)@.regs.sp),
            final(self)@ == (CpuView {
                regs: RegisterFile { sp: final(self)@.regs.sp, ..old(self)@.regs },
                ..old(self)@
            }),
    {
        let sp = self.regs.sp;
        let lo = self.bus.read(sp);
        let hi = self.bus.read(sp.wrapping_add(1));
        self.regs.sp = sp.wrapping_add(2);
        lo as u16 + hi as u16 * 256
    }
}


impl CPU {
    /// NOP: no change but PC and cycles.
    pub fn op_nop(&mut self, instr: &Instruction) -> (r: Result<OpOk, CpuError>)
        requires
            old(self).wf(),
        ensures
            final(self).wf(),
            agrees(run_as(Op::Nop, old(self)@, *instr), r, old(self)@, final(self)@),
    {
        if instr.op != Op::Nop {
            return Err(CpuError::BadOperand);
        }
        proof {
            reveal(exec_spec);
        }
        Ok(OpOk::ok(self, instr))
    }

    /// STOP: no fetch until an external wake-up.
    pub fn op_stop(&mut self, instr: &Instruction) -> (r: Result<OpOk, CpuError>)
        requires
            old(self).wf(),
        ensures
            final(self).wf(),
            agrees(run_as(Op::Stop, old(self)@, *instr), r, old(self)@, final(self)@),
    {
        if instr.op != Op::Stop {
            return Err(CpuError::BadOperand);
        }
        proof {
            reveal(exec_spec);
        }
        self.run = RunState::Stopped;
        Ok(OpOk::ok(self, instr))
    }

    /// HALT: no fetch until an interrupt is pending.
    pub fn op_halt(&mut self, instr: &Instruction) -> (r: Result<OpOk, CpuError>)
        requires
            old(self).wf(),
        ensures
            final(self).wf(),
            agrees(run_as(Op::Halt, old(self)@, *instr), r, old(self)@, final(self)@),
    {
        if instr.op != Op::Halt {
            return Err(CpuError::BadOperand);
        }
        proof {
            reveal(exec_spec);
        }
        self.run = RunState::Halted;
        Ok(OpOk::ok(self, instr))
    }

    /// EI: interrupts are enabled once the next instruction has run.
    pub fn op_ei(&mut self, instr: &Instruction) -> (r: Result<OpOk, CpuError>)
        requires
            old(self).wf(),
        ensures
            final(self).wf(),
            agrees(run_as(Op::Ei, old(self)@, *instr), r, old(self)@, final(self)@),
    {
        if instr.op != Op::Ei {
            return Err(CpuError::BadOperand);
        }
        proof {
            reveal(exec_spec);
        }
        self.ime_pending = true;
        Ok(OpOk::ok(self, instr))
    }

    /// DI: interrupts are disabled at once.
    pub fn op_di(&mut self, instr: &Instruction) -> (r: Result<OpOk, CpuError>)
        requires
            old(self).wf(),
        ensures
            final(self).wf(),
            agrees(run_as(Op::Di, old(self)@, *instr), r, old(self)@, final(self)@),
    {
        if instr.op != Op::Di {
            return Err(CpuError::BadOperand);
        }
        proof {
            reveal(exec_spec);
        }
        self.ime = false;
        self.ime_pending = false;
        Ok(OpOk::ok(self, instr))
    }

    /// LD: moves between registers, memory and immediates.
    pub fn op_ld(&mut self, instr: &Instruction) -> (r: Result<OpOk, CpuError>)
        requires
            old(self).wf(),
        ensures
            final(self).wf(),
            agrees(run_as(Op::Ld, old(self)@, *instr), r, old(self)@, final(self)@),
    {
        if instr.op != Op::Ld {
            return Err(CpuError::BadOperand);
        }
        proof {
            reveal(exec_spec);
        }
        self.load_op(instr)
    }

    /// LDH: A to or from the 0xFF00 page.
    pub fn op_ldh(&mut self, instr: &Instruction) -> (r: Result<OpOk, CpuError>)
        requires
            old(self).wf(),
        ensures
            final(self).wf(),
            agrees(run_as(Op::Ldh, old(self)@, *instr), r, old(self)@, final(self)@),
    {
        if instr.op != Op::Ldh {
            return Err(CpuError::BadOperand);
        }
        proof {
            reveal(exec_spec);
        }
        let high_store = instr.first == Operand::HighImm && instr.second == Operand::Reg(Register::A);
        let high_load = instr.first == Operand::Reg(Register::A) && instr.second == Operand::HighImm;
        if !(high_store || high_load) {
            return Err(CpuError::BadOperand);
        }
        self.load_op(instr)
    }

    /// PUSH rr: SP-1 gets the high byte, SP-2 the low byte.
    pub fn op_push(&mut self, instr: &Instruction) -> (r: Result<OpOk, CpuError>)
        requires
            old(self).wf(),
        ensures
            final(self).wf(),
            agrees(run_as(Op::Push, old(self)@, *instr), r, old(self)@, final(self)@),
    {
        let next = OpOk::ok(self, instr);
        if instr.op != Op::Push {
            return Err(CpuError::BadOperand);
        }
        proof {
            reveal(exec_spec);
        }
        match instr.first {
            Operand::Reg(r) => {
                if !stack_pair(r) {
                    return Err(CpuError::BadOperand);
                }
                let v = self.regs.read(r);
                self.push(v);
                Ok(next)
            },
            _ => Err(CpuError::BadOperand),
        }
    }

    /// POP rr: the inverse of PUSH; POP AF clears the low nibble of F.
    pub fn op_pop(&mut self, instr: &Instruction) -> (r: Result<OpOk, CpuError>)
        requires
            old(self).wf(),
        ensures
            final(self).wf(),
            agrees(run_as(Op::Pop, old(self)@, *instr), r, old(self)@, final(self)@),
    {
        let next = OpOk::ok(self, instr);
        if instr.op != Op::Pop {
            return Err(CpuError::BadOperand);
        }
        proof {
            reveal(exec_spec);
        }
        match instr.first {
            Operand::Reg(r) => {
                if !stack_pair(r) {
                    return Err(CpuError::BadOperand);
                }
                let sp = self.regs.sp;
                let v = self.pop();
                let new_sp = self.regs.sp;
                self.regs.sp = sp;
                let _ = self.regs.write(r, v);
                self.regs.sp = new_sp;
                Ok(next)
            },
            _ => Err(CpuError::BadOperand),
        }
    }

    /// ADD: A plus a byte, HL plus a pair, or SP plus a signed byte.
    pub fn op_add(&mut self, instr: &Instruction) -> (r: Result<OpOk, CpuError>)
        requires
            old(self).wf(),
        ensures
            final(self).wf(),
            agrees(run_as(Op::Add, old(self)@, *instr), r, old(self)@, final(self)@),
    {
        let next = OpOk::ok(self, instr);
        if instr.op != Op::Add {
            return Err(CpuError::BadOperand);
        }
        proof {
            reveal(exec_spec);
        }
        match (instr.first, instr.second) {
            (Operand::Reg(Register::HL), Operand::Reg(r)) => {
                if !(r == Register::BC || r == Register::DE || r == Register::HL || r == Register::SP) {
                    return self.alu_op(instr);
                }
                let hl = self.regs.read(Register::HL);
                let v = self.regs.read(r);
                let (sum, f) = add16(hl, v, self.regs.flags);
                let _ = self.regs.write(Register::HL, sum);
                self.regs.flags = f;
                Ok(next)
            },
            (Operand::Reg(Register::SP), Operand::Rel) => {
                let (sum, f) = sp_offset(self.regs.sp, instr.imm8);
                self.regs.sp = sum;
                self.regs.flags = f;
                Ok(next)
            },
            _ => self.alu_op(instr),
        }
    }

    /// ADC: A plus a byte plus carry.
    pub fn op_adc(&mut self, instr: &Instruction) -> (r: Result<OpOk, CpuError>)
        requires
            old(self).wf(),
        ensures
            final(self).wf(),
            agrees(run_as(Op::Adc, old(self)@, *instr), r, old(self)@, final(self)@),
    {
        if instr.op != Op::Adc {
            return Err(CpuError::BadOperand);
        }
        proof {
            reveal(exec_spec);
        }
        self.alu_op(instr)
    }

    /// SUB: A minus a byte.
    pub fn op_sub(&mut self, instr: &Instruction) -> (r: Result<OpOk, CpuError>)
        requires
            old(self).wf(),
        ensures
            final(self).wf(),
            agrees(run_as(Op::Sub, old(self)@, *instr), r, old(self)@, final(self)@),
    {
        if instr.op != Op::Sub {
            return Err(CpuError::BadOperand);
        }
        proof {
            reveal(exec_spec);
        }
        self.alu_op(instr)
    }

    /// SBC: A minus a byte minus carry.
    pub fn op_sbc(&mut self, instr: &Instruction) -> (r: Result<OpOk, CpuError>)
        requires
            old(self).wf(),
        ensures
            final(self).wf(),
            agrees(run_as(Op::Sbc, old(self)@, *instr), r, old(self)@, final(self)@),
    {
        if instr.op != Op::Sbc {
            return Err(CpuError::BadOperand);
        }
        proof {
            reveal(exec_spec);
        }
        self.alu_op(instr)
    }

    /// AND: A and a byte; H set.
    pub fn op_and(&mut self, instr: &Instruction) -> (r: Result<OpOk, CpuError>)
        requires
            old(self).wf(),
        ensures
            final(self).wf(),
            agrees(run_as(Op::And, old(self)@, *instr), r, old(self)@, final(self)@),
    {
        if instr.op != Op::And {
            return Err(CpuError::BadOperand);
        }
        proof {
            reveal(exec_spec);
        }
        self.alu_op(instr)
    }

    /// XOR: A xor a byte.
    pub fn op_xor(&mut self, instr: &Instruction) -> (r: Result<OpOk, CpuError>)
        requires
            old(self).wf(),
        ensures
            final(self).wf(),
            agrees(run_as(Op::Xor, old(self)@, *instr), r, old(self)@, final(self)@),
    {
        if instr.op != Op::Xor {
            return Err(CpuError::BadOperand);
        }
        proof {
            reveal(exec_spec);
        }
        self.alu_op(instr)
    }

    /// OR: A or a byte.
    pub fn op_or(&mut self, instr: &Instruction) -> (r: Result<OpOk, CpuError>)
        requires
            old(self).wf(),
        ensures
            final(self).wf(),
            agrees(run_as(Op::Or, old(self)@, *instr), r, old(self)@, final(self)@),
    {
        if instr.op != Op::Or {
            return Err(CpuError::BadOperand);
        }
        proof {
            reveal(exec_spec);
        }
        self.alu_op(instr)
    }

    /// CP: flags of A minus a byte; A kept.
    pub fn op_cp(&mut self, instr: &Instruction) -> (r: Result<OpOk, CpuError>)
        requires
            old(self).wf(),
        ensures
            final(self).wf(),
            agrees(run_as(Op::Cp, old(self)@, *instr), r, old(self)@, final(self)@),
    {
        if instr.op != Op::Cp {
            return Err(CpuError::BadOperand);
        }
        proof {
            reveal(exec_spec);
        }
        self.alu_op(instr)
    }

    /// INC: a byte (C kept) or a pair (no flags).
    pub fn op_inc(&mut self, instr: &Instruction) -> (r: Result<OpOk, CpuError>)
        requires
            old(self).wf(),
        ensures
            final(self).wf(),
            agrees(run_as(Op::Inc, old(self)@, *instr), r, old(self)@, final(self)@),
    {
        if instr.op != Op::Inc {
            return Err(CpuError::BadOperand);
        }
        proof {
            reveal(exec_spec);
        }
        self.step_op(instr, true)
    }

    /// DEC: a byte (C kept) or a pair (no flags).
    pub fn op_dec(&mut self, instr: &Instruction) -> (r: Result<OpOk, CpuError>)
        requires
            old(self).wf(),
        ensures
            final(self).wf(),
            agrees(run_as(Op::Dec, old(self)@, *instr), r, old(self)@, final(self)@),
    {
        if instr.op != Op::Dec {
            return Err(CpuError::BadOperand);
        }
        proof {
            reveal(exec_spec);
        }
        self.step_op(instr, false)
    }

    /// DAA: BCD correction of A.
    pub fn op_daa(&mut self, instr: &Instruction) -> (r: Result<OpOk, CpuError>)
        requires
            old(self).wf(),
        ensures
            final(self).wf(),
            agrees(run_as(Op::Daa, old(self)@, *instr), r, old(self)@, final(self)@),
    {
        if instr.op != Op::Daa {
            return Err(CpuError::BadOperand);
        }
        proof {
            reveal(exec_spec);
        }
        self.acc_op(instr)
    }

    /// CPL: complement A; N and H set.
    pub fn op_cpl(&mut self, instr: &Instruction) -> (r: Result<OpOk, CpuError>)
        requires
            old(self).wf(),
        ensures
            final(self).wf(),
            agrees(run_as(Op::Cpl, old(self)@, *instr), r, old(self)@, final(self)@),
    {
        if instr.op != Op::Cpl {
            return Err(CpuError::BadOperand);
        }
        proof {
            reveal(exec_spec);
        }
        self.acc_op(instr)
    }

    /// SCF: set carry; N and H clear.
    pub fn op_scf(&mut self, instr: &Instruction) -> (r: Result<OpOk, CpuError>)
        requires
            old(self).wf(),
        ensures
            final(self).wf(),
            agrees(run_as(Op::Scf, old(self)@, *instr), r, old(self)@, final(self)@),
    {
        if instr.op != Op::Scf {
            return Err(CpuError::BadOperand);
        }
        proof {
            reveal(exec_spec);
        }
        self.acc_op(instr)
    }

    /// CCF: complement carry; N and H clear.
    pub fn op_ccf(&mut self, instr: &Instruction) -> (r: Result<OpOk, CpuError>)
        requires
            old(self).wf(),
        ensures
            final(self).wf(),
            agrees(run_as(Op::Ccf, old(self)@, *instr), r, old(self)@, final(self)@),
    {
        if instr.op != Op::Ccf {
            return Err(CpuError::BadOperand);
        }
        proof {
            reveal(exec_spec);
        }
        self.acc_op(instr)
    }

    /// RLCA: rotate A left; Z clear.
    pub fn op_rlca(&mut self, instr: &Instruction) -> (r: Result<OpOk, CpuError>)
        requires
            old(self).wf(),
        ensures
            final(self).wf(),
            agrees(run_as(Op::Rlca, old(self)@, *instr), r, old(self)@, final(self)@),
    {
        if instr.op != Op::Rlca {
            return Err(CpuError::BadOperand);
        }
        proof {
            reveal(exec_spec);
        }
        self.acc_op(instr)
    }

    /// RRCA: rotate A right; Z clear.
    pub fn op_rrca(&mut self, instr: &Instruction) -> (r: Result<OpOk, CpuError>)
        requires
            old(self).wf(),
        ensures
            final(self).wf(),
            agrees(run_as(Op::Rrca, old(self)@, *instr), r, old(self)@, final(self)@),
    {
        if instr.op != Op::Rrca {
            return Err(CpuError::BadOperand);
        }
        proof {
            reveal(exec_spec);
        }
        self.acc_op(instr)
    }

    /// RLA: rotate A left through carry; Z clear.
    pub fn op_rla(&mut self, instr: &Instruction) -> (r: Result<OpOk, CpuError>)
        requires
            old(self).wf(),
        ensures
            final(self).wf(),
            agrees(run_as(Op::Rla, old(self)@, *instr), r, old(self)@, final(self)@),
    {
        if instr.op != Op::Rla {
            return Err(CpuError::BadOperand);
        }
        proof {
            reveal(exec_spec);
        }
        self.acc_op(instr)
    }

    /// RRA: rotate A right through carry; Z clear.
    pub fn op_rra(&mut self, instr: &Instruction) -> (r: Result<OpOk, CpuError>)
        requires
            old(self).wf(),
        ensures
            final(self).wf(),
            agrees(run_as(Op::Rra, old(self)@, *instr), r, old(self)@, final(self)@),
    {
        if instr.op != Op::Rra {
            return Err(CpuError::BadOperand);
        }
        proof {
            reveal(exec_spec);
        }
        self.acc_op(instr)
    }

    /// JR: relative jump.
    pub fn op_jr(&mut self, instr: &Instruction) -> (r: Result<OpOk, CpuError>)
        requires
            old(self).wf(),
        ensures
            final(self).wf(),
            agrees(run_as(Op::Jr, old(self)@, *instr), r, old(self)@, final(self)@),
    {
        if instr.op != Op::Jr {
            return Err(CpuError::BadOperand);
        }
        proof {
            reveal(exec_spec);
        }
        self.jr_op(instr)
    }

    /// JR NZ: relative jump when Z is clear.
    pub fn op_jr_nz(&mut self, instr: &Instruction) -> (r: Result<OpOk, CpuError>)
        requires
            old(self).wf(),
        ensures
            final(self).wf(),
            agrees(run_as(Op::JrNz, old(self)@, *instr), r, old(self)@, final(self)@),
    {
        if instr.op != Op::JrNz {
            return Err(CpuError::BadOperand);
        }
        proof {
            reveal(exec_spec);
        }
        self.jr_op(instr)
    }

    /// JR Z: relative jump when Z is set.
    pub fn op_jr_z(&mut self, instr: &Instruction) -> (r: Result<OpOk, CpuError>)
        requires
            old(self).wf(),
        ensures
            final(self).wf(),
            agrees(run_as(Op::JrZ, old(self)@, *instr), r, old(self)@, final(self)@),
    {
        if instr.op != Op::JrZ {
            return Err(CpuError::BadOperand);
        }
        proof {
            reveal(exec_spec);
        }
        self.jr_op(instr)
    }

    /// JR NC: relative jump when C is clear.
    pub fn op_jr_nc(&mut self, instr: &Instruction) -> (r: Result<OpOk, CpuError>)
        requires
            old(self).wf(),
        ensures
            final(self).wf(),
            agrees(run_as(Op::JrNc, old(self)@, *instr), r, old(self)@, final(self)@),
    {
        if instr.op != Op::JrNc {
            return Err(CpuError::BadOperand);
        }
        proof {
            reveal(exec_spec);
        }
        self.jr_op(instr)
    }

    /// JR C: relative jump when C is set.
    pub fn op_jr_c(&mut self, instr: &Instruction) -> (r: Result<OpOk, CpuError>)
        requires
            old(self).wf(),
        ensures
            final(self).wf(),
            agrees(run_as(Op::JrC, old(self)@, *instr), r, old(self)@, final(self)@),
    {
        if instr.op != Op::JrC {
            return Err(CpuError::BadOperand);
        }
        proof {
            reveal(exec_spec);
        }
        self.jr_op(instr)
    }

    /// JP: absolute jump, or to HL.
    pub fn op_jp(&mut self, instr: &Instruction) -> (r: Result<OpOk, CpuError>)
        requires
            old(self).wf(),
        ensures
            final(self).wf(),
            agrees(run_as(Op::Jp, old(self)@, *instr), r, old(self)@, final(self)@),
    {
        if instr.op != Op::Jp {
            return Err(CpuError::BadOperand);
        }
        proof {
            reveal(exec_spec);
        }
        self.jp_op(instr)
    }

    /// JP NZ: absolute jump when Z is clear.
    pub fn op_jp_nz(&mut self, instr: &Instruction) -> (r: Result<OpOk, CpuError>)
        requires
            old(self).wf(),
        ensures
            final(self).wf(),
            agrees(run_as(Op::JpNz, old(self)@, *instr), r, old(self)@, final(self)@),
    {
        if instr.op != Op::JpNz {
            return Err(CpuError::BadOperand);
        }
        proof {
            reveal(exec_spec);
        }
        self.jp_op(instr)
    }

    /// JP Z: absolute jump when Z is set.
    pub fn op_jp_z(&mut self, instr: &Instruction) -> (r: Result<OpOk, CpuError>)
        requires
            old(self).wf(),
        ensures
            final(self).wf(),
            agrees(run_as(Op::JpZ, old(self)@, *instr), r, old(self)@, final(self)@),
    {
        if instr.op != Op::JpZ {
            return Err(CpuError::BadOperand);
        }
        proof {
            reveal(exec_spec);
        }
        self.jp_op(instr)
    }

    /// JP NC: absolute jump when C is clear.
    pub fn op_jp_nc(&mut self, instr: &Instruction) -> (r: Result<OpOk, CpuError>)
        requires
            old(self).wf(),
        ensures
            final(self).wf(),
            agrees(run_as(Op::JpNc, old(self)@, *instr), r, old(self)@, final(self)@),
    {
        if instr.op != Op::JpNc {
            return Err(CpuError::BadOperand);
        }
        proof {
            reveal(exec_spec);
        }
        self.jp_op(instr)
    }

    /// JP C: absolute jump when C is set.
    pub fn op_jp_c(&mut self, instr: &Instruction) -> (r: Result<OpOk, CpuError>)
        requires
            old(self).wf(),
        ensures
            final(self).wf(),
            agrees(run_as(Op::JpC, old(self)@, *instr), r, old(self)@, final(self)@),
    {
        if instr.op != Op::JpC {
            return Err(CpuError::BadOperand);
        }
        proof {
            reveal(exec_spec);
        }
        self.jp_op(instr)
    }

    /// CALL: push the return address and jump.
    pub fn op_call(&mut self, instr: &Instruction) -> (r: Result<OpOk, CpuError>)
        requires
            old(self).wf(),
        ensures
            final(self).wf(),
            agrees(run_as(Op::Call, old(self)@, *instr), r, old(self)@, final(self)@),
    {
        if instr.op != Op::Call {
            return Err(CpuError::BadOperand);
        }
        proof {
            reveal(exec_spec);
        }
        self.call_op(instr)
    }

    /// CALL NZ: call when Z is clear.
    pub fn op_call_nz(&mut self, instr: &Instruction) -> (r: Result<OpOk, CpuError>)
        requires
            old(self).wf(),
        ensures
            final(self).wf(),
            agrees(run_as(Op::CallNz, old(self)@, *instr), r, old(self)@, final(self)@),
    {
        if instr.op != Op::CallNz {
            return Err(CpuError::BadOperand);
        }
        proof {
            reveal(exec_spec);
        }
        self.call_op(instr)
    }

    /// CALL Z: call when Z is set.
    pub fn op_call_z(&mut self, instr: &Instruction) -> (r: Result<OpOk, CpuError>)
        requires
            old(self).wf(),
        ensures
            final(self).wf(),
            agrees(run_as(Op::CallZ, old(self)@, *instr), r, old(self)@, final(self)@),
    {
        if instr.op != Op::CallZ {
            return Err(CpuError::BadOperand);
        }
        proof {
            reveal(exec_spec);
        }
        self.call_op(instr)
    }

    /// CALL NC: call when C is clear.
    pub fn op_call_nc(&mut self, instr: &Instruction) -> (r: Result<OpOk, CpuError>)
        requires
            old(self).wf(),
        ensures
            final(self).wf(),
            agrees(run_as(Op::CallNc, old(self)@, *instr), r, old(self)@, final(self)@),
    {
        if instr.op != Op::CallNc {
            return Err(CpuError::BadOperand);
        }
        proof {
            reveal(exec_spec);
        }
        self.call_op(instr)
    }

    /// CALL C: call when C is set.
    pub fn op_call_c(&mut self, instr: &Instruction) -> (r: Result<OpOk, CpuError>)
        requires
            old(self).wf(),
        ensures
            final(self).wf(),
            agrees(run_as(Op::CallC, old(self)@, *instr), r, old(self)@, final(self)@),
    {
        if instr.op != Op::CallC {
            return Err(CpuError::BadOperand);
        }
        proof {
            reveal(exec_spec);
        }
        self.call_op(instr)
    }

    /// RET: pop the return address.
    pub fn op_ret(&mut self, instr: &Instruction) -> (r: Result<OpOk, CpuError>)
        requires
            old(self).wf(),
        ensures
            final(self).wf(),
            agrees(run_as(Op::Ret, old(self)@, *instr), r, old(self)@, final(self)@),
    {
        if instr.op != Op::Ret {
            return Err(CpuError::BadOperand);
        }
        proof {
            reveal(exec_spec);
        }
        self.ret_op(instr)
    }

    /// RET NZ: return when Z is clear.
    pub fn op_ret_nz(&mut self, instr: &Instruction) -> (r: Result<OpOk, CpuError>)
        requires
            old(self).wf(),
        ensures
            final(self).wf(),
            agrees(run_as(Op::RetNz, old(self)@, *instr), r, old(self)@, final(self)@),
    {
        if instr.op != Op::RetNz {
            return Err(CpuError::BadOperand);
        }
        proof {
            reveal(exec_spec);
        }
        self.ret_op(instr)
    }

    /// RET Z: return when Z is set.
    pub fn op_ret_z(&mut self, instr: &Instruction) -> (r: Result<OpOk, CpuError>)
        requires
            old(self).wf(),
        ensures
            final(self).wf(),
            agrees(run_as(Op::RetZ, old(self)@, *instr), r, old(self)@, final(self)@),
    {
        if instr.op != Op::RetZ {
            return Err(CpuError::BadOperand);
        }
        proof {
            reveal(exec_spec);
        }
        self.ret_op(instr)
    }

    /// RET NC: return when C is clear.
    pub fn op_ret_nc(&mut self, instr: &Instruction) -> (r: Result<OpOk, CpuError>)
        requires
            old(self).wf(),
        ensures
            final(self).wf(),
            agrees(run_as(Op::RetNc, old(self)@, *instr), r, old(self)@, final(self)@),
    {
        if instr.op != Op::RetNc {
            return Err(CpuError::BadOperand);
        }
        proof {
            reveal(exec_spec);
        }
        self.ret_op(instr)
    }

    /// RET C: return when C is set.
    pub fn op_ret_c(&mut self, instr: &Instruction) -> (r: Result<OpOk, CpuError>)
        requires
            old(self).wf(),
        ensures
            final(self).wf(),
            agrees(run_as(Op::RetC, old(self)@, *instr), r, old(self)@, final(self)@),
    {
        if instr.op != Op::RetC {
            return Err(CpuError::BadOperand);
        }
        proof {
            reveal(exec_spec);
        }
        self.ret_op(instr)
    }

    /// RETI: return and enable interrupts at once.
    pub fn op_reti(&mut self, instr: &Instruction) -> (r: Result<OpOk, CpuError>)
        requires
            old(self).wf(),
        ensures
            final(self).wf(),
            agrees(run_as(Op::Reti, old(self)@, *instr), r, old(self)@, final(self)@),
    {
        if instr.op != Op::Reti {
            return Err(CpuError::BadOperand);
        }
        proof {
            reveal(exec_spec);
        }
        self.ret_op(instr)
    }

    /// RST: call a fixed low address.
    pub fn op_rst(&mut self, instr: &Instruction) -> (r: Result<OpOk, CpuError>)
        requires
            old(self).wf(),
        ensures
            final(self).wf(),
            agrees(run_as(Op::Rst, old(self)@, *instr), r, old(self)@, final(self)@),
    {
        if instr.op != Op::Rst {
            return Err(CpuError::BadOperand);
        }
        proof {
            reveal(exec_spec);
        }
        match instr.first {
            Operand::Vector(v) => {
                let ret = OpOk::ok(self, instr);
                self.push(ret.pc);
                Ok(OpOk { pc: v as u16, cycles: instr.cycles as usize })
            },
            _ => Err(CpuError::BadOperand),
        }
    }

    /// An undefined opcode: always a fault.
    pub fn op_invalid(&mut self, instr: &Instruction) -> (r: Result<OpOk, CpuError>)
        requires
            old(self).wf(),
        ensures
            final(self).wf(),
            agrees(run_as(Op::Invalid, old(self)@, *instr), r, old(self)@, final(self)@),
    {
        if instr.op != Op::Invalid {
            return Err(CpuError::BadOperand);
        }
        proof {
            reveal(exec_spec);
        }
        Err(CpuError::InvalidOpcode)
    }

    /// RLC: rotate left.
    pub fn op_rlc(&mut self, instr: &Instruction) -> (r: Result<OpOk, CpuError>)
        requires
            old(self).wf(),
        ensures
            final(self).wf(),
            agrees(run_as(Op::Rlc, old(self)@, *instr), r, old(self)@, final(self)@),
    {
        if instr.op != Op::Rlc {
            return Err(CpuError::BadOperand);
        }
        proof {
            reveal(exec_spec);
        }
        self.shift_op(instr)
    }

    /// RRC: rotate right.
    pub fn op_rrc(&mut self, instr: &Instruction) -> (r: Result<OpOk, CpuError>)
        requires
            old(self).wf(),
        ensures
            final(self).wf(),
            agrees(run_as(Op::Rrc, old(self)@, *instr), r, old(self)@, final(self)@),
    {
        if instr.op != Op::Rrc {
            return Err(CpuError::BadOperand);
        }
        proof {
            reveal(exec_spec);
        }
        self.shift_op(instr)
    }

    /// RL: rotate left through carry.
    pub fn op_rl(&mut self, instr: &Instruction) -> (r: Result<OpOk, CpuError>)
        requires
            old(self).wf(),
        ensures
            final(self).wf(),
            agrees(run_as(Op::Rl, old(self)@, *instr), r, old(self)@, final(self)@),
    {
        if instr.op != Op::Rl {
            return Err(CpuError::BadOperand);
        }
        proof {
            reveal(exec_spec);
        }
        self.shift_op(instr)
    }

    /// RR: rotate right through carry.
    pub fn op_rr(&mut self, instr: &Instruction) -> (r: Result<OpOk, CpuError>)
        requires
            old(self).wf(),
        ensures
            final(self).wf(),
            agrees(run_as(Op::Rr, old(self)@, *instr), r, old(self)@, final(self)@),
    {
        if instr.op != Op::Rr {
            return Err(CpuError::BadOperand);
        }
        proof {
            reveal(exec_spec);
        }
        self.shift_op(instr)
    }

    /// SLA: shift left, 0 in.
    pub fn op_sla(&mut self, instr: &Instruction) -> (r: Result<OpOk, CpuError>)
        requires
            old(self).wf(),
        ensures
            final(self).wf(),
            agrees(run_as(Op::Sla, old(self)@, *instr), r, old(self)@, final(self)@),
    {
        if instr.op != Op::Sla {
            return Err(CpuError::BadOperand);
        }
        proof {
            reveal(exec_spec);
        }
        self.shift_op(instr)
    }

    /// SRA: shift right, top bit kept.
    pub fn op_sra(&mut self, instr: &Instruction) -> (r: Result<OpOk, CpuError>)
        requires
            old(self).wf(),
        ensures
            final(self).wf(),
            agrees(run_as(Op::Sra, old(self)@, *instr), r, old(self)@, final(self)@),
    {
        if instr.op != Op::Sra {
            return Err(CpuError::BadOperand);
        }
        proof {
            reveal(exec_spec);
        }
        self.shift_op(instr)
    }

    /// SWAP: exchange nibbles.
    pub fn op_swap(&mut self, instr: &Instruction) -> (r: Result<OpOk, CpuError>)
        requires
            old(self).wf(),
        ensures
            final(self).wf(),
            agrees(run_as(Op::Swap, old(self)@, *instr), r, old(self)@, final(self)@),
    {
        if instr.op != Op::Swap {
            return Err(CpuError::BadOperand);
        }
        proof {
            reveal(exec_spec);
        }
        self.shift_op(instr)
    }

    /// SRL: shift right, 0 in.
    pub fn op_srl(&mut self, instr: &Instruction) -> (r: Result<OpOk, CpuError>)
        requires
            old(self).wf(),
        ensures
            final(self).wf(),
            agrees(run_as(Op::Srl, old(self)@, *instr), r, old(self)@, final(self)@),
    {
        if instr.op != Op::Srl {
            return Err(CpuError::BadOperand);
        }
        proof {
            reveal(exec_spec);
        }
        self.shift_op(instr)
    }

    /// BIT: Z is the complement of the bit.
    pub fn op_bit(&mut self, instr: &Instruction) -> (r: Result<OpOk, CpuError>)
        requires
            old(self).wf(),
        ensures
            final(self).wf(),
            agrees(run_as(Op::Bit, old(self)@, *instr), r, old(self)@, final(self)@),
    {
        if instr.op != Op::Bit {
            return Err(CpuError::BadOperand);
        }
        proof {
            reveal(exec_spec);
        }
        self.bit_op(instr)
    }

    /// RES: clear a bit.
    pub fn op_res(&mut self, instr: &Instruction) -> (r: Result<OpOk, CpuError>)
        requires
            old(self).wf(),
        ensures
            final(self).wf(),
            agrees(run_as(Op::Res, old(self)@, *instr), r, old(self)@, final(self)@),
    {
        if instr.op != Op::Res {
            return Err(CpuError::BadOperand);
        }
        proof {
            reveal(exec_spec);
        }
        self.bit_op(instr)
    }

    /// SET: set a bit.
    pub fn op_set(&mut self, instr: &Instruction) -> (r: Result<OpOk, CpuError>)
        requires
            old(self).wf(),
        ensures
            final(self).wf(),
            agrees(run_as(Op::SetBit, old(self)@, *instr), r, old(self)@, final(self)@),
    {
        if instr.op != Op::SetBit {
            return Err(CpuError::BadOperand);
        }
        proof {
            reveal(exec_spec);
        }
        self.bit_op(instr)
    }

    /// Runs an instruction of the extended table, entered through the 0xCB
    /// prefix; any other instruction is a fault.
    pub fn op_prefix_cb(&mut self, instr: &Instruction) -> (r: Result<OpOk, CpuError>)
        requires
            old(self).wf(),
        ensures
            final(self).wf(),
            agrees(
                if is_extended_op(instr.op) {
                    exec_spec(old(self)@, *instr)
                } else {
                    Err(CpuError::BadOperand)
                },
                r,
                old(self)@,
                final(self)@,
            ),
    {
        proof {
            reveal(exec_spec);
        }
        match instr.op {
            Op::Rlc => self.op_rlc(instr),
            Op::Rrc => self.op_rrc(instr),
            Op::Rl => self.op_rl(instr),
            Op::Rr => self.op_rr(instr),
            Op::Sla => self.op_sla(instr),
            Op::Sra => self.op_sra(instr),
            Op::Swap => self.op_swap(instr),
            Op::Srl => self.op_srl(instr),
            Op::Bit => self.op_bit(instr),
            Op::Res => self.op_res(instr),
            Op::SetBit => self.op_set(instr),
            _ => Err(CpuError::BadOperand),
        }
    }
}

impl CPU {
    fn load_op(&mut self, instr: &Instruction) -> (r: Result<OpOk, CpuError>)
        requires
            old(self).wf(),
        ensures
            final(self).wf(),
            agrees(ld_spec(old(self)@, *instr), r, old(self)@, final(self)@),
    {
        let next = OpOk::ok(self, instr);
        let d = instr.first;
        let src = instr.second;
        match d {
            Operand::Reg(r) => {
                if r == Register::BC || r == Register::DE || r == Register::HL || r == Register::SP {
                    return self.load_pair(instr, r);
                }
            },
            Operand::Abs => {
                if src == Operand::Reg(Register::SP) {
                    self.store_sp(instr.imm16);
                    return Ok(next);
                }
            },
            _ => {},
        }
        if !(dst8(d) && src8(src)) {
            return Err(CpuError::BadOperand);
        }
        self.load_byte(instr);
        Ok(next)
    }

    fn store_sp(&mut self, a: u16)
        requires
            old(self).wf(),
        ensures
            final(self).wf(),
            final(self)@ == (CpuView {
                mem: old(self)@.mem.update(a as int, (old(self)@.regs.sp % 256) as u8).update(
                    wrap16(a + 1) as int,
                    (old(self)@.regs.sp / 256) as u8,
                ),
                ..old(self)@
            }),
    {
        let sp = self.regs.sp;
        self.bus.write(a, (sp % 256) as u8);
        self.bus.write(a.wrapping_add(1), (sp / 256) as u8);
    }

    fn load_byte(&mut self, instr: &Instruction)
        requires
            old(self).wf(),
            is_dst8(instr.first),
            is_src8(instr.second),
        ensures
            final(self).wf(),
            final(self)@ == after_access(
                store8(
                    after_access(old(self)@, instr.second),
                    *instr,
                    instr.first,
                    load8(old(self)@, *instr, instr.second),
                ),
                instr.first,
            ),
    {
        let v = self.load(instr, instr.second);
        self.finish_access(instr.second);
        self.store(instr, instr.first, v);
        self.finish_access(instr.first);
    }

    fn load_pair(&mut self, instr: &Instruction, r: Register) -> (res: Result<OpOk, CpuError>)
        requires
            old(self).wf(),
            is_wide(r),
            instr.first == Operand::Reg(r),
        ensures
            final(self).wf(),
            agrees(ld_spec(old(self)@, *instr), res, old(self)@, final(self)@),
    {
        let next = OpOk::ok(self, instr);
        match instr.second {
            Operand::Imm16 => {
                let _ = self.regs.write(r, instr.imm16);
            },
            Operand::Reg(Register::HL) => {
                if r != Register::SP {
                    return Err(CpuError::BadOperand);
                }
                let v = self.regs.read(Register::HL);
                let _ = self.regs.write(r, v);
            },
            Operand::SpRel => {
                if r != Register::HL {
                    return Err(CpuError::BadOperand);
                }
                let (v, f) = sp_offset(self.regs.sp, instr.imm8);
                let _ = self.regs.write(r, v);
                self.regs.flags = f;
            },
            _ => {
                return Err(CpuError::BadOperand);
            },
        }
        Ok(next)
    }

    fn alu_op(&mut self, instr: &Instruction) -> (r: Result<OpOk, CpuError>)
        requires
            old(self).wf(),
        ensures
            final(self).wf(),
            agrees(alu8_spec(old(self)@, *instr), r, old(self)@, final(self)@),
    {
        let next = OpOk::ok(self, instr);
        let src = match instr.op {
            Op::Add | Op::Adc | Op::Sbc => {
                if instr.first != Operand::Reg(Register::A) {
                    return Err(CpuError::BadOperand);
                }
                instr.second
            },
            _ => instr.first,
        };
        if !src8(src) {
            return Err(CpuError::BadOperand);
        }
        let a = self.regs.a;
        let v = self.load(instr, src);
        let out = alu_out(instr.op, a, v, self.regs.flags);
        self.finish_access(src);
        if instr.op != Op::Cp {
            self.regs.a = out.value;
        }
        self.regs.flags = out.flags;
        Ok(next)
    }

    fn step_op(&mut self, instr: &Instruction, up: bool) -> (r: Result<OpOk, CpuError>)
        requires
            old(self).wf(),
        ensures
            final(self).wf(),
            agrees(incdec_spec(old(self)@, *instr, up), r, old(self)@, final(self)@),
    {
        let next = OpOk::ok(self, instr);
        let o = instr.first;
        match o {
            Operand::Reg(r) => {
                if r == Register::BC || r == Register::DE || r == Register::HL || r == Register::SP {
                    self.step_pair(r, up);
                    return Ok(next);
                }
            },
            _ => {},
        }
        if !rmw8(o) {
            return Err(CpuError::BadOperand);
        }
        self.step_byte(instr, up);
        Ok(next)
    }

    fn step_pair(&mut self, r: Register, up: bool)
        requires
            is_wide(r),
        ensures
            final(self).bus == old(self).bus,
            final(self)@ == with_reg(
                old(self)@,
                r,
                wrap16(old(self)@.regs.get(r) + if up { 1int } else { -1int }),
            ),
    {
        let v = self.regs.read(r);
        let _ = self.regs.write(
            r,
            if up {
                v.wrapping_add(1)
            } else {
                v.wrapping_sub(1)
            },
        );
    }

    fn step_byte(&mut self, instr: &Instruction, up: bool)
        requires
            old(self).wf(),
            is_rmw8(instr.first),
        ensures
            final(self).wf(),
            ({
                let s = old(self)@;
                let v = load8(s, *instr, instr.first);
                let out = if up {
                    inc8_spec(v, s.regs.flags)
                } else {
                    dec8_spec(v, s.regs.flags)
                };
                final(self)@ == with_flags(store8(s, *instr, instr.first, out.value), out.flags)
            }),
    {
        let o = instr.first;
        let v = self.load(instr, o);
        let out = if up {
            inc8(v, self.regs.flags)
        } else {
            dec8(v, self.regs.flags)
        };
        self.store(instr, o, out.value);
        self.regs.flags = out.flags;
    }

    fn acc_op(&mut self, instr: &Instruction) -> (r: Result<OpOk, CpuError>)
        requires
            old(self).wf(),
        ensures
            final(self).wf(),
            agrees(acc_spec(old(self)@, *instr), r, old(self)@, final(self)@),
    {
        let next = OpOk::ok(self, instr);
        let a = self.regs.a;
        let f = self.regs.flags;
        let out = match instr.op {
            Op::Daa => daa(a, f),
            Op::Cpl => AluOut { value: 255 - a, flags: Flags { n: true, h: true, ..f } },
            Op::Scf => AluOut { value: a, flags: Flags { n: false, h: false, c: true, ..f } },
            Op::Ccf => AluOut { value: a, flags: Flags { n: false, h: false, c: !f.c, ..f } },
            Op::Rlca => shift_a(Shift::Rlc, a, f),
            Op::Rrca => shift_a(Shift::Rrc, a, f),
            Op::Rla => shift_a(Shift::Rl, a, f),
            _ => shift_a(Shift::Rr, a, f),
        };
        self.regs.a = out.value;
        self.regs.flags = out.flags;
        Ok(next)
    }

    fn jr_op(&mut self, instr: &Instruction) -> (r: Result<OpOk, CpuError>)
        requires
            old(self).wf(),
        ensures
            final(self).wf(),
            agrees(jr_spec(old(self)@, *instr), r, old(self)@, final(self)@),
    {
        let next = OpOk::ok(self, instr);
        if condition(instr.op, self.regs.flags) {
            Ok(OpOk { pc: wrapping_offset(next.pc, instr.imm8), cycles: instr.cycles_taken as usize })
        } else {
            Ok(next)
        }
    }

    fn jp_op(&mut self, instr: &Instruction) -> (r: Result<OpOk, CpuError>)
        requires
            old(self).wf(),
        ensures
            final(self).wf(),
            agrees(jp_spec(old(self)@, *instr), r, old(self)@, final(self)@),
    {
        let target = match instr.first {
            Operand::Imm16 => instr.imm16,
            Operand::Reg(Register::HL) => {
                if instr.op != Op::Jp {
                    return Err(CpuError::BadOperand);
                }
                self.regs.read(Register::HL)
            },
            _ => {
                return Err(CpuError::BadOperand);
            },
        };
        if condition(instr.op, self.regs.flags) {
            Ok(OpOk { pc: target, cycles: instr.cycles_taken as usize })
        } else {
            Ok(OpOk::ok(self, instr))
        }
    }

    fn call_op(&mut self, instr: &Instruction) -> (r: Result<OpOk, CpuError>)
        requires
            old(self).wf(),
        ensures
            final(self).wf(),
            agrees(call_spec(old(self)@, *instr), r, old(self)@, final(self)@),
    {
        let next = OpOk::ok(self, instr);
        if condition(instr.op, self.regs.flags) {
            self.push(next.pc);
            Ok(OpOk { pc: instr.imm16, cycles: instr.cycles_taken as usize })
        } else {
            Ok(next)
        }
    }

    fn ret_op(&mut self, instr: &Instruction) -> (r: Result<OpOk, CpuError>)
        requires
            old(self).wf(),
        ensures
            final(self).wf(),
            agrees(ret_spec(old(self)@, *instr), r, old(self)@, final(self)@),
    {
        if condition(instr.op, self.regs.flags) {
            let target = self.pop();
            if instr.op == Op::Reti {
                self.ime = true;
            }
            Ok(OpOk { pc: target, cycles: instr.cycles_taken as usize })
        } else {
            Ok(OpOk::ok(self, instr))
        }
    }

    fn shift_op(&mut self, instr: &Instruction) -> (r: Result<OpOk, CpuError>)
        requires
            old(self).wf(),
        ensures
            final(self).wf(),
            agrees(shift_op_spec(old(self)@, *instr), r, old(self)@, final(self)@),
    {
        let next = OpOk::ok(self, instr);
        let o = instr.first;
        if !rmw8(o) {
            return Err(CpuError::BadOperand);
        }
        let v = self.load(instr, o);
        let out = shift(kind_of(instr.op), v, self.regs.flags);
        self.store(instr, o, out.value);
        self.regs.flags = out.flags;
        Ok(next)
    }

    fn bit_op(&mut self, instr: &Instruction) -> (r: Result<OpOk, CpuError>)
        requires
            old(self).wf(),
        ensures
            final(self).wf(),
            agrees(bit_op_spec(old(self)@, *instr), r, old(self)@, final(self)@),
    {
        let next = OpOk::ok(self, instr);
        let i = match instr.first {
            Operand::Bit(i) => i,
            _ => {
                return Err(CpuError::BadOperand);
            },
        };
        let o = instr.second;
        if i >= 8 || !rmw8(o) {
            return Err(CpuError::BadOperand);
        }
        let v = self.load(instr, o);
        if instr.op == Op::Bit {
            self.regs.flags = bit_test(v, i, self.regs.flags);
        } else {
            self.store(instr, o, bit_write(v, i, instr.op == Op::SetBit));
        }
        Ok(next)
    }
}

} // verus!
