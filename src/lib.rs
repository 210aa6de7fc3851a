//! Instruction-execution core of an SM83-class 8-bit CPU: register file,
//! flat address space, opcode decoder and per-instruction executors, each
//! specified against a mathematical model of the machine state.

pub mod alu;
pub mod cpu;
pub mod instruction;
pub mod memory;
pub mod regs;
