use gameboy_cpu::alu::{add8, daa, shift, sub8, Shift};
use gameboy_cpu::cpu::{RunState, CPU};
use gameboy_cpu::instruction::{decode, CpuError, Op, Operand};
use gameboy_cpu::memory::Memory;
use gameboy_cpu::regs::{Flag, Flags, Register};

fn cpu(code: &[u8]) -> CPU {
    CPU::new(Memory::from_bytes(code))
}

fn cpu_run(cpu: &mut CPU) {
    cpu.step().unwrap();
}

fn run(code: &[u8]) -> CPU {
    let mut cpu = cpu(code);
    cpu_run(&mut cpu);
    cpu
}

fn no_flags() -> Flags {
    Flags { z: false, n: false, h: false, c: false }
}

#[test]
fn op_ld_reg_imm16() {
    let cpu = run(&[0x31, 0x34, 0x12]); // LD SP,0x1234
    assert_eq!(cpu.regs.sp, 0x1234);
}

#[test]
fn op_xor_reg() {
    let mut c = cpu(&[0xA8]); // XOR B
    c.regs.a = 0x55;
    c.regs.b = 0xAA;
    cpu_run(&mut c);
    assert_eq!(c.regs.a, 0xFF);
    assert!(!c.regs.test_flag(Flag::Z));

    let mut c = cpu(&[0xA8]); // XOR B
    c.regs.a = 0xAA;
    c.regs.b = 0xAA;
    cpu_run(&mut c);
    assert_eq!(c.regs.a, 0x00);
    assert!(c.regs.test_flag(Flag::Z));
}

#[test]
fn op_ld_ind_reg_dec_reg() {
    let mut c = cpu(&[0x32]); // LD (HL-),A
    (c.regs.h, c.regs.l) = (0x11, 0x22);
    c.regs.a = 0x5A;
    cpu_run(&mut c);
    assert_eq!((c.regs.h, c.regs.l), (0x11, 0x21));
    assert_eq!(c.bus.read(0x1122), 0x5A);
}

#[test]
fn op_ld_reg_reg() {
    let mut c = cpu(&[0x78]); // LD A,B
    c.regs.b = 0x55;
    cpu_run(&mut c);
    assert_eq!(c.regs.a, 0x55);
}

#[test]
fn ld_sp_imm16_advances_pc_and_cycles() {
    let c = run(&[0x31, 0x34, 0x12]);
    assert_eq!(c.regs.sp, 0x1234);
    assert_eq!(c.regs.pc, 3);
    assert_eq!(c.get_cycles(), 12);
}

#[test]
fn ld_reg_reg_touches_nothing_else() {
    let mut c = cpu(&[0x78]);
    c.regs.b = 0x55;
    c.regs.flags = Flags { z: true, n: false, h: true, c: false };
    cpu_run(&mut c);
    assert_eq!(c.regs.a, 0x55);
    assert_eq!(c.regs.b, 0x55);
    assert_eq!(c.regs.flags, Flags { z: true, n: false, h: true, c: false });
    assert_eq!(c.regs.pc, 1);
    assert_eq!(c.get_cycles(), 4);
}

#[test]
fn ld_a_from_hl_inc() {
    let mut c = cpu(&[0x2A, 0x00, 0x77]); // LD A,(HL+)
    c.regs.h = 0x00;
    c.regs.l = 0x02;
    cpu_run(&mut c);
    assert_eq!(c.regs.a, 0x77);
    assert_eq!(c.regs.read(Register::HL), 0x0003);
}

#[test]
fn invalid_opcode_faults() {
    for op in [0xD3u8, 0xDB, 0xDD, 0xE3, 0xE4, 0xEB, 0xEC, 0xED, 0xF4, 0xFC, 0xFD] {
        let mut c = cpu(&[op]);
        let ins = c.peek_next_instr().unwrap();
        assert_eq!(ins.op, Op::Invalid);
        assert_eq!(c.step(), Err(CpuError::InvalidOpcode));
        assert_eq!(c.regs.pc, 0);
        assert_eq!(c.get_cycles(), 0);
    }
}

#[test]
fn truncated_instruction_is_decode_fault() {
    let mut code = vec![0u8; 0x10000];
    code[0xFFFF] = 0x31; // LD SP,d16 with no room for its operand
    let mut c = cpu(&code);
    c.regs.pc = 0xFFFF;
    assert_eq!(c.step(), Err(CpuError::Truncated));
    assert_eq!(c.regs.pc, 0xFFFF);
}

#[test]
fn decode_is_repeatable() {
    let m = Memory::from_bytes(&[0xCB, 0x7C, 0xC3, 0x34, 0x12]);
    let a = decode(&m, 0).unwrap();
    let b = decode(&m, 0).unwrap();
    assert_eq!(a, b);
    assert!(a.extended);
    assert_eq!(a.op, Op::Bit);
    assert_eq!(a.first, Operand::Bit(7));
    assert_eq!(a.second, Operand::Reg(Register::H));
    assert_eq!(a.len, 2);
    let j = decode(&m, 2).unwrap();
    assert_eq!(j.op, Op::Jp);
    assert_eq!(j.imm16, 0x1234);
    assert_eq!(j.len, 3);
    assert_eq!(j.cycles, 16);
}

#[test]
fn push_pop_round_trip() {
    // PUSH BC; POP DE
    let mut c = cpu(&[0xC5, 0xD1]);
    c.regs.sp = 0xFFFE;
    c.regs.b = 0xBE;
    c.regs.c = 0xEF;
    cpu_run(&mut c);
    assert_eq!(c.regs.sp, 0xFFFC);
    assert_eq!(c.bus.read(0xFFFD), 0xBE);
    assert_eq!(c.bus.read(0xFFFC), 0xEF);
    cpu_run(&mut c);
    assert_eq!(c.regs.sp, 0xFFFE);
    assert_eq!(c.regs.read(Register::DE), 0xBEEF);
}

#[test]
fn pop_af_clears_low_nibble() {
    let mut code = vec![0u8; 0x10000];
    code[0] = 0xF1; // POP AF
    code[0x100] = 0xFF;
    code[0x101] = 0x12;
    let mut c = cpu(&code);
    c.regs.sp = 0x100;
    cpu_run(&mut c);
    assert_eq!(c.regs.a, 0x12);
    assert_eq!(c.regs.read(Register::AF), 0x12F0);
    assert_eq!(c.regs.sp, 0x102);
}

#[test]
fn conditional_jr_taken_and_not() {
    // JR NZ,+5
    let mut c = cpu(&[0x20, 0x05]);
    c.regs.flags.z = false;
    cpu_run(&mut c);
    assert_eq!(c.regs.pc, 7);
    assert_eq!(c.get_cycles(), 12);

    let mut c = cpu(&[0x20, 0x05]);
    c.regs.flags.z = true;
    cpu_run(&mut c);
    assert_eq!(c.regs.pc, 2);
    assert_eq!(c.get_cycles(), 8);
}

#[test]
fn jr_backwards() {
    let mut code = vec![0u8; 0x20];
    code[0x10] = 0x18; // JR -2
    code[0x11] = 0xFE;
    let mut c = cpu(&code);
    c.regs.pc = 0x10;
    cpu_run(&mut c);
    assert_eq!(c.regs.pc, 0x10);
}

#[test]
fn call_and_ret() {
    let mut code = vec![0u8; 0x100];
    code[0] = 0xCD; // CALL 0x0040
    code[1] = 0x40;
    code[2] = 0x00;
    code[0x40] = 0xC9; // RET
    let mut c = cpu(&code);
    c.regs.sp = 0xFFFE;
    cpu_run(&mut c);
    assert_eq!(c.regs.pc, 0x40);
    assert_eq!(c.regs.sp, 0xFFFC);
    assert_eq!(c.bus.read(0xFFFD), 0x00);
    assert_eq!(c.bus.read(0xFFFC), 0x03);
    assert_eq!(c.get_cycles(), 24);
    cpu_run(&mut c);
    assert_eq!(c.regs.pc, 3);
    assert_eq!(c.regs.sp, 0xFFFE);
    assert_eq!(c.get_cycles(), 40);
}

#[test]
fn conditional_call_not_taken() {
    let mut c = cpu(&[0xDC, 0x40, 0x00]); // CALL C,0x0040
    c.regs.sp = 0xFFFE;
    cpu_run(&mut c);
    assert_eq!(c.regs.pc, 3);
    assert_eq!(c.regs.sp, 0xFFFE);
    assert_eq!(c.get_cycles(), 12);
}

#[test]
fn rst_pushes_and_jumps() {
    let mut code = vec![0u8; 0x200];
    code[0x100] = 0xEF; // RST 28h
    let mut c = cpu(&code);
    c.regs.pc = 0x100;
    c.regs.sp = 0xD000;
    cpu_run(&mut c);
    assert_eq!(c.regs.pc, 0x28);
    assert_eq!(c.bus.read(0xCFFF), 0x01);
    assert_eq!(c.bus.read(0xCFFE), 0x01);
}

#[test]
fn add_sets_half_carry_and_carry() {
    let mut c = cpu(&[0x80]); // ADD A,B
    c.regs.a = 0x8F;
    c.regs.b = 0x81;
    cpu_run(&mut c);
    assert_eq!(c.regs.a, 0x10);
    assert_eq!(c.regs.flags, Flags { z: false, n: false, h: true, c: true });
}

#[test]
fn add8_exact_values() {
    let r = add8(0xFF, 0x01, false);
    assert_eq!(r.value, 0x00);
    assert_eq!(r.flags, Flags { z: true, n: false, h: true, c: true });
    let r = add8(0x0E, 0x01, true);
    assert_eq!(r.value, 0x10);
    assert_eq!(r.flags, Flags { z: false, n: false, h: true, c: false });
}

#[test]
fn sub8_exact_values() {
    let r = sub8(0x10, 0x01, false);
    assert_eq!(r.value, 0x0F);
    assert_eq!(r.flags, Flags { z: false, n: true, h: true, c: false });
    let r = sub8(0x00, 0x00, true);
    assert_eq!(r.value, 0xFF);
    assert_eq!(r.flags, Flags { z: false, n: true, h: true, c: true });
}

#[test]
fn cp_keeps_a() {
    let mut c = cpu(&[0xFE, 0x42]); // CP 0x42
    c.regs.a = 0x42;
    cpu_run(&mut c);
    assert_eq!(c.regs.a, 0x42);
    assert!(c.regs.test_flag(Flag::Z));
    assert!(c.regs.test_flag(Flag::N));
    assert_eq!(c.regs.pc, 2);
}

#[test]
fn and_or_flags() {
    let mut c = cpu(&[0xE6, 0x0F, 0xF6, 0x00]); // AND 0x0F; OR 0x00
    c.regs.a = 0xF0;
    c.regs.flags.c = true;
    cpu_run(&mut c);
    assert_eq!(c.regs.a, 0x00);
    assert_eq!(c.regs.flags, Flags { z: true, n: false, h: true, c: false });
    cpu_run(&mut c);
    assert_eq!(c.regs.flags, Flags { z: true, n: false, h: false, c: false });
}

#[test]
fn inc_dec_keep_carry() {
    let mut c = cpu(&[0x04, 0x05, 0x05]); // INC B; DEC B; DEC B
    c.regs.b = 0xFF;
    c.regs.flags.c = true;
    cpu_run(&mut c);
    assert_eq!(c.regs.b, 0x00);
    assert_eq!(c.regs.flags, Flags { z: true, n: false, h: true, c: true });
    cpu_run(&mut c);
    assert_eq!(c.regs.b, 0xFF);
    assert_eq!(c.regs.flags, Flags { z: false, n: true, h: true, c: true });
    cpu_run(&mut c);
    assert_eq!(c.regs.b, 0xFE);
    assert_eq!(c.regs.flags, Flags { z: false, n: true, h: false, c: true });
}

#[test]
fn inc_pair_sets_no_flags() {
    let mut c = cpu(&[0x03]); // INC BC
    c.regs.b = 0xFF;
    c.regs.c = 0xFF;
    cpu_run(&mut c);
    assert_eq!(c.regs.read(Register::BC), 0x0000);
    assert_eq!(c.regs.flags, no_flags());
}

#[test]
fn add_hl_pair_flags() {
    let mut c = cpu(&[0x09]); // ADD HL,BC
    c.regs.h = 0x0F;
    c.regs.l = 0xFF;
    c.regs.b = 0x00;
    c.regs.c = 0x01;
    c.regs.flags.z = true;
    cpu_run(&mut c);
    assert_eq!(c.regs.read(Register::HL), 0x1000);
    assert_eq!(c.regs.flags, Flags { z: true, n: false, h: true, c: false });
}

#[test]
fn ld_hl_sp_offset() {
    let mut c = cpu(&[0xF8, 0xFF]); // LD HL,SP-1
    c.regs.sp = 0x0001;
    cpu_run(&mut c);
    assert_eq!(c.regs.read(Register::HL), 0x0000);
    assert_eq!(c.regs.flags, Flags { z: false, n: false, h: true, c: true });
}

#[test]
fn daa_after_add() {
    // 0x15 + 0x27 = 0x3C, corrected to 0x42
    let r = add8(0x15, 0x27, false);
    let d = daa(r.value, r.flags);
    assert_eq!(d.value, 0x42);
    assert!(!d.flags.c);
    // 0x99 + 0x01 = 0x9A, corrected to 0x00 with carry
    let r = add8(0x99, 0x01, false);
    let d = daa(r.value, r.flags);
    assert_eq!(d.value, 0x00);
    assert_eq!(d.flags, Flags { z: true, n: false, h: false, c: true });
}

#[test]
fn daa_after_sub() {
    // 0x42 - 0x15 = 0x2D, corrected to 0x27
    let r = sub8(0x42, 0x15, false);
    let d = daa(r.value, r.flags);
    assert_eq!(d.value, 0x27);
    assert!(d.flags.n);
}

#[test]
fn rotate_and_shift_values() {
    let f = no_flags();
    let r = shift(Shift::Rlc, 0x85, f);
    assert_eq!((r.value, r.flags.c), (0x0B, true));
    let r = shift(Shift::Rrc, 0x01, f);
    assert_eq!((r.value, r.flags.c), (0x80, true));
    let r = shift(Shift::Rl, 0x80, Flags { c: true, ..f });
    assert_eq!((r.value, r.flags.c), (0x01, true));
    let r = shift(Shift::Rr, 0x01, f);
    assert_eq!((r.value, r.flags.c, r.flags.z), (0x00, true, true));
    let r = shift(Shift::Sla, 0xC1, f);
    assert_eq!((r.value, r.flags.c), (0x82, true));
    let r = shift(Shift::Sra, 0x81, f);
    assert_eq!((r.value, r.flags.c), (0xC0, true));
    let r = shift(Shift::Srl, 0x81, f);
    assert_eq!((r.value, r.flags.c), (0x40, true));
    let r = shift(Shift::Swap, 0xF1, Flags { c: true, ..f });
    assert_eq!((r.value, r.flags.c), (0x1F, false));
}

#[test]
fn rla_clears_zero_but_rl_sets_it() {
    let mut c = cpu(&[0x17, 0xCB, 0x17]); // RLA; RL A
    c.regs.a = 0x80;
    cpu_run(&mut c);
    assert_eq!(c.regs.a, 0x00);
    assert_eq!(c.regs.flags, Flags { z: false, n: false, h: false, c: true });
    c.regs.flags.c = false;
    c.regs.a = 0x80;
    cpu_run(&mut c);
    assert_eq!(c.regs.a, 0x00);
    assert_eq!(c.regs.flags, Flags { z: true, n: false, h: false, c: true });
    assert_eq!(c.regs.pc, 3);
    assert_eq!(c.get_cycles(), 12);
}

#[test]
fn bit_set_res_on_memory() {
    // BIT 7,(HL); SET 0,(HL); RES 7,(HL)
    let mut code = vec![0u8; 0x100];
    code[0] = 0xCB;
    code[1] = 0x7E;
    code[2] = 0xCB;
    code[3] = 0xC6;
    code[4] = 0xCB;
    code[5] = 0xBE;
    code[0x80] = 0x80;
    let mut c = cpu(&code);
    c.regs.l = 0x80;
    c.regs.flags.c = true;
    cpu_run(&mut c);
    assert_eq!(c.regs.flags, Flags { z: false, n: false, h: true, c: true });
    assert_eq!(c.get_cycles(), 12);
    cpu_run(&mut c);
    assert_eq!(c.bus.read(0x80), 0x81);
    cpu_run(&mut c);
    assert_eq!(c.bus.read(0x80), 0x01);
    assert_eq!(c.get_cycles(), 44);
}

#[test]
fn ei_takes_effect_after_next_instruction() {
    let mut c = cpu(&[0xFB, 0x00, 0xF3]); // EI; NOP; DI
    cpu_run(&mut c);
    assert!(!c.interrupts_enabled());
    cpu_run(&mut c);
    assert!(c.interrupts_enabled());
    cpu_run(&mut c);
    assert!(!c.interrupts_enabled());
}

#[test]
fn halt_stops_fetching() {
    let mut c = cpu(&[0x76, 0x04]); // HALT; INC B
    cpu_run(&mut c);
    assert_eq!(c.run_state(), RunState::Halted);
    cpu_run(&mut c);
    assert_eq!(c.regs.pc, 1);
    assert_eq!(c.regs.b, 0);
    c.set_run_state(RunState::Running);
    cpu_run(&mut c);
    assert_eq!(c.regs.b, 1);
}

#[test]
fn reti_enables_interrupts() {
    let mut code = vec![0u8; 0x10];
    code[0] = 0xD9; // RETI
    code[8] = 0x34;
    code[9] = 0x12;
    let mut c = cpu(&code);
    c.regs.sp = 8;
    cpu_run(&mut c);
    assert_eq!(c.regs.pc, 0x1234);
    assert!(c.interrupts_enabled());
}

#[test]
fn executor_rejects_other_identity() {
    let mut c = cpu(&[0xA8]);
    let ins = c.peek_next_instr().unwrap();
    assert_eq!(c.op_add(&ins).err(), Some(CpuError::BadOperand));
    assert!(c.op_xor(&ins).is_ok());
}
