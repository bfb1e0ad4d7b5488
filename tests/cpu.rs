use emulador_gb::gb::{CpuError, Flag, Interrupt, CPU};

/// A CPU in the post-boot state with `program` at 0x0100.
fn with_program(program: &[u8]) -> CPU {
    let mut cpu = CPU::new();
    cpu.load(0x0100, program);
    cpu
}

/// Steps until the CPU halts; returns the cycles of every step.
fn run_to_halt(cpu: &mut CPU) -> Vec<u32> {
    let mut cycles = Vec::new();
    for _ in 0..1000 {
        if cpu.halted {
            return cycles;
        }
        cycles.push(cpu.step().expect("defined opcode"));
    }
    panic!("program did not halt");
}

#[test]
fn post_boot_registers() {
    let cpu = CPU::new();
    assert_eq!(cpu.get_af(), 0x01B0);
    assert_eq!(cpu.get_bc(), 0x0013);
    assert_eq!(cpu.get_de(), 0x00D8);
    assert_eq!(cpu.get_hl(), 0x014D);
    assert_eq!(cpu.registers.sp, 0xFFFE);
    assert_eq!(cpu.registers.pc, 0x0100);
}

#[test]
fn daa_after_add() {
    let mut cpu = with_program(&[0x3E, 0x45, 0xC6, 0x38, 0x27, 0x76]);
    run_to_halt(&mut cpu);
    assert_eq!(cpu.registers.a, 0x83);
    assert!(!cpu.get_flag(Flag::Z));
    assert!(!cpu.get_flag(Flag::N));
    assert!(!cpu.get_flag(Flag::H));
    assert!(!cpu.get_flag(Flag::C));
}

#[test]
fn daa_after_subtract_with_borrow() {
    let mut cpu = with_program(&[0x3E, 0x00, 0xD6, 0x01, 0x27, 0x76]);
    run_to_halt(&mut cpu);
    assert_eq!(cpu.registers.a, 0x99);
    assert!(cpu.get_flag(Flag::N));
    assert!(cpu.get_flag(Flag::C));
    assert!(!cpu.get_flag(Flag::H));
    assert!(!cpu.get_flag(Flag::Z));
}

#[test]
fn conditional_branch_not_taken() {
    let mut cpu = with_program(&[0x3E, 0x01, 0xFE, 0x01, 0x20, 0x10, 0x76]);
    assert_eq!(cpu.step(), Ok(2));
    assert_eq!(cpu.step(), Ok(2));
    assert!(cpu.get_flag(Flag::Z));
    assert_eq!(cpu.step(), Ok(2));
    assert_eq!(cpu.registers.pc, 0x0106);
    assert_eq!(cpu.step(), Ok(1));
    assert!(cpu.halted);
    assert_eq!(cpu.registers.pc, 0x0107);
}

#[test]
fn conditional_branch_taken() {
    let mut cpu = with_program(&[0x3E, 0x01, 0xFE, 0x02, 0x20, 0x10, 0x76]);
    cpu.step().unwrap();
    cpu.step().unwrap();
    assert_eq!(cpu.step(), Ok(3));
    assert_eq!(cpu.registers.pc, 0x0116);
}

#[test]
fn stack_round_trip() {
    let mut cpu = with_program(&[
        0x31, 0xFE, 0xFF, 0x01, 0x34, 0x12, 0xC5, 0x01, 0x00, 0x00, 0xC1, 0x76,
    ]);
    run_to_halt(&mut cpu);
    assert_eq!(cpu.registers.b, 0x12);
    assert_eq!(cpu.registers.c, 0x34);
    assert_eq!(cpu.registers.sp, 0xFFFE);
    assert_eq!(cpu.memory.read8(0xFFFC), 0x34);
    assert_eq!(cpu.memory.read8(0xFFFD), 0x12);
}

#[test]
fn add_hl_half_carry_boundary() {
    let mut cpu = with_program(&[0x21, 0xFF, 0x0F, 0x01, 0x01, 0x00, 0x09, 0x76]);
    let z_before = cpu.get_flag(Flag::Z);
    let cycles = run_to_halt(&mut cpu);
    assert_eq!(cycles, vec![3, 3, 2, 1]);
    assert_eq!(cpu.get_hl(), 0x1000);
    assert!(!cpu.get_flag(Flag::N));
    assert!(cpu.get_flag(Flag::H));
    assert!(!cpu.get_flag(Flag::C));
    assert_eq!(cpu.get_flag(Flag::Z), z_before);
}

#[test]
fn jr_sign_extension() {
    let mut cpu = with_program(&[0x18, 0xFE]);
    assert_eq!(cpu.step(), Ok(3));
    assert_eq!(cpu.registers.pc, 0x0100);
    assert_eq!(cpu.step(), Ok(3));
    assert_eq!(cpu.registers.pc, 0x0100);
}

#[test]
fn jr_forward_and_backward_extremes() {
    let mut cpu = with_program(&[0x18, 0x7F]);
    cpu.step().unwrap();
    assert_eq!(cpu.registers.pc, 0x0102 + 0x7F);
    let mut cpu = with_program(&[0x18, 0x80]);
    cpu.step().unwrap();
    assert_eq!(cpu.registers.pc, 0x0102 - 0x80);
}

#[test]
fn push_then_pop_returns_value() {
    let mut cpu = CPU::new();
    for v in [0x0000u16, 0x1234, 0xFFFF, 0x00FF] {
        let sp = cpu.registers.sp;
        cpu.push(v);
        assert_eq!(cpu.registers.sp, sp.wrapping_sub(2));
        assert_eq!(cpu.pop(), v);
        assert_eq!(cpu.registers.sp, sp);
    }
    cpu.registers.sp = 0x0001;
    cpu.push(0xABCD);
    assert_eq!(cpu.registers.sp, 0xFFFF);
    assert_eq!(cpu.pop(), 0xABCD);
    assert_eq!(cpu.registers.sp, 0x0001);
}

#[test]
fn store_sp_reads_back() {
    let mut cpu = with_program(&[0x31, 0x34, 0x12, 0x08, 0x00, 0xC0]);
    cpu.step().unwrap();
    assert_eq!(cpu.step(), Ok(5));
    assert_eq!(cpu.memory.read16(0xC000), 0x1234);
    assert_eq!(cpu.memory.read8(0xC000), 0x34);
    assert_eq!(cpu.memory.read8(0xC001), 0x12);
}

#[test]
fn push_af_pop_af_masks_low_nibble() {
    let mut cpu = with_program(&[0xF5, 0xF1]);
    cpu.registers.a = 0x5A;
    cpu.set_flag(Flag::Z, false);
    cpu.set_flag(Flag::N, true);
    let f = cpu.registers.f;
    assert_eq!(cpu.step(), Ok(4));
    assert_eq!(cpu.step(), Ok(3));
    assert_eq!(cpu.registers.a, 0x5A);
    assert_eq!(cpu.registers.f, f & 0xF0);
    assert_eq!(cpu.registers.sp, 0xFFFE);
}

#[test]
fn pop_af_clears_low_nibble_of_f() {
    let mut cpu = with_program(&[0xC5, 0xF1]);
    cpu.set_bc(0x12FF);
    cpu.step().unwrap();
    cpu.step().unwrap();
    assert_eq!(cpu.registers.a, 0x12);
    assert_eq!(cpu.registers.f, 0xF0);
    assert_eq!(cpu.registers.f & 0x0F, 0);
}

#[test]
fn set_af_masks_f() {
    let mut cpu = CPU::new();
    cpu.set_af(0xABCD);
    assert_eq!(cpu.registers.a, 0xAB);
    assert_eq!(cpu.registers.f, 0xC0);
}

#[test]
fn add_sp_instruction() {
    let mut cpu = with_program(&[0x31, 0xF8, 0xFF, 0xE8, 0x08, 0xF8, 0xFE]);
    cpu.step().unwrap();
    assert_eq!(cpu.step(), Ok(4));
    assert_eq!(cpu.registers.sp, 0x0000);
    assert!(cpu.get_flag(Flag::H));
    assert!(cpu.get_flag(Flag::C));
    assert!(!cpu.get_flag(Flag::Z));
    assert_eq!(cpu.step(), Ok(3));
    assert_eq!(cpu.get_hl(), 0xFFFE);
    assert!(!cpu.get_flag(Flag::H));
    assert!(!cpu.get_flag(Flag::C));
}

#[test]
fn immediates_come_from_pc() {
    let mut cpu = with_program(&[0x3E, 0x10, 0xC6, 0x05, 0xD6, 0x03, 0xE6, 0x0F, 0xFE, 0x02]);
    cpu.registers.sp = 0xC000;
    cpu.memory.write8(0xC000, 0x77);
    for _ in 0..4 {
        cpu.step().unwrap();
    }
    assert_eq!(cpu.registers.a, 0x02);
    cpu.step().unwrap();
    assert!(cpu.get_flag(Flag::Z));
    assert_eq!(cpu.registers.pc, 0x010A);
}

#[test]
fn illegal_opcode_is_an_error() {
    for op in [0xD3u8, 0xDB, 0xDD, 0xE3, 0xE4, 0xEB, 0xEC, 0xED, 0xF4, 0xFC, 0xFD] {
        let mut cpu = with_program(&[op]);
        assert_eq!(
            cpu.step(),
            Err(CpuError::IllegalOpcode { opcode: op, pc: 0x0100 })
        );
    }
}

#[test]
fn every_defined_opcode_takes_cycles() {
    let illegal = [0xD3u8, 0xDB, 0xDD, 0xE3, 0xE4, 0xEB, 0xEC, 0xED, 0xF4, 0xFC, 0xFD];
    for op in 0..=255u8 {
        if illegal.contains(&op) {
            continue;
        }
        let mut cpu = with_program(&[op, 0x00, 0x00]);
        cpu.registers.sp = 0xD000;
        let cycles = cpu.step().unwrap();
        assert!(cycles >= 1 && cycles <= 6);
        assert_eq!(cpu.registers.f & 0x0F, 0);
    }
}

#[test]
fn call_and_ret() {
    // CALL 0x0200; at 0x0200: RET
    let mut cpu = with_program(&[0xCD, 0x00, 0x02, 0x76]);
    cpu.memory.write8(0x0200, 0xC9);
    assert_eq!(cpu.step(), Ok(6));
    assert_eq!(cpu.registers.pc, 0x0200);
    assert_eq!(cpu.registers.sp, 0xFFFC);
    assert_eq!(cpu.memory.read16(0xFFFC), 0x0103);
    assert_eq!(cpu.step(), Ok(4));
    assert_eq!(cpu.registers.pc, 0x0103);
    assert_eq!(cpu.registers.sp, 0xFFFE);
}

#[test]
fn conditional_call_and_return_timing() {
    // Z is set after boot: CALL NZ is not taken, RET Z is taken.
    let mut cpu = with_program(&[0xC4, 0x00, 0x02, 0xCC, 0x00, 0x02]);
    cpu.memory.write8(0x0200, 0xC8);
    assert_eq!(cpu.step(), Ok(3));
    assert_eq!(cpu.registers.pc, 0x0103);
    assert_eq!(cpu.step(), Ok(6));
    assert_eq!(cpu.step(), Ok(5));
    assert_eq!(cpu.registers.pc, 0x0106);
}

#[test]
fn rst_pushes_and_jumps() {
    let mut cpu = with_program(&[0xEF]);
    assert_eq!(cpu.step(), Ok(4));
    assert_eq!(cpu.registers.pc, 0x0028);
    assert_eq!(cpu.memory.read16(0xFFFC), 0x0101);
}

#[test]
fn jp_hl_uses_register_value() {
    let mut cpu = with_program(&[0x21, 0x34, 0x12, 0xE9]);
    cpu.step().unwrap();
    assert_eq!(cpu.step(), Ok(1));
    assert_eq!(cpu.registers.pc, 0x1234);
}

#[test]
fn prefixed_instructions() {
    // LD A,0xF1; SWAP A; BIT 0,A; SET 7,B; RES 4,(HL); SRL A
    let mut cpu = with_program(&[
        0x3E, 0xF1, 0xCB, 0x37, 0xCB, 0x47, 0xCB, 0xF8, 0xCB, 0xA6, 0xCB, 0x3F,
    ]);
    cpu.set_hl(0xC000);
    cpu.memory.write8(0xC000, 0xFF);
    cpu.step().unwrap();
    assert_eq!(cpu.step(), Ok(2));
    assert_eq!(cpu.registers.a, 0x1F);
    assert_eq!(cpu.step(), Ok(2));
    assert!(!cpu.get_flag(Flag::Z));
    assert!(cpu.get_flag(Flag::H));
    assert_eq!(cpu.step(), Ok(2));
    assert_eq!(cpu.registers.b, 0x80);
    assert_eq!(cpu.step(), Ok(4));
    assert_eq!(cpu.memory.read8(0xC000), 0xEF);
    assert_eq!(cpu.step(), Ok(2));
    assert_eq!(cpu.registers.a, 0x0F);
    assert!(cpu.get_flag(Flag::C));
}

#[test]
fn bit_on_hl_takes_three_cycles() {
    let mut cpu = with_program(&[0xCB, 0x7E]);
    assert_eq!(cpu.step(), Ok(3));
}

#[test]
fn rotate_a_forms_clear_zero() {
    // XOR A; RLCA
    let mut cpu = with_program(&[0xAF, 0x07]);
    cpu.step().unwrap();
    assert!(cpu.get_flag(Flag::Z));
    cpu.step().unwrap();
    assert_eq!(cpu.registers.a, 0);
    assert!(!cpu.get_flag(Flag::Z));
}

#[test]
fn cpl_scf_ccf() {
    let mut cpu = with_program(&[0x3E, 0x0F, 0x2F, 0x37, 0x3F]);
    cpu.step().unwrap();
    cpu.step().unwrap();
    assert_eq!(cpu.registers.a, 0xF0);
    assert!(cpu.get_flag(Flag::N) && cpu.get_flag(Flag::H));
    cpu.step().unwrap();
    assert!(cpu.get_flag(Flag::C) && !cpu.get_flag(Flag::N) && !cpu.get_flag(Flag::H));
    cpu.step().unwrap();
    assert!(!cpu.get_flag(Flag::C));
}

#[test]
fn ldi_and_ldd_step_hl() {
    let mut cpu = with_program(&[0x21, 0x00, 0xC0, 0x22, 0x32, 0x2A]);
    cpu.registers.a = 0x42;
    cpu.step().unwrap();
    cpu.step().unwrap();
    assert_eq!(cpu.memory.read8(0xC000), 0x42);
    assert_eq!(cpu.get_hl(), 0xC001);
    cpu.step().unwrap();
    assert_eq!(cpu.memory.read8(0xC001), 0x42);
    assert_eq!(cpu.get_hl(), 0xC000);
    cpu.registers.a = 0;
    cpu.step().unwrap();
    assert_eq!(cpu.registers.a, 0x42);
    assert_eq!(cpu.get_hl(), 0xC001);
}

#[test]
fn halt_then_interrupt_is_serviced() {
    // EI; HALT
    let mut cpu = with_program(&[0xFB, 0x76]);
    cpu.memory.write8(0xFFFF, 0x04);
    cpu.memory.write8(0x0050, 0x00);
    cpu.step().unwrap();
    assert!(!cpu.ime);
    cpu.step().unwrap();
    assert!(cpu.ime);
    assert!(cpu.halted);
    assert_eq!(cpu.step(), Ok(1));
    assert!(cpu.halted);
    cpu.request_interrupt(Interrupt::Timer);
    // 6 cycles to wake and enter the handler, 1 for the NOP there.
    assert_eq!(cpu.step(), Ok(7));
    assert!(!cpu.halted);
    assert!(!cpu.ime);
    assert_eq!(cpu.registers.pc, 0x0051);
    assert_eq!(cpu.memory.read8(0xFF0F) & 0x04, 0);
    assert_eq!(cpu.memory.read16(cpu.registers.sp), 0x0102);
}

#[test]
fn lowest_pending_interrupt_wins() {
    let mut cpu = with_program(&[0x00]);
    cpu.ime = true;
    cpu.memory.write8(0xFFFF, 0x1F);
    cpu.request_interrupt(Interrupt::Joypad);
    cpu.request_interrupt(Interrupt::LcdStat);
    assert_eq!(cpu.step(), Ok(6));
    assert_eq!(cpu.registers.pc, 0x0049);
    assert_eq!(cpu.memory.read8(0xFF0F), 0x10);
}

#[test]
fn ei_takes_effect_after_next_instruction() {
    let mut cpu = with_program(&[0xFB, 0x00, 0x00]);
    cpu.memory.write8(0xFFFF, 0x01);
    cpu.request_interrupt(Interrupt::VBlank);
    cpu.step().unwrap();
    assert!(!cpu.ime);
    assert_eq!(cpu.registers.pc, 0x0101);
    cpu.step().unwrap();
    assert!(cpu.ime);
    assert_eq!(cpu.registers.pc, 0x0102);
    cpu.step().unwrap();
    assert_eq!(cpu.registers.pc, 0x0041);
}

#[test]
fn di_right_after_ei_keeps_interrupts_off() {
    let mut cpu = with_program(&[0xFB, 0xF3, 0x00]);
    cpu.step().unwrap();
    cpu.step().unwrap();
    assert!(!cpu.ime);
    cpu.step().unwrap();
    assert!(!cpu.ime);
}

#[test]
fn reti_enables_interrupts() {
    let mut cpu = with_program(&[0xD9]);
    cpu.registers.sp = 0xC000;
    cpu.memory.write16(0xC000, 0x0150);
    assert_eq!(cpu.step(), Ok(4));
    assert!(cpu.ime);
    assert_eq!(cpu.registers.pc, 0x0150);
}

#[test]
fn halt_bug_reads_next_opcode_twice() {
    // HALT with IME=0 and an interrupt pending; then INC A.
    let mut cpu = with_program(&[0x76, 0x3C, 0x76]);
    cpu.memory.write8(0xFFFF, 0x01);
    cpu.request_interrupt(Interrupt::VBlank);
    cpu.registers.a = 0;
    cpu.step().unwrap();
    assert!(!cpu.halted);
    assert!(cpu.halt_bug);
    cpu.step().unwrap();
    assert_eq!(cpu.registers.pc, 0x0101);
    cpu.step().unwrap();
    assert_eq!(cpu.registers.a, 2);
    assert_eq!(cpu.registers.pc, 0x0102);
}

#[test]
fn stop_waits_for_joypad() {
    let mut cpu = with_program(&[0x10, 0x00, 0x00]);
    assert_eq!(cpu.step(), Ok(1));
    assert!(cpu.stopped);
    assert_eq!(cpu.registers.pc, 0x0102);
    assert_eq!(cpu.step(), Ok(1));
    assert_eq!(cpu.registers.pc, 0x0102);
    cpu.request_interrupt(Interrupt::Joypad);
    cpu.step().unwrap();
    assert!(!cpu.stopped);
    assert_eq!(cpu.registers.pc, 0x0103);
}

#[test]
fn reset_restores_post_boot_registers() {
    let mut cpu = with_program(&[0x3E, 0x99]);
    cpu.step().unwrap();
    cpu.halted = true;
    cpu.reset();
    assert_eq!(cpu.registers.a, 0x01);
    assert_eq!(cpu.registers.pc, 0x0100);
    assert!(!cpu.halted);
    assert_eq!(cpu.memory.read8(0x0101), 0x99);
}

#[test]
fn execute_cb_instruction_directly() {
    let mut cpu = CPU::new();
    cpu.registers.b = 0x80;
    assert_eq!(cpu.execute_cb_instruction(0x00), 2);
    assert_eq!(cpu.registers.b, 0x01);
    assert!(cpu.get_flag(Flag::C));
}
