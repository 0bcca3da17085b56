//! End-to-end programs run from reset, with the reset vector pointing at
//! the program.

use mos6502::bus::MemoryBank;
use mos6502::bus::MemoryBus;
use mos6502::cpu::MOS6502;

fn cpu_with_program(origin: u16, program: &[u8]) -> MOS6502<MemoryBank> {
    let mut bank = MemoryBank::new();
    let mut address = origin;
    for byte in program {
        bank.write(address, *byte);
        address = address.wrapping_add(1);
    }
    bank.write(0xFFFC, (origin % 0x100) as u8);
    bank.write(0xFFFD, (origin / 0x100) as u8);
    let mut cpu = MOS6502::new(bank);
    cpu.reset();
    cpu
}

#[test]
fn adc_without_carry() {
    let mut cpu = cpu_with_program(0x0400, &[0xA9, 0x05, 0x69, 0x03, 0x00]);
    assert_eq!(cpu.reg.pc, 0x0400);
    cpu.step().unwrap();
    cpu.step().unwrap();
    assert_eq!(cpu.reg.ac, 0x08);
    assert!(!cpu.flags.carry);
    assert!(!cpu.flags.overflow);
    assert!(!cpu.flags.zero);
    assert!(!cpu.flags.negative);
    assert_eq!(cpu.reg.pc, 0x0404);
}

#[test]
fn sbc_with_borrow() {
    // LDA #5, SEC, SBC #3
    let mut cpu = cpu_with_program(0x0400, &[0xA9, 0x05, 0x38, 0xE9, 0x03, 0x00]);
    cpu.step().unwrap();
    cpu.step().unwrap();
    cpu.step().unwrap();
    assert_eq!(cpu.reg.ac, 0x02);
    assert!(cpu.flags.carry);
    assert!(!cpu.flags.overflow);
}

#[test]
fn adc_signed_overflow() {
    // LDA #$7F, ADC #1
    let mut cpu = cpu_with_program(0x0400, &[0xA9, 0x7F, 0x69, 0x01, 0x00]);
    cpu.step().unwrap();
    cpu.step().unwrap();
    assert_eq!(cpu.reg.ac, 0x80);
    assert!(cpu.flags.overflow);
    assert!(cpu.flags.negative);
    assert!(!cpu.flags.carry);
}

#[test]
fn jmp_indirect_page_wrap() {
    // JMP ($02FF): the low target byte comes from $02FF, the high one from
    // $0200, not $0300.
    let mut cpu = cpu_with_program(0x0400, &[0x6C, 0xFF, 0x02]);
    cpu.bus.write(0x02FF, 0x34);
    cpu.bus.write(0x0200, 0x12);
    cpu.step().unwrap();
    assert_eq!(cpu.reg.pc, 0x1234);
}

#[test]
fn jsr_rts_round_trip() {
    // JSR $0408, NOP, then RTS at $0408.
    let mut cpu = cpu_with_program(
        0x0400,
        &[0x20, 0x08, 0x04, 0xEA, 0x00, 0x00, 0x00, 0x00, 0x60],
    );
    let sp_before = cpu.reg.sp;
    cpu.step().unwrap();
    assert_eq!(cpu.reg.pc, 0x0408);
    assert_eq!(cpu.reg.sp, sp_before.wrapping_sub(2));
    let high_slot = 0x0100 + sp_before as u16;
    let low_slot = 0x0100 + sp_before.wrapping_sub(1) as u16;
    assert_eq!(cpu.read(high_slot), 0x04);
    assert_eq!(cpu.read(low_slot), 0x02);
    cpu.step().unwrap();
    assert_eq!(cpu.reg.pc, 0x0403);
    assert_eq!(cpu.reg.sp, sp_before);
}

#[test]
fn branch_page_cross_trap_detection() {
    // BNE -2 with Z clear: a self-branch that must raise the trap.
    let mut cpu = cpu_with_program(0x04FE, &[0xD0, 0xFE]);
    cpu.step().unwrap();
    assert_eq!(cpu.reg.pc, 0x04FE);
    assert!(cpu.is_trapped());
}

#[test]
fn jmp_absolute_to_self_traps() {
    // JMP $0400 at $0400.
    let mut cpu = cpu_with_program(0x0400, &[0x4C, 0x00, 0x04]);
    cpu.step().unwrap();
    assert_eq!(cpu.reg.pc, 0x0400);
    assert!(cpu.is_trapped());
}

#[test]
fn illegal_opcode_is_reported() {
    let mut cpu = cpu_with_program(0x0400, &[0x02]);
    let error = cpu.step().unwrap_err();
    assert_eq!(error.opcode, 0x02);
    assert_eq!(error.pc, 0x0400);
}

#[test]
fn status_push_pull_round_trip() {
    // LDA #0 (sets Z), SEC, SED, PHP, LDA #1 (clears Z), CLC, CLD, PLP:
    // carry, zero and decimal must come back from the pushed byte.
    let mut cpu = cpu_with_program(
        0x0400,
        &[0xA9, 0x00, 0x38, 0xF8, 0x08, 0xA9, 0x01, 0x18, 0xD8, 0x28, 0x00],
    );
    for _ in 0..8 {
        cpu.step().unwrap();
    }
    assert!(cpu.flags.carry);
    assert!(cpu.flags.zero);
    assert!(cpu.flags.decimal_mode);
}

#[test]
fn brk_pushes_frame_and_takes_vector() {
    let mut cpu = cpu_with_program(0x0400, &[0x00, 0xFF]);
    cpu.bus.write(0xFFFE, 0x00);
    cpu.bus.write(0xFFFF, 0x80);
    let sp_before = cpu.reg.sp;
    cpu.step().unwrap();
    assert_eq!(cpu.reg.pc, 0x8000);
    assert!(cpu.flags.int_disable);
    assert_eq!(cpu.reg.sp, sp_before.wrapping_sub(3));
    // The pushed return address is two past the BRK opcode.
    assert_eq!(cpu.read(0x0100 + sp_before as u16), 0x04);
    assert_eq!(cpu.read(0x0100 + sp_before.wrapping_sub(1) as u16), 0x02);
    // The pushed status byte has the break and unused bits set.
    let pushed = cpu.read(0x0100 + sp_before.wrapping_sub(2) as u16);
    assert_eq!(pushed & 0x30, 0x30);
}

#[test]
fn rti_restores_flags_and_resumes() {
    // BRK through the vector at $8000, where RTI returns immediately.
    let mut cpu = cpu_with_program(0x0400, &[0x00, 0xFF]);
    cpu.bus.write(0xFFFE, 0x00);
    cpu.bus.write(0xFFFF, 0x80);
    cpu.bus.write(0x8000, 0x40);
    cpu.step().unwrap();
    cpu.step().unwrap();
    assert_eq!(cpu.reg.pc, 0x0402);
}

#[test]
fn execute_runs_until_trap() {
    let mut bank = MemoryBank::new();
    // LDA #3, JMP to the same JMP: a self-jump trap two instructions in.
    for (i, byte) in [0xA9u8, 0x03, 0x4C, 0x02, 0x04].iter().enumerate() {
        bank.write(0x0400 + i as u16, *byte);
    }
    let mut cpu = MOS6502::new(bank);
    let halted = cpu.execute(0x0400, 1000).unwrap();
    assert!(halted);
    assert_eq!(cpu.reg.ac, 0x03);
}

#[test]
fn load_and_execute_reports_illegal_opcode() {
    let mut bank = MemoryBank::new();
    bank.write(0xFFFC, 0x00);
    bank.write(0xFFFD, 0x04);
    bank.write(0x0400, 0x02);
    let error = match mos6502::cpu::load_and_execute(bank, 1000) {
        Ok(_) => panic!("an illegal opcode was expected"),
        Err(error) => error,
    };
    assert_eq!(error.opcode, 0x02);
    assert_eq!(error.pc, 0x0400);
}

#[test]
fn execute_reports_exhausted_budget() {
    let mut bank = MemoryBank::new();
    // An endless chain of NOPs never traps: the budget runs out.
    for address in 0x0400u16..0x0500u16 {
        bank.write(address, 0xEA);
    }
    let mut cpu = MOS6502::new(bank);
    let halted = cpu.execute(0x0400, 16).unwrap();
    assert!(!halted);
    assert!(!cpu.is_trapped());
    assert_eq!(cpu.reg.pc, 0x0410);
}
