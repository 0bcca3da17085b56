//! Per-instruction behaviour on concrete values.

use mos6502::bus::MemoryBank;
use mos6502::bus::MemoryBus;
use mos6502::cpu::arithmetic_instructions::add_with_carry;
use mos6502::cpu::arithmetic_instructions::compare_ac;
use mos6502::cpu::arithmetic_instructions::sub_with_carry;
use mos6502::cpu::logical_instructions::logical_bit_test;
use mos6502::cpu::MOS6502;

fn cpu_with_program(origin: u16, program: &[u8]) -> MOS6502<MemoryBank> {
    let mut bank = MemoryBank::new();
    let mut address = origin;
    for byte in program {
        bank.write(address, *byte);
        address = address.wrapping_add(1);
    }
    bank.write(0xFFFC, (origin % 0x100) as u8);
    bank.write(0xFFFD, (origin / 0x100) as u8);
    let mut cpu = MOS6502::new(bank);
    cpu.reset();
    cpu
}

fn fresh_cpu() -> MOS6502<MemoryBank> {
    MOS6502::new(MemoryBank::new())
}

#[test]
fn adc_wraps_modulo_256_and_carries() {
    let mut cpu = fresh_cpu();
    cpu.reg.ac = 0xFF;
    add_with_carry(&mut cpu, 0x02);
    assert_eq!(cpu.reg.ac, 0x01);
    assert!(cpu.flags.carry);
    assert!(!cpu.flags.zero);
    // Carry feeds into the next addition.
    add_with_carry(&mut cpu, 0x01);
    assert_eq!(cpu.reg.ac, 0x03);
    assert!(!cpu.flags.carry);
}

#[test]
fn sbc_is_adc_of_the_complement() {
    let mut cpu = fresh_cpu();
    cpu.reg.ac = 0x10;
    cpu.flags.carry = true;
    sub_with_carry(&mut cpu, 0x20);
    // 0x10 - 0x20 borrows: the result wraps and the carry clears.
    assert_eq!(cpu.reg.ac, 0xF0);
    assert!(!cpu.flags.carry);
    assert!(cpu.flags.negative);
}

#[test]
fn compare_sets_carry_zero_negative() {
    let mut cpu = fresh_cpu();
    cpu.reg.ac = 0x40;
    compare_ac(&mut cpu, 0x40);
    assert!(cpu.flags.carry);
    assert!(cpu.flags.zero);
    assert!(!cpu.flags.negative);
    compare_ac(&mut cpu, 0x41);
    assert!(!cpu.flags.carry);
    assert!(!cpu.flags.zero);
    assert!(cpu.flags.negative);
    compare_ac(&mut cpu, 0x3F);
    assert!(cpu.flags.carry);
    assert!(!cpu.flags.zero);
}

#[test]
fn bit_test_copies_high_bits() {
    let mut cpu = fresh_cpu();
    cpu.reg.ac = 0x0F;
    logical_bit_test(&mut cpu, 0xC0);
    assert!(cpu.flags.zero);
    assert!(cpu.flags.negative);
    assert!(cpu.flags.overflow);
    assert_eq!(cpu.reg.ac, 0x0F);
}

#[test]
fn logical_ops_update_accumulator_and_flags() {
    // LDA #$F0, AND #$0F (-> 0, Z), ORA #$80 (-> N), EOR #$80 (-> 0, Z)
    let mut cpu = cpu_with_program(
        0x0400,
        &[0xA9, 0xF0, 0x29, 0x0F, 0x09, 0x80, 0x49, 0x80, 0x00],
    );
    cpu.step().unwrap();
    cpu.step().unwrap();
    assert_eq!(cpu.reg.ac, 0x00);
    assert!(cpu.flags.zero);
    cpu.step().unwrap();
    assert_eq!(cpu.reg.ac, 0x80);
    assert!(cpu.flags.negative);
    cpu.step().unwrap();
    assert_eq!(cpu.reg.ac, 0x00);
    assert!(cpu.flags.zero);
}

#[test]
fn shifts_and_rotates_move_the_carry() {
    // LDA #$81, ASL A (-> 0x02, C=1), ROL A (-> 0x05, C=0),
    // LSR A (-> 0x02, C=1), ROR A (-> 0x81, C=0)
    let mut cpu = cpu_with_program(0x0400, &[0xA9, 0x81, 0x0A, 0x2A, 0x4A, 0x6A, 0x00]);
    cpu.step().unwrap();
    cpu.step().unwrap();
    assert_eq!(cpu.reg.ac, 0x02);
    assert!(cpu.flags.carry);
    cpu.step().unwrap();
    assert_eq!(cpu.reg.ac, 0x05);
    assert!(!cpu.flags.carry);
    cpu.step().unwrap();
    assert_eq!(cpu.reg.ac, 0x02);
    assert!(cpu.flags.carry);
    cpu.step().unwrap();
    assert_eq!(cpu.reg.ac, 0x81);
    assert!(!cpu.flags.carry);
}

#[test]
fn inc_and_dec_memory_wrap() {
    // INC $10 (0xFF -> 0x00, Z set), DEC $11 (0x00 -> 0xFF, N set)
    let mut cpu = cpu_with_program(0x0400, &[0xE6, 0x10, 0xC6, 0x11, 0x00]);
    cpu.bus.write(0x0010, 0xFF);
    cpu.bus.write(0x0011, 0x00);
    cpu.step().unwrap();
    assert_eq!(cpu.read(0x0010), 0x00);
    assert!(cpu.flags.zero);
    cpu.step().unwrap();
    assert_eq!(cpu.read(0x0011), 0xFF);
    assert!(cpu.flags.negative);
}

#[test]
fn register_increments_wrap() {
    // LDX #$FF, INX (-> 0, Z), LDY #0, DEY (-> 0xFF, N)
    let mut cpu = cpu_with_program(0x0400, &[0xA2, 0xFF, 0xE8, 0xA0, 0x00, 0x88, 0x00]);
    cpu.step().unwrap();
    cpu.step().unwrap();
    assert_eq!(cpu.reg.ix, 0x00);
    assert!(cpu.flags.zero);
    cpu.step().unwrap();
    cpu.step().unwrap();
    assert_eq!(cpu.reg.iy, 0xFF);
    assert!(cpu.flags.negative);
}

#[test]
fn transfers_copy_and_flag() {
    // LDA #$80, TAX, TXS (no flags), LDX #0, TSX (from S), TXA
    let mut cpu = cpu_with_program(
        0x0400,
        &[0xA9, 0x80, 0xAA, 0x9A, 0xA2, 0x00, 0xBA, 0x8A, 0x00],
    );
    cpu.step().unwrap();
    cpu.step().unwrap();
    assert_eq!(cpu.reg.ix, 0x80);
    assert!(cpu.flags.negative);
    cpu.step().unwrap();
    assert_eq!(cpu.reg.sp, 0x80);
    cpu.step().unwrap();
    cpu.step().unwrap();
    assert_eq!(cpu.reg.ix, 0x80);
    cpu.step().unwrap();
    assert_eq!(cpu.reg.ac, 0x80);
}

#[test]
fn stack_push_pull_accumulator() {
    // LDA #$55, PHA, LDA #$00, PLA
    let mut cpu = cpu_with_program(0x0400, &[0xA9, 0x55, 0x48, 0xA9, 0x00, 0x68, 0x00]);
    for _ in 0..4 {
        cpu.step().unwrap();
    }
    assert_eq!(cpu.reg.ac, 0x55);
    assert!(!cpu.flags.zero);
}

#[test]
fn lda_indirect_x_wraps_pointer_in_zero_page() {
    // LDA ($FE,X) with X = 3: the pointer bytes come from $01 and $02.
    let mut cpu = cpu_with_program(0x0400, &[0xA2, 0x03, 0xA1, 0xFE, 0x00]);
    cpu.bus.write(0x0001, 0x34);
    cpu.bus.write(0x0002, 0x12);
    cpu.bus.write(0x1234, 0x99);
    cpu.step().unwrap();
    cpu.step().unwrap();
    assert_eq!(cpu.reg.ac, 0x99);
}

#[test]
fn lda_indirect_y_wraps_pointer_in_zero_page() {
    // LDA ($FF),Y: the low pointer byte comes from $FF, the high one from
    // $00, not $100.
    let mut cpu = cpu_with_program(0x0400, &[0xA0, 0x01, 0xB1, 0xFF, 0x00]);
    cpu.bus.write(0x00FF, 0x00);
    cpu.bus.write(0x0000, 0x20);
    cpu.bus.write(0x0100, 0x77);
    cpu.bus.write(0x2001, 0x42);
    cpu.step().unwrap();
    cpu.step().unwrap();
    assert_eq!(cpu.reg.ac, 0x42);
}

#[test]
fn sta_absolute_x_crosses_page() {
    // LDA #$AB, LDX #$10, STA $20F8,X
    let mut cpu = cpu_with_program(0x0400, &[0xA9, 0xAB, 0xA2, 0x10, 0x9D, 0xF8, 0x20, 0x00]);
    cpu.step().unwrap();
    cpu.step().unwrap();
    cpu.step().unwrap();
    assert_eq!(cpu.read(0x2108), 0xAB);
}

#[test]
fn ldx_zeropage_y() {
    // LDY #2, LDX $40,Y
    let mut cpu = cpu_with_program(0x0400, &[0xA0, 0x02, 0xB6, 0x40, 0x00]);
    cpu.bus.write(0x0042, 0x5A);
    cpu.step().unwrap();
    cpu.step().unwrap();
    assert_eq!(cpu.reg.ix, 0x5A);
}

#[test]
fn asl_memory_leaves_shifted_byte() {
    // ASL $1234: read-modify-write through an absolute target.
    let mut cpu = cpu_with_program(0x0400, &[0x0E, 0x34, 0x12, 0x00]);
    cpu.bus.write(0x1234, 0xC1);
    cpu.step().unwrap();
    assert_eq!(cpu.read(0x1234), 0x82);
    assert!(cpu.flags.carry);
    assert!(cpu.flags.negative);
}

#[test]
fn branch_not_taken_falls_through() {
    // SEC, BCC +4: the branch must not be taken, PC advances by two.
    let mut cpu = cpu_with_program(0x0400, &[0x38, 0x90, 0x04, 0x00]);
    cpu.step().unwrap();
    cpu.step().unwrap();
    assert_eq!(cpu.reg.pc, 0x0403);
    assert!(!cpu.is_trapped());
}

#[test]
fn branch_taken_moves_by_signed_offset() {
    // BNE +4 with Z clear (after reset): lands at 0x0406.
    let mut cpu = cpu_with_program(0x0400, &[0xD0, 0x04, 0x00]);
    cpu.step().unwrap();
    assert_eq!(cpu.reg.pc, 0x0406);
    assert!(!cpu.is_trapped());
}

#[test]
fn nop_only_advances() {
    let mut cpu = cpu_with_program(0x0400, &[0xEA, 0x00]);
    cpu.step().unwrap();
    assert_eq!(cpu.reg.pc, 0x0401);
    assert_eq!(cpu.reg.ac, 0x00);
}

#[test]
fn status_flag_instructions_set_and_clear() {
    // SEC, SED, SEI, CLC, CLD, CLI, CLV
    let mut cpu = cpu_with_program(0x0400, &[0x38, 0xF8, 0x78, 0x18, 0xD8, 0x58, 0xB8, 0x00]);
    cpu.step().unwrap();
    assert!(cpu.flags.carry);
    cpu.step().unwrap();
    assert!(cpu.flags.decimal_mode);
    cpu.step().unwrap();
    assert!(cpu.flags.int_disable);
    cpu.step().unwrap();
    assert!(!cpu.flags.carry);
    cpu.step().unwrap();
    assert!(!cpu.flags.decimal_mode);
    cpu.step().unwrap();
    assert!(!cpu.flags.int_disable);
    cpu.flags.overflow = true;
    cpu.step().unwrap();
    assert!(!cpu.flags.overflow);
}

#[test]
fn randomize_memory_keeps_the_bank_usable() {
    let mut bank = MemoryBank::new();
    bank.randomize_memory();
    bank.write(0x0400, 0xEA);
    assert_eq!(bank.read(0x0400), 0xEA);
}

#[test]
fn cpx_and_cpy_compare_their_registers() {
    // LDX #5, CPX #5, LDY #1, CPY #2
    let mut cpu = cpu_with_program(0x0400, &[0xA2, 0x05, 0xE0, 0x05, 0xA0, 0x01, 0xC0, 0x02, 0x00]);
    cpu.step().unwrap();
    cpu.step().unwrap();
    assert!(cpu.flags.carry);
    assert!(cpu.flags.zero);
    cpu.step().unwrap();
    cpu.step().unwrap();
    assert!(!cpu.flags.carry);
    assert!(!cpu.flags.zero);
    assert!(cpu.flags.negative);
}

#[test]
fn sbc_signed_overflow() {
    // LDA #$80, SEC, SBC #1: 0x80 - 1 = 0x7F flips the sign, V set.
    let mut cpu = cpu_with_program(0x0400, &[0xA9, 0x80, 0x38, 0xE9, 0x01, 0x00]);
    cpu.step().unwrap();
    cpu.step().unwrap();
    cpu.step().unwrap();
    assert_eq!(cpu.reg.ac, 0x7F);
    assert!(cpu.flags.overflow);
    assert!(cpu.flags.carry);
    assert!(!cpu.flags.negative);
}

#[test]
fn stores_through_zero_page_and_indirect_y() {
    // LDA #$11, STA $20, LDX #$22, STX $21, LDY #$04, STA ($30),Y
    let mut cpu = cpu_with_program(
        0x0400,
        &[0xA9, 0x11, 0x85, 0x20, 0xA2, 0x22, 0x86, 0x21, 0xA0, 0x04, 0x91, 0x30, 0x00],
    );
    cpu.bus.write(0x0030, 0x00);
    cpu.bus.write(0x0031, 0x30);
    for _ in 0..6 {
        cpu.step().unwrap();
    }
    assert_eq!(cpu.read(0x0020), 0x11);
    assert_eq!(cpu.read(0x0021), 0x22);
    assert_eq!(cpu.read(0x3004), 0x11);
}

#[test]
fn lda_absolute_y_crosses_page() {
    // LDY #$10, LDA $20F8,Y
    let mut cpu = cpu_with_program(0x0400, &[0xA0, 0x10, 0xB9, 0xF8, 0x20, 0x00]);
    cpu.bus.write(0x2108, 0x3C);
    cpu.step().unwrap();
    cpu.step().unwrap();
    assert_eq!(cpu.reg.ac, 0x3C);
}

#[test]
fn plp_ignores_break_and_unused_bits() {
    let mut cpu = fresh_cpu();
    // A status byte with the break and unused bits clear still restores
    // with the internal break flag set by convention.
    cpu.set_proccessor_status(0x81);
    assert!(cpu.flags.carry);
    assert!(cpu.flags.negative);
    assert!(cpu.flags.break_cmd);
    assert!(!cpu.flags.zero);
    assert!(!cpu.flags.decimal_mode);
}

#[test]
fn rmw_zeropage_x_wraps_into_zero_page() {
    // LDX #$11, INC $F5,X: the target is ($F5 + $11) & $FF = $06.
    let mut cpu = cpu_with_program(0x0400, &[0xA2, 0x11, 0xF6, 0xF5, 0x00]);
    cpu.bus.write(0x0006, 0x41);
    cpu.step().unwrap();
    cpu.step().unwrap();
    assert_eq!(cpu.read(0x0006), 0x42);
}
