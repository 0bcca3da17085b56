//! AND, EOR, ORA, BIT, and the shift and rotate transforms.

use vstd::prelude::*;

use crate::bus::MemoryBus;
use crate::cpu::flags_with_zn;
use crate::cpu::MOS6502;
use crate::cpu::MOS6502Flags;
use crate::cpu::MOS6502Registers;

verus! {

/// ASL result: the value shifted left once, bit 0 clear.
pub open spec fn asl_result(value: u8) -> u8 {
    value << 1
}

/// LSR result: the value shifted right once, bit 7 clear.
pub open spec fn lsr_result(value: u8) -> u8 {
    value >> 1
}

/// ROL result: shifted left, bit 0 filled from the previous carry.
pub open spec fn rol_result(value: u8, carry: bool) -> u8 {
    (value << 1) | (if carry {
        1u8
    } else {
        0u8
    })
}

/// ROR result: shifted right, bit 7 filled from the previous carry.
pub open spec fn ror_result(value: u8, carry: bool) -> u8 {
    (value >> 1) | (if carry {
        0x80u8
    } else {
        0u8
    })
}

/// The flags after BIT: Z from the masked accumulator, N and V copied from
/// bits 7 and 6 of the operand.
pub open spec fn bit_test_flags(a: u8, m: u8, flags: MOS6502Flags) -> MOS6502Flags {
    MOS6502Flags {
        zero: (m & a) == 0,
        negative: m & 0x80 != 0,
        overflow: m & 0x40 != 0,
        ..flags
    }
}

/// AND: conjoin the operand into the accumulator; update Z and N.
pub fn logical_and<M: MemoryBus>(cpu: &mut MOS6502<M>, value: u8)
    ensures
        final(cpu).reg == (MOS6502Registers { ac: old(cpu).reg.ac & value, ..old(cpu).reg }),
        final(cpu).flags == flags_with_zn(old(cpu).flags, old(cpu).reg.ac & value),
        final(cpu).bus == old(cpu).bus,
        final(cpu).trapped == old(cpu).trapped,
        final(cpu).cycles == old(cpu).cycles,
{
    let new_accumulator = cpu.reg.ac & value;
    cpu.set_zn(new_accumulator);
    cpu.reg.ac = new_accumulator;
}

/// EOR: exclusive-or the operand into the accumulator; update Z and N.
pub fn logical_exclusive_or<M: MemoryBus>(cpu: &mut MOS6502<M>, value: u8)
    ensures
        final(cpu).reg == (MOS6502Registers { ac: old(cpu).reg.ac ^ value, ..old(cpu).reg }),
        final(cpu).flags == flags_with_zn(old(cpu).flags, old(cpu).reg.ac ^ value),
        final(cpu).bus == old(cpu).bus,
        final(cpu).trapped == old(cpu).trapped,
        final(cpu).cycles == old(cpu).cycles,
{
    let new_accumulator = cpu.reg.ac ^ value;
    cpu.set_zn(new_accumulator);
    cpu.reg.ac = new_accumulator;
}

/// ORA: inclusive-or the operand into the accumulator; update Z and N.
pub fn logical_inclusive_or<M: MemoryBus>(cpu: &mut MOS6502<M>, value: u8)
    ensures
        final(cpu).reg == (MOS6502Registers { ac: old(cpu).reg.ac | value, ..old(cpu).reg }),
        final(cpu).flags == flags_with_zn(old(cpu).flags, old(cpu).reg.ac | value),
        final(cpu).bus == old(cpu).bus,
        final(cpu).trapped == old(cpu).trapped,
        final(cpu).cycles == old(cpu).cycles,
{
    let new_accumulator = cpu.reg.ac | value;
    cpu.set_zn(new_accumulator);
    cpu.reg.ac = new_accumulator;
}

/// BIT: test the operand against the accumulator without changing it.
pub fn logical_bit_test<M: MemoryBus>(cpu: &mut MOS6502<M>, value: u8)
    ensures
        final(cpu).reg == old(cpu).reg,
        final(cpu).flags == bit_test_flags(old(cpu).reg.ac, value, old(cpu).flags),
        final(cpu).bus == old(cpu).bus,
        final(cpu).trapped == old(cpu).trapped,
        final(cpu).cycles == old(cpu).cycles,
{
    cpu.flags.zero = (value & cpu.reg.ac) == 0;
    cpu.flags.negative = value & 0x80 != 0;
    cpu.flags.overflow = value & 0x40 != 0;
}

/// ASL: shift left; the carry takes the bit shifted out.
pub fn logical_shift_left<M: MemoryBus>(cpu: &mut MOS6502<M>, value: u8) -> (result: u8)
    ensures
        result == asl_result(value),
        final(cpu).reg == old(cpu).reg,
        final(cpu).flags == flags_with_zn(
            MOS6502Flags { carry: value & 0x80 != 0, ..old(cpu).flags },
            asl_result(value),
        ),
        final(cpu).bus == old(cpu).bus,
        final(cpu).trapped == old(cpu).trapped,
        final(cpu).cycles == old(cpu).cycles,
{
    let new_value = value << 1;
    cpu.flags.carry = value & 0x80 != 0;
    cpu.set_zn(new_value);
    new_value
}

/// LSR: shift right; the carry takes the bit shifted out.
pub fn logical_shift_right<M: MemoryBus>(cpu: &mut MOS6502<M>, value: u8) -> (result: u8)
    ensures
        result == lsr_result(value),
        final(cpu).reg == old(cpu).reg,
        final(cpu).flags == flags_with_zn(
            MOS6502Flags { carry: value & 1 != 0, ..old(cpu).flags },
            lsr_result(value),
        ),
        final(cpu).bus == old(cpu).bus,
        final(cpu).trapped == old(cpu).trapped,
        final(cpu).cycles == old(cpu).cycles,
{
    let new_value = value >> 1;
    cpu.flags.carry = value & 1 != 0;
    cpu.set_zn(new_value);
    new_value
}

/// ROL: rotate left through the carry.
pub fn logical_rotate_left<M: MemoryBus>(cpu: &mut MOS6502<M>, value: u8) -> (result: u8)
    ensures
        result == rol_result(value, old(cpu).flags.carry),
        final(cpu).reg == old(cpu).reg,
        final(cpu).flags == flags_with_zn(
            MOS6502Flags { carry: value & 0x80 != 0, ..old(cpu).flags },
            rol_result(value, old(cpu).flags.carry),
        ),
        final(cpu).bus == old(cpu).bus,
        final(cpu).trapped == old(cpu).trapped,
        final(cpu).cycles == old(cpu).cycles,
{
    let carry_bit: u8 = if cpu.flags.carry {
        1
    } else {
        0
    };
    let new_value = (value << 1) | carry_bit;
    cpu.flags.carry = value & 0x80 != 0;
    cpu.set_zn(new_value);
    new_value
}

/// ROR: rotate right through the carry.
pub fn logical_rotate_right<M: MemoryBus>(cpu: &mut MOS6502<M>, value: u8) -> (result: u8)
    ensures
        result == ror_result(value, old(cpu).flags.carry),
        final(cpu).reg == old(cpu).reg,
        final(cpu).flags == flags_with_zn(
            MOS6502Flags { carry: value & 1 != 0, ..old(cpu).flags },
            ror_result(value, old(cpu).flags.carry),
        ),
        final(cpu).bus == old(cpu).bus,
        final(cpu).trapped == old(cpu).trapped,
        final(cpu).cycles == old(cpu).cycles,
{
    let carry_bit: u8 = if cpu.flags.carry {
        0x80
    } else {
        0
    };
    let new_value = (value >> 1) | carry_bit;
    cpu.flags.carry = value & 1 != 0;
    cpu.set_zn(new_value);
    new_value
}

} // verus!
