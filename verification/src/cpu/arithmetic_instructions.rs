//! ADC, SBC and the compare instructions.
//!
//! Decimal (BCD) arithmetic is out of scope: ADC and SBC always compute the
//! binary result, whatever the decimal flag holds.

use vstd::prelude::*;

use crate::bus::MemoryBus;
use crate::cpu::flags_with_zn;
use crate::cpu::wrap8;
use crate::cpu::MOS6502;
use crate::cpu::MOS6502Flags;
use crate::cpu::MOS6502Registers;

verus! {

/// The accumulator after ADC: `A + M + C` modulo 256.
pub open spec fn adc_result(a: u8, m: u8, carry: bool) -> u8 {
    wrap8(
        a + m + if carry {
            1int
        } else {
            0int
        },
    )
}

/// The carry flag after ADC: set when `A + M + C` exceeds 255.
pub open spec fn adc_carry(a: u8, m: u8, carry: bool) -> bool {
    a + m + (if carry {
        1int
    } else {
        0int
    }) > 0xFF
}

/// The overflow flag after ADC: the operands agree in sign and the result
/// disagrees.
pub open spec fn adc_overflow(a: u8, m: u8, carry: bool) -> bool {
    (a ^ adc_result(a, m, carry)) & ((m ^ a) ^ 0xFF) & 0x80 != 0
}

/// All flags after ADC.
pub open spec fn adc_flags(a: u8, m: u8, flags: MOS6502Flags) -> MOS6502Flags {
    flags_with_zn(
        MOS6502Flags {
            carry: adc_carry(a, m, flags.carry),
            overflow: adc_overflow(a, m, flags.carry),
            ..flags
        },
        adc_result(a, m, flags.carry),
    )
}

/// The 8-bit difference used by the compare instructions.
pub open spec fn compare_result(r: u8, m: u8) -> u8 {
    wrap8(r - m)
}

/// All flags after CMP/CPX/CPY against register value `r`.
pub open spec fn compare_flags(r: u8, m: u8, flags: MOS6502Flags) -> MOS6502Flags {
    flags_with_zn(MOS6502Flags { carry: r >= m, ..flags }, compare_result(r, m))
}

/// ADC: add the operand and the carry into the accumulator; update C, V,
/// Z and N.
pub fn add_with_carry<M: MemoryBus>(cpu: &mut MOS6502<M>, value: u8)
    ensures
        final(cpu).reg == (MOS6502Registers {
            ac: adc_result(old(cpu).reg.ac, value, old(cpu).flags.carry),
            ..old(cpu).reg
        }),
        final(cpu).flags == adc_flags(old(cpu).reg.ac, value, old(cpu).flags),
        final(cpu).bus == old(cpu).bus,
        final(cpu).trapped == old(cpu).trapped,
        final(cpu).cycles == old(cpu).cycles,
{
    let a = cpu.reg.ac;
    let carry_in: u16 = if cpu.flags.carry {
        1
    } else {
        0
    };
    let sum: u16 = a as u16 + value as u16 + carry_in;
    let result: u8 = (sum % 0x100) as u8;
    cpu.flags.overflow = (a ^ result) & ((value ^ a) ^ 0xFF) & 0x80 != 0;
    cpu.flags.carry = sum > 0xFF;
    cpu.set_zn(result);
    cpu.reg.ac = result;
}

/// SBC: subtract the operand and the borrow from the accumulator.  By
/// construction this is ADC of the operand's complement: `A + (M ^ 0xFF) +
/// C`; a clear carry means borrow.
pub fn sub_with_carry<M: MemoryBus>(cpu: &mut MOS6502<M>, value: u8)
    ensures
        final(cpu).reg == (MOS6502Registers {
            ac: adc_result(old(cpu).reg.ac, value ^ 0xFF, old(cpu).flags.carry),
            ..old(cpu).reg
        }),
        final(cpu).flags == adc_flags(old(cpu).reg.ac, value ^ 0xFF, old(cpu).flags),
        final(cpu).bus == old(cpu).bus,
        final(cpu).trapped == old(cpu).trapped,
        final(cpu).cycles == old(cpu).cycles,
{
    let complemented = value ^ 0xFF;
    add_with_carry(cpu, complemented);
}

/// CMP: compare the operand against the accumulator; C, Z and N are set
/// from the 8-bit difference, the registers are unchanged.
pub fn compare_ac<M: MemoryBus>(cpu: &mut MOS6502<M>, value: u8)
    ensures
        final(cpu).reg == old(cpu).reg,
        final(cpu).flags == compare_flags(old(cpu).reg.ac, value, old(cpu).flags),
        final(cpu).bus == old(cpu).bus,
        final(cpu).trapped == old(cpu).trapped,
        final(cpu).cycles == old(cpu).cycles,
{
    let subtracted_value = cpu.reg.ac.wrapping_sub(value);
    cpu.flags.carry = cpu.reg.ac >= value;
    cpu.set_zn(subtracted_value);
}

/// CPX: compare the operand against the X register.
pub fn compare_ix<M: MemoryBus>(cpu: &mut MOS6502<M>, value: u8)
    ensures
        final(cpu).reg == old(cpu).reg,
        final(cpu).flags == compare_flags(old(cpu).reg.ix, value, old(cpu).flags),
        final(cpu).bus == old(cpu).bus,
        final(cpu).trapped == old(cpu).trapped,
        final(cpu).cycles == old(cpu).cycles,
{
    let subtracted_value = cpu.reg.ix.wrapping_sub(value);
    cpu.flags.carry = cpu.reg.ix >= value;
    cpu.set_zn(subtracted_value);
}

/// CPY: compare the operand against the Y register.
pub fn compare_iy<M: MemoryBus>(cpu: &mut MOS6502<M>, value: u8)
    ensures
        final(cpu).reg == old(cpu).reg,
        final(cpu).flags == compare_flags(old(cpu).reg.iy, value, old(cpu).flags),
        final(cpu).bus == old(cpu).bus,
        final(cpu).trapped == old(cpu).trapped,
        final(cpu).cycles == old(cpu).cycles,
{
    let subtracted_value = cpu.reg.iy.wrapping_sub(value);
    cpu.flags.carry = cpu.reg.iy >= value;
    cpu.set_zn(subtracted_value);
}

} // verus!
