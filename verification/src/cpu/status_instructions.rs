//! The single-bit status flag instructions: CLC, CLD, CLI, CLV, SEC, SED,
//! SEI.

use vstd::prelude::*;

use crate::bus::MemoryBus;
use crate::cpu::MOS6502;
use crate::cpu::MOS6502Flags;

verus! {

/// CLC: clear the carry flag.
pub fn clear_carry<M: MemoryBus>(cpu: &mut MOS6502<M>)
    ensures
        final(cpu).flags == (MOS6502Flags { carry: false, ..old(cpu).flags }),
        final(cpu).reg == old(cpu).reg,
        final(cpu).bus == old(cpu).bus,
        final(cpu).trapped == old(cpu).trapped,
        final(cpu).cycles == old(cpu).cycles,
{
    cpu.flags.carry = false;
}

/// CLD: clear the decimal-mode flag.
pub fn clear_decimal<M: MemoryBus>(cpu: &mut MOS6502<M>)
    ensures
        final(cpu).flags == (MOS6502Flags { decimal_mode: false, ..old(cpu).flags }),
        final(cpu).reg == old(cpu).reg,
        final(cpu).bus == old(cpu).bus,
        final(cpu).trapped == old(cpu).trapped,
        final(cpu).cycles == old(cpu).cycles,
{
    cpu.flags.decimal_mode = false;
}

/// CLI: clear the interrupt-disable flag.
pub fn clear_int_disable<M: MemoryBus>(cpu: &mut MOS6502<M>)
    ensures
        final(cpu).flags == (MOS6502Flags { int_disable: false, ..old(cpu).flags }),
        final(cpu).reg == old(cpu).reg,
        final(cpu).bus == old(cpu).bus,
        final(cpu).trapped == old(cpu).trapped,
        final(cpu).cycles == old(cpu).cycles,
{
    cpu.flags.int_disable = false;
}

/// CLV: clear the overflow flag.
pub fn clear_overflow<M: MemoryBus>(cpu: &mut MOS6502<M>)
    ensures
        final(cpu).flags == (MOS6502Flags { overflow: false, ..old(cpu).flags }),
        final(cpu).reg == old(cpu).reg,
        final(cpu).bus == old(cpu).bus,
        final(cpu).trapped == old(cpu).trapped,
        final(cpu).cycles == old(cpu).cycles,
{
    cpu.flags.overflow = false;
}

/// SEC: set the carry flag.
pub fn set_carry<M: MemoryBus>(cpu: &mut MOS6502<M>)
    ensures
        final(cpu).flags == (MOS6502Flags { carry: true, ..old(cpu).flags }),
        final(cpu).reg == old(cpu).reg,
        final(cpu).bus == old(cpu).bus,
        final(cpu).trapped == old(cpu).trapped,
        final(cpu).cycles == old(cpu).cycles,
{
    cpu.flags.carry = true;
}

/// SED: set the decimal-mode flag.  Decimal arithmetic itself is out of
/// scope; the flag is still stored and surfaced in the status byte.
pub fn set_decimal<M: MemoryBus>(cpu: &mut MOS6502<M>)
    ensures
        final(cpu).flags == (MOS6502Flags { decimal_mode: true, ..old(cpu).flags }),
        final(cpu).reg == old(cpu).reg,
        final(cpu).bus == old(cpu).bus,
        final(cpu).trapped == old(cpu).trapped,
        final(cpu).cycles == old(cpu).cycles,
{
    cpu.flags.decimal_mode = true;
}

/// SEI: set the interrupt-disable flag.
pub fn set_int_disable<M: MemoryBus>(cpu: &mut MOS6502<M>)
    ensures
        final(cpu).flags == (MOS6502Flags { int_disable: true, ..old(cpu).flags }),
        final(cpu).reg == old(cpu).reg,
        final(cpu).bus == old(cpu).bus,
        final(cpu).trapped == old(cpu).trapped,
        final(cpu).cycles == old(cpu).cycles,
{
    cpu.flags.int_disable = true;
}

} // verus!
