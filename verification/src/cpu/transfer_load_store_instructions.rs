//! LDA/LDX/LDY, STA/STX/STY, and the register transfer instructions.

use vstd::prelude::*;

use crate::bus::MemoryBus;
use crate::cpu::flags_with_zn;
use crate::cpu::MOS6502;
use crate::cpu::MOS6502Registers;

verus! {

/// LDA: load the accumulator; update Z and N.
pub fn load_ac<M: MemoryBus>(cpu: &mut MOS6502<M>, value: u8)
    ensures
        final(cpu).reg == (MOS6502Registers { ac: value, ..old(cpu).reg }),
        final(cpu).flags == flags_with_zn(old(cpu).flags, value),
        final(cpu).bus == old(cpu).bus,
        final(cpu).trapped == old(cpu).trapped,
        final(cpu).cycles == old(cpu).cycles,
{
    cpu.set_zn(value);
    cpu.reg.ac = value;
}

/// LDX: load the X register; update Z and N.
pub fn load_ix<M: MemoryBus>(cpu: &mut MOS6502<M>, value: u8)
    ensures
        final(cpu).reg == (MOS6502Registers { ix: value, ..old(cpu).reg }),
        final(cpu).flags == flags_with_zn(old(cpu).flags, value),
        final(cpu).bus == old(cpu).bus,
        final(cpu).trapped == old(cpu).trapped,
        final(cpu).cycles == old(cpu).cycles,
{
    cpu.set_zn(value);
    cpu.reg.ix = value;
}

/// LDY: load the Y register; update Z and N.
pub fn load_iy<M: MemoryBus>(cpu: &mut MOS6502<M>, value: u8)
    ensures
        final(cpu).reg == (MOS6502Registers { iy: value, ..old(cpu).reg }),
        final(cpu).flags == flags_with_zn(old(cpu).flags, value),
        final(cpu).bus == old(cpu).bus,
        final(cpu).trapped == old(cpu).trapped,
        final(cpu).cycles == old(cpu).cycles,
{
    cpu.set_zn(value);
    cpu.reg.iy = value;
}

/// STA: the byte stored is the accumulator; no flag changes.
pub fn store_ac<M: MemoryBus>(cpu: &mut MOS6502<M>) -> (result: u8)
    ensures
        result == old(cpu).reg.ac,
        *final(cpu) == *old(cpu),
{
    cpu.reg.ac
}

/// STX: the byte stored is the X register; no flag changes.
pub fn store_ix<M: MemoryBus>(cpu: &mut MOS6502<M>) -> (result: u8)
    ensures
        result == old(cpu).reg.ix,
        *final(cpu) == *old(cpu),
{
    cpu.reg.ix
}

/// STY: the byte stored is the Y register; no flag changes.
pub fn store_iy<M: MemoryBus>(cpu: &mut MOS6502<M>) -> (result: u8)
    ensures
        result == old(cpu).reg.iy,
        *final(cpu) == *old(cpu),
{
    cpu.reg.iy
}

/// TAX: copy the accumulator to X; update Z and N.
pub fn transfer_ac_to_x<M: MemoryBus>(cpu: &mut MOS6502<M>)
    ensures
        final(cpu).reg == (MOS6502Registers { ix: old(cpu).reg.ac, ..old(cpu).reg }),
        final(cpu).flags == flags_with_zn(old(cpu).flags, old(cpu).reg.ac),
        final(cpu).bus == old(cpu).bus,
        final(cpu).trapped == old(cpu).trapped,
        final(cpu).cycles == old(cpu).cycles,
{
    cpu.reg.ix = cpu.reg.ac;
    let value = cpu.reg.ac;
    cpu.set_zn(value);
}

/// TAY: copy the accumulator to Y; update Z and N.
pub fn transfer_ac_to_y<M: MemoryBus>(cpu: &mut MOS6502<M>)
    ensures
        final(cpu).reg == (MOS6502Registers { iy: old(cpu).reg.ac, ..old(cpu).reg }),
        final(cpu).flags == flags_with_zn(old(cpu).flags, old(cpu).reg.ac),
        final(cpu).bus == old(cpu).bus,
        final(cpu).trapped == old(cpu).trapped,
        final(cpu).cycles == old(cpu).cycles,
{
    cpu.reg.iy = cpu.reg.ac;
    let value = cpu.reg.ac;
    cpu.set_zn(value);
}

/// TXA: copy X to the accumulator; update Z and N.
pub fn transfer_x_to_ac<M: MemoryBus>(cpu: &mut MOS6502<M>)
    ensures
        final(cpu).reg == (MOS6502Registers { ac: old(cpu).reg.ix, ..old(cpu).reg }),
        final(cpu).flags == flags_with_zn(old(cpu).flags, old(cpu).reg.ix),
        final(cpu).bus == old(cpu).bus,
        final(cpu).trapped == old(cpu).trapped,
        final(cpu).cycles == old(cpu).cycles,
{
    cpu.reg.ac = cpu.reg.ix;
    let value = cpu.reg.ac;
    cpu.set_zn(value);
}

/// TYA: copy Y to the accumulator; update Z and N.
pub fn transfer_y_to_ac<M: MemoryBus>(cpu: &mut MOS6502<M>)
    ensures
        final(cpu).reg == (MOS6502Registers { ac: old(cpu).reg.iy, ..old(cpu).reg }),
        final(cpu).flags == flags_with_zn(old(cpu).flags, old(cpu).reg.iy),
        final(cpu).bus == old(cpu).bus,
        final(cpu).trapped == old(cpu).trapped,
        final(cpu).cycles == old(cpu).cycles,
{
    cpu.reg.ac = cpu.reg.iy;
    let value = cpu.reg.ac;
    cpu.set_zn(value);
}

} // verus!
