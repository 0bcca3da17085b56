//! INC, DEC, INX, INY, DEX, DEY: increments and decrements modulo 256.

use vstd::prelude::*;

use crate::bus::MemoryBus;
use crate::cpu::flags_with_zn;
use crate::cpu::wrap8;
use crate::cpu::MOS6502;
use crate::cpu::MOS6502Registers;

verus! {

/// INC: the transformed byte for a read-modify-write increment.
pub fn inc_memory<M: MemoryBus>(cpu: &mut MOS6502<M>, value: u8) -> (result: u8)
    ensures
        result == wrap8(value + 1),
        final(cpu).reg == old(cpu).reg,
        final(cpu).flags == flags_with_zn(old(cpu).flags, wrap8(value + 1)),
        final(cpu).bus == old(cpu).bus,
        final(cpu).trapped == old(cpu).trapped,
        final(cpu).cycles == old(cpu).cycles,
{
    let new_value = value.wrapping_add(1);
    cpu.set_zn(new_value);
    new_value
}

/// INX: increment the X register.
pub fn inc_ix<M: MemoryBus>(cpu: &mut MOS6502<M>)
    ensures
        final(cpu).reg == (MOS6502Registers { ix: wrap8(old(cpu).reg.ix + 1), ..old(cpu).reg }),
        final(cpu).flags == flags_with_zn(old(cpu).flags, wrap8(old(cpu).reg.ix + 1)),
        final(cpu).bus == old(cpu).bus,
        final(cpu).trapped == old(cpu).trapped,
        final(cpu).cycles == old(cpu).cycles,
{
    let new_ix = cpu.reg.ix.wrapping_add(1);
    cpu.set_zn(new_ix);
    cpu.reg.ix = new_ix;
}

/// INY: increment the Y register.
pub fn inc_iy<M: MemoryBus>(cpu: &mut MOS6502<M>)
    ensures
        final(cpu).reg == (MOS6502Registers { iy: wrap8(old(cpu).reg.iy + 1), ..old(cpu).reg }),
        final(cpu).flags == flags_with_zn(old(cpu).flags, wrap8(old(cpu).reg.iy + 1)),
        final(cpu).bus == old(cpu).bus,
        final(cpu).trapped == old(cpu).trapped,
        final(cpu).cycles == old(cpu).cycles,
{
    let new_iy = cpu.reg.iy.wrapping_add(1);
    cpu.set_zn(new_iy);
    cpu.reg.iy = new_iy;
}

/// DEC: the transformed byte for a read-modify-write decrement.
pub fn dec_memory<M: MemoryBus>(cpu: &mut MOS6502<M>, value: u8) -> (result: u8)
    ensures
        result == wrap8(value - 1),
        final(cpu).reg == old(cpu).reg,
        final(cpu).flags == flags_with_zn(old(cpu).flags, wrap8(value - 1)),
        final(cpu).bus == old(cpu).bus,
        final(cpu).trapped == old(cpu).trapped,
        final(cpu).cycles == old(cpu).cycles,
{
    let new_value = value.wrapping_sub(1);
    cpu.set_zn(new_value);
    new_value
}

/// DEX: decrement the X register.
pub fn dec_ix<M: MemoryBus>(cpu: &mut MOS6502<M>)
    ensures
        final(cpu).reg == (MOS6502Registers { ix: wrap8(old(cpu).reg.ix - 1), ..old(cpu).reg }),
        final(cpu).flags == flags_with_zn(old(cpu).flags, wrap8(old(cpu).reg.ix - 1)),
        final(cpu).bus == old(cpu).bus,
        final(cpu).trapped == old(cpu).trapped,
        final(cpu).cycles == old(cpu).cycles,
{
    let new_ix = cpu.reg.ix.wrapping_sub(1);
    cpu.set_zn(new_ix);
    cpu.reg.ix = new_ix;
}

/// DEY: decrement the Y register.
pub fn dec_iy<M: MemoryBus>(cpu: &mut MOS6502<M>)
    ensures
        final(cpu).reg == (MOS6502Registers { iy: wrap8(old(cpu).reg.iy - 1), ..old(cpu).reg }),
        final(cpu).flags == flags_with_zn(old(cpu).flags, wrap8(old(cpu).reg.iy - 1)),
        final(cpu).bus == old(cpu).bus,
        final(cpu).trapped == old(cpu).trapped,
        final(cpu).cycles == old(cpu).cycles,
{
    let new_iy = cpu.reg.iy.wrapping_sub(1);
    cpu.set_zn(new_iy);
    cpu.reg.iy = new_iy;
}

} // verus!
