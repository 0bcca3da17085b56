//! TSX, TXS, PHA, PLA, PHP, PLP: the stack and stack-pointer instructions.

use vstd::prelude::*;

use crate::bus::MemoryBus;
use crate::cpu::flags_from_byte;
use crate::cpu::flags_with_zn;
use crate::cpu::mem_at;
use crate::cpu::rd;
use crate::cpu::stack_addr;
use crate::cpu::status_byte;
use crate::cpu::wr;
use crate::cpu::wrap8;
use crate::cpu::MOS6502;
use crate::cpu::MOS6502Registers;

verus! {

/// TSX: copy the stack pointer to X; update Z and N.
pub fn transfer_sp_to_x<M: MemoryBus>(cpu: &mut MOS6502<M>)
    ensures
        final(cpu).reg == (MOS6502Registers { ix: old(cpu).reg.sp, ..old(cpu).reg }),
        final(cpu).flags == flags_with_zn(old(cpu).flags, old(cpu).reg.sp),
        final(cpu).bus == old(cpu).bus,
        final(cpu).trapped == old(cpu).trapped,
{
    cpu.reg.ix = cpu.reg.sp;
    let value = cpu.reg.ix;
    cpu.set_zn(value);
    cpu.tick();
}

/// TXS: copy X to the stack pointer; no flag changes.
pub fn transfer_x_to_sp<M: MemoryBus>(cpu: &mut MOS6502<M>)
    ensures
        final(cpu).reg == (MOS6502Registers { sp: old(cpu).reg.ix, ..old(cpu).reg }),
        final(cpu).flags == old(cpu).flags,
        final(cpu).bus == old(cpu).bus,
        final(cpu).trapped == old(cpu).trapped,
{
    cpu.reg.sp = cpu.reg.ix;
    cpu.tick();
}

/// PHA: push the accumulator.
pub fn push_ac<M: MemoryBus>(cpu: &mut MOS6502<M>)
    requires
        old(cpu).wf(),
    ensures
        final(cpu).wf(),
        final(cpu).mem() == old(cpu).mem().update(
            stack_addr(old(cpu).reg.sp) as int,
            old(cpu).reg.ac,
        ),
        final(cpu).log() == old(cpu).log().push(
            wr(stack_addr(old(cpu).reg.sp), old(cpu).reg.ac),
        ),
        final(cpu).reg == (MOS6502Registers { sp: wrap8(old(cpu).reg.sp - 1), ..old(cpu).reg }),
        final(cpu).flags == old(cpu).flags,
        final(cpu).trapped == old(cpu).trapped,
{
    let value = cpu.reg.ac;
    cpu.stack_push(value);
    cpu.tick();
}

/// PLA: pop into the accumulator; update Z and N.  The first cycle re-reads
/// the slot the stack pointer rests on before it moves.
pub fn pull_ac<M: MemoryBus>(cpu: &mut MOS6502<M>)
    requires
        old(cpu).wf(),
    ensures
        final(cpu).wf(),
        final(cpu).mem() == old(cpu).mem(),
        ({
            let sp1 = wrap8(old(cpu).reg.sp + 1);
            let value = mem_at(old(cpu).mem(), stack_addr(sp1));
            &&& final(cpu).reg == (MOS6502Registers { sp: sp1, ac: value, ..old(cpu).reg })
            &&& final(cpu).flags == flags_with_zn(old(cpu).flags, value)
            &&& final(cpu).log() == old(cpu).log().push(
                rd(stack_addr(old(cpu).reg.sp), mem_at(old(cpu).mem(), stack_addr(old(cpu).reg.sp))),
            ).push(rd(stack_addr(sp1), value))
        }),
        final(cpu).trapped == old(cpu).trapped,
{
    cpu.stack_peek();
    cpu.stack_pop_no_read();
    cpu.tick();
    let value = cpu.stack_peek();
    cpu.reg.ac = value;
    cpu.set_zn(value);
    cpu.tick();
}

/// PHP: push the packed status byte, break and unused bits set.
pub fn push_processor<M: MemoryBus>(cpu: &mut MOS6502<M>)
    requires
        old(cpu).wf(),
    ensures
        final(cpu).wf(),
        final(cpu).mem() == old(cpu).mem().update(
            stack_addr(old(cpu).reg.sp) as int,
            status_byte(old(cpu).flags),
        ),
        final(cpu).log() == old(cpu).log().push(
            wr(stack_addr(old(cpu).reg.sp), status_byte(old(cpu).flags)),
        ),
        final(cpu).reg == (MOS6502Registers { sp: wrap8(old(cpu).reg.sp - 1), ..old(cpu).reg }),
        final(cpu).flags == old(cpu).flags,
        final(cpu).trapped == old(cpu).trapped,
{
    cpu.push_processor_status();
    cpu.tick();
}

/// PLP: pop the status byte; bits 5 and 4 of the popped byte are ignored.
pub fn pull_processor_status<M: MemoryBus>(cpu: &mut MOS6502<M>)
    requires
        old(cpu).wf(),
    ensures
        final(cpu).wf(),
        final(cpu).mem() == old(cpu).mem(),
        ({
            let sp1 = wrap8(old(cpu).reg.sp + 1);
            let value = mem_at(old(cpu).mem(), stack_addr(sp1));
            &&& final(cpu).reg == (MOS6502Registers { sp: sp1, ..old(cpu).reg })
            &&& final(cpu).flags == flags_from_byte(value)
            &&& final(cpu).log() == old(cpu).log().push(
                rd(stack_addr(old(cpu).reg.sp), mem_at(old(cpu).mem(), stack_addr(old(cpu).reg.sp))),
            ).push(rd(stack_addr(sp1), value))
        }),
        final(cpu).trapped == old(cpu).trapped,
{
    cpu.stack_peek();
    cpu.stack_pop_no_read();
    cpu.tick();
    let value = cpu.stack_peek();
    cpu.set_proccessor_status(value);
    cpu.tick();
}

} // verus!
