//! Accumulator addressing for the shift and rotate instructions: a dummy
//! read of the next program byte, then a pure register transform.

use vstd::prelude::*;

use crate::bus::MemoryBus;
use crate::cpu::opcode_modes::rmw_mode_post;
use crate::cpu::opcode_modes::run_rmw_op;
use crate::cpu::opcode_modes::AddressingMode;
use crate::cpu::opcode_modes::RmwOp;
use crate::cpu::MOS6502;

verus! {

/// Run a read-modify-write body on the accumulator.  The program counter is
/// read but not advanced, and no memory is written.
pub fn ac1_rmw<M: MemoryBus>(cpu: &mut MOS6502<M>, op: RmwOp)
    requires
        old(cpu).wf(),
    ensures
        rmw_mode_post(AddressingMode::Accumulator, op, *old(cpu), *final(cpu)),
{
    let pc = cpu.reg.pc;
    cpu.read(pc);
    let value = cpu.reg.ac;
    let new_value = run_rmw_op(cpu, op, value);
    cpu.reg.ac = new_value;
    cpu.tick();
}

} // verus!
