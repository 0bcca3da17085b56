//! Zero-page,Y addressing: the operand byte plus Y, wrapped within the
//! zero page.  Only LDX and STX use it.

use vstd::prelude::*;

use crate::bus::MemoryBus;
use crate::cpu::mem_at;
use crate::cpu::opcode_modes::read_log;
use crate::cpu::opcode_modes::read_mode_post;
use crate::cpu::opcode_modes::run_read_op;
use crate::cpu::opcode_modes::run_write_op;
use crate::cpu::opcode_modes::write_log;
use crate::cpu::opcode_modes::write_mode_post;
use crate::cpu::opcode_modes::AddressingMode;
use crate::cpu::opcode_modes::ReadOp;
use crate::cpu::opcode_modes::WriteOp;
use crate::cpu::rd;
use crate::cpu::wrap16;
use crate::cpu::wrap8;
use crate::cpu::MOS6502;
use crate::cpu::MOS6502Registers;

verus! {

/// Fetch the zero-page operand, emit the dummy read of the unindexed byte,
/// and return the Y-indexed address wrapped within the zero page.
pub fn fetch_zeropagey_2<M: MemoryBus>(cpu: &mut MOS6502<M>) -> (address_y: u16)
    requires
        old(cpu).wf(),
    ensures
        final(cpu).wf(),
        final(cpu).mem() == old(cpu).mem(),
        address_y == wrap8(mem_at(old(cpu).mem(), old(cpu).reg.pc) + old(cpu).reg.iy) as u16,
        final(cpu).log() == old(cpu).log().push(
            rd(old(cpu).reg.pc, mem_at(old(cpu).mem(), old(cpu).reg.pc)),
        ).push(
            rd(
                mem_at(old(cpu).mem(), old(cpu).reg.pc) as u16,
                mem_at(old(cpu).mem(), mem_at(old(cpu).mem(), old(cpu).reg.pc) as u16),
            ),
        ),
        final(cpu).reg == (MOS6502Registers { pc: wrap16(old(cpu).reg.pc + 1), ..old(cpu).reg }),
        final(cpu).flags == old(cpu).flags,
        final(cpu).trapped == old(cpu).trapped,
{
    let pc = cpu.reg.pc;
    let address = cpu.read(pc);
    let address_y = address.wrapping_add(cpu.reg.iy);
    cpu.reg.pc = cpu.reg.pc.wrapping_add(1);
    cpu.tick();
    cpu.read(address as u16);
    cpu.tick();
    address_y as u16
}

/// Zero-page,Y `read`.
pub fn zeropagey_3read<M: MemoryBus>(cpu: &mut MOS6502<M>, op: ReadOp)
    requires
        old(cpu).wf(),
    ensures
        read_mode_post(AddressingMode::ZeroPageY, op, *old(cpu), *final(cpu)),
{
    let ghost pre = *cpu;
    let address_y = fetch_zeropagey_2(cpu);
    let value = cpu.read(address_y);
    run_read_op(cpu, op, value);
    cpu.tick();
    proof {
        assert(cpu.log() =~= pre.log() + read_log(
            AddressingMode::ZeroPageY,
            pre.mem(),
            pre.reg.pc,
            pre.reg.ix,
            pre.reg.iy,
        ));
    }
}

/// Zero-page,Y `write`.
pub fn zeropagey_3write<M: MemoryBus>(cpu: &mut MOS6502<M>, op: WriteOp)
    requires
        old(cpu).wf(),
    ensures
        write_mode_post(AddressingMode::ZeroPageY, op, *old(cpu), *final(cpu)),
{
    let ghost pre = *cpu;
    let address_y = fetch_zeropagey_2(cpu);
    let value = run_write_op(cpu, op);
    cpu.write(address_y, value);
    cpu.tick();
    proof {
        assert(cpu.log() =~= pre.log() + write_log(
            AddressingMode::ZeroPageY,
            pre.mem(),
            pre.reg.pc,
            pre.reg.ix,
            pre.reg.iy,
            value,
        ));
    }
}

} // verus!
