//! Zero-page,X addressing: the operand byte plus X, wrapped within the
//! zero page.  The unindexed zero-page byte is read as a dummy cycle.

use vstd::prelude::*;

use crate::bus::MemoryBus;
use crate::cpu::mem_at;
use crate::cpu::opcode_modes::read_log;
use crate::cpu::opcode_modes::read_mode_post;
use crate::cpu::opcode_modes::rmw_log;
use crate::cpu::opcode_modes::rmw_mode_post;
use crate::cpu::opcode_modes::run_read_op;
use crate::cpu::opcode_modes::run_rmw_op;
use crate::cpu::opcode_modes::run_write_op;
use crate::cpu::opcode_modes::write_log;
use crate::cpu::opcode_modes::write_mode_post;
use crate::cpu::opcode_modes::AddressingMode;
use crate::cpu::opcode_modes::ReadOp;
use crate::cpu::opcode_modes::RmwOp;
use crate::cpu::opcode_modes::WriteOp;
use crate::cpu::rd;
use crate::cpu::wrap16;
use crate::cpu::wrap8;
use crate::cpu::MOS6502;
use crate::cpu::MOS6502Registers;

verus! {

/// Fetch the zero-page operand, emit the dummy read of the unindexed byte,
/// and return the X-indexed address wrapped within the zero page.
pub fn fetch_zeropagex_2<M: MemoryBus>(cpu: &mut MOS6502<M>) -> (address_x: u16)
    requires
        old(cpu).wf(),
    ensures
        final(cpu).wf(),
        final(cpu).mem() == old(cpu).mem(),
        address_x == wrap8(mem_at(old(cpu).mem(), old(cpu).reg.pc) + old(cpu).reg.ix) as u16,
        final(cpu).log() == old(cpu).log().push(
            rd(old(cpu).reg.pc, mem_at(old(cpu).mem(), old(cpu).reg.pc)),
        ).push(
            rd(
                mem_at(old(cpu).mem(), old(cpu).reg.pc) as u16,
                mem_at(old(cpu).mem(), mem_at(old(cpu).mem(), old(cpu).reg.pc) as u16),
            ),
        ),
        final(cpu).reg == (MOS6502Registers { pc: wrap16(old(cpu).reg.pc + 1), ..old(cpu).reg }),
        final(cpu).flags == old(cpu).flags,
        final(cpu).trapped == old(cpu).trapped,
{
    let pc = cpu.reg.pc;
    let address = cpu.read(pc);
    let address_x = address.wrapping_add(cpu.reg.ix);
    cpu.reg.pc = cpu.reg.pc.wrapping_add(1);
    cpu.tick();
    cpu.read(address as u16);
    cpu.tick();
    address_x as u16
}

/// Zero-page,X `read`.
pub fn zeropagex_3read<M: MemoryBus>(cpu: &mut MOS6502<M>, op: ReadOp)
    requires
        old(cpu).wf(),
    ensures
        read_mode_post(AddressingMode::ZeroPageX, op, *old(cpu), *final(cpu)),
{
    let ghost pre = *cpu;
    let address_x = fetch_zeropagex_2(cpu);
    let value = cpu.read(address_x);
    run_read_op(cpu, op, value);
    cpu.tick();
    proof {
        assert(cpu.log() =~= pre.log() + read_log(
            AddressingMode::ZeroPageX,
            pre.mem(),
            pre.reg.pc,
            pre.reg.ix,
            pre.reg.iy,
        ));
    }
}

/// Zero-page,X `write`.
pub fn zeropagex_3write<M: MemoryBus>(cpu: &mut MOS6502<M>, op: WriteOp)
    requires
        old(cpu).wf(),
    ensures
        write_mode_post(AddressingMode::ZeroPageX, op, *old(cpu), *final(cpu)),
{
    let ghost pre = *cpu;
    let address_x = fetch_zeropagex_2(cpu);
    let value = run_write_op(cpu, op);
    cpu.write(address_x, value);
    cpu.tick();
    proof {
        assert(cpu.log() =~= pre.log() + write_log(
            AddressingMode::ZeroPageX,
            pre.mem(),
            pre.reg.pc,
            pre.reg.ix,
            pre.reg.iy,
            value,
        ));
    }
}

/// Zero-page,X read-modify-write.
pub fn zeropagex_5rmw<M: MemoryBus>(cpu: &mut MOS6502<M>, op: RmwOp)
    requires
        old(cpu).wf(),
    ensures
        rmw_mode_post(AddressingMode::ZeroPageX, op, *old(cpu), *final(cpu)),
{
    let ghost pre = *cpu;
    proof {
        cpu.bus.inv_mem_len();
    }
    let address_x = fetch_zeropagex_2(cpu);
    let value = cpu.read(address_x);
    cpu.tick();
    cpu.write(address_x, value);
    cpu.tick();
    let new_value = run_rmw_op(cpu, op, value);
    cpu.write(address_x, new_value);
    cpu.tick();
    proof {
        assert(cpu.mem() =~= pre.mem().update(address_x as int, new_value));
        assert(cpu.log() =~= pre.log() + rmw_log(
            AddressingMode::ZeroPageX,
            pre.mem(),
            pre.reg.pc,
            pre.reg.ix,
            new_value,
        ));
    }
}

} // verus!
