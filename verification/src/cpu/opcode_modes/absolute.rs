//! Absolute addressing: a little-endian 16-bit operand is the effective
//! address.

use vstd::prelude::*;

use crate::bus::MemoryBus;
use crate::cpu::lemma_wrap16_compose;
use crate::cpu::mem_at;
use crate::cpu::opcode_modes::abs_base;
use crate::cpu::opcode_modes::read_log;
use crate::cpu::opcode_modes::read_mode_post;
use crate::cpu::opcode_modes::rmw_log;
use crate::cpu::opcode_modes::rmw_mode_post;
use crate::cpu::opcode_modes::run_read_op;
use crate::cpu::opcode_modes::run_rmw_op;
use crate::cpu::opcode_modes::run_write_op;
use crate::cpu::opcode_modes::write_log;
use crate::cpu::opcode_modes::write_mode_post;
use crate::cpu::opcode_modes::AddressingMode;
use crate::cpu::opcode_modes::ReadOp;
use crate::cpu::opcode_modes::RmwOp;
use crate::cpu::opcode_modes::WriteOp;
use crate::cpu::rd;
use crate::cpu::wrap16;
use crate::cpu::MOS6502;
use crate::cpu::MOS6502Registers;

verus! {

/// Fetch the two operand bytes of an absolute address and advance the
/// program counter past them.
pub fn fetch_absolute_2<M: MemoryBus>(cpu: &mut MOS6502<M>) -> (address: u16)
    requires
        old(cpu).wf(),
    ensures
        final(cpu).wf(),
        final(cpu).mem() == old(cpu).mem(),
        address == abs_base(old(cpu).mem(), old(cpu).reg.pc),
        final(cpu).log() == old(cpu).log().push(
            rd(old(cpu).reg.pc, mem_at(old(cpu).mem(), old(cpu).reg.pc)),
        ).push(
            rd(
                wrap16(old(cpu).reg.pc + 1),
                mem_at(old(cpu).mem(), wrap16(old(cpu).reg.pc + 1)),
            ),
        ),
        final(cpu).reg == (MOS6502Registers { pc: wrap16(old(cpu).reg.pc + 2), ..old(cpu).reg }),
        final(cpu).flags == old(cpu).flags,
        final(cpu).trapped == old(cpu).trapped,
{
    let ghost pre = *cpu;
    let pc = cpu.reg.pc;
    let lo = cpu.read(pc);
    cpu.reg.pc = cpu.reg.pc.wrapping_add(1);
    cpu.tick();
    let pc_hi = cpu.reg.pc;
    let hi = cpu.read(pc_hi);
    cpu.reg.pc = cpu.reg.pc.wrapping_add(1);
    cpu.tick();
    proof {
        lemma_wrap16_compose(pre.reg.pc + 1, 1);
    }
    lo as u16 + (hi as u16) * 0x100
}

/// Absolute `read`: fetch the address, read the operand, run the body.
pub fn absolute_3read<M: MemoryBus>(cpu: &mut MOS6502<M>, op: ReadOp)
    requires
        old(cpu).wf(),
    ensures
        read_mode_post(AddressingMode::Absolute, op, *old(cpu), *final(cpu)),
{
    let ghost pre = *cpu;
    let address = fetch_absolute_2(cpu);
    let value = cpu.read(address);
    run_read_op(cpu, op, value);
    cpu.tick();
    proof {
        assert(cpu.log() =~= pre.log() + read_log(
            AddressingMode::Absolute,
            pre.mem(),
            pre.reg.pc,
            pre.reg.ix,
            pre.reg.iy,
        ));
    }
}

/// Absolute `write`: fetch the address, store the register byte.
pub fn absolute_3write<M: MemoryBus>(cpu: &mut MOS6502<M>, op: WriteOp)
    requires
        old(cpu).wf(),
    ensures
        write_mode_post(AddressingMode::Absolute, op, *old(cpu), *final(cpu)),
{
    let ghost pre = *cpu;
    let address = fetch_absolute_2(cpu);
    let value = run_write_op(cpu, op);
    cpu.write(address, value);
    cpu.tick();
    proof {
        assert(cpu.log() =~= pre.log() + write_log(
            AddressingMode::Absolute,
            pre.mem(),
            pre.reg.pc,
            pre.reg.ix,
            pre.reg.iy,
            value,
        ));
    }
}

/// Absolute read-modify-write: read the target, write the original byte
/// back, then write the transformed byte.
pub fn absolute_5rmw<M: MemoryBus>(cpu: &mut MOS6502<M>, op: RmwOp)
    requires
        old(cpu).wf(),
    ensures
        rmw_mode_post(AddressingMode::Absolute, op, *old(cpu), *final(cpu)),
{
    let ghost pre = *cpu;
    proof {
        cpu.bus.inv_mem_len();
    }
    let address = fetch_absolute_2(cpu);
    let value = cpu.read(address);
    cpu.tick();
    cpu.write(address, value);
    cpu.tick();
    let new_value = run_rmw_op(cpu, op, value);
    cpu.write(address, new_value);
    cpu.tick();
    proof {
        assert(cpu.mem() =~= pre.mem().update(address as int, new_value));
        assert(cpu.log() =~= pre.log() + rmw_log(
            AddressingMode::Absolute,
            pre.mem(),
            pre.reg.pc,
            pre.reg.ix,
            new_value,
        ));
    }
}

} // verus!
