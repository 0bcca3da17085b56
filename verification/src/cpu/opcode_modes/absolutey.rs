//! Absolute,Y addressing: the 16-bit operand plus Y.  No read-modify-write
//! instruction uses this mode.

use vstd::prelude::*;

use crate::bus::MemoryBus;
use crate::cpu::cross_addr;
use crate::cpu::opcode_modes::abs_base;
use crate::cpu::opcode_modes::fetch_indexed_base;
use crate::cpu::opcode_modes::read_log;
use crate::cpu::opcode_modes::read_mode_post;
use crate::cpu::opcode_modes::run_read_op;
use crate::cpu::opcode_modes::run_write_op;
use crate::cpu::opcode_modes::write_log;
use crate::cpu::opcode_modes::write_mode_post;
use crate::cpu::opcode_modes::AddressingMode;
use crate::cpu::opcode_modes::ReadOp;
use crate::cpu::opcode_modes::WriteOp;
use crate::cpu::same_page;
use crate::cpu::wrap16;
use crate::cpu::MOS6502;
use crate::cpu::MOS6502Registers;

verus! {

/// Fetch the absolute base address and form the Y-indexed target with
/// 16-bit wrap-around.
pub fn fetch_absolutey_2<M: MemoryBus>(cpu: &mut MOS6502<M>) -> (addresses: (u16, u16))
    requires
        old(cpu).wf(),
    ensures
        final(cpu).wf(),
        final(cpu).mem() == old(cpu).mem(),
        addresses.0 == abs_base(old(cpu).mem(), old(cpu).reg.pc),
        addresses.1 == wrap16(abs_base(old(cpu).mem(), old(cpu).reg.pc) + old(cpu).reg.iy),
        final(cpu).log() == old(cpu).log() + crate::cpu::opcode_modes::fetch2_log(
            old(cpu).mem(),
            old(cpu).reg.pc,
        ),
        final(cpu).reg == (MOS6502Registers { pc: wrap16(old(cpu).reg.pc + 2), ..old(cpu).reg }),
        final(cpu).flags == old(cpu).flags,
        final(cpu).trapped == old(cpu).trapped,
{
    let iy = cpu.reg.iy;
    fetch_indexed_base(cpu, iy)
}

/// Absolute,Y `read`: the dummy read happens only on a page crossing.
pub fn absolutey_3read<M: MemoryBus>(cpu: &mut MOS6502<M>, op: ReadOp)
    requires
        old(cpu).wf(),
    ensures
        read_mode_post(AddressingMode::AbsoluteY, op, *old(cpu), *final(cpu)),
{
    let ghost pre = *cpu;
    let (address, address_y) = fetch_absolutey_2(cpu);
    if !same_page(address, address_y) {
        let fix = address / 0x100 * 0x100 + address_y % 0x100;
        cpu.read(fix);
        cpu.tick();
    }
    let value = cpu.read(address_y);
    run_read_op(cpu, op, value);
    cpu.tick();
    proof {
        assert(cpu.log() =~= pre.log() + read_log(
            AddressingMode::AbsoluteY,
            pre.mem(),
            pre.reg.pc,
            pre.reg.ix,
            pre.reg.iy,
        ));
    }
}

/// Absolute,Y `write`: the dummy read is always emitted, at the address
/// formed before the carry into the high byte is applied.
pub fn absolutey_4write<M: MemoryBus>(cpu: &mut MOS6502<M>, op: WriteOp)
    requires
        old(cpu).wf(),
    ensures
        write_mode_post(AddressingMode::AbsoluteY, op, *old(cpu), *final(cpu)),
{
    let ghost pre = *cpu;
    let (address, address_y) = fetch_absolutey_2(cpu);
    let fix = address / 0x100 * 0x100 + address_y % 0x100;
    cpu.read(fix);
    cpu.tick();
    let value = run_write_op(cpu, op);
    cpu.write(address_y, value);
    cpu.tick();
    proof {
        assert(fix == cross_addr(address, address_y));
        assert(cpu.log() =~= pre.log() + write_log(
            AddressingMode::AbsoluteY,
            pre.mem(),
            pre.reg.pc,
            pre.reg.ix,
            pre.reg.iy,
            value,
        ));
    }
}

} // verus!
