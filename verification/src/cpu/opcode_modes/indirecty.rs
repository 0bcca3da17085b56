//! (Indirect),Y addressing: the zero-page operand points at a little-endian
//! base address, fetched within the zero page with 8-bit wrap, to which Y
//! is added with 16-bit carry.

use vstd::prelude::*;

use crate::bus::MemoryBus;
use crate::cpu::cross_addr;
use crate::cpu::mem_at;
use crate::cpu::opcode_modes::read_base;
use crate::cpu::opcode_modes::read_ea;
use crate::cpu::opcode_modes::read_log;
use crate::cpu::opcode_modes::read_mode_post;
use crate::cpu::opcode_modes::run_read_op;
use crate::cpu::opcode_modes::run_write_op;
use crate::cpu::opcode_modes::write_log;
use crate::cpu::opcode_modes::write_mode_post;
use crate::cpu::opcode_modes::AddressingMode;
use crate::cpu::opcode_modes::ReadOp;
use crate::cpu::opcode_modes::WriteOp;
use crate::cpu::rd;
use crate::cpu::same_page;
use crate::cpu::wrap16;
use crate::cpu::wrap8;
use crate::cpu::MOS6502;
use crate::cpu::MOS6502Registers;

verus! {

/// The three cycles shared by the (Indirect),Y sequences: fetch the
/// zero-page pointer and read the base address from it, both pointer bytes
/// within the zero page.
pub fn fetch_indirecty_3<M: MemoryBus>(cpu: &mut MOS6502<M>) -> (addresses: (u16, u16))
    requires
        old(cpu).wf(),
    ensures
        final(cpu).wf(),
        final(cpu).mem() == old(cpu).mem(),
        addresses.0 == read_base(
            AddressingMode::IndirectY,
            old(cpu).mem(),
            old(cpu).reg.pc,
            old(cpu).reg.ix,
            old(cpu).reg.iy,
        ),
        addresses.1 == read_ea(
            AddressingMode::IndirectY,
            old(cpu).mem(),
            old(cpu).reg.pc,
            old(cpu).reg.ix,
            old(cpu).reg.iy,
        ),
        ({
            let mem = old(cpu).mem();
            let pc = old(cpu).reg.pc;
            let ll = mem_at(mem, pc);
            final(cpu).log() == old(cpu).log().push(rd(pc, ll)).push(
                rd(ll as u16, mem_at(mem, ll as u16)),
            ).push(rd(wrap8(ll + 1) as u16, mem_at(mem, wrap8(ll + 1) as u16)))
        }),
        final(cpu).reg == (MOS6502Registers { pc: wrap16(old(cpu).reg.pc + 1), ..old(cpu).reg }),
        final(cpu).flags == old(cpu).flags,
        final(cpu).trapped == old(cpu).trapped,
{
    let pc = cpu.reg.pc;
    let pointer = cpu.read(pc);
    cpu.reg.pc = cpu.reg.pc.wrapping_add(1);
    cpu.tick();
    let lo = cpu.read(pointer as u16);
    cpu.tick();
    let hi_pointer = pointer.wrapping_add(1);
    let hi = cpu.read(hi_pointer as u16);
    let address = lo as u16 + (hi as u16) * 0x100;
    let address_y = address.wrapping_add(cpu.reg.iy as u16);
    cpu.tick();
    (address, address_y)
}

/// (Indirect),Y `read`: the dummy read happens only on a page crossing.
pub fn indirecty_5read<M: MemoryBus>(cpu: &mut MOS6502<M>, op: ReadOp)
    requires
        old(cpu).wf(),
    ensures
        read_mode_post(AddressingMode::IndirectY, op, *old(cpu), *final(cpu)),
{
    let ghost pre = *cpu;
    let (address, address_y) = fetch_indirecty_3(cpu);
    if !same_page(address, address_y) {
        let fix = address / 0x100 * 0x100 + address_y % 0x100;
        cpu.read(fix);
        cpu.tick();
    }
    let value = cpu.read(address_y);
    run_read_op(cpu, op, value);
    cpu.tick();
    proof {
        assert(cpu.log() =~= pre.log() + read_log(
            AddressingMode::IndirectY,
            pre.mem(),
            pre.reg.pc,
            pre.reg.ix,
            pre.reg.iy,
        ));
    }
}

/// (Indirect),Y `write`: the dummy read is always emitted, at the address
/// formed before the carry into the high byte is applied.
pub fn indirecty_5write<M: MemoryBus>(cpu: &mut MOS6502<M>, op: WriteOp)
    requires
        old(cpu).wf(),
    ensures
        write_mode_post(AddressingMode::IndirectY, op, *old(cpu), *final(cpu)),
{
    let ghost pre = *cpu;
    let (address, address_y) = fetch_indirecty_3(cpu);
    let fix = address / 0x100 * 0x100 + address_y % 0x100;
    cpu.read(fix);
    cpu.tick();
    let value = run_write_op(cpu, op);
    cpu.write(address_y, value);
    cpu.tick();
    proof {
        assert(fix == cross_addr(address, address_y));
        assert(cpu.log() =~= pre.log() + write_log(
            AddressingMode::IndirectY,
            pre.mem(),
            pre.reg.pc,
            pre.reg.ix,
            pre.reg.iy,
            value,
        ));
    }
}

} // verus!
