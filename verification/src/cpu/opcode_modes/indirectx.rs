//! (Indirect,X) addressing: the zero-page operand plus X points at a
//! little-endian address; both pointer bytes are fetched within the zero
//! page with 8-bit wrap.

use vstd::prelude::*;

use crate::bus::MemoryBus;
use crate::cpu::lemma_wrap8_compose;
use crate::cpu::mem_at;
use crate::cpu::opcode_modes::read_ea;
use crate::cpu::opcode_modes::read_log;
use crate::cpu::opcode_modes::read_mode_post;
use crate::cpu::opcode_modes::run_read_op;
use crate::cpu::opcode_modes::run_write_op;
use crate::cpu::opcode_modes::write_log;
use crate::cpu::opcode_modes::write_mode_post;
use crate::cpu::opcode_modes::AddressingMode;
use crate::cpu::opcode_modes::ReadOp;
use crate::cpu::opcode_modes::WriteOp;
use crate::cpu::rd;
use crate::cpu::wrap16;
use crate::cpu::wrap8;
use crate::cpu::MOS6502;
use crate::cpu::MOS6502Registers;

verus! {

/// The four cycles shared by the (Indirect,X) sequences: fetch the operand,
/// dummy-read the unindexed zero-page byte, then fetch both pointer bytes
/// from the zero page with 8-bit wrap.
pub fn fetch_indirectx<M: MemoryBus>(cpu: &mut MOS6502<M>) -> (address: u16)
    requires
        old(cpu).wf(),
    ensures
        final(cpu).wf(),
        final(cpu).mem() == old(cpu).mem(),
        address == read_ea(
            AddressingMode::IndirectX,
            old(cpu).mem(),
            old(cpu).reg.pc,
            old(cpu).reg.ix,
            old(cpu).reg.iy,
        ),
        ({
            let mem = old(cpu).mem();
            let pc = old(cpu).reg.pc;
            let ll = mem_at(mem, pc);
            let x = old(cpu).reg.ix;
            final(cpu).log() == old(cpu).log().push(rd(pc, ll)).push(
                rd(ll as u16, mem_at(mem, ll as u16)),
            ).push(rd(wrap8(ll + x) as u16, mem_at(mem, wrap8(ll + x) as u16))).push(
                rd(wrap8(ll + x + 1) as u16, mem_at(mem, wrap8(ll + x + 1) as u16)),
            )
        }),
        final(cpu).reg == (MOS6502Registers { pc: wrap16(old(cpu).reg.pc + 1), ..old(cpu).reg }),
        final(cpu).flags == old(cpu).flags,
        final(cpu).trapped == old(cpu).trapped,
{
    let ghost pre = *cpu;
    let pc = cpu.reg.pc;
    let pointer = cpu.read(pc);
    cpu.reg.pc = cpu.reg.pc.wrapping_add(1);
    cpu.tick();
    cpu.read(pointer as u16);
    cpu.tick();
    let lo_pointer = pointer.wrapping_add(cpu.reg.ix);
    let lo = cpu.read(lo_pointer as u16);
    cpu.tick();
    let hi_pointer = lo_pointer.wrapping_add(1);
    let hi = cpu.read(hi_pointer as u16);
    cpu.tick();
    proof {
        lemma_wrap8_compose(mem_at(pre.mem(), pre.reg.pc) + pre.reg.ix, 1);
    }
    lo as u16 + (hi as u16) * 0x100
}

/// (Indirect,X) `read`.
pub fn indirectx_5read<M: MemoryBus>(cpu: &mut MOS6502<M>, op: ReadOp)
    requires
        old(cpu).wf(),
    ensures
        read_mode_post(AddressingMode::IndirectX, op, *old(cpu), *final(cpu)),
{
    let ghost pre = *cpu;
    let address = fetch_indirectx(cpu);
    let value = cpu.read(address);
    run_read_op(cpu, op, value);
    cpu.tick();
    proof {
        assert(cpu.log() =~= pre.log() + read_log(
            AddressingMode::IndirectX,
            pre.mem(),
            pre.reg.pc,
            pre.reg.ix,
            pre.reg.iy,
        ));
    }
}

/// (Indirect,X) `write`.
pub fn indirectx_5write<M: MemoryBus>(cpu: &mut MOS6502<M>, op: WriteOp)
    requires
        old(cpu).wf(),
    ensures
        write_mode_post(AddressingMode::IndirectX, op, *old(cpu), *final(cpu)),
{
    let ghost pre = *cpu;
    let address = fetch_indirectx(cpu);
    let value = run_write_op(cpu, op);
    cpu.write(address, value);
    cpu.tick();
    proof {
        assert(cpu.log() =~= pre.log() + write_log(
            AddressingMode::IndirectX,
            pre.mem(),
            pre.reg.pc,
            pre.reg.ix,
            pre.reg.iy,
            value,
        ));
    }
}

} // verus!
