//! Jumps, subroutine calls and returns, the BRK/RTI stack frames, and the
//! conditional branches.

use vstd::prelude::*;

use crate::bus::MemoryBus;
use crate::cpu::cross_addr;
use crate::cpu::flags_from_byte;
use crate::cpu::hi_byte;
use crate::cpu::lemma_wrap8_compose;
use crate::cpu::lemma_wrap16_compose;
use crate::cpu::lo_byte;
use crate::cpu::mem_at;
use crate::cpu::opcode_modes::abs_base;
use crate::cpu::opcode_modes::absolute::fetch_absolute_2;
use crate::cpu::opcode_modes::cross_read;
use crate::cpu::opcode_modes::fetch2_log;
use crate::cpu::rd;
use crate::cpu::same_page;
use crate::cpu::stack_addr;
use crate::cpu::status_byte;
use crate::cpu::word;
use crate::cpu::wr;
use crate::cpu::wrap16;
use crate::cpu::wrap8;
use crate::cpu::IRQ_VECTOR;
use crate::cpu::MOS6502;
use crate::cpu::MOS6502Flags;
use crate::cpu::MOS6502Registers;

verus! {

/// Where a taken branch lands: the program counter (already past the
/// operand) plus the sign-extended 8-bit offset, with 16-bit wrap-around.
pub open spec fn branch_target(pc: u16, offset: u8) -> u16 {
    if offset >= 0x80 {
        wrap16(pc + offset - 0x100)
    } else {
        wrap16(pc + offset)
    }
}

/// The page-wrapped address the buggy indirect JMP fetches its high target
/// byte from: the low address byte is incremented without carrying into the
/// page.
pub open spec fn wrap_page_inc(addr: u16) -> u16 {
    (addr / 0x100 * 0x100 + wrap8(addr % 0x100 + 1)) as u16
}

/// The target of an indirect JMP through `ptr`, with the NMOS page-wrap
/// bug: when `ptr` sits at the end of a page the high byte comes from the
/// start of the same page.
pub open spec fn indirect_target(mem: Seq<u8>, ptr: u16) -> u16 {
    word(mem_at(mem, ptr), mem_at(mem, wrap_page_inc(ptr)))
}

/// Everything a conditional branch guarantees.  When the predicate fails
/// the instruction is a plain operand fetch and nothing here changes; when
/// it holds, the dummy read of the program counter is emitted, one more
/// dummy read if the target lies in another page, and an offset of -2
/// (a branch to the instruction itself) raises the trap indicator.
pub open spec fn branch_post<M: MemoryBus>(
    taken: bool,
    offset: u8,
    pre: MOS6502<M>,
    post: MOS6502<M>,
) -> bool {
    if taken {
        let target = branch_target(pre.reg.pc, offset);
        &&& post.wf()
        &&& post.mem() == pre.mem()
        &&& post.reg == (MOS6502Registers { pc: target, ..pre.reg })
        &&& post.log() == pre.log().push(rd(pre.reg.pc, mem_at(pre.mem(), pre.reg.pc)))
            + cross_read(pre.mem(), pre.reg.pc, target)
        &&& post.flags == pre.flags
        &&& post.trapped == (pre.trapped || offset == 0xFE)
    } else {
        &&& post.wf()
        &&& post.mem() == pre.mem()
        &&& post.reg == pre.reg
        &&& post.log() == pre.log()
        &&& post.flags == pre.flags
        &&& post.trapped == pre.trapped
    }
}

/// JMP absolute: load the program counter with the 16-bit operand.  A jump
/// to the instruction's own address raises the trap indicator.
pub fn jmp_absolute<M: MemoryBus>(cpu: &mut MOS6502<M>)
    requires
        old(cpu).wf(),
    ensures
        final(cpu).wf(),
        final(cpu).mem() == old(cpu).mem(),
        final(cpu).reg == (MOS6502Registers {
            pc: abs_base(old(cpu).mem(), old(cpu).reg.pc),
            ..old(cpu).reg
        }),
        final(cpu).log() == old(cpu).log() + fetch2_log(old(cpu).mem(), old(cpu).reg.pc),
        final(cpu).flags == old(cpu).flags,
        final(cpu).trapped == (old(cpu).trapped || abs_base(old(cpu).mem(), old(cpu).reg.pc)
            == wrap16(old(cpu).reg.pc - 1)),
{
    let ghost pre = *cpu;
    let pc = cpu.reg.pc;
    let lo = cpu.read(pc);
    cpu.reg.pc = cpu.reg.pc.wrapping_add(1);
    cpu.tick();
    let pc_hi = cpu.reg.pc;
    let hi = cpu.read(pc_hi);
    let address = lo as u16 + (hi as u16) * 0x100;
    if address == pc.wrapping_sub(1) {
        cpu.trapped();
    }
    cpu.reg.pc = address;
    cpu.tick();
    proof {
        assert(cpu.log() =~= pre.log() + fetch2_log(pre.mem(), pre.reg.pc));
    }
}

/// JMP indirect: load the program counter through a 16-bit pointer, with
/// the NMOS page-wrap bug on the high byte fetch.
pub fn jmp_indirect<M: MemoryBus>(cpu: &mut MOS6502<M>)
    requires
        old(cpu).wf(),
    ensures
        final(cpu).wf(),
        final(cpu).mem() == old(cpu).mem(),
        ({
            let mem = old(cpu).mem();
            let ptr = abs_base(mem, old(cpu).reg.pc);
            &&& final(cpu).reg == (MOS6502Registers {
                pc: indirect_target(mem, ptr),
                ..old(cpu).reg
            })
            &&& final(cpu).log() == old(cpu).log() + fetch2_log(mem, old(cpu).reg.pc) + seq![
                rd(ptr, mem_at(mem, ptr)),
                rd(wrap_page_inc(ptr), mem_at(mem, wrap_page_inc(ptr))),
            ]
        }),
        final(cpu).flags == old(cpu).flags,
        final(cpu).trapped == old(cpu).trapped,
{
    let ghost pre = *cpu;
    let indirect_address = fetch_absolute_2(cpu);
    let lo = cpu.read(indirect_address);
    cpu.tick();
    let hi_address = indirect_address / 0x100 * 0x100 + (indirect_address % 0x100 + 1) % 0x100;
    let hi = cpu.read(hi_address);
    cpu.reg.pc = lo as u16 + (hi as u16) * 0x100;
    cpu.tick();
    proof {
        assert(cpu.log() =~= pre.log() + fetch2_log(pre.mem(), pre.reg.pc) + seq![
            rd(indirect_address, mem_at(pre.mem(), indirect_address)),
            rd(wrap_page_inc(indirect_address), mem_at(pre.mem(), wrap_page_inc(indirect_address))),
        ]);
    }
}

/// JSR: read the target's low byte, dummy-read the stack, push the address
/// of the instruction's last byte (high byte first), then read the target's
/// high byte and jump.
pub fn jump_to_subroutine<M: MemoryBus>(cpu: &mut MOS6502<M>)
    requires
        old(cpu).wf(),
    ensures
        final(cpu).wf(),
        ({
            let mem = old(cpu).mem();
            let pc0 = old(cpu).reg.pc;
            let sp0 = old(cpu).reg.sp;
            let pc1 = wrap16(pc0 + 1);
            let lo = mem_at(mem, pc0);
            let mem1 = mem.update(stack_addr(sp0) as int, hi_byte(pc1)).update(
                stack_addr(wrap8(sp0 - 1)) as int,
                lo_byte(pc1),
            );
            let hi = mem_at(mem1, pc1);
            &&& final(cpu).mem() == mem1
            &&& final(cpu).reg == (MOS6502Registers {
                pc: word(lo, hi),
                sp: wrap8(sp0 - 2),
                ..old(cpu).reg
            })
            &&& final(cpu).log() == old(cpu).log() + seq![
                rd(pc0, lo),
                rd(stack_addr(sp0), mem_at(mem, stack_addr(sp0))),
                wr(stack_addr(sp0), hi_byte(pc1)),
                wr(stack_addr(wrap8(sp0 - 1)), lo_byte(pc1)),
                rd(pc1, hi),
            ]
        }),
        final(cpu).flags == old(cpu).flags,
        final(cpu).trapped == old(cpu).trapped,
{
    let ghost pre = *cpu;
    let pc = cpu.reg.pc;
    let lo = cpu.read(pc);
    cpu.reg.pc = cpu.reg.pc.wrapping_add(1);
    cpu.tick();
    cpu.stack_peek();
    cpu.tick();
    let pc_high = (cpu.reg.pc / 0x100) as u8;
    cpu.stack_push(pc_high);
    cpu.tick();
    let pc_low = (cpu.reg.pc % 0x100) as u8;
    cpu.stack_push(pc_low);
    cpu.tick();
    let pc_hi_fetch = cpu.reg.pc;
    let hi = cpu.read(pc_hi_fetch);
    cpu.reg.pc = lo as u16 + (hi as u16) * 0x100;
    cpu.tick();
    proof {
        lemma_wrap8_compose(pre.reg.sp - 1, -1);
        assert(cpu.log() =~= pre.log() + seq![
            rd(pre.reg.pc, mem_at(pre.mem(), pre.reg.pc)),
            rd(stack_addr(pre.reg.sp), mem_at(pre.mem(), stack_addr(pre.reg.sp))),
            wr(stack_addr(pre.reg.sp), hi_byte(wrap16(pre.reg.pc + 1))),
            wr(stack_addr(wrap8(pre.reg.sp - 1)), lo_byte(wrap16(pre.reg.pc + 1))),
            rd(wrap16(pre.reg.pc + 1), mem_at(cpu.mem(), wrap16(pre.reg.pc + 1))),
        ]);
    }
}

/// RTS: dummy reads, pop the return address low byte then high byte, dummy
/// read at the popped address, then resume one byte past it.
pub fn return_from_subroutine<M: MemoryBus>(cpu: &mut MOS6502<M>)
    requires
        old(cpu).wf(),
    ensures
        final(cpu).wf(),
        final(cpu).mem() == old(cpu).mem(),
        ({
            let mem = old(cpu).mem();
            let pc0 = old(cpu).reg.pc;
            let sp0 = old(cpu).reg.sp;
            let sp1 = wrap8(sp0 + 1);
            let sp2 = wrap8(sp0 + 2);
            let lo = mem_at(mem, stack_addr(sp1));
            let hi = mem_at(mem, stack_addr(sp2));
            &&& final(cpu).reg == (MOS6502Registers {
                pc: wrap16(word(lo, hi) + 1),
                sp: sp2,
                ..old(cpu).reg
            })
            &&& final(cpu).log() == old(cpu).log() + seq![
                rd(pc0, mem_at(mem, pc0)),
                rd(stack_addr(sp0), mem_at(mem, stack_addr(sp0))),
                rd(stack_addr(sp1), lo),
                rd(stack_addr(sp2), hi),
                rd(word(lo, hi), mem_at(mem, word(lo, hi))),
            ]
        }),
        final(cpu).flags == old(cpu).flags,
        final(cpu).trapped == old(cpu).trapped,
{
    let ghost pre = *cpu;
    let pc = cpu.reg.pc;
    cpu.read(pc);
    cpu.tick();
    cpu.stack_peek();
    cpu.stack_pop_no_read();
    cpu.tick();
    let lo = cpu.stack_peek();
    cpu.stack_pop_no_read();
    cpu.tick();
    let hi = cpu.stack_peek();
    cpu.tick();
    let address = lo as u16 + (hi as u16) * 0x100;
    cpu.read(address);
    cpu.reg.pc = address.wrapping_add(1);
    cpu.tick();
    proof {
        lemma_wrap8_compose(pre.reg.sp + 1, 1);
        assert(cpu.log() =~= pre.log() + seq![
            rd(pre.reg.pc, mem_at(pre.mem(), pre.reg.pc)),
            rd(stack_addr(pre.reg.sp), mem_at(pre.mem(), stack_addr(pre.reg.sp))),
            rd(stack_addr(wrap8(pre.reg.sp + 1)), mem_at(pre.mem(), stack_addr(wrap8(pre.reg.sp + 1)))),
            rd(stack_addr(wrap8(pre.reg.sp + 2)), mem_at(pre.mem(), stack_addr(wrap8(pre.reg.sp + 2)))),
            rd(address, mem_at(pre.mem(), address)),
        ]);
    }
}

/// RTI: pop the status byte (bits 5 and 4 ignored), then the return
/// address, and resume exactly there.
pub fn return_from_interrupt<M: MemoryBus>(cpu: &mut MOS6502<M>)
    requires
        old(cpu).wf(),
    ensures
        final(cpu).wf(),
        final(cpu).mem() == old(cpu).mem(),
        ({
            let mem = old(cpu).mem();
            let sp0 = old(cpu).reg.sp;
            let sp1 = wrap8(sp0 + 1);
            let sp2 = wrap8(sp0 + 2);
            let sp3 = wrap8(sp0 + 3);
            let status = mem_at(mem, stack_addr(sp1));
            let lo = mem_at(mem, stack_addr(sp2));
            let hi = mem_at(mem, stack_addr(sp3));
            &&& final(cpu).reg == (MOS6502Registers { pc: word(lo, hi), sp: sp3, ..old(cpu).reg })
            &&& final(cpu).flags == flags_from_byte(status)
            &&& final(cpu).log() == old(cpu).log() + seq![
                rd(stack_addr(sp0), mem_at(mem, stack_addr(sp0))),
                rd(stack_addr(sp1), status),
                rd(stack_addr(sp2), lo),
                rd(stack_addr(sp3), hi),
            ]
        }),
        final(cpu).trapped == old(cpu).trapped,
{
    let ghost pre = *cpu;
    cpu.stack_peek();
    cpu.stack_pop_no_read();
    cpu.tick();
    let value = cpu.stack_peek();
    cpu.set_proccessor_status(value);
    cpu.stack_pop_no_read();
    cpu.tick();
    let lo = cpu.stack_peek();
    cpu.stack_pop_no_read();
    cpu.tick();
    let hi = cpu.stack_peek();
    cpu.reg.pc = lo as u16 + (hi as u16) * 0x100;
    cpu.tick();
    proof {
        lemma_wrap8_compose(pre.reg.sp + 1, 1);
        lemma_wrap8_compose(pre.reg.sp + 2, 1);
        assert(cpu.log() =~= pre.log() + seq![
            rd(stack_addr(pre.reg.sp), mem_at(pre.mem(), stack_addr(pre.reg.sp))),
            rd(stack_addr(wrap8(pre.reg.sp + 1)), mem_at(pre.mem(), stack_addr(wrap8(pre.reg.sp + 1)))),
            rd(stack_addr(wrap8(pre.reg.sp + 2)), mem_at(pre.mem(), stack_addr(wrap8(pre.reg.sp + 2)))),
            rd(stack_addr(wrap8(pre.reg.sp + 3)), mem_at(pre.mem(), stack_addr(wrap8(pre.reg.sp + 3)))),
        ]);
    }
}

/// BRK: read and discard the signature byte, push the address two past the
/// opcode (high byte first), push the status byte with the break bit set,
/// raise interrupt-disable, and load the program counter from the IRQ/BRK
/// vector.  The vector bytes are read after the pushes, so a stack frame
/// that lands on the vector is observed.
pub fn break_interrupt<M: MemoryBus>(cpu: &mut MOS6502<M>)
    requires
        old(cpu).wf(),
    ensures
        final(cpu).wf(),
        ({
            let mem = old(cpu).mem();
            let pc0 = old(cpu).reg.pc;
            let sp0 = old(cpu).reg.sp;
            let pc1 = wrap16(pc0 + 1);
            let status = status_byte(old(cpu).flags);
            let mem1 = mem.update(stack_addr(sp0) as int, hi_byte(pc1)).update(
                stack_addr(wrap8(sp0 - 1)) as int,
                lo_byte(pc1),
            ).update(stack_addr(wrap8(sp0 - 2)) as int, status);
            let lo = mem_at(mem1, IRQ_VECTOR);
            let hi = mem_at(mem1, (IRQ_VECTOR + 1) as u16);
            &&& final(cpu).mem() == mem1
            &&& final(cpu).reg == (MOS6502Registers {
                pc: word(lo, hi),
                sp: wrap8(sp0 - 3),
                ..old(cpu).reg
            })
            &&& final(cpu).log() == old(cpu).log() + seq![
                rd(pc0, mem_at(mem, pc0)),
                wr(stack_addr(sp0), hi_byte(pc1)),
                wr(stack_addr(wrap8(sp0 - 1)), lo_byte(pc1)),
                wr(stack_addr(wrap8(sp0 - 2)), status),
                rd(IRQ_VECTOR, lo),
                rd((IRQ_VECTOR + 1) as u16, hi),
            ]
        }),
        final(cpu).flags == (MOS6502Flags {
            break_cmd: true,
            int_disable: true,
            ..old(cpu).flags
        }),
        final(cpu).trapped == old(cpu).trapped,
{
    let ghost pre = *cpu;
    let pc = cpu.reg.pc;
    cpu.read(pc);
    cpu.reg.pc = cpu.reg.pc.wrapping_add(1);
    cpu.tick();
    let pc_high = (cpu.reg.pc / 0x100) as u8;
    cpu.stack_push(pc_high);
    cpu.tick();
    let pc_low = (cpu.reg.pc % 0x100) as u8;
    cpu.stack_push(pc_low);
    cpu.tick();
    cpu.push_processor_status();
    cpu.flags.break_cmd = true;
    cpu.flags.int_disable = true;
    cpu.tick();
    let lo = cpu.read(IRQ_VECTOR);
    cpu.tick();
    let hi = cpu.read(IRQ_VECTOR + 1);
    cpu.reg.pc = lo as u16 + (hi as u16) * 0x100;
    cpu.tick();
    proof {
        lemma_wrap8_compose(pre.reg.sp - 1, -1);
        lemma_wrap8_compose(pre.reg.sp - 2, -1);
        assert(cpu.log() =~= pre.log() + seq![
            rd(pre.reg.pc, mem_at(pre.mem(), pre.reg.pc)),
            wr(stack_addr(pre.reg.sp), hi_byte(wrap16(pre.reg.pc + 1))),
            wr(stack_addr(wrap8(pre.reg.sp - 1)), lo_byte(wrap16(pre.reg.pc + 1))),
            wr(stack_addr(wrap8(pre.reg.sp - 2)), status_byte(pre.flags)),
            rd(IRQ_VECTOR, mem_at(cpu.mem(), IRQ_VECTOR)),
            rd((IRQ_VECTOR + 1) as u16, mem_at(cpu.mem(), (IRQ_VECTOR + 1) as u16)),
        ]);
    }
}

/// Take a branch: the dummy read of the program counter, the sign-extended
/// move, one more dummy read on a page crossing, and the self-branch trap.
pub fn branch<M: MemoryBus>(cpu: &mut MOS6502<M>, relative_offset: u8)
    requires
        old(cpu).wf(),
    ensures
        branch_post(true, relative_offset, *old(cpu), *final(cpu)),
{
    let ghost pre = *cpu;
    let pc = cpu.reg.pc;
    cpu.read(pc);
    cpu.tick();
    let old_pc = cpu.reg.pc;
    let new_pc = if relative_offset >= 0x80 {
        old_pc.wrapping_add(relative_offset as u16).wrapping_sub(0x100)
    } else {
        old_pc.wrapping_add(relative_offset as u16)
    };
    cpu.reg.pc = new_pc;
    proof {
        lemma_wrap16_compose(pre.reg.pc + relative_offset, -0x100);
    }
    if !same_page(old_pc, new_pc) {
        let fix = old_pc / 0x100 * 0x100 + new_pc % 0x100;
        cpu.read(fix);
        cpu.tick();
        proof {
            assert(fix == cross_addr(pre.reg.pc, new_pc));
        }
    }
    if relative_offset == 0xFE {
        cpu.trapped();
    }
    proof {
        assert(cpu.log() =~= pre.log().push(rd(pre.reg.pc, mem_at(pre.mem(), pre.reg.pc)))
            + cross_read(pre.mem(), pre.reg.pc, branch_target(pre.reg.pc, relative_offset)));
    }
}

/// BCC: branch when the carry flag is clear.
pub fn branch_if_carry_clear<M: MemoryBus>(cpu: &mut MOS6502<M>, relative_address: u8)
    requires
        old(cpu).wf(),
    ensures
        branch_post(!old(cpu).flags.carry, relative_address, *old(cpu), *final(cpu)),
{
    if !cpu.flags.carry {
        branch(cpu, relative_address);
    }
}

/// BCS: branch when the carry flag is set.
pub fn branch_if_carry_set<M: MemoryBus>(cpu: &mut MOS6502<M>, relative_address: u8)
    requires
        old(cpu).wf(),
    ensures
        branch_post(old(cpu).flags.carry, relative_address, *old(cpu), *final(cpu)),
{
    if cpu.flags.carry {
        branch(cpu, relative_address);
    }
}

/// BEQ: branch when the zero flag is set.
pub fn branch_if_equal<M: MemoryBus>(cpu: &mut MOS6502<M>, relative_address: u8)
    requires
        old(cpu).wf(),
    ensures
        branch_post(old(cpu).flags.zero, relative_address, *old(cpu), *final(cpu)),
{
    if cpu.flags.zero {
        branch(cpu, relative_address);
    }
}

/// BNE: branch when the zero flag is clear.
pub fn branch_if_not_equal<M: MemoryBus>(cpu: &mut MOS6502<M>, relative_address: u8)
    requires
        old(cpu).wf(),
    ensures
        branch_post(!old(cpu).flags.zero, relative_address, *old(cpu), *final(cpu)),
{
    if !cpu.flags.zero {
        branch(cpu, relative_address);
    }
}

/// BMI: branch when the negative flag is set.
pub fn branch_if_minus<M: MemoryBus>(cpu: &mut MOS6502<M>, relative_address: u8)
    requires
        old(cpu).wf(),
    ensures
        branch_post(old(cpu).flags.negative, relative_address, *old(cpu), *final(cpu)),
{
    if cpu.flags.negative {
        branch(cpu, relative_address);
    }
}

/// BPL: branch when the negative flag is clear.
pub fn branch_if_positive<M: MemoryBus>(cpu: &mut MOS6502<M>, relative_address: u8)
    requires
        old(cpu).wf(),
    ensures
        branch_post(!old(cpu).flags.negative, relative_address, *old(cpu), *final(cpu)),
{
    if !cpu.flags.negative {
        branch(cpu, relative_address);
    }
}

/// BVC: branch when the overflow flag is clear.
pub fn branch_if_overflow_clear<M: MemoryBus>(cpu: &mut MOS6502<M>, relative_address: u8)
    requires
        old(cpu).wf(),
    ensures
        branch_post(!old(cpu).flags.overflow, relative_address, *old(cpu), *final(cpu)),
{
    if !cpu.flags.overflow {
        branch(cpu, relative_address);
    }
}

/// BVS: branch when the overflow flag is set.
pub fn branch_if_overflow_set<M: MemoryBus>(cpu: &mut MOS6502<M>, relative_address: u8)
    requires
        old(cpu).wf(),
    ensures
        branch_post(old(cpu).flags.overflow, relative_address, *old(cpu), *final(cpu)),
{
    if cpu.flags.overflow {
        branch(cpu, relative_address);
    }
}

/// The indirect JMP page-wrap bug: a pointer sitting on the last byte of a
/// page takes its high target byte from the first byte of that same page.
pub proof fn lemma_jmp_indirect_page_wrap(mem: Seq<u8>, ptr: u16)
    requires
        ptr % 0x100 == 0xFF,
    ensures
        wrap_page_inc(ptr) == ptr - 0xFF,
        indirect_target(mem, ptr) == word(mem_at(mem, ptr), mem_at(mem, (ptr - 0xFF) as u16)),
{
    vstd::arithmetic::div_mod::lemma_fundamental_div_mod(ptr as int, 0x100);
}

/// The whole effect of one step of a conditional branch, opcode and offset
/// fetches included.
pub open spec fn branch_step_post<M: MemoryBus>(
    opcode: u8,
    pre: MOS6502<M>,
    post: MOS6502<M>,
) -> bool {
    let mem = pre.mem();
    let pc1 = wrap16(pre.reg.pc + 1);
    let offset = mem_at(mem, pc1);
    let pc2 = wrap16(pc1 + 1);
    let fetched = pre.log().push(rd(pre.reg.pc, opcode)).push(rd(pc1, offset));
    &&& post.mem() == mem
    &&& post.flags == pre.flags
    &&& if crate::cpu::branch_taken_spec(opcode, pre.flags) {
        let target = branch_target(pc2, offset);
        &&& post.reg == (MOS6502Registers { pc: target, ..pre.reg })
        &&& post.log() == fetched.push(rd(pc2, mem_at(mem, pc2))) + cross_read(mem, pc2, target)
        &&& post.trapped == (pre.trapped || offset == 0xFE)
    } else {
        &&& post.reg == (MOS6502Registers { pc: pc2, ..pre.reg })
        &&& post.log() == fetched
        &&& post.trapped == pre.trapped
    }
}

/// The jump, call, return and break opcodes.
pub open spec fn is_control_opcode(opcode: u8) -> bool {
    opcode == 0x4C || opcode == 0x6C || opcode == 0x20 || opcode == 0x60 || opcode == 0x40
        || opcode == 0x00
}

/// The whole effect of one step of a jump, call, return or break, opcode
/// fetch included.
pub open spec fn control_step_post<M: MemoryBus>(
    opcode: u8,
    pre: MOS6502<M>,
    post: MOS6502<M>,
) -> bool {
    let mem = pre.mem();
    let pc1 = wrap16(pre.reg.pc + 1);
    let sp0 = pre.reg.sp;
    let fetched = pre.log().push(rd(pre.reg.pc, opcode));
    match opcode {
        0x4C => {
            &&& post.mem() == mem
            &&& post.reg == (MOS6502Registers { pc: abs_base(mem, pc1), ..pre.reg })
            &&& post.flags == pre.flags
            &&& post.log() == fetched + fetch2_log(mem, pc1)
            &&& post.trapped == (pre.trapped || abs_base(mem, pc1) == wrap16(pc1 - 1))
        },
        0x6C => {
            let ptr = abs_base(mem, pc1);
            &&& post.mem() == mem
            &&& post.reg == (MOS6502Registers { pc: indirect_target(mem, ptr), ..pre.reg })
            &&& post.flags == pre.flags
            &&& post.log() == fetched + fetch2_log(mem, pc1) + seq![
                rd(ptr, mem_at(mem, ptr)),
                rd(wrap_page_inc(ptr), mem_at(mem, wrap_page_inc(ptr))),
            ]
            &&& post.trapped == pre.trapped
        },
        0x20 => {
            let pc2 = wrap16(pc1 + 1);
            let lo = mem_at(mem, pc1);
            let mem1 = mem.update(stack_addr(sp0) as int, hi_byte(pc2)).update(
                stack_addr(wrap8(sp0 - 1)) as int,
                lo_byte(pc2),
            );
            let hi = mem_at(mem1, pc2);
            &&& post.mem() == mem1
            &&& post.reg == (MOS6502Registers { pc: word(lo, hi), sp: wrap8(sp0 - 2), ..pre.reg })
            &&& post.flags == pre.flags
            &&& post.log() == fetched + seq![
                rd(pc1, lo),
                rd(stack_addr(sp0), mem_at(mem, stack_addr(sp0))),
                wr(stack_addr(sp0), hi_byte(pc2)),
                wr(stack_addr(wrap8(sp0 - 1)), lo_byte(pc2)),
                rd(pc2, hi),
            ]
            &&& post.trapped == pre.trapped
        },
        0x60 => {
            let sp1 = wrap8(sp0 + 1);
            let sp2 = wrap8(sp0 + 2);
            let lo = mem_at(mem, stack_addr(sp1));
            let hi = mem_at(mem, stack_addr(sp2));
            &&& post.mem() == mem
            &&& post.reg == (MOS6502Registers {
                pc: wrap16(word(lo, hi) + 1),
                sp: sp2,
                ..pre.reg
            })
            &&& post.flags == pre.flags
            &&& post.log() == fetched + seq![
                rd(pc1, mem_at(mem, pc1)),
                rd(stack_addr(sp0), mem_at(mem, stack_addr(sp0))),
                rd(stack_addr(sp1), lo),
                rd(stack_addr(sp2), hi),
                rd(word(lo, hi), mem_at(mem, word(lo, hi))),
            ]
            &&& post.trapped == pre.trapped
        },
        0x40 => {
            let sp1 = wrap8(sp0 + 1);
            let sp2 = wrap8(sp0 + 2);
            let sp3 = wrap8(sp0 + 3);
            let status = mem_at(mem, stack_addr(sp1));
            let lo = mem_at(mem, stack_addr(sp2));
            let hi = mem_at(mem, stack_addr(sp3));
            &&& post.mem() == mem
            &&& post.reg == (MOS6502Registers { pc: word(lo, hi), sp: sp3, ..pre.reg })
            &&& post.flags == flags_from_byte(status)
            &&& post.log() == fetched + seq![
                rd(stack_addr(sp0), mem_at(mem, stack_addr(sp0))),
                rd(stack_addr(sp1), status),
                rd(stack_addr(sp2), lo),
                rd(stack_addr(sp3), hi),
            ]
            &&& post.trapped == pre.trapped
        },
        _ => {
            let pc2 = wrap16(pc1 + 1);
            let status = status_byte(pre.flags);
            let mem1 = mem.update(stack_addr(sp0) as int, hi_byte(pc2)).update(
                stack_addr(wrap8(sp0 - 1)) as int,
                lo_byte(pc2),
            ).update(stack_addr(wrap8(sp0 - 2)) as int, status);
            let lo = mem_at(mem1, IRQ_VECTOR);
            let hi = mem_at(mem1, (IRQ_VECTOR + 1) as u16);
            &&& post.mem() == mem1
            &&& post.reg == (MOS6502Registers { pc: word(lo, hi), sp: wrap8(sp0 - 3), ..pre.reg })
            &&& post.flags == (MOS6502Flags {
                break_cmd: true,
                int_disable: true,
                ..pre.flags
            })
            &&& post.log() == fetched + seq![
                rd(pc1, mem_at(mem, pc1)),
                wr(stack_addr(sp0), hi_byte(pc2)),
                wr(stack_addr(wrap8(sp0 - 1)), lo_byte(pc2)),
                wr(stack_addr(wrap8(sp0 - 2)), status),
                rd(IRQ_VECTOR, lo),
                rd((IRQ_VECTOR + 1) as u16, hi),
            ]
            &&& post.trapped == pre.trapped
        },
    }
}

} // verus!
