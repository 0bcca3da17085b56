//! The 6502 execution core: architectural state, stack and status helpers,
//! the reset sequence, and the instruction stepper.
//!
//! Contracts are stated over a small mathematical model: 16-bit wrapping
//! arithmetic (`wrap16`), 8-bit wrapping arithmetic (`wrap8`), little-endian
//! word assembly (`word`), the stack page mapping (`stack_addr`), and the
//! packed status byte layout (`status_byte` / `flags_from_byte`).

use vstd::prelude::*;

use crate::bus::BusOp;
use crate::bus::MemoryBank;
use crate::bus::MemoryBus;
use crate::cpu::branching_instructions::branch_if_carry_clear;
use crate::cpu::branching_instructions::branch_if_carry_set;
use crate::cpu::branching_instructions::branch_if_equal;
use crate::cpu::branching_instructions::branch_if_minus;
use crate::cpu::branching_instructions::branch_if_not_equal;
use crate::cpu::branching_instructions::branch_if_overflow_clear;
use crate::cpu::branching_instructions::branch_if_overflow_set;
use crate::cpu::branching_instructions::branch_if_positive;
use crate::cpu::branching_instructions::branch_step_post;
use crate::cpu::branching_instructions::break_interrupt;
use crate::cpu::branching_instructions::control_step_post;
use crate::cpu::branching_instructions::is_control_opcode;
use crate::cpu::branching_instructions::jmp_absolute;
use crate::cpu::branching_instructions::jmp_indirect;
use crate::cpu::branching_instructions::jump_to_subroutine;
use crate::cpu::branching_instructions::return_from_interrupt;
use crate::cpu::branching_instructions::return_from_subroutine;
use crate::cpu::opcode_modes::addressing_mode_spec;
use crate::cpu::opcode_modes::get_addressing_mode;
use crate::cpu::opcode_modes::instruction_implied;
use crate::cpu::opcode_modes::instruction_length_spec;
use crate::cpu::opcode_modes::instruction_read;
use crate::cpu::opcode_modes::instruction_read_move_write;
use crate::cpu::opcode_modes::instruction_write;
use crate::cpu::opcode_modes::implied_step_post;
use crate::cpu::opcode_modes::is_implied_opcode;
use crate::cpu::opcode_modes::is_read_opcode;
use crate::cpu::opcode_modes::is_rmw_opcode;
use crate::cpu::opcode_modes::is_write_opcode;
use crate::cpu::opcode_modes::read_step_post;
use crate::cpu::opcode_modes::rmw_step_post;
use crate::cpu::opcode_modes::write_step_post;
use crate::cpu::opcode_modes::operand_len;
use crate::cpu::opcode_modes::ImpliedOp;
use crate::cpu::opcode_modes::ReadOp;
use crate::cpu::opcode_modes::RmwOp;
use crate::cpu::opcode_modes::WriteOp;

pub mod arithmetic_instructions;
pub mod branching_instructions;
pub mod inc_dec_instructions;
pub mod logical_instructions;
pub mod opcode_modes;
pub mod stack_instructions;
pub mod status_instructions;
pub mod transfer_load_store_instructions;

verus! {

/// Address of the low byte of the RESET vector.
pub const RESET_VECTOR: u16 = 0xFFFC;
/// Address of the low byte of the IRQ/BRK vector.
pub const IRQ_VECTOR: u16 = 0xFFFE;
/// Base of the fixed stack page: stack addresses are `0x0100 | S`.
pub const STACK_BASE: u16 = 0x100;

pub const CARRY_FLAG: u8 = 1;
pub const ZERO_FLAG: u8 = 2;
pub const INT_DISABLE_FLAG: u8 = 4;
pub const DECIMAL_FLAG: u8 = 8;
pub const BREAK_FLAG: u8 = 16;
pub const UNUSED_FLAG: u8 = 32;
pub const OVERFLOW_FLAG: u8 = 64;
pub const NEGATIVE_FLAG: u8 = 128;

/// The programmer-visible registers.
#[derive(Clone, Copy, PartialEq, Eq, Structural, Debug)]
pub struct MOS6502Registers {
    pub pc: u16,
    pub sp: u8,
    pub ac: u8,
    pub ix: u8,
    pub iy: u8,
}

/// The seven status flags.  The break flag is not a real flag bit in the
/// hardware; it is surfaced in pushed status bytes and kept set by
/// convention when the status register is restored.
#[derive(Clone, Copy, PartialEq, Eq, Structural, Debug)]
pub struct MOS6502Flags {
    pub carry: bool,
    pub zero: bool,
    pub int_disable: bool,
    pub decimal_mode: bool,
    pub break_cmd: bool,
    pub overflow: bool,
    pub negative: bool,
}

/// The error reported when the stepper meets a byte outside the 151
/// documented opcodes.
#[derive(Clone, Copy, PartialEq, Eq, Structural, Debug)]
pub struct IllegalOpcode {
    /// The offending byte.
    pub opcode: u8,
    /// The address it was fetched from.
    pub pc: u16,
}

/// The CPU: registers, flags, the bus it owns, the self-branch trap
/// indicator and a saturating cycle counter.
pub struct MOS6502<M: MemoryBus> {
    pub reg: MOS6502Registers,
    pub flags: MOS6502Flags,
    pub bus: M,
    pub trapped: bool,
    pub cycles: u64,
}

/// 16-bit wrap-around of a mathematical integer.
pub open spec fn wrap16(n: int) -> u16 {
    (n % 0x10000) as u16
}

/// 8-bit wrap-around of a mathematical integer.
pub open spec fn wrap8(n: int) -> u8 {
    (n % 0x100) as u8
}

/// Little-endian assembly of two bytes into a word.
pub open spec fn word(lo: u8, hi: u8) -> u16 {
    (lo + hi * 0x100) as u16
}

/// The low byte of a word.
pub open spec fn lo_byte(w: u16) -> u8 {
    (w % 0x100) as u8
}

/// The high byte of a word.
pub open spec fn hi_byte(w: u16) -> u8 {
    (w / 0x100) as u8
}

/// The stack lives in page one: the effective address of stack slot `sp`.
pub open spec fn stack_addr(sp: u8) -> u16 {
    (STACK_BASE + sp) as u16
}

/// The byte of a memory image at a 16-bit address.
pub open spec fn mem_at(mem: Seq<u8>, addr: u16) -> u8 {
    mem[addr as int]
}

/// Two addresses lie in the same 256-byte page when their high bytes agree.
pub open spec fn same_page_spec(addr1: u16, addr2: u16) -> bool {
    addr1 / 0x100 == addr2 / 0x100
}

/// The address touched by the dummy read of a page-crossing indexed access:
/// the high byte of the base with the low byte of the target.
pub open spec fn cross_addr(base: u16, target: u16) -> u16 {
    ((base / 0x100) * 0x100 + target % 0x100) as u16
}

/// A read transaction, as recorded in the bus log.
pub open spec fn rd(addr: u16, value: u8) -> BusOp {
    BusOp::Read { addr, value }
}

/// A write transaction, as recorded in the bus log.
pub open spec fn wr(addr: u16, value: u8) -> BusOp {
    BusOp::Write { addr, value }
}

/// The mask contribution of one flag to the packed status byte.
pub open spec fn flag_bit(b: bool, mask: u8) -> u8 {
    if b {
        mask
    } else {
        0
    }
}

/// The status byte as pushed by PHP and BRK: bit 5 (unused) and bit 4
/// (break) are both set in the pushed value.
pub open spec fn status_byte(flags: MOS6502Flags) -> u8 {
    (flag_bit(flags.carry, CARRY_FLAG) + flag_bit(flags.zero, ZERO_FLAG) + flag_bit(
        flags.int_disable,
        INT_DISABLE_FLAG,
    ) + flag_bit(flags.decimal_mode, DECIMAL_FLAG) + BREAK_FLAG + UNUSED_FLAG + flag_bit(
        flags.overflow,
        OVERFLOW_FLAG,
    ) + flag_bit(flags.negative, NEGATIVE_FLAG)) as u8
}

/// The flags restored from a status byte by PLP and RTI: bits 5 and 4 of
/// the byte are ignored and the internal break flag is set by convention.
pub open spec fn flags_from_byte(value: u8) -> MOS6502Flags {
    MOS6502Flags {
        carry: value & CARRY_FLAG != 0,
        zero: value & ZERO_FLAG != 0,
        int_disable: value & INT_DISABLE_FLAG != 0,
        decimal_mode: value & DECIMAL_FLAG != 0,
        break_cmd: true,
        overflow: value & OVERFLOW_FLAG != 0,
        negative: value & NEGATIVE_FLAG != 0,
    }
}

/// The zero and negative flags updated from a result byte, all other flags
/// kept.
pub open spec fn flags_with_zn(flags: MOS6502Flags, value: u8) -> MOS6502Flags {
    MOS6502Flags { zero: value == 0, negative: value & 0x80 != 0, ..flags }
}

/// Whether two addresses share a page.
pub fn same_page(addr1: u16, addr2: u16) -> (result: bool)
    ensures
        result == same_page_spec(addr1, addr2),
{
    addr1 / 0x100 == addr2 / 0x100
}

impl<M: MemoryBus> MOS6502<M> {
    /// The memory image behind the bus.
    pub open spec fn mem(&self) -> Seq<u8> {
        self.bus.mem()
    }

    /// The bus transaction log.
    pub open spec fn log(&self) -> Seq<BusOp> {
        self.bus.log()
    }

    /// The CPU is well-formed when its bus is.
    pub open spec fn wf(&self) -> bool {
        self.bus.inv()
    }

    /// Construct a CPU in the documented post-power-on state: stack pointer
    /// at the top of the stack page, all registers zero, all flags clear.
    pub fn new(memory: M) -> (result: MOS6502<M>)
        requires
            memory.inv(),
        ensures
            result.wf(),
            result.reg == (MOS6502Registers { pc: 0, sp: 0xFF, ac: 0, ix: 0, iy: 0 }),
            result.flags == (MOS6502Flags {
                carry: false,
                zero: false,
                int_disable: false,
                decimal_mode: false,
                break_cmd: false,
                overflow: false,
                negative: false,
            }),
            result.bus == memory,
            !result.trapped,
            result.cycles == 0,
    {
        MOS6502 {
            reg: MOS6502Registers { pc: 0, sp: 0xFF, ac: 0, ix: 0, iy: 0 },
            flags: MOS6502Flags {
                carry: false,
                zero: false,
                int_disable: false,
                decimal_mode: false,
                break_cmd: false,
                overflow: false,
                negative: false,
            },
            bus: memory,
            trapped: false,
            cycles: 0,
        }
    }

    /// True iff a self-branch halt was detected.
    pub fn is_trapped(&mut self) -> (result: bool)
        ensures
            result == old(self).trapped,
            *final(self) == *old(self),
    {
        self.trapped
    }

    /// Record that a self-branch halt was detected.
    pub fn trapped(&mut self)
        ensures
            final(self).trapped,
            final(self).reg == old(self).reg,
            final(self).flags == old(self).flags,
            final(self).bus == old(self).bus,
            final(self).cycles == old(self).cycles,
    {
        self.trapped = true;
    }

    /// Force the program counter, clearing any pending trap.
    pub fn set_pc(&mut self, address: u16)
        ensures
            final(self).reg == (MOS6502Registers { pc: address, ..old(self).reg }),
            final(self).flags == old(self).flags,
            final(self).bus == old(self).bus,
            !final(self).trapped,
            final(self).cycles == old(self).cycles,
    {
        self.trapped = false;
        self.reg.pc = address;
    }

    /// One clock cycle: bump the (saturating) cycle counter.  A host that
    /// wants wall-clock pacing throttles between steps instead.
    pub fn tick(&mut self)
        ensures
            final(self).cycles == if old(self).cycles == u64::MAX {
                u64::MAX
            } else {
                (old(self).cycles + 1) as u64
            },
            final(self).reg == old(self).reg,
            final(self).flags == old(self).flags,
            final(self).bus == old(self).bus,
            final(self).trapped == old(self).trapped,
    {
        if self.cycles < u64::MAX {
            self.cycles = self.cycles + 1;
        }
    }

    /// One bus read, through the owned bus.
    pub fn read(&mut self, address: u16) -> (value: u8)
        requires
            old(self).wf(),
        ensures
            final(self).wf(),
            final(self).mem() == old(self).mem(),
            value == mem_at(old(self).mem(), address),
            final(self).log() == old(self).log().push(rd(address, value)),
            final(self).reg == old(self).reg,
            final(self).flags == old(self).flags,
            final(self).trapped == old(self).trapped,
            final(self).cycles == old(self).cycles,
    {
        self.bus.read(address)
    }

    /// One bus write, through the owned bus.
    pub fn write(&mut self, address: u16, value: u8)
        requires
            old(self).wf(),
        ensures
            final(self).wf(),
            final(self).mem() == old(self).mem().update(address as int, value),
            final(self).log() == old(self).log().push(wr(address, value)),
            final(self).reg == old(self).reg,
            final(self).flags == old(self).flags,
            final(self).trapped == old(self).trapped,
            final(self).cycles == old(self).cycles,
    {
        self.bus.write(address, value)
    }

    /// Read the byte the stack pointer rests on, without moving it.
    pub fn stack_peek(&mut self) -> (value: u8)
        requires
            old(self).wf(),
        ensures
            final(self).wf(),
            final(self).mem() == old(self).mem(),
            value == mem_at(old(self).mem(), stack_addr(old(self).reg.sp)),
            final(self).log() == old(self).log().push(rd(stack_addr(old(self).reg.sp), value)),
            final(self).reg == old(self).reg,
            final(self).flags == old(self).flags,
            final(self).trapped == old(self).trapped,
            final(self).cycles == old(self).cycles,
    {
        let addr = STACK_BASE + self.reg.sp as u16;
        self.read(addr)
    }

    /// Write a byte to the slot the stack pointer rests on, without moving
    /// it.
    pub fn stack_write(&mut self, value: u8)
        requires
            old(self).wf(),
        ensures
            final(self).wf(),
            final(self).mem() == old(self).mem().update(
                stack_addr(old(self).reg.sp) as int,
                value,
            ),
            final(self).log() == old(self).log().push(wr(stack_addr(old(self).reg.sp), value)),
            final(self).reg == old(self).reg,
            final(self).flags == old(self).flags,
            final(self).trapped == old(self).trapped,
            final(self).cycles == old(self).cycles,
    {
        let addr = STACK_BASE + self.reg.sp as u16;
        self.write(addr, value)
    }

    /// Move the stack pointer past a popped slot without a bus access.
    pub fn stack_pop_no_read(&mut self)
        ensures
            final(self).reg == (MOS6502Registers {
                sp: wrap8(old(self).reg.sp + 1),
                ..old(self).reg
            }),
            final(self).flags == old(self).flags,
            final(self).bus == old(self).bus,
            final(self).trapped == old(self).trapped,
            final(self).cycles == old(self).cycles,
    {
        self.reg.sp = self.reg.sp.wrapping_add(1);
    }

    /// Move the stack pointer past a pushed slot without a bus access.
    pub fn stack_push_no_read(&mut self)
        ensures
            final(self).reg == (MOS6502Registers {
                sp: wrap8(old(self).reg.sp - 1),
                ..old(self).reg
            }),
            final(self).flags == old(self).flags,
            final(self).bus == old(self).bus,
            final(self).trapped == old(self).trapped,
            final(self).cycles == old(self).cycles,
    {
        self.reg.sp = self.reg.sp.wrapping_sub(1);
    }

    /// Push one byte: write at the current slot, then decrement the stack
    /// pointer with 8-bit wrap.
    pub fn stack_push(&mut self, value: u8)
        requires
            old(self).wf(),
        ensures
            final(self).wf(),
            final(self).mem() == old(self).mem().update(
                stack_addr(old(self).reg.sp) as int,
                value,
            ),
            final(self).log() == old(self).log().push(wr(stack_addr(old(self).reg.sp), value)),
            final(self).reg == (MOS6502Registers {
                sp: wrap8(old(self).reg.sp - 1),
                ..old(self).reg
            }),
            final(self).flags == old(self).flags,
            final(self).trapped == old(self).trapped,
            final(self).cycles == old(self).cycles,
    {
        let addr = STACK_BASE + self.reg.sp as u16;
        self.write(addr, value);
        self.reg.sp = self.reg.sp.wrapping_sub(1);
    }

    /// Pop one byte: increment the stack pointer with 8-bit wrap, then read
    /// the slot it lands on.
    pub fn stack_pop(&mut self) -> (value: u8)
        requires
            old(self).wf(),
        ensures
            final(self).wf(),
            final(self).mem() == old(self).mem(),
            value == mem_at(old(self).mem(), stack_addr(wrap8(old(self).reg.sp + 1))),
            final(self).log() == old(self).log().push(
                rd(stack_addr(wrap8(old(self).reg.sp + 1)), value),
            ),
            final(self).reg == (MOS6502Registers {
                sp: wrap8(old(self).reg.sp + 1),
                ..old(self).reg
            }),
            final(self).flags == old(self).flags,
            final(self).trapped == old(self).trapped,
            final(self).cycles == old(self).cycles,
    {
        self.reg.sp = self.reg.sp.wrapping_add(1);
        let addr = STACK_BASE + self.reg.sp as u16;
        self.read(addr)
    }

    /// The RESET sequence: the stack pointer and interrupt-disable flag are
    /// forced and the program counter is loaded from the little-endian
    /// RESET vector at 0xFFFC/0xFFFD.  Nothing is pushed.
    pub fn reset(&mut self)
        requires
            old(self).wf(),
        ensures
            final(self).wf(),
            final(self).mem() == old(self).mem(),
            final(self).reg == (MOS6502Registers {
                pc: word(
                    mem_at(old(self).mem(), RESET_VECTOR),
                    mem_at(old(self).mem(), (RESET_VECTOR + 1) as u16),
                ),
                sp: 0,
                ..old(self).reg
            }),
            final(self).log() == old(self).log().push(
                rd(RESET_VECTOR, mem_at(old(self).mem(), RESET_VECTOR)),
            ).push(
                rd((RESET_VECTOR + 1) as u16, mem_at(old(self).mem(), (RESET_VECTOR + 1) as u16)),
            ),
            final(self).flags == (MOS6502Flags { int_disable: true, ..old(self).flags }),
            final(self).trapped == old(self).trapped,
    {
        self.reg.sp = 0x00;
        let lo = self.read(RESET_VECTOR);
        let hi = self.read(RESET_VECTOR + 1);
        self.reg.pc = lo as u16 + (hi as u16) * 0x100;
        self.flags.int_disable = true;
    }

    /// Push the packed status byte, with the break and unused bits set, as
    /// PHP and BRK do.
    pub fn push_processor_status(&mut self)
        requires
            old(self).wf(),
        ensures
            final(self).wf(),
            final(self).mem() == old(self).mem().update(
                stack_addr(old(self).reg.sp) as int,
                status_byte(old(self).flags),
            ),
            final(self).log() == old(self).log().push(
                wr(stack_addr(old(self).reg.sp), status_byte(old(self).flags)),
            ),
            final(self).reg == (MOS6502Registers {
                sp: wrap8(old(self).reg.sp - 1),
                ..old(self).reg
            }),
            final(self).flags == old(self).flags,
            final(self).trapped == old(self).trapped,
    {
        let mut value: u8 = UNUSED_FLAG + BREAK_FLAG;
        if self.flags.carry {
            value = value + CARRY_FLAG;
        }
        if self.flags.zero {
            value = value + ZERO_FLAG;
        }
        if self.flags.int_disable {
            value = value + INT_DISABLE_FLAG;
        }
        if self.flags.decimal_mode {
            value = value + DECIMAL_FLAG;
        }
        if self.flags.overflow {
            value = value + OVERFLOW_FLAG;
        }
        if self.flags.negative {
            value = value + NEGATIVE_FLAG;
        }
        assert(value == status_byte(self.flags));
        self.stack_push(value);
    }

    /// Restore the flags from a status byte: bits 5 and 4 are ignored, the
    /// internal break flag is set by convention.
    pub fn set_proccessor_status(&mut self, value: u8)
        ensures
            final(self).flags == flags_from_byte(value),
            final(self).reg == old(self).reg,
            final(self).bus == old(self).bus,
            final(self).trapped == old(self).trapped,
            final(self).cycles == old(self).cycles,
    {
        self.flags.carry = value & CARRY_FLAG != 0;
        self.flags.zero = value & ZERO_FLAG != 0;
        self.flags.int_disable = value & INT_DISABLE_FLAG != 0;
        self.flags.decimal_mode = value & DECIMAL_FLAG != 0;
        self.flags.break_cmd = true;
        self.flags.overflow = value & OVERFLOW_FLAG != 0;
        self.flags.negative = value & NEGATIVE_FLAG != 0;
    }

    /// Update the zero and negative flags from a result byte.
    pub fn set_zn(&mut self, value: u8)
        ensures
            final(self).flags == flags_with_zn(old(self).flags, value),
            final(self).reg == old(self).reg,
            final(self).bus == old(self).bus,
            final(self).trapped == old(self).trapped,
            final(self).cycles == old(self).cycles,
    {
        self.flags.zero = value == 0;
        self.flags.negative = (value & 0x80) != 0;
    }
}

/// Pushing the status register and restoring it from the pushed byte
/// preserves the carry, zero, interrupt-disable, decimal, overflow and
/// negative flags; the break flag comes back set by convention.
pub proof fn lemma_status_byte_round_trip(flags: MOS6502Flags)
    ensures
        flags_from_byte(status_byte(flags)) == (MOS6502Flags { break_cmd: true, ..flags }),
{
    let c: u8 = if flags.carry {
        1
    } else {
        0
    };
    let z: u8 = if flags.zero {
        1
    } else {
        0
    };
    let i: u8 = if flags.int_disable {
        1
    } else {
        0
    };
    let d: u8 = if flags.decimal_mode {
        1
    } else {
        0
    };
    let v: u8 = if flags.overflow {
        1
    } else {
        0
    };
    let n: u8 = if flags.negative {
        1
    } else {
        0
    };
    let s = status_byte(flags);
    assert(s == (c + 2 * z + 4 * i + 8 * d + 16 + 32 + 64 * v + 128 * n) as u8);
    lemma_status_bits(c, z, i, d, v, n);
}

/// Bit-level fact behind the status-byte round trip: each flag can be read
/// back from the packed byte with its mask.
proof fn lemma_status_bits(c: u8, z: u8, i: u8, d: u8, v: u8, n: u8)
    by (bit_vector)
    requires
        c < 2,
        z < 2,
        i < 2,
        d < 2,
        v < 2,
        n < 2,
    ensures
        ({
            let s = (c + 2 * z + 4 * i + 8 * d + 16 + 32 + 64 * v + 128 * n) as u8;
            &&& (s & 1 != 0) == (c == 1)
            &&& (s & 2 != 0) == (z == 1)
            &&& (s & 4 != 0) == (i == 1)
            &&& (s & 8 != 0) == (d == 1)
            &&& (s & 64 != 0) == (v == 1)
            &&& (s & 128 != 0) == (n == 1)
        }),
{
}

/// Wrapping an already wrapped byte value composes: adding to a wrapped
/// byte and wrapping again equals wrapping the whole sum.
pub proof fn lemma_wrap8_compose(n: int, k: int)
    ensures
        wrap8(wrap8(n) + k) == wrap8(n + k),
{
    vstd::arithmetic::div_mod::lemma_fundamental_div_mod(n, 0x100);
    vstd::arithmetic::div_mod::lemma_mod_multiples_vanish(n / 0x100, n % 0x100 + k, 0x100);
}

/// Wrapping an already wrapped word value composes: adding to a wrapped
/// word and wrapping again equals wrapping the whole sum.
pub proof fn lemma_wrap16_compose(n: int, k: int)
    ensures
        wrap16(wrap16(n) + k) == wrap16(n + k),
{
    vstd::arithmetic::div_mod::lemma_fundamental_div_mod(n, 0x10000);
    vstd::arithmetic::div_mod::lemma_mod_multiples_vanish(n / 0x10000, n % 0x10000 + k, 0x10000);
}

/// After any step the registers lie in their architectural ranges: the
/// 8-bit registers in 0..=255 and the program counter in 0..=65535.
pub proof fn lemma_registers_bounded(reg: MOS6502Registers)
    ensures
        0 <= reg.sp <= 0xFF,
        0 <= reg.ac <= 0xFF,
        0 <= reg.ix <= 0xFF,
        0 <= reg.iy <= 0xFF,
        0 <= reg.pc <= 0xFFFF,
{
}

/// The 151 documented opcodes.
pub open spec fn is_legal_opcode(opcode: u8) -> bool {
    match opcode {
        0x00 | 0x40 | 0xEA | 0x4C | 0x6C | 0x20 | 0x60 => true,
        0x29 | 0x25 | 0x35 | 0x2D | 0x3D | 0x39 | 0x21 | 0x31 => true,
        0x49 | 0x45 | 0x55 | 0x4D | 0x5D | 0x59 | 0x41 | 0x51 => true,
        0x09 | 0x05 | 0x15 | 0x0D | 0x1D | 0x19 | 0x01 | 0x11 => true,
        0x24 | 0x2C => true,
        0x0A | 0x06 | 0x16 | 0x0E | 0x1E => true,
        0x4A | 0x46 | 0x56 | 0x4E | 0x5E => true,
        0x2A | 0x26 | 0x36 | 0x2E | 0x3E => true,
        0x6A | 0x66 | 0x76 | 0x6E | 0x7E => true,
        0x69 | 0x65 | 0x75 | 0x6D | 0x7D | 0x79 | 0x61 | 0x71 => true,
        0xE9 | 0xE5 | 0xF5 | 0xED | 0xFD | 0xF9 | 0xE1 | 0xF1 => true,
        0xC9 | 0xC5 | 0xD5 | 0xCD | 0xDD | 0xD9 | 0xC1 | 0xD1 => true,
        0xE0 | 0xE4 | 0xEC => true,
        0xC0 | 0xC4 | 0xCC => true,
        0xE6 | 0xF6 | 0xEE | 0xFE | 0xE8 | 0xC8 => true,
        0xC6 | 0xD6 | 0xCE | 0xDE | 0xCA | 0x88 => true,
        0xA9 | 0xA5 | 0xB5 | 0xAD | 0xBD | 0xB9 | 0xA1 | 0xB1 => true,
        0xA2 | 0xA6 | 0xB6 | 0xAE | 0xBE => true,
        0xA0 | 0xA4 | 0xB4 | 0xAC | 0xBC => true,
        0x85 | 0x95 | 0x8D | 0x9D | 0x99 | 0x81 | 0x91 => true,
        0x86 | 0x96 | 0x8E => true,
        0x84 | 0x94 | 0x8C => true,
        0xAA | 0xA8 | 0x8A | 0x98 => true,
        0x90 | 0xB0 | 0xF0 | 0xD0 | 0x30 | 0x10 | 0x50 | 0x70 => true,
        0xBA | 0x9A | 0x48 | 0x08 | 0x68 | 0x28 => true,
        0x18 | 0xD8 | 0x58 | 0xB8 | 0x38 | 0xF8 | 0x78 => true,
        _ => false,
    }
}

/// The eight conditional branch opcodes.
pub open spec fn is_branch_opcode(opcode: u8) -> bool {
    opcode == 0x90 || opcode == 0xB0 || opcode == 0xF0 || opcode == 0xD0 || opcode == 0x30
        || opcode == 0x10 || opcode == 0x50 || opcode == 0x70
}

/// Whether a branch opcode's predicate holds under the given flags.
pub open spec fn branch_taken_spec(opcode: u8, flags: MOS6502Flags) -> bool {
    match opcode {
        0x90 => !flags.carry,
        0xB0 => flags.carry,
        0xF0 => flags.zero,
        0xD0 => !flags.zero,
        0x30 => flags.negative,
        0x10 => !flags.negative,
        0x50 => !flags.overflow,
        0x70 => flags.overflow,
        _ => false,
    }
}

/// Whether the instruction redirects control flow: jumps, calls, returns,
/// BRK, and branches whose predicate holds.
pub open spec fn changes_flow(opcode: u8, flags: MOS6502Flags) -> bool {
    ||| opcode == 0x00
    ||| opcode == 0x20
    ||| opcode == 0x40
    ||| opcode == 0x4C
    ||| opcode == 0x60
    ||| opcode == 0x6C
    ||| (is_branch_opcode(opcode) && branch_taken_spec(opcode, flags))
}

/// The opcodes whose instruction writes memory: the stores, the memory
/// read-modify-writes, the pushes, JSR and BRK.
pub open spec fn writes_memory(opcode: u8) -> bool {
    match opcode {
        0x85 | 0x95 | 0x8D | 0x9D | 0x99 | 0x81 | 0x91 => true,
        0x86 | 0x96 | 0x8E | 0x84 | 0x94 | 0x8C => true,
        0x06 | 0x16 | 0x0E | 0x1E | 0x46 | 0x56 | 0x4E | 0x5E => true,
        0x26 | 0x36 | 0x2E | 0x3E | 0x66 | 0x76 | 0x6E | 0x7E => true,
        0xE6 | 0xF6 | 0xEE | 0xFE | 0xC6 | 0xD6 | 0xCE | 0xDE => true,
        0x48 | 0x08 | 0x20 | 0x00 => true,
        _ => false,
    }
}

impl<M: MemoryBus> MOS6502<M> {
    /// Execute exactly one instruction, with all its bus cycles.
    ///
    /// A byte outside the 151 documented opcodes is reported, with its
    /// address, after only the fetch itself has happened.  For a legal
    /// opcode the program counter advances by the instruction's documented
    /// length unless control flow was redirected; a JMP lands exactly on
    /// its operand target (page-wrap bug included for the indirect form)
    /// and a taken branch exactly on its relative target, trapping on a
    /// branch or jump to the instruction itself.  Instructions outside the
    /// store, read-modify-write, push and call groups leave memory
    /// untouched.  The per-instruction contracts pin down the rest.
    pub fn step(&mut self) -> (result: Result<(), IllegalOpcode>)
        requires
            old(self).wf(),
        ensures
            final(self).wf(),
            ({
                let mem = old(self).mem();
                let pc0 = old(self).reg.pc;
                let opcode = mem_at(mem, pc0);
                match result {
                    Ok(()) => {
                        &&& is_legal_opcode(opcode)
                        &&& (!changes_flow(opcode, old(self).flags) ==> final(self).reg.pc
                            == wrap16(pc0 + instruction_length_spec(addressing_mode_spec(opcode))))
                        &&& (!writes_memory(opcode) ==> final(self).mem() == mem)
                        &&& (is_read_opcode(opcode) ==> read_step_post(
                            opcode,
                            *old(self),
                            *final(self),
                        ))
                        &&& (is_write_opcode(opcode) ==> write_step_post(
                            opcode,
                            *old(self),
                            *final(self),
                        ))
                        &&& (is_rmw_opcode(opcode) ==> rmw_step_post(
                            opcode,
                            *old(self),
                            *final(self),
                        ))
                        &&& (is_implied_opcode(opcode) ==> implied_step_post(
                            opcode,
                            *old(self),
                            *final(self),
                        ))
                        &&& (is_branch_opcode(opcode) ==> branch_step_post(
                            opcode,
                            *old(self),
                            *final(self),
                        ))
                        &&& (is_control_opcode(opcode) ==> control_step_post(
                            opcode,
                            *old(self),
                            *final(self),
                        ))
                    },
                    Err(e) => {
                        &&& !is_legal_opcode(opcode)
                        &&& e.opcode == opcode
                        &&& e.pc == pc0
                        &&& final(self).reg == (MOS6502Registers { pc: wrap16(pc0 + 1), ..old(self).reg })
                        &&& final(self).mem() == mem
                        &&& final(self).log() == old(self).log().push(rd(pc0, opcode))
                        &&& final(self).flags == old(self).flags
                        &&& final(self).trapped == old(self).trapped
                    },
                }
            }),
    {
        let ghost pre = *self;
        let pc0 = self.reg.pc;
        let opcode: u8 = self.read(pc0);
        self.reg.pc = self.reg.pc.wrapping_add(1);
        self.tick();

        let mode = get_addressing_mode(opcode);
        match opcode {
            0x00 => break_interrupt(self),
            0x40 => return_from_interrupt(self),
            0xEA => instruction_implied(self, ImpliedOp::Nop),
            // Logical
            0x29 | 0x25 | 0x35 | 0x2D | 0x3D | 0x39 | 0x21 | 0x31 => {
                instruction_read(self, mode, ReadOp::LogicalAnd)
            },
            0x49 | 0x45 | 0x55 | 0x4D | 0x5D | 0x59 | 0x41 | 0x51 => {
                instruction_read(self, mode, ReadOp::LogicalExclusiveOr)
            },
            0x09 | 0x05 | 0x15 | 0x0D | 0x1D | 0x19 | 0x01 | 0x11 => {
                instruction_read(self, mode, ReadOp::LogicalInclusiveOr)
            },
            0x24 | 0x2C => instruction_read(self, mode, ReadOp::LogicalBitTest),
            // Shifts
            0x0A | 0x06 | 0x16 | 0x0E | 0x1E => {
                instruction_read_move_write(self, mode, RmwOp::ShiftLeft)
            },
            0x4A | 0x46 | 0x56 | 0x4E | 0x5E => {
                instruction_read_move_write(self, mode, RmwOp::ShiftRight)
            },
            0x2A | 0x26 | 0x36 | 0x2E | 0x3E => {
                instruction_read_move_write(self, mode, RmwOp::RotateLeft)
            },
            0x6A | 0x66 | 0x76 | 0x6E | 0x7E => {
                instruction_read_move_write(self, mode, RmwOp::RotateRight)
            },
            // Arithmetic
            0x69 | 0x65 | 0x75 | 0x6D | 0x7D | 0x79 | 0x61 | 0x71 => {
                instruction_read(self, mode, ReadOp::AddWithCarry)
            },
            0xE9 | 0xE5 | 0xF5 | 0xED | 0xFD | 0xF9 | 0xE1 | 0xF1 => {
                instruction_read(self, mode, ReadOp::SubWithCarry)
            },
            0xC9 | 0xC5 | 0xD5 | 0xCD | 0xDD | 0xD9 | 0xC1 | 0xD1 => {
                instruction_read(self, mode, ReadOp::CompareAc)
            },
            0xE0 | 0xE4 | 0xEC => instruction_read(self, mode, ReadOp::CompareIx),
            0xC0 | 0xC4 | 0xCC => instruction_read(self, mode, ReadOp::CompareIy),
            // Increments and decrements
            0xE6 | 0xF6 | 0xEE | 0xFE => instruction_read_move_write(self, mode, RmwOp::IncMemory),
            0xE8 => instruction_implied(self, ImpliedOp::IncIx),
            0xC8 => instruction_implied(self, ImpliedOp::IncIy),
            0xC6 | 0xD6 | 0xCE | 0xDE => instruction_read_move_write(self, mode, RmwOp::DecMemory),
            0xCA => instruction_implied(self, ImpliedOp::DecIx),
            0x88 => instruction_implied(self, ImpliedOp::DecIy),
            // Loads and stores
            0xA9 | 0xA5 | 0xB5 | 0xAD | 0xBD | 0xB9 | 0xA1 | 0xB1 => {
                instruction_read(self, mode, ReadOp::LoadAc)
            },
            0xA2 | 0xA6 | 0xB6 | 0xAE | 0xBE => instruction_read(self, mode, ReadOp::LoadIx),
            0xA0 | 0xA4 | 0xB4 | 0xAC | 0xBC => instruction_read(self, mode, ReadOp::LoadIy),
            0x85 | 0x95 | 0x8D | 0x9D | 0x99 | 0x81 | 0x91 => {
                instruction_write(self, mode, WriteOp::StoreAc)
            },
            0x86 | 0x96 | 0x8E => instruction_write(self, mode, WriteOp::StoreIx),
            0x84 | 0x94 | 0x8C => instruction_write(self, mode, WriteOp::StoreIy),
            // Transfers
            0xAA => instruction_implied(self, ImpliedOp::TransferAcToX),
            0xA8 => instruction_implied(self, ImpliedOp::TransferAcToY),
            0x8A => instruction_implied(self, ImpliedOp::TransferXToAc),
            0x98 => instruction_implied(self, ImpliedOp::TransferYToAc),
            // Jumps and calls
            0x4C => jmp_absolute(self),
            0x6C => jmp_indirect(self),
            0x20 => jump_to_subroutine(self),
            0x60 => return_from_subroutine(self),
            // Branches
            0x90 | 0xB0 | 0xF0 | 0xD0 | 0x30 | 0x10 | 0x50 | 0x70 => {
                let pcb = self.reg.pc;
                let offset = self.read(pcb);
                self.reg.pc = self.reg.pc.wrapping_add(1);
                self.tick();
                match opcode {
                    0x90 => branch_if_carry_clear(self, offset),
                    0xB0 => branch_if_carry_set(self, offset),
                    0xF0 => branch_if_equal(self, offset),
                    0xD0 => branch_if_not_equal(self, offset),
                    0x30 => branch_if_minus(self, offset),
                    0x10 => branch_if_positive(self, offset),
                    0x50 => branch_if_overflow_clear(self, offset),
                    _ => branch_if_overflow_set(self, offset),
                }
            },
            // Stack
            0xBA => instruction_implied(self, ImpliedOp::TransferSpToX),
            0x9A => instruction_implied(self, ImpliedOp::TransferXToSp),
            0x48 => instruction_implied(self, ImpliedOp::PushAc),
            0x08 => instruction_implied(self, ImpliedOp::PushProcessor),
            0x68 => instruction_implied(self, ImpliedOp::PullAc),
            0x28 => instruction_implied(self, ImpliedOp::PullProcessorStatus),
            // Status flags
            0x18 => instruction_implied(self, ImpliedOp::ClearCarry),
            0xD8 => instruction_implied(self, ImpliedOp::ClearDecimal),
            0x58 => instruction_implied(self, ImpliedOp::ClearIntDisable),
            0xB8 => instruction_implied(self, ImpliedOp::ClearOverflow),
            0x38 => instruction_implied(self, ImpliedOp::SetCarry),
            0xF8 => instruction_implied(self, ImpliedOp::SetDecimal),
            0x78 => instruction_implied(self, ImpliedOp::SetIntDisable),
            _ => {
                return Err(IllegalOpcode { opcode, pc: pc0 });
            },
        }
        proof {
            lemma_wrap16_compose(pc0 + 1, operand_len(addressing_mode_spec(opcode)));
            lemma_wrap16_compose(pc0 + 1, 1);
            lemma_wrap16_compose(pc0 + 1, -1);
        }
        Ok(())
    }

    /// Reset into the given entry point and run until the CPU traps on a
    /// self-branch, meets an illegal opcode, or has executed `max_steps`
    /// instructions.  On success the returned flag tells whether the run
    /// ended in a trap (true) or exhausted its budget (false).
    pub fn execute(&mut self, start_address: u16, max_steps: u64) -> (result: Result<
        bool,
        IllegalOpcode,
    >)
        requires
            old(self).wf(),
        ensures
            final(self).wf(),
            result is Ok ==> result->Ok_0 == final(self).trapped,
    {
        self.reset();
        self.reg.pc = start_address;
        let mut remaining = max_steps;
        loop
            invariant
                self.wf(),
            decreases remaining,
        {
            if self.is_trapped() {
                return Ok(true);
            }
            if remaining == 0 {
                return Ok(false);
            }
            remaining = remaining - 1;
            if let Err(e) = self.step() {
                return Err(e);
            }
        }
    }
}

/// Run a whole memory image: reset through its vector and step until the
/// CPU traps, meets an illegal opcode, or has executed `max_steps`
/// instructions.  On success the CPU is returned for the host to inspect;
/// its trap indicator tells whether the run halted or ran out of budget.
pub fn load_and_execute(binary: MemoryBank, max_steps: u64) -> (result: Result<
    MOS6502<MemoryBank>,
    IllegalOpcode,
>)
    requires
        binary.inv(),
    ensures
        result is Ok ==> result->Ok_0.wf(),
{
    let mut context = MOS6502::new(binary);
    context.reset();
    let mut remaining = max_steps;
    loop
        invariant
            context.wf(),
        decreases remaining,
    {
        if context.is_trapped() {
            return Ok(context);
        }
        if remaining == 0 {
            return Ok(context);
        }
        remaining = remaining - 1;
        if let Err(e) = context.step() {
            return Err(e);
        }
    }
}


} // verus!
