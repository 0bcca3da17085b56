//! Addressing modes: classification of opcodes, the per-mode model of
//! effective addresses and bus-transaction sequences, and the dispatchers
//! that run one instruction body through its mode's micro-sequence.

use vstd::prelude::*;

use crate::bus::BusOp;
use crate::bus::MemoryBus;
use crate::cpu::arithmetic_instructions::adc_flags;
use crate::cpu::arithmetic_instructions::adc_result;
use crate::cpu::arithmetic_instructions::add_with_carry;
use crate::cpu::arithmetic_instructions::compare_ac;
use crate::cpu::arithmetic_instructions::compare_flags;
use crate::cpu::arithmetic_instructions::compare_ix;
use crate::cpu::arithmetic_instructions::compare_iy;
use crate::cpu::arithmetic_instructions::sub_with_carry;
use crate::cpu::flags_from_byte;
use crate::cpu::flags_with_zn;
use crate::cpu::logical_instructions::asl_result;
use crate::cpu::logical_instructions::bit_test_flags;
use crate::cpu::logical_instructions::logical_and;
use crate::cpu::logical_instructions::logical_bit_test;
use crate::cpu::logical_instructions::logical_exclusive_or;
use crate::cpu::logical_instructions::logical_inclusive_or;
use crate::cpu::logical_instructions::logical_rotate_left;
use crate::cpu::logical_instructions::logical_rotate_right;
use crate::cpu::logical_instructions::logical_shift_left;
use crate::cpu::logical_instructions::logical_shift_right;
use crate::cpu::logical_instructions::lsr_result;
use crate::cpu::logical_instructions::rol_result;
use crate::cpu::logical_instructions::ror_result;
use crate::cpu::inc_dec_instructions::dec_ix;
use crate::cpu::inc_dec_instructions::dec_iy;
use crate::cpu::inc_dec_instructions::dec_memory;
use crate::cpu::inc_dec_instructions::inc_ix;
use crate::cpu::inc_dec_instructions::inc_iy;
use crate::cpu::inc_dec_instructions::inc_memory;
use crate::cpu::mem_at;
use crate::cpu::rd;
use crate::cpu::same_page_spec;
use crate::cpu::stack_addr;
use crate::cpu::stack_instructions::pull_ac;
use crate::cpu::stack_instructions::pull_processor_status;
use crate::cpu::stack_instructions::push_ac;
use crate::cpu::stack_instructions::push_processor;
use crate::cpu::stack_instructions::transfer_sp_to_x;
use crate::cpu::stack_instructions::transfer_x_to_sp;
use crate::cpu::status_byte;
use crate::cpu::status_instructions::clear_carry;
use crate::cpu::status_instructions::clear_decimal;
use crate::cpu::status_instructions::clear_int_disable;
use crate::cpu::status_instructions::clear_overflow;
use crate::cpu::status_instructions::set_carry;
use crate::cpu::status_instructions::set_decimal;
use crate::cpu::status_instructions::set_int_disable;
use crate::cpu::transfer_load_store_instructions::load_ac;
use crate::cpu::transfer_load_store_instructions::load_ix;
use crate::cpu::transfer_load_store_instructions::load_iy;
use crate::cpu::transfer_load_store_instructions::store_ac;
use crate::cpu::transfer_load_store_instructions::store_ix;
use crate::cpu::transfer_load_store_instructions::store_iy;
use crate::cpu::transfer_load_store_instructions::transfer_ac_to_x;
use crate::cpu::transfer_load_store_instructions::transfer_ac_to_y;
use crate::cpu::transfer_load_store_instructions::transfer_x_to_ac;
use crate::cpu::transfer_load_store_instructions::transfer_y_to_ac;
use crate::cpu::word;
use crate::cpu::wr;
use crate::cpu::wrap16;
use crate::cpu::wrap8;
use crate::cpu::MOS6502;
use crate::cpu::MOS6502Flags;
use crate::cpu::MOS6502Registers;

pub mod absolute;
pub mod absolutex;
pub mod absolutey;
pub mod indirectx;
pub mod indirecty;
pub mod readwrite;
pub mod zeropage;
pub mod zeropagex;
pub mod zeropagey;

use absolute::absolute_3read;
use absolute::absolute_3write;
use absolute::absolute_5rmw;
use absolutex::absolutex_3read;
use absolutex::absolutex_4write;
use absolutex::absolutex_6rmw;
use absolutey::absolutey_3read;
use absolutey::absolutey_4write;
use indirectx::indirectx_5read;
use indirectx::indirectx_5write;
use indirecty::indirecty_5read;
use indirecty::indirecty_5write;
use readwrite::ac1_rmw;
use zeropage::zeropage_2read;
use zeropage::zeropage_2write;
use zeropage::zeropage_4rmw;
use zeropagex::zeropagex_3read;
use zeropagex::zeropagex_3write;
use zeropagex::zeropagex_5rmw;
use zeropagey::zeropagey_3read;
use zeropagey::zeropagey_3write;

verus! {

/// The thirteen addressing modes of the documented instruction set.
#[derive(PartialEq, Eq, Structural, Debug, Copy, Clone)]
pub enum AddressingMode {
    Accumulator,
    Immediate,
    Indirect,
    Relative,
    Implied,
    ZeroPage,
    ZeroPageX,
    ZeroPageY,
    Absolute,
    AbsoluteX,
    AbsoluteY,
    IndirectX,
    IndirectY,
}

/// The instruction bodies that consume one operand byte.
#[derive(PartialEq, Eq, Structural, Debug, Copy, Clone)]
pub enum ReadOp {
    AddWithCarry,
    SubWithCarry,
    CompareAc,
    CompareIx,
    CompareIy,
    LogicalAnd,
    LogicalExclusiveOr,
    LogicalInclusiveOr,
    LogicalBitTest,
    LoadAc,
    LoadIx,
    LoadIy,
}

/// The instruction bodies that produce one byte to store.
#[derive(PartialEq, Eq, Structural, Debug, Copy, Clone)]
pub enum WriteOp {
    StoreAc,
    StoreIx,
    StoreIy,
}

/// The read-modify-write instruction bodies.
#[derive(PartialEq, Eq, Structural, Debug, Copy, Clone)]
pub enum RmwOp {
    ShiftLeft,
    ShiftRight,
    RotateLeft,
    RotateRight,
    IncMemory,
    DecMemory,
}

/// The instruction bodies dispatched with implied addressing.
#[derive(PartialEq, Eq, Structural, Debug, Copy, Clone)]
pub enum ImpliedOp {
    TransferAcToX,
    TransferAcToY,
    TransferXToAc,
    TransferYToAc,
    TransferSpToX,
    TransferXToSp,
    IncIx,
    IncIy,
    DecIx,
    DecIy,
    ClearCarry,
    ClearDecimal,
    ClearIntDisable,
    ClearOverflow,
    SetCarry,
    SetDecimal,
    SetIntDisable,
    PushAc,
    PushProcessor,
    PullAc,
    PullProcessorStatus,
    Nop,
}

/// The addressing mode of each documented opcode; `Implied` for the rest.
/// This is the authoritative 151-opcode table.
pub open spec fn addressing_mode_spec(opcode: u8) -> AddressingMode {
    match opcode {
        0x0A | 0x4A | 0x2A | 0x6A => AddressingMode::Accumulator,
        0x69 | 0x29 | 0xC9 | 0xE0 | 0xC0 | 0x49 | 0xA9 | 0xA2 | 0xA0 | 0x09
            | 0xE9 => AddressingMode::Immediate,
        0x6C => AddressingMode::Indirect,
        0x90 | 0xB0 | 0xF0 | 0x30 | 0xD0 | 0x10 | 0x50 | 0x70 => AddressingMode::Relative,
        0x65 | 0x25 | 0x06 | 0x24 | 0xC5 | 0xE4 | 0xC4 | 0xC6 | 0x45 | 0xE6 | 0xA5 | 0xA6 | 0xA4
            | 0x46 | 0x05 | 0x26 | 0x66 | 0xE5 | 0x85 | 0x86 | 0x84 => AddressingMode::ZeroPage,
        0x75 | 0x35 | 0x16 | 0xD5 | 0xD6 | 0x55 | 0xF6 | 0xB5 | 0xB4 | 0x56 | 0x15 | 0x36 | 0x76
            | 0xF5 | 0x95 | 0x94 => AddressingMode::ZeroPageX,
        0xB6 | 0x96 => AddressingMode::ZeroPageY,
        0x6D | 0x2D | 0x0E | 0x2C | 0xCD | 0xEC | 0xCC | 0xCE | 0x4D | 0xEE | 0x4C | 0x20 | 0xAD
            | 0xAE | 0xAC | 0x4E | 0x0D | 0x2E | 0x6E | 0xED | 0x8D | 0x8E
            | 0x8C => AddressingMode::Absolute,
        0x7D | 0x3D | 0x1E | 0xDD | 0xDE | 0x5D | 0xFE | 0xBD | 0xBC | 0x5E | 0x1D | 0x3E | 0x7E
            | 0xFD | 0x9D => AddressingMode::AbsoluteX,
        0x79 | 0x39 | 0xD9 | 0x59 | 0xB9 | 0xBE | 0x19 | 0xF9 | 0x99 => AddressingMode::AbsoluteY,
        0x61 | 0x21 | 0xC1 | 0x41 | 0xA1 | 0x01 | 0xE1 | 0x81 => AddressingMode::IndirectX,
        0x71 | 0x31 | 0xD1 | 0x51 | 0xB1 | 0x11 | 0xF1 | 0x91 => AddressingMode::IndirectY,
        _ => AddressingMode::Implied,
    }
}

/// Classify an opcode into its addressing mode.
pub fn get_addressing_mode(opcode: u8) -> (mode: AddressingMode)
    ensures
        mode == addressing_mode_spec(opcode),
{
    match opcode {
        0x0A | 0x4A | 0x2A | 0x6A => AddressingMode::Accumulator,
        0x69 | 0x29 | 0xC9 | 0xE0 | 0xC0 | 0x49 | 0xA9 | 0xA2 | 0xA0 | 0x09
            | 0xE9 => AddressingMode::Immediate,
        0x6C => AddressingMode::Indirect,
        0x90 | 0xB0 | 0xF0 | 0x30 | 0xD0 | 0x10 | 0x50 | 0x70 => AddressingMode::Relative,
        0x65 | 0x25 | 0x06 | 0x24 | 0xC5 | 0xE4 | 0xC4 | 0xC6 | 0x45 | 0xE6 | 0xA5 | 0xA6 | 0xA4
            | 0x46 | 0x05 | 0x26 | 0x66 | 0xE5 | 0x85 | 0x86 | 0x84 => AddressingMode::ZeroPage,
        0x75 | 0x35 | 0x16 | 0xD5 | 0xD6 | 0x55 | 0xF6 | 0xB5 | 0xB4 | 0x56 | 0x15 | 0x36 | 0x76
            | 0xF5 | 0x95 | 0x94 => AddressingMode::ZeroPageX,
        0xB6 | 0x96 => AddressingMode::ZeroPageY,
        0x6D | 0x2D | 0x0E | 0x2C | 0xCD | 0xEC | 0xCC | 0xCE | 0x4D | 0xEE | 0x4C | 0x20 | 0xAD
            | 0xAE | 0xAC | 0x4E | 0x0D | 0x2E | 0x6E | 0xED | 0x8D | 0x8E
            | 0x8C => AddressingMode::Absolute,
        0x7D | 0x3D | 0x1E | 0xDD | 0xDE | 0x5D | 0xFE | 0xBD | 0xBC | 0x5E | 0x1D | 0x3E | 0x7E
            | 0xFD | 0x9D => AddressingMode::AbsoluteX,
        0x79 | 0x39 | 0xD9 | 0x59 | 0xB9 | 0xBE | 0x19 | 0xF9 | 0x99 => AddressingMode::AbsoluteY,
        0x61 | 0x21 | 0xC1 | 0x41 | 0xA1 | 0x01 | 0xE1 | 0x81 => AddressingMode::IndirectX,
        0x71 | 0x31 | 0xD1 | 0x51 | 0xB1 | 0x11 | 0xF1 | 0x91 => AddressingMode::IndirectY,
        _ => AddressingMode::Implied,
    }
}

/// Number of operand bytes following the opcode byte.
pub open spec fn operand_len(mode: AddressingMode) -> int {
    match mode {
        AddressingMode::Implied | AddressingMode::Accumulator => 0,
        AddressingMode::Immediate | AddressingMode::Relative | AddressingMode::ZeroPage
            | AddressingMode::ZeroPageX | AddressingMode::ZeroPageY | AddressingMode::IndirectX
            | AddressingMode::IndirectY => 1,
        AddressingMode::Absolute | AddressingMode::AbsoluteX | AddressingMode::AbsoluteY
            | AddressingMode::Indirect => 2,
    }
}

/// Total instruction length in bytes: the opcode and its operands.
pub open spec fn instruction_length_spec(mode: AddressingMode) -> int {
    1 + operand_len(mode)
}

/// Length in bytes of an instruction with the given addressing mode.
pub fn instruction_length(mode: AddressingMode) -> (length: usize)
    ensures
        length == instruction_length_spec(mode),
{
    match mode {
        AddressingMode::Implied => 1,
        AddressingMode::Accumulator => 1,
        AddressingMode::Immediate => 2,
        AddressingMode::IndirectX => 2,
        AddressingMode::IndirectY => 2,
        AddressingMode::Relative => 2,
        AddressingMode::ZeroPage => 2,
        AddressingMode::ZeroPageX => 2,
        AddressingMode::ZeroPageY => 2,
        AddressingMode::Absolute => 3,
        AddressingMode::AbsoluteX => 3,
        AddressingMode::AbsoluteY => 3,
        AddressingMode::Indirect => 3,
    }
}

/// The modes a `read` category instruction can carry.
pub open spec fn is_read_mode(mode: AddressingMode) -> bool {
    match mode {
        AddressingMode::Immediate | AddressingMode::Relative | AddressingMode::Absolute
            | AddressingMode::ZeroPage | AddressingMode::ZeroPageX | AddressingMode::ZeroPageY
            | AddressingMode::AbsoluteX | AddressingMode::AbsoluteY | AddressingMode::IndirectX
            | AddressingMode::IndirectY => true,
        _ => false,
    }
}

/// The modes a `write` category instruction can carry.
pub open spec fn is_write_mode(mode: AddressingMode) -> bool {
    match mode {
        AddressingMode::Absolute | AddressingMode::ZeroPage | AddressingMode::ZeroPageX
            | AddressingMode::ZeroPageY | AddressingMode::AbsoluteX | AddressingMode::AbsoluteY
            | AddressingMode::IndirectX | AddressingMode::IndirectY => true,
        _ => false,
    }
}

/// The modes a read-modify-write instruction can carry.
pub open spec fn is_rmw_mode(mode: AddressingMode) -> bool {
    match mode {
        AddressingMode::Accumulator | AddressingMode::ZeroPage | AddressingMode::ZeroPageX
            | AddressingMode::Absolute | AddressingMode::AbsoluteX => true,
        _ => false,
    }
}

/// The 16-bit base address of an absolute operand: the little-endian word
/// at the program counter.
pub open spec fn abs_base(mem: Seq<u8>, pc: u16) -> u16 {
    word(mem_at(mem, pc), mem_at(mem, wrap16(pc + 1)))
}

/// The effective address of an operand, per mode, with `pc` the address of
/// the first operand byte.
pub open spec fn read_ea(mode: AddressingMode, mem: Seq<u8>, pc: u16, x: u8, y: u8) -> u16 {
    match mode {
        AddressingMode::Immediate | AddressingMode::Relative => pc,
        AddressingMode::ZeroPage => mem_at(mem, pc) as u16,
        AddressingMode::ZeroPageX => wrap8(mem_at(mem, pc) + x) as u16,
        AddressingMode::ZeroPageY => wrap8(mem_at(mem, pc) + y) as u16,
        AddressingMode::Absolute => abs_base(mem, pc),
        AddressingMode::AbsoluteX => wrap16(abs_base(mem, pc) + x),
        AddressingMode::AbsoluteY => wrap16(abs_base(mem, pc) + y),
        AddressingMode::IndirectX => {
            let ll = mem_at(mem, pc);
            word(
                mem_at(mem, wrap8(ll + x) as u16),
                mem_at(mem, wrap8(ll + x + 1) as u16),
            )
        },
        AddressingMode::IndirectY => {
            let ll = mem_at(mem, pc);
            wrap16(word(mem_at(mem, ll as u16), mem_at(mem, wrap8(ll + 1) as u16)) + y)
        },
        _ => 0,
    }
}

/// The base address an indexed mode starts from, before the index register
/// is added; equals the effective address for the other modes.
pub open spec fn read_base(mode: AddressingMode, mem: Seq<u8>, pc: u16, x: u8, y: u8) -> u16 {
    match mode {
        AddressingMode::AbsoluteX | AddressingMode::AbsoluteY => abs_base(mem, pc),
        AddressingMode::IndirectY => {
            let ll = mem_at(mem, pc);
            word(mem_at(mem, ll as u16), mem_at(mem, wrap8(ll + 1) as u16))
        },
        _ => read_ea(mode, mem, pc, x, y),
    }
}

/// The exact bus transactions of a `read` instruction after the opcode
/// fetch: operand fetches, pointer fetches, the page-crossing dummy read
/// where one occurs, and the operand read itself.
pub open spec fn read_log(mode: AddressingMode, mem: Seq<u8>, pc: u16, x: u8, y: u8) -> Seq<
    BusOp,
> {
    let ea = read_ea(mode, mem, pc, x, y);
    let base = read_base(mode, mem, pc, x, y);
    let ll = mem_at(mem, pc);
    let m = mem_at(mem, ea);
    match mode {
        AddressingMode::Immediate | AddressingMode::Relative => seq![rd(pc, m)],
        AddressingMode::ZeroPage => seq![rd(pc, ll), rd(ea, m)],
        AddressingMode::ZeroPageX | AddressingMode::ZeroPageY => seq![
            rd(pc, ll),
            rd(ll as u16, mem_at(mem, ll as u16)),
            rd(ea, m),
        ],
        AddressingMode::Absolute => seq![
            rd(pc, ll),
            rd(wrap16(pc + 1), mem_at(mem, wrap16(pc + 1))),
            rd(ea, m),
        ],
        AddressingMode::AbsoluteX | AddressingMode::AbsoluteY => seq![
            rd(pc, ll),
            rd(wrap16(pc + 1), mem_at(mem, wrap16(pc + 1))),
        ] + cross_read(mem, base, ea) + seq![rd(ea, m)],
        AddressingMode::IndirectX => seq![
            rd(pc, ll),
            rd(ll as u16, mem_at(mem, ll as u16)),
            rd(wrap8(ll + x) as u16, mem_at(mem, wrap8(ll + x) as u16)),
            rd(wrap8(ll + x + 1) as u16, mem_at(mem, wrap8(ll + x + 1) as u16)),
            rd(ea, m),
        ],
        AddressingMode::IndirectY => seq![
            rd(pc, ll),
            rd(ll as u16, mem_at(mem, ll as u16)),
            rd(wrap8(ll + 1) as u16, mem_at(mem, wrap8(ll + 1) as u16)),
        ] + cross_read(mem, base, ea) + seq![rd(ea, m)],
        _ => seq![],
    }
}

/// The dummy read an indexed read emits when the index carries into the
/// high address byte: one read in the unfixed page, none otherwise.
pub open spec fn cross_read(mem: Seq<u8>, base: u16, ea: u16) -> Seq<BusOp> {
    if same_page_spec(base, ea) {
        seq![]
    } else {
        seq![rd(crate::cpu::cross_addr(base, ea), mem_at(mem, crate::cpu::cross_addr(base, ea)))]
    }
}

/// The exact bus transactions of a `write` instruction after the opcode
/// fetch.  For the indexed absolute and indirect-Y modes the dummy read is
/// always emitted, at the address formed before the carry is fixed up.
pub open spec fn write_log(
    mode: AddressingMode,
    mem: Seq<u8>,
    pc: u16,
    x: u8,
    y: u8,
    value: u8,
) -> Seq<BusOp> {
    let ea = read_ea(mode, mem, pc, x, y);
    let base = read_base(mode, mem, pc, x, y);
    let ll = mem_at(mem, pc);
    let fix = crate::cpu::cross_addr(base, ea);
    match mode {
        AddressingMode::ZeroPage => seq![rd(pc, ll), wr(ea, value)],
        AddressingMode::ZeroPageX | AddressingMode::ZeroPageY => seq![
            rd(pc, ll),
            rd(ll as u16, mem_at(mem, ll as u16)),
            wr(ea, value),
        ],
        AddressingMode::Absolute => seq![
            rd(pc, ll),
            rd(wrap16(pc + 1), mem_at(mem, wrap16(pc + 1))),
            wr(ea, value),
        ],
        AddressingMode::AbsoluteX | AddressingMode::AbsoluteY => seq![
            rd(pc, ll),
            rd(wrap16(pc + 1), mem_at(mem, wrap16(pc + 1))),
            rd(fix, mem_at(mem, fix)),
            wr(ea, value),
        ],
        AddressingMode::IndirectX => seq![
            rd(pc, ll),
            rd(ll as u16, mem_at(mem, ll as u16)),
            rd(wrap8(ll + x) as u16, mem_at(mem, wrap8(ll + x) as u16)),
            rd(wrap8(ll + x + 1) as u16, mem_at(mem, wrap8(ll + x + 1) as u16)),
            wr(ea, value),
        ],
        AddressingMode::IndirectY => seq![
            rd(pc, ll),
            rd(ll as u16, mem_at(mem, ll as u16)),
            rd(wrap8(ll + 1) as u16, mem_at(mem, wrap8(ll + 1) as u16)),
            rd(fix, mem_at(mem, fix)),
            wr(ea, value),
        ],
        _ => seq![],
    }
}

/// The exact bus transactions of a memory read-modify-write instruction
/// after the opcode fetch: the operand is read once, the original byte is
/// written back, then the transformed byte is written.
pub open spec fn rmw_log(
    mode: AddressingMode,
    mem: Seq<u8>,
    pc: u16,
    x: u8,
    new_value: u8,
) -> Seq<BusOp> {
    let ea = read_ea(mode, mem, pc, x, 0);
    let base = read_base(mode, mem, pc, x, 0);
    let ll = mem_at(mem, pc);
    let m = mem_at(mem, ea);
    let fix = crate::cpu::cross_addr(base, ea);
    match mode {
        AddressingMode::ZeroPage => seq![rd(pc, ll), rd(ea, m), wr(ea, m), wr(ea, new_value)],
        AddressingMode::ZeroPageX => seq![
            rd(pc, ll),
            rd(ll as u16, mem_at(mem, ll as u16)),
            rd(ea, m),
            wr(ea, m),
            wr(ea, new_value),
        ],
        AddressingMode::Absolute => seq![
            rd(pc, ll),
            rd(wrap16(pc + 1), mem_at(mem, wrap16(pc + 1))),
            rd(ea, m),
            wr(ea, m),
            wr(ea, new_value),
        ],
        AddressingMode::AbsoluteX => seq![
            rd(pc, ll),
            rd(wrap16(pc + 1), mem_at(mem, wrap16(pc + 1))),
            rd(fix, mem_at(mem, fix)),
            rd(ea, m),
            wr(ea, m),
            wr(ea, new_value),
        ],
        _ => seq![],
    }
}

/// The register and flag transform of each `read` instruction body, applied
/// to the operand byte.
pub open spec fn apply_read_op(
    op: ReadOp,
    reg: MOS6502Registers,
    flags: MOS6502Flags,
    m: u8,
) -> (MOS6502Registers, MOS6502Flags) {
    match op {
        ReadOp::AddWithCarry => (
            MOS6502Registers { ac: adc_result(reg.ac, m, flags.carry), ..reg },
            adc_flags(reg.ac, m, flags),
        ),
        ReadOp::SubWithCarry => (
            MOS6502Registers { ac: adc_result(reg.ac, m ^ 0xFF, flags.carry), ..reg },
            adc_flags(reg.ac, m ^ 0xFF, flags),
        ),
        ReadOp::CompareAc => (reg, compare_flags(reg.ac, m, flags)),
        ReadOp::CompareIx => (reg, compare_flags(reg.ix, m, flags)),
        ReadOp::CompareIy => (reg, compare_flags(reg.iy, m, flags)),
        ReadOp::LogicalAnd => (
            MOS6502Registers { ac: reg.ac & m, ..reg },
            flags_with_zn(flags, reg.ac & m),
        ),
        ReadOp::LogicalExclusiveOr => (
            MOS6502Registers { ac: reg.ac ^ m, ..reg },
            flags_with_zn(flags, reg.ac ^ m),
        ),
        ReadOp::LogicalInclusiveOr => (
            MOS6502Registers { ac: reg.ac | m, ..reg },
            flags_with_zn(flags, reg.ac | m),
        ),
        ReadOp::LogicalBitTest => (reg, bit_test_flags(reg.ac, m, flags)),
        ReadOp::LoadAc => (MOS6502Registers { ac: m, ..reg }, flags_with_zn(flags, m)),
        ReadOp::LoadIx => (MOS6502Registers { ix: m, ..reg }, flags_with_zn(flags, m)),
        ReadOp::LoadIy => (MOS6502Registers { iy: m, ..reg }, flags_with_zn(flags, m)),
    }
}

/// The byte a `write` instruction body stores.
pub open spec fn write_value(op: WriteOp, reg: MOS6502Registers) -> u8 {
    match op {
        WriteOp::StoreAc => reg.ac,
        WriteOp::StoreIx => reg.ix,
        WriteOp::StoreIy => reg.iy,
    }
}

/// The transformed byte of a read-modify-write instruction body.
pub open spec fn rmw_result(op: RmwOp, m: u8, carry: bool) -> u8 {
    match op {
        RmwOp::ShiftLeft => asl_result(m),
        RmwOp::ShiftRight => lsr_result(m),
        RmwOp::RotateLeft => rol_result(m, carry),
        RmwOp::RotateRight => ror_result(m, carry),
        RmwOp::IncMemory => wrap8(m + 1),
        RmwOp::DecMemory => wrap8(m - 1),
    }
}

/// The flags after a read-modify-write instruction body.
pub open spec fn rmw_flags(op: RmwOp, flags: MOS6502Flags, m: u8) -> MOS6502Flags {
    match op {
        RmwOp::ShiftLeft => flags_with_zn(
            MOS6502Flags { carry: m & 0x80 != 0, ..flags },
            asl_result(m),
        ),
        RmwOp::ShiftRight => flags_with_zn(
            MOS6502Flags { carry: m & 1 != 0, ..flags },
            lsr_result(m),
        ),
        RmwOp::RotateLeft => flags_with_zn(
            MOS6502Flags { carry: m & 0x80 != 0, ..flags },
            rol_result(m, flags.carry),
        ),
        RmwOp::RotateRight => flags_with_zn(
            MOS6502Flags { carry: m & 1 != 0, ..flags },
            ror_result(m, flags.carry),
        ),
        RmwOp::IncMemory => flags_with_zn(flags, wrap8(m + 1)),
        RmwOp::DecMemory => flags_with_zn(flags, wrap8(m - 1)),
    }
}

/// The full effect of an implied instruction body on registers, flags,
/// memory and the log (the log argument already holds the dummy read of
/// the opcode's mode sequence).
pub open spec fn apply_implied(
    op: ImpliedOp,
    reg: MOS6502Registers,
    flags: MOS6502Flags,
    mem: Seq<u8>,
    log: Seq<BusOp>,
) -> (MOS6502Registers, MOS6502Flags, Seq<u8>, Seq<BusOp>) {
    match op {
        ImpliedOp::TransferAcToX => (
            MOS6502Registers { ix: reg.ac, ..reg },
            flags_with_zn(flags, reg.ac),
            mem,
            log,
        ),
        ImpliedOp::TransferAcToY => (
            MOS6502Registers { iy: reg.ac, ..reg },
            flags_with_zn(flags, reg.ac),
            mem,
            log,
        ),
        ImpliedOp::TransferXToAc => (
            MOS6502Registers { ac: reg.ix, ..reg },
            flags_with_zn(flags, reg.ix),
            mem,
            log,
        ),
        ImpliedOp::TransferYToAc => (
            MOS6502Registers { ac: reg.iy, ..reg },
            flags_with_zn(flags, reg.iy),
            mem,
            log,
        ),
        ImpliedOp::TransferSpToX => (
            MOS6502Registers { ix: reg.sp, ..reg },
            flags_with_zn(flags, reg.sp),
            mem,
            log,
        ),
        ImpliedOp::TransferXToSp => (MOS6502Registers { sp: reg.ix, ..reg }, flags, mem, log),
        ImpliedOp::IncIx => (
            MOS6502Registers { ix: wrap8(reg.ix + 1), ..reg },
            flags_with_zn(flags, wrap8(reg.ix + 1)),
            mem,
            log,
        ),
        ImpliedOp::IncIy => (
            MOS6502Registers { iy: wrap8(reg.iy + 1), ..reg },
            flags_with_zn(flags, wrap8(reg.iy + 1)),
            mem,
            log,
        ),
        ImpliedOp::DecIx => (
            MOS6502Registers { ix: wrap8(reg.ix - 1), ..reg },
            flags_with_zn(flags, wrap8(reg.ix - 1)),
            mem,
            log,
        ),
        ImpliedOp::DecIy => (
            MOS6502Registers { iy: wrap8(reg.iy - 1), ..reg },
            flags_with_zn(flags, wrap8(reg.iy - 1)),
            mem,
            log,
        ),
        ImpliedOp::ClearCarry => (reg, MOS6502Flags { carry: false, ..flags }, mem, log),
        ImpliedOp::ClearDecimal => (reg, MOS6502Flags { decimal_mode: false, ..flags }, mem, log),
        ImpliedOp::ClearIntDisable => (
            reg,
            MOS6502Flags { int_disable: false, ..flags },
            mem,
            log,
        ),
        ImpliedOp::ClearOverflow => (reg, MOS6502Flags { overflow: false, ..flags }, mem, log),
        ImpliedOp::SetCarry => (reg, MOS6502Flags { carry: true, ..flags }, mem, log),
        ImpliedOp::SetDecimal => (reg, MOS6502Flags { decimal_mode: true, ..flags }, mem, log),
        ImpliedOp::SetIntDisable => (reg, MOS6502Flags { int_disable: true, ..flags }, mem, log),
        ImpliedOp::PushAc => (
            MOS6502Registers { sp: wrap8(reg.sp - 1), ..reg },
            flags,
            mem.update(stack_addr(reg.sp) as int, reg.ac),
            log.push(wr(stack_addr(reg.sp), reg.ac)),
        ),
        ImpliedOp::PushProcessor => (
            MOS6502Registers { sp: wrap8(reg.sp - 1), ..reg },
            flags,
            mem.update(stack_addr(reg.sp) as int, status_byte(flags)),
            log.push(wr(stack_addr(reg.sp), status_byte(flags))),
        ),
        ImpliedOp::PullAc => (
            MOS6502Registers {
                sp: wrap8(reg.sp + 1),
                ac: mem_at(mem, stack_addr(wrap8(reg.sp + 1))),
                ..reg
            },
            flags_with_zn(flags, mem_at(mem, stack_addr(wrap8(reg.sp + 1)))),
            mem,
            log.push(rd(stack_addr(reg.sp), mem_at(mem, stack_addr(reg.sp)))).push(
                rd(stack_addr(wrap8(reg.sp + 1)), mem_at(mem, stack_addr(wrap8(reg.sp + 1)))),
            ),
        ),
        ImpliedOp::PullProcessorStatus => (
            MOS6502Registers { sp: wrap8(reg.sp + 1), ..reg },
            flags_from_byte(mem_at(mem, stack_addr(wrap8(reg.sp + 1)))),
            mem,
            log.push(rd(stack_addr(reg.sp), mem_at(mem, stack_addr(reg.sp)))).push(
                rd(stack_addr(wrap8(reg.sp + 1)), mem_at(mem, stack_addr(wrap8(reg.sp + 1)))),
            ),
        ),
        ImpliedOp::Nop => (reg, flags, mem, log),
    }
}

/// Everything a `read` instruction guarantees: memory untouched, the mode's
/// exact transaction sequence appended to the log, and the body's transform
/// applied to the operand with the program counter moved past the operand
/// bytes.
pub open spec fn read_mode_post<M: MemoryBus>(
    mode: AddressingMode,
    op: ReadOp,
    pre: MOS6502<M>,
    post: MOS6502<M>,
) -> bool {
    let fetched = MOS6502Registers { pc: wrap16(pre.reg.pc + operand_len(mode)), ..pre.reg };
    let m = mem_at(pre.mem(), read_ea(mode, pre.mem(), pre.reg.pc, pre.reg.ix, pre.reg.iy));
    &&& post.wf()
    &&& post.mem() == pre.mem()
    &&& post.log() == pre.log() + read_log(mode, pre.mem(), pre.reg.pc, pre.reg.ix, pre.reg.iy)
    &&& (post.reg, post.flags) == apply_read_op(op, fetched, pre.flags, m)
    &&& post.trapped == pre.trapped
}

/// Everything a `write` instruction guarantees: the stored register byte
/// lands at the effective address, the mode's exact transaction sequence is
/// appended, flags are untouched.
pub open spec fn write_mode_post<M: MemoryBus>(
    mode: AddressingMode,
    op: WriteOp,
    pre: MOS6502<M>,
    post: MOS6502<M>,
) -> bool {
    let ea = read_ea(mode, pre.mem(), pre.reg.pc, pre.reg.ix, pre.reg.iy);
    let v = write_value(op, pre.reg);
    &&& post.wf()
    &&& post.mem() == pre.mem().update(ea as int, v)
    &&& post.log() == pre.log() + write_log(mode, pre.mem(), pre.reg.pc, pre.reg.ix, pre.reg.iy, v)
    &&& post.reg == (MOS6502Registers { pc: wrap16(pre.reg.pc + operand_len(mode)), ..pre.reg })
    &&& post.flags == pre.flags
    &&& post.trapped == pre.trapped
}

/// Everything a read-modify-write instruction guarantees.  On the
/// accumulator there is no memory traffic beyond the dummy opcode read; on
/// memory the target is read once, the original byte written back, then the
/// transformed byte written.
pub open spec fn rmw_mode_post<M: MemoryBus>(
    mode: AddressingMode,
    op: RmwOp,
    pre: MOS6502<M>,
    post: MOS6502<M>,
) -> bool {
    if mode == AddressingMode::Accumulator {
        &&& post.wf()
        &&& post.mem() == pre.mem()
        &&& post.log() == pre.log().push(rd(pre.reg.pc, mem_at(pre.mem(), pre.reg.pc)))
        &&& post.reg == (MOS6502Registers {
            ac: rmw_result(op, pre.reg.ac, pre.flags.carry),
            ..pre.reg
        })
        &&& post.flags == rmw_flags(op, pre.flags, pre.reg.ac)
        &&& post.trapped == pre.trapped
    } else {
        let ea = read_ea(mode, pre.mem(), pre.reg.pc, pre.reg.ix, 0);
        let m = mem_at(pre.mem(), ea);
        let new_value = rmw_result(op, m, pre.flags.carry);
        &&& post.wf()
        &&& post.mem() == pre.mem().update(ea as int, new_value)
        &&& post.log() == pre.log() + rmw_log(mode, pre.mem(), pre.reg.pc, pre.reg.ix, new_value)
        &&& post.reg == (MOS6502Registers { pc: wrap16(pre.reg.pc + operand_len(mode)), ..pre.reg })
        &&& post.flags == rmw_flags(op, pre.flags, m)
        &&& post.trapped == pre.trapped
    }
}

/// Everything an implied instruction guarantees: the dummy read of the next
/// program byte, then the body's effect.
pub open spec fn implied_post<M: MemoryBus>(
    op: ImpliedOp,
    pre: MOS6502<M>,
    post: MOS6502<M>,
) -> bool {
    let dummy = rd(pre.reg.pc, mem_at(pre.mem(), pre.reg.pc));
    let r = apply_implied(op, pre.reg, pre.flags, pre.mem(), pre.log().push(dummy));
    &&& post.wf()
    &&& post.reg == r.0
    &&& post.flags == r.1
    &&& post.mem() == r.2
    &&& post.log() == r.3
    &&& post.trapped == pre.trapped
}

/// The two operand fetches shared by the absolute-indexed modes.
pub open spec fn fetch2_log(mem: Seq<u8>, pc: u16) -> Seq<BusOp> {
    seq![rd(pc, mem_at(mem, pc)), rd(wrap16(pc + 1), mem_at(mem, wrap16(pc + 1)))]
}

/// Fetch the absolute base address and form the indexed target with 16-bit
/// wrap-around.
pub fn fetch_indexed_base<M: MemoryBus>(cpu: &mut MOS6502<M>, index: u8) -> (addresses: (u16, u16))
    requires
        old(cpu).wf(),
    ensures
        final(cpu).wf(),
        final(cpu).mem() == old(cpu).mem(),
        addresses.0 == abs_base(old(cpu).mem(), old(cpu).reg.pc),
        addresses.1 == wrap16(abs_base(old(cpu).mem(), old(cpu).reg.pc) + index),
        final(cpu).log() == old(cpu).log() + fetch2_log(old(cpu).mem(), old(cpu).reg.pc),
        final(cpu).reg == (MOS6502Registers { pc: wrap16(old(cpu).reg.pc + 2), ..old(cpu).reg }),
        final(cpu).flags == old(cpu).flags,
        final(cpu).trapped == old(cpu).trapped,
{
    let ghost pre = *cpu;
    let address = absolute::fetch_absolute_2(cpu);
    let address_indexed = address.wrapping_add(index as u16);
    proof {
        assert(cpu.log() =~= pre.log() + fetch2_log(pre.mem(), pre.reg.pc));
    }
    (address, address_indexed)
}

/// Run one `read` instruction body on an operand byte.
pub fn run_read_op<M: MemoryBus>(cpu: &mut MOS6502<M>, op: ReadOp, value: u8)
    ensures
        (final(cpu).reg, final(cpu).flags) == apply_read_op(
            op,
            old(cpu).reg,
            old(cpu).flags,
            value,
        ),
        final(cpu).bus == old(cpu).bus,
        final(cpu).trapped == old(cpu).trapped,
        final(cpu).cycles == old(cpu).cycles,
{
    match op {
        ReadOp::AddWithCarry => add_with_carry(cpu, value),
        ReadOp::SubWithCarry => sub_with_carry(cpu, value),
        ReadOp::CompareAc => compare_ac(cpu, value),
        ReadOp::CompareIx => compare_ix(cpu, value),
        ReadOp::CompareIy => compare_iy(cpu, value),
        ReadOp::LogicalAnd => logical_and(cpu, value),
        ReadOp::LogicalExclusiveOr => logical_exclusive_or(cpu, value),
        ReadOp::LogicalInclusiveOr => logical_inclusive_or(cpu, value),
        ReadOp::LogicalBitTest => logical_bit_test(cpu, value),
        ReadOp::LoadAc => load_ac(cpu, value),
        ReadOp::LoadIx => load_ix(cpu, value),
        ReadOp::LoadIy => load_iy(cpu, value),
    }
}

/// Produce the byte a `write` instruction body stores.
pub fn run_write_op<M: MemoryBus>(cpu: &mut MOS6502<M>, op: WriteOp) -> (value: u8)
    ensures
        value == write_value(op, old(cpu).reg),
        *final(cpu) == *old(cpu),
{
    match op {
        WriteOp::StoreAc => store_ac(cpu),
        WriteOp::StoreIx => store_ix(cpu),
        WriteOp::StoreIy => store_iy(cpu),
    }
}

/// Run one read-modify-write instruction body on the byte read from the
/// target, returning the byte to write back.
pub fn run_rmw_op<M: MemoryBus>(cpu: &mut MOS6502<M>, op: RmwOp, value: u8) -> (result: u8)
    ensures
        result == rmw_result(op, value, old(cpu).flags.carry),
        final(cpu).reg == old(cpu).reg,
        final(cpu).flags == rmw_flags(op, old(cpu).flags, value),
        final(cpu).bus == old(cpu).bus,
        final(cpu).trapped == old(cpu).trapped,
        final(cpu).cycles == old(cpu).cycles,
{
    match op {
        RmwOp::ShiftLeft => logical_shift_left(cpu, value),
        RmwOp::ShiftRight => logical_shift_right(cpu, value),
        RmwOp::RotateLeft => logical_rotate_left(cpu, value),
        RmwOp::RotateRight => logical_rotate_right(cpu, value),
        RmwOp::IncMemory => inc_memory(cpu, value),
        RmwOp::DecMemory => dec_memory(cpu, value),
    }
}

/// The dummy read every implied instruction performs at the program
/// counter, which is not advanced.
pub fn implied_1read<M: MemoryBus>(cpu: &mut MOS6502<M>)
    requires
        old(cpu).wf(),
    ensures
        final(cpu).wf(),
        final(cpu).mem() == old(cpu).mem(),
        final(cpu).log() == old(cpu).log().push(
            rd(old(cpu).reg.pc, mem_at(old(cpu).mem(), old(cpu).reg.pc)),
        ),
        final(cpu).reg == old(cpu).reg,
        final(cpu).flags == old(cpu).flags,
        final(cpu).trapped == old(cpu).trapped,
{
    let pc = cpu.reg.pc;
    cpu.read(pc);
    cpu.tick();
}

/// Immediate addressing: the operand is the byte at the program counter.
pub fn immediate_1read<M: MemoryBus>(cpu: &mut MOS6502<M>, op: ReadOp)
    requires
        old(cpu).wf(),
    ensures
        read_mode_post(AddressingMode::Immediate, op, *old(cpu), *final(cpu)),
{
    let ghost pre = *cpu;
    let pc = cpu.reg.pc;
    let value = cpu.read(pc);
    cpu.reg.pc = cpu.reg.pc.wrapping_add(1);
    run_read_op(cpu, op, value);
    cpu.tick();
    proof {
        assert(cpu.log() =~= pre.log() + read_log(
            AddressingMode::Immediate,
            pre.mem(),
            pre.reg.pc,
            pre.reg.ix,
            pre.reg.iy,
        ));
    }
}

/// Dispatch an implied instruction body behind its dummy read.
pub fn instruction_implied<M: MemoryBus>(cpu: &mut MOS6502<M>, op: ImpliedOp)
    requires
        old(cpu).wf(),
    ensures
        implied_post(op, *old(cpu), *final(cpu)),
{
    implied_1read(cpu);
    match op {
        ImpliedOp::TransferAcToX => transfer_ac_to_x(cpu),
        ImpliedOp::TransferAcToY => transfer_ac_to_y(cpu),
        ImpliedOp::TransferXToAc => transfer_x_to_ac(cpu),
        ImpliedOp::TransferYToAc => transfer_y_to_ac(cpu),
        ImpliedOp::TransferSpToX => transfer_sp_to_x(cpu),
        ImpliedOp::TransferXToSp => transfer_x_to_sp(cpu),
        ImpliedOp::IncIx => inc_ix(cpu),
        ImpliedOp::IncIy => inc_iy(cpu),
        ImpliedOp::DecIx => dec_ix(cpu),
        ImpliedOp::DecIy => dec_iy(cpu),
        ImpliedOp::ClearCarry => clear_carry(cpu),
        ImpliedOp::ClearDecimal => clear_decimal(cpu),
        ImpliedOp::ClearIntDisable => clear_int_disable(cpu),
        ImpliedOp::ClearOverflow => clear_overflow(cpu),
        ImpliedOp::SetCarry => set_carry(cpu),
        ImpliedOp::SetDecimal => set_decimal(cpu),
        ImpliedOp::SetIntDisable => set_int_disable(cpu),
        ImpliedOp::PushAc => push_ac(cpu),
        ImpliedOp::PushProcessor => push_processor(cpu),
        ImpliedOp::PullAc => pull_ac(cpu),
        ImpliedOp::PullProcessorStatus => pull_processor_status(cpu),
        ImpliedOp::Nop => (),
    }
}

/// Dispatch a `read` instruction body through its addressing mode's
/// micro-sequence.
pub fn instruction_read<M: MemoryBus>(cpu: &mut MOS6502<M>, addressing_mode: AddressingMode, op: ReadOp)
    requires
        old(cpu).wf(),
        is_read_mode(addressing_mode),
    ensures
        read_mode_post(addressing_mode, op, *old(cpu), *final(cpu)),
{
    match addressing_mode {
        AddressingMode::Immediate => immediate_1read(cpu, op),
        AddressingMode::Relative => {
            immediate_1read(cpu, op);
            proof {
                assert(read_mode_post(AddressingMode::Relative, op, *old(cpu), *cpu));
            }
        },
        AddressingMode::Absolute => absolute_3read(cpu, op),
        AddressingMode::ZeroPage => zeropage_2read(cpu, op),
        AddressingMode::ZeroPageX => zeropagex_3read(cpu, op),
        AddressingMode::ZeroPageY => zeropagey_3read(cpu, op),
        AddressingMode::AbsoluteX => absolutex_3read(cpu, op),
        AddressingMode::AbsoluteY => absolutey_3read(cpu, op),
        AddressingMode::IndirectX => indirectx_5read(cpu, op),
        AddressingMode::IndirectY => indirecty_5read(cpu, op),
        _ => unreached(),
    }
}

/// Dispatch a `write` instruction body through its addressing mode's
/// micro-sequence.
pub fn instruction_write<M: MemoryBus>(cpu: &mut MOS6502<M>, addressing_mode: AddressingMode, op: WriteOp)
    requires
        old(cpu).wf(),
        is_write_mode(addressing_mode),
    ensures
        write_mode_post(addressing_mode, op, *old(cpu), *final(cpu)),
{
    match addressing_mode {
        AddressingMode::Absolute => absolute_3write(cpu, op),
        AddressingMode::ZeroPage => zeropage_2write(cpu, op),
        AddressingMode::ZeroPageX => zeropagex_3write(cpu, op),
        AddressingMode::ZeroPageY => zeropagey_3write(cpu, op),
        AddressingMode::AbsoluteX => absolutex_4write(cpu, op),
        AddressingMode::AbsoluteY => absolutey_4write(cpu, op),
        AddressingMode::IndirectX => indirectx_5write(cpu, op),
        AddressingMode::IndirectY => indirecty_5write(cpu, op),
        _ => unreached(),
    }
}

/// Dispatch a read-modify-write instruction body through its addressing
/// mode's micro-sequence.
pub fn instruction_read_move_write<M: MemoryBus>(
    cpu: &mut MOS6502<M>,
    addressing_mode: AddressingMode,
    op: RmwOp,
)
    requires
        old(cpu).wf(),
        is_rmw_mode(addressing_mode),
    ensures
        rmw_mode_post(addressing_mode, op, *old(cpu), *final(cpu)),
{
    match addressing_mode {
        AddressingMode::Accumulator => ac1_rmw(cpu, op),
        AddressingMode::ZeroPage => zeropage_4rmw(cpu, op),
        AddressingMode::ZeroPageX => zeropagex_5rmw(cpu, op),
        AddressingMode::Absolute => absolute_5rmw(cpu, op),
        AddressingMode::AbsoluteX => absolutex_6rmw(cpu, op),
        _ => unreached(),
    }
}

/// Both pointer bytes of an (Indirect,X) operand are fetched from the zero
/// page: the sum of the operand and X wraps at 8 bits, and so does its
/// successor, so neither pointer fetch leaves page zero.
pub proof fn lemma_indirectx_pointer_reads_zero_page(mem: Seq<u8>, pc: u16, x: u8, y: u8)
    ensures
        ({
            let l = read_log(AddressingMode::IndirectX, mem, pc, x, y);
            let ll = mem_at(mem, pc);
            &&& l.len() == 5
            &&& l[2] == rd(wrap8(ll + x) as u16, mem_at(mem, wrap8(ll + x) as u16))
            &&& l[3] == rd(wrap8(ll + x + 1) as u16, mem_at(mem, wrap8(ll + x + 1) as u16))
            &&& crate::bus::op_addr(l[2]) < 0x100
            &&& crate::bus::op_addr(l[3]) < 0x100
        }),
{
}

/// Both pointer bytes of an (Indirect),Y operand are fetched from the zero
/// page: the high pointer byte comes from the 8-bit successor of the
/// operand, never from page one.
pub proof fn lemma_indirecty_pointer_reads_zero_page(mem: Seq<u8>, pc: u16, x: u8, y: u8)
    ensures
        ({
            let l = read_log(AddressingMode::IndirectY, mem, pc, x, y);
            let ll = mem_at(mem, pc);
            &&& l.len() >= 4
            &&& l[1] == rd(ll as u16, mem_at(mem, ll as u16))
            &&& l[2] == rd(wrap8(ll + 1) as u16, mem_at(mem, wrap8(ll + 1) as u16))
            &&& crate::bus::op_addr(l[1]) < 0x100
            &&& crate::bus::op_addr(l[2]) < 0x100
        }),
{
}

/// Every memory read-modify-write instruction ends its bus sequence with
/// exactly one read of the target followed by a write of the original byte
/// and then a write of the transformed byte, all three at the effective
/// address; every earlier transaction of the sequence is a read.
pub proof fn lemma_rmw_read_then_double_write(
    mode: AddressingMode,
    mem: Seq<u8>,
    pc: u16,
    x: u8,
    new_value: u8,
)
    requires
        is_rmw_mode(mode),
        mode != AddressingMode::Accumulator,
    ensures
        ({
            let l = rmw_log(mode, mem, pc, x, new_value);
            let ea = read_ea(mode, mem, pc, x, 0);
            let m = mem_at(mem, ea);
            &&& l.len() >= 4
            &&& l[l.len() - 3] == rd(ea, m)
            &&& l[l.len() - 2] == wr(ea, m)
            &&& l[l.len() - 1] == wr(ea, new_value)
            &&& forall|i: int| 0 <= i < l.len() - 2 ==> l[i] is Read
        }),
{
}

/// The opcodes of `read` category instructions.
pub open spec fn is_read_opcode(opcode: u8) -> bool {
    match opcode {
        0x29 | 0x25 | 0x35 | 0x2D | 0x3D | 0x39 | 0x21 | 0x31 => true,
        0x49 | 0x45 | 0x55 | 0x4D | 0x5D | 0x59 | 0x41 | 0x51 => true,
        0x09 | 0x05 | 0x15 | 0x0D | 0x1D | 0x19 | 0x01 | 0x11 => true,
        0x24 | 0x2C => true,
        0x69 | 0x65 | 0x75 | 0x6D | 0x7D | 0x79 | 0x61 | 0x71 => true,
        0xE9 | 0xE5 | 0xF5 | 0xED | 0xFD | 0xF9 | 0xE1 | 0xF1 => true,
        0xC9 | 0xC5 | 0xD5 | 0xCD | 0xDD | 0xD9 | 0xC1 | 0xD1 => true,
        0xE0 | 0xE4 | 0xEC | 0xC0 | 0xC4 | 0xCC => true,
        0xA9 | 0xA5 | 0xB5 | 0xAD | 0xBD | 0xB9 | 0xA1 | 0xB1 => true,
        0xA2 | 0xA6 | 0xB6 | 0xAE | 0xBE => true,
        0xA0 | 0xA4 | 0xB4 | 0xAC | 0xBC => true,
        _ => false,
    }
}

/// The instruction body a `read` opcode dispatches to.
pub open spec fn read_op_of(opcode: u8) -> ReadOp {
    match opcode {
        0x29 | 0x25 | 0x35 | 0x2D | 0x3D | 0x39 | 0x21 | 0x31 => ReadOp::LogicalAnd,
        0x49 | 0x45 | 0x55 | 0x4D | 0x5D | 0x59 | 0x41 | 0x51 => ReadOp::LogicalExclusiveOr,
        0x09 | 0x05 | 0x15 | 0x0D | 0x1D | 0x19 | 0x01 | 0x11 => ReadOp::LogicalInclusiveOr,
        0x24 | 0x2C => ReadOp::LogicalBitTest,
        0x69 | 0x65 | 0x75 | 0x6D | 0x7D | 0x79 | 0x61 | 0x71 => ReadOp::AddWithCarry,
        0xE9 | 0xE5 | 0xF5 | 0xED | 0xFD | 0xF9 | 0xE1 | 0xF1 => ReadOp::SubWithCarry,
        0xC9 | 0xC5 | 0xD5 | 0xCD | 0xDD | 0xD9 | 0xC1 | 0xD1 => ReadOp::CompareAc,
        0xE0 | 0xE4 | 0xEC => ReadOp::CompareIx,
        0xC0 | 0xC4 | 0xCC => ReadOp::CompareIy,
        0xA9 | 0xA5 | 0xB5 | 0xAD | 0xBD | 0xB9 | 0xA1 | 0xB1 => ReadOp::LoadAc,
        0xA2 | 0xA6 | 0xB6 | 0xAE | 0xBE => ReadOp::LoadIx,
        _ => ReadOp::LoadIy,
    }
}

/// The opcodes of `write` category instructions.
pub open spec fn is_write_opcode(opcode: u8) -> bool {
    match opcode {
        0x85 | 0x95 | 0x8D | 0x9D | 0x99 | 0x81 | 0x91 => true,
        0x86 | 0x96 | 0x8E | 0x84 | 0x94 | 0x8C => true,
        _ => false,
    }
}

/// The instruction body a `write` opcode dispatches to.
pub open spec fn write_op_of(opcode: u8) -> WriteOp {
    match opcode {
        0x85 | 0x95 | 0x8D | 0x9D | 0x99 | 0x81 | 0x91 => WriteOp::StoreAc,
        0x86 | 0x96 | 0x8E => WriteOp::StoreIx,
        _ => WriteOp::StoreIy,
    }
}

/// The opcodes of read-modify-write instructions, the accumulator forms
/// included.
pub open spec fn is_rmw_opcode(opcode: u8) -> bool {
    match opcode {
        0x0A | 0x06 | 0x16 | 0x0E | 0x1E => true,
        0x4A | 0x46 | 0x56 | 0x4E | 0x5E => true,
        0x2A | 0x26 | 0x36 | 0x2E | 0x3E => true,
        0x6A | 0x66 | 0x76 | 0x6E | 0x7E => true,
        0xE6 | 0xF6 | 0xEE | 0xFE => true,
        0xC6 | 0xD6 | 0xCE | 0xDE => true,
        _ => false,
    }
}

/// The instruction body a read-modify-write opcode dispatches to.
pub open spec fn rmw_op_of(opcode: u8) -> RmwOp {
    match opcode {
        0x0A | 0x06 | 0x16 | 0x0E | 0x1E => RmwOp::ShiftLeft,
        0x4A | 0x46 | 0x56 | 0x4E | 0x5E => RmwOp::ShiftRight,
        0x2A | 0x26 | 0x36 | 0x2E | 0x3E => RmwOp::RotateLeft,
        0x6A | 0x66 | 0x76 | 0x6E | 0x7E => RmwOp::RotateRight,
        0xE6 | 0xF6 | 0xEE | 0xFE => RmwOp::IncMemory,
        _ => RmwOp::DecMemory,
    }
}

/// The opcodes dispatched with implied addressing (NOP included; BRK, RTI,
/// RTS and JSR have sequences of their own).
pub open spec fn is_implied_opcode(opcode: u8) -> bool {
    match opcode {
        0xAA | 0xA8 | 0x8A | 0x98 | 0xBA | 0x9A => true,
        0xE8 | 0xC8 | 0xCA | 0x88 => true,
        0x18 | 0xD8 | 0x58 | 0xB8 | 0x38 | 0xF8 | 0x78 => true,
        0x48 | 0x08 | 0x68 | 0x28 | 0xEA => true,
        _ => false,
    }
}

/// The instruction body an implied opcode dispatches to.
pub open spec fn implied_op_of(opcode: u8) -> ImpliedOp {
    match opcode {
        0xAA => ImpliedOp::TransferAcToX,
        0xA8 => ImpliedOp::TransferAcToY,
        0x8A => ImpliedOp::TransferXToAc,
        0x98 => ImpliedOp::TransferYToAc,
        0xBA => ImpliedOp::TransferSpToX,
        0x9A => ImpliedOp::TransferXToSp,
        0xE8 => ImpliedOp::IncIx,
        0xC8 => ImpliedOp::IncIy,
        0xCA => ImpliedOp::DecIx,
        0x88 => ImpliedOp::DecIy,
        0x18 => ImpliedOp::ClearCarry,
        0xD8 => ImpliedOp::ClearDecimal,
        0x58 => ImpliedOp::ClearIntDisable,
        0xB8 => ImpliedOp::ClearOverflow,
        0x38 => ImpliedOp::SetCarry,
        0xF8 => ImpliedOp::SetDecimal,
        0x78 => ImpliedOp::SetIntDisable,
        0x48 => ImpliedOp::PushAc,
        0x08 => ImpliedOp::PushProcessor,
        0x68 => ImpliedOp::PullAc,
        0x28 => ImpliedOp::PullProcessorStatus,
        _ => ImpliedOp::Nop,
    }
}

/// The whole effect of one step of a `read` category instruction, opcode
/// fetch included.
pub open spec fn read_step_post<M: MemoryBus>(opcode: u8, pre: MOS6502<M>, post: MOS6502<M>) -> bool {
    let mem = pre.mem();
    let pc1 = wrap16(pre.reg.pc + 1);
    let mode = addressing_mode_spec(opcode);
    let m = mem_at(mem, read_ea(mode, mem, pc1, pre.reg.ix, pre.reg.iy));
    let fetched = MOS6502Registers { pc: wrap16(pc1 + operand_len(mode)), ..pre.reg };
    &&& (post.reg, post.flags) == apply_read_op(read_op_of(opcode), fetched, pre.flags, m)
    &&& post.mem() == mem
    &&& post.log() == pre.log().push(rd(pre.reg.pc, opcode)) + read_log(
        mode,
        mem,
        pc1,
        pre.reg.ix,
        pre.reg.iy,
    )
    &&& post.trapped == pre.trapped
}

/// The whole effect of one step of a `write` category instruction, opcode
/// fetch included.
pub open spec fn write_step_post<M: MemoryBus>(opcode: u8, pre: MOS6502<M>, post: MOS6502<M>) -> bool {
    let mem = pre.mem();
    let pc1 = wrap16(pre.reg.pc + 1);
    let mode = addressing_mode_spec(opcode);
    let ea = read_ea(mode, mem, pc1, pre.reg.ix, pre.reg.iy);
    let v = write_value(write_op_of(opcode), pre.reg);
    &&& post.mem() == mem.update(ea as int, v)
    &&& post.reg == (MOS6502Registers { pc: wrap16(pc1 + operand_len(mode)), ..pre.reg })
    &&& post.flags == pre.flags
    &&& post.log() == pre.log().push(rd(pre.reg.pc, opcode)) + write_log(
        mode,
        mem,
        pc1,
        pre.reg.ix,
        pre.reg.iy,
        v,
    )
    &&& post.trapped == pre.trapped
}

/// The whole effect of one step of a read-modify-write instruction, opcode
/// fetch included; the accumulator forms touch no memory.
pub open spec fn rmw_step_post<M: MemoryBus>(opcode: u8, pre: MOS6502<M>, post: MOS6502<M>) -> bool {
    let mem = pre.mem();
    let pc1 = wrap16(pre.reg.pc + 1);
    let mode = addressing_mode_spec(opcode);
    let op = rmw_op_of(opcode);
    &&& if mode == AddressingMode::Accumulator {
        &&& post.mem() == mem
        &&& post.log() == pre.log().push(rd(pre.reg.pc, opcode)).push(rd(pc1, mem_at(mem, pc1)))
        &&& post.reg == (MOS6502Registers {
            pc: pc1,
            ac: rmw_result(op, pre.reg.ac, pre.flags.carry),
            ..pre.reg
        })
        &&& post.flags == rmw_flags(op, pre.flags, pre.reg.ac)
    } else {
        let ea = read_ea(mode, mem, pc1, pre.reg.ix, 0);
        let m = mem_at(mem, ea);
        let new_value = rmw_result(op, m, pre.flags.carry);
        &&& post.mem() == mem.update(ea as int, new_value)
        &&& post.log() == pre.log().push(rd(pre.reg.pc, opcode)) + rmw_log(
            mode,
            mem,
            pc1,
            pre.reg.ix,
            new_value,
        )
        &&& post.reg == (MOS6502Registers { pc: wrap16(pc1 + operand_len(mode)), ..pre.reg })
        &&& post.flags == rmw_flags(op, pre.flags, m)
    }
    &&& post.trapped == pre.trapped
}

/// The whole effect of one step of an implied instruction, opcode fetch and
/// dummy read included.
pub open spec fn implied_step_post<M: MemoryBus>(opcode: u8, pre: MOS6502<M>, post: MOS6502<M>) -> bool {
    let mem = pre.mem();
    let pc1 = wrap16(pre.reg.pc + 1);
    let mid_reg = MOS6502Registers { pc: pc1, ..pre.reg };
    let r = apply_implied(
        implied_op_of(opcode),
        mid_reg,
        pre.flags,
        mem,
        pre.log().push(rd(pre.reg.pc, opcode)).push(rd(pc1, mem_at(mem, pc1))),
    );
    &&& post.reg == r.0
    &&& post.flags == r.1
    &&& post.mem() == r.2
    &&& post.log() == r.3
    &&& post.trapped == pre.trapped
}

} // verus!
