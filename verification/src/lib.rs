//! A cycle-faithful emulator of the MOS 6502 microprocessor.
//!
//! The core consumes a byte-wise bus capability ([`bus::MemoryBus`]) and
//! drives it through the exact sequence of read and write transactions the
//! hardware would emit: operand fetches, dummy reads on indexed addressing,
//! the double write of read-modify-write instructions, stack traffic and
//! vector loads.  Every contract is stated against a mathematical model of
//! the bus: the 64 KiB memory image as a sequence of bytes and the ordered
//! log of transactions.

pub mod bus;
pub mod cpu;
