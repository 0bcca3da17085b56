//! The bus capability consumed by the CPU core, and a flat 64 KiB memory
//! bank implementing it.
//!
//! Correctness of the core is not only about the final contents of memory:
//! the 6502 is defined by the exact ordered sequence of bus transactions it
//! emits (dummy reads included).  The trait therefore carries two ghost
//! views: the current memory image and the transaction log.

use vstd::prelude::*;

verus! {

/// Number of addressable bytes: the 6502 has a 16-bit address bus.
pub const MEMORY_SIZE: usize = 0x10000;

/// One bus transaction: a single byte moved at a single address.
#[derive(Clone, Copy, PartialEq, Eq, Structural, Debug)]
pub enum BusOp {
    Read { addr: u16, value: u8 },
    Write { addr: u16, value: u8 },
}

/// The capability through which every core memory access flows: operand
/// fetches, effective-address fetches, dummy reads, stack pushes and pops,
/// and vector reads.
///
/// The model is a byte-addressed memory image together with the ordered log
/// of transactions.  Reads are modelled as pure: they return the current
/// byte and change nothing but the log.
pub trait MemoryBus: Sized {
    /// The current 64 KiB memory image.
    spec fn mem(&self) -> Seq<u8>;

    /// The ordered log of every transaction performed so far.
    spec fn log(&self) -> Seq<BusOp>;

    /// Well-formedness of the bus.
    spec fn inv(&self) -> bool;

    /// A well-formed bus maps the full 16-bit address space.
    proof fn inv_mem_len(&self)
        requires
            self.inv(),
        ensures
            self.mem().len() == MEMORY_SIZE,
    ;

    /// Read the byte at `address`.
    fn read(&mut self, address: u16) -> (value: u8)
        requires
            old(self).inv(),
        ensures
            final(self).inv(),
            final(self).mem() == old(self).mem(),
            value == final(self).mem()[address as int],
            final(self).log() == old(self).log().push(BusOp::Read { addr: address, value }),
    ;

    /// Write `value` to the byte at `address`.
    fn write(&mut self, address: u16, value: u8)
        requires
            old(self).inv(),
        ensures
            final(self).inv(),
            final(self).mem() == old(self).mem().update(address as int, value),
            final(self).log() == old(self).log().push(BusOp::Write { addr: address, value }),
    ;
}

/// The address a transaction touches.
pub open spec fn op_addr(op: BusOp) -> u16 {
    match op {
        BusOp::Read { addr, value } => addr,
        BusOp::Write { addr, value } => addr,
    }
}

/// The byte a transaction moves.
pub open spec fn op_value(op: BusOp) -> u8 {
    match op {
        BusOp::Read { addr, value } => value,
        BusOp::Write { addr, value } => value,
    }
}

/// A flat 64 KiB RAM: the reference bus implementation.
pub struct MemoryBank {
    bytes: Vec<u8>,
    log: Ghost<Seq<BusOp>>,
}

impl MemoryBus for MemoryBank {
    closed spec fn mem(&self) -> Seq<u8> {
        self.bytes@
    }

    closed spec fn log(&self) -> Seq<BusOp> {
        self.log@
    }

    closed spec fn inv(&self) -> bool {
        self.bytes@.len() == MEMORY_SIZE
    }

    proof fn inv_mem_len(&self) {
    }

    fn read(&mut self, address: u16) -> (value: u8) {
        let value = self.bytes[address as usize];
        self.log = Ghost(self.log@.push(BusOp::Read { addr: address, value }));
        value
    }

    fn write(&mut self, address: u16, value: u8) {
        self.bytes[address as usize] = value;
        self.log = Ghost(self.log@.push(BusOp::Write { addr: address, value }));
    }
}

impl MemoryBank {
    /// A fresh bank with every byte zero.
    pub fn new() -> (result: MemoryBank)
        ensures
            result.inv(),
            result.mem() == Seq::<u8>::new(MEMORY_SIZE as nat, |i: int| 0u8),
            result.log() == Seq::<BusOp>::empty(),
    {
        let mut bytes: Vec<u8> = Vec::new();
        let mut i: usize = 0;
        while i < MEMORY_SIZE
            invariant
                i <= MEMORY_SIZE,
                bytes@.len() == i,
                forall|j: int| 0 <= j < i ==> bytes@[j] == 0u8,
            decreases MEMORY_SIZE - i,
        {
            bytes.push(0u8);
            i = i + 1;
        }
        proof {
            assert(bytes@ =~= Seq::<u8>::new(MEMORY_SIZE as nat, |i: int| 0u8));
        }
        MemoryBank { bytes, log: Ghost(Seq::empty()) }
    }

    /// Overwrite every byte with a fresh random value, as a host may do to
    /// model power-on RAM contents.  The values are unconstrained.
    pub fn randomize_memory(&mut self)
        requires
            old(self).inv(),
        ensures
            final(self).inv(),
            final(self).mem().len() == old(self).mem().len(),
            final(self).log() == old(self).log(),
    {
        let ghost log0 = self.log@;
        let mut i: usize = 0;
        while i < MEMORY_SIZE
            invariant
                self.bytes@.len() == MEMORY_SIZE,
                self.log@ == log0,
            decreases MEMORY_SIZE - i,
        {
            let value: u8 = random_byte();
            self.bytes[i] = value;
            i = i + 1;
        }
    }
}

/// Relies on `rand::random`: draws one byte from the thread-local generator.
/// Nothing can be promised of a random value.
#[verifier::external_body]
fn random_byte() -> u8 {
    rand::random()
}

} // verus!
