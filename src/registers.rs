//! Typed, read-only accessors over Control and Status Registers.
//!
//! Every accessor is bound to a fixed CSR number and a bitmask. The hardware
//! read itself is done by the caller; this module decides which register is
//! read and what is kept of the raw value.

use vstd::prelude::*;

verus! {

/// CSR number of the machine exception program counter.
pub const MEPC_ADDRESS: u16 = 0x341;

/// CSR number of the machine trap cause.
pub const MCAUSE_ADDRESS: u16 = 0x342;

/// CSR number of the free-running timer.
pub const TIME_ADDRESS: u16 = 0xC01;

/// Mask applied to every register read: the low 32 bits.
pub const LOW_WORD_MASK: usize = 0xffff_ffff;

/// The registers the kernel reads, each a fixed {name, number, mask} binding.
#[derive(Clone, Copy, Debug, PartialEq, Eq, Structural)]
pub enum Csr {
    /// Machine exception program counter.
    Mepc,
    /// Machine trap cause.
    Mcause,
    /// Timer value.
    Time,
}

impl Csr {
    pub open spec fn spec_address(self) -> u16 {
        match self {
            Csr::Mepc => MEPC_ADDRESS,
            Csr::Mcause => MCAUSE_ADDRESS,
            Csr::Time => TIME_ADDRESS,
        }
    }

    pub open spec fn spec_mask(self) -> usize {
        match self {
            Csr::Mepc => LOW_WORD_MASK,
            Csr::Mcause => LOW_WORD_MASK,
            Csr::Time => LOW_WORD_MASK,
        }
    }

    /// The CSR number the read instruction targets.
    pub fn address(self) -> (r: u16)
        ensures
            r == self.spec_address(),
    {
        match self {
            Csr::Mepc => MEPC_ADDRESS,
            Csr::Mcause => MCAUSE_ADDRESS,
            Csr::Time => TIME_ADDRESS,
        }
    }

    /// The bitmask applied to the raw value.
    pub fn mask(self) -> (r: usize)
        ensures
            r == self.spec_mask(),
    {
        match self {
            Csr::Mepc => LOW_WORD_MASK,
            Csr::Mcause => LOW_WORD_MASK,
            Csr::Time => LOW_WORD_MASK,
        }
    }

    /// What a read gives when the hardware delivered `raw`.
    pub open spec fn spec_read(self, raw: usize) -> usize {
        raw & self.spec_mask()
    }

    /// What a read returns when the hardware delivered `raw`: the raw value
    /// with the descriptor's mask applied.
    pub fn read_value(self, raw: usize) -> (r: usize)
        ensures
            r == self.spec_read(raw),
    {
        raw & self.mask()
    }
}

} // verus!

verus! {

/// A register held in memory in place of the hardware one, for checking the
/// accessor layer away from the hart: it stores what was last written and
/// reads back through its descriptor.
pub struct SimulatedCsr {
    pub csr: Csr,
    pub value: usize,
}

impl SimulatedCsr {
    /// What a read of this register returns.
    pub open spec fn spec_read(self) -> usize {
        self.csr.spec_read(self.value)
    }

    /// The register after `raw` was written to it.
    pub open spec fn spec_write(self, raw: usize) -> SimulatedCsr {
        SimulatedCsr { csr: self.csr, value: raw }
    }

    /// A register bound to `csr` that holds zero.
    pub fn new(csr: Csr) -> (r: SimulatedCsr)
        ensures
            r.csr == csr,
            r.value == 0,
    {
        SimulatedCsr { csr, value: 0 }
    }

    /// Stores `raw` unmasked, as the hardware would hold it.
    pub fn write(&mut self, raw: usize)
        ensures
            *final(self) == old(self).spec_write(raw),
    {
        self.value = raw;
    }

    /// Reads through the descriptor: the stored value, masked.
    pub fn read(&self) -> (r: usize)
        ensures
            r == self.spec_read(),
    {
        self.csr.read_value(self.value)
    }
}

/// Writing a raw value and reading it back through the accessor gives exactly
/// the raw value with the descriptor's mask applied.
pub proof fn lemma_write_then_read(reg: SimulatedCsr, raw: usize)
    ensures
        reg.spec_write(raw).spec_read() == raw & reg.csr.spec_mask(),
        reg.spec_write(raw).csr == reg.csr,
{
}

} // verus!
