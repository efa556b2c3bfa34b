//! The bank of control and status registers.

use std::collections::HashMap;
use vstd::prelude::*;

verus! {

broadcast use vstd::std_specs::hash::group_hash_axioms;

/// What a bank holds at `address`: the value last written there, and zero
/// where nothing was written yet.
pub open spec fn csr_value(bank: Map<u16, u32>, address: u16) -> u32 {
    if bank.contains_key(address) {
        bank[address]
    } else {
        0
    }
}

/// A sparse bank of 32-bit control and status registers. An instruction names
/// a register by the 12-bit address in its encoding; the bank keeps a value
/// under whatever address it is given.
#[derive(Debug)]
pub struct ControlAndStatusRegister {
    csr: HashMap<u16, u32>,
}

impl View for ControlAndStatusRegister {
    type V = Map<u16, u32>;

    /// The registers written so far, by address.
    closed spec fn view(&self) -> Map<u16, u32> {
        self.csr@
    }
}

impl ControlAndStatusRegister {
    /// A bank in which no register was written yet.
    pub fn new() -> (bank: Self)
        ensures
            bank@ == Map::<u16, u32>::empty(),
    {
        ControlAndStatusRegister { csr: HashMap::new() }
    }

    /// The value of the register at `address`. Reading has no effect on the
    /// bank, and a register that was never written reads as zero.
    pub fn read(&self, address: u16) -> (value: u32)
        ensures
            value == csr_value(self@, address),
    {
        match self.csr.get(&address) {
            Some(value) => *value,
            None => 0,
        }
    }

    /// Sets the register at `address` to `value` and leaves every other
    /// register as it was.
    pub fn write(&mut self, address: u16, value: u32)
        ensures
            final(self)@ == old(self)@.insert(address, value),
    {
        self.csr.insert(address, value);
    }
}

} // verus!
