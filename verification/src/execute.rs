//! What the execute stage hands to writeback.

use vstd::prelude::*;

verus! {

/// The outcome of the execute stage for one instruction.
#[derive(Clone, Copy, Debug)]
pub struct ExecuteResult {
    /// The effective address of a load or store, the comparison outcome of a
    /// branch, or else the value destined for the destination register.
    pub alu_out: u32,
}

} // verus!
