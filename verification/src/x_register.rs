//! The general-purpose integer register file.

use vstd::prelude::*;

verus! {

/// Number of general-purpose registers.
pub const XREG_COUNT: usize = 32;

/// The integer registers `x0` to `x31`. Register `x0` is hardwired to zero:
/// it reads as zero whatever is written to it.
#[derive(Debug)]
pub struct XRegisters {
    xregs: [u32; XREG_COUNT],
}

impl View for XRegisters {
    type V = Seq<u32>;

    /// The values that `x0` to `x31` read as, in order.
    closed spec fn view(&self) -> Seq<u32> {
        self.xregs@.update(0, 0)
    }
}

impl XRegisters {
    #[verifier::type_invariant]
    spec fn zero_is_stored(&self) -> bool {
        self.xregs@[0] == 0
    }

    /// Every register file has `XREG_COUNT` registers, the first of which
    /// reads as zero.
    pub proof fn lemma_zero_register(&self)
        ensures
            self@.len() == XREG_COUNT,
            self@[0] == 0,
    {
    }

    /// A register file with every register cleared.
    pub fn new() -> (regs: Self)
        ensures
            regs@ == Seq::new(XREG_COUNT as nat, |i: int| 0u32),
    {
        let regs = XRegisters { xregs: [0u32; XREG_COUNT] };
        assert(regs@ =~= Seq::new(XREG_COUNT as nat, |i: int| 0u32));
        regs
    }

    /// The value of register `index`; zero for `x0`.
    pub fn read(&self, index: u8) -> (value: u32)
        requires
            index < XREG_COUNT,
        ensures
            value == self@[index as int],
            index == 0 ==> value == 0,
    {
        proof {
            use_type_invariant(self);
        }
        self.xregs[index as usize]
    }

    /// Sets register `index` to `value`. A write to `x0` is discarded.
    pub fn write(&mut self, index: u8, value: u32)
        requires
            index < XREG_COUNT,
        ensures
            final(self)@ == (if index == 0 {
                old(self)@
            } else {
                old(self)@.update(index as int, value)
            }),
    {
        proof {
            use_type_invariant(&*self);
        }
        if index != 0 {
            self.xregs[index as usize] = value;
            assert(self@ =~= old(self)@.update(index as int, value));
        }
    }
}

} // verus!
