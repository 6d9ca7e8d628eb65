//! Storage locations for intra-procedural dataflow analysis. These are only
//! used when analysing code (within one subroutine, so `$sp` and `$gp` can be
//! assumed constant throughout); they play no part in execution.

use vstd::prelude::*;
use crate::regs::Reg;

verus! {

/// A storage location.
#[derive(Debug)]
pub enum StgLoc {
    /// A register.
    Reg(Reg),
    /// A (possibly unbound) alias to another storage location.
    Tmp(String),
    /// A stack slot, addressed off `$sp`.
    StackVar { simm10_offset: i16 },
    /// A global slot, addressed off `$gp`.
    GlobalVar { simm10_offset: i16 },
}

impl StgLoc {
    /// The stack slot at the given offset off `$sp`.
    pub fn stack_var(simm10_offset: i16) -> (r: StgLoc)
        ensures
            r == (StgLoc::StackVar { simm10_offset }),
    {
        StgLoc::StackVar { simm10_offset }
    }

    /// The global slot at the given offset off `$gp`.
    pub fn global_var(simm10_offset: i16) -> (r: StgLoc)
        ensures
            r == (StgLoc::GlobalVar { simm10_offset }),
    {
        StgLoc::GlobalVar { simm10_offset }
    }

    /// The location naming a register.
    pub fn from_reg(reg: Reg) -> (r: StgLoc)
        ensures
            r == StgLoc::Reg(reg),
    {
        StgLoc::Reg(reg)
    }
}

} // verus!
