//! Low-level view of the option bytes: where they are and how a cell is coded.

use vstd::prelude::*;

pub mod ob;

verus! {

/// Low-level option bytes interface.
pub struct OB;

/// Address of the option bytes register block.
pub open spec fn base_address() -> usize {
    0x1ff8_0000
}

impl OB {
    /// Address of the register block.
    pub fn ptr() -> (r: usize)
        ensures
            r == base_address(),
    {
        0x1ff8_0000
    }

    /// The cells of the register block.
    pub fn block(&self) -> (r: ob::RegisterBlock)
        ensures
            r == ob::RegisterBlock::layout(),
    {
        ob::RegisterBlock::new()
    }
}

} // verus!
