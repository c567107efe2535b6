use vstd::prelude::*;

verus! {

/// A bus with nothing attached: every address reads as 0.
pub struct Memory {}

impl Memory {
    pub fn read_memory(&self, address: u16) -> (r: u8)
        ensures
            r == 0,
    {
        0
    }
}

} // verus!
