use vstd::prelude::*;

verus! {

/// The reality signal processor, as far as the CPU can see it so far: its
/// status register, which always reads as zero (running, no flag set).
#[derive(Debug, Clone, Copy)]
pub struct Rsp {}

impl Default for Rsp {
    /// The RSP after reset.
    fn default() -> (r: Rsp) {
        Rsp {  }
    }
}

impl Rsp {
    /// Reads the SP_STATUS register.
    pub fn read_status_reg(&self) -> (r: u32)
        ensures
            r == 0,
    {
        0
    }
}

} // verus!
