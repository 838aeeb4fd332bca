//! The memory management unit.
//!
//! This core runs on the identity mapping: bringing the unit up changes
//! nothing and cannot fail.

use vstd::prelude::*;

verus! {

pub struct Mmu;

impl Mmu {
    /// Accepts the identity mapping; nothing to program yet.
    pub fn init() -> (r: Result<(), &'static str>)
        ensures
            r is Ok,
    {
        Ok(())
    }
}

} // verus!
