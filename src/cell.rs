use vstd::prelude::*;

use crate::memory::MemorySet;

verus! {

/// An isolation domain: the template address space that every core clones,
/// and whether the hardware it runs on supports the virtualization engine.
pub struct Cell {
    pub hvm: MemorySet,
    pub virt_supported: bool,
}

impl Cell {
    /// The template address space is well formed.
    pub open spec fn wf(&self) -> bool {
        self.hvm.wf()
    }

    /// A domain over the template `hvm`.
    pub fn new(hvm: MemorySet, virt_supported: bool) -> (r: Cell)
        ensures
            r.hvm == hvm,
            r.virt_supported == virt_supported,
    {
        Cell { hvm, virt_supported }
    }
}

} // verus!
