use vstd::prelude::*;

verus! {

/// Size of one page.
pub const PAGE_SIZE: u64 = 0x1000;

/// Size of the private execution stack of each core.
pub const HV_STACK_SIZE: u64 = 0x8_0000;

/// Offset of the stack inside a per-core block (after the header page).
pub const STACK_OFFSET: u64 = 0x1000;

/// Size of one per-core block: header page, stack, and a trailing page
/// for the saved host context and the address-space bookkeeping.
pub const PER_CPU_SIZE: u64 = 0x8_2000;

/// The fixed virtual address at which every core sees its own block.
pub const LOCAL_PER_CPU_BASE: u64 = 0xffff_ff00_0000_0000;

/// Virtual address of physical address zero in the hypervisor's linear map.
pub const PHYS_VIRT_OFFSET: u64 = 0xffff_ff80_0000_0000;

/// Physical address of a virtual address in the linear map.
pub open spec fn spec_virt_to_phys(vaddr: u64) -> u64
    recommends
        vaddr >= PHYS_VIRT_OFFSET,
{
    (vaddr - PHYS_VIRT_OFFSET) as u64
}

/// Translates a virtual address of the linear map to its physical address.
pub fn virt_to_phys(vaddr: u64) -> (r: u64)
    requires
        vaddr >= PHYS_VIRT_OFFSET,
    ensures
        r == spec_virt_to_phys(vaddr),
{
    vaddr - PHYS_VIRT_OFFSET
}

} // verus!
