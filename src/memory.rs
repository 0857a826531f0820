use vstd::prelude::*;

use crate::error::{HvError, HvResult};

verus! {

/// Access rights of a mapped region.
#[derive(Debug, Clone, Copy, PartialEq, Eq, Structural)]
pub struct MemFlags {
    pub read: bool,
    pub write: bool,
    pub execute: bool,
}

impl MemFlags {
    /// Read and write, no execute.
    pub fn read_write() -> (r: MemFlags)
        ensures
            r == (MemFlags { read: true, write: true, execute: false }),
    {
        MemFlags { read: true, write: true, execute: false }
    }
}

/// A contiguous virtual range `[start, start + size)` mapped onto the
/// physical range `[phys, phys + size)`.
#[derive(Debug, Clone, Copy, PartialEq, Eq, Structural)]
pub struct MemoryRegion {
    pub start: u64,
    pub phys: u64,
    pub size: u64,
    pub flags: MemFlags,
}

impl MemoryRegion {
    /// A region is well formed when it is not empty and both of its ranges
    /// stay inside the address space.
    pub open spec fn wf(self) -> bool {
        &&& self.size > 0
        &&& self.start + self.size <= u64::MAX
        &&& self.phys + self.size <= u64::MAX
    }

    /// Whether `vaddr` falls inside the virtual range.
    pub open spec fn covers(self, vaddr: int) -> bool {
        self.start <= vaddr < self.start + self.size
    }

    /// Whether two regions share a virtual address.
    pub open spec fn overlaps(self, other: MemoryRegion) -> bool {
        self.start < other.start + other.size && other.start < self.start + self.size
    }

    /// A region that maps `size` bytes at `start` to `phys` with a fixed offset.
    pub fn new_with_offset_mapper(start: u64, phys: u64, size: u64, flags: MemFlags) -> (r:
        MemoryRegion)
        ensures
            r == (MemoryRegion { start, phys, size, flags }),
    {
        MemoryRegion { start, phys, size, flags }
    }

    fn overlaps_exec(&self, other: &MemoryRegion) -> (r: bool)
        requires
            self.wf(),
            other.wf(),
        ensures
            r == self.overlaps(*other),
    {
        self.start < other.start + other.size && other.start < self.start + self.size
    }
}

/// An address space: a set of pairwise disjoint mapped regions.
pub struct MemorySet {
    regions: Vec<MemoryRegion>,
}

impl View for MemorySet {
    type V = Set<MemoryRegion>;

    closed spec fn view(&self) -> Set<MemoryRegion> {
        self.regions@.to_set()
    }
}

/// The physical address that `vaddr` reaches through the regions of `s`.
pub open spec fn translates(s: Set<MemoryRegion>, vaddr: int, paddr: int) -> bool {
    exists|r: MemoryRegion| #[trigger] s.contains(r) && r.covers(vaddr) && paddr == r.phys + (vaddr - r.start)
}

/// Whether `r` can join the regions of `s` without overlapping any of them.
pub open spec fn fits(s: Set<MemoryRegion>, r: MemoryRegion) -> bool {
    forall|q: MemoryRegion| #[trigger] s.contains(q) ==> !q.overlaps(r)
}

/// Whether some region of `s` starts at `vaddr`.
pub open spec fn has_start(s: Set<MemoryRegion>, vaddr: u64) -> bool {
    exists|q: MemoryRegion| #[trigger] s.contains(q) && q.start == vaddr
}

impl MemorySet {
    /// Every region is well formed and no two regions overlap.
    pub closed spec fn wf(&self) -> bool {
        &&& forall|i: int| 0 <= i < self.regions@.len() ==> (#[trigger] self.regions@[i]).wf()
        &&& forall|i: int, j: int|
            0 <= i < self.regions@.len() && 0 <= j < self.regions@.len() && i != j
                ==> !(#[trigger] self.regions@[i]).overlaps(#[trigger] self.regions@[j])
    }

    /// The regions of a well-formed set are well formed and pairwise disjoint.
    pub proof fn lemma_wf_regions(&self)
        requires
            self.wf(),
        ensures
            forall|r: MemoryRegion| #[trigger] self@.contains(r) ==> r.wf(),
            forall|a: MemoryRegion, b: MemoryRegion|
                #![trigger self@.contains(a), self@.contains(b)]
                self@.contains(a) && self@.contains(b) && a != b ==> !a.overlaps(b),
    {
        assert forall|r: MemoryRegion| #[trigger] self@.contains(r) implies r.wf() by {
            let i = choose|i: int| 0 <= i < self.regions@.len() && self.regions@[i] == r;
            assert(self.regions@[i].wf());
        }
        assert forall|a: MemoryRegion, b: MemoryRegion|
            self@.contains(a) && self@.contains(b) && a != b implies !a.overlaps(b) by {
            let i = choose|i: int| 0 <= i < self.regions@.len() && self.regions@[i] == a;
            let j = choose|j: int| 0 <= j < self.regions@.len() && self.regions@[j] == b;
            assert(!self.regions@[i].overlaps(self.regions@[j]));
        }
    }

    /// An empty address space.
    pub fn new() -> (r: MemorySet)
        ensures
            r.wf(),
            r@ == Set::<MemoryRegion>::empty(),
    {
        let r = MemorySet { regions: Vec::new() };
        assert(r@ =~= Set::<MemoryRegion>::empty());
        r
    }

    /// A copy with the same regions.
    pub fn duplicate(&self) -> (r: MemorySet)
        requires
            self.wf(),
        ensures
            r.wf(),
            r@ == self@,
    {
        let mut regions: Vec<MemoryRegion> = Vec::new();
        let mut i: usize = 0;
        while i < self.regions.len()
            invariant
                i <= self.regions@.len(),
                regions@ == self.regions@.subrange(0, i as int),
            decreases self.regions@.len() - i,
        {
            regions.push(self.regions[i]);
            i = i + 1;
            assert(regions@ =~= self.regions@.subrange(0, i as int));
        }
        assert(regions@ =~= self.regions@);
        MemorySet { regions }
    }

    /// Whether some region starts at `vaddr`.
    pub fn contains_start(&self, vaddr: u64) -> (r: bool)
        ensures
            r == has_start(self@, vaddr),
    {
        let mut i: usize = 0;
        while i < self.regions.len()
            invariant
                i <= self.regions@.len(),
                forall|k: int| 0 <= k < i ==> (#[trigger] self.regions@[k]).start != vaddr,
            decreases self.regions@.len() - i,
        {
            if self.regions[i].start == vaddr {
                proof {
                    assert(self@.contains(self.regions@[i as int]));
                }
                return true;
            }
            i = i + 1;
        }
        proof {
            assert forall|q: MemoryRegion| #[trigger] self@.contains(q) implies q.start != vaddr by {
                let k = choose|k: int| 0 <= k < self.regions@.len() && self.regions@[k] == q;
                assert(self.regions@[k].start != vaddr);
            }
        }
        false
    }

    /// The physical address that `vaddr` reaches, if a region covers it.
    pub fn translate(&self, vaddr: u64) -> (r: Option<u64>)
        requires
            self.wf(),
        ensures
            r matches Some(p) ==> translates(self@, vaddr as int, p as int),
            r is None ==> forall|q: MemoryRegion| #[trigger] self@.contains(q) ==> !q.covers(vaddr as int),
    {
        let mut i: usize = 0;
        while i < self.regions.len()
            invariant
                i <= self.regions@.len(),
                self.wf(),
                forall|k: int| 0 <= k < i ==> !(#[trigger] self.regions@[k]).covers(vaddr as int),
            decreases self.regions@.len() - i,
        {
            let r = self.regions[i];
            if r.start <= vaddr && vaddr - r.start < r.size {
                proof {
                    assert(r.wf());
                    assert(self@.contains(r));
                }
                return Some(r.phys + (vaddr - r.start));
            }
            i = i + 1;
        }
        proof {
            assert forall|q: MemoryRegion| #[trigger] self@.contains(q) implies !q.covers(vaddr as int) by {
                let k = choose|k: int| 0 <= k < self.regions@.len() && self.regions@[k] == q;
                assert(!self.regions@[k].covers(vaddr as int));
            }
        }
        None
    }

    /// Adds `region`; fails with `MappingConflict` when it overlaps a region
    /// already present, and leaves the set unchanged then.
    pub fn insert(&mut self, region: MemoryRegion) -> (res: HvResult)
        requires
            old(self).wf(),
            region.wf(),
        ensures
            final(self).wf(),
            res is Ok <==> fits(old(self)@, region),
            res is Ok ==> final(self)@ == old(self)@.insert(region),
            res is Err ==> res == Err::<(), HvError>(HvError::MappingConflict) && final(self)@ == old(self)@,
    {
        let mut i: usize = 0;
        while i < self.regions.len()
            invariant
                i <= self.regions@.len(),
                region.wf(),
                self.wf(),
                forall|k: int| 0 <= k < i ==> !(#[trigger] self.regions@[k]).overlaps(region),
            decreases self.regions@.len() - i,
        {
            if self.regions[i].overlaps_exec(&region) {
                proof {
                    let q = self.regions@[i as int];
                    assert(self@.contains(q));
                }
                return Err(HvError::MappingConflict);
            }
            i = i + 1;
        }
        proof {
            assert forall|q: MemoryRegion| #[trigger] old(self)@.contains(q) implies !q.overlaps(region) by {
                let k = choose|k: int| 0 <= k < self.regions@.len() && self.regions@[k] == q;
                assert(!self.regions@[k].overlaps(region));
            }
        }
        let ghost before = self.regions@;
        self.regions.push(region);
        proof {
            assert(self.regions@ == before.push(region));
            assert forall|i: int, j: int|
                0 <= i < self.regions@.len() && 0 <= j < self.regions@.len() && i != j implies
                !(#[trigger] self.regions@[i]).overlaps(#[trigger] self.regions@[j]) by {
                if i < before.len() && j < before.len() {
                    assert(before[i] == self.regions@[i] && before[j] == self.regions@[j]);
                } else if i < before.len() {
                    assert(!before[i].overlaps(region));
                } else if j < before.len() {
                    assert(!before[j].overlaps(region));
                }
            }
            assert(self.wf());
            assert forall|q: MemoryRegion| #[trigger] self@.contains(q) <==> old(self)@.insert(region).contains(q) by {
                if self@.contains(q) {
                    let k = choose|k: int| 0 <= k < self.regions@.len() && self.regions@[k] == q;
                    if k < before.len() {
                        assert(before[k] == q);
                    }
                }
                if old(self)@.contains(q) {
                    let k = choose|k: int| 0 <= k < before.len() && before[k] == q;
                    assert(self.regions@[k] == q);
                }
                if q == region {
                    assert(self.regions@[before.len() as int] == q);
                }
            }
            assert(self@ =~= old(self)@.insert(region));
        }
        Ok(())
    }

    /// Removes the region that starts at `vaddr`; fails with `MappingAbsent`
    /// when none does, and leaves the set unchanged then.
    pub fn delete(&mut self, vaddr: u64) -> (res: HvResult)
        requires
            old(self).wf(),
        ensures
            final(self).wf(),
            res is Ok <==> has_start(old(self)@, vaddr),
            res is Ok ==> final(self)@ == old(self)@.filter(|q: MemoryRegion| q.start != vaddr),
            res is Err ==> res == Err::<(), HvError>(HvError::MappingAbsent) && final(self)@ == old(self)@,
    {
        let mut i: usize = 0;
        while i < self.regions.len()
            invariant
                i <= self.regions@.len(),
                self.wf(),
                self.regions@ == old(self).regions@,
                forall|k: int| 0 <= k < i ==> (#[trigger] self.regions@[k]).start != vaddr,
            decreases self.regions@.len() - i,
        {
            if self.regions[i].start == vaddr {
                let ghost before = self.regions@;
                let ghost idx = i as int;
                self.regions.remove(i);
                proof {
                    assert(self.regions@ == before.remove(idx));
                    assert forall|a: int, b: int|
                        0 <= a < self.regions@.len() && 0 <= b < self.regions@.len() && a != b implies
                        !(#[trigger] self.regions@[a]).overlaps(#[trigger] self.regions@[b]) by {
                        let a2 = if a < idx { a } else { a + 1 };
                        let b2 = if b < idx { b } else { b + 1 };
                        assert(before[a2] == self.regions@[a] && before[b2] == self.regions@[b]);
                    }
                    assert forall|a: int| 0 <= a < self.regions@.len() implies (#[trigger] self.regions@[a]).wf() by {
                        let a2 = if a < idx { a } else { a + 1 };
                        assert(before[a2] == self.regions@[a]);
                    }
                    assert(old(self)@.contains(before[idx]));
                    let f = old(self)@.filter(|q: MemoryRegion| q.start != vaddr);
                    assert forall|q: MemoryRegion| #[trigger] self@.contains(q) <==> f.contains(q) by {
                        if self@.contains(q) {
                            let k = choose|k: int| 0 <= k < self.regions@.len() && self.regions@[k] == q;
                            let k2 = if k < idx { k } else { k + 1 };
                            assert(before[k2] == q);
                            assert(before[idx].wf());
                            assert(!before[idx].overlaps(before[k2]));
                        }
                        if f.contains(q) {
                            let k = choose|k: int| 0 <= k < before.len() && before[k] == q;
                            assert(k != idx);
                            if k < idx {
                                assert(self.regions@[k] == q);
                            } else {
                                assert(self.regions@[k - 1] == q);
                            }
                        }
                    }
                    assert(self@ =~= f);
                }
                return Ok(());
            }
            i = i + 1;
        }
        proof {
            assert forall|q: MemoryRegion| #[trigger] old(self)@.contains(q) implies q.start != vaddr by {
                let k = choose|k: int| 0 <= k < self.regions@.len() && self.regions@[k] == q;
                assert(self.regions@[k].start != vaddr);
            }
        }
        Err(HvError::MappingAbsent)
    }
}

} // verus!
