//! The memory-accessibility oracle: a model of the target address space as
//! the region-query call reports it, word-addressed. Every foreign pointer
//! the hook engine touches is validated against this oracle before any
//! dereference; tests drive the engine with synthetic maps.

use vstd::prelude::*;

verus! {

/// One region of the address space, as a region query reports it:
/// a base word address, the words it holds, and its state and protection.
#[derive(Clone, Debug)]
pub struct MemRegion {
    /// Word address of the first word of the region.
    pub base: u64,
    /// The region's contents, one entry per word.
    pub words: Vec<u64>,
    /// The region is committed (backed by storage).
    pub committed: bool,
    /// The region is marked no-access.
    pub no_access: bool,
    /// The region is a guard page.
    pub guard: bool,
    /// The region is mapped executable.
    pub executable: bool,
    /// Base of the allocation (module image) this region belongs to.
    pub allocation_base: u64,
}

impl MemRegion {
    /// The region's words cover addresses `[base, base + words.len())`,
    /// which must lie within the address space.
    pub open spec fn wf(self) -> bool {
        self.base + self.words@.len() <= u64::MAX
    }

    /// The address lies inside this region.
    pub open spec fn contains(self, addr: u64) -> bool {
        self.base <= addr < self.base + self.words@.len()
    }

    /// The whole word range `[addr, addr + nwords)` lies inside this region.
    pub open spec fn contains_range(self, addr: u64, nwords: int) -> bool {
        self.base <= addr && addr + nwords <= self.base + self.words@.len()
    }

    /// Committed and neither no-access nor guard: safe to read.
    pub open spec fn is_readable(self) -> bool {
        self.committed && !self.no_access && !self.guard
    }

    /// Committed, executable, and neither no-access nor guard.
    pub open spec fn is_executable(self) -> bool {
        self.committed && self.executable && !self.no_access && !self.guard
    }
}

/// The address space: the regions a sequence of region queries would
/// report. A query for an address answers with the first region listed
/// that contains it.
#[derive(Clone, Debug)]
pub struct AddressSpace {
    pub regions: Vec<MemRegion>,
}

/// Index of the first region of `regions` from `i` on that contains `addr`.
pub open spec fn spec_find_region_from(regions: Seq<MemRegion>, addr: u64, i: int) -> Option<int>
    decreases regions.len() - i when 0 <= i <= regions.len()
{
    if i >= regions.len() {
        None
    } else if regions[i].contains(addr) {
        Some(i)
    } else {
        spec_find_region_from(regions, addr, i + 1)
    }
}

/// A successful region search reports an index in range whose region
/// contains the address.
pub proof fn lemma_find_region_in_bounds(regions: Seq<MemRegion>, addr: u64, i: int)
    requires
        0 <= i <= regions.len(),
        spec_find_region_from(regions, addr, i) is Some,
    ensures
        i <= spec_find_region_from(regions, addr, i)->Some_0 < regions.len(),
        regions[spec_find_region_from(regions, addr, i)->Some_0].contains(addr),
    decreases regions.len() - i,
{
    if i < regions.len() && !regions[i].contains(addr) {
        lemma_find_region_in_bounds(regions, addr, i + 1);
    }
}

/// Two regions cover disjoint word ranges.
pub open spec fn regions_disjoint(a: MemRegion, b: MemRegion) -> bool {
    a.base + a.words@.len() <= b.base || b.base + b.words@.len() <= a.base
}

impl AddressSpace {
    /// Every region lies within the address space, and regions are
    /// pairwise disjoint, as a sequence of region queries reports them.
    pub open spec fn wf(self) -> bool {
        &&& forall|i: int| 0 <= i < self.regions@.len() ==> (#[trigger] self.regions@[i]).wf()
        &&& forall|i: int, j: int|
            0 <= i < j < self.regions@.len() ==> regions_disjoint(
                #[trigger] self.regions@[i],
                #[trigger] self.regions@[j],
            )
    }

    /// With disjoint regions, a query for any address a region contains
    /// answers with that region.
    pub proof fn lemma_region_of_unique(self, addr: u64, i: int)
        requires
            self.wf(),
            0 <= i < self.regions@.len(),
            self.regions@[i].contains(addr),
        ensures
            self.spec_region_of(addr) == Some(i),
    {
        self.lemma_region_of_unique_from(addr, i, 0);
    }

    proof fn lemma_region_of_unique_from(self, addr: u64, i: int, k: int)
        requires
            self.wf(),
            0 <= k <= i < self.regions@.len(),
            self.regions@[i].contains(addr),
        ensures
            spec_find_region_from(self.regions@, addr, k) == Some(i),
        decreases i - k,
    {
        if k < i {
            assert(regions_disjoint(self.regions@[k], self.regions@[i]));
            assert(!self.regions@[k].contains(addr));
            self.lemma_region_of_unique_from(addr, i, k + 1);
        }
    }

    /// The region a query for `addr` reports, if any.
    pub open spec fn spec_region_of(self, addr: u64) -> Option<int> {
        spec_find_region_from(self.regions@, addr, 0)
    }

    /// A null pointer is never readable; otherwise the region query must
    /// report a committed, accessible, non-guard region and the whole
    /// word range must lie inside it.
    pub open spec fn spec_is_readable(self, addr: u64, nwords: int) -> bool {
        &&& addr != 0
        &&& match self.spec_region_of(addr) {
            Some(i) => self.regions@[i].is_readable() && self.regions@[i].contains_range(
                addr,
                nwords,
            ),
            None => false,
        }
    }

    /// A null pointer is never executable; otherwise the region query
    /// must report a committed, executable, non-guard region.
    pub open spec fn spec_is_executable(self, addr: u64) -> bool {
        &&& addr != 0
        &&& match self.spec_region_of(addr) {
            Some(i) => self.regions@[i].is_executable(),
            None => false,
        }
    }

    /// The word stored at `addr`, defined only where `addr` is readable.
    pub open spec fn spec_word_at(self, addr: u64) -> u64 {
        match self.spec_region_of(addr) {
            Some(i) => self.regions@[i].words@[addr - self.regions@[i].base],
            None => 0,
        }
    }

    fn find_region(&self, addr: u64) -> (r: Option<usize>)
        requires
            self.wf(),
        ensures
            match r {
                Some(i) => self.spec_region_of(addr) == Some(i as int) && i < self.regions@.len()
                    && self.regions@[i as int].contains(addr),
                None => self.spec_region_of(addr) is None,
            },
    {
        let mut i: usize = 0;
        while i < self.regions.len()
            invariant
                self.wf(),
                i <= self.regions@.len(),
                spec_find_region_from(self.regions@, addr, 0) == spec_find_region_from(
                    self.regions@,
                    addr,
                    i as int,
                ),
            decreases self.regions@.len() - i,
        {
            let reg = &self.regions[i];
            if reg.base <= addr && addr - reg.base < reg.words.len() as u64 {
                return Some(i);
            }
            i += 1;
        }
        None
    }

    /// Whether the word range `[addr, addr + nwords)` is committed,
    /// accessible, non-guard memory.
    pub fn is_readable_ptr(&self, addr: u64, nwords: u64) -> (r: bool)
        requires
            self.wf(),
        ensures
            r == self.spec_is_readable(addr, nwords as int),
    {
        if addr == 0 {
            return false;
        }
        match self.find_region(addr) {
            Some(i) => {
                let reg = &self.regions[i];
                reg.committed && !reg.no_access && !reg.guard && nwords <= reg.words.len() as u64
                    && addr - reg.base <= reg.words.len() as u64 - nwords
            },
            None => false,
        }
    }

    /// Whether `addr` lies in committed, executable, non-guard memory.
    pub fn is_executable_ptr(&self, addr: u64) -> (r: bool)
        requires
            self.wf(),
        ensures
            r == self.spec_is_executable(addr),
    {
        if addr == 0 {
            return false;
        }
        match self.find_region(addr) {
            Some(i) => {
                let reg = &self.regions[i];
                reg.committed && reg.executable && !reg.no_access && !reg.guard
            },
            None => false,
        }
    }

    /// The word at `addr`, if `addr` is readable.
    pub fn read_word(&self, addr: u64) -> (r: Option<u64>)
        requires
            self.wf(),
        ensures
            r == if self.spec_is_readable(addr, 1) {
                Some(self.spec_word_at(addr))
            } else {
                None::<u64>
            },
    {
        if !self.is_readable_ptr(addr, 1) {
            return None;
        }
        match self.find_region(addr) {
            Some(i) => {
                let reg = &self.regions[i];
                let n: usize = reg.words.len();
                let idx: u64 = addr - reg.base;
                assert(idx < n as u64);
                Some(reg.words[idx as usize])
            },
            None => None,
        }
    }

    /// No word range reaching past the end of the address space is
    /// readable: every well-formed region ends at or before the top.
    pub proof fn lemma_range_beyond_space_unreadable(self, addr: u64, nwords: int)
        requires
            self.wf(),
            addr + nwords > u64::MAX,
        ensures
            !self.spec_is_readable(addr, nwords),
    {
        if self.spec_region_of(addr) is Some {
            lemma_find_region_in_bounds(self.regions@, addr, 0);
            let i = self.spec_region_of(addr)->Some_0;
            assert(self.regions@[i].wf());
        }
    }

    /// Whether `addr` lies in a region whose allocation base is
    /// `module_base`, the test the engine uses to recognize addresses
    /// inside a known runtime module.
    pub open spec fn spec_in_module(self, addr: u64, module_base: u64) -> bool {
        &&& addr != 0
        &&& match self.spec_region_of(addr) {
            Some(i) => self.regions@[i].allocation_base == module_base,
            None => false,
        }
    }

    pub fn is_ptr_in_module(&self, addr: u64, module_base: u64) -> (r: bool)
        requires
            self.wf(),
        ensures
            r == self.spec_in_module(addr, module_base),
    {
        if addr == 0 {
            return false;
        }
        match self.find_region(addr) {
            Some(i) => self.regions[i].allocation_base == module_base,
            None => false,
        }
    }

    /// Whether `addr` lies in one of the listed runtime modules.
    pub fn is_ptr_in_runtime(&self, addr: u64, runtime_bases: &[u64]) -> (r: bool)
        requires
            self.wf(),
        ensures
            r == exists|k: int|
                0 <= k < runtime_bases@.len() && self.spec_in_module(addr, runtime_bases@[k]),
    {
        let mut k: usize = 0;
        while k < runtime_bases.len()
            invariant
                k <= runtime_bases@.len(),
                self.wf(),
                forall|j: int| 0 <= j < k ==> !self.spec_in_module(addr, runtime_bases@[j]),
            decreases runtime_bases@.len() - k,
        {
            if self.is_ptr_in_module(addr, runtime_bases[k]) {
                return true;
            }
            k += 1;
        }
        false
    }
}

} // verus!
