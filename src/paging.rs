use vstd::prelude::*;

verus! {

/// Entries of a top-level page table.
pub const PAGE_TABLE_ENTRIES: usize = 512;

/// The first entry of the higher (kernel) half.
pub const KERNEL_HALF_START: usize = 256;

/// A top-level page table: the physical frame that holds it and its 512
/// entries.
pub struct PageTableContext {
    pub frame: u64,
    pub entries: Vec<u64>,
}

impl PageTableContext {
    pub open spec fn wf(&self) -> bool {
        self.entries@.len() == PAGE_TABLE_ENTRIES
    }

    /// The table in `frame`, with the entries read from it.
    pub fn new(frame: u64, entries: Vec<u64>) -> (r: PageTableContext)
        requires
            entries@.len() == PAGE_TABLE_ENTRIES,
        ensures
            r.wf(),
            r.frame == frame,
            r.entries@ == entries@,
    {
        PageTableContext { frame, entries }
    }

    /// A copy of this table in `new_frame`: every entry, kernel half and
    /// user half, is copied as it is, so both tables share the lower levels.
    pub fn fork(&self, new_frame: u64) -> (r: PageTableContext)
        requires
            self.wf(),
        ensures
            r.wf(),
            r.frame == new_frame,
            r.entries@ == self.entries@,
    {
        let mut entries: Vec<u64> = Vec::new();
        let mut i: usize = 0;
        while i < self.entries.len()
            invariant
                self.wf(),
                i <= self.entries@.len(),
                entries@ == self.entries@.subrange(0, i as int),
            decreases self.entries@.len() - i,
        {
            entries.push(self.entries[i]);
            assert(self.entries@.subrange(0, i + 1) =~= self.entries@.subrange(0, i as int).push(
                self.entries@[i as int],
            ));
            i = i + 1;
        }
        assert(self.entries@.subrange(0, i as int) =~= self.entries@);
        PageTableContext { frame: new_frame, entries }
    }

    /// The two tables agree on every kernel-half entry.
    pub open spec fn same_kernel_half(&self, other: &PageTableContext) -> bool {
        forall|i: int|
            KERNEL_HALF_START <= i < PAGE_TABLE_ENTRIES ==> #[trigger] self.entries@[i]
                == other.entries@[i]
    }
}

} // verus!
