use vstd::prelude::*;

verus! {

/// Size of one page.
pub const PAGE_SIZE: u64 = 4096;

/// First address of every user heap.
pub const HEAP_START: u64 = 0x2000_0000_0000;

/// Number of pages a user heap may span.
pub const HEAP_PAGES: u64 = 0x100000;

/// Bytes a user heap may span (4 GiB).
pub const HEAP_SIZE: u64 = 0x1_0000_0000;

/// The pages (by number) that a heap `[base, end)` keeps mapped: from the
/// base page up to the page that holds the last byte before `end`.
pub open spec fn heap_page_end(base: u64, end: u64) -> int {
    if end == base {
        base as int / PAGE_SIZE as int
    } else {
        end as int / PAGE_SIZE as int + 1
    }
}

pub open spec fn heap_pages(base: u64, end: u64) -> Set<int> {
    Set::new(|p: int| base as int / PAGE_SIZE as int <= p < heap_page_end(base, end))
}

/// What moving the end of a heap does to the page tables.
#[derive(Clone, Copy, Debug, PartialEq, Eq, Structural)]
pub enum PageChange {
    Keep,
    MapPages { first_page: u64, count: u64 },
    UnmapPages { first_page: u64, count: u64 },
}

/// The pages that a change touches.
pub open spec fn change_pages(c: PageChange) -> Set<int> {
    match c {
        PageChange::Keep => Set::empty(),
        PageChange::MapPages { first_page, count } => Set::new(
            |p: int| first_page <= p < first_page + count,
        ),
        PageChange::UnmapPages { first_page, count } => Set::new(
            |p: int| first_page <= p < first_page + count,
        ),
    }
}

/// The pages between two heap ends, to map when the end grows and to
/// unmap when it shrinks.
pub open spec fn page_change_of(cur_page: int, new_page: int) -> PageChange {
    if new_page > cur_page {
        PageChange::MapPages { first_page: cur_page as u64, count: (new_page - cur_page) as u64 }
    } else if new_page < cur_page {
        PageChange::UnmapPages { first_page: new_page as u64, count: (cur_page - new_page) as u64 }
    } else {
        PageChange::Keep
    }
}

/// The first step of `brk`.
#[derive(Clone, Copy, Debug, PartialEq, Eq, Structural)]
pub enum BrkPlan {
    /// A query: the current end.
    Report(u64),
    /// The requested end lies outside the heap's window.
    Reject,
    /// The end may move to `new_end` once `change` has been carried out.
    Move { new_end: u64, change: PageChange },
}

/// A user heap `[base, end)`, always inside `[base, base + HEAP_SIZE]`.
#[derive(Clone, Copy, Debug)]
pub struct Heap {
    pub base: u64,
    pub end: u64,
}

/// What `brk` decides on heap `h` for the request `new_end`.
pub open spec fn brk_plan_of(h: Heap, new_end: Option<u64>) -> BrkPlan {
    match new_end {
        None => BrkPlan::Report(h.end),
        Some(x) => if x < h.base || h.base + HEAP_SIZE < x {
            BrkPlan::Reject
        } else {
            BrkPlan::Move {
                new_end: x,
                change: page_change_of(heap_page_end(h.base, h.end), heap_page_end(h.base, x)),
            }
        },
    }
}

/// The heap and the result after a `brk` to `new_end` whose page change
/// succeeded or not.
pub open spec fn finish_of(h: Heap, new_end: u64, change_done: bool) -> (Heap, Option<u64>) {
    if change_done {
        (Heap { end: new_end, ..h }, Some(new_end))
    } else {
        (h, None)
    }
}

impl Heap {
    pub open spec fn wf(&self) -> bool {
        &&& self.base % PAGE_SIZE == 0
        &&& self.base <= self.end <= self.base + HEAP_SIZE
        &&& self.base + HEAP_SIZE <= u64::MAX
    }

    /// A heap with nothing mapped.
    pub fn empty() -> (r: Heap)
        ensures
            r.wf(),
            r.base == HEAP_START,
            r.end == HEAP_START,
    {
        Heap { base: HEAP_START, end: HEAP_START }
    }

    /// A forked process shares the heap of its parent.
    pub fn fork(&self) -> (r: Heap)
        ensures
            r.base == self.base,
            r.end == self.end,
    {
        Heap { base: self.base, end: self.end }
    }

    fn end_page(&self, end: u64) -> (r: u64)
        requires
            self.wf(),
            self.base <= end <= self.base + HEAP_SIZE,
        ensures
            r == heap_page_end(self.base, end),
    {
        if end == self.base {
            self.base / PAGE_SIZE
        } else {
            end / PAGE_SIZE + 1
        }
    }

    /// Decides a `brk` call: `None` asks for the current end; an end
    /// outside `[base, base + HEAP_SIZE]` is refused; any other end comes
    /// with the pages to map (growing) or unmap (shrinking).
    pub fn brk(&self, new_end: Option<u64>) -> (r: BrkPlan)
        requires
            self.wf(),
        ensures
            r == brk_plan_of(*self, new_end),
    {
        match new_end {
            None => BrkPlan::Report(self.end),
            Some(x) => {
                if x < self.base || self.base + HEAP_SIZE < x {
                    return BrkPlan::Reject;
                }
                let cur_page = self.end_page(self.end);
                let new_page = self.end_page(x);
                let change = if new_page > cur_page {
                    PageChange::MapPages { first_page: cur_page, count: new_page - cur_page }
                } else if new_page < cur_page {
                    PageChange::UnmapPages { first_page: new_page, count: cur_page - new_page }
                } else {
                    PageChange::Keep
                };
                BrkPlan::Move { new_end: x, change }
            },
        }
    }

    /// Ends a `brk` call once the planned page change has been tried: on
    /// success the end moves to the planned end, on failure nothing changes.
    pub fn finish_brk(&mut self, new_end: u64, change_done: bool) -> (r: Option<u64>)
        requires
            old(self).wf(),
            old(self).base <= new_end <= old(self).base + HEAP_SIZE,
        ensures
            final(self).wf(),
            (*final(self), r) == finish_of(*old(self), new_end, change_done),
    {
        if change_done {
            self.end = new_end;
            Some(new_end)
        } else {
            None
        }
    }

    /// Empties the heap when its process ends: the end goes back to the
    /// base, and the answer names the pages to unmap (those `brk` mapped).
    pub fn clean_up(&mut self) -> (r: PageChange)
        requires
            old(self).wf(),
        ensures
            final(self).wf(),
            final(self).base == old(self).base,
            final(self).end == old(self).base,
            change_pages(r) == heap_pages(old(self).base, old(self).end),
            r is UnmapPages || r is Keep,
    {
        if self.end == self.base {
            assert(heap_pages(self.base, self.end) =~= Set::<int>::empty());
            return PageChange::Keep;
        }
        let first = self.base / PAGE_SIZE;
        let last = self.end_page(self.end);
        let r = PageChange::UnmapPages { first_page: first, count: last - first };
        assert(change_pages(r) =~= heap_pages(self.base, self.end));
        self.end = self.base;
        r
    }

    /// Bytes between base and end.
    pub fn memory_usage(&self) -> (r: u64)
        requires
            self.wf(),
        ensures
            r == self.end - self.base,
    {
        self.end - self.base
    }
}

/// A `brk` to `x` inside the window either fails and leaves the end where it
/// was, or moves the end to `x`; the pages it maps or unmaps are exactly
/// those that the old and the new heap do not share.
pub proof fn brk_moves_exactly_the_difference(h: Heap, x: u64, change_done: bool)
    requires
        h.wf(),
        h.base <= x <= h.base + HEAP_SIZE,
    ensures
        brk_plan_of(h, Some(x)) is Move,
        brk_plan_of(h, Some(x))->new_end == x,
        change_pages(brk_plan_of(h, Some(x))->change) == heap_pages(h.base, h.end).difference(
            heap_pages(h.base, x),
        ).union(heap_pages(h.base, x).difference(heap_pages(h.base, h.end))),
        finish_of(h, x, change_done).1 is None ==> finish_of(h, x, change_done).0.end == h.end,
        finish_of(h, x, change_done).1 is Some ==> finish_of(h, x, change_done).1 == Some(x)
            && finish_of(h, x, change_done).0.end == x,
{
    let old_set = heap_pages(h.base, h.end);
    let new_set = heap_pages(h.base, x);
    assert(change_pages(brk_plan_of(h, Some(x))->change) =~= old_set.difference(new_set).union(
        new_set.difference(old_set),
    ));
}

} // verus!
