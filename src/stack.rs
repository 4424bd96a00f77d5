use vstd::prelude::*;

use crate::heap::PAGE_SIZE;

verus! {

/// One past the highest address of the first user stack slot.
pub const STACK_MAX: u64 = 0x4000_0000_0000;

/// Pages in one stack slot.
pub const STACK_MAX_PAGES: u64 = 0x40000;

/// Bytes in one stack slot.
pub const STACK_MAX_SIZE: u64 = 0x4000_0000;

/// Pages a new user stack starts with.
pub const STACK_DEF_PAGE: u64 = 1;

/// Lowest address of a new user stack.
pub const STACK_INIT_BOT: u64 = 0x3fff_ffff_f000;

/// Initial stack pointer of a new user process.
pub const STACK_INIT_TOP: u64 = 0x3fff_ffff_fff8;

/// One past the highest address of the kernel stack.
pub const KSTACK_MAX: u64 = 0xffff_ff02_0000_0000;

/// Pages of the kernel stack.
pub const KSTACK_DEF_PAGE: u64 = 32;

/// Lowest address of the kernel stack.
pub const KSTACK_INIT_BOT: u64 = 0xffff_ff01_fffe_0000;

/// Initial stack pointer of the kernel.
pub const KSTACK_INIT_TOP: u64 = 0xffff_ff01_ffff_fff8;

/// Highest page number plus one.
pub const PAGE_LIMIT: u64 = 0x10_0000_0000_0000;

/// Pages to map for a stack: `count` pages from `first_page` on.
#[derive(Clone, Copy, Debug, PartialEq, Eq, Structural)]
pub struct PageRun {
    pub first_page: u64,
    pub count: u64,
}

/// The mapped pages `[start_page, end_page)` of a stack that grows down
/// inside one slot.
#[derive(Clone, Copy, Debug, PartialEq, Eq, Structural)]
pub struct Stack {
    pub start_page: u64,
    pub end_page: u64,
    pub usage: u64,
}

/// The slot that holds `addr`.
pub open spec fn slot_of(addr: int) -> int {
    addr / STACK_MAX_SIZE as int
}

impl Stack {
    pub open spec fn wf(&self) -> bool {
        &&& self.start_page <= self.end_page < PAGE_LIMIT
        &&& self.usage == self.end_page - self.start_page
    }

    pub open spec fn base(&self) -> int {
        self.start_page * PAGE_SIZE
    }

    /// `size` pages whose highest page is `top`.
    pub fn new(top: u64, size: u64) -> (r: Stack)
        requires
            1 <= size <= top + 1,
            top + 1 < PAGE_LIMIT,
        ensures
            r.wf(),
            r.start_page == top + 1 - size,
            r.end_page == top + 1,
            r.usage == size,
    {
        Stack { start_page: top + 1 - size, end_page: top + 1, usage: size }
    }

    /// A user stack with nothing mapped yet.
    pub fn empty() -> (r: Stack)
        ensures
            r.wf(),
            r.start_page == STACK_INIT_TOP / PAGE_SIZE,
            r.end_page == r.start_page,
            r.usage == 0,
    {
        Stack { start_page: STACK_INIT_TOP / PAGE_SIZE, end_page: STACK_INIT_TOP / PAGE_SIZE, usage: 0 }
    }

    /// The kernel's stack, mapped by the loader.
    pub fn kstack() -> (r: Stack)
        ensures
            r.wf(),
            r.start_page == KSTACK_INIT_BOT / PAGE_SIZE,
            r.end_page == KSTACK_MAX / PAGE_SIZE,
            r.usage == KSTACK_DEF_PAGE,
    {
        Stack {
            start_page: KSTACK_INIT_BOT / PAGE_SIZE,
            end_page: KSTACK_MAX / PAGE_SIZE,
            usage: KSTACK_DEF_PAGE,
        }
    }

    /// The one page a new user stack starts with, to be mapped before `init`.
    pub fn init_pages() -> (r: PageRun)
        ensures
            r.first_page == STACK_INIT_BOT / PAGE_SIZE,
            r.count == STACK_DEF_PAGE,
    {
        PageRun { first_page: STACK_INIT_BOT / PAGE_SIZE, count: STACK_DEF_PAGE }
    }

    /// Records the initial user stack once its page is mapped.
    pub fn init(&mut self)
        requires
            old(self).usage == 0,
        ensures
            final(self).wf(),
            final(self).start_page == STACK_INIT_BOT / PAGE_SIZE,
            final(self).usage == STACK_DEF_PAGE,
    {
        self.start_page = STACK_INIT_BOT / PAGE_SIZE;
        self.end_page = STACK_INIT_BOT / PAGE_SIZE + STACK_DEF_PAGE;
        self.usage = STACK_DEF_PAGE;
    }

    /// Lowest mapped address.
    pub fn start_address(&self) -> (r: u64)
        requires
            self.wf(),
        ensures
            r == self.base(),
    {
        self.start_page * PAGE_SIZE
    }

    /// How far this stack lies from `old_stack`, in the 64-bit ring: added
    /// to a stack pointer into `old_stack`, it gives the same place here.
    pub fn stack_offset(&self, old_stack: &Stack) -> (r: u64)
        requires
            self.wf(),
            old_stack.wf(),
        ensures
            r == (self.base() - old_stack.base()) % 0x1_0000_0000_0000_0000,
    {
        self.start_address().wrapping_sub(old_stack.start_address())
    }

    /// `addr` lies in the slot of this stack.
    pub fn is_on_stack(&self, addr: u64) -> (r: bool)
        requires
            self.wf(),
        ensures
            r == (slot_of(addr as int) == slot_of(self.base())),
    {
        addr / STACK_MAX_SIZE == self.start_address() / STACK_MAX_SIZE
    }

    /// The pages a fault at `addr` asks to map: from the faulting page up
    /// to the lowest mapped page. `None` when `addr` is outside the slot or
    /// not below the mapped pages.
    pub fn handle_page_fault(&self, addr: u64) -> (r: Option<PageRun>)
        requires
            self.wf(),
        ensures
            match r {
                Some(run) => {
                    &&& slot_of(addr as int) == slot_of(self.base())
                    &&& run.first_page == addr / PAGE_SIZE
                    &&& run.first_page < self.start_page
                    &&& run.count == self.start_page - run.first_page
                },
                None => slot_of(addr as int) != slot_of(self.base()) || addr / PAGE_SIZE
                    >= self.start_page,
            },
    {
        if !self.is_on_stack(addr) {
            return None;
        }
        let page = addr / PAGE_SIZE;
        if page >= self.start_page {
            return None;
        }
        Some(PageRun { first_page: page, count: self.start_page - page })
    }

    /// Records that the stack now reaches down to `first_page`.
    pub fn grow_to(&mut self, first_page: u64)
        requires
            old(self).wf(),
            first_page <= old(self).start_page,
        ensures
            final(self).wf(),
            final(self).start_page == first_page,
            final(self).end_page == old(self).end_page,
            final(self).usage == old(self).usage + (old(self).start_page - first_page),
    {
        self.start_page = first_page;
        self.usage = self.end_page - first_page;
    }

    /// Bytes mapped.
    pub fn memory_usage(&self) -> (r: u64)
        requires
            self.wf(),
        ensures
            r == self.usage * PAGE_SIZE,
    {
        self.usage * PAGE_SIZE
    }

    /// The first place to try for the stack of a forked child:
    /// `count` slots below this stack.
    pub fn fork_base(&self, count: u64) -> (r: Option<u64>)
        requires
            self.wf(),
        ensures
            self.base() >= count * STACK_MAX_SIZE ==> r == Some((self.base() - count
                * STACK_MAX_SIZE) as u64),
            self.base() < count * STACK_MAX_SIZE ==> r is None,
    {
        let base = self.start_address();
        if count > base / STACK_MAX_SIZE {
            assert(base < count * STACK_MAX_SIZE) by (nonlinear_arith)
                requires
                    count > base / STACK_MAX_SIZE,
                    STACK_MAX_SIZE > 0,
            ;
            return None;
        }
        assert(count * STACK_MAX_SIZE <= base) by (nonlinear_arith)
            requires
                count <= base / STACK_MAX_SIZE,
                STACK_MAX_SIZE > 0,
        ;
        Some(base - count * STACK_MAX_SIZE)
    }

    /// The next place to try when `base` is taken: one slot lower.
    pub fn next_fork_base(base: u64) -> (r: Option<u64>)
        ensures
            base >= STACK_MAX_SIZE ==> r == Some((base - STACK_MAX_SIZE) as u64),
            base < STACK_MAX_SIZE ==> r is None,
    {
        if base >= STACK_MAX_SIZE {
            Some(base - STACK_MAX_SIZE)
        } else {
            None
        }
    }

    /// The pages a child stack at `new_base` needs: as many as this one.
    pub fn fork_pages(&self, new_base: u64) -> (r: PageRun)
        requires
            self.wf(),
        ensures
            r.first_page == new_base / PAGE_SIZE,
            r.count == self.usage,
    {
        PageRun { first_page: new_base / PAGE_SIZE, count: self.usage }
    }

    /// The child's copy of this stack, placed at `new_base`.
    pub fn fork(&self, new_base: u64) -> (r: Stack)
        requires
            self.wf(),
            new_base <= self.base(),
        ensures
            r.wf(),
            r.start_page == new_base / PAGE_SIZE,
            r.usage == self.usage,
            r.end_page == r.start_page + self.usage,
    {
        let start = new_base / PAGE_SIZE;
        assert(start <= self.start_page) by (nonlinear_arith)
            requires
                new_base <= self.start_page * 4096,
                start == new_base / 4096,
        ;
        Stack { start_page: start, end_page: start + self.usage, usage: self.usage }
    }

    /// The pages to unmap when the process ends; the stack is then empty.
    pub fn clean_up(&mut self) -> (r: Option<PageRun>)
        requires
            old(self).wf(),
        ensures
            final(self).usage == 0,
            final(self).wf(),
            old(self).usage == 0 ==> r is None,
            old(self).usage > 0 ==> r == Some(
                PageRun { first_page: old(self).start_page, count: old(self).usage },
            ),
    {
        if self.usage == 0 {
            return None;
        }
        let run = PageRun { first_page: self.start_page, count: self.usage };
        self.end_page = self.start_page;
        self.usage = 0;
        Some(run)
    }
}

} // verus!
