use vstd::prelude::*;

use crate::context::ProcessContext;
use crate::heap::Heap;
use crate::paging::PageTableContext;
use crate::resource::ResourceSet;
use crate::sem::SemaphoreSet;
use crate::stack::Stack;

verus! {

/// The pid of the kernel process.
pub const KERNEL_PID: u16 = 1;

/// The life cycle of a process.
#[derive(Clone, Copy, Debug, PartialEq, Eq, Structural)]
pub enum ProgramStatus {
    Ready,
    Running,
    Blocked,
    Dead,
}

/// The address space of a process: its top-level page table and its stack.
pub struct ProcessVm {
    pub page_table: PageTableContext,
    pub stack: Stack,
}

impl ProcessVm {
    pub open spec fn wf(&self) -> bool {
        self.page_table.wf() && self.stack.wf()
    }

    /// An address space with no stack yet.
    pub fn new(page_table: PageTableContext) -> (r: ProcessVm)
        requires
            page_table.wf(),
        ensures
            r.wf(),
            r.page_table == page_table,
            r.stack.usage == 0,
    {
        ProcessVm { page_table, stack: Stack::empty() }
    }

    /// The kernel's address space uses the kernel stack.
    pub fn init_kernel_vm(self) -> (r: ProcessVm)
        requires
            self.wf(),
        ensures
            r.wf(),
            r.page_table == self.page_table,
            r.stack.usage == crate::stack::KSTACK_DEF_PAGE,
            r.stack.start_page == crate::stack::KSTACK_INIT_BOT / 4096,
    {
        ProcessVm { page_table: self.page_table, stack: Stack::kstack() }
    }

    /// Bytes of stack mapped.
    pub fn memory_usage(&self) -> (r: u64)
        requires
            self.wf(),
        ensures
            r == self.stack.usage * 4096,
    {
        self.stack.memory_usage()
    }

    /// The address space of a forked child: a copy of the page table in
    /// `new_frame` and a stack of the same size at `new_stack_base`.
    pub fn fork(&self, new_frame: u64, new_stack_base: u64) -> (r: ProcessVm)
        requires
            self.wf(),
            new_stack_base <= self.stack.base(),
        ensures
            r.wf(),
            r.page_table.frame == new_frame,
            r.page_table.entries@ == self.page_table.entries@,
            r.stack.start_page == new_stack_base / 4096,
            r.stack.usage == self.stack.usage,
    {
        ProcessVm {
            page_table: self.page_table.fork(new_frame),
            stack: self.stack.fork(new_stack_base),
        }
    }
}

/// What a process shares with the processes forked from it: environment,
/// open streams, semaphores and heap.
pub struct ProcessData {
    pub env: Vec<(String, String)>,
    pub resources: ResourceSet,
    pub semaphores: SemaphoreSet,
    pub heap: Heap,
}

/// The value bound to `key` in `env`: the last binding wins.
pub open spec fn env_lookup(env: Seq<(String, String)>, key: Seq<char>) -> Option<Seq<char>>
    decreases env.len(),
{
    if env.len() == 0 {
        None
    } else if env.last().0@ == key {
        Some(env.last().1@)
    } else {
        env_lookup(env.drop_last(), key)
    }
}

impl ProcessData {
    pub open spec fn wf(&self) -> bool {
        self.resources.wf() && self.semaphores.wf() && self.heap.wf()
    }

    /// No variables, the console streams, no semaphores, an empty heap.
    pub fn new() -> (r: ProcessData)
        ensures
            r.wf(),
            r.env@.len() == 0,
            r.semaphores@ == Map::<u32, crate::sem::Semaphore>::empty(),
            r.resources@.dom() == set![0u8, 1u8, 2u8],
    {
        ProcessData {
            env: Vec::new(),
            resources: ResourceSet::new(),
            semaphores: SemaphoreSet::new(),
            heap: Heap::empty(),
        }
    }

    /// The value of environment variable `key`.
    pub fn env(&self, key: &String) -> (r: Option<String>)
        ensures
            match r {
                Some(v) => env_lookup(self.env@, key@) == Some(v@),
                None => env_lookup(self.env@, key@) is None,
            },
    {
        let mut i: usize = self.env.len();
        assert(self.env@.subrange(0, i as int) =~= self.env@);
        while i > 0
            invariant
                i <= self.env@.len(),
                env_lookup(self.env@.subrange(0, i as int), key@) == env_lookup(self.env@, key@),
            decreases i,
        {
            let ghost pre = self.env@.subrange(0, i as int);
            assert(pre.drop_last() =~= self.env@.subrange(0, i - 1));
            if self.env[i - 1].0 == *key {
                return Some(self.env[i - 1].1.clone());
            }
            i = i - 1;
        }
        None
    }

    /// Binds `key` to `val`.
    pub fn set_env(&mut self, key: &String, val: &String)
        ensures
            final(self).resources == old(self).resources,
            final(self).semaphores == old(self).semaphores,
            final(self).heap == old(self).heap,
            forall|k: Seq<char>|
                #[trigger] env_lookup(final(self).env@, k) == if k == key@ {
                    Some(val@)
                } else {
                    env_lookup(old(self).env@, k)
                },
    {
        self.env.push((key.clone(), val.clone()));
        assert(final(self).env@.drop_last() =~= old(self).env@);
    }
}

/// A process: its identity, family links, accounting, saved registers and
/// the handles it releases when it dies.
pub struct Process {
    pub pid: u16,
    pub name: String,
    pub parent: Option<u16>,
    pub children: Vec<u16>,
    pub ticks_passed: u64,
    pub status: ProgramStatus,
    pub context: ProcessContext,
    pub exit_code: Option<isize>,
    pub vm: Option<ProcessVm>,
    /// Index of the shared data block in the process manager.
    pub data: Option<usize>,
}

/// The lower-case form of a text.
pub uninterp spec fn lowercase_of(s: Seq<char>) -> Seq<char>;

/// Relies on `str::to_lowercase`: the lower-case form depends on the text alone.
#[verifier::external_body]
fn lowercase(s: &str) -> (r: String)
    ensures
        r@ == lowercase_of(s@),
{
    s.to_lowercase()
}

impl Process {
    /// A ready process named `name` (in lower case) with a zeroed context.
    pub fn new(pid: u16, name: &str, parent: Option<u16>, vm: ProcessVm, data: usize) -> (r: Process)
        ensures
            r.pid == pid,
            r.name@ == lowercase_of(name@),
            r.parent == parent,
            r.children@.len() == 0,
            r.ticks_passed == 0,
            r.status == ProgramStatus::Ready,
            r.context == ProcessContext::zeroed(),
            r.exit_code is None,
            r.vm == Some(vm),
            r.data == Some(data),
    {
        Process {
            pid,
            name: lowercase(name),
            parent,
            children: Vec::new(),
            ticks_passed: 0,
            status: ProgramStatus::Ready,
            context: ProcessContext::new(),
            exit_code: None,
            vm: Some(vm),
            data: Some(data),
        }
    }

    pub fn pid(&self) -> (r: u16)
        ensures
            r == self.pid,
    {
        self.pid
    }

    pub fn name(&self) -> (r: &String)
        ensures
            r == &self.name,
    {
        &self.name
    }

    pub fn status(&self) -> (r: ProgramStatus)
        ensures
            r == self.status,
    {
        self.status
    }

    pub fn exit_code(&self) -> (r: Option<isize>)
        ensures
            r == self.exit_code,
    {
        self.exit_code
    }

    pub fn is_ready(&self) -> (r: bool)
        ensures
            r == (self.status == ProgramStatus::Ready),
    {
        self.status == ProgramStatus::Ready
    }

    pub fn is_dead(&self) -> (r: bool)
        ensures
            r == (self.status == ProgramStatus::Dead),
    {
        self.status == ProgramStatus::Dead
    }

    pub fn parent(&self) -> (r: Option<u16>)
        ensures
            r == self.parent,
    {
        self.parent
    }

    pub fn children(&self) -> (r: &Vec<u16>)
        ensures
            r@ == self.children@,
    {
        &self.children
    }
}

} // verus!
