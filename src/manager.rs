use std::collections::BTreeMap;
use std::collections::VecDeque;
use vstd::prelude::*;

use crate::context::{reg_of, ProcessContext};
use crate::heap::{brk_plan_of, finish_of, BrkPlan, HEAP_SIZE};
use crate::process::{env_lookup, Process, ProcessData, ProcessVm, ProgramStatus, KERNEL_PID};
use crate::resource::{lowest_free_fd, table_full, Resource};
use crate::sem::{signal_spec, wait_spec, SemaphoreResult};
use crate::stack::slot_of;

verus! {

broadcast use vstd::std_specs::btree::group_btree_axioms;

/// The scheduler's tables: every process ever created (pid `i + 1` at
/// index `i`), the ready queue, who waits on whom, the data blocks that
/// processes share, and the processor's current pid and interrupt flag.
pub struct ProcessManager {
    pub processes: Vec<Process>,
    pub ready_queue: VecDeque<u16>,
    pub wait_queue: BTreeMap<u16, Vec<u16>>,
    pub data: Vec<ProcessData>,
    pub current: u16,
    pub interrupts_enabled: bool,
}

/// Error-code bits of a page fault that no stack growth can mend:
/// protection violation (bit 0), malformed table (bit 3), shadow stack
/// (bit 6), SGX (bit 15) and RMP (bit 31).
pub const PF_FATAL_BITS: u64 = 0x8000_8049;

/// Pages to map so that a stack covers a faulting address.
#[derive(Clone, Copy, Debug, PartialEq, Eq, Structural)]
pub struct StackGrowth {
    pub first_page: u64,
    pub count: u64,
    pub user_access: bool,
}

/// The well-formedness of the tables depends only on the processes, the
/// data blocks and the current pid.
proof fn lemma_wf_frame(a: ProcessManager, b: ProcessManager)
    requires
        a.wf(),
        b.processes@ == a.processes@,
        b.data@ == a.data@,
        b.current == a.current,
    ensures
        b.wf(),
{
    assert forall|i: int| 0 <= i < b.processes@.len() implies #[trigger] b.proc_wf(i) by {
        assert(a.proc_wf(i));
    }
    assert forall|d: int| 0 <= d < b.data@.len() implies #[trigger] b.data@[d].wf() by {
        assert(a.data@[d].wf());
    }
}

impl ProcessManager {
    pub open spec fn valid_pid(&self, pid: u16) -> bool {
        1 <= pid <= self.processes@.len()
    }

    pub open spec fn proc_at(&self, pid: u16) -> Process {
        self.processes@[pid - 1]
    }

    pub open spec fn status_of(&self, pid: u16) -> ProgramStatus {
        self.proc_at(pid).status
    }

    /// `pid` names a process that is `Ready`.
    pub open spec fn ready(&self, pid: u16) -> bool {
        self.valid_pid(pid) && self.status_of(pid) == ProgramStatus::Ready
    }

    /// At most one process is running: the one the processor runs.
    pub open spec fn running_is_current(&self) -> bool {
        forall|i: int|
            0 <= i < self.processes@.len() && #[trigger] self.processes@[i].status
                == ProgramStatus::Running ==> self.processes@[i].pid == self.current
    }

    pub open spec fn proc_wf(&self, i: int) -> bool {
        let p = self.processes@[i];
        &&& p.pid == i + 1
        &&& (p.status == ProgramStatus::Dead) == (p.exit_code is Some)
        &&& p.status == ProgramStatus::Dead ==> p.vm is None && p.data is None
        &&& p.status != ProgramStatus::Dead ==> p.vm is Some && p.data is Some
        &&& p.vm is Some ==> p.vm->0.wf()
        &&& p.data is Some ==> p.data->0 < self.data@.len()
    }

    pub open spec fn wf(&self) -> bool {
        &&& 1 <= self.processes@.len() < 0xFFFF
        &&& forall|i: int| 0 <= i < self.processes@.len() ==> #[trigger] self.proc_wf(i)
        &&& forall|d: int| 0 <= d < self.data@.len() ==> #[trigger] self.data@[d].wf()
        &&& self.valid_pid(self.current)
        &&& self.running_is_current()
    }

    /// The tables with the kernel as the only process, running.
    pub fn new(kernel_vm: ProcessVm) -> (r: ProcessManager)
        requires
            kernel_vm.wf(),
        ensures
            r.wf(),
            r.current == KERNEL_PID,
            r.processes@.len() == 1,
            r.status_of(KERNEL_PID) == ProgramStatus::Running,
            r.proc_at(KERNEL_PID).vm == Some(kernel_vm),
            r.ready_queue@.len() == 0,
            !r.interrupts_enabled,
    {
        let mut kernel = Process::new(KERNEL_PID, "kernel", None, kernel_vm, 0);
        kernel.status = ProgramStatus::Running;
        let mut processes = Vec::new();
        processes.push(kernel);
        let mut data = Vec::new();
        data.push(ProcessData::new());
        let r = ProcessManager {
            processes,
            ready_queue: VecDeque::new(),
            wait_queue: BTreeMap::new(),
            data,
            current: KERNEL_PID,
            interrupts_enabled: false,
        };
        assert(r.proc_wf(0));
        r
    }

    /// Clears the interrupt flag and returns what it was.
    pub fn disable_interrupts(&mut self) -> (was: bool)
        requires
            old(self).wf(),
        ensures
            final(self).wf(),
            was == old(self).interrupts_enabled,
            *final(self) == (ProcessManager { interrupts_enabled: false, ..*old(self) }),
    {
        let was = self.interrupts_enabled;
        self.interrupts_enabled = false;
        proof {
            lemma_wf_frame(*old(self), *self);
        }
        was
    }

    /// Puts the interrupt flag back to `was`.
    pub fn restore_interrupts(&mut self, was: bool)
        requires
            old(self).wf(),
        ensures
            final(self).wf(),
            *final(self) == (ProcessManager { interrupts_enabled: was, ..*old(self) }),
    {
        self.interrupts_enabled = was;
        proof {
            lemma_wf_frame(*old(self), *self);
        }
    }

    /// The process with pid `pid`, if there is one.
    pub fn get_proc(&self, pid: u16) -> (r: Option<&Process>)
        requires
            self.wf(),
        ensures
            match r {
                Some(p) => self.valid_pid(pid) && *p == self.proc_at(pid),
                None => !self.valid_pid(pid),
            },
    {
        if pid == 0 || pid as usize > self.processes.len() {
            None
        } else {
            Some(&self.processes[pid as usize - 1])
        }
    }

    /// The process the processor runs.
    pub fn current(&self) -> (r: &Process)
        requires
            self.wf(),
        ensures
            *r == self.proc_at(self.current),
    {
        &self.processes[self.current as usize - 1]
    }

    /// Appends `pid` to the ready queue.
    pub fn push_ready(&mut self, pid: u16)
        requires
            !old(self).interrupts_enabled,
        ensures
            final(self).ready_queue@ == old(self).ready_queue@.push(pid),
            final(self).processes == old(self).processes,
            final(self).data == old(self).data,
            final(self).wait_queue == old(self).wait_queue,
            final(self).current == old(self).current,
            final(self).interrupts_enabled == old(self).interrupts_enabled,
    {
        self.ready_queue.push_back(pid);
    }

    /// The exit code of `pid`, if it names a dead process.
    pub fn get_exit_code(&self, pid: u16) -> (r: Option<isize>)
        requires
            self.wf(),
        ensures
            self.valid_pid(pid) ==> r == self.proc_at(pid).exit_code,
            !self.valid_pid(pid) ==> r is None,
    {
        match self.get_proc(pid) {
            Some(p) => p.exit_code,
            None => None,
        }
    }

    /// Saves the interrupted registers of the current process and charges
    /// it one tick; a running process becomes ready and goes to the tail of
    /// the ready queue.
    pub fn save_current(&mut self, context: &ProcessContext)
        requires
            old(self).wf(),
            !old(self).interrupts_enabled,
        ensures
            final(self).wf(),
            final(self).current == old(self).current,
            final(self).interrupts_enabled == old(self).interrupts_enabled,
            final(self).data == old(self).data,
            final(self).wait_queue == old(self).wait_queue,
            final(self).processes@.len() == old(self).processes@.len(),
            ({
                let c = old(self).current;
                let p = old(self).proc_at(c);
                let q = final(self).proc_at(c);
                &&& q.ticks_passed == if p.ticks_passed < u64::MAX {
                    p.ticks_passed + 1
                } else {
                    p.ticks_passed as int
                }
                &&& q.context == *context
                &&& q.pid == p.pid && q.name == p.name && q.parent == p.parent
                &&& q.children == p.children && q.exit_code == p.exit_code
                &&& q.vm == p.vm && q.data == p.data
                &&& if p.status == ProgramStatus::Running {
                    &&& q.status == ProgramStatus::Ready
                    &&& final(self).ready_queue@ == old(self).ready_queue@.push(c)
                } else {
                    &&& q.status == p.status
                    &&& final(self).ready_queue@ == old(self).ready_queue@
                }
            }),
            forall|pid: u16|
                pid != old(self).current && old(self).valid_pid(pid) ==> #[trigger] final(self).proc_at(pid) == old(self).proc_at(pid),
    {
        let idx = self.current as usize - 1;
        let ticks = self.processes[idx].ticks_passed;
        if ticks < u64::MAX {
            self.processes[idx].ticks_passed = ticks + 1;
        }
        self.processes[idx].context = *context;
        if self.processes[idx].status == ProgramStatus::Running {
            self.processes[idx].status = ProgramStatus::Ready;
            self.ready_queue.push_back(self.current);
        }
        assert forall|i: int| 0 <= i < self.processes@.len() implies #[trigger] self.proc_wf(i) by {
            assert(old(self).proc_wf(i));
        }
    }

    /// Picks the next process to run: pops pids off the head of the ready
    /// queue, dropping every pid whose process is not `Ready`, until a ready
    /// one comes; if none does, the current process stays. The chosen
    /// process's registers are loaded into `context`, it becomes `Running`
    /// if it was `Ready`, and the processor's current pid becomes its pid.
    pub fn switch_next(&mut self, context: &mut ProcessContext) -> (r: u16)
        requires
            old(self).wf(),
            !old(self).interrupts_enabled,
            old(self).status_of(old(self).current) != ProgramStatus::Running,
        ensures
            final(self).wf(),
            r == final(self).current,
            final(self).interrupts_enabled == old(self).interrupts_enabled,
            final(self).data == old(self).data,
            final(self).wait_queue == old(self).wait_queue,
            final(self).processes@.len() == old(self).processes@.len(),
            ({
                let q = old(self).ready_queue@;
                ||| {
                    &&& r == old(self).current
                    &&& forall|j: int| 0 <= j < q.len() ==> !old(self).ready(#[trigger] q[j])
                    &&& final(self).ready_queue@ == Seq::<u16>::empty()
                }
                ||| exists|k: int|
                    {
                        &&& 0 <= k < q.len()
                        &&& old(self).ready(#[trigger] q[k])
                        &&& forall|j: int| 0 <= j < k ==> !old(self).ready(#[trigger] q[j])
                        &&& r == q[k]
                        &&& final(self).ready_queue@ == q.subrange(k + 1, q.len() as int)
                    }
            }),
            *final(context) == old(self).proc_at(r).context,
            final(self).status_of(r) == if old(self).status_of(r) == ProgramStatus::Ready {
                ProgramStatus::Running
            } else {
                old(self).status_of(r)
            },
            forall|pid: u16|
                pid != r && old(self).valid_pid(pid) ==> #[trigger] final(self).proc_at(pid) == old(self).proc_at(pid),
            ({
                let p = old(self).proc_at(r);
                let q = final(self).proc_at(r);
                &&& q.pid == p.pid && q.name == p.name && q.parent == p.parent
                &&& q.children == p.children && q.exit_code == p.exit_code
                &&& q.vm == p.vm && q.data == p.data && q.context == p.context
                &&& q.ticks_passed == p.ticks_passed
            }),
    {
        let ghost q0 = self.ready_queue@;
        let mut next = self.current;
        let ghost mut k: int = 0;
        loop
            invariant_except_break
                self.ready_queue@ == q0.subrange(k, q0.len() as int),
                forall|j: int| 0 <= j < k ==> !old(self).ready(#[trigger] q0[j]),
                next == self.current,
            invariant
                self.processes == old(self).processes,
                self.data == old(self).data,
                self.wait_queue == old(self).wait_queue,
                self.current == old(self).current,
                self.interrupts_enabled == old(self).interrupts_enabled,
                q0 == old(self).ready_queue@,
                0 <= k <= q0.len(),
            ensures
                ({
                    ||| {
                        &&& next == self.current
                        &&& forall|j: int| 0 <= j < q0.len() ==> !old(self).ready(#[trigger] q0[j])
                        &&& self.ready_queue@ == Seq::<u16>::empty()
                    }
                    ||| {
                        &&& 1 <= k <= q0.len()
                        &&& old(self).ready(q0[k - 1])
                        &&& forall|j: int| 0 <= j < k - 1 ==> !old(self).ready(#[trigger] q0[j])
                        &&& next == q0[k - 1]
                        &&& self.ready_queue@ == q0.subrange(k, q0.len() as int)
                    }
                }),
            decreases self.ready_queue@.len(),
        {
            match self.ready_queue.pop_front() {
                None => {
                    break;
                },
                Some(pid) => {
                    proof {
                        k = k + 1;
                    }
                    if pid != 0 && (pid as usize) <= self.processes.len() && self.processes[pid
                        as usize - 1].status == ProgramStatus::Ready {
                        next = pid;
                        break;
                    }
                },
            }
        }
        let idx = next as usize - 1;
        *context = self.processes[idx].context;
        if self.processes[idx].status == ProgramStatus::Ready {
            self.processes[idx].status = ProgramStatus::Running;
        }
        self.current = next;
        assert forall|i: int| 0 <= i < self.processes@.len() implies #[trigger] self.proc_wf(i) by {
            assert(old(self).proc_wf(i));
        }
        assert forall|i: int|
            0 <= i < self.processes@.len() && #[trigger] self.processes@[i].status
                == ProgramStatus::Running implies self.processes@[i].pid == self.current by {
            assert(old(self).proc_wf(i));
        }
        proof {
            if next != old(self).current {
                let kk = k - 1;
                assert(old(self).ready_queue@[kk] == next);
            }
        }
        next
    }

    /// Marks `pid` as blocked; dead or unknown pids are left alone.
    pub fn block(&mut self, pid: u16)
        requires
            old(self).wf(),
            !old(self).interrupts_enabled,
        ensures
            final(self).wf(),
            final(self).current == old(self).current,
            final(self).interrupts_enabled == old(self).interrupts_enabled,
            final(self).data == old(self).data,
            final(self).wait_queue == old(self).wait_queue,
            final(self).ready_queue == old(self).ready_queue,
            final(self).processes@.len() == old(self).processes@.len(),
            old(self).valid_pid(pid) && old(self).status_of(pid) != ProgramStatus::Dead
                ==> final(self).processes@ == old(self).processes@.update(
                pid - 1,
                Process { status: ProgramStatus::Blocked, ..old(self).proc_at(pid) },
            ),
            !(old(self).valid_pid(pid) && old(self).status_of(pid) != ProgramStatus::Dead)
                ==> final(self).processes@ == old(self).processes@,
    {
        if pid != 0 && (pid as usize) <= self.processes.len() {
            let idx = pid as usize - 1;
            if self.processes[idx].status != ProgramStatus::Dead {
                self.processes[idx].status = ProgramStatus::Blocked;
                assert(self.processes@ =~= old(self).processes@.update(
                    pid - 1,
                    Process { status: ProgramStatus::Blocked, ..old(self).proc_at(pid) },
                ));
            }
        }
        assert forall|i: int| 0 <= i < self.processes@.len() implies #[trigger] self.proc_wf(i) by {
            assert(old(self).proc_wf(i));
        }
    }

    /// Makes `pid` ready again and queues it; with `ret`, the process sees
    /// that value returned in `rax`. Dead or unknown pids are left alone.
    pub fn wake_up(&mut self, pid: u16, ret: Option<isize>)
        requires
            old(self).wf(),
            !old(self).interrupts_enabled,
        ensures
            final(self).wf(),
            final(self).current == old(self).current,
            final(self).interrupts_enabled == old(self).interrupts_enabled,
            final(self).data == old(self).data,
            final(self).wait_queue == old(self).wait_queue,
            final(self).processes@.len() == old(self).processes@.len(),
            forall|p: u16|
                p != pid && old(self).valid_pid(p) ==> #[trigger] final(self).proc_at(p) == old(self).proc_at(p),
            old(self).valid_pid(pid) && old(self).status_of(pid) != ProgramStatus::Dead ==> {
                let o = old(self).proc_at(pid);
                &&& final(self).proc_at(pid) == (Process {
                    status: ProgramStatus::Ready,
                    context: match ret {
                        Some(v) => (ProcessContext { rax: reg_of(v), ..o.context }),
                        None => o.context,
                    },
                    ..o
                })
                &&& final(self).ready_queue@ == old(self).ready_queue@.push(pid)
            },
            !(old(self).valid_pid(pid) && old(self).status_of(pid) != ProgramStatus::Dead)
                ==> final(self).processes@ == old(self).processes@ && final(self).ready_queue@
                == old(self).ready_queue@,
    {
        if pid != 0 && (pid as usize) <= self.processes.len() {
            let idx = pid as usize - 1;
            if self.processes[idx].status != ProgramStatus::Dead {
                if let Some(v) = ret {
                    self.processes[idx].context.rax = v as u64;
                }
                self.processes[idx].status = ProgramStatus::Ready;
                self.ready_queue.push_back(pid);
            }
        }
        assert forall|i: int| 0 <= i < self.processes@.len() implies #[trigger] self.proc_wf(i) by {
            assert(old(self).proc_wf(i));
        }
        assert forall|i: int|
            0 <= i < self.processes@.len() && #[trigger] self.processes@[i].status
                == ProgramStatus::Running implies self.processes@[i].pid == self.current by {
            assert(old(self).proc_wf(i));
        }
    }

    /// Records that the current process waits for `pid` to end.
    pub fn wait_pid(&mut self, pid: u16)
        requires
            old(self).wf(),
            !old(self).interrupts_enabled,
        ensures
            final(self).wf(),
            final(self).processes == old(self).processes,
            final(self).ready_queue == old(self).ready_queue,
            final(self).data == old(self).data,
            final(self).current == old(self).current,
            final(self).interrupts_enabled == old(self).interrupts_enabled,
            final(self).wait_queue@.contains_key(pid),
            final(self).wait_queue@[pid]@.contains(old(self).current),
            forall|w: u16|
                old(self).wait_queue@.contains_key(pid) && old(self).wait_queue@[pid]@.contains(w)
                    ==> #[trigger] final(self).wait_queue@[pid]@.contains(w),
            forall|t: u16|
                t != pid ==> #[trigger] final(self).wait_queue@.contains_key(t) == old(self).wait_queue@.contains_key(t)
                    && (old(self).wait_queue@.contains_key(t) ==> final(self).wait_queue@[t] == old(self).wait_queue@[t]),
    {
        let me = self.current;
        let mut waiters = match self.wait_queue.remove(&pid) {
            Some(w) => w,
            None => Vec::new(),
        };
        let ghost before = waiters@;
        let mut i: usize = 0;
        let mut present = false;
        while i < waiters.len()
            invariant
                self.processes == old(self).processes,
                self.data == old(self).data,
                self.ready_queue == old(self).ready_queue,
                self.current == old(self).current,
                self.interrupts_enabled == old(self).interrupts_enabled,
                me == self.current,
                waiters@ == before,
                i <= waiters@.len(),
                present == exists|j: int| 0 <= j < i && waiters@[j] == me,
            decreases waiters@.len() - i,
        {
            if waiters[i] == me {
                present = true;
            }
            i = i + 1;
        }
        if !present {
            waiters.push(me);
            assert(waiters@[waiters@.len() - 1] == me);
        }
        assert(waiters@.contains(me));
        assert forall|w: u16| before.contains(w) implies waiters@.contains(w) by {
            let j = choose|j: int| 0 <= j < before.len() && before[j] == w;
            assert(waiters@[j] == w);
        }
        self.wait_queue.insert(pid, waiters);
        proof {
            lemma_wf_frame(*old(self), *self);
        }
    }

    /// Removes `pid` from the children of `parent`.
    fn remove_child(&mut self, parent: u16, pid: u16)
        requires
            old(self).wf(),
            old(self).valid_pid(parent),
        ensures
            final(self).wf(),
            final(self).current == old(self).current,
            final(self).interrupts_enabled == old(self).interrupts_enabled,
            final(self).data == old(self).data,
            final(self).wait_queue == old(self).wait_queue,
            final(self).ready_queue == old(self).ready_queue,
            final(self).processes@.len() == old(self).processes@.len(),
            forall|p: u16|
                p != parent && old(self).valid_pid(p) ==> #[trigger] final(self).proc_at(p) == old(self).proc_at(p),
            final(self).proc_at(parent).children@ == without_pid(old(self).proc_at(parent).children@, pid),
            final(self).proc_at(parent) == (Process {
                children: final(self).proc_at(parent).children,
                ..old(self).proc_at(parent)
            }),
    {
        let idx = parent as usize - 1;
        let mut kept: Vec<u16> = Vec::new();
        let mut i: usize = 0;
        let ghost src = self.processes@[idx as int].children@;
        while i < self.processes[idx].children.len()
            invariant
                self.processes == old(self).processes,
                idx < self.processes@.len(),
                src == self.processes@[idx as int].children@,
                i <= src.len(),
                kept@ == without_pid(src.subrange(0, i as int), pid),
            decreases src.len() - i,
        {
            let c = self.processes[idx].children[i];
            assert(src.subrange(0, i + 1).drop_last() =~= src.subrange(0, i as int));
            proof {
                reveal(Seq::filter);
            }
            if c != pid {
                kept.push(c);
            }
            i = i + 1;
        }
        assert(src.subrange(0, i as int) =~= src);
        self.processes[idx].children = kept;
        assert forall|j: int| 0 <= j < self.processes@.len() implies #[trigger] self.proc_wf(j) by {
            assert(old(self).proc_wf(j));
        }
        assert forall|j: int|
            0 <= j < self.processes@.len() && #[trigger] self.processes@[j].status
                == ProgramStatus::Running implies self.processes@[j].pid == self.current by {
            assert(old(self).proc_wf(j));
        }
    }

    /// Wakes every process that waits for `pid` to end, handing each `ret`,
    /// and forgets the waiters.
    fn wake_waiters(&mut self, pid: u16, ret: isize)
        requires
            old(self).wf(),
            !old(self).interrupts_enabled,
        ensures
            final(self).wf(),
            final(self).current == old(self).current,
            final(self).interrupts_enabled == old(self).interrupts_enabled,
            final(self).data == old(self).data,
            final(self).processes@.len() == old(self).processes@.len(),
            final(self).wait_queue@ == old(self).wait_queue@.remove(pid),
            final(self).ready_queue@.len() >= old(self).ready_queue@.len(),
            final(self).ready_queue@.subrange(0, old(self).ready_queue@.len() as int) == old(self).ready_queue@,
            forall|w: u16|
                #![trigger final(self).proc_at(w)]
                old(self).wait_queue@.contains_key(pid) && old(self).wait_queue@[pid]@.contains(w)
                    && old(self).valid_pid(w) && old(self).status_of(w) != ProgramStatus::Dead
                    ==> final(self).status_of(w) == ProgramStatus::Ready
                    && final(self).proc_at(w).context.rax == reg_of(ret)
                    && final(self).ready_queue@.contains(w),
            forall|p: u16|
                #![trigger final(self).proc_at(p)]
                old(self).valid_pid(p) ==> {
                    let a = old(self).proc_at(p);
                    let b = final(self).proc_at(p);
                    &&& b.pid == a.pid && b.name == a.name && b.parent == a.parent
                    &&& b.children == a.children && b.exit_code == a.exit_code
                    &&& b.vm == a.vm && b.data == a.data && b.ticks_passed == a.ticks_passed
                    &&& (a.status == ProgramStatus::Dead ==> b == a)
                    &&& (!(old(self).wait_queue@.contains_key(pid) && old(self).wait_queue@[pid]@.contains(p)) ==> b == a)
                },
    {
        let waiters = match self.wait_queue.remove(&pid) {
            Some(w) => w,
            None => {
                assert(self.wait_queue@ =~= old(self).wait_queue@.remove(pid));
                Vec::new()
            },
        };
        let ghost ws = waiters@;
        assert(old(self).wait_queue@.contains_key(pid) ==> ws == old(self).wait_queue@[pid]@);
        let mut i: usize = 0;
        proof {
            lemma_wf_frame(*old(self), *self);
        }
        while i < waiters.len()
            invariant
                self.wf(),
                !self.interrupts_enabled,
                self.current == old(self).current,
                self.interrupts_enabled == old(self).interrupts_enabled,
                self.data == old(self).data,
                self.processes@.len() == old(self).processes@.len(),
                self.wait_queue@ == old(self).wait_queue@.remove(pid),
                waiters@ == ws,
                !old(self).wait_queue@.contains_key(pid) ==> ws.len() == 0,
                old(self).wait_queue@.contains_key(pid) ==> ws == old(self).wait_queue@[pid]@,
                i <= ws.len(),
                self.ready_queue@.len() >= old(self).ready_queue@.len(),
                self.ready_queue@.subrange(0, old(self).ready_queue@.len() as int) == old(self).ready_queue@,
                forall|j: int|
                    #![trigger ws[j]]
                    0 <= j < i && old(self).valid_pid(ws[j]) && old(self).status_of(ws[j])
                        != ProgramStatus::Dead ==> self.status_of(ws[j]) == ProgramStatus::Ready
                        && self.proc_at(ws[j]).context.rax == reg_of(ret)
                        && self.ready_queue@.contains(ws[j]),
                forall|p: u16|
                    #![trigger self.proc_at(p)]
                    old(self).valid_pid(p) ==> {
                        let a = old(self).proc_at(p);
                        let b = self.proc_at(p);
                        &&& b.pid == a.pid && b.name == a.name && b.parent == a.parent
                        &&& b.children == a.children && b.exit_code == a.exit_code
                        &&& b.vm == a.vm && b.data == a.data && b.ticks_passed == a.ticks_passed
                        &&& (a.status == ProgramStatus::Dead ==> b == a)
                        &&& (!ws.subrange(0, i as int).contains(p) ==> b == a)
                    },
            decreases ws.len() - i,
        {
            let w = waiters[i];
            let ghost before = *self;
            self.wake_up(w, Some(ret));
            proof {
                let n0 = old(self).ready_queue@.len() as int;
                assert(self.ready_queue@.subrange(0, n0) =~= before.ready_queue@.subrange(0, n0));
                assert forall|j: int|
                    #![trigger ws[j]]
                    0 <= j < i + 1 && old(self).valid_pid(ws[j]) && old(self).status_of(ws[j])
                        != ProgramStatus::Dead implies self.ready_queue@.contains(ws[j]) by {
                    if j == i {
                        assert(before.proc_at(w).status != ProgramStatus::Dead) by {
                            if ws.subrange(0, i as int).contains(w) {
                                let k = choose|k: int| 0 <= k < i && ws.subrange(0, i as int)[k] == w;
                                assert(ws[k] == w);
                            }
                        }
                        assert(self.ready_queue@[self.ready_queue@.len() - 1] == w);
                    } else {
                        let k = choose|k: int| 0 <= k < before.ready_queue@.len() && before.ready_queue@[k] == ws[j];
                        assert(self.ready_queue@[k] == ws[j]);
                    }
                }
                assert forall|p: u16| #![trigger self.proc_at(p)] old(self).valid_pid(p) && !ws.subrange(0, i + 1).contains(p) implies self.proc_at(p) == old(self).proc_at(p) by {
                    if ws.subrange(0, i as int).contains(p) {
                        let j = choose|j: int| 0 <= j < i && ws.subrange(0, i as int)[j] == p;
                        assert(ws.subrange(0, i + 1)[j] == p);
                    }
                    assert(p != w) by {
                        if p == w {
                            assert(ws.subrange(0, i + 1)[i as int] == p);
                        }
                    }
                }
            }
            i = i + 1;
        }
        proof {
            assert forall|w: u16|
                #![trigger self.proc_at(w)]
                old(self).wait_queue@.contains_key(pid) && old(self).wait_queue@[pid]@.contains(w)
                    && old(self).valid_pid(w) && old(self).status_of(w) != ProgramStatus::Dead
                    implies self.status_of(w) == ProgramStatus::Ready
                    && self.proc_at(w).context.rax == reg_of(ret) by {
                let j = choose|j: int| 0 <= j < ws.len() && ws[j] == w;
                assert(ws[j] == w);
            }
            assert(ws.subrange(0, i as int) =~= ws);
        }
    }

    /// Sets the parent link of every process in `pids` to `parent`.
    fn set_parents(&mut self, pids: &Vec<u16>, parent: Option<u16>)
        requires
            old(self).wf(),
        ensures
            final(self).wf(),
            final(self).current == old(self).current,
            final(self).interrupts_enabled == old(self).interrupts_enabled,
            final(self).data == old(self).data,
            final(self).wait_queue == old(self).wait_queue,
            final(self).ready_queue == old(self).ready_queue,
            final(self).processes@.len() == old(self).processes@.len(),
            forall|p: u16|
                #![trigger final(self).proc_at(p)]
                old(self).valid_pid(p) ==> final(self).proc_at(p) == if pids@.contains(p) {
                    Process { parent, ..old(self).proc_at(p) }
                } else {
                    old(self).proc_at(p)
                },
    {
        let mut i: usize = 0;
        while i < pids.len()
            invariant
                self.wf(),
                self.current == old(self).current,
                self.interrupts_enabled == old(self).interrupts_enabled,
                self.data == old(self).data,
                self.wait_queue == old(self).wait_queue,
                self.ready_queue == old(self).ready_queue,
                self.processes@.len() == old(self).processes@.len(),
                i <= pids@.len(),
                forall|p: u16|
                    #![trigger self.proc_at(p)]
                    old(self).valid_pid(p) ==> self.proc_at(p) == if pids@.subrange(
                        0,
                        i as int,
                    ).contains(p) {
                        Process { parent, ..old(self).proc_at(p) }
                    } else {
                        old(self).proc_at(p)
                    },
            decreases pids@.len() - i,
        {
            let c = pids[i];
            let ghost before = *self;
            if c != 0 && (c as usize) <= self.processes.len() {
                self.processes[c as usize - 1].parent = parent;
            }
            proof {
                assert forall|p: u16|
                    #![trigger self.proc_at(p)]
                    old(self).valid_pid(p) implies self.proc_at(p) == if pids@.subrange(
                        0,
                        i + 1,
                    ).contains(p) {
                        Process { parent, ..old(self).proc_at(p) }
                    } else {
                        old(self).proc_at(p)
                    } by {
                    assert(before.proc_at(p) == if pids@.subrange(0, i as int).contains(p) {
                        Process { parent, ..old(self).proc_at(p) }
                    } else {
                        old(self).proc_at(p)
                    });
                    if pids@.subrange(0, i as int).contains(p) {
                        let j = choose|j: int| 0 <= j < i && pids@.subrange(0, i as int)[j] == p;
                        assert(pids@.subrange(0, i + 1)[j] == p);
                    }
                    if p == c {
                        assert(pids@.subrange(0, i + 1)[i as int] == p);
                    }
                    if pids@.subrange(0, i + 1).contains(p) && p != c {
                        let j = choose|j: int| 0 <= j < i + 1 && #[trigger] pids@.subrange(0, i + 1)[j] == p;
                        assert(pids@.subrange(0, i as int)[j] == p);
                    }
                }
                assert forall|k: int| 0 <= k < self.processes@.len() implies #[trigger] self.proc_wf(k) by {
                    assert(before.proc_wf(k));
                }
                assert forall|k: int|
                    0 <= k < self.processes@.len() && #[trigger] self.processes@[k].status
                        == ProgramStatus::Running implies self.processes@[k].pid == self.current by {
                    assert(before.proc_wf(k));
                }
            }
            i = i + 1;
        }
        assert(pids@.subrange(0, i as int) =~= pids@);
    }

    /// A copy of the children list of `pid`.
    fn children_of(&self, pid: u16) -> (r: Vec<u16>)
        requires
            self.valid_pid(pid),
        ensures
            r@ == self.proc_at(pid).children@,
    {
        let idx = pid as usize - 1;
        let mut out: Vec<u16> = Vec::new();
        let mut i: usize = 0;
        while i < self.processes[idx].children.len()
            invariant
                idx < self.processes@.len(),
                idx == pid - 1,
                i <= self.processes@[idx as int].children@.len(),
                out@ == self.processes@[idx as int].children@.subrange(0, i as int),
            decreases self.processes@[idx as int].children@.len() - i,
        {
            out.push(self.processes[idx].children[i]);
            assert(self.processes@[idx as int].children@.subrange(0, i + 1) =~= self.processes@[idx as int].children@.subrange(0, i as int).push(self.processes@[idx as int].children@[i as int]));
            i = i + 1;
        }
        assert(self.processes@[idx as int].children@.subrange(0, i as int) =~= self.processes@[idx as int].children@);
        out
    }

    /// Ends process `pid` with exit code `ret`: its waiters wake with
    /// `ret`, its children pass to its parent if that one still lives (else
    /// to nobody), and it becomes `Dead`, giving up its address space and
    /// data. Unknown or already dead pids are left alone.
    #[verifier::rlimit(60)]
    pub fn kill(&mut self, pid: u16, ret: isize)
        requires
            old(self).wf(),
            !old(self).interrupts_enabled,
        ensures
            final(self).wf(),
            final(self).current == old(self).current,
            final(self).interrupts_enabled == old(self).interrupts_enabled,
            final(self).processes@.len() == old(self).processes@.len(),
            !(old(self).valid_pid(pid) && old(self).status_of(pid) != ProgramStatus::Dead)
                ==> *final(self) == *old(self),
            old(self).valid_pid(pid) && old(self).status_of(pid) != ProgramStatus::Dead ==> {
                let o = old(self).proc_at(pid);
                let t = final(self).proc_at(pid);
                &&& t.status == ProgramStatus::Dead
                &&& t.exit_code == Some(ret)
                &&& t.vm is None
                &&& t.data is None
                &&& final(self).wait_queue@ == old(self).wait_queue@.remove(pid)
                &&& forall|w: u16|
                    #![trigger final(self).proc_at(w)]
                    w != pid && old(self).wait_queue@.contains_key(pid)
                        && old(self).wait_queue@[pid]@.contains(w) && old(self).valid_pid(w)
                        && old(self).status_of(w) != ProgramStatus::Dead ==> final(self).status_of(w)
                        == ProgramStatus::Ready && final(self).proc_at(w).context.rax == reg_of(ret)
                        && final(self).ready_queue@.contains(w)
                &&& final(self).ready_queue@.len() >= old(self).ready_queue@.len()
                &&& final(self).ready_queue@.subrange(0, old(self).ready_queue@.len() as int) == old(self).ready_queue@
                &&& forall|c: u16|
                    #![trigger final(self).proc_at(c)]
                    c != pid && o.children@.contains(c) && old(self).valid_pid(c) ==> final(self).proc_at(c).parent
                        == kill_new_parent(*old(self), pid)
                &&& kill_new_parent(*old(self), pid) is Some ==> final(self).proc_at(o.parent->0).children@
                    == without_pid(old(self).proc_at(o.parent->0).children@, pid)
            },
    {
        if pid == 0 || pid as usize > self.processes.len() {
            return;
        }
        let idx = pid as usize - 1;
        if self.processes[idx].status == ProgramStatus::Dead {
            return;
        }
        let ghost o = self.proc_at(pid);
        self.wake_waiters(pid, ret);
        let ghost after_wake = *self;
        assert(after_wake.proc_at(pid).children == o.children);
        assert(after_wake.proc_at(pid).parent == o.parent);
        let children = self.children_of(pid);
        let new_parent: Option<u16> = match self.processes[idx].parent {
            Some(pp) => {
                if pp != pid && pp != 0 && (pp as usize) <= self.processes.len()
                    && self.processes[pp as usize - 1].exit_code.is_none() {
                    Some(pp)
                } else {
                    None
                }
            },
            None => None,
        };
        assert(new_parent == kill_new_parent(*old(self), pid)) by {
            if o.parent is Some && old(self).valid_pid(o.parent->0) {
                assert(after_wake.proc_at(o.parent->0).exit_code == old(self).proc_at(o.parent->0).exit_code);
            }
        }
        if let Some(pp) = new_parent {
            self.remove_child(pp, pid);
        }
        let ghost mid = *self;
        self.set_parents(&children, new_parent);
        proof {
            assert forall|w: u16| #![trigger self.proc_at(w)] after_wake.valid_pid(w) implies self.proc_at(w).status == after_wake.proc_at(w).status && self.proc_at(w).context == after_wake.proc_at(w).context && (w != new_parent->0 ==> self.proc_at(w).children == after_wake.proc_at(w).children) by {
                assert(mid.proc_at(w).status == after_wake.proc_at(w).status);
            }
        }
        let ghost before = *self;
        assert forall|w: u16| #![trigger before.proc_at(w)] after_wake.valid_pid(w) implies before.proc_at(w).status == after_wake.proc_at(w).status && before.proc_at(w).context == after_wake.proc_at(w).context by {
            assert(after_wake.proc_at(w).status == after_wake.proc_at(w).status);
        }
        self.processes[idx].vm = None;
        self.processes[idx].data = None;
        self.processes[idx].exit_code = Some(ret);
        self.processes[idx].status = ProgramStatus::Dead;
        proof {
            assert forall|k: int| 0 <= k < self.processes@.len() implies #[trigger] self.proc_wf(k) by {
                assert(before.proc_wf(k));
            }
            assert forall|k: int|
                0 <= k < self.processes@.len() && #[trigger] self.processes@[k].status
                    == ProgramStatus::Running implies self.processes@[k].pid == self.current by {
                assert(before.proc_wf(k));
            }
            assert forall|d: int| 0 <= d < self.data@.len() implies #[trigger] self.data@[d].wf() by {
                assert(old(self).data@[d].wf());
            }
            assert forall|w: u16|
                #![trigger self.proc_at(w)]
                w != pid && old(self).wait_queue@.contains_key(pid)
                    && old(self).wait_queue@[pid]@.contains(w) && old(self).valid_pid(w)
                    && old(self).status_of(w) != ProgramStatus::Dead implies self.status_of(w)
                    == ProgramStatus::Ready && self.proc_at(w).context.rax == reg_of(ret)
                    && self.ready_queue@.contains(w) by {
                assert(after_wake.proc_at(w).status == ProgramStatus::Ready);
                assert(before.proc_at(w) == self.proc_at(w));
                assert(after_wake.ready_queue@.contains(w));
                assert(self.ready_queue == after_wake.ready_queue);
            }
            assert(self.wait_queue@ == old(self).wait_queue@.remove(pid));
            assert forall|c: u16|
                #![trigger self.proc_at(c)]
                c != pid && o.children@.contains(c) && old(self).valid_pid(c) implies self.proc_at(c).parent
                    == kill_new_parent(*old(self), pid) by {
                assert(before.proc_at(c) == self.proc_at(c));
                assert(children@.contains(c));
            }
            assert(self.ready_queue == after_wake.ready_queue);
            if let Some(pp) = new_parent {
                assert(mid.proc_at(pp).children@ == without_pid(after_wake.proc_at(pp).children@, pid));
                assert(after_wake.proc_at(pp).children == old(self).proc_at(pp).children);
                assert(before.proc_at(pp).children == mid.proc_at(pp).children);
                assert(self.proc_at(pp) == before.proc_at(pp));
                assert(self.proc_at(pp).children@ == without_pid(old(self).proc_at(pp).children@, pid));
            }
            assert(self.ready_queue@.len() >= old(self).ready_queue@.len());
            assert(self.ready_queue@.subrange(0, old(self).ready_queue@.len() as int) == old(self).ready_queue@);
            assert(kill_new_parent(*old(self), pid) is Some ==> self.proc_at(o.parent->0).children@
                    == without_pid(old(self).proc_at(o.parent->0).children@, pid));
        }
    }

    /// A fork succeeds when a pid is left, the current process has an
    /// address space, and the child's stack base is not above its stack.
    pub open spec fn can_fork(&self, child_stack_base: u64) -> bool {
        &&& self.processes@.len() < 0xFFFE
        &&& self.proc_at(self.current).vm is Some
        &&& child_stack_base <= self.proc_at(self.current).vm->0.stack.base()
    }

    /// A spawn succeeds when a pid is left and the kernel has an address space.
    pub open spec fn can_spawn(&self) -> bool {
        &&& self.processes@.len() < 0xFFFE
        &&& self.proc_at(KERNEL_PID).vm is Some
    }

    /// Forks the current process. The child gets the next pid, a copy of
    /// the parent's page table in `new_frame`, a stack of the same size at
    /// `child_stack_base` (which must not lie above the parent's stack), the
    /// parent's saved registers with the stack pointer moved onto the copied
    /// stack and `rax` = 0, and the parent's data block, shared. The parent
    /// sees the child's pid in `rax`. Both end up `Ready`, and the child is
    /// queued. `None`, with nothing changed, when pids are exhausted, the
    /// current process has no address space, or the base is above its stack.
    pub fn fork(&mut self, new_frame: u64, child_stack_base: u64) -> (r: Option<u16>)
        requires
            old(self).wf(),
            !old(self).interrupts_enabled,
        ensures
            final(self).wf(),
            final(self).current == old(self).current,
            final(self).interrupts_enabled == old(self).interrupts_enabled,
            final(self).data == old(self).data,
            final(self).wait_queue == old(self).wait_queue,
            r is Some <==> old(self).can_fork(child_stack_base),
            r is None ==> *final(self) == *old(self),
            r is Some ==> {
                let c = r->0;
                let p = old(self).current;
                let op = old(self).proc_at(p);
                let np = final(self).proc_at(p);
                let ch = final(self).proc_at(c);
                &&& c == old(self).processes@.len() + 1
                &&& final(self).processes@.len() == c
                &&& final(self).ready_queue@ == old(self).ready_queue@.push(c)
                &&& ch.status == ProgramStatus::Ready
                &&& np.status == ProgramStatus::Ready
                &&& np.context == (ProcessContext { rax: c as u64, ..op.context })
                &&& np.children@ == op.children@.push(c)
                &&& ch.context.rax == 0
                &&& ch.context == (ProcessContext {
                    rax: 0,
                    rsp: crate::context::wrap_add(
                        op.context.rsp,
                        ((ch.vm->0.stack.base() - op.vm->0.stack.base()) % 0x1_0000_0000_0000_0000) as u64,
                    ),
                    ..op.context
                })
                &&& ch.parent == Some(p)
                &&& ch.children@.len() == 0
                &&& ch.name == op.name
                &&& ch.ticks_passed == 0
                &&& ch.data == op.data
                &&& ch.exit_code is None
                &&& ch.vm is Some
                &&& ch.vm->0.page_table.frame == new_frame
                &&& ch.vm->0.page_table.same_kernel_half(&op.vm->0.page_table)
                &&& ch.vm->0.page_table.entries@ == op.vm->0.page_table.entries@
                &&& ch.vm->0.stack.start_page == child_stack_base / 4096
                &&& ch.vm->0.stack.usage == op.vm->0.stack.usage
                &&& forall|q: u16|
                    q != p && old(self).valid_pid(q) ==> #[trigger] final(self).proc_at(q) == old(self).proc_at(q)
            },
    {
        if self.processes.len() >= 0xFFFE {
            return None;
        }
        let pidx = self.current as usize - 1;
        let ppid = self.current;
        let child_pid = self.processes.len() as u16 + 1;
        assert(self.proc_wf(pidx as int));
        let child = match &self.processes[pidx].vm {
            None => {
                return None;
            },
            Some(vm) => {
                if child_stack_base > vm.stack.start_address() {
                    return None;
                }
                let new_vm = vm.fork(new_frame, child_stack_base);
                let offset = new_vm.stack.stack_offset(&vm.stack);
                let mut context = self.processes[pidx].context;
                context.set_stack_offset(offset);
                context.set_rax(0);
                Process {
                    pid: child_pid,
                    name: self.processes[pidx].name.clone(),
                    parent: Some(ppid),
                    children: Vec::new(),
                    ticks_passed: 0,
                    status: ProgramStatus::Ready,
                    context,
                    exit_code: None,
                    vm: Some(new_vm),
                    data: self.processes[pidx].data,
                }
            },
        };
        let ghost old_len = self.processes@.len();
        self.processes.push(child);
        self.processes[pidx].children.push(child_pid);
        self.processes[pidx].context.rax = child_pid as u64;
        self.processes[pidx].status = ProgramStatus::Ready;
        self.ready_queue.push_back(child_pid);
        proof {
            assert forall|k: int| 0 <= k < self.processes@.len() implies #[trigger] self.proc_wf(k) by {
                if k < old_len {
                    assert(old(self).proc_wf(k));
                }
            }
            assert forall|k: int|
                0 <= k < self.processes@.len() && #[trigger] self.processes@[k].status
                    == ProgramStatus::Running implies self.processes@[k].pid == self.current by {
                if k < old_len {
                    assert(old(self).proc_wf(k));
                }
            }
            assert forall|d: int| 0 <= d < self.data@.len() implies #[trigger] self.data@[d].wf() by {
                assert(old(self).data@[d].wf());
            }
            assert(old(self).proc_wf(pidx as int));
        }
        Some(child_pid)
    }

    /// Creates a ready process named `name` (lower-cased) with its own new
    /// data block, a page table in `new_frame` copied from the kernel's, the
    /// initial user stack, and registers that start it at `entry`; it is
    /// queued and joins the children of `parent`. `None`, with nothing changed, when pids are exhausted or the
    /// kernel has no address space.
    pub fn spawn(&mut self, name: &str, entry: u64, new_frame: u64, parent: Option<u16>) -> (r: Option<u16>)
        requires
            old(self).wf(),
            !old(self).interrupts_enabled,
        ensures
            final(self).wf(),
            final(self).current == old(self).current,
            final(self).interrupts_enabled == old(self).interrupts_enabled,
            final(self).wait_queue == old(self).wait_queue,
            r is Some <==> old(self).can_spawn(),
            r is None ==> *final(self) == *old(self),
            r is Some ==> {
                let c = r->0;
                let ch = final(self).proc_at(c);
                &&& c == old(self).processes@.len() + 1
                &&& final(self).processes@.len() == c
                &&& forall|q: u16|
                    old(self).valid_pid(q) && Some(q) != parent ==> #[trigger] final(self).proc_at(q) == old(self).proc_at(q)
                &&& parent is Some && old(self).valid_pid(parent->0) ==> {
                    let a = old(self).proc_at(parent->0);
                    let b = final(self).proc_at(parent->0);
                    &&& b.children@ == a.children@.push(c)
                    &&& b == (Process { children: b.children, ..a })
                }
                &&& final(self).ready_queue@ == old(self).ready_queue@.push(c)
                &&& ch.status == ProgramStatus::Ready
                &&& ch.parent == parent
                &&& ch.name@ == crate::process::lowercase_of(name@)
                &&& ch.context.rip == entry
                &&& ch.context.rsp == crate::stack::STACK_INIT_TOP
                &&& ch.vm is Some
                &&& ch.vm->0.page_table.frame == new_frame
                &&& ch.vm->0.page_table.entries@ == old(self).proc_at(KERNEL_PID).vm->0.page_table.entries@
                &&& ch.data == Some((final(self).data@.len() - 1) as usize)
                &&& final(self).data@.len() == old(self).data@.len() + 1
                &&& final(self).data@.subrange(0, old(self).data@.len() as int) == old(self).data@
            },
    {
        if self.processes.len() >= 0xFFFE {
            return None;
        }
        assert(self.proc_wf(0));
        let page_table = match &self.processes[0].vm {
            None => {
                return None;
            },
            Some(kvm) => kvm.page_table.fork(new_frame),
        };
        let mut vm = ProcessVm::new(page_table);
        vm.stack.init();
        let pid = self.processes.len() as u16 + 1;
        let ghost old_len = self.processes@.len();
        let ghost old_data = self.data@;
        self.data.push(ProcessData::new());
        let mut process = Process::new(pid, name, parent, vm, self.data.len() - 1);
        process.context.init_stack_frame(entry, crate::stack::STACK_INIT_TOP);
        self.processes.push(process);
        if let Some(pp) = parent {
            if pp != 0 && (pp as usize) < self.processes.len() {
                self.processes[pp as usize - 1].children.push(pid);
            }
        }
        self.ready_queue.push_back(pid);
        proof {
            assert forall|k: int| 0 <= k < self.processes@.len() implies #[trigger] self.proc_wf(k) by {
                if k < old_len {
                    assert(old(self).proc_wf(k));
                }
            }
            assert forall|k: int|
                0 <= k < self.processes@.len() && #[trigger] self.processes@[k].status
                    == ProgramStatus::Running implies self.processes@[k].pid == self.current by {
                if k < old_len {
                    assert(old(self).proc_wf(k));
                }
            }
            assert forall|d: int| 0 <= d < self.data@.len() implies #[trigger] self.data@[d].wf() by {
                if d < old_data.len() {
                    assert(old(self).data@[d].wf());
                }
            }
            assert(self.data@.subrange(0, old_data.len() as int) =~= old_data);
            assert(old(self).proc_wf(0));
        }
        Some(pid)
    }

    /// The data block of the current process, if it still has one.
    pub open spec fn cur_data(&self) -> Option<usize> {
        self.proc_at(self.current).data
    }

    /// The current process's data block changed as `f` says; nothing else did.
    pub open spec fn only_cur_data_changed(
        &self,
        new: &ProcessManager,
        d: ProcessData,
    ) -> bool {
        &&& self.cur_data() is Some
        &&& new.data@ == self.data@.update(self.cur_data()->0 as int, d)
        &&& new.processes == self.processes
        &&& new.ready_queue == self.ready_queue
        &&& new.wait_queue == self.wait_queue
        &&& new.current == self.current
        &&& new.interrupts_enabled == self.interrupts_enabled
    }

    fn cur_data_index(&self) -> (r: Option<usize>)
        requires
            self.wf(),
        ensures
            r == self.cur_data(),
            r is Some ==> r->0 < self.data@.len(),
    {
        let idx = self.current as usize - 1;
        assert(self.proc_wf(idx as int));
        self.processes[idx].data
    }

    /// Creates semaphore `key` of the current process with count `value`.
    pub fn new_sem(&mut self, key: u32, value: usize) -> (r: bool)
        requires
            old(self).wf(),
            !old(self).interrupts_enabled,
        ensures
            final(self).wf(),
            old(self).cur_data() is None ==> !r && *final(self) == *old(self),
            old(self).cur_data() is Some ==> {
                let d = old(self).data@[old(self).cur_data()->0 as int];
                let e = final(self).data@[old(self).cur_data()->0 as int];
                &&& old(self).only_cur_data_changed(final(self), e)
                &&& r == !d.semaphores@.contains_key(key)
                &&& e.resources == d.resources && e.heap == d.heap && e.env == d.env
                &&& r ==> e.semaphores@ == d.semaphores@.insert(key, e.semaphores@[key])
                    && e.semaphores@[key].count == value && e.semaphores@[key].waiters@.len() == 0
                &&& !r ==> e.semaphores@ == d.semaphores@
            },
    {
        match self.cur_data_index() {
            None => false,
            Some(d) => {
                assert(self.data@[d as int].wf());
                let r = self.data[d].semaphores.insert(key, value);
                proof { self.lemma_data_update(*old(self), d as int); }
                r
            },
        }
    }

    /// Removes semaphore `key` of the current process.
    pub fn remove_sem(&mut self, key: u32) -> (r: bool)
        requires
            old(self).wf(),
            !old(self).interrupts_enabled,
        ensures
            final(self).wf(),
            old(self).cur_data() is None ==> !r && *final(self) == *old(self),
            old(self).cur_data() is Some ==> {
                let d = old(self).data@[old(self).cur_data()->0 as int];
                let e = final(self).data@[old(self).cur_data()->0 as int];
                &&& old(self).only_cur_data_changed(final(self), e)
                &&& r == (d.semaphores@.contains_key(key) && d.semaphores@[key].waiters@.len() == 0)
                &&& e.resources == d.resources && e.heap == d.heap && e.env == d.env
                &&& r ==> e.semaphores@ == d.semaphores@.remove(key)
                &&& !r ==> e.semaphores@ == d.semaphores@
            },
    {
        match self.cur_data_index() {
            None => false,
            Some(d) => {
                assert(self.data@[d as int].wf());
                let r = self.data[d].semaphores.remove(key);
                proof { self.lemma_data_update(*old(self), d as int); }
                r
            },
        }
    }

    /// Signals semaphore `key` of the current process (see `SemaphoreSet::signal`).
    pub fn sem_signal(&mut self, key: u32) -> (r: SemaphoreResult)
        requires
            old(self).wf(),
            !old(self).interrupts_enabled,
        ensures
            final(self).wf(),
            old(self).cur_data() is None ==> r == SemaphoreResult::NotExist && *final(self) == *old(self),
            old(self).cur_data() is Some ==> {
                let d = old(self).data@[old(self).cur_data()->0 as int];
                let e = final(self).data@[old(self).cur_data()->0 as int];
                &&& old(self).only_cur_data_changed(final(self), e)
                &&& e.resources == d.resources && e.heap == d.heap && e.env == d.env
                &&& signal_spec(d.semaphores, e.semaphores, key, r)
            },
    {
        match self.cur_data_index() {
            None => SemaphoreResult::NotExist,
            Some(d) => {
                assert(self.data@[d as int].wf());
                let r = self.data[d].semaphores.signal(key);
                proof { self.lemma_data_update(*old(self), d as int); }
                r
            },
        }
    }

    /// Waits on semaphore `key` of the current process for `pid` (see
    /// `SemaphoreSet::wait`).
    pub fn sem_wait(&mut self, key: u32, pid: u16) -> (r: SemaphoreResult)
        requires
            old(self).wf(),
            !old(self).interrupts_enabled,
        ensures
            final(self).wf(),
            old(self).cur_data() is None ==> r == SemaphoreResult::NotExist && *final(self) == *old(self),
            old(self).cur_data() is Some ==> {
                let d = old(self).data@[old(self).cur_data()->0 as int];
                let e = final(self).data@[old(self).cur_data()->0 as int];
                &&& old(self).only_cur_data_changed(final(self), e)
                &&& e.resources == d.resources && e.heap == d.heap && e.env == d.env
                &&& wait_spec(d.semaphores, e.semaphores, key, pid, r)
            },
    {
        match self.cur_data_index() {
            None => SemaphoreResult::NotExist,
            Some(d) => {
                assert(self.data@[d as int].wf());
                let r = self.data[d].semaphores.wait(key, pid);
                proof { self.lemma_data_update(*old(self), d as int); }
                r
            },
        }
    }

    /// Opens `res` in the current process at the lowest free descriptor.
    pub fn open(&mut self, res: Resource) -> (r: Option<u8>)
        requires
            old(self).wf(),
            !old(self).interrupts_enabled,
        ensures
            final(self).wf(),
            old(self).cur_data() is None ==> r is None && *final(self) == *old(self),
            old(self).cur_data() is Some ==> {
                let d = old(self).data@[old(self).cur_data()->0 as int];
                let e = final(self).data@[old(self).cur_data()->0 as int];
                &&& old(self).only_cur_data_changed(final(self), e)
                &&& e.semaphores == d.semaphores && e.heap == d.heap && e.env == d.env
                &&& match r {
                    Some(fd) => lowest_free_fd(d.resources@, fd) && e.resources@ == d.resources@.insert(fd, res),
                    None => table_full(d.resources@) && e.resources@ == d.resources@,
                }
            },
    {
        match self.cur_data_index() {
            None => None,
            Some(d) => {
                assert(self.data@[d as int].wf());
                let r = self.data[d].resources.open(res);
                proof { self.lemma_data_update(*old(self), d as int); }
                r
            },
        }
    }

    /// Closes descriptor `fd` of the current process; 0, 1 and 2 stay open.
    pub fn close(&mut self, fd: u8) -> (r: bool)
        requires
            old(self).wf(),
            !old(self).interrupts_enabled,
        ensures
            final(self).wf(),
            old(self).cur_data() is None ==> !r && *final(self) == *old(self),
            old(self).cur_data() is Some ==> {
                let d = old(self).data@[old(self).cur_data()->0 as int];
                let e = final(self).data@[old(self).cur_data()->0 as int];
                &&& old(self).only_cur_data_changed(final(self), e)
                &&& e.semaphores == d.semaphores && e.heap == d.heap && e.env == d.env
                &&& r == (fd >= 3 && d.resources@.contains_key(fd))
                &&& r ==> e.resources@ == d.resources@.remove(fd)
                &&& !r ==> e.resources@ == d.resources@
            },
    {
        match self.cur_data_index() {
            None => false,
            Some(d) => {
                assert(self.data@[d as int].wf());
                let r = self.data[d].resources.close(fd);
                proof { self.lemma_data_update(*old(self), d as int); }
                r
            },
        }
    }

    /// The stream at descriptor `fd` of the current process.
    pub fn resource(&self, fd: u8) -> (r: Option<&Resource>)
        requires
            self.wf(),
        ensures
            self.cur_data() is None ==> r is None,
            self.cur_data() is Some ==> {
                let d = self.data@[self.cur_data()->0 as int];
                match r {
                    Some(res) => d.resources@.contains_key(fd) && *res == d.resources@[fd],
                    None => !d.resources@.contains_key(fd),
                }
            },
    {
        match self.cur_data_index() {
            None => None,
            Some(d) => self.data[d].resources.get(fd),
        }
    }

    /// The value of environment variable `key` of the current process.
    pub fn env(&self, key: &String) -> (r: Option<String>)
        requires
            self.wf(),
        ensures
            self.cur_data() is None ==> r is None,
            self.cur_data() is Some ==> match r {
                Some(v) => env_lookup(self.data@[self.cur_data()->0 as int].env@, key@) == Some(v@),
                None => env_lookup(self.data@[self.cur_data()->0 as int].env@, key@) is None,
            },
    {
        match self.cur_data_index() {
            None => None,
            Some(d) => self.data[d].env(key),
        }
    }

    /// The first step of `brk` on the current process's heap.
    pub fn brk(&self, addr: Option<u64>) -> (r: BrkPlan)
        requires
            self.wf(),
        ensures
            self.cur_data() is None ==> r == BrkPlan::Reject,
            self.cur_data() is Some ==> r == brk_plan_of(self.data@[self.cur_data()->0 as int].heap, addr),
    {
        match self.cur_data_index() {
            None => BrkPlan::Reject,
            Some(d) => {
                assert(self.data@[d as int].wf());
                self.data[d].heap.brk(addr)
            },
        }
    }

    /// The last step of `brk` on the current process's heap, once the page
    /// change to reach `new_end` was tried; `None` when it failed or
    /// `new_end` is outside the heap's window.
    pub fn finish_brk(&mut self, new_end: u64, change_done: bool) -> (r: Option<u64>)
        requires
            old(self).wf(),
            !old(self).interrupts_enabled,
        ensures
            final(self).wf(),
            old(self).cur_data() is None ==> r is None && *final(self) == *old(self),
            old(self).cur_data() is Some ==> {
                let d = old(self).data@[old(self).cur_data()->0 as int];
                let e = final(self).data@[old(self).cur_data()->0 as int];
                &&& old(self).only_cur_data_changed(final(self), e)
                &&& e.semaphores == d.semaphores && e.resources == d.resources && e.env == d.env
                &&& if d.heap.base <= new_end <= d.heap.base + HEAP_SIZE {
                    (e.heap, r) == finish_of(d.heap, new_end, change_done)
                } else {
                    e.heap == d.heap && r is None
                }
            },
    {
        match self.cur_data_index() {
            None => None,
            Some(d) => {
                assert(self.data@[d as int].wf());
                if new_end < self.data[d].heap.base || new_end > self.data[d].heap.base + HEAP_SIZE {
                    proof {
                        assert(self.data@ =~= old(self).data@.update(d as int, self.data@[d as int]));
                    }
                    return None;
                }
                let r = self.data[d].heap.finish_brk(new_end, change_done);
                proof { self.lemma_data_update(*old(self), d as int); }
                r
            },
        }
    }

    proof fn lemma_data_update(&self, old_m: ProcessManager, d: int)
        requires
            old_m.wf(),
            0 <= d < old_m.data@.len(),
            self.data@.len() == old_m.data@.len(),
            self.data@[d].wf(),
            forall|j: int| 0 <= j < self.data@.len() && j != d ==> self.data@[j] == old_m.data@[j],
            self.processes == old_m.processes,
            self.current == old_m.current,
        ensures
            self.wf(),
            self.data@ == old_m.data@.update(d, self.data@[d]),
    {
        assert(self.data@ =~= old_m.data@.update(d, self.data@[d]));
        assert forall|i: int| 0 <= i < self.processes@.len() implies #[trigger] self.proc_wf(i) by {
            assert(old_m.proc_wf(i));
        }
        assert forall|j: int| 0 <= j < self.data@.len() implies #[trigger] self.data@[j].wf() by {
            if j != d {
                assert(old_m.data@[j].wf());
            }
        }
    }

    /// Sets the `rax` that process `pid` will see when it next runs.
    pub fn set_return(&mut self, pid: u16, value: u64)
        requires
            old(self).wf(),
            !old(self).interrupts_enabled,
        ensures
            final(self).wf(),
            final(self).current == old(self).current,
            final(self).interrupts_enabled == old(self).interrupts_enabled,
            final(self).data == old(self).data,
            final(self).wait_queue == old(self).wait_queue,
            final(self).ready_queue == old(self).ready_queue,
            final(self).processes@.len() == old(self).processes@.len(),
            old(self).valid_pid(pid) ==> final(self).processes@ == old(self).processes@.update(
                pid - 1,
                Process { context: ProcessContext { rax: value, ..old(self).proc_at(pid).context }, ..old(self).proc_at(pid) },
            ),
            !old(self).valid_pid(pid) ==> final(self).processes@ == old(self).processes@,
    {
        if pid != 0 && (pid as usize) <= self.processes.len() {
            self.processes[pid as usize - 1].context.rax = value;
            assert(self.processes@ =~= old(self).processes@.update(
                pid - 1,
                Process { context: ProcessContext { rax: value, ..old(self).proc_at(pid).context }, ..old(self).proc_at(pid) },
            ));
        }
        assert forall|i: int| 0 <= i < self.processes@.len() implies #[trigger] self.proc_wf(i) by {
            assert(old(self).proc_wf(i));
        }
    }

    /// What `handle_page_fault` answers.
    pub open spec fn handle_page_fault_spec(&self, addr: u64, err_code: u64) -> Option<StackGrowth> {
        if err_code & PF_FATAL_BITS != 0 {
            None
        } else {
            match self.proc_at(self.current).vm {
                None => None,
                Some(vm) => if slot_of(addr as int) == slot_of(vm.stack.base()) && addr / 4096 < vm.stack.start_page {
                    Some(StackGrowth {
                        first_page: addr / 4096,
                        count: (vm.stack.start_page - addr / 4096) as u64,
                        user_access: self.current != KERNEL_PID,
                    })
                } else {
                    None
                },
            }
        }
    }

    /// Decides a page fault at `addr` with error code `err_code` in the
    /// current process: a protection violation, a malformed table, a
    /// shadow-stack, SGX or RMP fault is fatal (`None`); so is a fault
    /// outside the current stack's slot or not below its mapped pages.
    /// Otherwise the answer names the pages to map, user-accessible unless
    /// the kernel faulted.
    pub fn handle_page_fault(&self, addr: u64, err_code: u64) -> (r: Option<StackGrowth>)
        requires
            self.wf(),
        ensures
            r == self.handle_page_fault_spec(addr, err_code),
            err_code & PF_FATAL_BITS != 0 ==> r is None,
            err_code & PF_FATAL_BITS == 0 ==> match self.proc_at(self.current).vm {
                None => r is None,
                Some(vm) => match r {
                    None => slot_of(addr as int) != slot_of(vm.stack.base()) || addr / 4096 >= vm.stack.start_page,
                    Some(g) => {
                        &&& slot_of(addr as int) == slot_of(vm.stack.base())
                        &&& g.first_page == addr / 4096
                        &&& g.first_page < vm.stack.start_page
                        &&& g.count == vm.stack.start_page - g.first_page
                        &&& g.user_access == (self.current != KERNEL_PID)
                    },
                },
            },
    {
        if err_code & PF_FATAL_BITS != 0 {
            return None;
        }
        let idx = self.current as usize - 1;
        assert(self.proc_wf(idx as int));
        match &self.processes[idx].vm {
            None => None,
            Some(vm) => match vm.stack.handle_page_fault(addr) {
                None => None,
                Some(run) => Some(
                    StackGrowth {
                        first_page: run.first_page,
                        count: run.count,
                        user_access: self.current != KERNEL_PID,
                    },
                ),
            },
        }
    }

    /// Records that the current stack was grown down to `first_page`;
    /// false, with nothing changed, when the current process has no address
    /// space or `first_page` is not below its stack.
    pub fn grow_stack(&mut self, first_page: u64) -> (r: bool)
        requires
            old(self).wf(),
            !old(self).interrupts_enabled,
        ensures
            final(self).wf(),
            final(self).current == old(self).current,
            final(self).interrupts_enabled == old(self).interrupts_enabled,
            final(self).data == old(self).data,
            final(self).wait_queue == old(self).wait_queue,
            final(self).ready_queue == old(self).ready_queue,
            final(self).processes@.len() == old(self).processes@.len(),
            r == (old(self).proc_at(old(self).current).vm is Some && first_page
                <= old(self).proc_at(old(self).current).vm->0.stack.start_page),
            !r ==> *final(self) == *old(self),
            r ==> {
                let o = old(self).proc_at(old(self).current);
                let n = final(self).proc_at(old(self).current);
                &&& o.vm is Some && first_page <= o.vm->0.stack.start_page
                &&& n.vm is Some
                &&& n.vm->0.stack.start_page == first_page
                &&& n.vm->0.stack.usage == o.vm->0.stack.usage + (o.vm->0.stack.start_page - first_page)
                &&& n.vm->0.page_table == o.vm->0.page_table
                &&& n.status == o.status && n.context == o.context && n.data == o.data
                &&& n.exit_code == o.exit_code && n.ticks_passed == o.ticks_passed
            },
            forall|q: u16|
                q != old(self).current && old(self).valid_pid(q) ==> #[trigger] final(self).proc_at(q) == old(self).proc_at(q),
    {
        let idx = self.current as usize - 1;
        assert(self.proc_wf(idx as int));
        let ok = match &self.processes[idx].vm {
            None => false,
            Some(vm) => first_page <= vm.stack.start_page,
        };
        if !ok {
            return false;
        }
        let mut vm = self.processes[idx].vm.take().unwrap();
        vm.stack.grow_to(first_page);
        self.processes[idx].vm = Some(vm);
        assert forall|i: int| 0 <= i < self.processes@.len() implies #[trigger] self.proc_wf(i) by {
            assert(old(self).proc_wf(i));
        }
        assert forall|i: int|
            0 <= i < self.processes@.len() && #[trigger] self.processes@[i].status
                == ProgramStatus::Running implies self.processes@[i].pid == self.current by {
            assert(old(self).proc_wf(i));
        }
        true
    }
}

/// `s` without the entries equal to `pid`.
pub open spec fn without_pid(s: Seq<u16>, pid: u16) -> Seq<u16> {
    s.filter(|c: u16| c != pid)
}

/// Where the children of `pid` go when it is killed: to its parent if that
/// one exists and has not ended, else to nobody.
pub open spec fn kill_new_parent(m: ProcessManager, pid: u16) -> Option<u16> {
    let o = m.proc_at(pid);
    if o.parent is Some && o.parent->0 != pid && m.valid_pid(o.parent->0) && m.proc_at(o.parent->0).exit_code is None {
        o.parent
    } else {
        None
    }
}

/// In well-formed tables at most one process is running, and it is the
/// one whose pid the processor holds as current.
pub proof fn at_most_one_running(m: ProcessManager, a: u16, b: u16)
    requires
        m.wf(),
        m.valid_pid(a),
        m.valid_pid(b),
        m.status_of(a) == ProgramStatus::Running,
        m.status_of(b) == ProgramStatus::Running,
    ensures
        a == b,
        a == m.current,
{
    assert(m.proc_wf(a - 1));
    assert(m.proc_wf(b - 1));
    assert(m.processes@[a - 1].status == ProgramStatus::Running);
    assert(m.processes@[b - 1].status == ProgramStatus::Running);
}

} // verus!
