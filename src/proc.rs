use vstd::prelude::*;

use crate::context::{reg_of, ProcessContext};
use crate::heap::{brk_plan_of, BrkPlan};
use crate::manager::{ProcessManager, StackGrowth};
use crate::paging::PageTableContext;
use crate::process::{Process, ProcessVm, ProgramStatus};
use crate::sem::{signal_spec, wait_spec, SemaphoreResult};

verus! {

// Each entry point below runs with interrupts disabled and restores the
// interrupt flag it found; every method of `ProcessManager` that changes a
// table demands that flag off.

/// The ticks of all processes together.
pub open spec fn ticks_total(ps: Seq<Process>) -> int
    decreases ps.len(),
{
    if ps.len() == 0 {
        0
    } else {
        ticks_total(ps.drop_last()) + ps.last().ticks_passed
    }
}

/// When no process's tick count goes down, neither does the total.
pub proof fn ticks_total_never_decreases(a: Seq<Process>, b: Seq<Process>)
    requires
        a.len() == b.len(),
        forall|i: int| 0 <= i < a.len() ==> #[trigger] b[i].ticks_passed >= a[i].ticks_passed,
    ensures
        ticks_total(b) >= ticks_total(a),
    decreases a.len(),
{
    if a.len() > 0 {
        assert forall|i: int| 0 <= i < a.drop_last().len() implies #[trigger] b.drop_last()[i].ticks_passed
            >= a.drop_last()[i].ticks_passed by {
            assert(b[i].ticks_passed >= a[i].ticks_passed);
        }
        ticks_total_never_decreases(a.drop_last(), b.drop_last());
    }
}

/// The process tables at boot: the kernel, running on its own stack in the
/// page table the loader built.
pub fn init(kernel_page_table: PageTableContext) -> (r: ProcessManager)
    requires
        kernel_page_table.wf(),
    ensures
        r.wf(),
        r.current == crate::process::KERNEL_PID,
        r.processes@.len() == 1,
        r.status_of(crate::process::KERNEL_PID) == ProgramStatus::Running,
        r.proc_at(crate::process::KERNEL_PID).vm->0.page_table == kernel_page_table,
        !r.interrupts_enabled,
{
    let vm = ProcessVm::new(kernel_page_table).init_kernel_vm();
    ProcessManager::new(vm)
}

/// The timer tick: saves the interrupted process, charges it one tick,
/// queues it if it was running, and loads the next ready process into
/// `context`. Only the interrupted process's tick count moves.
pub fn switch(mgr: &mut ProcessManager, context: &mut ProcessContext)
    requires
        old(mgr).wf(),
    ensures
        final(mgr).wf(),
        final(mgr).interrupts_enabled == old(mgr).interrupts_enabled,
        final(mgr).processes@.len() == old(mgr).processes@.len(),
        ({
            let c = old(mgr).current;
            let t = old(mgr).proc_at(c).ticks_passed;
            final(mgr).proc_at(c).ticks_passed == if t < u64::MAX {
                t + 1
            } else {
                t as int
            }
        }),
        forall|p: u16|
            p != old(mgr).current && old(mgr).valid_pid(p) ==> #[trigger] final(mgr).proc_at(p).ticks_passed
                == old(mgr).proc_at(p).ticks_passed,
        ticks_total(final(mgr).processes@) >= ticks_total(old(mgr).processes@),
{
    let saved = mgr.disable_interrupts();
    let ghost m0 = *mgr;
    mgr.save_current(context);
    let ghost m1 = *mgr;
    let next = mgr.switch_next(context);
    mgr.restore_interrupts(saved);
    proof {
        assert forall|p: u16| old(mgr).valid_pid(p) implies #[trigger] mgr.proc_at(p).ticks_passed
            == m1.proc_at(p).ticks_passed by {
            if p != next {
                assert(mgr.proc_at(p) == m1.proc_at(p));
            }
        }
        assert forall|i: int| 0 <= i < old(mgr).processes@.len() implies #[trigger] mgr.processes@[i].ticks_passed
            >= old(mgr).processes@[i].ticks_passed by {
            let p = (i + 1) as u16;
            assert(m0.proc_wf(i));
            assert(mgr.proc_at(p).ticks_passed == m1.proc_at(p).ticks_passed);
            if p != m0.current {
                assert(m1.proc_at(p) == m0.proc_at(p));
            }
        }
        ticks_total_never_decreases(old(mgr).processes@, mgr.processes@);
    }
}

/// The pid the processor runs.
pub fn current_pid(mgr: &ProcessManager) -> (r: u16)
    ensures
        r == mgr.current,
{
    mgr.current
}

/// `pid` has not ended (an unknown pid counts as alive).
pub fn still_alive(mgr: &ProcessManager, pid: u16) -> (r: bool)
    requires
        mgr.wf(),
    ensures
        r == !(mgr.valid_pid(pid) && mgr.proc_at(pid).exit_code is Some),
{
    mgr.get_exit_code(pid).is_none()
}

/// `context` holds the saved registers of the process now current.
pub open spec fn loaded_next(m: ProcessManager, context: ProcessContext) -> bool {
    context == m.proc_at(m.current).context
}

/// Waits for `pid` to end. If it already has, its exit code goes to `rax`
/// at once; otherwise the caller joins the waiters of `pid`, is blocked,
/// and the next process is loaded into `context`.
pub fn wait_pid(mgr: &mut ProcessManager, pid: u16, context: &mut ProcessContext)
    requires
        old(mgr).wf(),
    ensures
        final(mgr).wf(),
        final(mgr).interrupts_enabled == old(mgr).interrupts_enabled,
        old(mgr).valid_pid(pid) && old(mgr).proc_at(pid).exit_code is Some ==> {
            &&& *final(context) == (ProcessContext { rax: reg_of(old(mgr).proc_at(pid).exit_code->0), ..*old(context) })
            &&& *final(mgr) == *old(mgr)
        },
        !(old(mgr).valid_pid(pid) && old(mgr).proc_at(pid).exit_code is Some) ==> {
            &&& final(mgr).wait_queue@.contains_key(pid)
            &&& final(mgr).wait_queue@[pid]@.contains(old(mgr).current)
            &&& final(mgr).proc_at(old(mgr).current).context == *old(context)
            &&& old(mgr).status_of(old(mgr).current) != ProgramStatus::Dead ==> final(mgr).status_of(
                old(mgr).current,
            ) == ProgramStatus::Blocked
            &&& loaded_next(*final(mgr), *final(context))
        },
{
    let saved = mgr.disable_interrupts();
    match mgr.get_exit_code(pid) {
        Some(ret) => {
            context.set_rax(ret as u64);
            assert(context.rax == reg_of(ret));
            mgr.restore_interrupts(saved);
            return;
        },
        None => {
            let me = mgr.current;
            mgr.wait_pid(pid);
            mgr.save_current(context);
            mgr.block(me);
            let ghost before = *mgr;
            let next = mgr.switch_next(context);
            proof {
                if next != me {
                    assert(mgr.proc_at(me) == before.proc_at(me));
                }
            }
        },
    }
    mgr.restore_interrupts(saved);
}

/// Creates semaphore `key` with count `value`: 0 on success, 1 when the
/// key is taken.
pub fn new_sem(mgr: &mut ProcessManager, key: u32, value: usize) -> (r: usize)
    requires
        old(mgr).wf(),
    ensures
        final(mgr).wf(),
        final(mgr).interrupts_enabled == old(mgr).interrupts_enabled,
        old(mgr).cur_data() is Some ==> (r == 0) == !old(mgr).data@[old(mgr).cur_data()->0 as int].semaphores@.contains_key(key),
        old(mgr).cur_data() is None ==> r == 1,
        r == 0 || r == 1,
        final(mgr).processes == old(mgr).processes && final(mgr).current == old(mgr).current,
        old(mgr).cur_data() is Some ==> ({
            let d = old(mgr).data@[old(mgr).cur_data()->0 as int].semaphores@;
            let e = final(mgr).data@[old(mgr).cur_data()->0 as int].semaphores@;
            &&& r == 0 ==> e == d.insert(key, e[key]) && e[key].count == value && e[key].waiters@.len() == 0
            &&& r == 1 ==> e == d
        }),
{
    let saved = mgr.disable_interrupts();
    let ok = mgr.new_sem(key, value);
    mgr.restore_interrupts(saved);
    if ok {
        0
    } else {
        1
    }
}

/// Removes semaphore `key`: 0 on success, 1 when it is absent or has waiters.
pub fn remove_sem(mgr: &mut ProcessManager, key: u32) -> (r: usize)
    requires
        old(mgr).wf(),
    ensures
        final(mgr).wf(),
        final(mgr).interrupts_enabled == old(mgr).interrupts_enabled,
        old(mgr).cur_data() is Some ==> (r == 0) == ({
            let d = old(mgr).data@[old(mgr).cur_data()->0 as int];
            d.semaphores@.contains_key(key) && d.semaphores@[key].waiters@.len() == 0
        }),
        old(mgr).cur_data() is None ==> r == 1,
        r == 0 || r == 1,
        final(mgr).processes == old(mgr).processes && final(mgr).current == old(mgr).current,
        old(mgr).cur_data() is Some ==> ({
            let d = old(mgr).data@[old(mgr).cur_data()->0 as int].semaphores@;
            let e = final(mgr).data@[old(mgr).cur_data()->0 as int].semaphores@;
            &&& r == 0 ==> e == d.remove(key)
            &&& r == 1 ==> e == d
        }),
{
    let saved = mgr.disable_interrupts();
    let ok = mgr.remove_sem(key);
    mgr.restore_interrupts(saved);
    if ok {
        0
    } else {
        1
    }
}

/// Signals semaphore `key`: `rax` gets 0, or 1 for an unknown key; a
/// woken waiter becomes ready and sees 0 in its `rax`.
pub fn sem_signal(mgr: &mut ProcessManager, key: u32, context: &mut ProcessContext) -> (r: SemaphoreResult)
    requires
        old(mgr).wf(),
    ensures
        final(mgr).wf(),
        final(mgr).interrupts_enabled == old(mgr).interrupts_enabled,
        final(mgr).current == old(mgr).current,
        old(mgr).cur_data() is None ==> r == SemaphoreResult::NotExist,
        old(mgr).cur_data() is Some ==> signal_spec(
            old(mgr).data@[old(mgr).cur_data()->0 as int].semaphores,
            final(mgr).data@[old(mgr).cur_data()->0 as int].semaphores,
            key,
            r,
        ),
        r == SemaphoreResult::NotExist ==> *final(context) == (ProcessContext { rax: 1, ..*old(context) }),
        r != SemaphoreResult::NotExist ==> *final(context) == (ProcessContext { rax: 0, ..*old(context) }),
        !(r is WakeUp) ==> final(mgr).processes == old(mgr).processes && final(mgr).ready_queue == old(mgr).ready_queue,
        r is WakeUp ==> ({
            let w = r->WakeUp_0;
            old(mgr).valid_pid(w) && old(mgr).status_of(w) != ProgramStatus::Dead ==> final(mgr).status_of(w) == ProgramStatus::Ready
                && final(mgr).proc_at(w).context.rax == 0
                && final(mgr).ready_queue@ == old(mgr).ready_queue@.push(w)
        }),
{
    let saved = mgr.disable_interrupts();
    let r = mgr.sem_signal(key);
    match r {
        SemaphoreResult::NotExist => context.set_rax(1),
        SemaphoreResult::WakeUp(pid) => {
            context.set_rax(0);
            mgr.wake_up(pid, Some(0));
            assert(reg_of(0) == 0);
        },
        _ => context.set_rax(0),
    }
    mgr.restore_interrupts(saved);
    r
}

/// Waits on semaphore `key`: `rax` gets 0 when a unit was taken, 1 for an
/// unknown key; when it must block, the caller is saved, blocked, and the
/// next process is loaded into `context`.
pub fn sem_wait(mgr: &mut ProcessManager, key: u32, context: &mut ProcessContext) -> (r: SemaphoreResult)
    requires
        old(mgr).wf(),
    ensures
        final(mgr).wf(),
        final(mgr).interrupts_enabled == old(mgr).interrupts_enabled,
        old(mgr).cur_data() is None ==> r == SemaphoreResult::NotExist,
        old(mgr).cur_data() is Some ==> wait_spec(
            old(mgr).data@[old(mgr).cur_data()->0 as int].semaphores,
            final(mgr).data@[old(mgr).cur_data()->0 as int].semaphores,
            key,
            old(mgr).current,
            r,
        ),
        r == SemaphoreResult::NotExist ==> *final(context) == (ProcessContext { rax: 1, ..*old(context) })
            && final(mgr).current == old(mgr).current,
        r == SemaphoreResult::Done ==> *final(context) == (ProcessContext { rax: 0, ..*old(context) })
            && final(mgr).current == old(mgr).current,
        r is Block ==> {
            &&& r->Block_0 == old(mgr).current
            &&& final(mgr).status_of(old(mgr).current) == ProgramStatus::Blocked
            &&& final(mgr).proc_at(old(mgr).current).context == *old(context)
            &&& loaded_next(*final(mgr), *final(context))
        },
{
    let saved = mgr.disable_interrupts();
    let me = mgr.current;
    let r = mgr.sem_wait(key, me);
    match r {
        SemaphoreResult::Done => context.set_rax(0),
        SemaphoreResult::Block(pid) => {
            assert(mgr.proc_wf(me - 1));
            mgr.save_current(context);
            mgr.block(pid);
            let ghost before = *mgr;
            let next = mgr.switch_next(context);
            proof {
                if next != me {
                    assert(mgr.proc_at(me) == before.proc_at(me));
                }
            }
        },
        _ => context.set_rax(1),
    }
    mgr.restore_interrupts(saved);
    r
}

/// Ends the current process with exit code `ret` and loads the next one.
pub fn process_exit(mgr: &mut ProcessManager, ret: isize, context: &mut ProcessContext)
    requires
        old(mgr).wf(),
    ensures
        final(mgr).wf(),
        final(mgr).interrupts_enabled == old(mgr).interrupts_enabled,
        final(mgr).proc_at(old(mgr).current).status == ProgramStatus::Dead,
        old(mgr).proc_at(old(mgr).current).exit_code is None ==> final(mgr).proc_at(old(mgr).current).exit_code == Some(ret),
        loaded_next(*final(mgr), *final(context)),
        forall|w: u16|
            #![trigger final(mgr).proc_at(w)]
            w != old(mgr).current && old(mgr).status_of(old(mgr).current) != ProgramStatus::Dead
                && old(mgr).wait_queue@.contains_key(old(mgr).current)
                && old(mgr).wait_queue@[old(mgr).current]@.contains(w) && old(mgr).valid_pid(w)
                && old(mgr).status_of(w) != ProgramStatus::Dead ==> (final(mgr).status_of(w) == ProgramStatus::Ready
                || final(mgr).status_of(w) == ProgramStatus::Running) && final(mgr).proc_at(w).context.rax == reg_of(ret),
{
    let saved = mgr.disable_interrupts();
    let me = mgr.current;
    assert(mgr.proc_wf(me - 1));
    mgr.kill(me, ret);
    let ghost before = *mgr;
    let next = mgr.switch_next(context);
    proof {
        if mgr.current != me {
            assert(mgr.proc_at(me) == before.proc_at(me));
        }
        assert forall|w: u16|
            #![trigger mgr.proc_at(w)]
            w != old(mgr).current && old(mgr).status_of(old(mgr).current) != ProgramStatus::Dead
                && old(mgr).wait_queue@.contains_key(old(mgr).current)
                && old(mgr).wait_queue@[old(mgr).current]@.contains(w) && old(mgr).valid_pid(w)
                && old(mgr).status_of(w) != ProgramStatus::Dead implies (mgr.status_of(w) == ProgramStatus::Ready
                || mgr.status_of(w) == ProgramStatus::Running) && mgr.proc_at(w).context.rax == reg_of(ret) by {
            assert(before.proc_at(w).status == ProgramStatus::Ready);
            if w != next {
                assert(mgr.proc_at(w) == before.proc_at(w));
            }
        }
    }
    let ghost after = *mgr;
    mgr.restore_interrupts(saved);
    proof {
        assert(mgr.processes == after.processes);
        assert forall|w: u16| #![trigger mgr.proc_at(w)] old(mgr).valid_pid(w) implies mgr.proc_at(w) == after.proc_at(w) by {}
    }
}

/// Decides a page fault (see `ProcessManager::handle_page_fault`).
pub fn handle_page_fault(mgr: &ProcessManager, addr: u64, err_code: u64) -> (r: Option<StackGrowth>)
    requires
        mgr.wf(),
    ensures
        r == mgr.handle_page_fault_spec(addr, err_code),
{
    mgr.handle_page_fault(addr, err_code)
}

/// What a fork from the current process of `a` with child stack base
/// `base` leaves in `b`: it succeeds exactly when `can_fork` holds; then
/// the child has the next pid, `rax` = 0, no children, the parent's data
/// block and kernel half of the page table, and the parent has the child's
/// pid in `rax` and the child at the end of its children; both are ready
/// (or the one picked next is running). A failed fork leaves -1 in the
/// parent's `rax`.
pub open spec fn fork_outcome(a: ProcessManager, b: ProcessManager, base: u64, r: Option<u16>) -> bool {
    let p = a.current;
    &&& r is Some <==> a.can_fork(base)
    &&& r is Some ==> {
        let c = r->0;
        let ch = b.proc_at(c);
        let np = b.proc_at(p);
        &&& c == a.processes@.len() + 1
        &&& b.processes@.len() == c
        &&& ch.parent == Some(p)
        &&& ch.context.rax == 0
        &&& ch.children@.len() == 0
        &&& ch.data == a.proc_at(p).data
        &&& ch.vm is Some
        &&& ch.vm->0.page_table.same_kernel_half(&a.proc_at(p).vm->0.page_table)
        &&& np.context.rax == c as u64
        &&& np.children@ == a.proc_at(p).children@.push(c)
        &&& (ch.status == ProgramStatus::Ready || ch.status == ProgramStatus::Running)
        &&& (np.status == ProgramStatus::Ready || np.status == ProgramStatus::Running)
    }
    &&& r is None ==> b.processes@.len() == a.processes@.len() && b.proc_at(p).context.rax == u64::MAX
}

/// Forks the current process: saves it, creates the child (see
/// `ProcessManager::fork`) and loads the next process. When the fork
/// fails, the parent sees -1 in `rax`.
pub fn fork(mgr: &mut ProcessManager, context: &mut ProcessContext, new_frame: u64, child_stack_base: u64) -> (r: Option<u16>)
    requires
        old(mgr).wf(),
    ensures
        final(mgr).wf(),
        final(mgr).interrupts_enabled == old(mgr).interrupts_enabled,
        fork_outcome(*old(mgr), *final(mgr), child_stack_base, r),
{
    let saved = mgr.disable_interrupts();
    let me = mgr.current;
    let ghost m0 = *mgr;
    mgr.save_current(context);
    let ghost m1 = *mgr;
    let r = mgr.fork(new_frame, child_stack_base);
    if r.is_none() {
        mgr.set_return(me, u64::MAX);
    }
    let ghost before = *mgr;
    assert(mgr.status_of(mgr.current) != ProgramStatus::Running);
    let next = mgr.switch_next(context);
    proof {
        assert(m1.proc_at(me).children == m0.proc_at(me).children);
        assert(m1.proc_at(me).data == m0.proc_at(me).data);
        assert(m1.proc_at(me).vm == m0.proc_at(me).vm);
        if let Some(c) = r {
            if next != c {
                assert(mgr.proc_at(c) == before.proc_at(c));
            }
            if next != me {
                assert(mgr.proc_at(me) == before.proc_at(me));
            }
        } else if next != me {
            assert(mgr.proc_at(me) == before.proc_at(me));
        }
    }
    mgr.restore_interrupts(saved);
    r
}

/// Spawns a process named `name` starting at `entry`, as a child of the
/// current process (see `ProcessManager::spawn`).
pub fn elf_spawn(mgr: &mut ProcessManager, name: &str, entry: u64, new_frame: u64) -> (r: Option<u16>)
    requires
        old(mgr).wf(),
    ensures
        final(mgr).wf(),
        final(mgr).interrupts_enabled == old(mgr).interrupts_enabled,
        r is Some <==> old(mgr).can_spawn(),
        r is Some ==> r->0 == old(mgr).processes@.len() + 1 && final(mgr).proc_at(r->0).parent == Some(old(mgr).current)
            && final(mgr).status_of(r->0) == ProgramStatus::Ready
            && final(mgr).ready_queue@ == old(mgr).ready_queue@.push(r->0)
            && final(mgr).proc_at(r->0).context.rip == entry,
{
    let saved = mgr.disable_interrupts();
    let me = mgr.current;
    let r = mgr.spawn(name, entry, new_frame, Some(me));
    mgr.restore_interrupts(saved);
    r
}

/// The first step of `brk` on the current process's heap.
pub fn brk(mgr: &ProcessManager, addr: Option<u64>) -> (r: BrkPlan)
    requires
        mgr.wf(),
    ensures
        mgr.cur_data() is None ==> r == BrkPlan::Reject,
        mgr.cur_data() is Some ==> r == brk_plan_of(mgr.data@[mgr.cur_data()->0 as int].heap, addr),
{
    mgr.brk(addr)
}

/// Closes descriptor `fd` of the current process.
pub fn close(mgr: &mut ProcessManager, fd: u8) -> (r: bool)
    requires
        old(mgr).wf(),
    ensures
        final(mgr).wf(),
        final(mgr).interrupts_enabled == old(mgr).interrupts_enabled,
        old(mgr).cur_data() is Some ==> r == (fd >= 3 && old(mgr).data@[old(mgr).cur_data()->0 as int].resources@.contains_key(fd)),
        old(mgr).cur_data() is None ==> !r,
{
    let saved = mgr.disable_interrupts();
    let r = mgr.close(fd);
    mgr.restore_interrupts(saved);
    r
}

} // verus!
