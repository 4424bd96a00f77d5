use vstd::prelude::*;

use crate::context::ProcessContext;
use crate::manager::ProcessManager;
use crate::proc;
use crate::process::ProgramStatus;
use crate::syscall::{decode_sem, low32, syscall_of, SemOp, Syscall, SyscallArgs};

verus! {

/// The pid of the calling process.
pub fn sys_get_pid(mgr: &ProcessManager) -> (r: u16)
    ensures
        r == mgr.current,
{
    proc::current_pid(mgr)
}

/// Forks the caller (see `proc::fork`).
pub fn sys_fork(mgr: &mut ProcessManager, context: &mut ProcessContext, new_frame: u64, child_stack_base: u64) -> (r: Option<u16>)
    requires
        old(mgr).wf(),
    ensures
        final(mgr).wf(),
        final(mgr).interrupts_enabled == old(mgr).interrupts_enabled,
        proc::fork_outcome(*old(mgr), *final(mgr), child_stack_base, r),
{
    proc::fork(mgr, context, new_frame, child_stack_base)
}

/// Waits for the pid in the first argument (its low 16 bits; see `proc::wait_pid`).
pub fn sys_wait_pid(mgr: &mut ProcessManager, args: &SyscallArgs, context: &mut ProcessContext)
    requires
        old(mgr).wf(),
    ensures
        final(mgr).wf(),
        final(mgr).interrupts_enabled == old(mgr).interrupts_enabled,
        ({
            let pid = (args.arg0 as int % 0x1_0000) as u16;
            old(mgr).valid_pid(pid) && old(mgr).proc_at(pid).exit_code is Some ==> final(context).rax
                == crate::context::reg_of(old(mgr).proc_at(pid).exit_code->0)
        }),
{
    let pid = (args.arg0 as u64 % 0x1_0000) as u16;
    proc::wait_pid(mgr, pid, context);
}

/// What a `Sem` call with operation `op` on `key` leaves in `rax`: 0 for
/// success and 1 for failure of create (key taken), remove (absent or
/// waited on), signal (absent) and wait (absent); a wait on a zero count
/// blocks the caller and loads the next process; any other operation gives
/// `usize::MAX` and changes nothing.
pub open spec fn sem_call_outcome(
    a: ProcessManager,
    b: ProcessManager,
    c0: ProcessContext,
    c1: ProcessContext,
    op: usize,
    key: u32,
    value: usize,
) -> bool {
    let sems = a.data@[a.cur_data()->0 as int].semaphores@;
    let has = a.cur_data() is Some && sems.contains_key(key);
    if op == 0 {
        c1 == (ProcessContext { rax: if a.cur_data() is Some && !sems.contains_key(key) { 0 } else { 1 }, ..c0 })
    } else if op == 1 {
        c1 == (ProcessContext { rax: if has && sems[key].waiters@.len() == 0 { 0 } else { 1 }, ..c0 })
    } else if op == 2 {
        c1 == (ProcessContext { rax: if has { 0 } else { 1 }, ..c0 })
    } else if op == 3 {
        if has {
            if sems[key].count > 0 {
                c1 == (ProcessContext { rax: 0, ..c0 })
            } else {
                b.status_of(a.current) == ProgramStatus::Blocked && proc::loaded_next(b, c1)
            }
        } else {
            c1 == (ProcessContext { rax: 1, ..c0 })
        }
    } else {
        c1 == (ProcessContext { rax: u64::MAX, ..c0 }) && b == a
    }
}

/// Runs a semaphore operation; an unknown operation returns `usize::MAX`.
pub fn sys_sem(mgr: &mut ProcessManager, args: &SyscallArgs, context: &mut ProcessContext)
    requires
        old(mgr).wf(),
    ensures
        final(mgr).wf(),
        final(mgr).interrupts_enabled == old(mgr).interrupts_enabled,
        sem_call_outcome(*old(mgr), *final(mgr), *old(context), *final(context), args.arg0, low32(args.arg1), args.arg2),
{
    match decode_sem(args) {
        SemOp::New { key, value } => {
            let r = proc::new_sem(mgr, key, value);
            context.set_rax(r as u64);
        },
        SemOp::Remove { key } => {
            let r = proc::remove_sem(mgr, key);
            context.set_rax(r as u64);
        },
        SemOp::Signal { key } => {
            proc::sem_signal(mgr, key, context);
        },
        SemOp::Wait { key } => {
            proc::sem_wait(mgr, key, context);
        },
        SemOp::Invalid => context.set_rax(u64::MAX),
    }
}

/// Ends the caller with the exit code in the first argument.
pub fn exit_process(mgr: &mut ProcessManager, args: &SyscallArgs, context: &mut ProcessContext)
    requires
        old(mgr).wf(),
    ensures
        final(mgr).wf(),
        final(mgr).interrupts_enabled == old(mgr).interrupts_enabled,
        final(mgr).status_of(old(mgr).current) == ProgramStatus::Dead,
{
    proc::process_exit(mgr, args.arg0 as isize, context);
}

/// Closes the descriptor in the first argument (its low 8 bits): 1 if it
/// was closed, 0 otherwise.
pub fn sys_close(mgr: &mut ProcessManager, args: &SyscallArgs) -> (r: usize)
    requires
        old(mgr).wf(),
    ensures
        final(mgr).wf(),
        final(mgr).interrupts_enabled == old(mgr).interrupts_enabled,
        r == 0 || r == 1,
        ({
            let fd = (args.arg0 as int % 0x100) as u8;
            &&& old(mgr).cur_data() is Some ==> (r == 1) == (fd >= 3
                && old(mgr).data@[old(mgr).cur_data()->0 as int].resources@.contains_key(fd))
            &&& old(mgr).cur_data() is None ==> r == 0
        }),
{
    let fd = (args.arg0 as u64 % 0x100) as u8;
    if proc::close(mgr, fd) {
        1
    } else {
        0
    }
}

/// One row of the process list.
#[derive(Clone, Copy, Debug, PartialEq, Eq, Structural)]
pub struct ProcessInfo {
    pub pid: u16,
    pub ppid: u16,
    pub ticks: u64,
    pub memory: u64,
    pub status: ProgramStatus,
}

/// The processes that have not ended, in pid order, with their parent
/// (0 for none), ticks and bytes of stack.
pub fn list_process(mgr: &ProcessManager) -> (r: Vec<ProcessInfo>)
    requires
        mgr.wf(),
    ensures
        forall|i: int| 0 <= i < r@.len() ==> mgr.valid_pid(#[trigger] r@[i].pid) && r@[i].status
            != ProgramStatus::Dead && r@[i].status == mgr.status_of(r@[i].pid),
        forall|p: u16|
            mgr.valid_pid(p) && mgr.status_of(p) != ProgramStatus::Dead ==> exists|i: int|
                0 <= i < r@.len() && #[trigger] r@[i].pid == p,
{
    let mut rows: Vec<ProcessInfo> = Vec::new();
    let mut i: usize = 0;
    while i < mgr.processes.len()
        invariant
            mgr.wf(),
            i <= mgr.processes@.len(),
            forall|j: int| 0 <= j < rows@.len() ==> mgr.valid_pid(#[trigger] rows@[j].pid) && rows@[j].status
                != ProgramStatus::Dead && rows@[j].status == mgr.status_of(rows@[j].pid) && rows@[j].pid <= i,
            forall|p: u16|
                mgr.valid_pid(p) && p <= i && mgr.status_of(p) != ProgramStatus::Dead ==> exists|j: int|
                    0 <= j < rows@.len() && #[trigger] rows@[j].pid == p,
        decreases mgr.processes@.len() - i,
    {
        assert(mgr.proc_wf(i as int));
        let p = &mgr.processes[i];
        if p.status != ProgramStatus::Dead {
            let memory = match &p.vm {
                Some(vm) => vm.memory_usage(),
                None => 0,
            };
            let ppid = match p.parent {
                Some(pp) => pp,
                None => 0,
            };
            let ghost before = rows@;
            rows.push(ProcessInfo { pid: p.pid, ppid, ticks: p.ticks_passed, memory, status: p.status });
            assert forall|q: u16|
                mgr.valid_pid(q) && q <= i + 1 && mgr.status_of(q) != ProgramStatus::Dead implies exists|j: int|
                    0 <= j < rows@.len() && #[trigger] rows@[j].pid == q by {
                if q <= i {
                    let j = choose|j: int| 0 <= j < before.len() && #[trigger] before[j].pid == q;
                    assert(rows@[j].pid == q);
                } else {
                    assert(rows@[rows@.len() - 1].pid == q);
                }
            }
        }
        i = i + 1;
    }
    rows
}

/// How a system call was dealt with.
#[derive(Clone, Copy, Debug, PartialEq, Eq, Structural)]
pub enum Dispatch {
    /// Done here; `context` holds what the caller sees next.
    Handled,
    /// Needs memory, devices or the allocator: the caller carries it out.
    External(SyscallArgs),
}

/// The call that the registers of `context` select.
pub open spec fn call_of(context: ProcessContext) -> Syscall {
    syscall_of(context.rax as usize)
}

/// The calls that touch only the process tables besides `GetPid`.
pub open spec fn is_table_call(s: Syscall) -> bool {
    s == Syscall::Exit || s == Syscall::WaitPid || s == Syscall::Sem || s == Syscall::Close
}

/// What `Close` of `fd` returns: 1 when the current process had it open
/// at 3 or above, else 0.
pub open spec fn close_result(m: ProcessManager, fd: u8) -> u64 {
    if m.cur_data() is Some && fd >= 3 && m.data@[m.cur_data()->0 as int].resources@.contains_key(fd) {
        1
    } else {
        0
    }
}

/// Decodes the call in `context` and runs those that only touch the
/// process tables: `GetPid`, `Exit`, `WaitPid`, `Sem` and `Close`. Every
/// other call is handed back, decoded.
pub fn dispatcher(mgr: &mut ProcessManager, context: &mut ProcessContext) -> (r: Dispatch)
    requires
        old(mgr).wf(),
    ensures
        final(mgr).wf(),
        final(mgr).interrupts_enabled == old(mgr).interrupts_enabled,
        call_of(*old(context)) == Syscall::GetPid ==> r == Dispatch::Handled && *final(context) == (
        ProcessContext { rax: old(mgr).current as u64, ..*old(context) }) && *final(mgr) == *old(mgr),
        is_table_call(call_of(*old(context))) ==> r == Dispatch::Handled,
        call_of(*old(context)) == Syscall::Exit ==> final(mgr).status_of(old(mgr).current)
            == ProgramStatus::Dead,
        call_of(*old(context)) == Syscall::Sem ==> sem_call_outcome(
            *old(mgr),
            *final(mgr),
            *old(context),
            *final(context),
            old(context).rdi as usize,
            low32(old(context).rsi as usize),
            old(context).rdx as usize,
        ),
        call_of(*old(context)) == Syscall::Close ==> final(context).rax == close_result(
            *old(mgr),
            ((old(context).rdi as usize) as int % 0x100) as u8,
        ),
        !(call_of(*old(context)) == Syscall::GetPid || is_table_call(call_of(*old(context)))) ==> r
            == Dispatch::External(SyscallArgs::from_context_spec(*old(context))) && *final(context)
            == *old(context) && *final(mgr) == *old(mgr),
{
    let args = SyscallArgs::from_context(context);
    match args.syscall {
        Syscall::GetPid => {
            let pid = sys_get_pid(mgr);
            context.set_rax(pid as u64);
            Dispatch::Handled
        },
        Syscall::Exit => {
            exit_process(mgr, &args, context);
            Dispatch::Handled
        },
        Syscall::WaitPid => {
            sys_wait_pid(mgr, &args, context);
            Dispatch::Handled
        },
        Syscall::Sem => {
            sys_sem(mgr, &args, context);
            Dispatch::Handled
        },
        Syscall::Close => {
            let r = sys_close(mgr, &args);
            context.set_rax(r as u64);
            Dispatch::Handled
        },
        _ => Dispatch::External(args),
    }
}

} // verus!
