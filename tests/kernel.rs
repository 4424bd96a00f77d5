use ysos_kernel::context::ProcessContext;
use ysos_kernel::heap::{BrkPlan, Heap, PageChange, HEAP_SIZE, HEAP_START};
use ysos_kernel::input::{InputBuffer, LineEditor};
use ysos_kernel::manager::ProcessManager;
use ysos_kernel::paging::PageTableContext;
use ysos_kernel::proc;
use ysos_kernel::process::{ProgramStatus, KERNEL_PID};
use ysos_kernel::resource::{Resource, ResourceSet, StdIO};
use ysos_kernel::sem::{SemaphoreResult, SemaphoreSet};
use ysos_kernel::service::{dispatcher, list_process, Dispatch};
use ysos_kernel::stack::{Stack, STACK_INIT_BOT, STACK_MAX_SIZE};
use ysos_kernel::syscall::{decode_sem, SemOp, Syscall, SyscallArgs};
use ysos_kernel::usersync::{grow_stack, Semaphore, SpinLock};

fn kernel_tables() -> ProcessManager {
    let mut entries = vec![0u64; 512];
    for (i, e) in entries.iter_mut().enumerate().skip(256) {
        *e = 0x1000 * i as u64 | 3;
    }
    proc::init(PageTableContext::new(0x10_0000, entries))
}

fn status(m: &ProcessManager, pid: u16) -> ProgramStatus {
    m.get_proc(pid).unwrap().status
}

/// Spawns a user process and switches to it; returns its pid.
fn spawn_and_run(m: &mut ProcessManager, name: &str) -> u16 {
    let pid = proc::elf_spawn(m, name, 0x40_0000, 0x20_0000 + pid_frame(m)).unwrap();
    let mut ctx = ProcessContext::new();
    while m.current != pid {
        proc::switch(m, &mut ctx);
    }
    pid
}

fn pid_frame(m: &ProcessManager) -> u64 {
    m.processes.len() as u64 * 0x1000
}

#[test]
fn semaphore_lifecycle() {
    let mut s = SemaphoreSet::new();
    assert!(s.insert(7, 1));
    assert!(!s.insert(7, 5));
    assert_eq!(s.wait(7, 2), SemaphoreResult::Done);
    assert_eq!(s.count(7), Some(0));
    assert_eq!(s.wait(7, 3), SemaphoreResult::Block(3));
    assert_eq!(s.wait(7, 4), SemaphoreResult::Block(4));
    assert!(!s.remove(7), "waiters remain");
    assert_eq!(s.signal(7), SemaphoreResult::WakeUp(3));
    assert_eq!(s.signal(7), SemaphoreResult::WakeUp(4));
    assert_eq!(s.count(7), Some(0));
    assert_eq!(s.signal(7), SemaphoreResult::Done);
    assert_eq!(s.count(7), Some(1));
    assert_eq!(s.signal(9), SemaphoreResult::NotExist);
    assert_eq!(s.wait(9, 1), SemaphoreResult::NotExist);
    assert!(s.remove(7));
    assert_eq!(s.count(7), None);
}

#[test]
fn semaphore_count_never_negative_with_waiters() {
    let mut s = SemaphoreSet::new();
    assert!(s.insert(1, 0));
    for pid in 10..15 {
        assert_eq!(s.wait(1, pid), SemaphoreResult::Block(pid));
        assert_eq!(s.count(1), Some(0));
    }
    for pid in 10..15 {
        assert_eq!(s.signal(1), SemaphoreResult::WakeUp(pid));
    }
    assert_eq!(s.signal(1), SemaphoreResult::Done);
    assert_eq!(s.count(1), Some(1));
}

#[test]
fn counter_with_semaphore_mutex() {
    // eight workers, one hundred rounds each, one unit of mutex
    let mut s = SemaphoreSet::new();
    assert!(s.insert(0xDEADBEEF, 1));
    let mut counter = 0;
    for _round in 0..100 {
        for worker in 2..10u16 {
            assert_eq!(s.wait(0xDEADBEEF, worker), SemaphoreResult::Done);
            counter += 1;
            assert_eq!(s.signal(0xDEADBEEF), SemaphoreResult::Done);
        }
    }
    assert_eq!(counter, 800);
    assert_eq!(s.count(0xDEADBEEF), Some(1));
}

#[test]
fn fd_table_lowest_free() {
    let mut t = ResourceSet::new();
    assert!(matches!(t.get(1), Some(Resource::Console(StdIO::Stdout))));
    assert_eq!(t.open(Resource::Console(StdIO::Stdout)), Some(3));
    assert_eq!(t.open(Resource::Console(StdIO::Stdout)), Some(4));
    assert!(t.close(3));
    assert!(!t.close(3));
    assert!(!t.close(1));
    assert_eq!(t.open(Resource::Console(StdIO::Stderr)), Some(3));
    for _ in 5..=255 {
        assert!(t.open(Resource::Console(StdIO::Stdout)).is_some());
    }
    assert_eq!(t.open(Resource::Console(StdIO::Stdout)), None);
}

#[test]
fn brk_grow_shrink_and_reject() {
    let mut h = Heap::empty();
    assert_eq!(h.brk(None), BrkPlan::Report(HEAP_START));
    assert_eq!(h.brk(Some(HEAP_START - 1)), BrkPlan::Reject);
    assert_eq!(h.brk(Some(HEAP_START + HEAP_SIZE + 1)), BrkPlan::Reject);
    let page = HEAP_START / 4096;
    let plan = h.brk(Some(HEAP_START + 0x2000));
    assert_eq!(
        plan,
        BrkPlan::Move { new_end: HEAP_START + 0x2000, change: PageChange::MapPages { first_page: page, count: 3 } }
    );
    assert_eq!(h.finish_brk(HEAP_START + 0x2000, false), None);
    assert_eq!(h.end, HEAP_START);
    assert_eq!(h.finish_brk(HEAP_START + 0x2000, true), Some(HEAP_START + 0x2000));
    assert_eq!(h.memory_usage(), 0x2000);
    let plan = h.brk(Some(HEAP_START + 0x10));
    assert_eq!(
        plan,
        BrkPlan::Move { new_end: HEAP_START + 0x10, change: PageChange::UnmapPages { first_page: page + 1, count: 2 } }
    );
    let plan = h.brk(Some(HEAP_START + 0x2008));
    assert_eq!(plan, BrkPlan::Move { new_end: HEAP_START + 0x2008, change: PageChange::Keep });
    let fork = h.fork();
    assert_eq!(fork.end, h.end);
}

#[test]
fn stack_grows_one_page_on_fault() {
    let mut s = Stack::empty();
    s.init();
    let bottom = s.start_address();
    assert_eq!(bottom, STACK_INIT_BOT);
    assert_eq!(s.memory_usage(), 4096);
    let run = s.handle_page_fault(bottom - 4096).unwrap();
    assert_eq!(run.count, 1);
    assert_eq!(run.first_page, (bottom - 4096) / 4096);
    s.grow_to(run.first_page);
    assert_eq!(s.memory_usage(), 8192);
    // outside the slot
    assert!(s.handle_page_fault(bottom - STACK_MAX_SIZE).is_none());
    // already mapped
    assert!(s.handle_page_fault(bottom + 8).is_none());
}

#[test]
fn stack_fork_slot_and_offset() {
    let mut s = Stack::empty();
    s.init();
    let base = s.fork_base(1).unwrap();
    assert_eq!(base, STACK_INIT_BOT - STACK_MAX_SIZE);
    assert_eq!(Stack::next_fork_base(base), Some(base - STACK_MAX_SIZE));
    let child = s.fork(base);
    assert_eq!(child.usage, s.usage);
    let off = child.stack_offset(&s);
    let rsp = STACK_INIT_BOT + 0x800;
    assert_eq!(rsp.wrapping_add(off), base + 0x800);
}

#[test]
fn timer_switch_round_robin() {
    let mut m = kernel_tables();
    assert_eq!(m.current, KERNEL_PID);
    let a = proc::elf_spawn(&mut m, "A", 0x1000, 0x20_0000).unwrap();
    let b = proc::elf_spawn(&mut m, "B", 0x1000, 0x21_0000).unwrap();
    assert_eq!(m.get_proc(a).unwrap().name, "a");
    let mut ctx = ProcessContext::new();
    proc::switch(&mut m, &mut ctx);
    assert_eq!(m.current, a);
    assert_eq!(ctx.rip, 0x1000);
    assert_eq!(status(&m, a), ProgramStatus::Running);
    assert_eq!(status(&m, KERNEL_PID), ProgramStatus::Ready);
    assert_eq!(m.get_proc(KERNEL_PID).unwrap().ticks_passed, 1);
    proc::switch(&mut m, &mut ctx);
    assert_eq!(m.current, b);
    assert_eq!(m.get_proc(a).unwrap().ticks_passed, 1);
    assert_eq!(m.get_proc(b).unwrap().ticks_passed, 0);
    proc::switch(&mut m, &mut ctx);
    assert_eq!(m.current, KERNEL_PID);
    let running = (1..=3).filter(|&p| status(&m, p) == ProgramStatus::Running).count();
    assert_eq!(running, 1);
}

#[test]
fn dequeue_skips_blocked_pid() {
    let mut m = kernel_tables();
    let a = proc::elf_spawn(&mut m, "a", 0x1000, 0x20_0000).unwrap();
    let b = proc::elf_spawn(&mut m, "b", 0x1000, 0x21_0000).unwrap();
    m.disable_interrupts();
    m.block(a);
    m.restore_interrupts(false);
    let mut ctx = ProcessContext::new();
    proc::switch(&mut m, &mut ctx);
    assert_eq!(m.current, b);
    assert_eq!(status(&m, a), ProgramStatus::Blocked);
}

#[test]
fn fork_sets_both_returns() {
    let mut m = kernel_tables();
    let p = spawn_and_run(&mut m, "parent");
    let mut ctx = ProcessContext::new();
    ctx.rsp = STACK_INIT_BOT + 0x100;
    ctx.rax = 58;
    let child_base = STACK_INIT_BOT - STACK_MAX_SIZE;
    let c = proc::fork(&mut m, &mut ctx, 0x30_0000, child_base).unwrap();
    let parent = m.get_proc(p).unwrap();
    let child = m.get_proc(c).unwrap();
    assert_eq!(parent.context.rax, c as u64);
    assert_eq!(child.context.rax, 0);
    assert_eq!(child.context.rsp, child_base + 0x100);
    assert_eq!(child.parent, Some(p));
    assert_eq!(parent.children, vec![c]);
    assert_eq!(child.data, parent.data);
    let pt = &child.vm.as_ref().unwrap().page_table;
    assert_eq!(pt.frame, 0x30_0000);
    assert_eq!(pt.entries[256..], parent.vm.as_ref().unwrap().page_table.entries[256..]);
    assert!(child.status == ProgramStatus::Ready || child.status == ProgramStatus::Running);
}

#[test]
fn fork_refuses_stack_above_parent() {
    let mut m = kernel_tables();
    let p = spawn_and_run(&mut m, "parent");
    let mut ctx = ProcessContext::new();
    assert_eq!(proc::fork(&mut m, &mut ctx, 0x30_0000, u64::MAX), None);
    assert_eq!(m.get_proc(p).unwrap().context.rax, u64::MAX);
}

#[test]
fn wait_pid_sees_exit_code() {
    let mut m = kernel_tables();
    let parent = spawn_and_run(&mut m, "parent");
    let child = proc::elf_spawn(&mut m, "child", 0x1000, 0x40_0000).unwrap();
    let mut ctx = ProcessContext::new();
    // the parent waits: it blocks and the child runs
    proc::wait_pid(&mut m, child, &mut ctx);
    assert_eq!(status(&m, parent), ProgramStatus::Blocked);
    while m.current != child {
        proc::switch(&mut m, &mut ctx);
    }
    proc::process_exit(&mut m, 42, &mut ctx);
    assert_eq!(status(&m, child), ProgramStatus::Dead);
    assert_eq!(m.get_exit_code(child), Some(42));
    assert_ne!(status(&m, parent), ProgramStatus::Blocked);
    assert_eq!(m.get_proc(parent).unwrap().context.rax, 42);
    while m.current != parent {
        proc::switch(&mut m, &mut ctx);
    }
    // the second wait returns at once
    proc::wait_pid(&mut m, child, &mut ctx);
    assert_eq!(ctx.rax, 42);
    assert_eq!(m.current, parent);
    assert!(!proc::still_alive(&m, child));
}

#[test]
fn kill_reparents_children() {
    let mut m = kernel_tables();
    let a = spawn_and_run(&mut m, "a");
    let b = proc::elf_spawn(&mut m, "b", 0x1000, 0x40_0000).unwrap();
    assert_eq!(m.get_proc(b).unwrap().parent, Some(a));
    m.disable_interrupts();
    m.kill(a, 3);
    m.restore_interrupts(false);
    assert_eq!(m.get_proc(b).unwrap().parent, Some(KERNEL_PID));
    assert!(m.get_proc(a).unwrap().vm.is_none());
    // a second kill changes nothing
    m.disable_interrupts();
    m.kill(a, 9);
    m.restore_interrupts(false);
    assert_eq!(m.get_exit_code(a), Some(3));
}

#[test]
fn semaphore_syscalls_block_and_wake() {
    let mut m = kernel_tables();
    let p = spawn_and_run(&mut m, "p");
    let mut ctx = ProcessContext::new();
    assert_eq!(proc::new_sem(&mut m, 5, 0), 0);
    assert_eq!(proc::new_sem(&mut m, 5, 0), 1);
    let r = proc::sem_wait(&mut m, 5, &mut ctx);
    assert_eq!(r, SemaphoreResult::Block(p));
    assert_eq!(status(&m, p), ProgramStatus::Blocked);
    // the kernel signals the semaphore of its own data block: unknown there
    assert_eq!(m.current, KERNEL_PID);
    let r = proc::sem_signal(&mut m, 5, &mut ctx);
    assert_eq!(r, SemaphoreResult::NotExist);
    assert_eq!(ctx.rax, 1);
    assert_eq!(proc::remove_sem(&mut m, 5), 1);
}

#[test]
fn page_fault_decisions() {
    let mut m = kernel_tables();
    spawn_and_run(&mut m, "p");
    let g = proc::handle_page_fault(&m, STACK_INIT_BOT - 4096, 0x2).unwrap();
    assert_eq!(g.count, 1);
    assert!(g.user_access);
    assert!(proc::handle_page_fault(&m, STACK_INIT_BOT - 4096, 0x1).is_none());
    assert!(proc::handle_page_fault(&m, 0x1000, 0).is_none());
    m.disable_interrupts();
    assert!(m.grow_stack(g.first_page));
    m.restore_interrupts(false);
    assert_eq!(m.current().vm.as_ref().unwrap().memory_usage(), 8192);
}

#[test]
fn interrupts_flag_restored() {
    let mut m = kernel_tables();
    m.restore_interrupts(true);
    let mut ctx = ProcessContext::new();
    proc::switch(&mut m, &mut ctx);
    assert!(m.interrupts_enabled);
    let _ = proc::new_sem(&mut m, 1, 1);
    assert!(m.interrupts_enabled);
}

#[test]
fn dispatcher_decodes_and_runs() {
    let mut m = kernel_tables();
    let p = spawn_and_run(&mut m, "p");
    let mut ctx = ProcessContext::new();
    ctx.rax = 39;
    assert_eq!(dispatcher(&mut m, &mut ctx), Dispatch::Handled);
    assert_eq!(ctx.rax, p as u64);
    ctx.rax = 66;
    ctx.rdi = 0;
    ctx.rsi = 0x1_0000_0007;
    ctx.rdx = 2;
    assert_eq!(dispatcher(&mut m, &mut ctx), Dispatch::Handled);
    assert_eq!(ctx.rax, 0);
    ctx.rax = 66;
    ctx.rdi = 9;
    assert_eq!(dispatcher(&mut m, &mut ctx), Dispatch::Handled);
    assert_eq!(ctx.rax, u64::MAX);
    ctx.rax = 1;
    ctx.rdi = 1;
    ctx.rsi = 0x1000;
    ctx.rdx = 5;
    assert_eq!(
        dispatcher(&mut m, &mut ctx),
        Dispatch::External(SyscallArgs { syscall: Syscall::Write, arg0: 1, arg1: 0x1000, arg2: 5 })
    );
    ctx.rax = 12345;
    assert!(matches!(dispatcher(&mut m, &mut ctx), Dispatch::External(a) if a.syscall == Syscall::Unknown));
}

#[test]
fn syscall_numbers() {
    assert_eq!(Syscall::from_usize(66), Syscall::Sem);
    assert_eq!(Syscall::from_usize(65531), Syscall::ListDir);
    assert_eq!(Syscall::from_usize(7), Syscall::Unknown);
    assert_eq!(Syscall::WaitPid.number(), 61);
    let args = SyscallArgs::new(Syscall::Sem, 3, 0x1_0000_0009, 0);
    assert_eq!(decode_sem(&args), SemOp::Wait { key: 9 });
}

#[test]
fn process_list_skips_dead() {
    let mut m = kernel_tables();
    let a = proc::elf_spawn(&mut m, "a", 0x1000, 0x20_0000).unwrap();
    let b = proc::elf_spawn(&mut m, "b", 0x1000, 0x21_0000).unwrap();
    m.disable_interrupts();
    m.kill(a, 0);
    m.restore_interrupts(false);
    let rows = list_process(&m);
    let pids: Vec<u16> = rows.iter().map(|r| r.pid).collect();
    assert_eq!(pids, vec![KERNEL_PID, b]);
    assert_eq!(rows[1].ppid, KERNEL_PID);
    assert_eq!(rows[1].memory, 4096);
}

#[test]
fn env_last_binding_wins() {
    let mut m = kernel_tables();
    let idx = m.current().data.unwrap();
    m.data[idx].set_env(&"PATH".to_string(), &"/APP".to_string());
    m.data[idx].set_env(&"PATH".to_string(), &"/BIN".to_string());
    assert_eq!(m.env(&"PATH".to_string()), Some("/BIN".to_string()));
    assert_eq!(m.env(&"HOME".to_string()), None);
}

#[test]
fn input_buffer_drops_when_full() {
    let mut b = InputBuffer::new();
    for k in 0..128u8 {
        assert!(b.push_key(k));
    }
    assert!(!b.push_key(200));
    assert_eq!(b.try_pop_key(), Some(0));
    assert_eq!(b.pop_key(), 1);
    assert!(b.push_key(201));
    for k in 2..128u8 {
        assert_eq!(b.try_pop_key(), Some(k));
    }
    assert_eq!(b.try_pop_key(), Some(201));
    assert_eq!(b.try_pop_key(), None);
}

#[test]
fn line_editor_edits() {
    let mut e = LineEditor::new();
    for &k in b"helo" {
        assert!(!e.feed(k));
    }
    // cursor left, insert 'l'
    for &k in &[0x1B, b'[', 0x44, b'l'] {
        assert!(!e.feed(k));
    }
    assert_eq!(e.line, b"hello");
    // cursor right twice (only once possible), backspace
    for &k in &[0x1B, b'[', 0x43, 0x1B, b'[', 0x43, 0x7F] {
        assert!(!e.feed(k));
    }
    assert_eq!(e.line, b"hell");
    assert!(e.feed(b'\r'));
    let mut e = LineEditor::new();
    assert!(!e.feed(0x08));
    assert_eq!(e.pos, 0);
}

#[test]
fn user_side_helpers() {
    let s = Semaphore::new(0xDEADBEEF);
    assert_eq!(s.init(1), SyscallArgs { syscall: Syscall::Sem, arg0: 0, arg1: 0xDEADBEEF, arg2: 1 });
    assert_eq!(s.wait().arg0, 3);
    assert_eq!(s.signal().arg0, 2);
    assert_eq!(s.free().arg0, 1);
    let mut l = SpinLock::new();
    l.acquire();
    assert!(l.locked);
    l.release();
    assert!(!l.locked);
    assert!(grow_stack());
}

#[test]
fn dining_philosophers_release_everything() {
    let mut s = SemaphoreSet::new();
    for i in 0..5u32 {
        assert!(s.insert(i, 1));
    }
    assert!(s.insert(100, 4));
    for _round in 0..256 {
        for i in 0..5u32 {
            let pid = 10 + i as u16;
            assert_eq!(s.wait(100, pid), SemaphoreResult::Done);
            assert_eq!(s.wait(i, pid), SemaphoreResult::Done);
            assert_eq!(s.wait((i + 1) % 5, pid), SemaphoreResult::Done);
            assert_eq!(s.signal((i + 1) % 5), SemaphoreResult::Done);
            assert_eq!(s.signal(i), SemaphoreResult::Done);
            assert_eq!(s.signal(100), SemaphoreResult::Done);
        }
    }
    assert_eq!(s.count(100), Some(4));
    for i in 0..5u32 {
        assert_eq!(s.count(i), Some(1));
    }
}

#[test]
fn producers_and_consumers_balance() {
    let mut s = SemaphoreSet::new();
    assert!(s.insert(1, 1)); // mutex
    assert!(s.insert(2, 0)); // filled slots
    let mut count = 0i32;
    // a consumer that comes first must block
    assert_eq!(s.wait(2, 30), SemaphoreResult::Block(30));
    for producer in 0..8u16 {
        for _ in 0..10 {
            assert_eq!(s.wait(1, producer), SemaphoreResult::Done);
            count += 1;
            assert_eq!(s.signal(1), SemaphoreResult::Done);
            let _ = s.signal(2);
        }
    }
    // the blocked consumer was handed the first unit
    count -= 1;
    for consumer in 0..79u16 {
        assert_eq!(s.wait(2, 40 + consumer), SemaphoreResult::Done);
        assert_eq!(s.wait(1, 40 + consumer), SemaphoreResult::Done);
        count -= 1;
        assert_eq!(s.signal(1), SemaphoreResult::Done);
    }
    assert_eq!(count, 0);
    assert_eq!(s.count(2), Some(0));
}

#[test]
fn user_semaphore_result_check() {
    assert!(Semaphore::succeeded(0));
    assert!(!Semaphore::succeeded(1));
}
