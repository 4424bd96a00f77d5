use vstd::prelude::*;

use crate::syscall::{Syscall, SyscallArgs};

verus! {

/// A lock held by at most one owner.
pub struct SpinLock {
    pub locked: bool,
}

impl SpinLock {
    pub fn new() -> (r: SpinLock)
        ensures
            !r.locked,
    {
        SpinLock { locked: false }
    }

    /// Takes the lock if it is free.
    fn try_acquire(&mut self) -> (r: bool)
        ensures
            r == !old(self).locked,
            final(self).locked,
    {
        if self.locked {
            false
        } else {
            self.locked = true;
            true
        }
    }

    /// Takes the lock; its holder must have released it first, since with
    /// the lock borrowed exclusively nobody else could.
    pub fn acquire(&mut self)
        requires
            !old(self).locked,
        ensures
            final(self).locked,
    {
        let ok = self.try_acquire();
        assert(ok);
    }

    pub fn release(&mut self)
        ensures
            !final(self).locked,
    {
        self.locked = false;
    }
}

/// A user-side handle on the kernel semaphore `key`; each operation is the
/// `Sem` system call it issues.
#[derive(Clone, Copy, Debug, PartialEq, Eq, Structural)]
pub struct Semaphore {
    pub key: u32,
}

impl Semaphore {
    pub fn new(key: u32) -> (r: Semaphore)
        ensures
            r.key == key,
    {
        Semaphore { key }
    }

    /// The call that creates the semaphore with count `value`; it returns 0
    /// on success.
    pub fn init(&self, value: usize) -> (r: SyscallArgs)
        ensures
            r == (SyscallArgs { syscall: Syscall::Sem, arg0: 0, arg1: self.key as usize, arg2: value }),
    {
        SyscallArgs { syscall: Syscall::Sem, arg0: 0, arg1: self.key as usize, arg2: value }
    }

    /// Whether the value a create or remove call returned means success.
    pub fn succeeded(ret: usize) -> (r: bool)
        ensures
            r == (ret == 0),
    {
        ret == 0
    }

    /// The call that removes the semaphore; it returns 0 on success.
    pub fn free(&self) -> (r: SyscallArgs)
        ensures
            r == (SyscallArgs { syscall: Syscall::Sem, arg0: 1, arg1: self.key as usize, arg2: 0 }),
    {
        SyscallArgs { syscall: Syscall::Sem, arg0: 1, arg1: self.key as usize, arg2: 0 }
    }

    /// The call that signals the semaphore.
    pub fn signal(&self) -> (r: SyscallArgs)
        ensures
            r == (SyscallArgs { syscall: Syscall::Sem, arg0: 2, arg1: self.key as usize, arg2: 0 }),
    {
        SyscallArgs { syscall: Syscall::Sem, arg0: 2, arg1: self.key as usize, arg2: 0 }
    }

    /// The call that waits on the semaphore.
    pub fn wait(&self) -> (r: SyscallArgs)
        ensures
            r == (SyscallArgs { syscall: Syscall::Sem, arg0: 3, arg1: self.key as usize, arg2: 0 }),
    {
        SyscallArgs { syscall: Syscall::Sem, arg0: 3, arg1: self.key as usize, arg2: 0 }
    }
}

/// Writes and reads back every 64th word of a 4096-word buffer, as a check
/// that a large stack frame can be used.
pub fn grow_stack() -> (ok: bool)
    ensures
        ok,
{
    let mut array: Vec<u64> = Vec::new();
    let mut k: usize = 0;
    while k < 4096
        invariant
            k <= 4096,
            array@.len() == k,
        decreases 4096 - k,
    {
        array.push(0);
        k = k + 1;
    }
    let mut i: usize = 0;
    while i < 4096
        invariant
            i <= 4096 + 64,
            i % 64 == 0,
            array@.len() == 4096,
            forall|j: int| 0 <= j < i && j % 64 == 0 ==> array@[j] == j,
        decreases 4096 + 64 - i,
    {
        array.set(i, i as u64);
        i = i + 64;
    }
    let mut n: usize = 0;
    while n < 4096
        invariant
            n <= 4096 + 64,
            n % 64 == 0,
            array@.len() == 4096,
            forall|j: int| 0 <= j < 4096 && j % 64 == 0 ==> array@[j] == j,
        decreases 4096 + 64 - n,
    {
        if array[n] != n as u64 {
            return false;
        }
        n = n + 64;
    }
    true
}

} // verus!
