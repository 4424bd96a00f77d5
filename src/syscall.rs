use vstd::prelude::*;

use crate::context::ProcessContext;

verus! {

/// The system calls, by the number a process puts in `rax`.
#[derive(Clone, Copy, Debug, PartialEq, Eq, Structural)]
pub enum Syscall {
    Read,
    Write,
    Open,
    Close,
    Brk,
    GetPid,
    Fork,
    Spawn,
    Exit,
    WaitPid,
    Sem,
    ListDir,
    Stat,
    Allocate,
    Deallocate,
    Unknown,
}

/// The call that number `n` selects; every other number is `Unknown`.
pub open spec fn syscall_of(n: usize) -> Syscall {
    if n == 0 {
        Syscall::Read
    } else if n == 1 {
        Syscall::Write
    } else if n == 2 {
        Syscall::Open
    } else if n == 3 {
        Syscall::Close
    } else if n == 12 {
        Syscall::Brk
    } else if n == 39 {
        Syscall::GetPid
    } else if n == 58 {
        Syscall::Fork
    } else if n == 59 {
        Syscall::Spawn
    } else if n == 60 {
        Syscall::Exit
    } else if n == 61 {
        Syscall::WaitPid
    } else if n == 66 {
        Syscall::Sem
    } else if n == 65531 {
        Syscall::ListDir
    } else if n == 65532 {
        Syscall::Stat
    } else if n == 65533 {
        Syscall::Allocate
    } else if n == 65534 {
        Syscall::Deallocate
    } else {
        Syscall::Unknown
    }
}

/// The number of each call.
pub open spec fn number_of(s: Syscall) -> usize {
    match s {
        Syscall::Read => 0,
        Syscall::Write => 1,
        Syscall::Open => 2,
        Syscall::Close => 3,
        Syscall::Brk => 12,
        Syscall::GetPid => 39,
        Syscall::Fork => 58,
        Syscall::Spawn => 59,
        Syscall::Exit => 60,
        Syscall::WaitPid => 61,
        Syscall::Sem => 66,
        Syscall::ListDir => 65531,
        Syscall::Stat => 65532,
        Syscall::Allocate => 65533,
        Syscall::Deallocate => 65534,
        Syscall::Unknown => 65535,
    }
}

impl Syscall {
    /// Selects the call for number `n`.
    pub fn from_usize(n: usize) -> (r: Syscall)
        ensures
            r == syscall_of(n),
    {
        match n {
            0 => Syscall::Read,
            1 => Syscall::Write,
            2 => Syscall::Open,
            3 => Syscall::Close,
            12 => Syscall::Brk,
            39 => Syscall::GetPid,
            58 => Syscall::Fork,
            59 => Syscall::Spawn,
            60 => Syscall::Exit,
            61 => Syscall::WaitPid,
            66 => Syscall::Sem,
            65531 => Syscall::ListDir,
            65532 => Syscall::Stat,
            65533 => Syscall::Allocate,
            65534 => Syscall::Deallocate,
            _ => Syscall::Unknown,
        }
    }

    /// The number of this call.
    pub fn number(&self) -> (r: usize)
        ensures
            r == number_of(*self),
    {
        match self {
            Syscall::Read => 0,
            Syscall::Write => 1,
            Syscall::Open => 2,
            Syscall::Close => 3,
            Syscall::Brk => 12,
            Syscall::GetPid => 39,
            Syscall::Fork => 58,
            Syscall::Spawn => 59,
            Syscall::Exit => 60,
            Syscall::WaitPid => 61,
            Syscall::Sem => 66,
            Syscall::ListDir => 65531,
            Syscall::Stat => 65532,
            Syscall::Allocate => 65533,
            Syscall::Deallocate => 65534,
            Syscall::Unknown => 65535,
        }
    }
}

/// A call's number selects it back, and a number selects either the call
/// that carries it or `Unknown`.
pub proof fn syscall_numbers_round_trip(s: Syscall, n: usize)
    ensures
        syscall_of(number_of(s)) == s,
        syscall_of(n) == Syscall::Unknown || number_of(syscall_of(n)) == n,
{
}

/// A system call as it arrives: the call and its three arguments.
#[derive(Clone, Copy, Debug, PartialEq, Eq, Structural)]
pub struct SyscallArgs {
    pub syscall: Syscall,
    pub arg0: usize,
    pub arg1: usize,
    pub arg2: usize,
}

impl SyscallArgs {
    pub fn new(syscall: Syscall, arg0: usize, arg1: usize, arg2: usize) -> (r: SyscallArgs)
        ensures
            r == (SyscallArgs { syscall, arg0, arg1, arg2 }),
    {
        SyscallArgs { syscall, arg0, arg1, arg2 }
    }

    pub open spec fn from_context_spec(context: ProcessContext) -> SyscallArgs {
        SyscallArgs {
            syscall: syscall_of(context.rax as usize),
            arg0: context.rdi as usize,
            arg1: context.rsi as usize,
            arg2: context.rdx as usize,
        }
    }

    /// Reads a call from the registers: the number in `rax`, the arguments
    /// in `rdi`, `rsi` and `rdx`.
    pub fn from_context(context: &ProcessContext) -> (r: SyscallArgs)
        ensures
            r == SyscallArgs::from_context_spec(*context),
    {
        SyscallArgs {
            syscall: Syscall::from_usize(context.rax as usize),
            arg0: context.rdi as usize,
            arg1: context.rsi as usize,
            arg2: context.rdx as usize,
        }
    }
}

/// The semaphore operations of the `Sem` call, by its first argument.
#[derive(Clone, Copy, Debug, PartialEq, Eq, Structural)]
pub enum SemOp {
    New { key: u32, value: usize },
    Remove { key: u32 },
    Signal { key: u32 },
    Wait { key: u32 },
    Invalid,
}

/// The lowest 32 bits of `x`.
pub open spec fn low32(x: usize) -> u32 {
    (x as int % 0x1_0000_0000) as u32
}

/// Decodes a `Sem` call: operation 0 creates (key, value), 1 removes,
/// 2 signals, 3 waits; the key is the low 32 bits of the second argument.
pub fn decode_sem(args: &SyscallArgs) -> (r: SemOp)
    ensures
        args.arg0 == 0 ==> r == (SemOp::New { key: low32(args.arg1), value: args.arg2 }),
        args.arg0 == 1 ==> r == (SemOp::Remove { key: low32(args.arg1) }),
        args.arg0 == 2 ==> r == (SemOp::Signal { key: low32(args.arg1) }),
        args.arg0 == 3 ==> r == (SemOp::Wait { key: low32(args.arg1) }),
        args.arg0 > 3 ==> (r == SemOp::Invalid),
{
    let key = (args.arg1 as u64 % 0x1_0000_0000) as u32;
    match args.arg0 {
        0 => SemOp::New { key, value: args.arg2 },
        1 => SemOp::Remove { key },
        2 => SemOp::Signal { key },
        3 => SemOp::Wait { key },
        _ => SemOp::Invalid,
    }
}

/// One past the highest user-space address.
pub const USER_SPACE_END: u64 = 0x8000_0000_0000;

/// A user buffer of `len` bytes at `ptr` lies wholly in the user half of
/// the address space. Whether its pages are mapped is read from the page
/// tables, which the caller holds; a buffer counts as valid only when both
/// checks pass.
pub fn user_range_ok(ptr: usize, len: usize) -> (r: bool)
    ensures
        r == (ptr as int + len as int <= USER_SPACE_END),
{
    let p = ptr as u64;
    let l = len as u64;
    p <= USER_SPACE_END && l <= USER_SPACE_END - p
}

/// The value a `Read` or `Write` call returns in `rax`: the byte count, or
/// `usize::MAX` for an invalid buffer (outside the user half or not mapped)
/// or a failed transfer.
pub fn io_return(buffer_ok: bool, transferred: isize) -> (r: usize)
    ensures
        !buffer_ok ==> r == usize::MAX,
        buffer_ok && transferred >= 0 ==> r == transferred,
        buffer_ok && transferred < 0 ==> r == usize::MAX,
{
    if !buffer_ok || transferred < 0 {
        usize::MAX
    } else {
        transferred as usize
    }
}

/// A result as the user library reads it from `rax`: a negative signed
/// value means failure.
pub fn user_result(ret: usize) -> (r: Option<usize>)
    ensures
        ret <= isize::MAX ==> r == Some(ret),
        ret > isize::MAX ==> r is None,
{
    if ret > isize::MAX as usize {
        None
    } else {
        Some(ret)
    }
}

} // verus!
