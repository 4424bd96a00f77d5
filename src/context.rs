use vstd::prelude::*;

verus! {

/// The interrupt flag of RFLAGS.
pub const RFLAGS_IF: u64 = 0x200;

/// The registers of a process that the kernel saves on entry and restores
/// on return to it.
#[derive(Clone, Copy, Debug, PartialEq, Eq, Structural)]
pub struct ProcessContext {
    pub rax: u64,
    pub rbx: u64,
    pub rcx: u64,
    pub rdx: u64,
    pub rsi: u64,
    pub rdi: u64,
    pub rbp: u64,
    pub r8: u64,
    pub r9: u64,
    pub r10: u64,
    pub r11: u64,
    pub r12: u64,
    pub r13: u64,
    pub r14: u64,
    pub r15: u64,
    pub rip: u64,
    pub rsp: u64,
    pub rflags: u64,
}

/// Adds in the 64-bit ring, as the stack-pointer adjustment does.
pub open spec fn wrap_add(a: u64, b: u64) -> u64 {
    ((a as int + b as int) % 0x1_0000_0000_0000_0000) as u64
}

/// The register value of a signed return value (two's complement).
pub open spec fn reg_of(v: isize) -> u64 {
    #[verifier::truncate]
    (v as u64)
}

impl ProcessContext {
    /// All registers zero.
    pub fn new() -> (r: ProcessContext)
        ensures
            r == ProcessContext::zeroed(),
    {
        ProcessContext {
            rax: 0,
            rbx: 0,
            rcx: 0,
            rdx: 0,
            rsi: 0,
            rdi: 0,
            rbp: 0,
            r8: 0,
            r9: 0,
            r10: 0,
            r11: 0,
            r12: 0,
            r13: 0,
            r14: 0,
            r15: 0,
            rip: 0,
            rsp: 0,
            rflags: 0,
        }
    }

    pub open spec fn zeroed() -> ProcessContext {
        ProcessContext {
            rax: 0,
            rbx: 0,
            rcx: 0,
            rdx: 0,
            rsi: 0,
            rdi: 0,
            rbp: 0,
            r8: 0,
            r9: 0,
            r10: 0,
            r11: 0,
            r12: 0,
            r13: 0,
            r14: 0,
            r15: 0,
            rip: 0,
            rsp: 0,
            rflags: 0,
        }
    }

    /// Sets the value the process sees returned in `rax`.
    pub fn set_rax(&mut self, value: u64)
        ensures
            *final(self) == (ProcessContext { rax: value, ..*old(self) }),
    {
        self.rax = value;
    }

    /// Moves the stack pointer by `offset` (in the 64-bit ring), for a
    /// stack that was copied to another place.
    pub fn set_stack_offset(&mut self, offset: u64)
        ensures
            *final(self) == (ProcessContext { rsp: wrap_add(old(self).rsp, offset), ..*old(self) }),
    {
        self.rsp = self.rsp.wrapping_add(offset);
    }

    /// Prepares a fresh context that starts at `entry` on the stack
    /// `stack_top`, with interrupts enabled.
    pub fn init_stack_frame(&mut self, entry: u64, stack_top: u64)
        ensures
            *final(self) == (ProcessContext {
                rip: entry,
                rsp: stack_top,
                rflags: RFLAGS_IF,
                ..*old(self)
            }),
    {
        self.rip = entry;
        self.rsp = stack_top;
        self.rflags = RFLAGS_IF;
    }
}

} // verus!
