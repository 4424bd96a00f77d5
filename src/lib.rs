//! The core of a small preemptive kernel as verified state machines: the
//! process tables and scheduler, fork/exit/wait, semaphores, file
//! descriptors, user stacks and heaps, the system-call gateway, console
//! input, and the read-only FAT16 layer. Hardware access (page-table
//! writes, port I/O, interrupt instructions) is left to the caller, which
//! carries out what these functions decide.

pub mod context;
pub mod direntry;
pub mod drivers;
pub mod fat16;
pub mod file;
pub mod heap;
pub mod input;
pub mod manager;
pub mod mbr;
pub mod paging;
pub mod proc;
pub mod process;
pub mod resource;
pub mod sem;
pub mod service;
pub mod stack;
pub mod syscall;
pub mod usersync;
