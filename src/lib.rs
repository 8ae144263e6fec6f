//! Process and synchronization core of a small multi-hart RISC-V kernel:
//! a spinlock that keeps the local hart's interrupts off while it is held,
//! and the per-process control block that wires a user address space,
//! a trap frame and a saved kernel context together.

pub mod layout;
pub mod hart;
pub mod spinlock;
pub mod pagetable;
pub mod process;
