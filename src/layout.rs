//! Fixed memory layout shared by every address space. Addresses and register
//! values are 64-bit, as on RV64.

use vstd::prelude::*;

verus! {

/// Bytes in one page.
pub const PGSIZE: u64 = 4096;

/// One past the highest virtual address of the Sv39 scheme.
pub const MAXVA: u64 = 0x40_0000_0000;

/// Virtual page of the trampoline code, the same in every address space.
pub const TRAMPOLINE: u64 = MAXVA - PGSIZE;

/// Virtual page of a process's trap frame, just below the trampoline.
pub const TRAPFRAME: u64 = TRAMPOLINE - PGSIZE;

/// Mode field of the page-table-root register selecting Sv39 translation.
pub const SATP_SV39: u64 = 0x8000_0000_0000_0000;

/// A value that starts a page.
pub open spec fn page_aligned(a: u64) -> bool {
    a % PGSIZE == 0
}

} // verus!
