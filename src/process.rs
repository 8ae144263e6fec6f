//! The per-process control block: a lock for its scheduling state, the user
//! address space with its trampoline and trap-frame pages, the trap frame, and
//! the saved kernel context it resumes from.

use vstd::prelude::*;
use crate::hart::Hart;
use crate::layout::{PGSIZE, TRAMPOLINE, TRAPFRAME, page_aligned};
use crate::pagetable::{
    PageTable, PageTableView, Mapping, PTE_R, PTE_W, PTE_X, PTE_U, maps_va, satp_of,
};
use crate::spinlock::SpinLock;

verus! {

/// Scheduling state of a process slot.
#[derive(Clone, Copy, PartialEq, Eq, Structural, Debug)]
pub enum ProcState {
    UNUSED,
    SLEEPING,
    RUNNABLE,
    RUNNING,
    ZOMBIE,
}

/// Registers saved by a kernel context switch.
#[derive(Clone, Copy, PartialEq, Eq, Structural, Debug)]
pub struct Context {
    /// Return address.
    pub ra: u64,
    /// Stack pointer.
    pub sp: u64,
    // Callee-saved registers.
    pub s0: u64,
    pub s1: u64,
    pub s2: u64,
    pub s3: u64,
    pub s4: u64,
    pub s5: u64,
    pub s6: u64,
    pub s7: u64,
    pub s8: u64,
    pub s9: u64,
    pub s10: u64,
    pub s11: u64,
}

/// A context whose registers are all zero.
pub open spec fn zero_context() -> Context {
    Context {
        ra: 0,
        sp: 0,
        s0: 0,
        s1: 0,
        s2: 0,
        s3: 0,
        s4: 0,
        s5: 0,
        s6: 0,
        s7: 0,
        s8: 0,
        s9: 0,
        s10: 0,
        s11: 0,
    }
}

impl Context {
    /// A context whose registers are all zero.
    pub fn new() -> (c: Context)
        ensures
            c == zero_context(),
    {
        Context {
            ra: 0,
            sp: 0,
            s0: 0,
            s1: 0,
            s2: 0,
            s3: 0,
            s4: 0,
            s5: 0,
            s6: 0,
            s7: 0,
            s8: 0,
            s9: 0,
            s10: 0,
            s11: 0,
        }
    }

    /// Zeroes every register.
    pub fn clear(&mut self)
        ensures
            *final(self) == zero_context(),
    {
        *self = Context::new();
    }

    /// Sets the return address.
    pub fn set_ra(&mut self, ra: u64)
        ensures
            *final(self) == (Context { ra, ..*old(self) }),
    {
        self.ra = ra;
    }

    /// Sets the stack pointer.
    pub fn set_sp(&mut self, sp: u64)
        ensures
            *final(self) == (Context { sp, ..*old(self) }),
    {
        self.sp = sp;
    }
}

/// Registers saved across the boundary between user and kernel mode, in the
/// order of the trap-frame page that the trampoline code reads and writes.
#[derive(Clone, Copy, PartialEq, Eq, Structural, Debug)]
pub struct TrapFrame {
    /// Kernel page-table-root register value.
    pub kernel_satp: u64,
    /// Top of the process's kernel stack.
    pub kernel_sp: u64,
    /// Address of the kernel's handler for traps from user mode.
    pub kernel_trap: u64,
    /// Saved user program counter.
    pub epc: u64,
    /// Hart the process last entered user mode on.
    pub kernel_hartid: u64,
    // Saved user registers.
    pub ra: u64,
    /// User stack pointer.
    pub sp: u64,
    pub gp: u64,
    pub tp: u64,
    pub t0: u64,
    pub t1: u64,
    pub t2: u64,
    pub s0: u64,
    pub s1: u64,
    pub a0: u64,
    pub a1: u64,
    pub a2: u64,
    pub a3: u64,
    pub a4: u64,
    pub a5: u64,
    pub a6: u64,
    pub a7: u64,
    pub s2: u64,
    pub s3: u64,
    pub s4: u64,
    pub s5: u64,
    pub s6: u64,
    pub s7: u64,
    pub s8: u64,
    pub s9: u64,
    pub s10: u64,
    pub s11: u64,
    pub t3: u64,
    pub t4: u64,
    pub t5: u64,
    pub t6: u64,
}

/// A trap frame whose registers are all zero.
pub open spec fn zero_trap_frame() -> TrapFrame {
    TrapFrame {
        kernel_satp: 0,
        kernel_sp: 0,
        kernel_trap: 0,
        epc: 0,
        kernel_hartid: 0,
        ra: 0,
        sp: 0,
        gp: 0,
        tp: 0,
        t0: 0,
        t1: 0,
        t2: 0,
        s0: 0,
        s1: 0,
        a0: 0,
        a1: 0,
        a2: 0,
        a3: 0,
        a4: 0,
        a5: 0,
        a6: 0,
        a7: 0,
        s2: 0,
        s3: 0,
        s4: 0,
        s5: 0,
        s6: 0,
        s7: 0,
        s8: 0,
        s9: 0,
        s10: 0,
        s11: 0,
        t3: 0,
        t4: 0,
        t5: 0,
        t6: 0,
    }
}

impl TrapFrame {
    /// A trap frame whose registers are all zero.
    pub fn new() -> (tf: TrapFrame)
        ensures
            tf == zero_trap_frame(),
    {
        TrapFrame {
            kernel_satp: 0,
            kernel_sp: 0,
            kernel_trap: 0,
            epc: 0,
            kernel_hartid: 0,
            ra: 0,
            sp: 0,
            gp: 0,
            tp: 0,
            t0: 0,
            t1: 0,
            t2: 0,
            s0: 0,
            s1: 0,
            a0: 0,
            a1: 0,
            a2: 0,
            a3: 0,
            a4: 0,
            a5: 0,
            a6: 0,
            a7: 0,
            s2: 0,
            s3: 0,
            s4: 0,
            s5: 0,
            s6: 0,
            s7: 0,
            s8: 0,
            s9: 0,
            s10: 0,
            s11: 0,
            t3: 0,
            t4: 0,
            t5: 0,
            t6: 0,
        }
    }

    /// Sets the user stack pointer.
    pub fn set_sp(&mut self, sp: u64)
        ensures
            *final(self) == (TrapFrame { sp, ..*old(self) }),
    {
        self.sp = sp;
    }
}

/// The first user program: it calls exec("/init"). Its bytes are fixed.
pub open spec fn initcode() -> Seq<u8> {
    seq![
        0x17u8, 0x05, 0x00, 0x00, 0x13, 0x05, 0x05, 0x02,
        0x97, 0x05, 0x00, 0x00, 0x93, 0x85, 0x05, 0x02,
        0x9d, 0x48, 0x73, 0x00, 0x00, 0x00, 0x89, 0x48,
        0x73, 0x00, 0x00, 0x00, 0xef, 0xf0, 0xbf, 0xff,
        0x2f, 0x69, 0x6e, 0x69, 0x74, 0x00, 0x00, 0x01,
        0x20, 0x00, 0x00, 0x00, 0x00, 0x00, 0x00, 0x00,
        0x00, 0x00, 0x00,
    ]
}

/// The label of the first process, "initcode" and its terminator, padded with zero bytes
/// to the width of a name.
pub open spec fn init_name() -> Seq<u8> {
    seq![
        0x69u8, 0x6e, 0x69, 0x74, 0x63, 0x6f, 0x64, 0x65,
        0x00, 0x00, 0x00, 0x00, 0x00, 0x00, 0x00, 0x00,
    ]
}

/// Why a process could not exit.
#[derive(Clone, Copy, PartialEq, Eq, Structural, Debug)]
pub enum ExitError {
    /// Exit of a process other than the first is not supported yet.
    Unsupported,
}

/// A process slot as its contents.
pub ghost struct ProcView {
    pub lock: SpinLock<()>,
    pub state: ProcState,
    pub killed: bool,
    pub pid: usize,
    pub kstack: u64,
    pub sz: u64,
    pub pagetable: Option<PageTableView>,
    /// Physical page of the trap frame; zero while none is bound.
    pub tf_pa: u64,
    pub tf: TrapFrame,
    pub context: Context,
    pub name: Seq<u8>,
}

/// A process slot.
pub struct Proc {
    /// Guards `state` and `killed`.
    pub lock: SpinLock<()>,
    pub state: ProcState,
    pub killed: bool,
    pub pid: usize,
    kstack: u64,
    sz: u64,
    pagetable: Option<PageTable>,
    tf_pa: u64,
    tf: TrapFrame,
    context: Context,
    name: [u8; 16],
}

impl View for Proc {
    type V = ProcView;

    closed spec fn view(&self) -> ProcView {
        ProcView {
            lock: self.lock,
            state: self.state,
            killed: self.killed,
            pid: self.pid,
            kstack: self.kstack,
            sz: self.sz,
            pagetable: match self.pagetable {
                Some(pt) => Some(pt@),
                None => None,
            },
            tf_pa: self.tf_pa,
            tf: self.tf,
            context: self.context,
            name: self.name@,
        }
    }
}

/// The code page and the trap-frame page as every process maps them: the
/// trampoline readable and executable, the trap frame readable and writable.
pub open spec fn proc_mappings(trampoline: u64, tf_pa: u64) -> Seq<Mapping> {
    seq![
        Mapping { va: TRAMPOLINE, pa: trampoline, perm: PTE_R | PTE_X },
        Mapping { va: TRAPFRAME, pa: tf_pa, perm: PTE_R | PTE_W },
    ]
}

impl Proc {
    /// An unused slot with every field zero.
    pub fn new() -> (p: Proc)
        ensures
            p@.lock.wf(),
            !p@.lock.locked(),
            p@.lock.label() == "proc"@,
            p@ == (ProcView {
                lock: p@.lock,
                state: ProcState::UNUSED,
                killed: false,
                pid: 0,
                kstack: 0,
                sz: 0,
                pagetable: None,
                tf_pa: 0,
                tf: zero_trap_frame(),
                context: zero_context(),
                name: Seq::new(16, |i: int| 0u8),
            }),
    {
        let p = Proc {
            lock: SpinLock::new((), "proc"),
            state: ProcState::UNUSED,
            killed: false,
            pid: 0,
            kstack: 0,
            sz: 0,
            pagetable: None,
            tf_pa: 0,
            tf: TrapFrame::new(),
            context: Context::new(),
            name: [0u8; 16],
        };
        assert(p.name@ =~= Seq::new(16, |i: int| 0u8));
        p
    }

    /// Records the base of this process's kernel stack.
    pub fn set_kstack(&mut self, kstack: u64)
        ensures
            final(self)@ == (ProcView { kstack, ..old(self)@ }),
    {
        self.kstack = kstack;
    }

    /// Binds the trap-frame page at physical address `tf_pa`. The address
    /// space maps that page, so it is bound before the address space is built.
    pub fn set_tf(&mut self, tf_pa: u64)
        requires
            old(self)@.pagetable is None,
        ensures
            final(self)@ == (ProcView { tf_pa, ..old(self)@ }),
    {
        self.tf_pa = tf_pa;
    }

    /// Gives the process a fresh address space whose root table is the page at
    /// `root`, holding the kernel's trampoline code page at `trampoline` and
    /// the process's own trap-frame page, and nothing else. A process cannot
    /// run without both pages, so both addresses must start a page and a trap
    /// frame must be bound first.
    pub fn proc_pagetable(&mut self, root: u64, trampoline: u64)
        requires
            page_aligned(trampoline),
            page_aligned(old(self)@.tf_pa),
            old(self)@.tf_pa != 0,
        ensures
            final(self)@ == (ProcView {
                pagetable: Some(PageTableView {
                    root,
                    maps: proc_mappings(trampoline, old(self)@.tf_pa),
                    image: Seq::empty(),
                }),
                ..old(self)@
            }),
    {
        let mut pagetable = PageTable::uvm_create(root);
        let r = pagetable.map_pages(TRAMPOLINE, trampoline, PTE_R | PTE_X);
        assert(!maps_va(Seq::<Mapping>::empty(), TRAMPOLINE));
        r.unwrap();
        assert(pagetable@.maps.len() == 1);
        assert(pagetable@.maps[0] == Mapping { va: TRAMPOLINE, pa: trampoline, perm: PTE_R | PTE_X });
        assert(!maps_va(pagetable@.maps, TRAPFRAME)) by {
            assert forall|i: int| 0 <= i < pagetable@.maps.len() implies
                (#[trigger] pagetable@.maps[i]).va != TRAPFRAME by {
                assert(i == 0);
            }
        }
        let r = pagetable.map_pages(TRAPFRAME, self.tf_pa, PTE_R | PTE_W);
        r.unwrap();
        assert(pagetable@.maps =~= proc_mappings(trampoline, self.tf_pa));
        self.pagetable = Some(pagetable);
    }

    /// Makes the process start in the kernel at `fork_ret` on the top of its
    /// kernel stack the first time it is switched to, every other saved
    /// register zero.
    pub fn init_context(&mut self, fork_ret: u64)
        requires
            old(self)@.kstack + PGSIZE <= u64::MAX,
        ensures
            final(self)@ == (ProcView {
                context: Context {
                    ra: fork_ret,
                    sp: (old(self)@.kstack + PGSIZE) as u64,
                    ..zero_context()
                },
                ..old(self)@
            }),
    {
        self.context.clear();
        self.context.set_ra(fork_ret);
        self.context.set_sp(self.kstack + PGSIZE);
    }

    /// The saved kernel context, for the context switch to fill or load.
    pub fn get_context_mut(&mut self) -> (c: &mut Context)
        ensures
            *c == old(self)@.context,
            final(self)@ == (ProcView { context: *final(c), ..old(self)@ }),
    {
        &mut self.context
    }

    /// Sets up the first process of the system: loads the fixed first user
    /// program into the page at `code_pa` and maps it at virtual address 0,
    /// makes the user address space one page, enters user mode at pc 0 with the
    /// stack at the top of that page, names the process and makes it runnable.
    pub fn user_init(&mut self, code_pa: u64)
        requires
            old(self)@.pagetable is Some,
            !maps_va(old(self)@.pagetable->Some_0.maps, 0),
            page_aligned(code_pa),
        ensures
            final(self)@ == (ProcView {
                state: ProcState::RUNNABLE,
                sz: PGSIZE,
                pagetable: Some(PageTableView {
                    maps: old(self)@.pagetable->Some_0.maps.push(
                        Mapping { va: 0, pa: code_pa, perm: PTE_W | PTE_R | PTE_X | PTE_U },
                    ),
                    image: initcode(),
                    ..old(self)@.pagetable->Some_0
                }),
                tf: TrapFrame { epc: 0, sp: PGSIZE, ..old(self)@.tf },
                name: init_name(),
                ..old(self)@
            }),
    {
        let code = initcode_image();
        match &mut self.pagetable {
            Some(pt) => pt.uvm_init(code.as_slice(), code_pa),
            None => {},
        }
        self.sz = PGSIZE;
        self.tf.epc = 0;
        self.tf.set_sp(PGSIZE);
        self.name = [0x69u8, 0x6e, 0x69, 0x74, 0x63, 0x6f, 0x64, 0x65, 0, 0, 0, 0, 0, 0, 0, 0];
        assert(self.name@ =~= init_name());
        self.state = ProcState::RUNNABLE;
    }

    /// Prepares the trap frame on `hart` right before the return to user mode:
    /// the kernel's page-table root, the top of the kernel stack, the address
    /// `user_trap` of the kernel's handler for traps from user mode and the hart
    /// id are saved for the next trap, and the exception-return pc is set to
    /// the saved user pc. Returns the page-table-root value of the process's
    /// own address space, for the caller to install.
    pub fn user_ret_prepare(&mut self, hart: &mut Hart, user_trap: u64) -> (r: u64)
        requires
            old(self)@.pagetable is Some,
            old(self)@.kstack + PGSIZE <= u64::MAX,
        ensures
            r == satp_of(old(self)@.pagetable->Some_0.root),
            final(self)@ == (ProcView {
                tf: TrapFrame {
                    kernel_satp: old(hart).satp,
                    kernel_sp: (old(self)@.kstack + PGSIZE) as u64,
                    kernel_trap: user_trap,
                    kernel_hartid: old(hart).id as u64,
                    ..old(self)@.tf
                },
                ..old(self)@
            }),
            *final(hart) == (Hart { sepc: old(self)@.tf.epc, ..*old(hart) }),
    {
        self.tf.kernel_satp = hart.read_satp();
        self.tf.kernel_sp = self.kstack + PGSIZE;
        self.tf.kernel_trap = user_trap;
        self.tf.kernel_hartid = hart.id as u64;
        hart.write_sepc(self.tf.epc);
        match &self.pagetable {
            Some(pt) => pt.as_satp(),
            None => 0,
        }
    }

    /// Whether this is the first process, whose id is `init_pid`.
    pub fn is_init_proc(&self, init_pid: usize) -> (r: bool)
        ensures
            r == (self@.pid == init_pid),
    {
        self.pid == init_pid
    }

    /// Asks to end the process with status `_status`. The first process, whose id is
    /// `init_pid`, has no parent to report to: asking it to exit is a kernel
    /// bug whatever the status, and is not allowed. Ending any other process
    /// is not supported yet.
    pub fn exit(&self, _status: isize, init_pid: usize) -> (r: ExitError)
        requires
            self@.pid != init_pid,
        ensures
            r == ExitError::Unsupported,
    {
        ExitError::Unsupported
    }

    /// Base of the kernel stack.
    pub fn kstack(&self) -> (r: u64)
        ensures
            r == self@.kstack,
    {
        self.kstack
    }

    /// Size in bytes of the user address space.
    pub fn sz(&self) -> (r: u64)
        ensures
            r == self@.sz,
    {
        self.sz
    }

    /// The user address space, once built.
    pub fn pagetable(&self) -> (r: Option<&PageTable>)
        ensures
            match r {
                Some(pt) => self@.pagetable == Some(pt@),
                None => self@.pagetable is None,
            },
    {
        match &self.pagetable {
            Some(pt) => Some(pt),
            None => None,
        }
    }

    /// Physical page of the trap frame; zero while none is bound.
    pub fn tf_pa(&self) -> (r: u64)
        ensures
            r == self@.tf_pa,
    {
        self.tf_pa
    }

    /// The trap frame.
    pub fn tf(&self) -> (r: TrapFrame)
        ensures
            r == self@.tf,
    {
        self.tf
    }

    /// The saved kernel context.
    pub fn context(&self) -> (r: Context)
        ensures
            r == self@.context,
    {
        self.context
    }

    /// The name, zero-padded.
    pub fn name(&self) -> (r: [u8; 16])
        ensures
            r@ == self@.name,
    {
        self.name
    }
}

/// The bytes of the first user program.
pub fn initcode_image() -> (r: Vec<u8>)
    ensures
        r@ == initcode(),
{
    let r = vec![
        0x17u8, 0x05, 0x00, 0x00, 0x13, 0x05, 0x05, 0x02,
        0x97, 0x05, 0x00, 0x00, 0x93, 0x85, 0x05, 0x02,
        0x9d, 0x48, 0x73, 0x00, 0x00, 0x00, 0x89, 0x48,
        0x73, 0x00, 0x00, 0x00, 0xef, 0xf0, 0xbf, 0xff,
        0x2f, 0x69, 0x6e, 0x69, 0x74, 0x00, 0x00, 0x01,
        0x20, 0x00, 0x00, 0x00, 0x00, 0x00, 0x00, 0x00,
        0x00, 0x00, 0x00,
    ];
    assert(r@ =~= initcode());
    r
}

} // verus!
