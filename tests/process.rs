use xv6_core::hart::Hart;
use xv6_core::layout::{PGSIZE, SATP_SV39, TRAMPOLINE, TRAPFRAME};
use xv6_core::pagetable::{MapError, Mapping, PageTable, PTE_R, PTE_U, PTE_W, PTE_X};
use xv6_core::process::{initcode_image, Context, ExitError, Proc, ProcState, TrapFrame};

fn built_proc() -> Proc {
    let mut p = Proc::new();
    p.set_kstack(0x8000_4000);
    p.set_tf(0x8770_0000);
    p.proc_pagetable(0x8760_0000, 0x8000_7000);
    p
}

#[test]
fn new_proc_is_unused_and_zero() {
    let p = Proc::new();
    assert_eq!(p.state, ProcState::UNUSED);
    assert!(!p.killed);
    assert_eq!(p.pid, 0);
    assert_eq!(p.kstack(), 0);
    assert_eq!(p.sz(), 0);
    assert!(p.pagetable().is_none());
    assert_eq!(p.tf_pa(), 0);
    assert_eq!(p.tf(), TrapFrame::new());
    assert_eq!(p.tf().a0, 0);
    assert_eq!(p.tf().t6, 0);
    assert_eq!(p.context(), Context::new());
    assert_eq!(p.name(), [0u8; 16]);
    assert_eq!(p.lock.name(), "proc");
}

#[test]
fn page_table_holds_exactly_trampoline_and_trap_frame() {
    let p = built_proc();
    let pt = p.pagetable().unwrap();
    assert_eq!(pt.root(), 0x8760_0000);
    let maps = pt.mappings();
    assert_eq!(maps.len(), 2);
    assert_eq!(maps[0], Mapping { va: TRAMPOLINE, pa: 0x8000_7000, perm: PTE_R | PTE_X });
    assert_eq!(maps[1], Mapping { va: TRAPFRAME, pa: 0x8770_0000, perm: PTE_R | PTE_W });
    assert!(pt.image().is_empty());
}

#[test]
fn trampoline_is_shared_trap_frame_is_private() {
    let mut q = Proc::new();
    q.set_tf(0x8771_0000);
    q.proc_pagetable(0x8761_0000, 0x8000_7000);
    let p = built_proc();
    let a = p.pagetable().unwrap().mappings();
    let b = q.pagetable().unwrap().mappings();
    assert_eq!(a[0], b[0]);
    assert_ne!(a[1].pa, b[1].pa);
}

#[test]
fn map_pages_errors() {
    let mut pt = PageTable::uvm_create(0x8760_0000);
    assert_eq!(pt.map_pages(0x1001, 0x8000_0000, PTE_R), Err(MapError::Misaligned));
    assert_eq!(pt.map_pages(0x1000, 0x8000_0010, PTE_R), Err(MapError::Misaligned));
    assert_eq!(pt.map_pages(0x40_0000_0000, 0x8000_0000, PTE_R), Err(MapError::OutOfRange));
    assert_eq!(pt.map_pages(0x1000, 0x8000_0000, PTE_R), Ok(()));
    assert_eq!(pt.map_pages(0x1000, 0x8000_1000, PTE_W), Err(MapError::Remap));
    assert_eq!(pt.mappings().len(), 1);
    assert!(pt.is_mapped(0x1000));
    assert!(!pt.is_mapped(0x2000));
}

#[test]
fn as_satp_encodes_root() {
    let pt = PageTable::uvm_create(0x8760_0000);
    assert_eq!(pt.as_satp(), SATP_SV39 | 0x87600);
    assert_eq!(pt.as_satp(), 0x8000_0000_0008_7600);
}

#[test]
fn init_context_points_at_entry_and_stack_top() {
    let mut p = built_proc();
    p.get_context_mut().s3 = 9;
    p.init_context(0x8000_1234);
    let c = p.context();
    assert_eq!(c.ra, 0x8000_1234);
    assert_eq!(c.sp, 0x8000_4000 + PGSIZE);
    assert_eq!(Context { ra: 0, sp: 0, ..c }, Context::new());
}

#[test]
fn get_context_mut_writes_through() {
    let mut p = Proc::new();
    {
        let c = p.get_context_mut();
        c.set_ra(11);
        c.set_sp(22);
    }
    assert_eq!(p.context().ra, 11);
    assert_eq!(p.context().sp, 22);
}

#[test]
fn user_init_sets_up_first_process() {
    let mut p = built_proc();
    p.user_init(0x8780_0000);
    assert_eq!(p.state, ProcState::RUNNABLE);
    assert_eq!(p.sz(), PGSIZE);
    assert_eq!(p.tf().epc, 0);
    assert_eq!(p.tf().sp, PGSIZE);
    assert_eq!(&p.name(), b"initcode\0\0\0\0\0\0\0\0");
    let pt = p.pagetable().unwrap();
    assert_eq!(pt.mappings().len(), 3);
    assert_eq!(
        pt.mappings()[2],
        Mapping { va: 0, pa: 0x8780_0000, perm: PTE_W | PTE_R | PTE_X | PTE_U }
    );
    assert_eq!(pt.image(), &initcode_image());
}

#[test]
fn initcode_is_the_exec_init_program() {
    let code = initcode_image();
    assert_eq!(code.len(), 51);
    assert_eq!(&code[..4], &[0x17, 0x05, 0x00, 0x00]);
    assert_eq!(&code[32..38], b"/init\0");
    assert_eq!(code[50], 0);
}

#[test]
fn user_ret_prepare_saves_kernel_state() {
    let mut p = built_proc();
    p.user_init(0x8780_0000);
    let mut h = Hart::new(2, 0x8000_0000_0008_0001);
    let token = p.user_ret_prepare(&mut h, 0x8000_2000);
    assert_eq!(token, SATP_SV39 | (0x8760_0000 >> 12));
    let tf = p.tf();
    assert_eq!(tf.kernel_satp, 0x8000_0000_0008_0001);
    assert_eq!(tf.kernel_sp, 0x8000_4000 + PGSIZE);
    assert_eq!(tf.kernel_trap, 0x8000_2000);
    assert_eq!(tf.kernel_hartid, 2);
    assert_eq!(h.sepc, 0);
    assert_eq!(tf.ra, 0);
    assert_eq!(tf.a7, 0);
}

#[test]
fn user_ret_prepare_restores_saved_pc() {
    let mut p = built_proc();
    let mut h = Hart::new(1, 7);
    p.user_ret_prepare(&mut h, 5);
    assert_eq!(h.sepc, p.tf().epc);
    assert_eq!(p.tf().kernel_hartid, 1);
    assert_eq!(p.tf().kernel_satp, 7);
}

#[test]
fn first_process_is_recognised() {
    let mut p = Proc::new();
    p.pid = 1;
    assert!(p.is_init_proc(1));
    assert!(!p.is_init_proc(2));
}

#[test]
fn other_exit_is_unsupported() {
    let mut p = Proc::new();
    p.pid = 4;
    assert_eq!(p.exit(0, 1), ExitError::Unsupported);
    assert_eq!(p.exit(-3, 1), ExitError::Unsupported);
}
