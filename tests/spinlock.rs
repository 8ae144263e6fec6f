use xv6_core::hart::Hart;
use xv6_core::spinlock::{pop_off, push_off, smoke, SpinLock};

#[test]
fn push_pop_restores_enabled_interrupts() {
    let mut h = Hart::new(0, 0);
    h.intr_on();
    for _ in 0..3 {
        push_off(&mut h);
        assert!(!h.intr_get());
    }
    assert_eq!(h.noff, 3);
    for i in 0..3 {
        pop_off(&mut h);
        assert_eq!(h.intr_get(), i == 2);
    }
    assert_eq!(h.noff, 0);
    assert!(h.intr_get());
}

#[test]
fn push_pop_keeps_disabled_interrupts_off() {
    let mut h = Hart::new(1, 0);
    push_off(&mut h);
    push_off(&mut h);
    pop_off(&mut h);
    assert!(!h.intr_get());
    pop_off(&mut h);
    assert!(!h.intr_get());
    assert_eq!(h.noff, 0);
}

#[test]
fn smoke_leaves_hart_as_it_was() {
    let mut h = Hart::new(0, 0);
    h.intr_on();
    smoke(&mut h);
    assert!(h.intr_get());
    assert_eq!(h.noff, 0);
}

#[test]
fn new_lock_is_free() {
    let l = SpinLock::new(5u32, "counter");
    let mut h = Hart::new(2, 0);
    assert_eq!(l.name(), "counter");
    assert!(!l.holding(&mut h));
}

#[test]
fn lock_disables_interrupts_and_unlock_restores() {
    let mut l = SpinLock::new(0u32, "counter");
    let mut h = Hart::new(0, 0);
    h.intr_on();
    let g = l.lock(&mut h);
    assert!(!h.intr_get());
    assert_eq!(h.noff, 1);
    assert!(l.holding(&mut h));
    *l.get_mut(&g) += 7;
    assert_eq!(*l.get(&g), 7);
    l.unlock(g, &mut h);
    assert!(h.intr_get());
    assert_eq!(h.noff, 0);
    assert!(!l.holding(&mut h));
}

#[test]
fn holding_is_false_for_another_hart() {
    let mut l = SpinLock::new((), "x");
    let mut a = Hart::new(0, 0);
    let mut b = Hart::new(1, 0);
    let g = l.lock(&mut a);
    assert_eq!(g.hart(), 0);
    assert!(l.holding(&mut a));
    assert!(!l.holding(&mut b));
    l.unlock(g, &mut a);
}

#[test]
fn compare_and_swap_fails_on_taken_lock() {
    let mut l = SpinLock::new((), "x");
    assert!(l.try_acquire(3));
    assert!(!l.try_acquire(4));
    assert!(l.is_locked());
    let mut h = Hart::new(3, 0);
    h.intr_off();
    assert!(l.holding(&mut h));
    let mut other = Hart::new(4, 0);
    assert!(!l.holding(&mut other));
}

#[test]
fn counter_under_lock_counts_every_increment() {
    let mut l = SpinLock::new(0u64, "counter");
    let mut harts = vec![Hart::new(0, 0), Hart::new(1, 0), Hart::new(2, 0)];
    for round in 0..100 {
        let h = &mut harts[round % 3];
        let g = l.lock(h);
        let v = *l.get(&g);
        *l.get_mut(&g) = v + 1;
        l.unlock(g, h);
    }
    let mut h = Hart::new(0, 0);
    let g = l.lock(&mut h);
    assert_eq!(*l.get(&g), 100);
    l.unlock(g, &mut h);
}

#[test]
fn nested_locks_keep_interrupts_off_until_last_release() {
    let mut a = SpinLock::new(1u8, "a");
    let mut b = SpinLock::new(2u8, "b");
    let mut h = Hart::new(0, 0);
    h.intr_on();
    let ga = a.lock(&mut h);
    let gb = b.lock(&mut h);
    assert_eq!(h.noff, 2);
    a.unlock(ga, &mut h);
    assert!(!h.intr_get());
    b.unlock(gb, &mut h);
    assert!(h.intr_get());
}
