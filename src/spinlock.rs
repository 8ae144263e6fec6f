//! A non-reentrant spinlock that owns the value it protects. A hart keeps its
//! interrupts off for as long as it holds at least one lock, through the
//! nesting counter of [`Hart`].

use vstd::prelude::*;
use crate::hart::{Hart, pushed, popped};

verus! {

/// Turns interrupts off and opens one nesting level; it takes as many
/// `pop_off`s as `push_off`s to undo them, and interrupts that were off before
/// the first one stay off after the last.
pub fn push_off(hart: &mut Hart)
    requires
        old(hart).noff < usize::MAX,
    ensures
        final(hart).intr() == pushed(old(hart).intr()),
        final(hart).id == old(hart).id,
        final(hart).satp == old(hart).satp,
        final(hart).sepc == old(hart).sepc,
{
    let was_enabled = hart.intr_get();
    hart.intr_off();
    hart.push_intr(was_enabled);
}

/// Closes one nesting level opened by [`push_off`]. Called with interrupts on,
/// or with no level open, it would be a kernel bug, so neither is allowed.
pub fn pop_off(hart: &mut Hart)
    requires
        !old(hart).intr_enabled,
        old(hart).noff > 0,
    ensures
        final(hart).intr() == popped(old(hart).intr()),
        final(hart).id == old(hart).id,
        final(hart).satp == old(hart).satp,
        final(hart).sepc == old(hart).sepc,
{
    hart.pop_intr();
}

/// The owner after one compare-and-swap attempt by `hart`: it takes a free
/// lock and leaves a taken one as it was.
pub open spec fn cas_owner(owner: Option<usize>, hart: usize) -> Option<usize> {
    match owner {
        None => Some(hart),
        Some(o) => Some(o),
    }
}

/// One atomic step of some hart in a run of harts that each take the lock,
/// read a shared counter, write it back one higher, and release the lock.
pub enum LockStep {
    /// One compare-and-swap attempt; a failed one is a turn of the spin.
    Acquire(usize),
    /// Reads the counter, while holding the lock.
    Read(usize),
    /// Writes back what was read plus one, while holding the lock.
    Write(usize),
    /// Releases the lock after writing.
    Release(usize),
}

/// The shared state of such a run.
pub ghost struct LockRun {
    /// Hart holding the lock.
    pub owner: Option<usize>,
    /// The shared counter.
    pub counter: nat,
    /// What the holder read and has not written back yet.
    pub pending: Option<nat>,
    /// How many increments have been completed.
    pub done: nat,
}

/// A run before any step: lock free, counter zero.
pub open spec fn run_start() -> LockRun {
    LockRun { owner: None, counter: 0, pending: None, done: 0 }
}

/// The state after `step`. A step that its hart may not take in this state
/// (reading without the lock, say) changes nothing.
pub open spec fn run_step(s: LockRun, step: LockStep) -> LockRun {
    match step {
        LockStep::Acquire(h) => LockRun { owner: cas_owner(s.owner, h), ..s },
        LockStep::Read(h) => if s.owner == Some(h) && s.pending is None {
            LockRun { pending: Some(s.counter), ..s }
        } else {
            s
        },
        LockStep::Write(h) => if s.owner == Some(h) && s.pending is Some {
            LockRun { counter: s.pending->Some_0 + 1, pending: None, done: s.done + 1, ..s }
        } else {
            s
        },
        LockStep::Release(h) => if s.owner == Some(h) && s.pending is None {
            LockRun { owner: None, ..s }
        } else {
            s
        },
    }
}

/// The state after all of `steps`, in order.
pub open spec fn run_steps(steps: Seq<LockStep>) -> LockRun
    decreases steps.len(),
{
    if steps.len() == 0 {
        run_start()
    } else {
        run_step(run_steps(steps.drop_last()), steps.last())
    }
}

/// Whether `hart` is inside its critical section.
pub open spec fn in_critical(s: LockRun, hart: usize) -> bool {
    s.owner == Some(hart)
}

/// Mutual exclusion: however the steps of any number of harts interleave, at
/// most one hart is inside its critical section at any time, and no increment
/// made under the lock is lost: the counter equals the number of completed
/// increments.
pub proof fn lemma_mutual_exclusion(steps: Seq<LockStep>, h1: usize, h2: usize)
    ensures
        in_critical(run_steps(steps), h1) && in_critical(run_steps(steps), h2) ==> h1 == h2,
        run_steps(steps).counter == run_steps(steps).done,
{
    lemma_run_inv(steps);
}

proof fn lemma_run_inv(steps: Seq<LockStep>)
    ensures
        run_steps(steps).counter == run_steps(steps).done,
        run_steps(steps).pending is Some ==> run_steps(steps).pending->Some_0
            == run_steps(steps).counter,
        run_steps(steps).pending is Some ==> run_steps(steps).owner is Some,
    decreases steps.len(),
{
    if steps.len() > 0 {
        lemma_run_inv(steps.drop_last());
    }
}

/// A value guarded by a busy-wait lock.
pub struct SpinLock<T> {
    /// The hart that holds the lock; `None` while the lock is free.
    cpu_id: Option<usize>,
    name: &'static str,
    lock: bool,
    data: T,
}

/// Proof, handed out by [`SpinLock::lock`], that a hart holds a lock; giving
/// it back to [`SpinLock::unlock`] releases the lock.
pub struct SpinLockGuard {
    hart: usize,
}

impl SpinLockGuard {
    /// The hart that holds the lock.
    pub closed spec fn holder(&self) -> usize {
        self.hart
    }

    /// The hart that holds the lock.
    pub fn hart(&self) -> (r: usize)
        ensures
            r == self.holder(),
    {
        self.hart
    }
}

impl<T> SpinLock<T> {
    /// The owner is recorded exactly while the lock is taken.
    pub closed spec fn wf(&self) -> bool {
        self.lock <==> self.cpu_id.is_some()
    }

    /// The hart holding the lock, if any.
    pub closed spec fn owner(&self) -> Option<usize> {
        self.cpu_id
    }

    /// Whether the lock is taken.
    pub open spec fn locked(&self) -> bool {
        self.owner().is_some()
    }

    /// Whether `hart` holds the lock.
    pub open spec fn held_by(&self, hart: usize) -> bool {
        self.owner() == Some(hart)
    }

    /// Whether `hart` may take the lock: taking a lock that the same hart
    /// already holds would deadlock it, and a lock held by another hart cannot
    /// be borrowed mutably, so the lock is free.
    pub open spec fn may_acquire(&self, hart: usize) -> bool {
        !self.held_by(hart) && !self.locked()
    }

    /// The protected value.
    pub closed spec fn value(&self) -> T {
        self.data
    }

    /// The diagnostic label.
    pub closed spec fn label(&self) -> Seq<char> {
        self.name@
    }

    /// A free lock around `user_data`.
    pub fn new(user_data: T, name: &'static str) -> (l: SpinLock<T>)
        ensures
            l.wf(),
            l.owner() == None::<usize>,
            l.value() == user_data,
            l.label() == name@,
    {
        SpinLock { cpu_id: None, name, lock: false, data: user_data }
    }

    /// The diagnostic label.
    pub fn name(&self) -> (r: &'static str)
        ensures
            r@ == self.label(),
    {
        self.name
    }

    /// Whether any hart holds the lock.
    pub fn is_locked(&self) -> (r: bool)
        requires
            self.wf(),
        ensures
            r == self.locked(),
    {
        self.lock
    }

    /// Whether the calling hart holds the lock. Asked with interrupts on, the
    /// answer could be stale by the time it is read, so interrupts must be off.
    pub fn holding(&self, hart: &mut Hart) -> (r: bool)
        requires
            self.wf(),
            !old(hart).intr_enabled,
            old(hart).noff < usize::MAX,
        ensures
            r == self.held_by(old(hart).id),
            final(hart).agrees_with(*old(hart)),
    {
        push_off(hart);
        let r = self.lock && match self.cpu_id {
            Some(c) => c == hart.id,
            None => false,
        };
        pop_off(hart);
        r
    }

    /// One atomic compare-and-swap of the locked flag from free to taken,
    /// recording `hart` as owner when it succeeds.
    pub fn try_acquire(&mut self, hart: usize) -> (r: bool)
        requires
            old(self).wf(),
        ensures
            final(self).wf(),
            r == !old(self).locked(),
            final(self).owner() == cas_owner(old(self).owner(), hart),
            final(self).value() == old(self).value(),
            final(self).label() == old(self).label(),
    {
        if self.lock {
            false
        } else {
            self.lock = true;
            self.cpu_id = Some(hart);
            true
        }
    }

    /// Takes the lock for `hart`, interrupts off.
    pub fn acquire_lock(&mut self, hart: &mut Hart)
        requires
            old(self).wf(),
            old(self).may_acquire(old(hart).id),
            old(hart).noff < usize::MAX,
        ensures
            final(self).wf(),
            final(self).owner() == Some(old(hart).id),
            final(self).value() == old(self).value(),
            final(self).label() == old(self).label(),
            final(hart).intr() == pushed(old(hart).intr()),
            final(hart).id == old(hart).id,
            final(hart).satp == old(hart).satp,
            final(hart).sepc == old(hart).sepc,
    {
        push_off(hart);
        let taken = self.try_acquire(hart.id);
        assert(taken);
    }

    /// Takes the lock and hands out the guard that releases it.
    pub fn lock(&mut self, hart: &mut Hart) -> (g: SpinLockGuard)
        requires
            old(self).wf(),
            old(self).may_acquire(old(hart).id),
            old(hart).noff < usize::MAX,
        ensures
            g.holder() == old(hart).id,
            final(self).wf(),
            final(self).owner() == Some(old(hart).id),
            final(self).value() == old(self).value(),
            final(self).label() == old(self).label(),
            final(hart).intr() == pushed(old(hart).intr()),
            final(hart).id == old(hart).id,
            final(hart).satp == old(hart).satp,
            final(hart).sepc == old(hart).sepc,
    {
        self.acquire_lock(hart);
        SpinLockGuard { hart: hart.id }
    }

    /// Read access to the value, for the holder.
    pub fn get(&self, guard: &SpinLockGuard) -> (r: &T)
        requires
            self.held_by(guard.holder()),
        ensures
            *r == self.value(),
    {
        &self.data
    }

    /// Write access to the value, for the holder.
    pub fn get_mut(&mut self, guard: &SpinLockGuard) -> (r: &mut T)
        requires
            old(self).held_by(guard.holder()),
        ensures
            *r == old(self).value(),
            final(self).value() == *final(r),
            final(self).owner() == old(self).owner(),
            final(self).label() == old(self).label(),
            final(self).wf() == old(self).wf(),
    {
        &mut self.data
    }

    /// Releases the lock held by `hart` and closes its nesting level. Release
    /// by a hart that does not hold the lock is a kernel bug.
    pub fn release_lock(&mut self, hart: &mut Hart)
        requires
            old(self).wf(),
            old(self).held_by(old(hart).id),
            old(hart).wf(),
            0 < old(hart).noff < usize::MAX,
        ensures
            final(self).wf(),
            final(self).owner() == None::<usize>,
            final(self).value() == old(self).value(),
            final(self).label() == old(self).label(),
            final(hart).intr() == popped(old(hart).intr()),
            final(hart).id == old(hart).id,
            final(hart).satp == old(hart).satp,
            final(hart).sepc == old(hart).sepc,
    {
        let h = self.holding(hart);
        assert(h);
        self.cpu_id = None;
        self.lock = false;
        pop_off(hart);
    }

    /// Releases the lock that `guard` stands for.
    pub fn unlock(&mut self, guard: SpinLockGuard, hart: &mut Hart)
        requires
            old(self).wf(),
            guard.holder() == old(hart).id,
            old(self).held_by(old(hart).id),
            old(hart).wf(),
            0 < old(hart).noff < usize::MAX,
        ensures
            final(self).wf(),
            final(self).owner() == None::<usize>,
            final(self).value() == old(self).value(),
            final(self).label() == old(self).label(),
            final(hart).intr() == popped(old(hart).intr()),
            final(hart).id == old(hart).id,
            final(hart).satp == old(hart).satp,
            final(hart).sepc == old(hart).sepc,
    {
        self.release_lock(hart);
    }
}

/// The lock does not nest: a hart that holds a lock may not take it again,
/// so no verified caller can deadlock itself on it.
pub proof fn lemma_no_reentry<T>(l: SpinLock<T>, hart: usize)
    requires
        l.held_by(hart),
    ensures
        !l.may_acquire(hart),
{
}

/// While a hart holds a lock, no other hart holds it or may take it.
pub proof fn lemma_held_excludes<T>(l: SpinLock<T>, holder: usize, other: usize)
    requires
        l.held_by(holder),
        holder != other,
    ensures
        !l.held_by(other),
        !l.may_acquire(other),
{
}

/// Takes and releases one lock twice in a row on `hart`; the hart ends as it
/// started.
pub fn smoke(hart: &mut Hart)
    requires
        old(hart).wf(),
        old(hart).noff < usize::MAX - 1,
    ensures
        final(hart).agrees_with(*old(hart)),
{
    let mut m = SpinLock::new((), "smoke");
    let g = m.lock(hart);
    m.unlock(g, hart);
    let g = m.lock(hart);
    m.unlock(g, hart);
}

} // verus!
