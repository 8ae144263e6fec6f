//! State of one hart as the lock and process code see it: its identifier,
//! the local interrupt-enable bit, the interrupt-nesting counter, and the two
//! control registers the process code reads and writes.

use vstd::prelude::*;

verus! {

/// One hardware thread.
pub struct Hart {
    /// Identifier of this hart.
    pub id: usize,
    /// The interrupt-enable bit of `sstatus`.
    pub intr_enabled: bool,
    /// How many pushes are outstanding.
    pub noff: usize,
    /// Whether interrupts were enabled before the outermost push.
    pub intena: bool,
    /// The page-table-root register `satp`.
    pub satp: u64,
    /// The exception-return program counter `sepc`.
    pub sepc: u64,
}

impl Hart {
    /// The interrupt state of this hart.
    pub open spec fn intr(&self) -> IntrState {
        IntrState { enabled: self.intr_enabled, noff: self.noff as nat, intena: self.intena }
    }

    /// While any push is outstanding, interrupts are off.
    pub open spec fn wf(&self) -> bool {
        self.intr().wf()
    }

    /// The same hart in the same observable state: the saved enable bit only
    /// matters while a nesting level is open.
    pub open spec fn agrees_with(&self, other: Hart) -> bool {
        &&& self.id == other.id
        &&& self.satp == other.satp
        &&& self.sepc == other.sepc
        &&& self.intr_enabled == other.intr_enabled
        &&& self.noff == other.noff
        &&& self.noff > 0 ==> self.intena == other.intena
    }

    /// A hart with interrupts off and no push outstanding.
    pub fn new(id: usize, satp: u64) -> (h: Hart)
        ensures
            h.id == id,
            h.satp == satp,
            h.sepc == 0,
            !h.intr_enabled,
            h.noff == 0,
            !h.intena,
            h.wf(),
    {
        Hart { id, intr_enabled: false, noff: 0, intena: false, satp, sepc: 0 }
    }

    /// Whether device interrupts are enabled.
    pub fn intr_get(&self) -> (r: bool)
        ensures
            r == self.intr_enabled,
    {
        self.intr_enabled
    }

    /// Disables device interrupts.
    pub fn intr_off(&mut self)
        ensures
            *final(self) == (Hart { intr_enabled: false, ..*old(self) }),
    {
        self.intr_enabled = false;
    }

    /// Enables device interrupts.
    pub fn intr_on(&mut self)
        ensures
            *final(self) == (Hart { intr_enabled: true, ..*old(self) }),
    {
        self.intr_enabled = true;
    }

    /// Opens one nesting level; `was_enabled` is the enable bit seen before interrupts
    /// were turned off, kept only for the outermost level.
    pub fn push_intr(&mut self, was_enabled: bool)
        requires
            old(self).noff < usize::MAX,
        ensures
            *final(self) == (Hart {
                noff: (old(self).noff + 1) as usize,
                intena: if old(self).noff == 0 { was_enabled } else { old(self).intena },
                ..*old(self)
            }),
    {
        if self.noff == 0 {
            self.intena = was_enabled;
        }
        self.noff = self.noff + 1;
    }

    /// Closes one nesting level, turning interrupts back on when the outermost
    /// level closes and they were on before it opened.
    pub fn pop_intr(&mut self)
        requires
            old(self).noff > 0,
            !old(self).intr_enabled,
        ensures
            final(self).intr() == popped(old(self).intr()),
            final(self).id == old(self).id,
            final(self).satp == old(self).satp,
            final(self).sepc == old(self).sepc,
    {
        self.noff = self.noff - 1;
        if self.noff == 0 && self.intena {
            self.intr_on();
        }
    }

    /// Reads the page-table-root register.
    pub fn read_satp(&self) -> (r: u64)
        ensures
            r == self.satp,
    {
        self.satp
    }

    /// Writes the exception-return program counter.
    pub fn write_sepc(&mut self, pc: u64)
        ensures
            *final(self) == (Hart { sepc: pc, ..*old(self) }),
    {
        self.sepc = pc;
    }
}

/// What the nesting counter keeps of a hart.
pub struct IntrState {
    pub enabled: bool,
    pub noff: nat,
    pub intena: bool,
}

impl IntrState {
    /// While any push is outstanding, interrupts are off.
    pub open spec fn wf(self) -> bool {
        self.noff > 0 ==> !self.enabled
    }
}

/// State after one push: interrupts off, one more level, and the enable bit
/// recorded when this is the outermost level.
pub open spec fn pushed(s: IntrState) -> IntrState {
    IntrState {
        enabled: false,
        noff: s.noff + 1,
        intena: if s.noff == 0 { s.enabled } else { s.intena },
    }
}

/// State after one pop: one level less, and interrupts back on only when the
/// outermost level closes and they were on before it opened.
pub open spec fn popped(s: IntrState) -> IntrState {
    let n: nat = (s.noff - 1) as nat;
    IntrState { enabled: n == 0 && s.intena, noff: n, intena: s.intena }
}

/// State after `n` pushes.
pub open spec fn push_n(s: IntrState, n: nat) -> IntrState
    decreases n,
{
    if n == 0 { s } else { pushed(push_n(s, (n - 1) as nat)) }
}

/// State after `n` pops.
pub open spec fn pop_n(s: IntrState, n: nat) -> IntrState
    decreases n,
{
    if n == 0 { s } else { popped(pop_n(s, (n - 1) as nat)) }
}

proof fn lemma_push_n(s: IntrState, n: nat)
    requires
        s.wf(),
    ensures
        push_n(s, n).noff == s.noff + n,
        push_n(s, n).wf(),
        n > 0 ==> !push_n(s, n).enabled,
        n > 0 ==> push_n(s, n).intena == if s.noff == 0 { s.enabled } else { s.intena },
    decreases n,
{
    if n > 0 {
        lemma_push_n(s, (n - 1) as nat);
    }
}

proof fn lemma_pop_n(t: IntrState, k: nat)
    requires
        k <= t.noff,
    ensures
        pop_n(t, k).noff == t.noff - k,
        pop_n(t, k).intena == t.intena,
        k > 0 ==> pop_n(t, k).enabled == (t.noff - k == 0 && t.intena),
        k == 0 ==> pop_n(t, k) == t,
    decreases k,
{
    if k > 0 {
        lemma_pop_n(t, (k - 1) as nat);
    }
}

/// Pushes and pops are symmetric: interrupts are off after each of `n` pushes
/// and through every one of the `n` pops that follow but the last, and the `n`
/// pops leave the counter and the enable bit as they were before the first push.
pub proof fn lemma_push_pop_symmetric(s: IntrState, n: nat)
    requires
        s.wf(),
    ensures
        forall|k: nat| 0 < k <= n ==> !(#[trigger] push_n(s, k)).enabled,
        forall|k: nat| k < n ==> !(#[trigger] pop_n(push_n(s, n), k)).enabled,
        pop_n(push_n(s, n), n).noff == s.noff,
        pop_n(push_n(s, n), n).enabled == s.enabled,
{
    assert forall|k: nat| 0 < k <= n implies !(#[trigger] push_n(s, k)).enabled by {
        lemma_push_n(s, k);
    }
    lemma_push_n(s, n);
    let t = push_n(s, n);
    assert forall|k: nat| k < n implies !(#[trigger] pop_n(t, k)).enabled by {
        lemma_pop_n(t, k);
    }
    lemma_pop_n(t, n);
}

} // verus!
