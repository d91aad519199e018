//! The abstract state machine shared by both lock kinds, and the laws it
//! obeys. Contracts of the executable locks are stated over these spec
//! functions; the proof functions here record the properties every client
//! may rely on.

use vstd::prelude::*;

verus! {

/// Abstract state of a spin lock: whether it is currently held, together
/// with how many acquisitions and releases it has gone through since it was
/// constructed.
pub struct LockModel {
    pub locked: bool,
    pub acquires: nat,
    pub releases: nat,
}

impl LockModel {
    /// A lock is held exactly when it has seen one more acquisition than
    /// releases; releases never outrun acquisitions.
    pub open spec fn wf(self) -> bool {
        self.acquires == self.releases + (if self.locked { 1int } else { 0int })
    }
}

/// The state of a lock that has just been constructed: unlocked, with no
/// transition observed yet.
pub open spec fn fresh_model() -> LockModel {
    LockModel { locked: false, acquires: 0, releases: 0 }
}

/// One successful acquisition: the single atomic `Unlocked → Locked` step.
pub open spec fn acquired_model(m: LockModel) -> LockModel {
    LockModel { locked: true, acquires: m.acquires + 1, releases: m.releases }
}

/// One non-blocking acquisition attempt: the state afterwards, and whether a
/// guard was handed out. A held lock is left untouched.
pub open spec fn try_acquire_model(m: LockModel) -> (LockModel, bool) {
    if m.locked {
        (m, false)
    } else {
        (acquired_model(m), true)
    }
}

/// A guard's destruction: the single `Locked → Unlocked` step.
pub open spec fn released_model(m: LockModel) -> LockModel {
    LockModel { locked: false, acquires: m.acquires, releases: m.releases + 1 }
}

/// `n` acquire/release cycles performed in sequence from `m`.
pub open spec fn cycled_model(m: LockModel, n: nat) -> LockModel
    decreases n,
{
    if n == 0 {
        m
    } else {
        released_model(acquired_model(cycled_model(m, (n - 1) as nat)))
    }
}

/// Abstract state of a value-carrying lock: the shared lock state machine,
/// plus the protected value while it rests in the lock. While a guard is
/// alive the value travels with the guard, so `stored` is empty exactly
/// while the lock is held.
pub struct GuardedModel<T> {
    pub lock: LockModel,
    pub stored: Option<T>,
}

impl<T> GuardedModel<T> {
    /// The lock state machine is well formed, and the value is in the lock
    /// exactly while no guard is alive.
    pub open spec fn wf(self) -> bool {
        self.lock.wf() && (self.lock.locked <==> self.stored is None)
    }
}

/// The state of a value-carrying lock that has just been constructed with
/// `initial`.
pub open spec fn guarded_fresh_model<T>(initial: T) -> GuardedModel<T> {
    GuardedModel { lock: fresh_model(), stored: Some(initial) }
}

/// One successful acquisition of a value-carrying lock: the value moves out
/// of the lock into the guard.
pub open spec fn guarded_acquired_model<T>(m: GuardedModel<T>) -> GuardedModel<T> {
    GuardedModel { lock: acquired_model(m.lock), stored: None }
}

/// A guard's destruction: the value it carried, `v`, is stored back and the
/// lock is released.
pub open spec fn guarded_released_model<T>(m: GuardedModel<T>, v: T) -> GuardedModel<T> {
    GuardedModel { lock: released_model(m.lock), stored: Some(v) }
}

/// For a freshly constructed lock the first acquisition attempt succeeds,
/// and every further attempt before a release fails: `try_lock` succeeds
/// exactly once.
pub proof fn lemma_fresh_try_lock_exactly_once()
    ensures
        try_acquire_model(fresh_model()).1,
        !try_acquire_model(try_acquire_model(fresh_model()).0).1,
{
}

/// While a guard is alive — that is, while the lock is held — every
/// acquisition attempt fails and leaves the lock's state untouched.
pub proof fn lemma_held_try_lock_fails(m: LockModel)
    requires
        m.locked,
    ensures
        !try_acquire_model(m).1,
        try_acquire_model(m).0 == m,
{
}

/// After a guard is released, exactly one subsequent acquisition attempt
/// succeeds: the first one is handed a guard, and any further attempt before
/// the next release fails. No double acquisition, no permanent lock-out.
pub proof fn lemma_release_reopens_exactly_once(m: LockModel)
    requires
        m.locked,
    ensures
        try_acquire_model(released_model(m)).1,
        !try_acquire_model(try_acquire_model(released_model(m)).0).1,
{
}

/// A guard's destruction transitions the lock exactly once: the release
/// count grows by exactly one, the flag is cleared, and the acquisition
/// count is untouched.
pub proof fn lemma_release_single_transition(m: LockModel)
    ensures
        !released_model(m).locked,
        released_model(m).releases == m.releases + 1,
        released_model(m).acquires == m.acquires,
{
}

/// Constructing and destroying `n` guards in sequence leaves an unlocked
/// lock unlocked, with exactly `n` more acquisitions and `n` more releases
/// observed — never fewer, never more.
pub proof fn lemma_n_cycles(m: LockModel, n: nat)
    requires
        m.wf(),
        !m.locked,
    ensures
        cycled_model(m, n).wf(),
        !cycled_model(m, n).locked,
        cycled_model(m, n).acquires == m.acquires + n,
        cycled_model(m, n).releases == m.releases + n,
    decreases n,
{
    if n > 0 {
        lemma_n_cycles(m, (n - 1) as nat);
    }
}

/// A value written during one critical section is the value observed at the
/// start of the next successfully acquired critical section: releasing a
/// guard that carries `v` leaves the lock open, storing exactly `v`, so the
/// next acquisition succeeds and its guard reads `v`.
pub proof fn lemma_release_then_acquire_observes_value<T>(m: GuardedModel<T>, v: T)
    requires
        m.wf(),
        m.lock.locked,
    ensures
        guarded_released_model(m, v).wf(),
        !guarded_released_model(m, v).lock.locked,
        guarded_released_model(m, v).stored == Some(v),
        guarded_acquired_model(guarded_released_model(m, v)).wf(),
{
}

} // verus!
