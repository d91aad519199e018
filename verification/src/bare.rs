//! The bare spin lock: lock state only, no protected payload. It is used
//! when the critical section itself is the resource being serialized, such
//! as a hardware register sequence.

use vstd::prelude::*;
use crate::model::{LockModel, acquired_model, fresh_model, released_model, try_acquire_model};

verus! {

/// Proof of current ownership of a [`BareSpinLock`]'s critical section.
/// Handing the guard back through [`BareSpinLock::unlock`] destroys it and
/// is the only way the lock is released; because that consumes the guard by
/// value, each guard releases the lock at most once.
pub struct BareGuard {
    tick: Ghost<nat>,
}

impl BareGuard {
    /// Which acquisition produced this guard: the lock's acquisition count
    /// at the moment the guard was handed out.
    pub closed spec fn epoch(self) -> nat {
        self.tick@
    }
}

/// A binary spin lock with no payload. It holds a single flag that is
/// locked exactly while a guard is alive; acquisition is the only
/// `Unlocked → Locked` transition and a guard's destruction the only
/// `Locked → Unlocked` one.
///
/// The discipline is strictly non-reentrant: an execution context that
/// already holds the lock and calls [`Self::lock`] again would spin forever,
/// and a nested [`Self::try_lock`] observes `None`. Callers that share a
/// lock between interrupt and normal context must mask the competing
/// context around the critical section; the lock itself does not.
pub struct BareSpinLock {
    locked: bool,
    acquires: Ghost<nat>,
    releases: Ghost<nat>,
}

impl View for BareSpinLock {
    type V = LockModel;

    closed spec fn view(&self) -> LockModel {
        LockModel { locked: self.locked, acquires: self.acquires@, releases: self.releases@ }
    }
}

impl BareSpinLock {
    /// The flag and the transition counters agree; established by
    /// [`Self::new`] and preserved by every method.
    pub open spec fn wf(self) -> bool {
        self@.wf()
    }

    /// Constructs the lock in the unlocked state. No failure mode.
    pub fn new() -> (r: Self)
        ensures
            r.wf(),
            r@ == fresh_model(),
    {
        BareSpinLock { locked: false, acquires: Ghost(0nat), releases: Ghost(0nat) }
    }

    /// One atomic test-and-set attempt: hands out a guard exactly when the
    /// lock was unlocked, and leaves a held lock untouched. Never blocks;
    /// the empty result signals contention, not a fault.
    pub fn try_lock(&mut self) -> (r: Option<BareGuard>)
        requires
            old(self).wf(),
        ensures
            final(self).wf(),
            final(self)@ == try_acquire_model(old(self)@).0,
            r is Some <==> try_acquire_model(old(self)@).1,
            r matches Some(g) ==> g.epoch() == old(self)@.acquires + 1,
    {
        if self.locked {
            None
        } else {
            self.locked = true;
            self.acquires = Ghost(self.acquires@ + 1);
            Some(BareGuard { tick: Ghost(self.acquires@) })
        }
    }

    /// Acquires the lock, spinning until the flag is clear. This call holds
    /// exclusive access to the lock while it runs, so nothing could release
    /// a held lock underneath it: the lock must be unlocked when called —
    /// spinning on a lock the caller already holds would never return — and
    /// the first test-and-set then succeeds.
    pub fn lock(&mut self) -> (g: BareGuard)
        requires
            old(self).wf(),
            !old(self)@.locked,
        ensures
            final(self).wf(),
            final(self)@ == acquired_model(old(self)@),
            g.epoch() == old(self)@.acquires + 1,
    {
        match self.try_lock() {
            Some(g) => g,
            None => vstd::pervasive::unreached(),
        }
    }

    /// Destroys a guard, releasing the lock: the single
    /// `Locked → Unlocked` transition. Release is unconditional and, since
    /// the guard is consumed, happens exactly once per acquisition.
    pub fn unlock(&mut self, guard: BareGuard)
        requires
            old(self).wf(),
            old(self)@.locked,
            guard.epoch() == old(self)@.acquires,
        ensures
            final(self).wf(),
            final(self)@ == released_model(old(self)@),
    {
        let _ = guard;
        self.locked = false;
        self.releases = Ghost(self.releases@ + 1);
    }
}

} // verus!
