//! The value-carrying spin lock: the lock owns one value of an arbitrary
//! type, and exclusive access to that value is obtainable only through a
//! lock acquisition. While a guard is alive the value lives in the guard,
//! so no path outside a critical section can reach it.

use vstd::prelude::*;
use crate::model::{
    GuardedModel, guarded_acquired_model, guarded_fresh_model, guarded_released_model,
};

verus! {

/// Proof of current ownership of a [`SpinLock`]'s critical section. The
/// guard carries the protected value and exposes read and write access to
/// it for its lifetime; handing it back through [`SpinLock::unlock`]
/// destroys it, stores the value back, and is the only way the lock is
/// released.
pub struct ValueGuard<T> {
    value: T,
    tick: Ghost<nat>,
}

impl<T> View for ValueGuard<T> {
    type V = T;

    /// A guard is viewed as the value it currently protects.
    closed spec fn view(&self) -> T {
        self.value
    }
}

impl<T> ValueGuard<T> {
    /// Which acquisition produced this guard: the lock's acquisition count
    /// at the moment the guard was handed out.
    pub closed spec fn epoch(self) -> nat {
        self.tick@
    }

    /// Read access to the protected value.
    pub fn get(&self) -> (r: &T)
        ensures
            *r == self@,
    {
        &self.value
    }

    /// Write access to the protected value: replaces it with `value`.
    pub fn set(&mut self, value: T)
        ensures
            final(self)@ == value,
            final(self).epoch() == old(self).epoch(),
    {
        self.value = value;
    }
}

/// A spin lock that owns one value of type `T`. The lock state machine is
/// the same as [`crate::BareSpinLock`]'s; in addition, the protected value
/// rests in the lock exactly while no guard is alive, and moves into the
/// guard for the span of each critical section.
///
/// The discipline is strictly non-reentrant, exactly as for the bare lock:
/// acquiring a lock the caller already holds would spin forever, and a
/// nested [`Self::try_lock`] observes `None`.
pub struct SpinLock<T> {
    slot: Option<T>,
    acquires: Ghost<nat>,
    releases: Ghost<nat>,
}

impl<T> View for SpinLock<T> {
    type V = GuardedModel<T>;

    closed spec fn view(&self) -> GuardedModel<T> {
        GuardedModel {
            lock: crate::model::LockModel {
                locked: self.slot is None,
                acquires: self.acquires@,
                releases: self.releases@,
            },
            stored: self.slot,
        }
    }
}

impl<T> SpinLock<T> {
    /// Well-formed: the counters agree with the flag, and the value is in
    /// the lock exactly while it is unlocked. Established by [`Self::new`]
    /// and preserved by every method.
    pub open spec fn wf(self) -> bool {
        self@.wf()
    }

    /// Constructs the lock in the unlocked state, storing `initial`. The
    /// value persists unchanged until mutated through a guard.
    pub fn new(initial: T) -> (r: Self)
        ensures
            r.wf(),
            r@ == guarded_fresh_model(initial),
    {
        SpinLock { slot: Some(initial), acquires: Ghost(0nat), releases: Ghost(0nat) }
    }

    /// One atomic test-and-set attempt: exactly when the lock was unlocked
    /// it hands out a guard carrying the stored value; a held lock is left
    /// untouched. Never blocks; the empty result signals contention, not a
    /// fault.
    pub fn try_lock(&mut self) -> (r: Option<ValueGuard<T>>)
        requires
            old(self).wf(),
        ensures
            final(self).wf(),
            old(self)@.lock.locked ==> r is None && final(self)@ == old(self)@,
            !old(self)@.lock.locked ==> r is Some && final(self)@ == guarded_acquired_model(
                old(self)@,
            ),
            r matches Some(g) ==> g@ == old(self)@.stored.unwrap() && g.epoch() == old(
                self,
            )@.lock.acquires + 1,
    {
        match self.slot.take() {
            Some(value) => {
                self.acquires = Ghost(self.acquires@ + 1);
                Some(ValueGuard { value, tick: Ghost(self.acquires@) })
            },
            None => None,
        }
    }

    /// Acquires the lock, spinning until the flag is clear, and hands out a
    /// guard carrying the stored value. This call holds exclusive access to
    /// the lock while it runs, so nothing could release a held lock
    /// underneath it: the lock must be unlocked when called — spinning on a
    /// lock the caller already holds would never return — and the first
    /// test-and-set then succeeds.
    pub fn lock(&mut self) -> (g: ValueGuard<T>)
        requires
            old(self).wf(),
            !old(self)@.lock.locked,
        ensures
            final(self).wf(),
            final(self)@ == guarded_acquired_model(old(self)@),
            g@ == old(self)@.stored.unwrap(),
            g.epoch() == old(self)@.lock.acquires + 1,
    {
        match self.try_lock() {
            Some(g) => g,
            None => vstd::pervasive::unreached(),
        }
    }

    /// Destroys a guard: stores the value it carried back into the lock and
    /// releases it — the single `Locked → Unlocked` transition. Release is
    /// unconditional, whether or not the value was touched, and, since the
    /// guard is consumed, happens exactly once per acquisition. The stored
    /// value is what the next acquirer observes.
    pub fn unlock(&mut self, guard: ValueGuard<T>)
        requires
            old(self).wf(),
            old(self)@.lock.locked,
            guard.epoch() == old(self)@.lock.acquires,
        ensures
            final(self).wf(),
            final(self)@ == guarded_released_model(old(self)@, guard@),
    {
        let ValueGuard { value, tick } = guard;
        let _ = tick;
        self.slot = Some(value);
        self.releases = Ghost(self.releases@ + 1);
    }
}

} // verus!
