//! A minimal mutual-exclusion primitive for bare-metal use: a bare binary
//! spin lock that serializes a critical section, and a value-carrying spin
//! lock whose protected value is reachable only through a held guard.
//!
//! Both kinds share one state machine, modelled by [`LockModel`]: a lock is
//! either locked or unlocked, an acquisition is the only `Unlocked → Locked`
//! transition, and a guard's destruction is the only `Locked → Unlocked`
//! transition.

use vstd::prelude::*;

mod bare;
mod guarded;
mod model;

verus! {

pub use crate::bare::BareGuard;
pub use crate::bare::BareSpinLock;
pub use crate::guarded::SpinLock;
pub use crate::guarded::ValueGuard;
pub use crate::model::GuardedModel;
pub use crate::model::LockModel;
pub use crate::model::acquired_model;
pub use crate::model::cycled_model;
pub use crate::model::fresh_model;
pub use crate::model::guarded_acquired_model;
pub use crate::model::guarded_fresh_model;
pub use crate::model::guarded_released_model;
pub use crate::model::lemma_fresh_try_lock_exactly_once;
pub use crate::model::lemma_held_try_lock_fails;
pub use crate::model::lemma_n_cycles;
pub use crate::model::lemma_release_reopens_exactly_once;
pub use crate::model::lemma_release_single_transition;
pub use crate::model::lemma_release_then_acquire_observes_value;
pub use crate::model::released_model;
pub use crate::model::try_acquire_model;

} // verus!
