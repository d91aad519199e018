use spinlock::{BareSpinLock, SpinLock};

#[test]
fn bare_try_lock_returns_correct_value() {
    let mut lock = BareSpinLock::new();

    let sentinel = lock.lock();
    assert!(lock.try_lock().is_none());
    lock.unlock(sentinel);

    assert!(lock.try_lock().is_some());
}

#[test]
fn try_lock_returns_correct_value() {
    let mut lock = SpinLock::new(false);

    let mut guard = lock.lock();
    guard.set(true);
    assert!(lock.try_lock().is_none());
    lock.unlock(guard);

    let guard = lock.lock();
    assert!(*guard.get());
}

#[test]
fn fresh_bare_lock_try_lock_succeeds_exactly_once() {
    let mut lock = BareSpinLock::new();
    let first = lock.try_lock();
    assert!(first.is_some());
    assert!(lock.try_lock().is_none());
    assert!(lock.try_lock().is_none());
}

#[test]
fn fresh_value_lock_try_lock_succeeds_exactly_once() {
    let mut lock = SpinLock::new(7u32);
    let first = lock.try_lock();
    assert!(first.is_some());
    assert!(lock.try_lock().is_none());
    assert!(lock.try_lock().is_none());
}

#[test]
fn release_reopens_bare_lock_exactly_once() {
    let mut lock = BareSpinLock::new();
    let guard = lock.lock();
    lock.unlock(guard);
    let reacquired = lock.try_lock();
    assert!(reacquired.is_some());
    assert!(lock.try_lock().is_none());
}

#[test]
fn release_reopens_value_lock_exactly_once() {
    let mut lock = SpinLock::new(String::from("shared"));
    let guard = lock.lock();
    assert_eq!(guard.get(), "shared");
    lock.unlock(guard);
    let reacquired = lock.try_lock();
    assert!(reacquired.is_some());
    assert!(lock.try_lock().is_none());
}

#[test]
fn repeated_cycles_leave_bare_lock_unlocked() {
    let mut lock = BareSpinLock::new();
    let mut i: usize = 0;
    while i < 3 {
        let guard = lock.lock();
        lock.unlock(guard);
        i += 1;
    }
    assert!(lock.try_lock().is_some());
}

#[test]
fn bare_lock_scenario() {
    let mut lock = BareSpinLock::new();
    let guard = lock.try_lock();
    assert!(guard.is_some());
    assert!(lock.try_lock().is_none());
    lock.unlock(guard.unwrap());
    assert!(lock.try_lock().is_some());
}

#[test]
fn value_lock_scenario() {
    let mut lock = SpinLock::new(false);
    let mut guard = lock.lock();
    guard.set(true);
    lock.unlock(guard);
    let next = lock.lock();
    assert!(*next.get());
}

#[test]
fn value_survives_untouched_critical_sections() {
    let mut lock = SpinLock::new(vec![1u8, 2, 3]);
    let guard = lock.lock();
    lock.unlock(guard);
    let guard = lock.lock();
    assert_eq!(guard.get().as_slice(), &[1u8, 2, 3]);
    lock.unlock(guard);
}

#[test]
fn writes_are_observed_in_acquisition_order() {
    let mut lock = SpinLock::new(0u64);
    let mut i: u64 = 1;
    while i <= 5 {
        let mut guard = lock.lock();
        let seen = *guard.get();
        assert_eq!(seen, i - 1);
        guard.set(i);
        lock.unlock(guard);
        i += 1;
    }
    let guard = lock.lock();
    assert_eq!(*guard.get(), 5);
}
