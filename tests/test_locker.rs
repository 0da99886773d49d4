use pku_lock::context_lock::ContextLock;
use pku_lock::pku::{capture_baseline, Baseline};

#[test]
fn test_locker_basic() {
    let mut lock = ContextLock::new();
    lock.activate(1);
    assert!(!lock.is_locked());
    let (guard, write) = lock.try_lock(1, None, 0).unwrap();
    assert!(lock.is_locked());
    assert_eq!(write, None);
    assert_eq!(lock.holder(), Some(1));
    assert_eq!(lock.unlock(guard, 0), None);
    lock.deactivate(1);
    assert!(!lock.is_active(1));
}

#[test]
fn test_unlocker() {
    let mut lock = ContextLock::new();
    lock.activate(7);
    let (guard, _) = lock.try_lock(7, None, 0).unwrap();
    assert!(lock.is_locked());
    {
        let unlocked = lock.unlock_temporarily(&guard);
        assert!(!lock.is_locked());
        assert!(lock.try_relock(&unlocked));
    }
    assert!(lock.is_locked());
    lock.unlock(guard, 0);
    assert!(!lock.is_locked());
    lock.deactivate(7);
}

#[test]
fn test_unentered_isolate_no_lifo_constraint() {
    let lock1 = ContextLock::new();
    let lock2 = ContextLock::new();
    let lock3 = ContextLock::new();
    drop(lock2);
    drop(lock1);
    drop(lock3);
}

#[test]
fn test_locker_multithreaded() {
    let mut lock = ContextLock::new();
    let mut results: Vec<u64> = Vec::new();
    for i in 0..3u64 {
        lock.activate(i);
        let (guard, _) = lock.try_lock(i, None, 0).unwrap();
        assert!(lock.is_locked());
        // another thread is turned away while this one works
        let other = (i + 1) % 3;
        if !lock.is_active(other) {
            lock.activate(other);
            assert!(lock.try_lock(other, None, 0).is_none());
            lock.deactivate(other);
        }
        results.push(1 + i);
        assert_eq!(results[i as usize], 1 + i);
        lock.unlock(guard, 0);
        lock.deactivate(i);
    }
    assert_eq!(results, vec![1, 2, 3]);
    assert!(!lock.is_locked());
}

#[test]
fn test_locker_prevents_concurrent_access() {
    let mut lock = ContextLock::new();
    lock.activate(1);
    lock.activate(2);
    let (first, _) = lock.try_lock(1, None, 0).unwrap();
    assert!(lock.try_lock(2, None, 0).is_none());
    assert!(lock.try_lock(2, None, 0).is_none());
    assert_eq!(lock.holder(), Some(1));
    lock.unlock(first, 0);
    let (second, _) = lock.try_lock(2, None, 0).unwrap();
    assert_eq!(lock.holder(), Some(2));
    lock.unlock(second, 0);
    assert!(!lock.is_locked());
}

#[test]
fn lock_installs_and_restores_register() {
    let mut cell = Baseline::new();
    capture_baseline(&mut cell, Some(0x5555_5554));
    let mut lock = ContextLock::new();
    lock.activate(3);
    let (guard, write) = lock.try_lock(3, cell.get(), 0x5555_5550).unwrap();
    assert_eq!(write, Some(0x5555_5554));
    assert!(guard.needs_register());
    assert_eq!(guard.thread(), 3);
    assert_eq!(lock.unlock(guard, 0x5555_5554), Some(0x5555_5550));
}

#[test]
fn relock_waits_for_other_holder() {
    let mut lock = ContextLock::new();
    lock.activate(1);
    lock.activate(2);
    let (outer, _) = lock.try_lock(1, None, 0).unwrap();
    let unlocked = lock.unlock_temporarily(&outer);
    assert_eq!(unlocked.thread(), 1);
    let (inner, _) = lock.try_lock(2, None, 0).unwrap();
    assert!(!lock.try_relock(&unlocked));
    assert_eq!(lock.holder(), Some(2));
    lock.unlock(inner, 0);
    assert!(lock.try_relock(&unlocked));
    assert_eq!(lock.holder(), Some(1));
    lock.unlock(outer, 0);
    assert!(!lock.is_locked());
}

#[test]
fn activation_is_per_thread() {
    let mut lock = ContextLock::new();
    lock.activate(4);
    lock.activate(9);
    lock.activate(5);
    lock.deactivate(9);
    assert!(lock.is_active(4));
    assert!(!lock.is_active(9));
    assert!(lock.is_active(5));
    lock.activate(9);
    assert!(lock.is_active(9));
}
