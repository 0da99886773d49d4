//! Context lock of a shared engine instance.
//!
//! One instance carries two independent kinds of state: the set of threads on
//! which it is activated, and its lock state, unlocked or locked by one thread.
//! This module holds the transitions of that state. Waiting is the caller's:
//! an acquisition that is not granted leaves the state unchanged, and the
//! caller blocks until the lock is released and tries again.
//!
//! Every granted acquisition installs a register guard (see `pku`) as part of
//! the same step, and the final release disposes of it.
use crate::pku::{entry_saved, entry_write, exit_write, PkruGuard};
use vstd::prelude::*;

verus! {

/// The lock state after an acquisition attempt by `thread`: granted only from
/// the unlocked state.
pub open spec fn after_lock(holder: Option<u64>, thread: u64) -> Option<u64> {
    match holder {
        None => Some(thread),
        Some(h) => Some(h),
    }
}

/// The lock state after a release, final or temporary: unlocked.
pub open spec fn after_release(holder: Option<u64>) -> Option<u64> {
    None
}

/// Whether a lock whose holder is `holder` reads as locked.
pub open spec fn locked(holder: Option<u64>) -> bool {
    holder is Some
}

/// Proof that `thread` holds the lock; only an acquisition hands one out.
pub struct LockGuard {
    thread: u64,
    register: PkruGuard,
}

impl View for LockGuard {
    /// The holding thread, and the register value its guard recorded.
    type V = (u64, Option<u32>);

    closed spec fn view(&self) -> (u64, Option<u32>) {
        (self.thread, self.register@)
    }
}

impl LockGuard {
    /// The thread that holds the lock.
    pub fn thread(&self) -> (r: u64)
        ensures
            r == self@.0,
    {
        self.thread
    }

    /// Whether releasing needs the register value: false where no baseline
    /// existed at acquisition.
    pub fn needs_register(&self) -> (r: bool)
        ensures
            r == self@.1 is Some,
    {
        self.register.is_active()
    }
}

/// Proof that `thread` has suspended its hold on the lock inside an outer
/// lock scope.
pub struct UnlockGuard {
    thread: u64,
}

impl View for UnlockGuard {
    type V = u64;

    closed spec fn view(&self) -> u64 {
        self.thread
    }
}

impl UnlockGuard {
    /// The thread that suspended its hold.
    pub fn thread(&self) -> (r: u64)
        ensures
            r == self@,
    {
        self.thread
    }
}

/// Activation and lock state of one shared engine instance.
pub struct ContextLock {
    holder: Option<u64>,
    active: Vec<u64>,
}

impl ContextLock {
    /// The thread holding the lock, if any.
    pub closed spec fn holder_spec(&self) -> Option<u64> {
        self.holder
    }

    /// The threads on which the instance is activated.
    pub closed spec fn active_threads(&self) -> Set<u64> {
        self.active@.to_set()
    }

    /// Whether the instance is activated on `thread`.
    pub open spec fn is_active_on(&self, thread: u64) -> bool {
        self.active_threads().contains(thread)
    }

    /// Each thread is recorded at most once.
    pub closed spec fn wf(&self) -> bool {
        self.active@.no_duplicates()
    }

    /// A fresh instance: unlocked, activated on no thread.
    pub fn new() -> (r: ContextLock)
        ensures
            r.wf(),
            r.holder_spec() is None,
            r.active_threads() == Set::<u64>::empty(),
    {
        let r = ContextLock { holder: None, active: Vec::new() };
        assert(r.active_threads() =~= Set::<u64>::empty());
        r
    }

    /// Whether some thread holds the lock. A snapshot: it may change as soon
    /// as it is read.
    pub fn is_locked(&self) -> (r: bool)
        ensures
            r == locked(self.holder_spec()),
    {
        self.holder.is_some()
    }

    /// The thread holding the lock, if any.
    pub fn holder(&self) -> (r: Option<u64>)
        ensures
            r == self.holder_spec(),
    {
        self.holder
    }

    /// Whether the instance is activated on `thread`.
    pub fn is_active(&self, thread: u64) -> (r: bool)
        requires
            self.wf(),
        ensures
            r == self.is_active_on(thread),
    {
        let mut i: usize = 0;
        while i < self.active.len()
            invariant
                0 <= i <= self.active@.len(),
                forall|k: int| 0 <= k < i ==> self.active@[k] != thread,
            decreases self.active@.len() - i,
        {
            if self.active[i] == thread {
                return true;
            }
            i = i + 1;
        }
        false
    }

    /// Activates the instance on `thread`, which must not be activated yet.
    pub fn activate(&mut self, thread: u64)
        requires
            old(self).wf(),
            !old(self).is_active_on(thread),
        ensures
            final(self).wf(),
            final(self).holder_spec() == old(self).holder_spec(),
            final(self).active_threads() == old(self).active_threads().insert(thread),
    {
        let ghost before = self.active@;
        self.active.push(thread);
        proof {
            let after = self.active@;
            assert(after[before.len() as int] == thread);
            assert forall|t: u64| after.contains(t) == (before.contains(t) || t == thread) by {
                if after.contains(t) && t != thread {
                    let j = choose|j: int| 0 <= j < after.len() && after[j] == t;
                    assert(before[j] == t);
                }
                if before.contains(t) {
                    let j = choose|j: int| 0 <= j < before.len() && before[j] == t;
                    assert(after[j] == t);
                }
            }
            assert(after.to_set() =~= before.to_set().insert(thread));
        }
    }

    /// Deactivates the instance on `thread`, which must be activated and must
    /// not hold the lock.
    pub fn deactivate(&mut self, thread: u64)
        requires
            old(self).wf(),
            old(self).is_active_on(thread),
            old(self).holder_spec() != Some(thread),
        ensures
            final(self).wf(),
            final(self).holder_spec() == old(self).holder_spec(),
            final(self).active_threads() == old(self).active_threads().remove(thread),
    {
        let mut i: usize = 0;
        while i < self.active.len() && self.active[i] != thread
            invariant
                0 <= i <= self.active@.len(),
                self.active@ == old(self).active@,
                self.holder == old(self).holder,
                self.active@.contains(thread),
                forall|k: int| 0 <= k < i ==> self.active@[k] != thread,
            decreases self.active@.len() - i,
        {
            i = i + 1;
        }
        let ghost before = self.active@;
        self.active.remove(i);
        proof {
            before.remove_ensures(i as int);
            let after = self.active@;
            assert forall|t: u64| after.contains(t) == (before.contains(t) && t != thread) by {
                if after.contains(t) {
                    let j = choose|j: int| 0 <= j < after.len() && after[j] == t;
                    if j < i {
                        assert(before[j] == t);
                    } else {
                        assert(before[j + 1] == t);
                    }
                }
                if before.contains(t) && t != thread {
                    let j = choose|j: int| 0 <= j < before.len() && before[j] == t;
                    if j < i {
                        assert(after[j] == t);
                    } else {
                        assert(after[j - 1] == t);
                    }
                }
            }
            assert(after.to_set() =~= before.to_set().remove(thread));
            assert forall|a: int, b: int|
                0 <= a < after.len() && 0 <= b < after.len() && a != b implies after[a]
                != after[b] by {
                let a2 = if a < i {
                    a
                } else {
                    a + 1
                };
                let b2 = if b < i {
                    b
                } else {
                    b + 1
                };
                assert(after[a] == before[a2]);
                assert(after[b] == before[b2]);
            }
        }
    }

    /// Tries to acquire the lock for `thread`, on which the instance must be
    /// activated. Granted exactly when the lock is free; then the register
    /// guard is installed against `baseline` on a register holding `current`,
    /// and the value to write into the register comes back with the guard.
    /// Not granted, nothing changes and the caller waits for a release. A
    /// thread that already holds the lock is not granted it again.
    pub fn try_lock(&mut self, thread: u64, baseline: Option<u32>, current: u32) -> (r: Option<
        (LockGuard, Option<u32>),
    >)
        requires
            old(self).wf(),
            old(self).is_active_on(thread),
        ensures
            final(self).wf(),
            final(self).active_threads() == old(self).active_threads(),
            final(self).holder_spec() == after_lock(old(self).holder_spec(), thread),
            r is Some <==> old(self).holder_spec() is None,
            r matches Some(g) ==> g.0@ == (thread, entry_saved(baseline, current)) && g.1
                == entry_write(baseline, current),
    {
        if self.holder.is_some() {
            return None;
        }
        self.holder = Some(thread);
        let (register, write) = PkruGuard::new(baseline, current);
        Some((LockGuard { thread, register }, write))
    }

    /// Suspends the hold of the guard's thread, which must hold the lock: the
    /// lock becomes free for other threads while this thread stays activated.
    pub fn unlock_temporarily(&mut self, guard: &LockGuard) -> (r: UnlockGuard)
        requires
            old(self).wf(),
            old(self).holder_spec() == Some(guard@.0),
        ensures
            final(self).wf(),
            final(self).active_threads() == old(self).active_threads(),
            final(self).holder_spec() == after_release(old(self).holder_spec()),
            r@ == guard@.0,
    {
        self.holder = None;
        UnlockGuard { thread: guard.thread }
    }

    /// Tries to take the lock back for the thread that suspended its hold.
    /// Granted exactly when the lock is free; otherwise nothing changes and
    /// the caller waits for a release.
    pub fn try_relock(&mut self, unlocked: &UnlockGuard) -> (r: bool)
        requires
            old(self).wf(),
        ensures
            final(self).wf(),
            final(self).active_threads() == old(self).active_threads(),
            final(self).holder_spec() == after_lock(old(self).holder_spec(), unlocked@),
            r == old(self).holder_spec() is None,
    {
        if self.holder.is_some() {
            return false;
        }
        self.holder = Some(unlocked.thread);
        true
    }

    /// Releases the lock held by the guard's thread and disposes of its
    /// register guard on a register holding `current`. Returns the value to
    /// write into the register, if any.
    pub fn unlock(&mut self, guard: LockGuard, current: u32) -> (r: Option<u32>)
        requires
            old(self).wf(),
            old(self).holder_spec() == Some(guard@.0),
        ensures
            final(self).wf(),
            final(self).active_threads() == old(self).active_threads(),
            final(self).holder_spec() == after_release(old(self).holder_spec()),
            r == exit_write(guard@.1, current),
    {
        self.holder = None;
        guard.register.release(current)
    }
}

/// Mutual exclusion: the lock has at most one holder, and while one thread
/// holds it no acquisition by any thread changes that.
pub proof fn lemma_mutual_exclusion(holder: Option<u64>, t1: u64, t2: u64)
    ensures
        holder == Some(t1) && holder == Some(t2) ==> t1 == t2,
        holder == Some(t1) ==> after_lock(holder, t2) == Some(t1),
{
}

/// A fresh lock reads as unlocked; acquiring it locks it, and releasing the
/// guard unlocks it again.
pub proof fn lemma_lock_cycle(thread: u64)
    ensures
        !locked(None),
        locked(after_lock(None, thread)),
        !locked(after_release(after_lock(None, thread))),
{
}

/// While `t1` has suspended its hold, the lock reads as unlocked and a second
/// thread `t2` is granted it; `t1` cannot take it back until `t2` releases,
/// and then re-locking makes the lock read as locked by `t1` again.
pub proof fn lemma_temporary_unlock(t1: u64, t2: u64)
    ensures
        !locked(after_release(after_lock(None, t1))),
        after_lock(after_release(after_lock(None, t1)), t2) == Some(t2),
        after_lock(after_lock(after_release(after_lock(None, t1)), t2), t1) == Some(t2),
        after_lock(after_release(after_lock(after_release(after_lock(None, t1)), t2)), t1)
            == Some(t1),
{
}

} // verus!
