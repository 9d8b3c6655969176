//! The lock guard and the capability set shared by every lock kind.
//!
//! A [`MutexGuard`] is produced only by a successful `lock`/`try_lock` and is
//! the sole sanctioned way to reach the protected value: while a guard is
//! live, the value it carries is inaccessible through the lock itself, so at
//! most one caller can hold the value at any time.  Handing the guard back
//! through [`BasicMutex::unlock`] releases the lock and returns the value to
//! the lock's keeping.  The unguarded escape hatches of a conventional
//! interior-mutability design are deliberately absent from this surface: the
//! guard is the only path to the data.

use vstd::prelude::*;

verus! {

/// A lock guard that carries the value a mutex protects.
///
/// Existence of the guard is the proof-carrying evidence that the lock is
/// held: the protected value physically lives inside the guard for the
/// duration of the critical section.
pub struct MutexGuard<T> {
    value: T,
}

impl<T> View for MutexGuard<T> {
    type V = T;

    closed spec fn view(&self) -> T {
        self.value
    }
}

impl<T> MutexGuard<T> {
    /// Creates a guard around a value taken out of a lock that has just
    /// been claimed.  Only the lock implementations construct guards.
    pub(crate) fn new_from_unlocked(value: T) -> (g: Self)
        ensures
            g@ == value,
    {
        MutexGuard { value }
    }

    /// Read access to the protected value.
    pub fn get(&self) -> (r: &T)
        ensures
            *r == self@,
    {
        &self.value
    }

    /// Write access to the protected value.
    pub fn get_mut(&mut self) -> (r: &mut T)
        ensures
            *r == old(self)@,
            final(self)@ == *final(r),
    {
        &mut self.value
    }

    /// Consumes the guard, yielding the protected value.  Only the lock
    /// implementations dissolve guards, when the lock is released.
    pub(crate) fn into_inner(self) -> (r: T)
        ensures
            r == self@,
    {
        self.value
    }
}

/// A basic kernel mutex.
///
/// These function like a standard mutex: they keep a value and ensure that
/// only one caller can access that value at a time.  "Fairness" is
/// lock-dependent.
pub trait BasicMutex<T>: Sized {
    /// The structural invariant of the lock; established by construction
    /// and preserved by every operation.
    spec fn inv(&self) -> bool;

    /// Whether the lock is currently held.
    spec fn is_locked(&self) -> bool;

    /// The value the lock keeps while it is free.
    spec fn value(&self) -> T;

    /// Locks the mutex and returns the guard that carries the protected
    /// value.
    ///
    /// If the mutex were already locked, the caller would busy-wait for an
    /// unbounded time in a lock-specific way; a verified caller must
    /// therefore only ever call `lock` on a free lock, which is also the
    /// only situation in which the wait is bounded.
    fn lock(&mut self) -> (guard: MutexGuard<T>)
        requires
            old(self).inv(),
            !old(self).is_locked(),
        ensures
            final(self).inv(),
            final(self).is_locked(),
            guard@ == old(self).value(),
    ;

    /// Attempts to lock the mutex without ever blocking.
    ///
    /// On a free lock this claims the lock and returns the guard; on a held
    /// lock it reports contention by returning nothing, leaving the lock
    /// completely unchanged.
    fn try_lock(&mut self) -> (r: Option<MutexGuard<T>>)
        requires
            old(self).inv(),
        ensures
            final(self).inv(),
            old(self).is_locked() ==> r is None && *final(self) == *old(self),
            !old(self).is_locked() ==> r is Some && final(self).is_locked() && r.unwrap()@
                == old(self).value(),
    ;

    /// Unlocks the mutex, dissolving the guard and returning the value it
    /// carries to the lock.  The lock becomes available to any other
    /// caller waiting on it.
    fn unlock(&mut self, guard: MutexGuard<T>)
        requires
            old(self).inv(),
            old(self).is_locked(),
        ensures
            final(self).inv(),
            !final(self).is_locked(),
            final(self).value() == guard@,
    ;
}

/// What [`BasicMutex::unlock`] guarantees: the lock is free afterwards
/// and keeps the value the guard carried.
pub open spec fn unlock_transition<T, M: BasicMutex<T>>(pre: M, post: M, guard_value: T) -> bool {
    &&& post.inv()
    &&& !post.is_locked()
    &&& post.value() == guard_value
}

/// What [`BasicMutex::try_lock`] guarantees, with `r` standing for the
/// value carried by the returned guard, if any.
pub open spec fn try_lock_transition<T, M: BasicMutex<T>>(pre: M, post: M, r: Option<T>) -> bool {
    &&& post.inv()
    &&& pre.is_locked() ==> r is None && post == pre
    &&& !pre.is_locked() ==> r is Some && post.is_locked() && r.unwrap() == pre.value()
}

/// A released lock is observably free: however a critical section ends —
/// the guard handed back at its close, on an early exit, or through an
/// explicit `unlock` call — the very next `try_lock` on that lock
/// succeeds and hands out the value the guard carried.
pub proof fn lemma_release_frees_lock<T, M: BasicMutex<T>>(
    pre: M,
    mid: M,
    post: M,
    guard_value: T,
    r: Option<T>,
)
    requires
        unlock_transition(pre, mid, guard_value),
        try_lock_transition(mid, post, r),
    ensures
        r == Some(guard_value),
{
}

} // verus!
