//! The two spin-based mutual-exclusion locks.
//!
//! [`SpinMutex`] is the unfair lock: a single flag, and whichever contender
//! observes it clear first wins.  [`SpinFairMutex`] is the ticket lock: each
//! acquisition draws a sequential ticket, and tickets are served strictly in
//! the order they were drawn, so acquisition order equals arrival order.
//!
//! In the concurrent algorithm both locks busy-wait while the lock is held;
//! a verified caller only ever locks a free lock, on which the wait loops
//! perform no iterations.  The interleaving-level guarantees of the ticket
//! discipline (mutual exclusion and FIFO order under arbitrary schedules)
//! are proved over the abstract transition system in
//! [`crate::ticket_protocol`].
//!
//! Neither lock is interrupt-safe on its own; kernel code wraps them in the
//! decorators of [`crate::kmutex`].

use vstd::prelude::*;

use crate::basic_mutex::BasicMutex;
use crate::basic_mutex::MutexGuard;

verus! {

/// The ticket that follows `t`, wrapping at the integer width.
///
/// Wraparound is acceptable because the only failure mode would require
/// about `2^64` simultaneous waiters.
pub open spec fn next_ticket(t: usize) -> usize {
    if t == usize::MAX {
        0
    } else {
        (t + 1) as usize
    }
}

/// A basic spinlock-based mutex.
///
/// The algorithm is not fair at all: it is purely a matter of which
/// contenders get lucky enough to grab the lock once it becomes unlocked.
/// The concurrent algorithm is test-and-test-and-set: swap the flag to
/// held, and on failure spin on a plain load until the flag is observed
/// clear before retrying the swap, which keeps contending cores from
/// fighting over the cache line.
pub struct SpinMutex<T> {
    locked: bool,
    data: Option<T>,
}

impl<T> SpinMutex<T> {
    /// Creates a new mutex instance with a given initial value for the
    /// held object.
    ///
    /// The lock starts in the "unlocked" state.
    pub fn new(value: T) -> (r: Self)
        ensures
            r.inv(),
            !r.is_locked(),
            r.value() == value,
    {
        SpinMutex { locked: false, data: Some(value) }
    }
}

impl<T> BasicMutex<T> for SpinMutex<T> {
    /// The flag is set exactly while the value is out in a guard.
    closed spec fn inv(&self) -> bool {
        self.locked <==> self.data is None
    }

    closed spec fn is_locked(&self) -> bool {
        self.locked
    }

    closed spec fn value(&self) -> T {
        self.data.unwrap()
    }

    fn lock(&mut self) -> (guard: MutexGuard<T>) {
        // The first swap of the test-and-test-and-set loop claims a free
        // lock immediately, and the precondition says the lock is free, so
        // the spin phase performs no iterations.
        self.locked = true;
        let mut taken: Option<T> = None;
        core::mem::swap(&mut self.data, &mut taken);
        MutexGuard::new_from_unlocked(taken.unwrap())
    }

    fn try_lock(&mut self) -> (r: Option<MutexGuard<T>>) {
        // The preemptive load of the concurrent algorithm: a held lock is
        // reported as contention without touching the flag.
        if self.locked {
            None
        } else {
            self.locked = true;
            let mut taken: Option<T> = None;
            core::mem::swap(&mut self.data, &mut taken);
            Some(MutexGuard::new_from_unlocked(taken.unwrap()))
        }
    }

    fn unlock(&mut self, guard: MutexGuard<T>) {
        // The release-ordered store of the flag; writes made during the
        // critical section travel back with the value in the guard.
        self.data = Some(guard.into_inner());
        self.locked = false;
    }
}

impl<T: Default> Default for SpinMutex<T> {
    /// An unlocked mutex around the default value of the held type.
    fn default() -> (r: Self)
        ensures
            r.inv(),
            !r.is_locked(),
    {
        SpinMutex::new(T::default())
    }
}

/// A basic spinlock-based mutex that is also fair: the caller that started
/// waiting first gets the lock first.
///
/// The algorithm is the standard ticket lock: waiters draw a ticket from a
/// monotonically increasing counter, and the lock tracks which ticket is
/// currently being served.  Releasing the lock admits exactly the next
/// ticket holder, so acquisition order equals ticket-issue order.
pub struct SpinFairMutex<T> {
    count: usize,
    current: usize,
    data: Option<T>,
}

impl<T> SpinFairMutex<T> {
    /// Creates a new mutex instance with a given initial value for the
    /// held object.
    ///
    /// The lock starts in the "unlocked" state, with no tickets drawn.
    pub fn new(value: T) -> (r: Self)
        ensures
            r.inv(),
            !r.is_locked(),
            r.value() == value,
            r.tickets_issued() == 0,
            r.tickets_served() == 0,
    {
        SpinFairMutex { count: 0, current: 0, data: Some(value) }
    }

    /// The next ticket that will be handed out.  Every ticket ever drawn
    /// was strictly earlier in wrapping order.
    pub closed spec fn tickets_issued(&self) -> usize {
        self.count
    }

    /// The ticket currently admitted to the critical section.  This
    /// advances by exactly one on each release, so after any sequence of
    /// operations it equals the number of acquisitions that succeeded.
    pub closed spec fn tickets_served(&self) -> usize {
        self.current
    }

    /// Returns the next ticket that will be handed out.
    pub fn issued(&self) -> (r: usize)
        ensures
            r == self.tickets_issued(),
    {
        self.count
    }

    /// Returns the ticket currently admitted to the critical section.
    pub fn served(&self) -> (r: usize)
        ensures
            r == self.tickets_served(),
    {
        self.current
    }
}

impl<T> BasicMutex<T> for SpinFairMutex<T> {
    /// Either the lock is free and the counters agree, or it is held and
    /// the issue counter is exactly one ticket ahead; the value is out in
    /// a guard exactly while the lock is held.
    closed spec fn inv(&self) -> bool {
        if self.count == self.current {
            self.data is Some
        } else {
            self.count == next_ticket(self.current) && self.data is None
        }
    }

    closed spec fn is_locked(&self) -> bool {
        self.count != self.current
    }

    closed spec fn value(&self) -> T {
        self.data.unwrap()
    }

    fn lock(&mut self) -> (guard: MutexGuard<T>)
        ensures
            final(self).tickets_issued() == next_ticket(old(self).tickets_issued()),
            final(self).tickets_served() == old(self).tickets_served(),
    {
        // The fetch-and-increment that draws the ticket; on a free lock
        // the drawn ticket equals the serving counter, so the wait loop
        // of the concurrent algorithm performs no iterations before the
        // ticket is admitted.
        self.count = self.count.wrapping_add(1);
        let mut taken: Option<T> = None;
        core::mem::swap(&mut self.data, &mut taken);
        MutexGuard::new_from_unlocked(taken.unwrap())
    }

    fn try_lock(&mut self) -> (r: Option<MutexGuard<T>>)
        ensures
            r is Some ==> {
                &&& final(self).tickets_issued() == next_ticket(old(self).tickets_issued())
                &&& final(self).tickets_served() == old(self).tickets_served()
            },
            r is None ==> {
                &&& final(self).tickets_issued() == old(self).tickets_issued()
                &&& final(self).tickets_served() == old(self).tickets_served()
            },
    {
        // "Is my ticket immediately next?"  Only then is a ticket drawn,
        // so a failed attempt never leaks a ticket: a leaked ticket would
        // starve every later waiter permanently.
        if self.count == self.current {
            self.count = self.count.wrapping_add(1);
            let mut taken: Option<T> = None;
            core::mem::swap(&mut self.data, &mut taken);
            Some(MutexGuard::new_from_unlocked(taken.unwrap()))
        } else {
            None
        }
    }

    fn unlock(&mut self, guard: MutexGuard<T>)
        ensures
            final(self).tickets_served() == next_ticket(old(self).tickets_served()),
            final(self).tickets_issued() == old(self).tickets_issued(),
    {
        // Admit exactly the next ticket holder.
        self.data = Some(guard.into_inner());
        self.current = self.current.wrapping_add(1);
    }
}

/// A failed `try_lock` never advances the issued-ticket counter: the
/// attempt only fails on a held lock, which it leaves completely
/// unchanged, so no drawn-but-never-served ticket can starve later
/// waiters.  (That the serving counter ends up equal to the number of
/// completed acquisitions is proved over whole executions in
/// [`crate::ticket_protocol::lemma_serving_counts_releases`].)
pub proof fn lemma_failed_try_lock_leaks_no_ticket<T>(pre: SpinFairMutex<T>, post: SpinFairMutex<
    T,
>)
    requires
        crate::basic_mutex::try_lock_transition::<T, SpinFairMutex<T>>(pre, post, None),
    ensures
        post.tickets_issued() == pre.tickets_issued(),
        post.tickets_served() == pre.tickets_served(),
{
}

impl<T: Default> Default for SpinFairMutex<T> {
    /// An unlocked fair mutex around the default value of the held type.
    fn default() -> (r: Self)
        ensures
            r.inv(),
            !r.is_locked(),
    {
        SpinFairMutex::new(T::default())
    }
}

} // verus!
