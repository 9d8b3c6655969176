//! Interrupt-safe decorators for the two spin locks.
//!
//! If an interrupt handler running on the current core tried to acquire a
//! lock already held by the code it preempted, the core would deadlock
//! against itself: the handler would spin forever waiting for a release
//! that can only happen after the handler returns.  The decorators close
//! this window by suspending interrupt delivery and preemption on the
//! current core before delegating to the base lock, and restoring the
//! state found on entry when the lock is released.
//!
//! The suspension is a real scoped operation over a [`CoreInterrupts`]
//! value: `lock` records the state it replaced inside the decorator, and
//! `unlock` is verified to reinstate exactly that state.  Nested
//! acquisition of the same lock instance remains a usage error (a
//! self-deadlock), excluded here by the precondition that the lock is
//! free.
//!
//! The two decorators are the hand-written expansions of one scheme, one
//! per base lock kind, conforming to the same capability set.

use vstd::prelude::*;

use crate::basic_mutex::BasicMutex;
use crate::basic_mutex::MutexGuard;
use crate::interrupts::CoreInterrupts;
use crate::spin_mutex::SpinFairMutex;
use crate::spin_mutex::SpinMutex;

verus! {

/// Wraps a [`SpinMutex`] and suspends interrupts around its critical
/// sections.  Other than that, everything true about `SpinMutex` is true
/// here.
pub struct KSpinMutex<T> {
    inner: SpinMutex<T>,
    resume: bool,
}

impl<T> KSpinMutex<T> {
    /// The structural invariant of the underlying lock.
    pub closed spec fn inv(&self) -> bool {
        self.inner.inv()
    }

    /// Whether the lock is currently held.
    pub closed spec fn is_locked(&self) -> bool {
        self.inner.is_locked()
    }

    /// The value the lock keeps while it is free.
    pub closed spec fn value(&self) -> T {
        self.inner.value()
    }

    /// The interrupt-delivery state found when the lock was taken, to be
    /// reinstated on release.  Meaningful while the lock is held.
    pub closed spec fn resume_state(&self) -> bool {
        self.resume
    }

    /// The lock is created in an unlocked state, and the value given is
    /// the initial value for the held object.
    pub fn new(value: T) -> (r: Self)
        ensures
            r.inv(),
            !r.is_locked(),
            r.value() == value,
    {
        KSpinMutex { inner: SpinMutex::new(value), resume: false }
    }

    /// Suspends interrupts on the current core, then locks the base
    /// mutex.  The state the suspension replaced is reinstated by
    /// [`KSpinMutex::unlock`].
    pub fn lock(&mut self, irq: &mut CoreInterrupts) -> (guard: MutexGuard<T>)
        requires
            old(self).inv(),
            !old(self).is_locked(),
        ensures
            final(self).inv(),
            final(self).is_locked(),
            guard@ == old(self).value(),
            !final(irq).is_enabled(),
            final(self).resume_state() == old(irq).is_enabled(),
    {
        self.resume = irq.suspend();
        self.inner.lock()
    }

    /// Attempts to lock without blocking.  Interrupts are suspended only
    /// if the attempt succeeds; a failed attempt leaves both the lock and
    /// the interrupt state untouched.
    pub fn try_lock(&mut self, irq: &mut CoreInterrupts) -> (r: Option<MutexGuard<T>>)
        requires
            old(self).inv(),
        ensures
            final(self).inv(),
            old(self).is_locked() ==> {
                &&& r is None
                &&& *final(self) == *old(self)
                &&& final(irq).is_enabled() == old(irq).is_enabled()
            },
            !old(self).is_locked() ==> {
                &&& r is Some
                &&& final(self).is_locked()
                &&& r.unwrap()@ == old(self).value()
                &&& !final(irq).is_enabled()
                &&& final(self).resume_state() == old(irq).is_enabled()
            },
    {
        match self.inner.try_lock() {
            Some(guard) => {
                self.resume = irq.suspend();
                Some(guard)
            },
            None => None,
        }
    }

    /// Unlocks the base mutex, then restores the interrupt-delivery state
    /// that was found when the lock was taken.
    pub fn unlock(&mut self, guard: MutexGuard<T>, irq: &mut CoreInterrupts)
        requires
            old(self).inv(),
            old(self).is_locked(),
        ensures
            final(self).inv(),
            !final(self).is_locked(),
            final(self).value() == guard@,
            final(irq).is_enabled() == old(self).resume_state(),
    {
        self.inner.unlock(guard);
        irq.restore(self.resume);
    }
}

impl<T: Default> Default for KSpinMutex<T> {
    /// An unlocked lock around the default value of the held type.
    fn default() -> (r: Self)
        ensures
            r.inv(),
            !r.is_locked(),
    {
        KSpinMutex::new(T::default())
    }
}

/// Wraps a [`SpinFairMutex`] and suspends interrupts around its critical
/// sections.  Other than that, everything true about `SpinFairMutex` is
/// true here.
pub struct KSpinFairMutex<T> {
    inner: SpinFairMutex<T>,
    resume: bool,
}

impl<T> KSpinFairMutex<T> {
    /// The structural invariant of the underlying lock.
    pub closed spec fn inv(&self) -> bool {
        self.inner.inv()
    }

    /// Whether the lock is currently held.
    pub closed spec fn is_locked(&self) -> bool {
        self.inner.is_locked()
    }

    /// The value the lock keeps while it is free.
    pub closed spec fn value(&self) -> T {
        self.inner.value()
    }

    /// The interrupt-delivery state found when the lock was taken, to be
    /// reinstated on release.  Meaningful while the lock is held.
    pub closed spec fn resume_state(&self) -> bool {
        self.resume
    }

    /// The lock is created in an unlocked state, and the value given is
    /// the initial value for the held object.
    pub fn new(value: T) -> (r: Self)
        ensures
            r.inv(),
            !r.is_locked(),
            r.value() == value,
    {
        KSpinFairMutex { inner: SpinFairMutex::new(value), resume: false }
    }

    /// Suspends interrupts on the current core, then locks the base
    /// mutex.  The state the suspension replaced is reinstated by
    /// [`KSpinFairMutex::unlock`].
    pub fn lock(&mut self, irq: &mut CoreInterrupts) -> (guard: MutexGuard<T>)
        requires
            old(self).inv(),
            !old(self).is_locked(),
        ensures
            final(self).inv(),
            final(self).is_locked(),
            guard@ == old(self).value(),
            !final(irq).is_enabled(),
            final(self).resume_state() == old(irq).is_enabled(),
    {
        self.resume = irq.suspend();
        self.inner.lock()
    }

    /// Attempts to lock without blocking.  Interrupts are suspended only
    /// if the attempt succeeds; a failed attempt leaves both the lock and
    /// the interrupt state untouched.
    pub fn try_lock(&mut self, irq: &mut CoreInterrupts) -> (r: Option<MutexGuard<T>>)
        requires
            old(self).inv(),
        ensures
            final(self).inv(),
            old(self).is_locked() ==> {
                &&& r is None
                &&& *final(self) == *old(self)
                &&& final(irq).is_enabled() == old(irq).is_enabled()
            },
            !old(self).is_locked() ==> {
                &&& r is Some
                &&& final(self).is_locked()
                &&& r.unwrap()@ == old(self).value()
                &&& !final(irq).is_enabled()
                &&& final(self).resume_state() == old(irq).is_enabled()
            },
    {
        match self.inner.try_lock() {
            Some(guard) => {
                self.resume = irq.suspend();
                Some(guard)
            },
            None => None,
        }
    }

    /// Unlocks the base mutex, then restores the interrupt-delivery state
    /// that was found when the lock was taken.
    pub fn unlock(&mut self, guard: MutexGuard<T>, irq: &mut CoreInterrupts)
        requires
            old(self).inv(),
            old(self).is_locked(),
        ensures
            final(self).inv(),
            !final(self).is_locked(),
            final(self).value() == guard@,
            final(irq).is_enabled() == old(self).resume_state(),
    {
        self.inner.unlock(guard);
        irq.restore(self.resume);
    }
}

impl<T: Default> Default for KSpinFairMutex<T> {
    /// An unlocked lock around the default value of the held type.
    fn default() -> (r: Self)
        ensures
            r.inv(),
            !r.is_locked(),
    {
        KSpinFairMutex::new(T::default())
    }
}

} // verus!
