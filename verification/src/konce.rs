//! Interrupt-safe decorator for the one-time-initialization cell.
//!
//! Wraps a [`SpinOnceCell`] with correct interrupt/preemption handling:
//! every operation suspends interrupt delivery on the current core for its
//! own duration and restores the state found on entry before returning.
//! Other than that, the cell works exactly like the base cell.

use vstd::prelude::*;

use crate::interrupts::CoreInterrupts;
use crate::spin_once::SpinOnceCell;

verus! {

/// A [`SpinOnceCell`] whose operations are interrupt-safe on the current
/// core.
pub struct KSpinOnceCell<T> {
    inner: SpinOnceCell<T>,
}

impl<T> KSpinOnceCell<T> {
    /// Whether the cell has been initialized.
    pub closed spec fn is_full(&self) -> bool {
        self.inner.is_full()
    }

    /// Whether the cell still awaits its one-time initialization.
    pub open spec fn is_empty(&self) -> bool {
        !self.is_full()
    }

    /// The value the cell was initialized with.
    pub closed spec fn stored(&self) -> T {
        self.inner.stored()
    }

    /// Creates an uninitialized cell.  The value needs to be initialized
    /// before it can be accessed.
    pub fn uninit() -> (r: Self)
        ensures
            r.is_empty(),
    {
        KSpinOnceCell { inner: SpinOnceCell::uninit() }
    }

    /// Returns a reference to the value of an initialized cell, with
    /// interrupts suspended for the duration of the read.
    pub fn get(&self, irq: &mut CoreInterrupts) -> (r: &T)
        requires
            self.is_full(),
        ensures
            *r == self.stored(),
            final(irq).is_enabled() == old(irq).is_enabled(),
    {
        let was = irq.suspend();
        let r = self.inner.get();
        irq.restore(was);
        r
    }

    /// Returns a mutable reference to the value of an initialized cell.
    ///
    /// The interrupt state is restored before the reference is handed
    /// out; exclusive ownership of the cell already rules out a race on
    /// the value itself.
    pub fn get_mut(&mut self, irq: &mut CoreInterrupts) -> (r: &mut T)
        requires
            old(self).is_full(),
        ensures
            *r == old(self).stored(),
            final(self).is_full(),
            final(self).stored() == *final(r),
            final(irq).is_enabled() == old(irq).is_enabled(),
    {
        let was = irq.suspend();
        irq.restore(was);
        self.inner.get_mut()
    }

    /// Returns the value, initializing the cell with `init` first if it
    /// is still empty, with interrupts suspended for the duration of the
    /// operation.
    pub fn get_or_init<F: FnOnce() -> T>(&mut self, init: F, irq: &mut CoreInterrupts) -> (r: &T)
        requires
            old(self).is_empty() ==> call_requires(init, ()),
        ensures
            final(self).is_full(),
            *r == final(self).stored(),
            old(self).is_full() ==> *final(self) == *old(self) && *r == old(self).stored(),
            old(self).is_empty() ==> call_ensures(init, (), final(self).stored()),
            final(irq).is_enabled() == old(irq).is_enabled(),
    {
        let was = irq.suspend();
        irq.restore(was);
        self.inner.get_or_init(init)
    }

    /// Initializes the cell exactly once: returns success the first time,
    /// and returns the rejected value — not installed — on every
    /// subsequent call.  Interrupts are suspended for the duration of the
    /// attempt.
    pub fn set(&mut self, value: T, irq: &mut CoreInterrupts) -> (r: Result<(), T>)
        ensures
            final(self).is_full(),
            old(self).is_empty() ==> r is Ok && final(self).stored() == value,
            old(self).is_full() ==> r == Result::<(), T>::Err(value) && *final(self) == *old(
                self,
            ),
            final(irq).is_enabled() == old(irq).is_enabled(),
    {
        let was = irq.suspend();
        let r = self.inner.set(value);
        irq.restore(was);
        r
    }

    /// If the value is initialized, takes it out and resets the cell to
    /// the uninitialized state.  Interrupts are suspended for the
    /// duration of the operation.
    pub fn take(&mut self, irq: &mut CoreInterrupts) -> (r: Option<T>)
        ensures
            final(self).is_empty(),
            old(self).is_full() ==> r == Some(old(self).stored()),
            old(self).is_empty() ==> r is None,
            final(irq).is_enabled() == old(irq).is_enabled(),
    {
        let was = irq.suspend();
        let r = self.inner.take();
        irq.restore(was);
        r
    }

    /// Consumes the cell: the value if it was initialized, and nothing
    /// otherwise.
    pub fn into_inner(self) -> (r: Option<T>)
        ensures
            self.is_full() ==> r == Some(self.stored()),
            self.is_empty() ==> r is None,
    {
        self.inner.into_inner()
    }
}

} // verus!
