//! The per-core interrupt-delivery state and the interrupt handler table.
//!
//! A [`CoreInterrupts`] value stands for the interrupt-enable state of the
//! core the code is running on.  Architecture-specific boot code owns the
//! real mask/unmask instructions and keeps this value in step with them;
//! the interrupt-safe lock decorators in [`crate::kmutex`] and
//! [`crate::konce`] take the state by mutable reference and are verified to
//! suspend delivery for exactly the duration of the critical section and to
//! restore the state that was found on entry.

use vstd::prelude::*;

verus! {

/// The interrupt-delivery state of the current core.
///
/// Suspension is scoped: [`CoreInterrupts::suspend`] reports the state it
/// replaced, and [`CoreInterrupts::restore`] reinstates exactly that state,
/// so nested suspensions unwind correctly.
pub struct CoreInterrupts {
    enabled: bool,
}

impl CoreInterrupts {
    /// Whether the core currently accepts interrupts.
    pub closed spec fn is_enabled(&self) -> bool {
        self.enabled
    }

    /// The interrupt state of a core as the boot code hands it over.
    pub fn startup(enabled: bool) -> (r: Self)
        ensures
            r.is_enabled() == enabled,
    {
        CoreInterrupts { enabled }
    }

    /// Returns whether the core currently accepts interrupts.
    pub fn enabled(&self) -> (r: bool)
        ensures
            r == self.is_enabled(),
    {
        self.enabled
    }

    /// Suspends interrupt delivery and preemption on the current core,
    /// reporting whether delivery was enabled so the caller can restore
    /// the state when its critical section ends.
    pub fn suspend(&mut self) -> (was: bool)
        ensures
            !final(self).is_enabled(),
            was == old(self).is_enabled(),
    {
        let was = self.enabled;
        self.enabled = false;
        was
    }

    /// Restores the interrupt-delivery state that a matching
    /// [`CoreInterrupts::suspend`] reported.
    pub fn restore(&mut self, was: bool)
        ensures
            final(self).is_enabled() == was,
    {
        self.enabled = was;
    }
}

/// A handler for a single interrupt, identified by the address of its
/// architecture-specific entry point.
pub type HandlerAddress = u64;

/// The handlers for the interrupts that the kernel actually cares about.
///
/// These are what goes into the interrupt descriptor table for a given
/// architecture.
#[derive(Copy, Clone)]
pub struct HALInterruptTable {
    /// The handler invoked on an integer division by zero, if one is
    /// installed.
    pub div_by_zero: Option<HandlerAddress>,
}

impl HALInterruptTable {
    /// A table with no handlers installed.
    pub fn empty() -> (r: Self)
        ensures
            r.div_by_zero is None,
    {
        HALInterruptTable { div_by_zero: None }
    }
}

} // verus!
