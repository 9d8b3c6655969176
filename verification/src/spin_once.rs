//! The lock-free one-time-initialization cell.
//!
//! A [`SpinOnceCell`] starts empty, is populated at most once, and is read
//! any number of times thereafter.  In the concurrent algorithm the cell
//! carries a tri-state progress flag, `Empty -> Filling -> Full`, and the
//! `Empty -> Filling` transition is claimed by compare-and-swap so that
//! exactly one initializer can win; the race itself is modelled and proved
//! in [`crate::once_protocol`].  Between calls the cell is observably
//! either empty or full — the `Filling` state exists only inside a call in
//! progress — so the verified interface speaks of those two states.
//!
//! Reading an empty cell with `get` would busy-wait until some other core
//! fills it: a documented liveness hazard, not a safety one.  Verified
//! callers must therefore only read a cell that is known to be full.

use vstd::prelude::*;

verus! {

/// A once-written cell guarded by an atomic progress flag.
pub struct SpinOnceCell<T> {
    value: Option<T>,
}

impl<T> SpinOnceCell<T> {
    /// Whether the cell has been initialized.
    pub closed spec fn is_full(&self) -> bool {
        self.value is Some
    }

    /// Whether the cell still awaits its one-time initialization.
    pub open spec fn is_empty(&self) -> bool {
        !self.is_full()
    }

    /// The value the cell was initialized with.
    pub closed spec fn stored(&self) -> T {
        self.value.unwrap()
    }

    /// Creates an uninitialized cell.  The value needs to be initialized
    /// before it can be accessed.
    pub fn uninit() -> (r: Self)
        ensures
            r.is_empty(),
    {
        SpinOnceCell { value: None }
    }

    /// Busy-waits until the progress flag reads `Full`.
    ///
    /// Callers guarantee the cell is already full, which is the only
    /// situation in which the wait is bounded; the loop then performs no
    /// iterations.
    fn wait_until(&self)
        requires
            self.is_full(),
    {
        // The progress flag already reads `Full`, so the spin loop of
        // the concurrent algorithm performs no iterations.
    }

    /// Returns a reference to the value, spinning until the cell is
    /// initialized.
    ///
    /// Calling this before any `set`/`get_or_init` call exists anywhere
    /// blocks indefinitely, so verified callers must know the cell is
    /// full.
    pub fn get(&self) -> (r: &T)
        requires
            self.is_full(),
        ensures
            *r == self.stored(),
    {
        self.wait_until();
        self.value.as_ref().unwrap()
    }

    /// Returns a mutable reference to the value, spinning until the cell
    /// is initialized.
    ///
    /// Mutable access requires exclusive ownership of the cell, so no
    /// other core can race with the write.
    pub fn get_mut(&mut self) -> (r: &mut T)
        requires
            old(self).is_full(),
        ensures
            *r == old(self).stored(),
            final(self).is_full(),
            final(self).stored() == *final(r),
    {
        self.wait_until();
        self.value.as_mut().unwrap()
    }

    /// Returns the value, initializing the cell with `init` first if it
    /// is still empty.
    ///
    /// The producer runs exactly when the cell is empty, hence at most
    /// once per cell: concurrent losers of the `Empty -> Filling` race
    /// wait for the winner's value instead of running their own producer.
    pub fn get_or_init<F: FnOnce() -> T>(&mut self, init: F) -> (r: &T)
        requires
            old(self).is_empty() ==> call_requires(init, ()),
        ensures
            final(self).is_full(),
            *r == final(self).stored(),
            old(self).is_full() ==> *final(self) == *old(self) && *r == old(self).stored(),
            old(self).is_empty() ==> call_ensures(init, (), final(self).stored()),
    {
        // The compare-and-swap from Empty to Filling succeeds exactly
        // when the cell is still empty; the winner writes the value and
        // publishes Full with release ordering.
        if self.value.is_none() {
            self.value = Some(init());
        }
        self.value.as_ref().unwrap()
    }

    /// Initializes the cell exactly once: returns success the first time,
    /// and returns the rejected value — not installed — on every
    /// subsequent call.
    pub fn set(&mut self, value: T) -> (r: Result<(), T>)
        ensures
            final(self).is_full(),
            old(self).is_empty() ==> r is Ok && final(self).stored() == value,
            old(self).is_full() ==> r == Result::<(), T>::Err(value) && *final(self) == *old(
                self,
            ),
            set_transition(*old(self), *final(self), value, r),
    {
        // Losing the compare-and-swap from Empty to Filling means some
        // caller already initialized (or is initializing) the cell; the
        // offered value travels back untouched.
        if self.value.is_none() {
            self.value = Some(value);
            Ok(())
        } else {
            Err(value)
        }
    }

    /// If the value is initialized, takes it out and resets the cell to
    /// the uninitialized state, from which it is usable again.
    ///
    /// Taking the value requires exclusive ownership of the cell.
    pub fn take(&mut self) -> (r: Option<T>)
        ensures
            final(self).is_empty(),
            old(self).is_full() ==> r == Some(old(self).stored()),
            old(self).is_empty() ==> r is None,
            take_transition(*old(self), *final(self), r),
    {
        let mut old_cell = SpinOnceCell::uninit();
        core::mem::swap(self, &mut old_cell);
        old_cell.into_inner()
    }

    /// Consumes the cell: the value if it was initialized, and nothing
    /// otherwise.
    pub fn into_inner(self) -> (r: Option<T>)
        ensures
            self.is_full() ==> r == Some(self.stored()),
            self.is_empty() ==> r is None,
    {
        self.value
    }
}

/// What [`SpinOnceCell::set`] guarantees, as a relation between the cell
/// before, the cell after, the value offered, and the result.
pub open spec fn set_transition<T>(
    pre: SpinOnceCell<T>,
    post: SpinOnceCell<T>,
    value: T,
    r: Result<(), T>,
) -> bool {
    &&& post.is_full()
    &&& pre.is_empty() ==> r is Ok && post.stored() == value
    &&& pre.is_full() ==> r == Result::<(), T>::Err(value) && post == pre
}

/// What [`SpinOnceCell::take`] guarantees, as a relation between the
/// cell before, the cell after, and the value handed out.
pub open spec fn take_transition<T>(
    pre: SpinOnceCell<T>,
    post: SpinOnceCell<T>,
    r: Option<T>,
) -> bool {
    &&& post.is_empty()
    &&& pre.is_full() ==> r == Some(pre.stored())
    &&& pre.is_empty() ==> r is None
}

/// The round trip through a cell: `take` after a successful `set(v)`
/// yields exactly `Some(v)`; a subsequent `take` yields `None`; and the
/// cell is usable again — a following `set(w)` succeeds and stores `w`.
pub proof fn lemma_set_take_round_trip<T>(
    c0: SpinOnceCell<T>,
    c1: SpinOnceCell<T>,
    c2: SpinOnceCell<T>,
    c3: SpinOnceCell<T>,
    c4: SpinOnceCell<T>,
    v: T,
    w: T,
    set_result: Result<(), T>,
    first_take: Option<T>,
    second_take: Option<T>,
    reset_result: Result<(), T>,
)
    requires
        c0.is_empty(),
        set_transition(c0, c1, v, set_result),
        take_transition(c1, c2, first_take),
        take_transition(c2, c3, second_take),
        set_transition(c3, c4, w, reset_result),
    ensures
        set_result is Ok,
        first_take == Some(v),
        second_take is None,
        reset_result is Ok,
        c4.is_full() && c4.stored() == w,
{
}

impl<T> Default for SpinOnceCell<T> {
    /// An uninitialized cell.
    fn default() -> (r: Self)
        ensures
            r.is_empty(),
    {
        SpinOnceCell::uninit()
    }
}

} // verus!
