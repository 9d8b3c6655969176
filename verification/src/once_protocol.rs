//! The one-time-initialization race, modelled as a transition system and
//! proved to have at most one winner.
//!
//! The executable cell in [`crate::spin_once`] is verified sequentially.
//! The claim that matters under concurrency — with any number of callers
//! racing on `get_or_init`, the producer runs at most once and every
//! caller observes the same resulting value — is about interleavings, so
//! it is stated here over an abstract protocol: the cell's progress flag
//! moves `Empty -> Filling -> Full`, the `Empty -> Filling` transition is
//! a compare-and-swap that only one caller can win, and only the winner
//! installs a value.
//!
//! The proved guarantees, over every execution of the protocol:
//!
//! - the begin-filling transition fires at most once in any execution, so
//!   the producer runs at most once ([`lemma_producer_runs_at_most_once`]);
//! - the value is installed by the caller that won the race
//!   ([`lemma_installer_is_winner`]);
//! - once full, the cell never changes again, so every caller observes
//!   the same resulting value ([`lemma_full_is_stable`]).

use vstd::prelude::*;

verus! {

/// The progress of one once-cell, together with the installed value.
pub enum CellPhase<T> {
    /// Not yet initialized.
    Empty,
    /// The named caller won the compare-and-swap from `Empty` and is
    /// running the producer.
    Filling { winner: int },
    /// The named caller installed the value; the cell is immutable from
    /// here on through the shared-access interface.
    Full { winner: int, value: T },
}

/// One step of the protocol, naming the caller that moves.
pub enum OnceStep<T> {
    /// The caller wins the compare-and-swap from `Empty` to `Filling`.
    Begin { who: int },
    /// The winning caller finishes the producer and publishes its result
    /// with a release-ordered store of `Full`.
    Install { who: int, value: T },
}

/// The transition relation of the protocol.
pub open spec fn once_next<T>(pre: CellPhase<T>, step: OnceStep<T>, post: CellPhase<T>) -> bool {
    match step {
        OnceStep::Begin { who } => pre is Empty && post == CellPhase::<T>::Filling { winner: who },
        OnceStep::Install { who, value } => pre matches CellPhase::Filling { winner } && winner
            == who && post == CellPhase::<T>::Full { winner: who, value },
    }
}

/// A finite execution of the protocol: `phases` is one longer than
/// `steps`, and each step relates consecutive phases.
pub open spec fn is_once_execution<T>(phases: Seq<CellPhase<T>>, steps: Seq<OnceStep<T>>) -> bool {
    &&& phases.len() == steps.len() + 1
    &&& forall|k: int|
        0 <= k < steps.len() ==> once_next(phases[k], #[trigger] steps[k], phases[k + 1])
}

/// Once the cell has left `Empty` it never returns there: there is no
/// transition back.
pub proof fn lemma_nonempty_is_stable<T>(
    phases: Seq<CellPhase<T>>,
    steps: Seq<OnceStep<T>>,
    a: int,
    b: int,
)
    requires
        is_once_execution(phases, steps),
        0 <= a <= b < phases.len(),
        !(phases[a] is Empty),
    ensures
        !(phases[b] is Empty),
    decreases b - a,
{
    if a < b {
        assert(once_next(phases[a], steps[a], phases[a + 1]));
        lemma_nonempty_is_stable(phases, steps, a + 1, b);
    }
}

/// The producer runs at most once: the begin-filling transition, which is
/// what starts a producer, fires at most once in any execution, whoever
/// the contending callers are.
pub proof fn lemma_producer_runs_at_most_once<T>(
    phases: Seq<CellPhase<T>>,
    steps: Seq<OnceStep<T>>,
    m: int,
    n: int,
)
    requires
        is_once_execution(phases, steps),
        0 <= m < steps.len(),
        0 <= n < steps.len(),
        steps[m] is Begin,
        steps[n] is Begin,
    ensures
        m == n,
{
    if m < n {
        assert(once_next(phases[m], steps[m], phases[m + 1]));
        lemma_nonempty_is_stable(phases, steps, m + 1, n);
        assert(once_next(phases[n], steps[n], phases[n + 1]));
    }
    if n < m {
        assert(once_next(phases[n], steps[n], phases[n + 1]));
        lemma_nonempty_is_stable(phases, steps, n + 1, m);
        assert(once_next(phases[m], steps[m], phases[m + 1]));
    }
}

/// The value is installed by the caller that won the race: an install
/// step is taken by the winner recorded in the `Filling` phase.
pub proof fn lemma_installer_is_winner<T>(
    phases: Seq<CellPhase<T>>,
    steps: Seq<OnceStep<T>>,
    k: int,
)
    requires
        is_once_execution(phases, steps),
        0 <= k < steps.len(),
        steps[k] is Install,
    ensures
        phases[k] matches CellPhase::Filling { winner } && steps[k]->Install_who == winner,
{
    assert(once_next(phases[k], steps[k], phases[k + 1]));
}

/// Once full, the cell never changes again: every caller that observes
/// the initialized cell observes the same winner and the same value.
pub proof fn lemma_full_is_stable<T>(
    phases: Seq<CellPhase<T>>,
    steps: Seq<OnceStep<T>>,
    a: int,
    b: int,
)
    requires
        is_once_execution(phases, steps),
        0 <= a <= b < phases.len(),
        phases[a] is Full,
    ensures
        phases[b] == phases[a],
    decreases b - a,
{
    if a < b {
        assert(once_next(phases[a], steps[a], phases[a + 1]));
        lemma_full_is_stable(phases, steps, a + 1, b);
    }
}

} // verus!
