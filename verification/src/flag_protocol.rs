//! The test-and-set lock protocol of the unfair spin lock, modelled as a
//! transition system and proved mutually exclusive.
//!
//! The unfair lock guards its critical section with a single flag: a
//! contender acquires by an atomic swap that succeeds only when the flag
//! was clear, and releases by clearing the flag.  The protocol makes no
//! fairness promise — any contender may win the race when the flag
//! clears — so the only interleaving-level guarantee to prove is mutual
//! exclusion: at most one contender is inside the critical section in
//! every reachable state.  The FIFO discipline of the ticket lock is the
//! subject of [`crate::ticket_protocol`].

use vstd::prelude::*;

verus! {

/// Abstract state of one flag lock and its contenders: the flag, and
/// which contenders are inside the critical section.
pub struct FlagLock {
    /// The lock flag: set exactly while some contender holds the lock.
    pub locked: bool,
    /// For each contender, whether it is inside the critical section.
    pub inside: Seq<bool>,
}

/// One step of the protocol, naming the contender that moves.
pub enum FlagStep {
    /// The contender's atomic swap observes the flag clear and sets it.
    Acquire { who: int },
    /// The contender leaves the critical section, clearing the flag.
    Release { who: int },
}

impl FlagLock {
    /// A fresh lock with `n` contenders, none inside.
    pub open spec fn init(n: nat) -> FlagLock {
        FlagLock { locked: false, inside: Seq::new(n, |i: int| false) }
    }

    /// The protocol invariant: the flag is set exactly when some
    /// contender is inside, and no two contenders are inside at once.
    pub open spec fn inv(self) -> bool {
        &&& self.locked <==> exists|i: int| 0 <= i < self.inside.len() && #[trigger] self.inside[i]
        &&& forall|i: int, j: int|
            0 <= i < self.inside.len() && 0 <= j < self.inside.len() && #[trigger] self.inside[i]
                && #[trigger] self.inside[j] ==> i == j
    }

    /// Acquisition is enabled only while the flag is clear: that is the
    /// swap succeeding.
    pub open spec fn can_acquire(self, who: int) -> bool {
        0 <= who < self.inside.len() && !self.locked && !self.inside[who]
    }

    /// The winning swap sets the flag and admits the contender.
    pub open spec fn acquire(self, who: int) -> FlagLock {
        FlagLock { locked: true, inside: self.inside.update(who, true) }
    }

    /// Only a contender inside the critical section can release.
    pub open spec fn can_release(self, who: int) -> bool {
        0 <= who < self.inside.len() && self.inside[who]
    }

    /// The release-ordered store clears the flag.
    pub open spec fn release(self, who: int) -> FlagLock {
        FlagLock { locked: false, inside: self.inside.update(who, false) }
    }

    /// The transition relation of the protocol.
    pub open spec fn next(self, step: FlagStep, post: FlagLock) -> bool {
        match step {
            FlagStep::Acquire { who } => self.can_acquire(who) && post == self.acquire(who),
            FlagStep::Release { who } => self.can_release(who) && post == self.release(who),
        }
    }

    /// A fresh lock satisfies the invariant.
    pub proof fn lemma_init_inv(n: nat)
        ensures
            FlagLock::init(n).inv(),
    {
    }

    /// Every step of the protocol preserves the invariant.
    pub proof fn lemma_next_preserves_inv(self, step: FlagStep, post: FlagLock)
        requires
            self.inv(),
            self.next(step, post),
        ensures
            post.inv(),
    {
        match step {
            FlagStep::Acquire { who } => {
                assert forall|i: int, j: int|
                    0 <= i < post.inside.len() && 0 <= j < post.inside.len()
                        && #[trigger] post.inside[i] && #[trigger] post.inside[j] implies i
                    == j by {
                    assert(i != who ==> self.inside[i]);
                    assert(j != who ==> self.inside[j]);
                }
                assert(post.inside[who]);
            },
            FlagStep::Release { who } => {
                assert forall|i: int|
                    0 <= i < post.inside.len() implies !(#[trigger] post.inside[i]) by {
                    if i != who {
                        assert(self.inside[i] && self.inside[who] ==> i == who);
                    }
                }
            },
        }
    }

    /// Mutual exclusion: in any state satisfying the invariant, at most
    /// one contender is in the critical section — two contenders both
    /// inside are the same contender.
    pub proof fn lemma_mutual_exclusion(self, i: int, j: int)
        requires
            self.inv(),
            0 <= i < self.inside.len(),
            0 <= j < self.inside.len(),
            self.inside[i],
            self.inside[j],
        ensures
            i == j,
    {
    }
}

} // verus!
