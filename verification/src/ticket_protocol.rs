//! The ticket-lock protocol, modelled as a transition system and proved
//! correct under arbitrary interleavings.
//!
//! The executable ticket lock in [`crate::spin_mutex`] is verified
//! sequentially: its contracts pin down what each single call does.  What a
//! sequential contract cannot express is how the protocol behaves when
//! several cores race on the same lock.  This module states the protocol
//! abstractly — a serving counter, an issue counter, and any number of
//! contenders each either idle, waiting on a drawn ticket, or inside the
//! critical section — and proves the interleaving-level guarantees over
//! every execution of the transition system:
//!
//! - mutual exclusion: at most one contender is ever in the critical
//!   section ([`TicketLock::lemma_mutual_exclusion`]);
//! - FIFO fairness: tickets are drawn in issue order and served in ticket
//!   order, so a contender that called first enters the critical section
//!   first ([`lemma_draw_order_is_ticket_order`],
//!   [`lemma_entry_order_is_ticket_order`]);
//! - the serving counter counts completed critical sections exactly
//!   ([`lemma_serving_counts_releases`]).
//!
//! Counters are modelled as unbounded naturals; the executable lock wraps
//! them at the integer width, which only matters once about `2^64`
//! contenders wait at the same time.

use vstd::prelude::*;

verus! {

/// What one contender is doing.
pub enum Contender {
    /// Not interacting with the lock.
    Idle,
    /// Holds a drawn ticket and spins until the serving counter reaches it.
    Waiting { ticket: nat },
    /// Inside the critical section, admitted on the given ticket.
    Critical { ticket: nat },
}

impl Contender {
    /// Whether the contender holds a ticket (waiting or critical).
    pub open spec fn is_active(self) -> bool {
        !(self is Idle)
    }

    /// The ticket an active contender holds.
    pub open spec fn ticket(self) -> nat {
        match self {
            Contender::Idle => 0,
            Contender::Waiting { ticket } => ticket,
            Contender::Critical { ticket } => ticket,
        }
    }
}

/// One step of the protocol, naming the contender that moves.
pub enum Step {
    /// The contender atomically fetch-and-increments the issue counter,
    /// obtaining the pre-increment value as its ticket.
    Draw { who: int },
    /// The contender observes the serving counter equal to its ticket and
    /// enters the critical section.
    Enter { who: int },
    /// The contender leaves the critical section and increments the
    /// serving counter, admitting exactly the next ticket.
    Leave { who: int },
}

/// Abstract state of one ticket lock and its contenders.
pub struct TicketLock {
    /// The ticket currently admitted to the critical section.
    pub serving: nat,
    /// The next ticket to be drawn.
    pub issued: nat,
    /// One entry per contender.
    pub contenders: Seq<Contender>,
}

impl TicketLock {
    /// A fresh lock with `n` contenders, none of which has drawn a ticket.
    pub open spec fn init(n: nat) -> TicketLock {
        TicketLock { serving: 0, issued: 0, contenders: Seq::new(n, |i: int| Contender::Idle) }
    }

    /// The protocol invariant:
    /// the serving counter never passes the issue counter; every held
    /// ticket lies in the window `[serving, issued)`; no two contenders
    /// hold the same ticket; and a contender in the critical section holds
    /// exactly the ticket being served.
    pub open spec fn inv(self) -> bool {
        &&& self.serving <= self.issued
        &&& forall|i: int|
            0 <= i < self.contenders.len() && (#[trigger] self.contenders[i]).is_active()
                ==> self.serving <= self.contenders[i].ticket() < self.issued
        &&& forall|i: int, j: int|
            0 <= i < self.contenders.len() && 0 <= j < self.contenders.len() && i != j && (
            #[trigger] self.contenders[i]).is_active() && (#[trigger] self.contenders[j]).is_active()
                ==> self.contenders[i].ticket() != self.contenders[j].ticket()
        &&& forall|i: int|
            0 <= i < self.contenders.len() && (#[trigger] self.contenders[i]) is Critical
                ==> self.contenders[i].ticket() == self.serving
    }

    /// An idle contender may draw a ticket at any time.
    pub open spec fn can_draw(self, who: int) -> bool {
        0 <= who < self.contenders.len() && self.contenders[who] is Idle
    }

    /// Drawing hands out the current issue counter and advances it.
    pub open spec fn draw(self, who: int) -> TicketLock {
        TicketLock {
            serving: self.serving,
            issued: self.issued + 1,
            contenders: self.contenders.update(
                who,
                Contender::Waiting { ticket: self.issued },
            ),
        }
    }

    /// A waiter may enter once the serving counter equals its ticket.
    pub open spec fn can_enter(self, who: int) -> bool {
        &&& 0 <= who < self.contenders.len()
        &&& self.contenders[who] matches Contender::Waiting { ticket }
        &&& self.contenders[who].ticket() == self.serving
    }

    /// Entering the critical section keeps the counters unchanged.
    pub open spec fn enter(self, who: int) -> TicketLock {
        TicketLock {
            serving: self.serving,
            issued: self.issued,
            contenders: self.contenders.update(
                who,
                Contender::Critical { ticket: self.contenders[who].ticket() },
            ),
        }
    }

    /// Only the contender inside the critical section may release.
    pub open spec fn can_leave(self, who: int) -> bool {
        0 <= who < self.contenders.len() && self.contenders[who] is Critical
    }

    /// Leaving increments the serving counter, admitting the next ticket.
    pub open spec fn leave(self, who: int) -> TicketLock {
        TicketLock {
            serving: self.serving + 1,
            issued: self.issued,
            contenders: self.contenders.update(who, Contender::Idle),
        }
    }

    /// The transition relation of the protocol.
    pub open spec fn next(self, step: Step, post: TicketLock) -> bool {
        match step {
            Step::Draw { who } => self.can_draw(who) && post == self.draw(who),
            Step::Enter { who } => self.can_enter(who) && post == self.enter(who),
            Step::Leave { who } => self.can_leave(who) && post == self.leave(who),
        }
    }

    /// A fresh lock satisfies the invariant.
    pub proof fn lemma_init_inv(n: nat)
        ensures
            TicketLock::init(n).inv(),
    {
    }

    /// Every step of the protocol preserves the invariant.
    pub proof fn lemma_next_preserves_inv(self, step: Step, post: TicketLock)
        requires
            self.inv(),
            self.next(step, post),
        ensures
            post.inv(),
    {
    }

    /// Mutual exclusion: in any state satisfying the invariant, at most
    /// one contender is in the critical section — two contenders both in
    /// the critical section are the same contender.
    pub proof fn lemma_mutual_exclusion(self, i: int, j: int)
        requires
            self.inv(),
            0 <= i < self.contenders.len(),
            0 <= j < self.contenders.len(),
            self.contenders[i] is Critical,
            self.contenders[j] is Critical,
        ensures
            i == j,
    {
    }

    /// The contender in the critical section holds the smallest ticket of
    /// all active contenders: nobody overtakes a waiter.
    pub proof fn lemma_critical_holds_smallest_ticket(self, i: int, j: int)
        requires
            self.inv(),
            0 <= i < self.contenders.len(),
            0 <= j < self.contenders.len(),
            i != j,
            self.contenders[i] is Critical,
            self.contenders[j].is_active(),
        ensures
            self.contenders[i].ticket() < self.contenders[j].ticket(),
    {
    }
}

/// A finite execution of the protocol: `states` is one longer than
/// `steps`, and each step relates consecutive states.
pub open spec fn is_execution(states: Seq<TicketLock>, steps: Seq<Step>) -> bool {
    &&& states.len() == steps.len() + 1
    &&& forall|k: int|
        0 <= k < steps.len() ==> states[k].next(#[trigger] steps[k], states[k + 1])
}

/// The invariant holds throughout every execution that starts in it.
pub proof fn lemma_execution_inv(states: Seq<TicketLock>, steps: Seq<Step>, k: int)
    requires
        is_execution(states, steps),
        states[0].inv(),
        0 <= k < states.len(),
    ensures
        states[k].inv(),
    decreases k,
{
    if k > 0 {
        lemma_execution_inv(states, steps, k - 1);
        states[k - 1].lemma_next_preserves_inv(steps[k - 1], states[k]);
    }
}

/// The serving counter never decreases along an execution.
pub proof fn lemma_serving_monotonic(states: Seq<TicketLock>, steps: Seq<Step>, a: int, b: int)
    requires
        is_execution(states, steps),
        0 <= a <= b < states.len(),
    ensures
        states[a].serving <= states[b].serving,
    decreases b - a,
{
    if a < b {
        lemma_serving_monotonic(states, steps, a, b - 1);
        assert(states[b - 1].next(steps[b - 1], states[b]));
    }
}

/// The issue counter never decreases along an execution.
pub proof fn lemma_issued_monotonic(states: Seq<TicketLock>, steps: Seq<Step>, a: int, b: int)
    requires
        is_execution(states, steps),
        0 <= a <= b < states.len(),
    ensures
        states[a].issued <= states[b].issued,
    decreases b - a,
{
    if a < b {
        lemma_issued_monotonic(states, steps, a, b - 1);
        assert(states[b - 1].next(steps[b - 1], states[b]));
    }
}

/// Tickets are drawn in issue order: of two draw steps, the earlier one
/// obtains the strictly smaller ticket.  Together with
/// [`lemma_entry_order_is_ticket_order`] this is the FIFO guarantee: the
/// contender that called first is served first.
pub proof fn lemma_draw_order_is_ticket_order(
    states: Seq<TicketLock>,
    steps: Seq<Step>,
    m: int,
    n: int,
)
    requires
        is_execution(states, steps),
        0 <= m < n < steps.len(),
        steps[m] is Draw,
        steps[n] is Draw,
    ensures
        states[m].issued < states[n].issued,
{
    lemma_issued_monotonic(states, steps, m + 1, n);
}

/// Entries happen in ticket order: if one contender enters the critical
/// section on a smaller ticket than another, it enters strictly earlier.
pub proof fn lemma_entry_order_is_ticket_order(
    states: Seq<TicketLock>,
    steps: Seq<Step>,
    m: int,
    n: int,
)
    requires
        is_execution(states, steps),
        0 <= m < steps.len(),
        0 <= n < steps.len(),
        steps[m] is Enter,
        steps[n] is Enter,
        states[m].serving < states[n].serving,
    ensures
        m < n,
{
    if n <= m {
        lemma_serving_monotonic(states, steps, n, m);
    }
}

/// Whether a step is taken by the given contender.
pub open spec fn step_by(step: Step, who: int) -> bool {
    match step {
        Step::Draw { who: w } => w == who,
        Step::Enter { who: w } => w == who,
        Step::Leave { who: w } => w == who,
    }
}

/// The number of contenders never changes along an execution.
pub proof fn lemma_contender_count_constant(
    states: Seq<TicketLock>,
    steps: Seq<Step>,
    a: int,
    b: int,
)
    requires
        is_execution(states, steps),
        0 <= a <= b < states.len(),
    ensures
        states[b].contenders.len() == states[a].contenders.len(),
    decreases b - a,
{
    if a < b {
        lemma_contender_count_constant(states, steps, a, b - 1);
        assert(states[b - 1].next(steps[b - 1], states[b]));
    }
}

/// A contender that holds a ticket keeps exactly that ticket as long as
/// every step is taken by somebody else.
pub proof fn lemma_ticket_persists(
    states: Seq<TicketLock>,
    steps: Seq<Step>,
    a: int,
    b: int,
    i: int,
)
    requires
        is_execution(states, steps),
        0 <= a <= b < states.len(),
        0 <= i < states[a].contenders.len(),
        forall|k: int| a <= k < b ==> !step_by(#[trigger] steps[k], i),
    ensures
        states[b].contenders[i] == states[a].contenders[i],
    decreases b - a,
{
    if a < b {
        lemma_ticket_persists(states, steps, a, b - 1, i);
        lemma_contender_count_constant(states, steps, a, b - 1);
        assert(states[b - 1].next(steps[b - 1], states[b]));
    }
}

/// The FIFO guarantee, end to end: if contender `i` draws its ticket
/// strictly before contender `j` draws its own, and each then enters
/// the critical section on that ticket without interacting with the
/// lock in between, `i` enters strictly before `j` — acquisition order
/// equals arrival order, for every schedule.
pub proof fn lemma_fifo(
    states: Seq<TicketLock>,
    steps: Seq<Step>,
    i: int,
    j: int,
    draw_i: int,
    draw_j: int,
    enter_i: int,
    enter_j: int,
)
    requires
        is_execution(states, steps),
        states[0].inv(),
        i != j,
        0 <= draw_i < enter_i < steps.len(),
        0 <= draw_j < enter_j < steps.len(),
        draw_i < draw_j,
        steps[draw_i] == (Step::Draw { who: i }),
        steps[draw_j] == (Step::Draw { who: j }),
        steps[enter_i] == (Step::Enter { who: i }),
        steps[enter_j] == (Step::Enter { who: j }),
        forall|k: int| draw_i < k < enter_i ==> !step_by(#[trigger] steps[k], i),
        forall|k: int| draw_j < k < enter_j ==> !step_by(#[trigger] steps[k], j),
    ensures
        enter_i < enter_j,
{
    // The ticket each contender draws is the issue counter at its draw.
    let ticket_i = states[draw_i].issued;
    let ticket_j = states[draw_j].issued;
    assert(states[draw_i].next(steps[draw_i], states[draw_i + 1]));
    assert(states[draw_j].next(steps[draw_j], states[draw_j + 1]));
    // Drawing earlier means the strictly smaller ticket.
    lemma_issued_monotonic(states, steps, draw_i + 1, draw_j);
    assert(ticket_i < ticket_j);
    // Each contender still holds its ticket when it enters, so the
    // serving counter equals the ticket at each entry.
    lemma_contender_count_constant(states, steps, draw_i, draw_i + 1);
    lemma_ticket_persists(states, steps, draw_i + 1, enter_i, i);
    assert(states[enter_i].next(steps[enter_i], states[enter_i + 1]));
    assert(states[enter_i].serving == ticket_i);
    lemma_contender_count_constant(states, steps, draw_j, draw_j + 1);
    lemma_ticket_persists(states, steps, draw_j + 1, enter_j, j);
    assert(states[enter_j].next(steps[enter_j], states[enter_j + 1]));
    assert(states[enter_j].serving == ticket_j);
    // Entries happen in ticket order.
    lemma_entry_order_is_ticket_order(states, steps, enter_i, enter_j);
}

/// Counts the release steps among the first `k` steps.
pub open spec fn leaves_before(steps: Seq<Step>, k: int) -> nat
    decreases k,
{
    if k <= 0 {
        0
    } else {
        leaves_before(steps, k - 1) + if steps[k - 1] is Leave {
            1nat
        } else {
            0nat
        }
    }
}

/// The serving counter counts completed critical sections exactly: after
/// any prefix of an execution it has advanced by precisely the number of
/// release steps in that prefix.
pub proof fn lemma_serving_counts_releases(states: Seq<TicketLock>, steps: Seq<Step>, k: int)
    requires
        is_execution(states, steps),
        0 <= k < states.len(),
    ensures
        states[k].serving == states[0].serving + leaves_before(steps, k),
    decreases k,
{
    if k > 0 {
        lemma_serving_counts_releases(states, steps, k - 1);
    }
}

} // verus!
