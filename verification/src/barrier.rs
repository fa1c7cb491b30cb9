//! The completion barrier: a ledger of the operations that are still under
//! way, by generation.
//!
//! Every handle carries a ticket of the generation that was current when the
//! handle was asked for. The ticket is given back when the handle's release
//! has ended. To wait for all operations begun so far, close the current
//! generation first, then wait until it and all earlier ones are drained:
//! tickets issued during the wait belong to the next generation and cannot
//! hold the wait up.

use vstd::prelude::*;

verus! {

/// The right to keep one generation of the barrier open. It is given back
/// once, by [`CompletionBarrier::retire`].
#[derive(Debug)]
pub struct Ticket {
    generation: usize,
}

/// The ledger: for each generation, how many tickets were issued and how many
/// of them have come back.
#[derive(Debug)]
pub struct CompletionBarrier {
    issued: Vec<u64>,
    retired: Vec<u64>,
}

/// The mathematical content of a [`CompletionBarrier`]: both counts, by
/// generation.
pub struct BarrierView {
    pub issued: Seq<nat>,
    pub retired: Seq<nat>,
}

impl BarrierView {
    /// There is a current generation, and no generation has had more tickets
    /// come back than were issued.
    pub open spec fn wf(self) -> bool {
        &&& self.issued.len() == self.retired.len()
        &&& self.issued.len() >= 1
        &&& forall|g: int| 0 <= g < self.issued.len() ==> self.retired[g] <= self.issued[g]
    }

    /// The generation that new tickets belong to.
    pub open spec fn current(self) -> nat {
        (self.issued.len() - 1) as nat
    }

    /// Tickets of generation `g` that have not come back.
    pub open spec fn outstanding(self, g: nat) -> int {
        self.issued[g as int] - self.retired[g as int]
    }

    /// Every ticket of `generation` and of each earlier one has come back.
    pub open spec fn drained(self, generation: nat) -> bool {
        forall|g: int| 0 <= g <= generation && g < self.issued.len() ==> self.retired[g] == self.issued[g]
    }

    /// The ledger after one more ticket of the current generation.
    pub open spec fn issue(self) -> BarrierView {
        BarrierView {
            issued: self.issued.update(self.current() as int, self.issued[self.current() as int] + 1),
            retired: self.retired,
        }
    }

    /// The ledger after a ticket of generation `g` has come back.
    pub open spec fn retire(self, g: nat) -> BarrierView {
        BarrierView {
            issued: self.issued,
            retired: self.retired.update(g as int, self.retired[g as int] + 1),
        }
    }

    /// The ledger after the current generation was closed and a new one
    /// opened.
    pub open spec fn rotate(self) -> BarrierView {
        BarrierView { issued: self.issued.push(0), retired: self.retired.push(0) }
    }

    /// `later` can come after `self`: generations are only added, counts only
    /// grow, and a closed generation gets no new tickets.
    pub open spec fn precedes(self, later: BarrierView) -> bool {
        &&& self.issued.len() <= later.issued.len()
        &&& forall|g: int|
            0 <= g < self.issued.len() ==> {
                &&& self.issued[g] <= later.issued[g]
                &&& self.retired[g] <= later.retired[g]
                &&& (g < self.current() ==> self.issued[g] == later.issued[g])
            }
    }
}

impl Ticket {
    /// The generation that the ticket keeps open.
    pub closed spec fn generation(self) -> nat {
        self.generation as nat
    }
}

impl View for CompletionBarrier {
    type V = BarrierView;

    closed spec fn view(&self) -> BarrierView {
        BarrierView {
            issued: self.issued@.map_values(|n: u64| n as nat),
            retired: self.retired@.map_values(|n: u64| n as nat),
        }
    }
}

impl CompletionBarrier {
    /// The ledger is well formed.
    pub open spec fn wf(self) -> bool {
        self@.wf()
    }

    /// The ticket is one that this ledger still waits for.
    pub open spec fn holds(self, ticket: Ticket) -> bool {
        &&& ticket.generation() < self@.issued.len()
        &&& self@.outstanding(ticket.generation()) > 0
    }

    /// A ledger with one generation and no tickets.
    pub fn new() -> (barrier: CompletionBarrier)
        ensures
            barrier.wf(),
            barrier@ == (BarrierView { issued: seq![0nat], retired: seq![0nat] }),
    {
        let mut issued: Vec<u64> = Vec::new();
        issued.push(0);
        let mut retired: Vec<u64> = Vec::new();
        retired.push(0);
        let barrier = CompletionBarrier { issued, retired };
        assert(barrier@.issued =~= seq![0nat]);
        assert(barrier@.retired =~= seq![0nat]);
        barrier
    }

    /// Whether the ledger is well formed.
    pub fn is_wf(&self) -> (b: bool)
        ensures
            b == self.wf(),
    {
        if self.issued.len() != self.retired.len() || self.issued.len() < 1 {
            return false;
        }
        let mut g: usize = 0;
        while g < self.issued.len()
            invariant
                self.issued.len() == self.retired.len(),
                g <= self.issued.len(),
                forall|k: int| 0 <= k < g ==> self@.retired[k] <= self@.issued[k],
            decreases self.issued.len() - g,
        {
            if self.retired[g] > self.issued[g] {
                assert(self@.retired[g as int] > self@.issued[g as int]);
                return false;
            }
            g = g + 1;
        }
        true
    }

    /// Whether one more ticket can be counted.
    pub fn can_issue(&self) -> (b: bool)
        requires
            self.wf(),
        ensures
            b == (self@.issued[self@.current() as int] < u64::MAX),
    {
        let current = self.issued.len() - 1;
        self.issued[current] < u64::MAX
    }

    /// Issues a ticket of the current generation.
    pub fn issue(&mut self) -> (ticket: Ticket)
        requires
            old(self).wf(),
            old(self)@.issued[old(self)@.current() as int] < u64::MAX,
        ensures
            final(self).wf(),
            final(self)@ == old(self)@.issue(),
            ticket.generation() == old(self)@.current(),
            final(self).holds(ticket),
            old(self)@.precedes(final(self)@),
    {
        let current = self.issued.len() - 1;
        let count = self.issued[current];
        self.issued.set(current, count + 1);
        assert(self@.issued =~= old(self)@.issue().issued);
        Ticket { generation: current }
    }

    /// Whether the ledger still waits for the ticket.
    pub fn waits_for(&self, ticket: &Ticket) -> (b: bool)
        requires
            self.wf(),
        ensures
            b == self.holds(*ticket),
    {
        ticket.generation < self.issued.len() && self.retired[ticket.generation]
            < self.issued[ticket.generation]
    }

    /// Takes a ticket back: the operation it stood for has ended.
    pub fn retire(&mut self, ticket: Ticket)
        requires
            old(self).wf(),
            old(self).holds(ticket),
        ensures
            final(self).wf(),
            final(self)@ == old(self)@.retire(ticket.generation()),
            old(self)@.precedes(final(self)@),
    {
        let count = self.retired[ticket.generation];
        self.retired.set(ticket.generation, count + 1);
        assert(self@.retired =~= old(self)@.retire(ticket.generation()).retired);
    }

    /// Closes the current generation and opens the next. Returns the closed
    /// one: the generation to wait for.
    pub fn rotate(&mut self) -> (closed: usize)
        requires
            old(self).wf(),
        ensures
            final(self).wf(),
            final(self)@ == old(self)@.rotate(),
            closed == old(self)@.current(),
            old(self)@.precedes(final(self)@),
    {
        let closed = self.issued.len() - 1;
        self.issued.push(0);
        self.retired.push(0);
        assert(self@.issued =~= old(self)@.rotate().issued);
        assert(self@.retired =~= old(self)@.rotate().retired);
        closed
    }

    /// Whether every ticket of `generation` and of each earlier one has come
    /// back.
    pub fn drained(&self, generation: usize) -> (b: bool)
        requires
            self.wf(),
        ensures
            b == self@.drained(generation as nat),
    {
        let mut g: usize = 0;
        while g < self.issued.len() && g <= generation
            invariant
                self.wf(),
                g <= self.issued.len(),
                forall|k: int| 0 <= k < g ==> self@.retired[k] == self@.issued[k],
            decreases self.issued.len() - g,
        {
            if self.retired[g] != self.issued[g] {
                assert(self@.retired[g as int] != self@.issued[g as int]);
                return false;
            }
            g = g + 1;
        }
        true
    }
}

/// One ledger can follow another through any number of steps.
pub proof fn lemma_precedes_is_transitive(a: BarrierView, b: BarrierView, c: BarrierView)
    requires
        a.precedes(b),
        b.precedes(c),
    ensures
        a.precedes(c),
{
}

/// In a history of ledgers in which each can follow the one before, each can
/// follow the first.
pub proof fn lemma_history_follows_its_start(history: Seq<BarrierView>, k: int)
    requires
        0 <= k < history.len(),
        forall|i: int| 0 <= i < history.len() - 1 ==> (#[trigger] history[i]).precedes(history[i + 1]),
    ensures
        history[0].precedes(history[k]),
    decreases k,
{
    if k > 0 {
        lemma_history_follows_its_start(history, k - 1);
        assert(history[k - 1].precedes(history[k - 1 + 1]));
        lemma_precedes_is_transitive(history[0], history[k - 1], history[k]);
    }
}

/// Close, then wait. `before` is the ledger when the wait is asked for;
/// `history` holds the ledgers from the closing of the current generation
/// onwards, through whatever tickets are issued and given back meanwhile.
/// Once the closed generation and all before it are drained, every ticket
/// that had been issued when the wait was asked for has come back.
pub proof fn lemma_barrier_completeness(before: BarrierView, history: Seq<BarrierView>, g: nat)
    requires
        before.wf(),
        history.len() >= 1,
        history[0] == before.rotate(),
        forall|i: int| 0 <= i < history.len() - 1 ==> (#[trigger] history[i]).precedes(history[i + 1]),
        history.last().issued.len() == history.last().retired.len(),
        history.last().drained(before.current()),
        g <= before.current(),
    ensures
        history.last().retired[g as int] == before.issued[g as int],
{
    lemma_history_follows_its_start(history, history.len() - 1);
    let rotated = before.rotate();
    let after = history.last();
    assert(rotated.precedes(after));
    assert(rotated.issued[g as int] == before.issued[g as int]);
    assert(g < rotated.current());
}

} // verus!
