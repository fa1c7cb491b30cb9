//! The lock: its settings and its completion barrier.

use crate::acquire::Acquisition;
use crate::backoff::{default_millis, upcoming, NANOS_PER_MILLI};
use crate::barrier::{BarrierView, CompletionBarrier, Ticket};
use crate::client::{LeaseLockClient, DEFAULT_LEASE_DURATION_SEC};
use crate::error::Error;
use crate::guard::LeaseGuard;
use crate::protocol::Request;
use tokio_retry::strategy::ExponentialBackoff;
use vstd::prelude::*;

verus! {

/// A lock on one named lease record. It outlives the handles it gives out
/// and keeps count of the operations that are still under way.
pub struct LeaseLock {
    client: LeaseLockClient,
    barrier: CompletionBarrier,
}

impl LeaseLock {
    /// The settings of the lock.
    pub closed spec fn client(self) -> LeaseLockClient {
        self.client
    }

    /// The lock's ledger of operations under way.
    pub closed spec fn barrier(self) -> BarrierView {
        self.barrier@
    }

    /// The lock still waits for the ticket.
    pub closed spec fn holds(self, ticket: Ticket) -> bool {
        self.barrier.holds(ticket)
    }

    /// Settings and ledger are well formed.
    pub open spec fn wf(self) -> bool {
        &&& self.client().wf()
        &&& self.barrier().wf()
    }

    /// One more ticket can be counted in the current generation.
    pub open spec fn has_room(self) -> bool {
        self.barrier().issued[self.barrier().current() as int] < u64::MAX
    }

    /// What [`LeaseLock::acquire`] does: it issues a ticket and starts an
    /// acquisition that holds it.
    pub open spec fn acquires(
        self,
        holder_id: Seq<char>,
        acquire_timeout: Option<u128>,
        next: LeaseLock,
        acquisition: Acquisition,
        request: Request,
    ) -> bool {
        &&& next.wf()
        &&& next.client() == self.client()
        &&& next.barrier() == self.barrier().issue()
        &&& self.barrier().precedes(next.barrier())
        &&& acquisition.ticket() matches Some(ticket)
        &&& ticket.generation() == self.barrier().current()
        &&& next.holds(ticket)
        &&& self.client().starts(holder_id, acquire_timeout, ticket, acquisition, request)
    }

    /// A lock on the record `lease_name`, with a lease of 10 seconds, the
    /// default back-off (10 ms, tenfold growth, at most 1 s) and nothing
    /// under way.
    pub fn new(lease_name: String) -> (lock: LeaseLock)
        ensures
            lock.wf(),
            lock.client().lease_name == lease_name,
            lock.client().lease_duration_sec == DEFAULT_LEASE_DURATION_SEC,
            forall|n: nat| #[trigger]
                upcoming(lock.client().expo)[n] == default_millis(n) * NANOS_PER_MILLI,
            lock.barrier() == (BarrierView { issued: seq![0nat], retired: seq![0nat] }),
    {
        LeaseLock { client: LeaseLockClient::new(lease_name), barrier: CompletionBarrier::new() }
    }

    /// The same lock with a lease of `sec` seconds.
    pub fn with_lease_duration_sec(self, sec: i32) -> (lock: LeaseLock)
        requires
            self.wf(),
            sec > 0,
        ensures
            lock.wf(),
            lock.client().lease_duration_sec == sec,
            lock.client().lease_name == self.client().lease_name,
            lock.client().expo == self.client().expo,
            lock.barrier() == self.barrier(),
    {
        let mut lock = self;
        lock.client.lease_duration_sec = sec;
        lock
    }

    /// The same lock with the back-off schedule `expo`.
    pub fn with_expo_backoff(self, expo: ExponentialBackoff) -> (lock: LeaseLock)
        requires
            self.wf(),
        ensures
            lock.wf(),
            lock.client().expo == expo,
            lock.client().lease_name == self.client().lease_name,
            lock.client().lease_duration_sec == self.client().lease_duration_sec,
            lock.barrier() == self.barrier(),
    {
        let mut lock = self;
        lock.client.expo = expo;
        lock
    }

    /// The name of the record.
    pub fn lease_name(&self) -> (name: &String)
        ensures
            *name == self.client().lease_name,
    {
        &self.client.lease_name
    }

    /// The lease duration, in seconds.
    pub fn lease_duration_sec(&self) -> (sec: i32)
        ensures
            sec == self.client().lease_duration_sec,
    {
        self.client.lease_duration_sec
    }

    /// Whether settings and ledger are well formed and one more acquisition
    /// can be counted.
    pub fn can_acquire(&self) -> (b: bool)
        ensures
            b == (self.wf() && self.has_room()),
    {
        self.client.lease_duration_sec > 0 && self.barrier.is_wf() && self.barrier.can_issue()
    }

    /// Starts an acquisition for `holder_id`, with a deadline
    /// `acquire_timeout` nanoseconds from now, or none. Returns the
    /// acquisition and its first request.
    pub fn acquire(&mut self, holder_id: &str, acquire_timeout: Option<u128>) -> (started: (
        Acquisition,
        Request,
    ))
        requires
            old(self).wf(),
            old(self).has_room(),
        ensures
            old(self).acquires(holder_id@, acquire_timeout, *final(self), started.0, started.1),
    {
        let ticket = self.barrier.issue();
        self.client.acquire(holder_id, acquire_timeout, ticket)
    }

    /// Starts an acquisition that takes the lease if it is free and gives
    /// up at once if it is not: [`LeaseLock::acquire`] with a timeout of
    /// zero. Its result is to be read by [`LeaseLock::immediate`].
    pub fn try_acquire(&mut self, holder_id: &str) -> (started: (Acquisition, Request))
        requires
            old(self).wf(),
            old(self).has_room(),
        ensures
            old(self).acquires(holder_id@, Some(0u128), *final(self), started.0, started.1),
    {
        self.acquire(holder_id, Some(0))
    }

    /// Reads the result of an acquisition begun by
    /// [`LeaseLock::try_acquire`]: the deadline error means that the lease
    /// was not free, which is no error; everything else stays as it is.
    pub fn immediate(result: Result<LeaseGuard, Error>) -> (r: Result<Option<LeaseGuard>, Error>)
        ensures
            r == (match result {
                Ok(guard) => Ok::<Option<LeaseGuard>, Error>(Some(guard)),
                Err(Error::AcquireTimeout) => Ok(None),
                Err(e) => Err(e),
            }),
    {
        match result {
            Ok(guard) => Ok(Some(guard)),
            Err(e) => match e {
                Error::AcquireTimeout => Ok(None),
                _ => Err(e),
            },
        }
    }

    /// Whether the lock still waits for the ticket.
    pub fn waits_for(&self, ticket: &Ticket) -> (b: bool)
        requires
            self.wf(),
        ensures
            b == self.holds(*ticket),
    {
        self.barrier.waits_for(ticket)
    }

    /// Takes back the ticket of an operation that has ended: a release that
    /// has run, or an acquisition that has failed.
    pub fn operation_done(&mut self, ticket: Ticket)
        requires
            old(self).wf(),
            old(self).holds(ticket),
        ensures
            final(self).wf(),
            final(self).client() == old(self).client(),
            final(self).barrier() == old(self).barrier().retire(ticket.generation()),
            old(self).barrier().precedes(final(self).barrier()),
    {
        self.barrier.retire(ticket);
    }

    /// Begins the wait for all operations under way: closes the current
    /// generation of tickets, so that operations begun from now on cannot
    /// hold the wait up, and returns the generation to wait for. The wait is
    /// over when [`LeaseLock::operations_complete`] says so.
    pub fn complete_all_operations(&mut self) -> (closed: usize)
        requires
            old(self).wf(),
        ensures
            final(self).wf(),
            final(self).client() == old(self).client(),
            final(self).barrier() == old(self).barrier().rotate(),
            closed == old(self).barrier().current(),
            old(self).barrier().precedes(final(self).barrier()),
    {
        self.barrier.rotate()
    }

    /// Whether every operation of `generation` and of each earlier one has
    /// ended.
    pub fn operations_complete(&self, generation: usize) -> (b: bool)
        requires
            self.wf(),
        ensures
            b == self.barrier().drained(generation as nat),
    {
        self.barrier.drained(generation)
    }
}

} // verus!
