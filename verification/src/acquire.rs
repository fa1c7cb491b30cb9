//! The acquire loop: wait until nobody owns the lease, write our claim under
//! the version just read, and look at what came back; repeat until the lease
//! is ours, the deadline has come, or the API fails.

use crate::backoff::{next_delay, restart, upcoming};
use crate::barrier::Ticket;
use crate::client::{crosses_deadline, overwrite_result, renewal_interval, LeaseLockClient, Wait};
use crate::error::Error;
use crate::guard::LeaseGuard;
use crate::patch::overwrite_patch;
use crate::protocol::{Reply, Request};
use crate::renewal::{RenewalPhase, RenewalTask};
use crate::state::LeaseState;
use crate::time::{Stopwatch, Timestamp};
use tokio_retry::strategy::ExponentialBackoff;
use vstd::prelude::*;

verus! {

/// What the loop is waiting for.
#[derive(Debug, Clone, Copy, PartialEq, Eq, Structural)]
pub enum AcquirePhase {
    /// The record.
    Reading,
    /// The end of a back-off wait.
    Sleeping,
    /// The answer to our claim.
    Writing,
    /// Nothing: the loop has ended.
    Finished,
}

/// One run of the acquire loop, for one holder and one deadline.
pub struct AcquireLoop {
    pub client: LeaseLockClient,
    pub holder_id: String,
    /// Nanoseconds from the start of the run to its deadline; `None` for a
    /// run without deadline.
    pub timeout: Option<u128>,
    pub phase: AcquirePhase,
    /// While a claim is under way, the snapshot it is based on.
    pub base: Option<LeaseState>,
}

/// What the loop does next.
#[derive(Debug)]
pub enum Progress {
    /// Carry the request out and come back with its reply.
    Do(Request),
    /// The lease is ours; this is the record that shows it.
    Acquired(LeaseState),
    /// The run has failed.
    Failed(Error),
}

impl Progress {
    /// The loop goes on with the read of `name`.
    pub open spec fn reads(self, name: Seq<char>) -> bool {
        self matches Progress::Do(request) && request.is_get(name)
    }
}

impl AcquireLoop {
    /// The settings are well formed, and a snapshot is kept exactly while a
    /// claim is under way.
    pub open spec fn wf(self) -> bool {
        &&& self.client.wf()
        &&& self.phase == AcquirePhase::Writing <==> self.base is Some
    }

    /// The loop is waiting for a reply of this kind.
    pub open spec fn accepts(self, reply: Reply) -> bool {
        match self.phase {
            AcquirePhase::Reading => reply is Got,
            AcquirePhase::Sleeping => reply is Slept,
            AcquirePhase::Writing => reply is Applied,
            AcquirePhase::Finished => false,
        }
    }

    /// The reply shows a lease that somebody owns at `now`, so that the loop
    /// has to wait or to give up.
    pub open spec fn held(reply: Reply, now: Timestamp) -> bool {
        reply matches Reply::Got(Ok(state)) && state@.owner_at(now) is Some
    }

    /// `next` has the settings, holder and deadline of `self`.
    pub open spec fn same_run(self, next: AcquireLoop) -> bool {
        &&& next.client == self.client
        &&& next.holder_id == self.holder_id
        &&& next.timeout == self.timeout
    }

    /// One step of the loop, from `self` and `reply` to `next` and
    /// `progress`. The step is taken at the instant `now`, `elapsed`
    /// nanoseconds after the start of the run; `delay` is the wait that the
    /// back-off schedule offers.
    ///
    /// - A failed read ends the run with that failure.
    /// - A record that nobody owns at `now` is claimed: holder, both times
    ///   and duration are written under the record's version.
    /// - A record that somebody owns makes the loop wait `delay` and read
    ///   again, unless that wait would cross the deadline: then the run ends
    ///   with `AcquireTimeout`, without waiting.
    /// - After the claim, the lease is ours if the record that came back (the
    ///   one the claim was based on, after a conflict) shows our holder as
    ///   owner at `now`. If it does not, the loop starts over with a read.
    ///   Any failure but a conflict ends the run.
    pub open spec fn steps_to(
        self,
        reply: Reply,
        now: Timestamp,
        elapsed: u128,
        delay: u128,
        next: AcquireLoop,
        progress: Progress,
    ) -> bool {
        &&& self.same_run(next)
        &&& match reply {
            Reply::Got(Err(e)) => {
                &&& next.phase == AcquirePhase::Finished
                &&& next.base is None
                &&& progress == Progress::Failed(e)
            },
            Reply::Got(Ok(state)) => if state@.owner_at(now) is None {
                &&& next.phase == AcquirePhase::Writing
                &&& next.base == Some(state)
                &&& progress matches Progress::Do(request)
                &&& request.is_apply(
                    self.client.lease_name@,
                    overwrite_patch(
                        self.holder_id@,
                        state@,
                        now,
                        self.client.lease_duration_sec,
                    ),
                )
            } else if crosses_deadline(self.timeout, elapsed, delay) {
                &&& next.phase == AcquirePhase::Finished
                &&& next.base is None
                &&& progress matches Progress::Failed(Error::AcquireTimeout)
            } else {
                &&& next.phase == AcquirePhase::Sleeping
                &&& next.base is None
                &&& progress matches Progress::Do(request)
                &&& request.is_sleep(delay as nat)
            },
            Reply::Slept => {
                &&& next.phase == AcquirePhase::Reading
                &&& next.base is None
                &&& progress.reads(self.client.lease_name@)
            },
            Reply::Applied(outcome) => {
                &&& next.base is None
                &&& match overwrite_result(outcome, self.base->0) {
                    Err(e) => next.phase == AcquirePhase::Finished && progress == Progress::Failed(e),
                    Ok(state) => if state@.owner_at(now) == Some(self.holder_id@) {
                        next.phase == AcquirePhase::Finished && progress == Progress::Acquired(
                            state,
                        )
                    } else {
                        next.phase == AcquirePhase::Reading && progress.reads(
                            self.client.lease_name@,
                        )
                    },
                }
            },
        }
    }

    /// A run for `holder_id` with the settings `client`, and its first
    /// request: the read of the record.
    pub fn begin(client: LeaseLockClient, holder_id: &str, timeout: Option<u128>) -> (started: (
        AcquireLoop,
        Request,
    ))
        requires
            client.wf(),
        ensures
            started.0.wf(),
            started.0.client == client,
            started.0.holder_id@ == holder_id@,
            started.0.timeout == timeout,
            started.0.phase == AcquirePhase::Reading,
            started.1.is_get(client.lease_name@),
    {
        let request = client.get_state();
        let run = AcquireLoop {
            client,
            holder_id: holder_id.to_owned(),
            timeout,
            phase: AcquirePhase::Reading,
            base: None,
        };
        (run, request)
    }

    /// Whether the loop is waiting for a reply of this kind.
    pub fn expects(&self, reply: &Reply) -> (b: bool)
        ensures
            b == self.accepts(*reply),
    {
        match (self.phase, reply) {
            (AcquirePhase::Reading, Reply::Got(_)) => true,
            (AcquirePhase::Sleeping, Reply::Slept) => true,
            (AcquirePhase::Writing, Reply::Applied(_)) => true,
            _ => false,
        }
    }

    /// Whether the reply shows a lease that somebody owns at `now`.
    pub fn is_held(reply: &Reply, now: &Timestamp) -> (b: bool)
        ensures
            b == Self::held(*reply, *now),
    {
        match reply {
            Reply::Got(Ok(state)) => state.owner_at(now).is_some(),
            _ => false,
        }
    }

    /// Takes one step, at the instant `now`, `elapsed` nanoseconds after the
    /// start of the run, with `delay` as the wait that the back-off schedule
    /// offers.
    pub fn advance_at(&mut self, reply: Reply, now: &Timestamp, elapsed: u128, delay: u128) -> (progress:
        Progress)
        requires
            old(self).wf(),
            old(self).accepts(reply),
            now.wf(),
        ensures
            final(self).wf(),
            old(self).steps_to(reply, *now, elapsed, delay, *final(self), progress),
    {
        match reply {
            Reply::Got(Err(e)) => {
                self.phase = AcquirePhase::Finished;
                Progress::Failed(e)
            },
            Reply::Got(Ok(state)) => {
                match LeaseLockClient::wait_free(state, now, self.timeout, elapsed, delay) {
                    Wait::Free(state) => {
                        let request = self.client.try_overwrite(
                            self.holder_id.as_str(),
                            &state,
                            now,
                        );
                        self.phase = AcquirePhase::Writing;
                        self.base = Some(state);
                        Progress::Do(request)
                    },
                    Wait::Sleep(nanos) => {
                        self.phase = AcquirePhase::Sleeping;
                        Progress::Do(Request::Sleep { nanos })
                    },
                    Wait::TimedOut => {
                        self.phase = AcquirePhase::Finished;
                        Progress::Failed(Error::AcquireTimeout)
                    },
                }
            },
            Reply::Slept => {
                self.phase = AcquirePhase::Reading;
                Progress::Do(self.client.get_state())
            },
            Reply::Applied(outcome) => {
                let base = match self.base.take() {
                    Some(base) => base,
                    None => vstd::pervasive::unreached(),
                };
                match LeaseLockClient::overwritten(outcome, base) {
                    Err(e) => {
                        self.phase = AcquirePhase::Finished;
                        Progress::Failed(e)
                    },
                    Ok(state) => {
                        if state.owned_by_at(&self.holder_id, now) {
                            self.phase = AcquirePhase::Finished;
                            Progress::Acquired(state)
                        } else {
                            self.phase = AcquirePhase::Reading;
                            Progress::Do(self.client.get_state())
                        }
                    },
                }
            },
        }
    }
}

/// A handle comes into being only over a record that shows our holder as
/// owner.
pub proof fn lemma_acquired_means_owner(
    run: AcquireLoop,
    reply: Reply,
    now: Timestamp,
    elapsed: u128,
    delay: u128,
    next: AcquireLoop,
    progress: Progress,
)
    requires
        run.accepts(reply),
        run.steps_to(reply, now, elapsed, delay, next, progress),
        progress is Acquired,
    ensures
        progress matches Progress::Acquired(state) && state@.owner_at(now) == Some(run.holder_id@),
{
}

/// A claim is a write under the version of the record that the loop has just
/// read, and it is sent only when that record shows no owner.
pub proof fn lemma_claim_writes_what_it_read(
    run: AcquireLoop,
    reply: Reply,
    now: Timestamp,
    elapsed: u128,
    delay: u128,
    next: AcquireLoop,
    progress: Progress,
)
    requires
        run.accepts(reply),
        run.steps_to(reply, now, elapsed, delay, next, progress),
        progress matches Progress::Do(request) && request is Apply,
    ensures
        reply matches Reply::Got(Ok(state)) && state@.owner_at(now) is None && next.base == Some(
            state,
        ) && (progress matches Progress::Do(Request::Apply { patch, .. })
            && patch@.resource_version == state@.resource_version),
{
}

/// With a timeout of zero the loop never waits: a lease that somebody owns
/// ends the run with `AcquireTimeout` at the first look.
pub proof fn lemma_zero_timeout_never_sleeps(
    run: AcquireLoop,
    reply: Reply,
    now: Timestamp,
    elapsed: u128,
    delay: u128,
    next: AcquireLoop,
    progress: Progress,
)
    requires
        run.timeout == Some(0u128),
        run.accepts(reply),
        run.steps_to(reply, now, elapsed, delay, next, progress),
    ensures
        !(progress matches Progress::Do(request) && request is Sleep),
        AcquireLoop::held(reply, now) ==> progress matches Progress::Failed(Error::AcquireTimeout),
{
}

/// One run of the acquire loop together with what it draws on: the clocks,
/// the back-off schedule, and the ticket of the handle to be.
pub struct Acquisition {
    run: AcquireLoop,
    schedule: ExponentialBackoff,
    watch: Stopwatch,
    ticket: Option<Ticket>,
}

/// What an acquisition does next.
#[derive(Debug)]
pub enum AcquireStep {
    /// Carry the request out and come back with its reply.
    Do(Request),
    /// The lease is ours. `guard` is the handle; `renewal` is its renewal
    /// task, to be run for as long as the handle lives, beginning with the
    /// request `first`.
    Acquired { guard: LeaseGuard, renewal: RenewalTask, first: Request },
    /// The acquisition has failed; its ticket goes back to the barrier.
    Failed { error: Error, ticket: Ticket },
}

impl Acquisition {
    /// The run of the loop.
    pub closed spec fn run(self) -> AcquireLoop {
        self.run
    }

    /// The back-off schedule of the wait that is under way.
    pub closed spec fn schedule(self) -> ExponentialBackoff {
        self.schedule
    }

    /// The ticket of the handle to be; none once the acquisition has ended.
    pub closed spec fn ticket(self) -> Option<Ticket> {
        self.ticket
    }

    /// The run is well formed, and the acquisition has its ticket until it
    /// ends.
    pub open spec fn wf(self) -> bool {
        &&& self.run().wf()
        &&& self.run().phase != AcquirePhase::Finished <==> self.ticket() is Some
    }

    /// How the outcome of a step of the loop reaches the caller: a request
    /// as it is; a won lease as a handle over the record, with the
    /// acquisition's ticket and a renewal task that is about to begin its
    /// first wait; a failure together with the ticket.
    pub open spec fn hands_out(self, progress: Progress, next: Acquisition, step: AcquireStep) -> bool {
        match progress {
            Progress::Do(request) => step == AcquireStep::Do(request) && next.ticket()
                == self.ticket(),
            Progress::Acquired(state) => {
                &&& next.ticket() is None
                &&& step matches AcquireStep::Acquired { guard, renewal, first }
                &&& guard.state() == state
                &&& guard.ticket() == self.ticket()
                &&& renewal.lease_name@ == self.run().client.lease_name@
                &&& renewal.holder_id@ == self.run().holder_id@
                &&& renewal.interval == renewal_interval(self.run().client.lease_duration_sec)
                &&& renewal.phase == RenewalPhase::Sleeping
                &&& first.is_sleep(renewal.interval as nat)
            },
            Progress::Failed(e) => {
                &&& next.ticket() is None
                &&& step matches AcquireStep::Failed { error, ticket }
                &&& error == e
                &&& Some(ticket) == self.ticket()
            },
        }
    }

    /// How a step uses the back-off schedule. A look at a held lease draws
    /// the schedule's next wait, `delay`. A claim that did not win the lease
    /// starts the schedule over. Every other step leaves it alone.
    pub open spec fn draws(self, reply: Reply, now: Timestamp, delay: u128, next: Acquisition) -> bool {
        if AcquireLoop::held(reply, now) {
            &&& delay == upcoming(self.schedule())[0]
            &&& forall|n: nat| #[trigger]
                upcoming(next.schedule())[n] == upcoming(self.schedule())[(n + 1) as nat]
        } else if self.run().phase == AcquirePhase::Writing && next.run().phase
            == AcquirePhase::Reading {
            upcoming(next.schedule()) == upcoming(self.run().client.expo)
        } else {
            next.schedule() == self.schedule()
        }
    }

    /// The step that leads from `self` and `reply` to `next` and `step` when
    /// the clocks read `now` and `elapsed`: a step of the loop, with the wait
    /// that the schedule offers, handed out to the caller.
    pub open spec fn steps_to(
        self,
        reply: Reply,
        now: Timestamp,
        elapsed: u128,
        delay: u128,
        progress: Progress,
        next: Acquisition,
        step: AcquireStep,
    ) -> bool {
        &&& self.run().steps_to(reply, now, elapsed, delay, next.run(), progress)
        &&& self.hands_out(progress, next, step)
        &&& self.draws(reply, now, delay, next)
    }

    /// Whether the acquisition is waiting for a reply of this kind.
    pub fn expects(&self, reply: &Reply) -> (b: bool)
        ensures
            b == self.run().accepts(*reply),
    {
        self.run.expects(reply)
    }

    /// Gives the acquisition up where it stands. Returns the ticket, to be
    /// given back to the barrier, if the acquisition had not ended.
    pub fn abandon(self) -> (ticket: Option<Ticket>)
        ensures
            ticket == self.ticket(),
    {
        self.ticket
    }

    /// Takes one step. The wall clock and the time since the start are read
    /// now; the step is that of [`AcquireLoop::advance_at`] for what the
    /// clocks gave, with the wait that the back-off schedule yields.
    pub fn step(&mut self, reply: Reply) -> (step: AcquireStep)
        requires
            old(self).wf(),
            old(self).run().accepts(reply),
        ensures
            final(self).wf(),
            exists|now: Timestamp, elapsed: u128, delay: u128, progress: Progress|
                now.wf() && #[trigger] old(self).steps_to(
                    reply,
                    now,
                    elapsed,
                    delay,
                    progress,
                    *final(self),
                    step,
                ),
    {
        let now = Timestamp::now();
        let elapsed = self.watch.elapsed_nanos();
        let delay = if AcquireLoop::is_held(&reply, &now) {
            next_delay(&mut self.schedule)
        } else {
            0
        };
        let claimed = self.run.phase == AcquirePhase::Writing;
        let progress = self.run.advance_at(reply, &now, elapsed, delay);
        let ghost handed = progress;
        let step = match progress {
            Progress::Do(request) => {
                if claimed {
                    self.schedule = restart(&self.run.client.expo);
                }
                AcquireStep::Do(request)
            },
            Progress::Acquired(state) => {
                let ticket = match self.ticket.take() {
                    Some(ticket) => ticket,
                    None => vstd::pervasive::unreached(),
                };
                let (renewal, first) = self.run.client.schedule_renewal(self.run.holder_id.clone());
                AcquireStep::Acquired { guard: LeaseGuard::new(state, ticket), renewal, first }
            },
            Progress::Failed(error) => {
                let ticket = match self.ticket.take() {
                    Some(ticket) => ticket,
                    None => vstd::pervasive::unreached(),
                };
                AcquireStep::Failed { error, ticket }
            },
        };
        assert(old(self).steps_to(reply, now, elapsed, delay, handed, *self, step));
        step
    }
}

impl LeaseLockClient {
    /// Starts an acquisition for `holder_id`. The deadline lies
    /// `acquire_timeout` nanoseconds after this call; with `None` there is
    /// none. `completion` is the ticket of the handle to be. Returns the
    /// acquisition and its first request, the read of the record.
    pub fn acquire(&self, holder_id: &str, acquire_timeout: Option<u128>, completion: Ticket) -> (started:
        (Acquisition, Request))
        requires
            self.wf(),
        ensures
            self.starts(holder_id@, acquire_timeout, completion, started.0, started.1),
    {
        let (run, request) = AcquireLoop::begin(self.duplicate(), holder_id, acquire_timeout);
        let acquisition = Acquisition {
            run,
            schedule: restart(&self.expo),
            watch: Stopwatch::start(),
            ticket: Some(completion),
        };
        (acquisition, request)
    }

    /// What [`LeaseLockClient::acquire`] returns: an acquisition with these
    /// settings, for this holder and deadline, that holds the ticket, has
    /// the whole back-off schedule before it and waits for the record; and
    /// the read of the record.
    pub open spec fn starts(
        self,
        holder_id: Seq<char>,
        acquire_timeout: Option<u128>,
        completion: Ticket,
        acquisition: Acquisition,
        request: Request,
    ) -> bool {
        &&& acquisition.wf()
        &&& acquisition.run().client.lease_name@ == self.lease_name@
        &&& acquisition.run().client.lease_duration_sec == self.lease_duration_sec
        &&& upcoming(acquisition.run().client.expo) == upcoming(self.expo)
        &&& upcoming(acquisition.schedule()) == upcoming(self.expo)
        &&& acquisition.run().holder_id@ == holder_id
        &&& acquisition.run().timeout == acquire_timeout
        &&& acquisition.run().phase == AcquirePhase::Reading
        &&& acquisition.ticket() == Some(completion)
        &&& request.is_get(self.lease_name@)
    }
}

} // verus!
