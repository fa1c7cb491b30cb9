//! The renewal task: while a handle lives, the lease is renewed at four
//! tenths of its duration; the task ends when it sees the lease in other
//! hands.

use crate::client::{renewal_interval, LeaseLockClient};
use crate::error::Error;
use crate::gateway::ApplyOutcome;
use crate::patch::renew_patch;
use crate::protocol::{Reply, Request};
use crate::time::Timestamp;
use vstd::prelude::*;

verus! {

/// What the task is waiting for.
#[derive(Debug, Clone, Copy, PartialEq, Eq, Structural)]
pub enum RenewalPhase {
    /// The end of the wait between two renewals.
    Sleeping,
    /// The record.
    Reading,
    /// The answer to a renewal.
    Writing,
    /// Nothing: the task has ended.
    Stopped,
}

/// The renewal task of one handle.
#[derive(Debug)]
pub struct RenewalTask {
    pub lease_name: String,
    pub holder_id: String,
    /// Nanoseconds between two renewals.
    pub interval: u128,
    pub phase: RenewalPhase,
}

/// What the task does next.
#[derive(Debug)]
pub enum RenewalStep {
    /// Carry `request` out and come back with its reply. `failure` is what
    /// went wrong with the work just done, to be logged; the task goes on
    /// all the same.
    Continue { request: Request, failure: Option<Error> },
    /// The lease is no longer ours, `owner` has it: the task has ended.
    Lost { owner: Option<String> },
}

/// What is to be logged after a renewal: nothing if the server took it, else
/// the failure, of which a conflict is one.
pub open spec fn renewal_failure(outcome: ApplyOutcome) -> Option<Error> {
    match outcome {
        ApplyOutcome::Applied(_) => None,
        ApplyOutcome::Conflict(failure) => Some(Error::Kube(failure)),
        ApplyOutcome::Failed(e) => Some(e),
    }
}

impl RenewalStep {
    /// The step goes on with the read of `name`, with nothing to log.
    pub open spec fn reads(self, name: Seq<char>) -> bool {
        self matches RenewalStep::Continue { request, failure } && failure is None
            && request.is_get(name)
    }

    /// The step goes on with the write of `patch` to `name`, with nothing to
    /// log.
    pub open spec fn writes(self, name: Seq<char>, patch: crate::patch::LeasePatchView) -> bool {
        self matches RenewalStep::Continue { request, failure } && failure is None
            && request.is_apply(name, patch)
    }

    /// The step goes on with a wait of `nanos`, logging `logged`.
    pub open spec fn sleeps(self, nanos: nat, logged: Option<Error>) -> bool {
        self matches RenewalStep::Continue { request, failure } && failure == logged
            && request.is_sleep(nanos)
    }
}

impl RenewalTask {
    /// The task is waiting for a reply of this kind.
    pub open spec fn accepts(self, reply: Reply) -> bool {
        match self.phase {
            RenewalPhase::Sleeping => reply is Slept,
            RenewalPhase::Reading => reply is Got,
            RenewalPhase::Writing => reply is Applied,
            RenewalPhase::Stopped => false,
        }
    }

    /// One step of the task, taken at the instant `now`: from `self` and
    /// `reply` to `next` and `step`.
    ///
    /// After the wait the record is read. If the record shows our holder as
    /// owner, the lease is renewed under the version just read; if not, the
    /// task ends. A failed read and any answer to a renewal lead back to the
    /// wait.
    pub open spec fn steps_to(self, reply: Reply, now: Timestamp, next: RenewalTask, step: RenewalStep) -> bool {
        &&& next.lease_name == self.lease_name
        &&& next.holder_id == self.holder_id
        &&& next.interval == self.interval
        &&& match reply {
            Reply::Slept => next.phase == RenewalPhase::Reading && step.reads(self.lease_name@),
            Reply::Got(Ok(state)) => if state@.owner_at(now) == Some(self.holder_id@) {
                next.phase == RenewalPhase::Writing && step.writes(
                    state@.lease_name,
                    renew_patch(state@, now),
                )
            } else {
                &&& next.phase == RenewalPhase::Stopped
                &&& step matches RenewalStep::Lost { owner }
                &&& owner.deep_view() == state@.owner_at(now)
            },
            Reply::Got(Err(e)) => next.phase == RenewalPhase::Sleeping && step.sleeps(
                self.interval as nat,
                Some(e),
            ),
            Reply::Applied(outcome) => next.phase == RenewalPhase::Sleeping && step.sleeps(
                self.interval as nat,
                renewal_failure(outcome),
            ),
        }
    }

    /// Whether the task is waiting for a reply of this kind.
    pub fn expects(&self, reply: &Reply) -> (b: bool)
        ensures
            b == self.accepts(*reply),
    {
        match (self.phase, reply) {
            (RenewalPhase::Sleeping, Reply::Slept) => true,
            (RenewalPhase::Reading, Reply::Got(_)) => true,
            (RenewalPhase::Writing, Reply::Applied(_)) => true,
            _ => false,
        }
    }

    /// Whether the task has ended.
    pub fn is_stopped(&self) -> (b: bool)
        ensures
            b == (self.phase == RenewalPhase::Stopped),
    {
        self.phase == RenewalPhase::Stopped
    }

    /// Takes one step at the instant `now`.
    pub fn advance_at(&mut self, reply: Reply, now: &Timestamp) -> (step: RenewalStep)
        requires
            old(self).accepts(reply),
            now.wf(),
        ensures
            old(self).steps_to(reply, *now, *final(self), step),
    {
        match reply {
            Reply::Slept => {
                self.phase = RenewalPhase::Reading;
                RenewalStep::Continue {
                    request: Request::Get { name: self.lease_name.clone() },
                    failure: None,
                }
            },
            Reply::Got(Ok(state)) => {
                if state.owned_by_at(&self.holder_id, now) {
                    self.phase = RenewalPhase::Writing;
                    RenewalStep::Continue {
                        request: LeaseLockClient::renew_lease(&state, now),
                        failure: None,
                    }
                } else {
                    self.phase = RenewalPhase::Stopped;
                    let owner = match state.owner_at(now) {
                        Some(owner) => Some(owner.clone()),
                        None => None,
                    };
                    RenewalStep::Lost { owner }
                }
            },
            Reply::Got(Err(e)) => {
                self.phase = RenewalPhase::Sleeping;
                RenewalStep::Continue {
                    request: Request::Sleep { nanos: self.interval },
                    failure: Some(e),
                }
            },
            Reply::Applied(outcome) => {
                self.phase = RenewalPhase::Sleeping;
                let failure = match outcome {
                    ApplyOutcome::Applied(_) => None,
                    ApplyOutcome::Conflict(failure) => Some(Error::Kube(failure)),
                    ApplyOutcome::Failed(e) => Some(e),
                };
                RenewalStep::Continue { request: Request::Sleep { nanos: self.interval }, failure }
            },
        }
    }

    /// Takes one step at the instant this machine's clock shows: the step of
    /// [`RenewalTask::advance_at`] for the instant the clock gave.
    pub fn advance(&mut self, reply: Reply) -> (step: RenewalStep)
        requires
            old(self).accepts(reply),
        ensures
            exists|now: Timestamp| now.wf() && old(self).steps_to(reply, now, *final(self), step),
    {
        let now = Timestamp::now();
        self.advance_at(reply, &now)
    }
}

impl LeaseLockClient {
    /// Starts the renewal task of a handle held by `holder_id`: the task and
    /// its first request, a wait of four tenths of the lease duration.
    pub fn schedule_renewal(&self, holder_id: String) -> (started: (RenewalTask, Request))
        requires
            self.wf(),
        ensures
            started.0.lease_name@ == self.lease_name@,
            started.0.holder_id == holder_id,
            started.0.interval == renewal_interval(self.lease_duration_sec),
            started.0.phase == RenewalPhase::Sleeping,
            started.1.is_sleep(renewal_interval(self.lease_duration_sec)),
    {
        let interval = self.renewal_interval_nanos();
        let task = RenewalTask {
            lease_name: self.lease_name.clone(),
            holder_id,
            interval,
            phase: RenewalPhase::Sleeping,
        };
        (task, Request::Sleep { nanos: interval })
    }
}

/// A renewal is a write under the version that the task has just read, and
/// it is sent only while the record shows the task's holder as owner.
pub proof fn lemma_renewal_writes_what_it_read(
    task: RenewalTask,
    reply: Reply,
    now: Timestamp,
    next: RenewalTask,
    step: RenewalStep,
)
    requires
        task.accepts(reply),
        task.steps_to(reply, now, next, step),
        step matches RenewalStep::Continue { request, .. } && request is Apply,
    ensures
        reply matches Reply::Got(Ok(state)) && state@.owner_at(now) == Some(task.holder_id@) && (
        step matches RenewalStep::Continue { request: Request::Apply { patch, .. }, .. }
            && patch@.resource_version == state@.resource_version),
{
}

/// A task that has seen the lease in other hands has ended: no reply makes
/// it go on.
pub proof fn lemma_lost_renewal_stays_stopped(
    task: RenewalTask,
    reply: Reply,
    now: Timestamp,
    next: RenewalTask,
    step: RenewalStep,
    later: Reply,
)
    requires
        task.accepts(reply),
        task.steps_to(reply, now, next, step),
        step is Lost,
    ensures
        !next.accepts(later),
{
}

} // verus!
