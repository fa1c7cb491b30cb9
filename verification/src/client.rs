//! The settings of one lock and the requests built from them.

use crate::backoff::{default_backoff, default_millis, restart, upcoming, NANOS_PER_MILLI};
use crate::error::Error;
use crate::gateway::ApplyOutcome;
use crate::patch::{overwrite_patch, release_patch, renew_patch, LeasePatch};
use crate::protocol::Request;
use crate::state::LeaseState;
use crate::time::Timestamp;
use tokio_retry::strategy::ExponentialBackoff;
use vstd::prelude::*;

verus! {

/// Lease duration of a new lock, in seconds.
pub const DEFAULT_LEASE_DURATION_SEC: i32 = 10;

/// Nanoseconds between two renewals, for each second of lease duration: four
/// tenths of a second.
pub const RENEWAL_NANOS_PER_SEC: u64 = 400_000_000;

/// The settings of one lock: which record it is, for how long a write claims
/// it, and how a contender spaces its looks at a held lease.
pub struct LeaseLockClient {
    pub lease_name: String,
    pub lease_duration_sec: i32,
    pub expo: ExponentialBackoff,
}

/// What a wait for a free lease does after a look at the record.
#[derive(Debug)]
pub enum Wait {
    /// Nobody owns the lease: go on with this snapshot.
    Free(LeaseState),
    /// The lease is owned: look again after so many nanoseconds.
    Sleep(u128),
    /// The lease is owned and the next look would come at or after the
    /// deadline.
    TimedOut,
}

/// Whether a wait of `delay` nanoseconds, begun `elapsed` nanoseconds after
/// the start, ends at or after the deadline `timeout` nanoseconds after the
/// start. Without a timeout there is no deadline.
pub open spec fn crosses_deadline(timeout: Option<u128>, elapsed: u128, delay: u128) -> bool {
    timeout matches Some(limit) && elapsed + delay >= limit
}

/// What the lease looks like after the write that takes it, based on the
/// snapshot `lease_state`: the record the server answered with; after a
/// conflict the snapshot itself, unchanged; after any other failure, that
/// failure.
pub open spec fn overwrite_result(outcome: ApplyOutcome, lease_state: LeaseState) -> Result<
    LeaseState,
    Error,
> {
    match outcome {
        ApplyOutcome::Applied(state) => Ok(state),
        ApplyOutcome::Conflict(_) => Ok(lease_state),
        ApplyOutcome::Failed(e) => Err(e),
    }
}

/// The time between two renewals of a lease of `lease_duration_sec` seconds,
/// in nanoseconds: four tenths of the duration.
pub open spec fn renewal_interval(lease_duration_sec: i32) -> nat {
    (lease_duration_sec as nat) * (RENEWAL_NANOS_PER_SEC as nat)
}

impl LeaseLockClient {
    /// The lease duration is a positive number of seconds.
    pub open spec fn wf(self) -> bool {
        self.lease_duration_sec > 0
    }

    /// The settings of a new lock on the record `lease_name`: a lease of 10
    /// seconds and the default back-off.
    pub fn new(lease_name: String) -> (client: LeaseLockClient)
        ensures
            client.wf(),
            client.lease_name == lease_name,
            client.lease_duration_sec == DEFAULT_LEASE_DURATION_SEC,
            forall|n: nat| #[trigger]
                upcoming(client.expo)[n] == default_millis(n) * NANOS_PER_MILLI,
    {
        LeaseLockClient {
            lease_name,
            lease_duration_sec: DEFAULT_LEASE_DURATION_SEC,
            expo: default_backoff(),
        }
    }

    /// A copy of the settings: the same record, the same duration, and a
    /// back-off that yields the same waits.
    pub fn duplicate(&self) -> (copy: LeaseLockClient)
        ensures
            copy.lease_name@ == self.lease_name@,
            copy.lease_duration_sec == self.lease_duration_sec,
            upcoming(copy.expo) == upcoming(self.expo),
    {
        LeaseLockClient {
            lease_name: self.lease_name.clone(),
            lease_duration_sec: self.lease_duration_sec,
            expo: restart(&self.expo),
        }
    }

    /// The read of the lock's record.
    pub fn get_state(&self) -> (request: Request)
        ensures
            request.is_get(self.lease_name@),
    {
        Request::Get { name: self.lease_name.clone() }
    }

    /// After a look at a record: go on if nobody owns the lease at `now`;
    /// else wait `delay` nanoseconds, unless that wait would cross the
    /// deadline.
    pub fn wait_free(
        lease_state: LeaseState,
        now: &Timestamp,
        timeout: Option<u128>,
        elapsed: u128,
        delay: u128,
    ) -> (wait: Wait)
        ensures
            match wait {
                Wait::Free(state) => state == lease_state && lease_state@.owner_at(*now) is None,
                Wait::Sleep(nanos) => lease_state@.owner_at(*now) is Some && !crosses_deadline(
                    timeout,
                    elapsed,
                    delay,
                ) && nanos == delay,
                Wait::TimedOut => lease_state@.owner_at(*now) is Some && crosses_deadline(
                    timeout,
                    elapsed,
                    delay,
                ),
            },
    {
        if lease_state.owner_at(now).is_none() {
            return Wait::Free(lease_state);
        }
        let crosses = match timeout {
            Some(limit) => elapsed >= limit || delay >= limit - elapsed,
            None => false,
        };
        if crosses {
            Wait::TimedOut
        } else {
            Wait::Sleep(delay)
        }
    }

    /// The write that takes the lease for `holder_id`, based on the snapshot
    /// `lease_state`: holder, acquire time, renew time and duration, under the
    /// snapshot's version.
    pub fn try_overwrite(&self, holder_id: &str, lease_state: &LeaseState, now: &Timestamp) -> (request:
        Request)
        requires
            now.wf(),
        ensures
            request.is_apply(
                self.lease_name@,
                overwrite_patch(holder_id@, lease_state@, *now, self.lease_duration_sec),
            ),
    {
        Request::Apply {
            name: self.lease_name.clone(),
            patch: LeasePatch::overwrite(holder_id, lease_state, now, self.lease_duration_sec),
        }
    }

    /// What the lease looks like after the write of
    /// [`LeaseLockClient::try_overwrite`]: the record the server answered
    /// with; after a conflict the snapshot the write was based on, unchanged;
    /// after any other failure, that failure.
    pub fn overwritten(outcome: ApplyOutcome, lease_state: LeaseState) -> (r: Result<
        LeaseState,
        Error,
    >)
        ensures
            r == overwrite_result(outcome, lease_state),
    {
        match outcome {
            ApplyOutcome::Applied(state) => Ok(state),
            ApplyOutcome::Conflict(_) => Ok(lease_state),
            ApplyOutcome::Failed(e) => Err(e),
        }
    }

    /// The write that renews the lease at `now`, based on the snapshot
    /// `lease_state`: the renew time and the snapshot's holder, under the
    /// snapshot's name and version.
    pub fn renew_lease(lease_state: &LeaseState, now: &Timestamp) -> (request: Request)
        requires
            now.wf(),
        ensures
            request.is_apply(lease_state@.lease_name, renew_patch(lease_state@, *now)),
    {
        Request::Apply {
            name: lease_state.lease_name.clone(),
            patch: LeasePatch::renew(lease_state, now),
        }
    }

    /// The time between two renewals, in nanoseconds.
    pub fn renewal_interval_nanos(&self) -> (nanos: u128)
        requires
            self.wf(),
        ensures
            nanos == renewal_interval(self.lease_duration_sec),
    {
        assert(self.lease_duration_sec as nat * (RENEWAL_NANOS_PER_SEC as nat) <= 0x7fff_ffff
            * 400_000_000) by (nonlinear_arith)
            requires
                0 < self.lease_duration_sec <= 0x7fff_ffff,
                RENEWAL_NANOS_PER_SEC == 400_000_000,
        ;
        self.lease_duration_sec as u128 * (RENEWAL_NANOS_PER_SEC as u128)
    }
}

/// The write that gives the lease up, based on the snapshot `lease_state`: a
/// cleared holder, under the snapshot's name and version.
pub fn release_lock(lease_state: &LeaseState) -> (request: Request)
    ensures
        request.is_apply(lease_state@.lease_name, release_patch(lease_state@)),
{
    Request::Apply { name: lease_state.lease_name.clone(), patch: LeasePatch::release(lease_state) }
}

/// What a renewal or a release has to report: the record after the write, or
/// the failure, of which a conflict is one.
pub fn written(outcome: ApplyOutcome) -> (r: Result<LeaseState, Error>)
    ensures
        r == (match outcome {
            ApplyOutcome::Applied(state) => Ok::<LeaseState, Error>(state),
            ApplyOutcome::Conflict(failure) => Err(Error::Kube(failure)),
            ApplyOutcome::Failed(e) => Err(e),
        }),
{
    match outcome {
        ApplyOutcome::Applied(state) => Ok(state),
        ApplyOutcome::Conflict(failure) => Err(Error::Kube(failure)),
        ApplyOutcome::Failed(e) => Err(e),
    }
}

} // verus!
