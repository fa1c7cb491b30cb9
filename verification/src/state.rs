//! The lease record as the server returns it, and the snapshot the lock
//! derives from it.

use crate::error::Error;
use crate::time::Timestamp;
use vstd::prelude::*;

verus! {

/// The `spec` part of a lease record; every field may be absent.
#[derive(Debug, Clone)]
pub struct LeaseRecordSpec {
    /// `spec.holderIdentity`.
    pub holder_identity: Option<String>,
    /// `spec.renewTime`.
    pub renew_time: Option<Timestamp>,
    /// `spec.leaseDurationSeconds`.
    pub lease_duration_seconds: Option<i32>,
}

/// A lease record as read from the server, holding the fields the lock
/// looks at.
#[derive(Debug, Clone)]
pub struct LeaseRecord {
    /// `metadata.name`.
    pub name: Option<String>,
    /// `metadata.resourceVersion`.
    pub resource_version: Option<String>,
    /// `spec`.
    pub spec: Option<LeaseRecordSpec>,
}

/// An immutable snapshot of a lease record.
#[derive(Debug, Clone)]
pub struct LeaseState {
    /// Name of the remote record.
    pub lease_name: String,
    /// The declared holder, if any.
    pub holder: Option<String>,
    /// When the holder last renewed; the earliest instant if never.
    pub renew_time: Timestamp,
    /// For how many seconds after `renew_time` the holder keeps the lease.
    pub lease_duration: u32,
    /// The server's version token of the record this was read from.
    pub resource_version: String,
}

/// The mathematical content of a [`LeaseState`].
pub struct LeaseStateView {
    pub lease_name: Seq<char>,
    pub holder: Option<Seq<char>>,
    pub renew_time: Timestamp,
    pub lease_duration: nat,
    pub resource_version: Seq<char>,
}

impl LeaseStateView {
    /// The lease has run out at `now`: `now >= renew_time + lease_duration`.
    pub open spec fn expired_at(self, now: Timestamp) -> bool {
        self.renew_time.total_nanos() + self.lease_duration * 1_000_000_000 <= now.total_nanos()
    }

    /// Who owns the lease at `now`: the declared holder while the lease has
    /// not run out, nobody afterwards.
    pub open spec fn owner_at(self, now: Timestamp) -> Option<Seq<char>> {
        if self.expired_at(now) {
            None
        } else {
            self.holder
        }
    }
}

impl View for LeaseState {
    type V = LeaseStateView;

    open spec fn view(&self) -> LeaseStateView {
        LeaseStateView {
            lease_name: self.lease_name@,
            holder: self.holder.deep_view(),
            renew_time: self.renew_time,
            lease_duration: self.lease_duration as nat,
            resource_version: self.resource_version@,
        }
    }
}

impl LeaseRecord {
    /// `spec.holderIdentity`, absent when `spec` is.
    pub open spec fn holder(self) -> Option<Seq<char>> {
        match self.spec {
            Some(s) => s.holder_identity.deep_view(),
            None => None,
        }
    }

    /// `spec.renewTime`, or the earliest instant.
    pub open spec fn renew_time(self) -> Timestamp {
        match self.spec {
            Some(LeaseRecordSpec { renew_time: Some(t), .. }) => t,
            _ => Timestamp { secs: crate::time::MIN_SECS, nanos: 0 },
        }
    }

    /// `spec.leaseDurationSeconds`, or zero.
    pub open spec fn duration_seconds(self) -> int {
        match self.spec {
            Some(LeaseRecordSpec { lease_duration_seconds: Some(d), .. }) => d as int,
            _ => 0,
        }
    }

    /// The record holds all that a snapshot needs: a name, a version, and a
    /// duration that is not negative.
    pub open spec fn complete(self) -> bool {
        &&& self.name is Some
        &&& self.resource_version is Some
        &&& self.duration_seconds() >= 0
    }

    /// The snapshot of a complete record.
    pub open spec fn snapshot(self) -> LeaseStateView {
        LeaseStateView {
            lease_name: self.name->0@,
            holder: self.holder(),
            renew_time: self.renew_time(),
            lease_duration: self.duration_seconds() as nat,
            resource_version: self.resource_version->0@,
        }
    }
}

impl LeaseState {
    /// What [`LeaseState::try_from`] returns for the record `lo`: the
    /// snapshot if the record is complete, else the first fault found, looking
    /// at the name, then the duration, then the version.
    pub open spec fn try_from_ensures(lo: LeaseRecord, r: Result<LeaseState, Error>) -> bool {
        if lo.name is None {
            r matches Err(Error::Format(key)) && key@ == "lease name"@
        } else if lo.duration_seconds() < 0 {
            r matches Err(Error::IntOverflow(_))
        } else if lo.resource_version is None {
            r matches Err(Error::Format(key)) && key@ == "resourceVersion"@
        } else {
            r matches Ok(state) && state@ == lo.snapshot()
        }
    }

    /// Builds the snapshot of a record.
    ///
    /// A record without a name is refused first, then one with a negative
    /// duration, then one without a version. An absent `spec`, holder, renew
    /// time or duration is no fault: the holder is then nobody, the renew
    /// time the earliest instant, the duration zero.
    pub fn try_from(lo: LeaseRecord) -> (r: Result<LeaseState, Error>)
        ensures
            LeaseState::try_from_ensures(lo, r),
    {
        let lease_name = match lo.name {
            Some(name) => name,
            None => {
                return Err(Error::Format("lease name".to_owned()));
            },
        };
        let (holder, renew_time, seconds) = match lo.spec {
            Some(spec) => (
                spec.holder_identity,
                match spec.renew_time {
                    Some(t) => t,
                    None => Timestamp::earliest(),
                },
                match spec.lease_duration_seconds {
                    Some(d) => d,
                    None => 0i32,
                },
            ),
            None => (None, Timestamp::earliest(), 0i32),
        };
        let lease_duration = match u32::try_from(seconds) {
            Ok(d) => d,
            Err(e) => {
                return Err(Error::IntOverflow(e));
            },
        };
        let resource_version = match lo.resource_version {
            Some(version) => version,
            None => {
                return Err(Error::Format("resourceVersion".to_owned()));
            },
        };
        Ok(LeaseState { lease_name, holder, renew_time, lease_duration, resource_version })
    }

    /// A copy of the snapshot with the same content.
    pub fn duplicate(&self) -> (copy: LeaseState)
        ensures
            copy@ == self@,
    {
        LeaseState {
            lease_name: self.lease_name.clone(),
            holder: match &self.holder {
                Some(holder) => Some(holder.clone()),
                None => None,
            },
            renew_time: self.renew_time,
            lease_duration: self.lease_duration,
            resource_version: self.resource_version.clone(),
        }
    }

    /// Whether the lease has run out at `now`.
    pub fn expired_at(&self, now: &Timestamp) -> (b: bool)
        ensures
            b == self@.expired_at(*now),
    {
        let end: i128 = self.renew_time.secs as i128 * 1_000_000_000 + self.renew_time.nanos as i128
            + self.lease_duration as i128 * 1_000_000_000;
        let at: i128 = now.secs as i128 * 1_000_000_000 + now.nanos as i128;
        end <= at
    }

    /// Who owns the lease at `now`.
    pub fn owner_at(&self, now: &Timestamp) -> (r: Option<&String>)
        ensures
            r.deep_view() == self@.owner_at(*now),
    {
        if self.expired_at(now) {
            None
        } else {
            self.holder.as_ref()
        }
    }

    /// Whether `holder_id` owns the lease at `now`.
    pub fn owned_by_at(&self, holder_id: &String, now: &Timestamp) -> (b: bool)
        ensures
            b == (self@.owner_at(*now) == Some(holder_id@)),
    {
        match self.owner_at(now) {
            Some(owner) => *owner == *holder_id,
            None => false,
        }
    }

    /// Whether the lease has run out by this machine's clock. The answer
    /// is that of [`LeaseState::expired_at`] for the instant the clock gave.
    pub fn expired(&self) -> (b: bool)
        ensures
            exists|now: Timestamp| now.wf() && b == self@.expired_at(now),
    {
        let now = Timestamp::now();
        self.expired_at(&now)
    }

    /// Who owns the lease by this machine's clock. The answer is that of
    /// [`LeaseState::owner_at`] for the instant the clock gave.
    pub fn owner(&self) -> (r: Option<&String>)
        ensures
            exists|now: Timestamp| now.wf() && r.deep_view() == self@.owner_at(now),
    {
        let now = Timestamp::now();
        self.owner_at(&now)
    }
}

/// A lease that nobody owns stays without owner: time alone never gives a
/// record back to its holder. `s` and `later` are two readings of one version
/// of the record, so they agree on holder, renew time and duration.
pub proof fn lemma_expiry_is_monotonic(
    s: LeaseStateView,
    later: LeaseStateView,
    t1: Timestamp,
    t2: Timestamp,
)
    requires
        later.resource_version == s.resource_version,
        later.holder == s.holder,
        later.renew_time == s.renew_time,
        later.lease_duration == s.lease_duration,
        t1.total_nanos() <= t2.total_nanos(),
        s.owner_at(t1) is None,
    ensures
        later.owner_at(t2) is None,
{
}

} // verus!
