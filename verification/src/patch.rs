//! The writes the lock sends: server-side apply patches of a lease record.

use crate::state::{LeaseState, LeaseStateView};
use crate::time::Timestamp;
use vstd::prelude::*;

verus! {

/// `apiVersion` of every patch.
pub const API_VERSION: &'static str = "coordination.k8s.io/v1";

/// `kind` of every patch.
pub const KIND: &'static str = "Lease";

/// The field manager under which every patch is applied.
pub const FIELD_MANAGER: &'static str = "lease-rs";

/// How a patch is applied: as which field manager, and whether fields that
/// another manager owns are taken over.
#[derive(Debug, Clone)]
pub struct ApplyParams {
    pub field_manager: String,
    pub force: bool,
}

/// The fields of one patch. `name` and `resource_version` go under
/// `metadata`, the others under `spec`.
#[derive(Debug, Clone)]
pub struct LeasePatch {
    /// `metadata.name`.
    pub name: String,
    /// `metadata.resourceVersion`: the version this write is based on.
    pub resource_version: String,
    /// `spec.holderIdentity`; `None` is sent as `null` and clears the holder.
    pub holder_identity: Option<String>,
    /// `spec.acquireTime` as RFC 3339 text; left out when `None`.
    pub acquire_time: Option<String>,
    /// `spec.renewTime` as RFC 3339 text; left out when `None`.
    pub renew_time: Option<String>,
    /// `spec.leaseDurationSeconds`; left out when `None`.
    pub lease_duration_seconds: Option<i32>,
}

/// The mathematical content of a [`LeasePatch`].
pub struct LeasePatchView {
    pub name: Seq<char>,
    pub resource_version: Seq<char>,
    pub holder_identity: Option<Seq<char>>,
    pub acquire_time: Option<Seq<char>>,
    pub renew_time: Option<Seq<char>>,
    pub lease_duration_seconds: Option<i32>,
}

impl View for LeasePatch {
    type V = LeasePatchView;

    open spec fn view(&self) -> LeasePatchView {
        LeasePatchView {
            name: self.name@,
            resource_version: self.resource_version@,
            holder_identity: self.holder_identity.deep_view(),
            acquire_time: self.acquire_time.deep_view(),
            renew_time: self.renew_time.deep_view(),
            lease_duration_seconds: self.lease_duration_seconds,
        }
    }
}

/// The patch that takes the lease for `holder_id` at `now`, based on the
/// snapshot `state`: it sets holder, both times and the duration.
pub open spec fn overwrite_patch(
    holder_id: Seq<char>,
    state: LeaseStateView,
    now: Timestamp,
    lease_duration_sec: i32,
) -> LeasePatchView {
    LeasePatchView {
        name: state.lease_name,
        resource_version: state.resource_version,
        holder_identity: Some(holder_id),
        acquire_time: Some(now.rfc3339_micros()),
        renew_time: Some(now.rfc3339_micros()),
        lease_duration_seconds: Some(lease_duration_sec),
    }
}

/// The patch that renews the lease at `now`, based on the snapshot `state`:
/// it sets the renew time and states the holder again, nothing else.
pub open spec fn renew_patch(state: LeaseStateView, now: Timestamp) -> LeasePatchView {
    LeasePatchView {
        name: state.lease_name,
        resource_version: state.resource_version,
        holder_identity: state.holder,
        acquire_time: None,
        renew_time: Some(now.rfc3339_micros()),
        lease_duration_seconds: None,
    }
}

/// The patch that gives the lease up, based on the snapshot `state`: it
/// clears the holder, nothing else.
pub open spec fn release_patch(state: LeaseStateView) -> LeasePatchView {
    LeasePatchView {
        name: state.lease_name,
        resource_version: state.resource_version,
        holder_identity: None,
        acquire_time: None,
        renew_time: None,
        lease_duration_seconds: None,
    }
}

impl ApplyParams {
    /// The parameters of every write of the lock: applied as
    /// [`FIELD_MANAGER`], with force.
    pub fn lease_apply() -> (p: ApplyParams)
        ensures
            p.field_manager@ == FIELD_MANAGER@,
            p.force,
    {
        ApplyParams { field_manager: FIELD_MANAGER.to_owned(), force: true }
    }
}

impl LeasePatch {
    /// Builds [`overwrite_patch`].
    pub fn overwrite(holder_id: &str, state: &LeaseState, now: &Timestamp, lease_duration_sec: i32) -> (patch: LeasePatch)
        requires
            now.wf(),
        ensures
            patch@ == overwrite_patch(holder_id@, state@, *now, lease_duration_sec),
    {
        LeasePatch {
            name: state.lease_name.clone(),
            resource_version: state.resource_version.clone(),
            holder_identity: Some(holder_id.to_owned()),
            acquire_time: Some(now.to_rfc3339_micros()),
            renew_time: Some(now.to_rfc3339_micros()),
            lease_duration_seconds: Some(lease_duration_sec),
        }
    }

    /// Builds [`renew_patch`].
    pub fn renew(state: &LeaseState, now: &Timestamp) -> (patch: LeasePatch)
        requires
            now.wf(),
        ensures
            patch@ == renew_patch(state@, *now),
    {
        LeasePatch {
            name: state.lease_name.clone(),
            resource_version: state.resource_version.clone(),
            holder_identity: match &state.holder {
                Some(holder) => Some(holder.clone()),
                None => None,
            },
            acquire_time: None,
            renew_time: Some(now.to_rfc3339_micros()),
            lease_duration_seconds: None,
        }
    }

    /// Builds [`release_patch`].
    pub fn release(state: &LeaseState) -> (patch: LeasePatch)
        ensures
            patch@ == release_patch(state@),
    {
        LeasePatch {
            name: state.lease_name.clone(),
            resource_version: state.resource_version.clone(),
            holder_identity: None,
            acquire_time: None,
            renew_time: None,
            lease_duration_seconds: None,
        }
    }
}

/// Every patch is versioned by the snapshot it is built from.
pub proof fn lemma_patches_carry_snapshot_version(
    holder_id: Seq<char>,
    state: LeaseStateView,
    now: Timestamp,
    lease_duration_sec: i32,
)
    ensures
        overwrite_patch(holder_id, state, now, lease_duration_sec).resource_version
            == state.resource_version,
        renew_patch(state, now).resource_version == state.resource_version,
        release_patch(state).resource_version == state.resource_version,
{
}

} // verus!
