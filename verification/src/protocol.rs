//! What the lock asks of its surroundings, and what it is told in return.
//!
//! The lock itself neither talks to the server nor waits. Each of its state
//! machines hands out a [`Request`]; whoever runs the machine carries the
//! request out and hands back the matching [`Reply`].

use crate::error::Error;
use crate::gateway::ApplyOutcome;
use crate::patch::LeasePatch;
use crate::state::LeaseState;
use vstd::prelude::*;

verus! {

/// One piece of outside work.
#[derive(Debug)]
pub enum Request {
    /// Read the record called `name`.
    Get { name: String },
    /// Apply `patch` to the record called `name`, as
    /// [`crate::patch::ApplyParams::lease_apply`] says.
    Apply { name: String, patch: LeasePatch },
    /// Let `nanos` nanoseconds pass.
    Sleep { nanos: u128 },
}

/// The result of one piece of outside work.
#[derive(Debug)]
pub enum Reply {
    /// A read ended, as [`crate::gateway::read_result`] tells.
    Got(Result<LeaseState, Error>),
    /// A write ended, as [`crate::gateway::apply_outcome`] tells.
    Applied(ApplyOutcome),
    /// The wait is over.
    Slept,
}

impl Request {
    /// The request is the read of the record called `name`.
    pub open spec fn is_get(self, name: Seq<char>) -> bool {
        self matches Request::Get { name: n } && n@ == name
    }

    /// The request is the write of a patch with content `patch` to the record
    /// called `name`.
    pub open spec fn is_apply(self, name: Seq<char>, patch: crate::patch::LeasePatchView) -> bool {
        self matches Request::Apply { name: n, patch: p } && n@ == name && p@ == patch
    }

    /// The request is a wait of `nanos` nanoseconds.
    pub open spec fn is_sleep(self, nanos: nat) -> bool {
        self matches Request::Sleep { nanos: n } && n == nanos
    }

    /// The reply is of the kind that answers this request.
    pub open spec fn answered_by(self, reply: Reply) -> bool {
        match self {
            Request::Get { .. } => reply is Got,
            Request::Apply { .. } => reply is Applied,
            Request::Sleep { .. } => reply is Slept,
        }
    }
}

} // verus!
