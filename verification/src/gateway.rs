//! What the answers of the API mean to the lock.

use crate::error::{ApiFailure, Error};
use crate::state::{LeaseRecord, LeaseState};
use vstd::prelude::*;

verus! {

/// The HTTP status with which the server refuses a write that is based on a
/// stale version.
pub const CONFLICT: u16 = 409;

/// How a write ended.
#[derive(Debug)]
pub enum ApplyOutcome {
    /// The server took the write; this is the record after it.
    Applied(LeaseState),
    /// The server refused the write as based on a stale version: somebody
    /// else wrote first.
    Conflict(ApiFailure),
    /// The write failed otherwise.
    Failed(Error),
}

/// Calls `http::StatusCode::as_u16` on `StatusCode::CONFLICT`, which is 409.
#[verifier::external_body]
fn http_conflict_code() -> (code: u16)
    ensures
        code == CONFLICT,
{
    http::StatusCode::CONFLICT.as_u16()
}

/// Whether a failure is the server's refusal of a stale version.
pub fn is_conflict(failure: &ApiFailure) -> (b: bool)
    ensures
        b == (failure.status == Some(CONFLICT)),
{
    match failure.status {
        Some(code) => code == http_conflict_code(),
        None => false,
    }
}

/// What a read means: the snapshot of the record, the fault of a record that
/// is not complete, or the failure of the API as it came.
pub fn read_result(answer: Result<LeaseRecord, ApiFailure>) -> (r: Result<LeaseState, Error>)
    ensures
        match answer {
            Ok(record) => LeaseState::try_from_ensures(record, r),
            Err(failure) => r == Err::<LeaseState, Error>(Error::Kube(failure)),
        },
{
    match answer {
        Ok(record) => LeaseState::try_from(record),
        Err(failure) => Err(Error::Kube(failure)),
    }
}

/// What the answer to a write means: a conflict is told apart from every
/// other failure, and a record is read as by [`read_result`].
pub fn apply_outcome(answer: Result<LeaseRecord, ApiFailure>) -> (outcome: ApplyOutcome)
    ensures
        match answer {
            Ok(record) => match outcome {
                ApplyOutcome::Applied(state) => record.complete() && state@ == record.snapshot(),
                ApplyOutcome::Conflict(_) => false,
                ApplyOutcome::Failed(e) => !record.complete() && LeaseState::try_from_ensures(
                    record,
                    Err(e),
                ),
            },
            Err(failure) => if failure.status == Some(CONFLICT) {
                outcome == ApplyOutcome::Conflict(failure)
            } else {
                outcome == ApplyOutcome::Failed(Error::Kube(failure))
            },
        },
{
    match answer {
        Ok(record) => match LeaseState::try_from(record) {
            Ok(state) => ApplyOutcome::Applied(state),
            Err(e) => ApplyOutcome::Failed(e),
        },
        Err(failure) => if is_conflict(&failure) {
            ApplyOutcome::Conflict(failure)
        } else {
            ApplyOutcome::Failed(Error::Kube(failure))
        },
    }
}

} // verus!
