//! The errors that lock operations report.

use vstd::prelude::*;

verus! {

/// A failure of the API layer, as far as the lock looks into it: the HTTP
/// status of the server's answer, where the server answered, and a
/// description for the reader.
#[derive(Debug, Clone)]
pub struct ApiFailure {
    /// The status code of an error response; `None` where the failure lies
    /// below the API (connection, encoding).
    pub status: Option<u16>,
    /// The failure in words.
    pub detail: String,
}

/// Why a lock operation did not succeed.
#[derive(Debug)]
pub enum Error {
    /// The lease did not become free before the deadline.
    AcquireTimeout,
    /// The lease duration of a record does not fit the local representation.
    IntOverflow(std::num::TryFromIntError),
    /// A record lacks the named required key.
    Format(String),
    /// A patch could not be put into its wire form; the text says why.
    Serde(String),
    /// Any other failure of the API layer.
    Kube(ApiFailure),
}

impl Error {
    /// Whether this is the deadline error, the only one that an immediate
    /// attempt turns into an empty result.
    pub fn is_timeout(&self) -> (b: bool)
        ensures
            b == (*self is AcquireTimeout),
    {
        match self {
            Error::AcquireTimeout => true,
            _ => false,
        }
    }
}

} // verus!
