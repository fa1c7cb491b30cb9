//! A lease-based mutual-exclusion primitive: the decision logic of acquiring,
//! renewing and releasing a named lease record, verified with Verus.
//!
//! The remote record is reached by the embedding program; this crate decides
//! what to read, write and wait for, and what each answer means.
//!
//! - [`LeaseLock`] is the lock: its settings and the ledger of operations
//!   under way.
//! - [`Acquisition`] runs the acquire loop and ends in a [`LeaseGuard`].
//! - [`renewal::RenewalTask`] keeps a held lease alive.
//! - [`LeaseGuard::release`] gives the lease up.
//!
//! Each of them hands out [`protocol::Request`]s and takes
//! [`protocol::Reply`]s; none of them waits or talks to a server itself.

pub mod acquire;
pub mod backoff;
pub mod barrier;
pub mod client;
pub mod error;
pub mod gateway;
pub mod guard;
pub mod lock;
pub mod patch;
pub mod protocol;
pub mod renewal;
pub mod state;
pub mod time;

pub use crate::acquire::{AcquireStep, Acquisition};
pub use crate::client::LeaseLockClient;
pub use crate::error::Error;
pub use crate::guard::LeaseGuard;
pub use crate::lock::LeaseLock;
pub use crate::state::LeaseState;
