//! The handle of a held lease.

use crate::barrier::Ticket;
use crate::client::release_lock;
use crate::patch::release_patch;
use crate::protocol::Request;
use crate::state::LeaseState;
use vstd::prelude::*;

verus! {

/// "This process holds the lease": the snapshot taken when the lease was
/// won, and the ticket that keeps the completion barrier open until the
/// release has ended.
#[derive(Debug)]
pub struct LeaseGuard {
    lease_state: LeaseState,
    ticket: Option<Ticket>,
}

/// What the owner of a handle has to do when the handle is released, in the
/// order given.
#[derive(Debug)]
pub enum Command {
    /// Stop the renewal task of the handle, at once.
    CancelRenewal,
    /// Start, without waiting for it, a task that carries `request` out once
    /// and, whatever its result, gives `ticket` back to the barrier.
    Release { request: Request, ticket: Ticket },
}

impl LeaseGuard {
    /// The snapshot of the lease as it was won.
    pub closed spec fn state(self) -> LeaseState {
        self.lease_state
    }

    /// The handle's ticket; none once the handle has been released.
    pub closed spec fn ticket(self) -> Option<Ticket> {
        self.ticket
    }

    /// The handle has been released.
    pub open spec fn released(self) -> bool {
        self.ticket() is None
    }

    /// What [`LeaseGuard::release`] orders for a handle in this state.
    pub open spec fn release_commands(self, commands: Seq<Command>) -> bool {
        match self.ticket() {
            Some(own) => {
                &&& commands.len() == 2
                &&& commands[0] is CancelRenewal
                &&& commands[1] matches Command::Release { request, ticket }
                &&& ticket == own
                &&& request.is_apply(self.state()@.lease_name, release_patch(self.state()@))
            },
            None => commands.len() == 0,
        }
    }

    /// The handle of a lease held under the snapshot `lease_state`.
    pub fn new(lease_state: LeaseState, ticket: Ticket) -> (guard: LeaseGuard)
        ensures
            guard.state() == lease_state,
            guard.ticket() == Some(ticket),
    {
        LeaseGuard { lease_state, ticket: Some(ticket) }
    }

    /// The snapshot of the lease as it was won.
    pub fn lease_state(&self) -> (state: &LeaseState)
        ensures
            *state == self.state(),
    {
        &self.lease_state
    }

    /// Whether the handle has been released.
    pub fn is_released(&self) -> (b: bool)
        ensures
            b == self.released(),
    {
        self.ticket.is_none()
    }

    /// Gives the lease up. The first release orders two things, in this
    /// order: the end of the renewal task, then one write that clears the
    /// holder under the version of the handle's snapshot, after which the
    /// ticket goes back. Every later release orders nothing.
    pub fn release(&mut self) -> (commands: Vec<Command>)
        ensures
            old(self).release_commands(commands@),
            final(self).released(),
            final(self).state() == old(self).state(),
    {
        let mut commands: Vec<Command> = Vec::new();
        match self.ticket.take() {
            Some(ticket) => {
                commands.push(Command::CancelRenewal);
                commands.push(Command::Release { request: release_lock(&self.lease_state), ticket });
            },
            None => {},
        }
        commands
    }
}

/// A release never writes before the renewal task has been told to stop:
/// whatever position the write has among the commands, the cancellation
/// stands before it.
pub proof fn lemma_release_cancels_before_it_writes(guard: LeaseGuard, commands: Seq<Command>, i: int)
    requires
        guard.release_commands(commands),
        0 <= i < commands.len(),
        commands[i] is Release,
    ensures
        exists|j: int| 0 <= j < i && commands[j] is CancelRenewal,
{
    assert(commands[0] is CancelRenewal);
}

/// Release is idempotent: a handle that has been released orders nothing when
/// released again, and stays as it is.
pub proof fn lemma_release_is_idempotent(once: LeaseGuard, commands: Seq<Command>)
    requires
        once.released(),
        once.release_commands(commands),
    ensures
        commands.len() == 0,
{
}

} // verus!
