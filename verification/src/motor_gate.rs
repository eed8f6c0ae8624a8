//! Orders motor starts against Stop and Disconnect: a start prepared before a
//! stop or a disconnect is refused. Scope controls do not use this gate.

use vstd::prelude::*;

verus! {

/// The state of a gate: how often starts were cancelled (wrapping), and
/// whether the connection is closing.
pub struct GateState {
    pub revision: u64,
    pub closed: bool,
}

/// What a start with `ticket` is refused for, if anything.
pub open spec fn start_refusal(s: GateState, ticket: u64) -> Option<&'static str> {
    if s.closed {
        Some("device connection is closing")
    } else if s.revision != ticket {
        Some("motor start was cancelled")
    } else {
        None
    }
}

/// Start/stop ordering of one device connection.
#[derive(Debug, Default)]
pub struct MotorGate {
    revision: u64,
    closed: bool,
}

impl View for MotorGate {
    type V = GateState;

    closed spec fn view(&self) -> GateState {
        GateState { revision: self.revision, closed: self.closed }
    }
}

impl MotorGate {
    /// The ticket a start prepared now must present.
    pub fn ticket(&self) -> (res: u64)
        ensures
            res == self@.revision,
    {
        self.revision
    }

    /// Invalidates every ticket handed out so far.
    pub fn cancel(&mut self)
        ensures
            final(self)@ == (GateState { revision: old(self)@.revision.wrapping_add(1), ..old(self)@ }),
    {
        self.revision = self.revision.wrapping_add(1);
    }

    /// Marks the connection as closing and invalidates every ticket.
    pub fn close(&mut self)
        ensures
            final(self)@ == (GateState { revision: old(self)@.revision.wrapping_add(1), closed: true }),
    {
        self.closed = true;
        self.cancel();
    }

    pub fn is_closed(&self) -> (res: bool)
        ensures
            res == self@.closed,
    {
        self.closed
    }

    /// Admits a start that was prepared with `ticket`.
    pub fn start(&self, ticket: u64) -> (res: Result<(), &'static str>)
        ensures
            match start_refusal(self@, ticket) {
                Some(message) => res == Err::<(), &'static str>(message),
                None => res is Ok,
            },
    {
        if self.closed {
            return Err("device connection is closing");
        }
        if self.revision != ticket {
            return Err("motor start was cancelled");
        }
        Ok(())
    }
}

/// A start prepared before a stop is refused after it, and one prepared after
/// the stop is admitted while the connection is open.
pub proof fn lemma_cancel_invalidates_earlier_tickets(s: GateState)
    ensures
        start_refusal(GateState { revision: s.revision.wrapping_add(1), ..s }, s.revision) is Some,
        !s.closed ==> start_refusal(
            GateState { revision: s.revision.wrapping_add(1), ..s },
            s.revision.wrapping_add(1),
        ) is None,
{
}

/// A closing gate refuses every start, with any ticket.
pub proof fn lemma_closed_gate_refuses_every_start(s: GateState, ticket: u64)
    requires
        s.closed,
    ensures
        start_refusal(s, ticket) is Some,
{
}

} // verus!
