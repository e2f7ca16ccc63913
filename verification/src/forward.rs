//! Forwarding broadcast messages to one WebSocket client: what comes next
//! after each receive, serialization and send.
//!
//! The caller does the work (waits on the broadcast channel, serializes the
//! message, writes it to the socket) and reports whether it succeeded.

use vstd::prelude::*;

verus! {

/// One piece of work in forwarding messages to a client.
#[derive(Debug, Clone, Copy, PartialEq, Eq, Structural)]
pub enum Forward {
    /// Wait for the next broadcast message; fails when the channel is
    /// closed or the client has fallen behind.
    Receive,
    /// Serialize the message just received.
    Serialize,
    /// Send the serialized message to the client.
    Send,
    /// Stop forwarding to this client.
    Stop,
}

/// What comes after `step`, given whether its work succeeded.
pub open spec fn forward_after(step: Forward, succeeded: bool) -> Forward {
    match step {
        Forward::Receive => if succeeded { Forward::Serialize } else { Forward::Stop },
        Forward::Serialize => if succeeded { Forward::Send } else { Forward::Receive },
        Forward::Send => if succeeded { Forward::Receive } else { Forward::Stop },
        Forward::Stop => Forward::Stop,
    }
}

impl Forward {
    /// Whether forwarding has stopped.
    pub fn is_stop(&self) -> (b: bool)
        ensures
            b == (*self == Forward::Stop),
    {
        match self {
            Forward::Stop => true,
            _ => false,
        }
    }

    /// The step after this one, given whether its work succeeded.
    pub fn next(&self, succeeded: bool) -> (step: Forward)
        ensures
            step == forward_after(*self, succeeded),
    {
        match self {
            Forward::Receive => if succeeded { Forward::Serialize } else { Forward::Stop },
            Forward::Serialize => if succeeded { Forward::Send } else { Forward::Receive },
            Forward::Send => if succeeded { Forward::Receive } else { Forward::Stop },
            Forward::Stop => Forward::Stop,
        }
    }
}

/// Forwarding stops only when the channel fails or a send fails, and then
/// for good; a message that cannot be serialized is skipped and the next
/// one awaited; while everything succeeds, each message is received,
/// serialized and sent, in that order.
pub proof fn forwarding_stops_only_on_failed_receive_or_send(step: Forward, succeeded: bool)
    ensures
        forward_after(step, succeeded) == Forward::Stop ==> step == Forward::Stop || (!succeeded
            && (step == Forward::Receive || step == Forward::Send)),
        step == Forward::Stop ==> forward_after(step, succeeded) == Forward::Stop,
        forward_after(Forward::Serialize, false) == Forward::Receive,
        forward_after(forward_after(forward_after(Forward::Receive, true), true), true) == Forward::Receive,
{
}

} // verus!
