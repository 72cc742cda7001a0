//! The inbound loop: drain the session and watch for its end.
//!
//! Nothing the relay sends is of interest to a transmitter. The loop exists
//! to keep the inbound path empty and to notice when the connection fails
//! or closes.

use vstd::prelude::*;
use crate::error::{SessionError, SessionOutcome};

verus! {

/// What the inbound channel delivered.
#[derive(Clone, Copy, Debug, PartialEq, Eq, Structural)]
pub enum ReceiveEvent {
    /// A packet arrived.
    Packet,
    /// The channel closed in good order: nothing more will arrive.
    Closed,
    /// The channel reported a failure.
    Fault(SessionError),
}

/// What the inbound loop does next.
#[derive(Clone, Copy, Debug, PartialEq, Eq)]
pub enum ReceiveAction {
    /// Drop what arrived and wait for the next packet.
    Discard,
    /// Leave the loop with the given outcome.
    Finish(SessionOutcome),
}

/// The rule of the inbound loop.
pub open spec fn receive_model(event: ReceiveEvent) -> ReceiveAction {
    match event {
        ReceiveEvent::Packet => ReceiveAction::Discard,
        ReceiveEvent::Closed => ReceiveAction::Finish(Ok(())),
        ReceiveEvent::Fault(error) => ReceiveAction::Finish(Err(error)),
    }
}

/// Decides what the inbound loop does with `event`: a packet is discarded
/// and the loop goes on, a clean close ends it with success, a failure ends
/// it with that failure.
pub fn receive_step(event: ReceiveEvent) -> (action: ReceiveAction)
    ensures
        action == receive_model(event),
        action is Discard <==> event is Packet,
{
    match event {
        ReceiveEvent::Packet => ReceiveAction::Discard,
        ReceiveEvent::Closed => ReceiveAction::Finish(Ok(())),
        ReceiveEvent::Fault(error) => ReceiveAction::Finish(Err(error)),
    }
}

} // verus!
