//! The session as a whole: what opens it and what ends it.
//!
//! A session is opened by announcing the station to the relay. If that
//! fails, the session is over before either loop has run. Once it is open,
//! the inbound and the outbound loop run side by side and the first of them
//! to end decides the session. There is no degraded mode: any failure ends
//! everything.

use vstd::prelude::*;
use crate::error::{SessionError, SessionOutcome};
use crate::race::{race, race_model, Completion};
use crate::station::Position;

verus! {

/// What is announced to the relay when the session is opened.
#[derive(Debug, PartialEq, Eq)]
pub struct SessionBootstrap {
    /// Name of the station.
    pub name: String,
    /// Carrier frequency in hertz.
    pub frequency: u64,
    /// Where the station stands.
    pub position: Position,
    /// Control port of the relay.
    pub port: u16,
    /// Address of the relay, as the caller wrote it.
    pub server: String,
}

/// Mathematical model of a [`SessionBootstrap`].
pub struct BootstrapModel {
    pub name: Seq<char>,
    pub frequency: u64,
    pub position: Position,
    pub port: u16,
    pub server: Seq<char>,
}

impl View for SessionBootstrap {
    type V = BootstrapModel;

    open spec fn view(&self) -> BootstrapModel {
        BootstrapModel {
            name: self.name@,
            frequency: self.frequency,
            position: self.position,
            port: self.port,
            server: self.server@,
        }
    }
}

/// How a session stands, given how its opening went and what is known of
/// its two loops: `None` while it is still running.
pub open spec fn outcome_model(
    opened: Result<(), SessionError>,
    receive: Option<Completion>,
    transmit: Option<Completion>,
) -> Option<SessionOutcome> {
    match opened {
        Err(error) => Some(Err(error)),
        Ok(()) => match race_model(receive, transmit) {
            Some(verdict) => Some(verdict.outcome),
            None => None,
        },
    }
}

/// Resolves the outcome of a session.
///
/// A failed opening is the outcome, whatever is said of the loops. After a
/// successful opening the session runs until one loop has ended, and the
/// outcome is that of the loop that ended first.
pub fn session_outcome(
    opened: Result<(), SessionError>,
    receive: Option<Completion>,
    transmit: Option<Completion>,
) -> (outcome: Option<SessionOutcome>)
    ensures
        outcome == outcome_model(opened, receive, transmit),
        outcome is None <==> opened is Ok && receive is None && transmit is None,
{
    match opened {
        Err(error) => Some(Err(error)),
        Ok(()) => match race(receive, transmit) {
            Some(verdict) => Some(verdict.outcome),
            None => None,
        },
    }
}

} // verus!
