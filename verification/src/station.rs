//! The station: who transmits, on which frequency, from where.
//!
//! A station is configured step by step and then consumed by
//! [`RadioStation::play`], which fixes the identity that is announced to the
//! relay when the session is opened.

use vstd::prelude::*;
use crate::session::{BootstrapModel, SessionBootstrap};

verus! {

/// Carrier frequency of a station that was not given one, in hertz.
pub const DEFAULT_FREQUENCY: u64 = 251_000_000;

/// Control port of the relay, which is not the socket the voice data uses.
pub const DEFAULT_PORT: u16 = 5002;

/// A place in the simulated world. Each coordinate is held as the bit
/// pattern of an IEEE 754 double, so that any value the relay understands
/// passes through unchanged.
#[derive(Clone, Copy, Debug, PartialEq, Eq, Structural)]
pub struct Position {
    pub x: u64,
    pub y: u64,
    pub alt: u64,
}

impl Position {
    /// The origin: every coordinate is positive zero.
    pub open spec fn origin_spec() -> Position {
        Position { x: 0, y: 0, alt: 0 }
    }

    /// The origin, where a station stands until it is placed elsewhere.
    pub fn origin() -> (position: Position)
        ensures
            position == Position::origin_spec(),
    {
        Position { x: 0, y: 0, alt: 0 }
    }
}

/// Mathematical model of a [`RadioStation`].
pub struct StationModel {
    pub name: Seq<char>,
    pub position: Position,
    pub freq: u64,
    pub port: u16,
}

/// The configuration of a station.
#[derive(Debug, PartialEq, Eq)]
pub struct RadioStation {
    name: String,
    position: Position,
    freq: u64,
    port: u16,
}

impl View for RadioStation {
    type V = StationModel;

    closed spec fn view(&self) -> StationModel {
        StationModel {
            name: self.name@,
            position: self.position,
            freq: self.freq,
            port: self.port,
        }
    }
}

impl StationModel {
    /// What a station with this configuration announces to `server`.
    pub open spec fn bootstrap(self, server: Seq<char>) -> BootstrapModel {
        BootstrapModel {
            name: self.name,
            frequency: self.freq,
            position: self.position,
            port: self.port,
            server,
        }
    }
}

impl RadioStation {
    /// A station called `name`, at the origin, on the default frequency and
    /// the default port.
    pub fn new(name: &str) -> (station: RadioStation)
        ensures
            station@ == (StationModel {
                name: name@,
                position: Position::origin_spec(),
                freq: DEFAULT_FREQUENCY,
                port: DEFAULT_PORT,
            }),
    {
        RadioStation {
            name: name.to_owned(),
            position: Position::origin(),
            freq: DEFAULT_FREQUENCY,
            port: DEFAULT_PORT,
        }
    }

    /// Sets the control port and leaves everything else as it was.
    pub fn set_port(&mut self, port: u16)
        ensures
            final(self)@ == (StationModel { port, ..old(self)@ }),
    {
        self.port = port;
    }

    /// Places the station. The coordinates are bit patterns of doubles.
    pub fn set_position(&mut self, x: u64, y: u64, alt: u64)
        ensures
            final(self)@ == (StationModel { position: Position { x, y, alt }, ..old(self)@ }),
    {
        self.position = Position { x, y, alt };
    }

    /// Sets the carrier frequency in hertz. Any value is taken as it is.
    pub fn set_frequency(&mut self, freq: u64)
        ensures
            final(self)@ == (StationModel { freq, ..old(self)@ }),
    {
        self.freq = freq;
    }

    /// Ends the configuration and fixes what is announced to the relay at
    /// `server`: exactly the name, frequency, position and port the station
    /// holds, and the address as it was given.
    pub fn play(self, server: &str) -> (bootstrap: SessionBootstrap)
        ensures
            bootstrap@ == self@.bootstrap(server@),
    {
        SessionBootstrap {
            name: self.name,
            frequency: self.freq,
            position: self.position,
            port: self.port,
            server: server.to_owned(),
        }
    }
}

} // verus!
