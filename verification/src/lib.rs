//! Decision core of a synthetic radio transmitter.
//!
//! The station joins a voice relay session, announces its identity and
//! streams compressed audio frames onto the session in real time. Every
//! rule of that engine lives here as a function from plain values to plain
//! values: which identity is announced, when a frame may leave, what the
//! transmit and receive loops do next, and which loop decides how the
//! session ends. The surrounding program performs the reads, sends and
//! sleeps that these functions ask for and reports back what happened.
//!
//! All instants and durations are nanoseconds on a monotonic clock.

pub mod error;
pub mod pacer;
pub mod transmit;
pub mod receive;
pub mod race;
pub mod input;
pub mod station;
pub mod frequency;
pub mod session;
