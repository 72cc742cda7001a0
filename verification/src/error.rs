//! What can go wrong: failures that end a session, and requests that are
//! refused before one starts.

use vstd::prelude::*;

verus! {

/// Why a session ended in failure.
///
/// The loops do not retry and the race between them does not tell the kinds
/// apart: whichever failure is seen first becomes the outcome of the session.
#[derive(Clone, Copy, Debug, PartialEq, Eq, Structural)]
pub enum SessionError {
    /// Connecting to the relay, sending to it or receiving from it failed.
    Transport,
    /// The audio stream is not a well-formed container stream.
    Demux,
    /// Reading the audio source failed.
    Source,
}

/// How a session ended: cleanly, or with the first failure that was seen.
pub type SessionOutcome = Result<(), SessionError>;

impl SessionError {
    /// The text shown for this failure.
    pub open spec fn message_spec(self) -> Seq<char> {
        match self {
            SessionError::Transport => "voice transport failed"@,
            SessionError::Demux => "audio stream is malformed"@,
            SessionError::Source => "audio source could not be read"@,
        }
    }

    /// A short human-readable description of the failure.
    pub fn message(&self) -> (text: String)
        ensures
            text@ == self.message_spec(),
    {
        match self {
            SessionError::Transport => "voice transport failed".to_owned(),
            SessionError::Demux => "audio stream is malformed".to_owned(),
            SessionError::Source => "audio source could not be read".to_owned(),
        }
    }
}

/// Why a configuration was refused.
#[derive(Clone, Copy, Debug, PartialEq, Eq, Structural)]
pub enum ConfigError {
    /// The text given as frequency is not a number that fits.
    InvalidFrequency,
}

impl ConfigError {
    /// The text shown for this refusal.
    pub open spec fn message_spec(self) -> Seq<char> {
        "The provided frequency is not a valid number"@
    }

    /// A short human-readable description of the refusal.
    pub fn message(&self) -> (text: String)
        ensures
            text@ == self.message_spec(),
    {
        "The provided frequency is not a valid number".to_owned()
    }
}

/// Why a source refused an operation.
#[derive(Clone, Copy, Debug, PartialEq, Eq, Structural)]
pub enum InputError {
    /// The source cannot seek.
    SeekUnsupported,
}

impl InputError {
    /// The text shown for this refusal.
    pub open spec fn message_spec(self) -> Seq<char> {
        "not supported by stdin-input"@
    }

    /// A short human-readable description of the refusal.
    pub fn message(&self) -> (text: String)
        ensures
            text@ == self.message_spec(),
    {
        "not supported by stdin-input".to_owned()
    }
}

} // verus!
