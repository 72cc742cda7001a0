//! The audio source and what it can do.
//!
//! Audio comes either from a file or from standard input. Both can be read;
//! only a file can be repositioned. A seek on standard input is refused with
//! an error of its own, so that a caller can tell "this source cannot seek"
//! from "this seek failed".

use vstd::prelude::*;
use crate::error::InputError;

verus! {

/// The backing of an audio source.
#[derive(Clone, Copy, Debug, PartialEq, Eq, Structural)]
pub enum Input {
    /// An open file: readable and seekable.
    File,
    /// The standard input of the process: readable only.
    Stdin,
}

/// A position to seek to.
#[derive(Clone, Copy, Debug, PartialEq, Eq, Structural)]
pub enum SeekTarget {
    /// An offset in bytes from the start of the source.
    Start(u64),
    /// An offset in bytes from the end of the source.
    End(i64),
    /// An offset in bytes from the current position.
    Current(i64),
}

impl Input {
    /// Whether this kind of source can be repositioned.
    pub open spec fn seekable(self) -> bool {
        self is File
    }

    /// Tells whether this kind of source can be repositioned.
    pub fn is_seekable(&self) -> (yes: bool)
        ensures
            yes == self.seekable(),
    {
        match self {
            Input::File => true,
            Input::Stdin => false,
        }
    }

    /// Decides a seek request. For a file the request is passed on
    /// unchanged, to be carried out on the file. For standard input it is
    /// refused, whatever the position asked for.
    pub fn seek(&self, pos: SeekTarget) -> (decision: Result<SeekTarget, InputError>)
        ensures
            self.seekable() ==> decision == Ok::<SeekTarget, InputError>(pos),
            !self.seekable() ==> decision == Err::<SeekTarget, InputError>(
                InputError::SeekUnsupported,
            ),
    {
        match self {
            Input::File => Ok(pos),
            Input::Stdin => Err(InputError::SeekUnsupported),
        }
    }
}

} // verus!
