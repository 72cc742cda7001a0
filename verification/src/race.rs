//! The race between the two loops of a session.
//!
//! The session ends the moment either loop ends, in success or in failure,
//! and the result of that loop is the result of the session. The other loop
//! is the loser: it is to be cancelled, and whatever it would have reported
//! later has no say.

use vstd::prelude::*;
use crate::error::SessionOutcome;

verus! {

/// One of the two loops of a session.
#[derive(Clone, Copy, Debug, PartialEq, Eq, Structural)]
pub enum Side {
    /// The inbound loop. It is polled first, so it wins a tie.
    Receive,
    /// The outbound loop.
    Transmit,
}

impl Side {
    /// The loop on the other side.
    pub open spec fn other_spec(self) -> Side {
        match self {
            Side::Receive => Side::Transmit,
            Side::Transmit => Side::Receive,
        }
    }

    /// The loop on the other side: the one to cancel when this one has won.
    pub fn other(self) -> (side: Side)
        ensures
            side == self.other_spec(),
    {
        match self {
            Side::Receive => Side::Transmit,
            Side::Transmit => Side::Receive,
        }
    }
}

/// The end of one loop: when it ended and how.
#[derive(Clone, Copy, Debug, PartialEq, Eq)]
pub struct Completion {
    /// Clock reading at which the loop ended.
    pub at: u128,
    /// What the loop ended with.
    pub outcome: SessionOutcome,
}

/// The end of the session.
#[derive(Clone, Copy, Debug, PartialEq, Eq)]
pub struct Verdict {
    /// The loop that ended first.
    pub winner: Side,
    /// Clock reading at which the session ended.
    pub at: u128,
    /// What the session ended with.
    pub outcome: SessionOutcome,
}

impl Verdict {
    /// The verdict that lets `side` win with `completion`.
    pub open spec fn of(side: Side, completion: Completion) -> Verdict {
        Verdict { winner: side, at: completion.at, outcome: completion.outcome }
    }
}

/// The rule of the race: no verdict while both loops run; otherwise the
/// loop that ended first wins, and the inbound loop wins a tie.
pub open spec fn race_model(receive: Option<Completion>, transmit: Option<Completion>) -> Option<
    Verdict,
> {
    match (receive, transmit) {
        (None, None) => None,
        (Some(r), None) => Some(Verdict::of(Side::Receive, r)),
        (None, Some(t)) => Some(Verdict::of(Side::Transmit, t)),
        (Some(r), Some(t)) => if t.at < r.at {
            Some(Verdict::of(Side::Transmit, t))
        } else {
            Some(Verdict::of(Side::Receive, r))
        },
    }
}

/// Resolves the session from what is known of the two loops. Each argument
/// is `None` while that loop is still running.
pub fn race(receive: Option<Completion>, transmit: Option<Completion>) -> (verdict: Option<Verdict>)
    ensures
        verdict == race_model(receive, transmit),
        verdict is None <==> receive is None && transmit is None,
{
    match (receive, transmit) {
        (None, None) => None,
        (Some(r), None) => Some(Verdict { winner: Side::Receive, at: r.at, outcome: r.outcome }),
        (None, Some(t)) => Some(Verdict { winner: Side::Transmit, at: t.at, outcome: t.outcome }),
        (Some(r), Some(t)) => {
            if t.at < r.at {
                Some(Verdict { winner: Side::Transmit, at: t.at, outcome: t.outcome })
            } else {
                Some(Verdict { winner: Side::Receive, at: r.at, outcome: r.outcome })
            }
        },
    }
}

/// First event wins. Of two loops that end at different instants, the one
/// that ends earlier decides the session: the verdict carries its outcome
/// and its instant, whether it succeeded or failed. The verdict is the same
/// as the one reached while the later loop was still running, so the race
/// is over at the earlier instant and nothing the loser does can change it.
pub proof fn lemma_first_event_wins(receive: Completion, transmit: Completion)
    requires
        receive.at != transmit.at,
    ensures
        receive.at < transmit.at ==> race_model(Some(receive), Some(transmit)) == Some(
            Verdict::of(Side::Receive, receive),
        ) && race_model(Some(receive), Some(transmit)) == race_model(Some(receive), None),
        transmit.at < receive.at ==> race_model(Some(receive), Some(transmit)) == Some(
            Verdict::of(Side::Transmit, transmit),
        ) && race_model(Some(receive), Some(transmit)) == race_model(None, Some(transmit)),
{
}

} // verus!
