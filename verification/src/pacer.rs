//! Real-time pacing of outbound frames.
//!
//! Every frame stands for twenty milliseconds of audio. The pacer counts the
//! frames released since the source was opened and holds each one back until
//! its play time has come: frame `k` may leave no earlier than `k` frame
//! durations after the opening.

use vstd::prelude::*;

verus! {

/// Play time of one frame, in nanoseconds.
pub const FRAME_NANOS: u128 = 20_000_000;

/// Mathematical model of a [`PacingState`].
pub struct PacingModel {
    /// Clock reading at which the source was opened.
    pub start: nat,
    /// Number of frames released since then.
    pub frames: nat,
}

impl PacingModel {
    /// The state right after a source was opened at `now`.
    pub open spec fn fresh(now: nat) -> PacingModel {
        PacingModel { start: now, frames: 0 }
    }

    /// The state after one more frame has been counted.
    pub open spec fn advance(self) -> PacingModel {
        PacingModel { start: self.start, frames: self.frames + 1 }
    }

    /// Time that has passed between the opening and `now`. A reading that
    /// lies before the opening counts as no time at all.
    pub open spec fn elapsed(self, now: nat) -> nat {
        if now >= self.start {
            (now - self.start) as nat
        } else {
            0
        }
    }

    /// Offset from the opening at which the latest counted frame is due.
    pub open spec fn scheduled(self) -> nat {
        self.frames * (FRAME_NANOS as nat)
    }

    /// How long the latest counted frame still has to wait at `now`.
    pub open spec fn delay(self, now: nat) -> nat {
        if self.scheduled() > self.elapsed(now) {
            (self.scheduled() - self.elapsed(now)) as nat
        } else {
            0
        }
    }
}

/// Pacing bookkeeping of one source-open cycle.
#[derive(Clone, Copy, Debug, PartialEq, Eq, Structural)]
pub struct PacingState {
    /// Clock reading at which the source was opened.
    pub start_instant: u128,
    /// Number of frames released since then.
    pub frame_count: u64,
}

impl View for PacingState {
    type V = PacingModel;

    open spec fn view(&self) -> PacingModel {
        PacingModel { start: self.start_instant as nat, frames: self.frame_count as nat }
    }
}

impl PacingState {
    /// Starts a cycle for a source opened at `now`.
    pub fn new(now: u128) -> (state: PacingState)
        ensures
            state@ == PacingModel::fresh(now as nat),
    {
        PacingState { start_instant: now, frame_count: 0 }
    }

    /// Counts one more frame and returns how long the caller has to wait
    /// before sending it: the part of the frame's scheduled offset that has
    /// not yet elapsed at `now`, or zero when the frame is already due.
    ///
    /// A late frame is sent at once and is not made up for: later frames
    /// keep their own schedule.
    pub fn pace(&mut self, now: u128) -> (delay: u128)
        requires
            old(self).frame_count < u64::MAX,
        ensures
            final(self)@ == old(self)@.advance(),
            delay as nat == final(self)@.delay(now as nat),
    {
        self.frame_count = self.frame_count + 1;
        let scheduled: u128 = (self.frame_count as u128) * FRAME_NANOS;
        let elapsed: u128 = if now >= self.start_instant {
            now - self.start_instant
        } else {
            0
        };
        if scheduled > elapsed {
            scheduled - elapsed
        } else {
            0
        }
    }
}

/// A frame that waits out its delay leaves no earlier than its scheduled
/// offset after the opening, whenever the clock reading is not older than
/// the opening itself.
pub proof fn lemma_delay_reaches_schedule(model: PacingModel, now: nat)
    requires
        now >= model.start,
    ensures
        now + model.delay(now) >= model.start + model.scheduled(),
{
}

/// Lost time does not compound. A frame that is counted when the frame
/// before it was already due waits at most one frame duration, however
/// late the stream is running; and a frame that has to wait at all leaves
/// exactly at its scheduled offset.
pub proof fn lemma_lateness_does_not_compound(model: PacingModel, now: nat)
    requires
        now >= model.start,
    ensures
        now >= model.start + model.scheduled() ==> model.advance().delay(now) <= FRAME_NANOS,
        model.advance().delay(now) > 0 ==> now + model.advance().delay(now) == model.start
            + model.advance().scheduled(),
{
}

} // verus!
