//! The outbound loop: from demuxed packets to paced sends.
//!
//! The loop is a state machine. The caller performs what a
//! [`TransmitAction`] asks for, reports the result as a [`TransmitEvent`],
//! and [`TransmitLoop::step`] decides what happens next. One cycle runs from
//! the opening of the audio source to its end of stream; the loop then asks
//! for the source to be opened again. Empty packets carry no audio: they are
//! skipped without touching the pacing state. Any fault ends the loop.

use vstd::prelude::*;
use crate::error::SessionError;
use crate::pacer::{PacingModel, PacingState, FRAME_NANOS};

verus! {

/// What the caller reports to the loop.
#[derive(Debug, PartialEq, Eq)]
pub enum TransmitEvent {
    /// The audio source was opened, with a fresh demuxer, at clock reading
    /// `now`.
    SourceOpened { now: u128 },
    /// The demuxer produced a packet; `now` is the clock reading on arrival.
    Packet { data: Vec<u8>, now: u128 },
    /// The packet handed out for transmission has been sent.
    Sent,
    /// The demuxer reported the end of the stream.
    EndOfStream,
    /// Opening, reading, demuxing or sending failed.
    Fault(SessionError),
}

/// What the loop asks the caller to do next.
#[derive(Debug, PartialEq, Eq)]
pub enum TransmitAction {
    /// Open standard input as the audio source, with a fresh demuxer, and
    /// report [`TransmitEvent::SourceOpened`].
    OpenSource,
    /// Pull the next packet from the demuxer and report it.
    NextPacket,
    /// Wait for `delay`, send `data` on the outbound channel and report
    /// [`TransmitEvent::Sent`]. A delay of zero means: send at once.
    Transmit { delay: u128, data: Vec<u8> },
}

/// Where the outbound loop stands.
#[derive(Clone, Copy, Debug, PartialEq, Eq, Structural)]
pub enum TransmitLoop {
    /// No source is open.
    Idle,
    /// A source is open and its packets are being paced.
    Streaming(PacingState),
}

/// Mathematical model of a [`TransmitEvent`].
pub enum TransmitEventModel {
    SourceOpened { now: nat },
    Packet { data: Seq<u8>, now: nat },
    Sent,
    EndOfStream,
    Fault(SessionError),
}

/// Mathematical model of a [`TransmitAction`].
pub enum TransmitActionModel {
    OpenSource,
    NextPacket,
    Transmit { delay: nat, data: Seq<u8> },
}

/// Mathematical model of a [`TransmitLoop`].
pub enum TransmitModel {
    Idle,
    Streaming(PacingModel),
}

impl View for TransmitEvent {
    type V = TransmitEventModel;

    open spec fn view(&self) -> TransmitEventModel {
        match *self {
            TransmitEvent::SourceOpened { now } => TransmitEventModel::SourceOpened {
                now: now as nat,
            },
            TransmitEvent::Packet { data, now } => TransmitEventModel::Packet {
                data: data@,
                now: now as nat,
            },
            TransmitEvent::Sent => TransmitEventModel::Sent,
            TransmitEvent::EndOfStream => TransmitEventModel::EndOfStream,
            TransmitEvent::Fault(error) => TransmitEventModel::Fault(error),
        }
    }
}

impl View for TransmitAction {
    type V = TransmitActionModel;

    open spec fn view(&self) -> TransmitActionModel {
        match *self {
            TransmitAction::OpenSource => TransmitActionModel::OpenSource,
            TransmitAction::NextPacket => TransmitActionModel::NextPacket,
            TransmitAction::Transmit { delay, data } => TransmitActionModel::Transmit {
                delay: delay as nat,
                data: data@,
            },
        }
    }
}

impl View for TransmitLoop {
    type V = TransmitModel;

    open spec fn view(&self) -> TransmitModel {
        match *self {
            TransmitLoop::Idle => TransmitModel::Idle,
            TransmitLoop::Streaming(pacing) => TransmitModel::Streaming(pacing@),
        }
    }
}

/// The transition rule of the outbound loop: the next state and the action
/// to perform, or the error that ends the loop.
pub open spec fn step_model(state: TransmitModel, event: TransmitEventModel) -> Result<
    (TransmitModel, TransmitActionModel),
    SessionError,
> {
    match event {
        TransmitEventModel::Fault(error) => Err(error),
        TransmitEventModel::SourceOpened { now } => Ok(
            (TransmitModel::Streaming(PacingModel::fresh(now)), TransmitActionModel::NextPacket),
        ),
        TransmitEventModel::EndOfStream => Ok(
            (TransmitModel::Idle, TransmitActionModel::OpenSource),
        ),
        TransmitEventModel::Sent => match state {
            TransmitModel::Idle => Ok((TransmitModel::Idle, TransmitActionModel::OpenSource)),
            TransmitModel::Streaming(_) => Ok((state, TransmitActionModel::NextPacket)),
        },
        TransmitEventModel::Packet { data, now } => match state {
            TransmitModel::Idle => Ok((TransmitModel::Idle, TransmitActionModel::OpenSource)),
            TransmitModel::Streaming(pacing) => if data.len() == 0 {
                Ok((state, TransmitActionModel::NextPacket))
            } else {
                Ok(
                    (
                        TransmitModel::Streaming(pacing.advance()),
                        TransmitActionModel::Transmit {
                            delay: pacing.advance().delay(now),
                            data,
                        },
                    ),
                )
            },
        },
    }
}

/// The model of what [`TransmitLoop::step`] returns.
pub open spec fn step_result_model(
    result: Result<(TransmitLoop, TransmitAction), SessionError>,
) -> Result<(TransmitModel, TransmitActionModel), SessionError> {
    match result {
        Ok((state, action)) => Ok((state@, action@)),
        Err(error) => Err(error),
    }
}

impl TransmitLoop {
    /// Whether the frame counter has room for `event`: only a non-empty
    /// packet in an open cycle counts a frame.
    pub open spec fn has_room(self, event: TransmitEvent) -> bool {
        match (self, event) {
            (TransmitLoop::Streaming(pacing), TransmitEvent::Packet { data, .. }) => data@.len()
                > 0 ==> pacing.frame_count < u64::MAX,
            _ => true,
        }
    }

    /// The loop before anything has happened, and its first request.
    pub fn start() -> (begin: (TransmitLoop, TransmitAction))
        ensures
            begin.0@ == TransmitModel::Idle,
            begin.1@ == TransmitActionModel::OpenSource,
    {
        (TransmitLoop::Idle, TransmitAction::OpenSource)
    }

    /// Tells whether [`TransmitLoop::step`] may be called with `event`.
    pub fn can_step(&self, event: &TransmitEvent) -> (ok: bool)
        ensures
            ok == self.has_room(*event),
    {
        match self {
            TransmitLoop::Idle => true,
            TransmitLoop::Streaming(pacing) => match event {
                TransmitEvent::Packet { data, .. } => data.len() == 0 || pacing.frame_count
                    < u64::MAX,
                _ => true,
            },
        }
    }

    /// Advances the loop by one event.
    ///
    /// A fault ends the loop with that fault. Opening a source starts a
    /// fresh pacing cycle at the reported instant. The end of the stream
    /// closes the cycle and asks for the source to be opened again. In an
    /// open cycle an empty packet is skipped, and a non-empty one is counted
    /// as the next frame and handed back for transmission with the delay the
    /// pacer computed for it. Without an open source there is nothing to
    /// pace: the loop asks for the source to be opened.
    ///
    /// The frame counter must have room for the frame that a non-empty
    /// packet adds; [`TransmitLoop::can_step`] tells whether it has.
    pub fn step(self, event: TransmitEvent) -> (result: Result<
        (TransmitLoop, TransmitAction),
        SessionError,
    >)
        requires
            self.has_room(event),
        ensures
            step_result_model(result) == step_model(self@, event@),
            result is Err <==> event is Fault,
            (event matches TransmitEvent::Packet { data, .. } && data@.len() == 0) ==> (result matches Ok(
                (next, action),
            ) && next == self && !(action is Transmit)),
    {
        match event {
            TransmitEvent::Fault(error) => Err(error),
            TransmitEvent::SourceOpened { now } => Ok(
                (TransmitLoop::Streaming(PacingState::new(now)), TransmitAction::NextPacket),
            ),
            TransmitEvent::EndOfStream => Ok((TransmitLoop::Idle, TransmitAction::OpenSource)),
            TransmitEvent::Sent => match self {
                TransmitLoop::Idle => Ok((TransmitLoop::Idle, TransmitAction::OpenSource)),
                TransmitLoop::Streaming(pacing) => Ok(
                    (TransmitLoop::Streaming(pacing), TransmitAction::NextPacket),
                ),
            },
            TransmitEvent::Packet { data, now } => match self {
                TransmitLoop::Idle => Ok((TransmitLoop::Idle, TransmitAction::OpenSource)),
                TransmitLoop::Streaming(pacing) => {
                    if data.len() == 0 {
                        Ok((TransmitLoop::Streaming(pacing), TransmitAction::NextPacket))
                    } else {
                        let mut pacing = pacing;
                        let delay = pacing.pace(now);
                        Ok(
                            (
                                TransmitLoop::Streaming(pacing),
                                TransmitAction::Transmit { delay, data },
                            ),
                        )
                    }
                },
            },
        }
    }
}

/// The state of the loop after it has taken `events` in order, starting from
/// `state`. A fault ends the loop and leaves the state where it was.
pub open spec fn state_after(state: TransmitModel, events: Seq<TransmitEventModel>) -> TransmitModel
    decreases events.len(),
{
    if events.len() == 0 {
        state
    } else {
        let before = state_after(state, events.drop_last());
        match step_model(before, events.last()) {
            Ok((next, _)) => next,
            Err(_) => before,
        }
    }
}

/// Whether every event is one that occurs inside a single open cycle: a
/// packet from the demuxer or the completion of a send.
pub open spec fn within_cycle(events: Seq<TransmitEventModel>) -> bool {
    forall|i: int|
        0 <= i < events.len() ==> (#[trigger] events[i]) is Packet || events[i] is Sent
}

/// The payloads of the non-empty packets among `events`, in the order in
/// which the demuxer produced them.
pub open spec fn payloads(events: Seq<TransmitEventModel>) -> Seq<Seq<u8>>
    decreases events.len(),
{
    if events.len() == 0 {
        Seq::empty()
    } else {
        let earlier = payloads(events.drop_last());
        match events.last() {
            TransmitEventModel::Packet { data, .. } => if data.len() > 0 {
                earlier.push(data)
            } else {
                earlier
            },
            _ => earlier,
        }
    }
}

/// The payloads that the loop hands out for transmission while it takes
/// `events` in order, starting from `state`.
pub open spec fn handed_out(state: TransmitModel, events: Seq<TransmitEventModel>) -> Seq<Seq<u8>>
    decreases events.len(),
{
    if events.len() == 0 {
        Seq::empty()
    } else {
        let earlier = handed_out(state, events.drop_last());
        match step_model(state_after(state, events.drop_last()), events.last()) {
            Ok((_, TransmitActionModel::Transmit { data, .. })) => earlier.push(data),
            _ => earlier,
        }
    }
}

/// Inside one cycle every non-empty packet is handed out for transmission
/// exactly once, unchanged and in demux order, and nothing else is. The
/// frame counter equals their number and the opening instant stays what it
/// was: empty packets and completed sends never move the pacing state.
pub proof fn lemma_cycle_sends_in_order(opened_at: nat, events: Seq<TransmitEventModel>)
    requires
        within_cycle(events),
    ensures
        state_after(TransmitModel::Streaming(PacingModel::fresh(opened_at)), events)
            == TransmitModel::Streaming(
            PacingModel { start: opened_at, frames: payloads(events).len() },
        ),
        handed_out(TransmitModel::Streaming(PacingModel::fresh(opened_at)), events) == payloads(
            events,
        ),
    decreases events.len(),
{
    if events.len() > 0 {
        let earlier = events.drop_last();
        lemma_cycle_sends_in_order(opened_at, earlier);
    }
}

/// Pacing lower bound. After a source was opened at `opened_at` and any
/// events of the cycle have been taken, the next non-empty packet is handed
/// back for transmission unchanged, and waiting out its delay from the
/// clock reading `now` ends no earlier than `k` frame durations after the
/// opening, where `k` is the packet's position among the non-empty packets
/// of the cycle. The sizes of the packets play no part.
pub proof fn lemma_pacing_lower_bound(
    opened_at: nat,
    events: Seq<TransmitEventModel>,
    data: Seq<u8>,
    now: nat,
)
    requires
        within_cycle(events),
        data.len() > 0,
        now >= opened_at,
    ensures
        ({
            let state = state_after(
                TransmitModel::Streaming(PacingModel::fresh(opened_at)),
                events,
            );
            let k = payloads(events).len() + 1;
            &&& step_model(state, TransmitEventModel::Packet { data, now }) matches Ok(
                (TransmitModel::Streaming(pacing), TransmitActionModel::Transmit { delay, data: sent }),
            )
            &&& sent == data
            &&& pacing.frames == k
            &&& now + delay >= opened_at + k * (FRAME_NANOS as nat)
        }),
{
    lemma_cycle_sends_in_order(opened_at, events);
}

} // verus!
