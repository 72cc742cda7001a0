use radio_station::error::SessionError;
use radio_station::race::{race, Completion, Side, Verdict};
use radio_station::receive::{receive_step, ReceiveAction, ReceiveEvent};
use radio_station::session::session_outcome;

#[test]
fn inbound_packet_is_discarded() {
    assert_eq!(receive_step(ReceiveEvent::Packet), ReceiveAction::Discard);
}

#[test]
fn clean_close_ends_the_inbound_loop_with_success() {
    assert_eq!(receive_step(ReceiveEvent::Closed), ReceiveAction::Finish(Ok(())));
}

#[test]
fn inbound_failure_ends_the_inbound_loop_with_that_failure() {
    assert_eq!(
        receive_step(ReceiveEvent::Fault(SessionError::Transport)),
        ReceiveAction::Finish(Err(SessionError::Transport))
    );
    assert_eq!(
        receive_step(ReceiveEvent::Fault(SessionError::Demux)),
        ReceiveAction::Finish(Err(SessionError::Demux))
    );
}

#[test]
fn no_verdict_while_both_loops_run() {
    assert_eq!(race(None, None), None);
}

#[test]
fn lone_finisher_wins() {
    let done = Completion { at: 10, outcome: Err(SessionError::Transport) };
    assert_eq!(
        race(Some(done), None),
        Some(Verdict { winner: Side::Receive, at: 10, outcome: Err(SessionError::Transport) })
    );
    assert_eq!(
        race(None, Some(done)),
        Some(Verdict { winner: Side::Transmit, at: 10, outcome: Err(SessionError::Transport) })
    );
}

#[test]
fn earlier_failure_beats_later_success() {
    let receive = Completion { at: 900, outcome: Ok(()) };
    let transmit = Completion { at: 300, outcome: Err(SessionError::Demux) };
    assert_eq!(
        race(Some(receive), Some(transmit)),
        Some(Verdict { winner: Side::Transmit, at: 300, outcome: Err(SessionError::Demux) })
    );
}

#[test]
fn earlier_success_beats_later_failure() {
    let receive = Completion { at: 299, outcome: Ok(()) };
    let transmit = Completion { at: 300, outcome: Err(SessionError::Source) };
    assert_eq!(
        race(Some(receive), Some(transmit)),
        Some(Verdict { winner: Side::Receive, at: 299, outcome: Ok(()) })
    );
}

#[test]
fn race_is_over_at_the_first_event() {
    let outcomes = [Ok(()), Err(SessionError::Transport), Err(SessionError::Demux)];
    for first in outcomes {
        for second in outcomes {
            let early = Completion { at: 1_000, outcome: first };
            let late = Completion { at: 1_001, outcome: second };
            let receive_first = race(Some(early), Some(late)).unwrap();
            assert_eq!(receive_first.outcome, first);
            assert_eq!(receive_first.at, 1_000);
            assert_eq!(receive_first.winner, Side::Receive);
            assert_eq!(Some(receive_first), race(Some(early), None));
            let transmit_first = race(Some(late), Some(early)).unwrap();
            assert_eq!(transmit_first.outcome, first);
            assert_eq!(transmit_first.at, 1_000);
            assert_eq!(transmit_first.winner, Side::Transmit);
            assert_eq!(Some(transmit_first), race(None, Some(early)));
        }
    }
}

#[test]
fn inbound_loop_wins_a_tie() {
    let receive = Completion { at: 5, outcome: Ok(()) };
    let transmit = Completion { at: 5, outcome: Err(SessionError::Transport) };
    assert_eq!(
        race(Some(receive), Some(transmit)),
        Some(Verdict { winner: Side::Receive, at: 5, outcome: Ok(()) })
    );
}

#[test]
fn loser_is_the_other_side() {
    assert_eq!(Side::Receive.other(), Side::Transmit);
    assert_eq!(Side::Transmit.other(), Side::Receive);
}

#[test]
fn failed_opening_is_the_outcome() {
    let done = Completion { at: 1, outcome: Ok(()) };
    assert_eq!(
        session_outcome(Err(SessionError::Transport), None, None),
        Some(Err(SessionError::Transport))
    );
    assert_eq!(
        session_outcome(Err(SessionError::Transport), Some(done), Some(done)),
        Some(Err(SessionError::Transport))
    );
}

#[test]
fn open_session_runs_until_a_loop_ends() {
    assert_eq!(session_outcome(Ok(()), None, None), None);
}

#[test]
fn first_loop_to_end_decides_the_session() {
    let closed = Completion { at: 50, outcome: Ok(()) };
    let broken = Completion { at: 20, outcome: Err(SessionError::Demux) };
    assert_eq!(session_outcome(Ok(()), Some(closed), None), Some(Ok(())));
    assert_eq!(session_outcome(Ok(()), None, Some(broken)), Some(Err(SessionError::Demux)));
    assert_eq!(
        session_outcome(Ok(()), Some(closed), Some(broken)),
        Some(Err(SessionError::Demux))
    );
}

#[test]
fn failures_have_distinct_messages() {
    assert_eq!(SessionError::Transport.message(), "voice transport failed");
    assert_eq!(SessionError::Demux.message(), "audio stream is malformed");
    assert_eq!(SessionError::Source.message(), "audio source could not be read");
}
