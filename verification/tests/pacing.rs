use radio_station::pacer::{PacingState, FRAME_NANOS};

const MS: u128 = 1_000_000;

#[test]
fn frame_lasts_twenty_milliseconds() {
    assert_eq!(FRAME_NANOS, 20 * MS);
}

#[test]
fn fresh_state_has_counted_nothing() {
    let state = PacingState::new(1_000);
    assert_eq!(state.start_instant, 1_000);
    assert_eq!(state.frame_count, 0);
}

#[test]
fn first_frame_waits_a_full_frame_when_sent_at_once() {
    let mut state = PacingState::new(1_000);
    assert_eq!(state.pace(1_000), 20 * MS);
    assert_eq!(state.frame_count, 1);
    assert_eq!(state.start_instant, 1_000);
}

#[test]
fn delay_is_what_is_left_of_the_schedule() {
    let mut state = PacingState::new(0);
    assert_eq!(state.pace(0), 20 * MS);
    assert_eq!(state.pace(25 * MS), 15 * MS);
    assert_eq!(state.pace(59 * MS + 999_999), 1);
    assert_eq!(state.frame_count, 3);
}

#[test]
fn frame_that_is_exactly_due_does_not_wait() {
    let mut state = PacingState::new(7);
    assert_eq!(state.pace(7 + 20 * MS), 0);
}

#[test]
fn late_frame_goes_at_once_and_is_not_made_up_for() {
    let mut state = PacingState { start_instant: 0, frame_count: 2 };
    assert_eq!(state.pace(100 * MS), 0);
    assert_eq!(state.pace(100 * MS), 0);
    assert_eq!(state.pace(100 * MS), 0);
    assert_eq!(state.frame_count, 5);
    assert_eq!(state.pace(100 * MS), 20 * MS);
    assert_eq!(state.pace(125 * MS), 15 * MS);
}

#[test]
fn reading_before_the_opening_counts_as_no_time() {
    let mut state = PacingState::new(1_000);
    assert_eq!(state.pace(500), 20 * MS);
}

#[test]
fn counter_can_reach_its_last_value() {
    let mut state = PacingState { start_instant: 0, frame_count: u64::MAX - 1 };
    let delay = state.pace(3);
    assert_eq!(state.frame_count, u64::MAX);
    assert_eq!(delay, (u64::MAX as u128) * 20 * MS - 3);
}

#[test]
fn waiting_out_the_delay_reaches_the_schedule() {
    let opened: u128 = 40;
    let mut state = PacingState::new(opened);
    let readings: [u128; 6] = [40, 41, 19 * MS, 90 * MS, 90 * MS + 5, 300 * MS];
    let mut k: u128 = 0;
    for now in readings {
        let delay = state.pace(now);
        k += 1;
        assert_eq!(state.frame_count as u128, k);
        assert!(now + delay >= opened + k * FRAME_NANOS);
        if delay > 0 {
            assert_eq!(now + delay, opened + k * FRAME_NANOS);
        }
    }
}
