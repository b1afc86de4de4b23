use std::time::Duration;
use std::time::Instant;

use turn_timing::protocol::AgentMessageItem;
use turn_timing::protocol::ResponseEvent;
use turn_timing::protocol::TurnItem;
use turn_timing::turn_timing::TurnSamplingPhaseTimings;
use turn_timing::turn_timing::TurnTimingState;
use turn_timing::turn_timing::TurnTimingStateInner;

fn ms(millis: u64) -> Duration {
    Duration::from_millis(millis)
}

fn delta() -> ResponseEvent {
    ResponseEvent::OutputTextDelta("hi".to_string())
}

fn agent_message() -> TurnItem {
    TurnItem::AgentMessage(AgentMessageItem {
        id: "msg".to_string(),
        content: vec!["hi".to_string()],
        phase: None,
        memory_citation: None,
    })
}

fn started(at: Instant) -> TurnTimingState {
    let mut state = TurnTimingState::default();
    state.mark_turn_started_at(at, 1_700_000_000_999);
    state
}

fn timings(state: &TurnTimingState, at: Instant) -> TurnSamplingPhaseTimings {
    match state.sampling_phase_timings_at(at) {
        Some(timings) => timings,
        None => panic!("the turn has sampled"),
    }
}

#[test]
fn nothing_is_timed_outside_a_turn() {
    let at = Instant::now();
    let mut state = TurnTimingState::default();
    state.mark_sampling_started_at(at);
    state.mark_sampling_completed_at(at + ms(5));
    assert_eq!(state.record_ttft_for_response_event_at(&delta(), at), None);
    assert_eq!(state.record_ttfm_for_turn_item_at(&agent_message(), at), None);
    assert_eq!(state.time_to_first_token_ms(), None);
    assert_eq!(state.started_at_unix_secs(), None);
    assert_eq!(
        state.completed_at_duration_and_sampling_phase_at(at + ms(9), 7),
        (Some(7), None, None)
    );
    let (completed_at, duration_ms, phases) = state.completed_at_duration_and_sampling_phase();
    assert!(completed_at.is_some_and(|secs| secs >= 0));
    assert_eq!((duration_ms, phases), (None, None));
}

#[test]
fn phases_are_reported_only_after_sampling() {
    let at = Instant::now();
    let mut state = started(at);
    assert_eq!(state.sampling_phase_timings_at(at + ms(5)), None);
    state.mark_sampling_started_at(at + ms(2));
    assert_eq!(timings(&state, at + ms(5)).sampling_request_count, 1);
}

#[test]
fn new_turn_forgets_the_last_one() {
    let at = Instant::now();
    let mut state = started(at);
    state.record_sampling_retry(ms(3));
    state.record_request_user_input_wait(ms(4));
    state.mark_sampling_started_at(at + ms(1));
    assert_eq!(
        state.record_ttft_for_response_event_at(&delta(), at + ms(2)),
        Some(ms(2))
    );
    assert_eq!(
        state.record_ttfm_for_turn_item_at(&agent_message(), at + ms(3)),
        Some(ms(3))
    );

    let again = at + ms(1000);
    state.mark_turn_started_at(again, -1_999);
    assert_eq!(state.started_at_unix_secs(), Some(-1));
    assert_eq!(state.time_to_first_token_ms(), None);
    assert_eq!(state.sampling_phase_timings_at(again + ms(9)), None);
    assert_eq!(
        state.record_ttft_for_response_event_at(&delta(), again + ms(6)),
        Some(ms(6))
    );
    assert_eq!(
        state.record_ttfm_for_turn_item_at(&agent_message(), again + ms(7)),
        Some(ms(7))
    );
    state.mark_sampling_started_at(again + ms(5));
    assert_eq!(
        timings(&state, again + ms(9)),
        TurnSamplingPhaseTimings {
            sampling_request_count: 1,
            sampling_request_duration_ms: 4,
            sampling_retry_count: 0,
            sampling_retry_delay_duration_ms: 0,
            pre_sampling_duration_ms: 5,
            inter_sampling_duration_ms: 0,
            post_sampling_duration_ms: 0,
            request_user_input_count: 0,
            request_user_input_wait_duration_ms: 0,
        }
    );
}

#[test]
fn start_is_kept_within_the_turn() {
    let at = Instant::now();
    let mut state = started(at);
    state.mark_sampling_started_at(at + ms(1));
    state.mark_sampling_completed_at(at + ms(2));
    state.record_sampling_retry(ms(3));
    assert_eq!(state.started_at_unix_secs(), Some(1_700_000_000));
    let report = state.completed_at_duration_and_sampling_phase_at(at + ms(20), 9);
    assert_eq!((report.0, report.1), (Some(9), Some(20)));
}

#[test]
fn reported_first_token_time_is_kept() {
    let at = Instant::now();
    let mut state = started(at);
    assert_eq!(
        state.record_ttft_for_response_event_at(&ResponseEvent::Created, at + ms(10)),
        None
    );
    assert_eq!(state.time_to_first_token_ms(), None);
    assert_eq!(
        state.record_ttft_for_response_event_at(&delta(), at + ms(30)),
        Some(ms(30))
    );
    assert_eq!(
        state.record_ttft_for_response_event_at(&delta(), at + ms(40)),
        None
    );
    state.mark_sampling_started_at(at + ms(50));
    assert_eq!(state.time_to_first_token_ms(), Some(30));
}

#[test]
fn first_message_is_timed_apart_from_first_token() {
    let at = Instant::now();
    let mut state = started(at);
    assert_eq!(
        state.record_ttfm_for_turn_item_at(&TurnItem::Other, at + ms(1)),
        None
    );
    assert_eq!(
        state.record_ttfm_for_turn_item_at(&agent_message(), at + ms(2)),
        Some(ms(2))
    );
    assert_eq!(
        state.record_ttft_for_response_event_at(&delta(), at + ms(3)),
        Some(ms(3))
    );
    assert_eq!(
        state.record_ttfm_for_turn_item_at(&agent_message(), at + ms(4)),
        None
    );
}

#[test]
fn output_before_the_start_takes_no_time() {
    let at = Instant::now() + ms(1000);
    let mut state = started(at);
    assert_eq!(
        state.record_ttft_for_response_event_at(&delta(), at - ms(10)),
        Some(Duration::ZERO)
    );
    assert_eq!(
        state.record_ttfm_for_turn_item_at(&agent_message(), at - ms(10)),
        Some(Duration::ZERO)
    );
    assert_eq!(state.time_to_first_token_ms(), Some(0));
}

#[test]
fn repeated_sampling_marks_are_ignored() {
    let at = Instant::now();
    let mut state = started(at);
    state.mark_sampling_completed_at(at + ms(1));
    assert_eq!(state.sampling_phase_timings_at(at + ms(1)), None);
    state.mark_sampling_started_at(at + ms(10));
    state.mark_sampling_started_at(at + ms(20));
    state.mark_sampling_completed_at(at + ms(30));
    state.mark_sampling_completed_at(at + ms(40));
    let report = timings(&state, at + ms(50));
    assert_eq!(report.sampling_request_count, 1);
    assert_eq!(report.pre_sampling_duration_ms, 10);
    assert_eq!(report.sampling_request_duration_ms, 20);
    assert_eq!(report.post_sampling_duration_ms, 20);
}

#[test]
fn running_request_counts_as_if_completed() {
    let at = Instant::now();
    let mut state = started(at);
    state.mark_sampling_started_at(at + ms(10));
    state.mark_sampling_completed_at(at + ms(30));
    state.mark_sampling_started_at(at + ms(35));
    let running = timings(&state, at + ms(42));
    state.mark_sampling_completed_at(at + ms(42));
    assert_eq!(timings(&state, at + ms(42)), running);
    assert_eq!(running.sampling_request_duration_ms, 27);
    assert_eq!(running.inter_sampling_duration_ms, 5);
    assert_eq!(running.post_sampling_duration_ms, 0);
}

#[test]
fn phases_add_up_to_the_turn_but_for_rounding() {
    let at = Instant::now();
    let us = Duration::from_micros;
    let mut state = started(at);
    state.mark_sampling_started_at(at + us(1_900));
    state.mark_sampling_completed_at(at + us(3_800));
    state.mark_sampling_started_at(at + us(5_700));
    state.mark_sampling_completed_at(at + us(5_700));
    let report = state.completed_at_duration_and_sampling_phase_at(at + us(7_600), 0);
    assert_eq!(report.1, Some(7));
    let phases = timings(&state, at + us(7_600));
    assert_eq!(report.2, Some(phases));
    assert_eq!(phases.pre_sampling_duration_ms, 1);
    assert_eq!(phases.sampling_request_duration_ms, 1);
    assert_eq!(phases.inter_sampling_duration_ms, 1);
    assert_eq!(phases.post_sampling_duration_ms, 1);
}

#[test]
fn only_sampling_divides_time() {
    let at = Instant::now();
    let mut state = started(at);
    state.mark_sampling_started_at(at + ms(10));
    state.mark_sampling_completed_at(at + ms(30));
    let before = timings(&state, at + ms(50));
    state.record_sampling_retry(ms(7));
    state.record_sampling_retry(ms(8));
    state.record_request_user_input_wait(ms(9));
    state.record_ttft_for_response_event_at(&delta(), at + ms(12));
    state.record_ttfm_for_turn_item_at(&agent_message(), at + ms(13));
    assert_eq!(
        timings(&state, at + ms(50)),
        TurnSamplingPhaseTimings {
            sampling_retry_count: 2,
            sampling_retry_delay_duration_ms: 15,
            request_user_input_count: 1,
            request_user_input_wait_duration_ms: 9,
            ..before
        }
    );
}

#[test]
fn later_end_prolongs_the_last_phase() {
    let at = Instant::now();
    let mut state = started(at);
    state.mark_sampling_started_at(at + ms(10));
    let running = timings(&state, at + ms(20));
    assert_eq!(
        timings(&state, at + ms(25)),
        TurnSamplingPhaseTimings {
            sampling_request_duration_ms: 15,
            ..running
        }
    );
    state.mark_sampling_completed_at(at + ms(25));
    let idle = timings(&state, at + ms(30));
    assert_eq!(
        timings(&state, at + ms(40)),
        TurnSamplingPhaseTimings {
            post_sampling_duration_ms: 15,
            ..idle
        }
    );
}

#[test]
fn retries_and_waits_before_a_turn_are_forgotten_when_it_starts() {
    let at = Instant::now();
    let mut state = TurnTimingState::default();
    state.record_sampling_retry(ms(7));
    state.record_request_user_input_wait(ms(7));
    state.mark_turn_started_at(at, 0);
    state.mark_sampling_started_at(at);
    let report = timings(&state, at);
    assert_eq!(report.sampling_retry_count, 0);
    assert_eq!(report.request_user_input_count, 0);
}

#[test]
fn added_up_delays_are_cut_off_at_the_longest_span() {
    let at = Instant::now();
    let mut state = started(at);
    state.mark_sampling_started_at(at);
    state.record_sampling_retry(Duration::MAX);
    state.record_sampling_retry(ms(1));
    let report = timings(&state, at);
    assert_eq!(report.sampling_retry_count, 2);
    assert_eq!(report.sampling_retry_delay_duration_ms, u64::MAX);
}

#[test]
fn events_out_of_order_take_no_time() {
    let at = Instant::now() + ms(1000);
    let mut state = started(at);
    state.mark_sampling_started_at(at - ms(10));
    state.mark_sampling_completed_at(at - ms(20));
    state.mark_sampling_started_at(at - ms(30));
    let report = timings(&state, at - ms(40));
    assert_eq!(report.pre_sampling_duration_ms, 0);
    assert_eq!(report.sampling_request_duration_ms, 0);
    assert_eq!(report.inter_sampling_duration_ms, 0);
    assert_eq!(report.sampling_request_count, 2);
}

#[test]
fn operations_that_read_the_clock_follow_it() {
    let at = Instant::now();
    let mut state = TurnTimingState::default();
    assert!(state.mark_turn_started(at) > 0);
    state.mark_sampling_started();
    state.mark_sampling_completed();
    let (completed_at, duration_ms, phases) = state.completed_at_duration_and_sampling_phase();
    let bound = at.elapsed().as_millis() as i64;
    assert!(completed_at.is_some_and(|secs| secs > 0));
    assert!(duration_ms.is_some_and(|millis| 0 <= millis && millis <= bound));
    assert!(phases.is_some_and(|phases| phases.sampling_request_count == 1));
}

#[test]
fn record_works_by_itself() {
    let at = Instant::now();
    let mut record = TurnTimingStateInner::default();
    record.mark_sampling_started(at);
    record.mark_sampling_completed(at);
    assert_eq!(record.sampling_phase_timings(at), None);
    assert_eq!(record.time_to_first_token(), None);
    assert_eq!(record.record_turn_ttft(), None);
    assert_eq!(record.record_turn_ttfm(), None);
    assert_eq!(record.record_turn_ttft_at(at), None);
    assert_eq!(record.record_turn_ttfm_at(at), None);
}

#[test]
fn counts_and_spans_never_shrink_within_a_turn() {
    let at = Instant::now();
    let mut state = started(at);
    state.mark_sampling_started_at(at + ms(10));
    state.mark_sampling_completed_at(at + ms(30));
    state.record_sampling_retry(ms(5));
    let before = timings(&state, at + ms(30));
    state.mark_sampling_started_at(at + ms(20));
    state.mark_sampling_completed_at(at + ms(15));
    state.record_sampling_retry(Duration::ZERO);
    assert_eq!(
        timings(&state, at + ms(15)),
        TurnSamplingPhaseTimings {
            sampling_request_count: 2,
            sampling_retry_count: 2,
            ..before
        }
    );
}

#[test]
fn report_adds_up_completed_requests() {
    let at = Instant::now();
    let mut state = started(at);
    for (start, end) in [(5, 8), (10, 20), (26, 27)] {
        state.mark_sampling_started_at(at + ms(start));
        state.mark_sampling_completed_at(at + ms(end));
    }
    let report = timings(&state, at + ms(40));
    assert_eq!(report.sampling_request_count, 3);
    assert_eq!(report.pre_sampling_duration_ms, 5);
    assert_eq!(report.sampling_request_duration_ms, 14);
    assert_eq!(report.inter_sampling_duration_ms, 8);
    assert_eq!(report.post_sampling_duration_ms, 13);
}

#[test]
fn whole_milliseconds_partition_the_turn_exactly() {
    let at = Instant::now();
    let mut state = started(at);
    state.mark_sampling_started_at(at + ms(100));
    state.mark_sampling_completed_at(at + ms(400));
    state.mark_sampling_started_at(at + ms(700));
    let report = state.completed_at_duration_and_sampling_phase_at(at + ms(1201), 0);
    let phases = timings(&state, at + ms(1201));
    assert_eq!(report.2, Some(phases));
    let sum = phases.pre_sampling_duration_ms
        + phases.sampling_request_duration_ms
        + phases.inter_sampling_duration_ms
        + phases.post_sampling_duration_ms;
    assert_eq!(sum, 1201);
    assert_eq!(report.1, Some(1201));
}
