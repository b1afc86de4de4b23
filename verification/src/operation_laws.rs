//! What a caller can rely on of each operation, call by call.
//!
//! A law here takes a call as given: its arguments, the state before and after it, and what it
//! handed back. It says how these relate, in plain numbers.
use crate::clock::duration_millis_i64;
use crate::clock::duration_millis_u64;
use crate::clock::duration_nanos;
use crate::clock::instant_nanos;
use crate::clock::now_unix_timestamp_ms;
use crate::clock::now_unix_timestamp_secs;
use crate::clock::system_time_nanos;
use crate::clock::unix_timestamp_ms_at;
use crate::clock::MAX_DURATION_NANOS;
use crate::first_output::joined_output_text;
use crate::first_output::raw_assistant_output_text_from_item;
use crate::first_output::response_event_records_turn_ttft;
use crate::first_output::response_item_records_turn_ttft;
use crate::laws::law_output_text_is_that_of_some_part;
use crate::model::TurnModel;
use crate::protocol::ContentItem;
use crate::protocol::ReasoningItemContent;
use crate::protocol::ReasoningItemReasoningSummary;
use crate::protocol::ResponseEvent;
use crate::protocol::ResponseItem;
use crate::protocol::TurnItem;
use crate::turn_timing::TurnSamplingPhaseTimings;
use crate::turn_timing::TurnTimingState;
use crate::turn_timing::TurnTimingStateInner;
use std::time::Duration;
use std::time::Instant;
use std::time::SystemTime;
use vstd::math::max;
use vstd::math::min;
use vstd::prelude::*;

verus! {

/// A new state knows of no turn and has counted nothing.
pub proof fn law_new_state_is_empty(state: TurnTimingState, record: TurnTimingStateInner)
    requires
        call_ensures(TurnTimingState::default, (), state),
        call_ensures(TurnTimingStateInner::default, (), record),
    ensures
        state@ == record@,
        state@.started_at is None,
        state@.started_at_unix_secs is None,
        state@.first_token_at is None,
        state@.first_message_at is None,
        state@.first_sampling_started_at is None,
        state@.active_sampling_started_at is None,
        state@.last_sampling_completed_at is None,
        state@.sampling_request_count == 0,
        state@.sampling_request_nanos == 0,
        state@.sampling_retry_count == 0,
        state@.sampling_retry_delay_nanos == 0,
        state@.inter_sampling_nanos == 0,
        state@.request_user_input_count == 0,
        state@.request_user_input_wait_nanos == 0,
{
}

/// Starting a turn leaves a state that knows when it started, on both clocks, and nothing else,
/// whatever was recorded before. The seconds are the milliseconds without their last three digits.
pub proof fn law_starting_a_turn(
    state: &mut TurnTimingState,
    started_at: Instant,
    started_at_unix_ms: i64,
)
    requires
        call_ensures(
            TurnTimingState::mark_turn_started_at,
            (state, started_at, started_at_unix_ms),
            (),
        ),
    ensures
        final(state)@.started_at == Some(instant_nanos(started_at)),
        final(state)@.started_at_unix_secs matches Some(secs) && {
            &&& started_at_unix_ms >= 0 ==> secs * 1000 <= started_at_unix_ms < secs * 1000 + 1000
            &&& started_at_unix_ms < 0 ==> secs * 1000 - 1000 < started_at_unix_ms <= secs * 1000
        },
        final(state)@.first_token_at is None,
        final(state)@.first_message_at is None,
        final(state)@.first_sampling_started_at is None,
        final(state)@.active_sampling_started_at is None,
        final(state)@.last_sampling_completed_at is None,
        final(state)@.sampling_request_count == 0,
        final(state)@.sampling_request_nanos == 0,
        final(state)@.sampling_retry_count == 0,
        final(state)@.sampling_retry_delay_nanos == 0,
        final(state)@.inter_sampling_nanos == 0,
        final(state)@.request_user_input_count == 0,
        final(state)@.request_user_input_wait_nanos == 0,
{
}

/// Starting a turn now does what starting it at the timestamp handed back does. That timestamp is
/// the whole milliseconds since the epoch of a reading of the wall clock.
pub proof fn law_starting_a_turn_now(
    state: &mut TurnTimingState,
    other: &mut TurnTimingState,
    started_at: Instant,
    started_at_unix_ms: i64,
)
    requires
        call_ensures(TurnTimingState::mark_turn_started, (state, started_at), started_at_unix_ms),
        call_ensures(
            TurnTimingState::mark_turn_started_at,
            (other, started_at, started_at_unix_ms),
            (),
        ),
    ensures
        final(state)@ == final(other)@,
        exists|now: SystemTime|
            call_ensures(SystemTime::now, (), now) && started_at_unix_ms == min(
                max(0, #[trigger] system_time_nanos(now)) / 1_000_000,
                i64::MAX as int,
            ),
{
}

/// A request that starts within a turn while none is running becomes the running one and adds one
/// to the count. The first of the turn is remembered as such. Every later one adds the time since
/// the last completion, and no more, to the time between requests. Nothing else changes, whatever
/// output, messages, retries and waits were recorded. Any other start is ignored.
pub proof fn law_starting_a_request(record: &mut TurnTimingStateInner, started_at: Instant)
    requires
        call_ensures(TurnTimingStateInner::mark_sampling_started, (record, started_at), ()),
    ensures
        ({
            let before = old(record)@;
            let after = final(record)@;
            let at = instant_nanos(started_at);
            if before.started_at is Some && before.active_sampling_started_at is None {
                &&& after.active_sampling_started_at == Some(at)
                &&& after.sampling_request_count == min(
                    before.sampling_request_count + 1int,
                    u64::MAX as int,
                )
                &&& after.first_sampling_started_at == (
                if before.first_sampling_started_at is Some {
                    before.first_sampling_started_at
                } else {
                    Some(at)
                })
                &&& after.inter_sampling_nanos == (if before.first_sampling_started_at is Some
                    && before.last_sampling_completed_at is Some {
                    min(
                        before.inter_sampling_nanos + max(
                            0,
                            at - before.last_sampling_completed_at->0,
                        ),
                        MAX_DURATION_NANOS as int,
                    )
                } else {
                    before.inter_sampling_nanos as int
                })
                &&& after.sampling_request_nanos == before.sampling_request_nanos
                &&& after.last_sampling_completed_at == before.last_sampling_completed_at
                &&& after.started_at == before.started_at
                &&& after.started_at_unix_secs == before.started_at_unix_secs
                &&& after.first_token_at == before.first_token_at
                &&& after.first_message_at == before.first_message_at
                &&& after.sampling_retry_count == before.sampling_retry_count
                &&& after.sampling_retry_delay_nanos == before.sampling_retry_delay_nanos
                &&& after.request_user_input_count == before.request_user_input_count
                &&& after.request_user_input_wait_nanos == before.request_user_input_wait_nanos
            } else {
                after == before
            }
        }),
{
}

/// When a request is running, completing it leaves none running, makes this the last completion,
/// and adds the time since the request started, up to the longest span, to the time within
/// requests. Nothing else changes, whatever output, messages, retries and waits were recorded.
/// When none is running, nothing changes.
pub proof fn law_completing_a_request(record: &mut TurnTimingStateInner, completed_at: Instant)
    requires
        call_ensures(TurnTimingStateInner::mark_sampling_completed, (record, completed_at), ()),
    ensures
        ({
            let before = old(record)@;
            let after = final(record)@;
            let at = instant_nanos(completed_at);
            if before.active_sampling_started_at is Some {
                &&& after.active_sampling_started_at is None
                &&& after.last_sampling_completed_at == Some(at)
                &&& after.sampling_request_nanos == min(
                    before.sampling_request_nanos + max(
                        0,
                        at - before.active_sampling_started_at->0,
                    ),
                    MAX_DURATION_NANOS as int,
                )
                &&& after.sampling_request_count == before.sampling_request_count
                &&& after.first_sampling_started_at == before.first_sampling_started_at
                &&& after.inter_sampling_nanos == before.inter_sampling_nanos
                &&& after.started_at == before.started_at
                &&& after.started_at_unix_secs == before.started_at_unix_secs
                &&& after.first_token_at == before.first_token_at
                &&& after.first_message_at == before.first_message_at
                &&& after.sampling_retry_count == before.sampling_retry_count
                &&& after.sampling_retry_delay_nanos == before.sampling_retry_delay_nanos
                &&& after.request_user_input_count == before.request_user_input_count
                &&& after.request_user_input_wait_nanos == before.request_user_input_wait_nanos
            } else {
                after == before
            }
        }),
{
}

/// The state marks the start and the completion of requests as its record does.
pub proof fn law_state_marks_requests_like_its_record(
    state: &mut TurnTimingState,
    record: &mut TurnTimingStateInner,
    at: Instant,
)
    requires
        old(state)@ == old(record)@,
    ensures
        call_ensures(TurnTimingState::mark_sampling_started_at, (state, at), ()) && call_ensures(
            TurnTimingStateInner::mark_sampling_started,
            (record, at),
            (),
        ) ==> final(state)@ == final(record)@,
        call_ensures(TurnTimingState::mark_sampling_completed_at, (state, at), ()) && call_ensures(
            TurnTimingStateInner::mark_sampling_completed,
            (record, at),
            (),
        ) ==> final(state)@ == final(record)@,
{
}

/// Marking the start or the completion of a request now is marking it at a reading of the
/// monotonic clock: the request runs from that reading, or the last completion is at it.
pub proof fn law_marking_requests_now(state: &mut TurnTimingState)
    ensures
        call_ensures(TurnTimingState::mark_sampling_started, (state,), ()) ==> {
            &&& old(state)@.started_at is None || old(state)@.active_sampling_started_at is Some
                ==> final(state)@ == old(state)@
            &&& old(state)@.started_at is Some && old(state)@.active_sampling_started_at is None
                ==> exists|now: Instant|
                call_ensures(Instant::now, (), now)
                    && final(state)@.active_sampling_started_at == Some(
                    #[trigger] instant_nanos(now),
                ) && final(state)@ == old(state)@.sampling_started(instant_nanos(now))
        },
        call_ensures(TurnTimingState::mark_sampling_completed, (state,), ()) ==> {
            &&& old(state)@.active_sampling_started_at is None ==> final(state)@ == old(state)@
            &&& old(state)@.active_sampling_started_at is Some ==> exists|now: Instant|
                call_ensures(Instant::now, (), now)
                    && final(state)@.last_sampling_completed_at == Some(
                    #[trigger] instant_nanos(now),
                ) && final(state)@ == old(state)@.sampling_completed(instant_nanos(now))
        },
{
}

/// Each retry adds one to the number of retries and its delay to their delays, up to the longest
/// span. Nothing else changes.
pub proof fn law_recording_a_retry(state: &mut TurnTimingState, delay: Duration)
    requires
        call_ensures(TurnTimingState::record_sampling_retry, (state, delay), ()),
    ensures
        final(state)@.sampling_retry_count == min(
            old(state)@.sampling_retry_count + 1int,
            u64::MAX as int,
        ),
        final(state)@.sampling_retry_delay_nanos == min(
            (old(state)@.sampling_retry_delay_nanos + duration_nanos(delay)) as int,
            MAX_DURATION_NANOS as int,
        ),
        final(state)@ == (TurnModel {
            sampling_retry_count: final(state)@.sampling_retry_count,
            sampling_retry_delay_nanos: final(state)@.sampling_retry_delay_nanos,
            ..old(state)@
        }),
{
}

/// Each wait for the user adds one to the number of waits and its length to theirs, up to the
/// longest span. Nothing else changes.
pub proof fn law_recording_a_wait(state: &mut TurnTimingState, wait: Duration)
    requires
        call_ensures(TurnTimingState::record_request_user_input_wait, (state, wait), ()),
    ensures
        final(state)@.request_user_input_count == min(
            old(state)@.request_user_input_count + 1int,
            u64::MAX as int,
        ),
        final(state)@.request_user_input_wait_nanos == min(
            (old(state)@.request_user_input_wait_nanos + duration_nanos(wait)) as int,
            MAX_DURATION_NANOS as int,
        ),
        final(state)@ == (TurnModel {
            request_user_input_count: final(state)@.request_user_input_count,
            request_user_input_wait_nanos: final(state)@.request_user_input_wait_nanos,
            ..old(state)@
        }),
{
}

/// Output is recorded exactly if a turn has started and no output was recorded in it. What is
/// handed back then is the time since the start of the turn. Nothing but the time of the first
/// output changes, and nothing at all where output is not recorded.
pub proof fn law_recording_output(
    record: &mut TurnTimingStateInner,
    now: Instant,
    span: Option<Duration>,
)
    requires
        call_ensures(TurnTimingStateInner::record_turn_ttft_at, (record, now), span),
    ensures
        span is Some <==> old(record)@.started_at is Some && old(record)@.first_token_at is None,
        span matches Some(span) ==> {
            &&& duration_nanos(span) == max(0, instant_nanos(now) - old(record)@.started_at->0)
            &&& final(record)@ == (TurnModel {
                first_token_at: Some(instant_nanos(now)),
                ..old(record)@
            })
        },
        span is None ==> final(record)@ == old(record)@,
{
}

/// A message is recorded exactly if a turn has started and no message was recorded in it. What is
/// handed back then is the time since the start of the turn. Nothing but the time of the first
/// message changes, and nothing at all where the message is not recorded.
pub proof fn law_recording_a_message(
    record: &mut TurnTimingStateInner,
    now: Instant,
    span: Option<Duration>,
)
    requires
        call_ensures(TurnTimingStateInner::record_turn_ttfm_at, (record, now), span),
    ensures
        span is Some <==> old(record)@.started_at is Some && old(record)@.first_message_at is None,
        span matches Some(span) ==> {
            &&& duration_nanos(span) == max(0, instant_nanos(now) - old(record)@.started_at->0)
            &&& final(record)@ == (TurnModel {
                first_message_at: Some(instant_nanos(now)),
                ..old(record)@
            })
        },
        span is None ==> final(record)@ == old(record)@,
{
}

/// Recording output or a message now is recording it at a reading of the monotonic clock.
pub proof fn law_recording_output_and_messages_now(
    record: &mut TurnTimingStateInner,
    span: Option<Duration>,
)
    ensures
        call_ensures(TurnTimingStateInner::record_turn_ttft, (record,), span) ==> {
            &&& span is Some <==> old(record)@.started_at is Some && old(
                record,
            )@.first_token_at is None
            &&& span matches Some(span) ==> exists|now: Instant|
                call_ensures(Instant::now, (), now) && duration_nanos(span) == max(
                    0,
                    #[trigger] instant_nanos(now) - old(record)@.started_at->0,
                ) && final(record)@ == (TurnModel {
                    first_token_at: Some(instant_nanos(now)),
                    ..old(record)@
                })
            &&& span is None ==> final(record)@ == old(record)@
        },
        call_ensures(TurnTimingStateInner::record_turn_ttfm, (record,), span) ==> {
            &&& span is Some <==> old(record)@.started_at is Some && old(
                record,
            )@.first_message_at is None
            &&& span matches Some(span) ==> exists|now: Instant|
                call_ensures(Instant::now, (), now) && duration_nanos(span) == max(
                    0,
                    #[trigger] instant_nanos(now) - old(record)@.started_at->0,
                ) && final(record)@ == (TurnModel {
                    first_message_at: Some(instant_nanos(now)),
                    ..old(record)@
                })
            &&& span is None ==> final(record)@ == old(record)@
        },
{
}

/// An event is recorded exactly if it counts as output, a turn has started and no output was
/// recorded in it. What is handed back then is the time since the start of the turn. Nothing but
/// the time of the first output changes, and nothing at all where the event is not recorded.
pub proof fn law_recording_an_event(
    state: &mut TurnTimingState,
    event: ResponseEvent,
    counts: bool,
    now: Instant,
    span: Option<Duration>,
)
    requires
        call_ensures(response_event_records_turn_ttft, (&event,), counts),
        call_ensures(
            TurnTimingState::record_ttft_for_response_event_at,
            (state, &event, now),
            span,
        ),
    ensures
        span is Some <==> counts && old(state)@.started_at is Some && old(
            state,
        )@.first_token_at is None,
        span matches Some(span) ==> {
            &&& duration_nanos(span) == max(0, instant_nanos(now) - old(state)@.started_at->0)
            &&& final(state)@ == (TurnModel {
                first_token_at: Some(instant_nanos(now)),
                ..old(state)@
            })
        },
        span is None ==> final(state)@ == old(state)@,
{
}

/// Recording an event now is recording it at a reading of the monotonic clock.
pub proof fn law_recording_an_event_now(
    state: &mut TurnTimingState,
    event: ResponseEvent,
    counts: bool,
    span: Option<Duration>,
)
    requires
        call_ensures(response_event_records_turn_ttft, (&event,), counts),
        call_ensures(TurnTimingState::record_ttft_for_response_event, (state, &event), span),
    ensures
        span is Some <==> counts && old(state)@.started_at is Some && old(
            state,
        )@.first_token_at is None,
        span matches Some(span) ==> exists|now: Instant|
            call_ensures(Instant::now, (), now) && duration_nanos(span) == max(
                0,
                #[trigger] instant_nanos(now) - old(state)@.started_at->0,
            ) && final(state)@ == (TurnModel {
                first_token_at: Some(instant_nanos(now)),
                ..old(state)@
            }),
        span is None ==> final(state)@ == old(state)@,
{
}

/// An item of the turn is recorded exactly if it is a message from the agent, a turn has started
/// and no message was recorded in it. What is handed back then is the time since the start of the
/// turn. Nothing but the time of the first message changes, and nothing at all where the item is
/// not recorded.
pub proof fn law_recording_a_turn_item(
    state: &mut TurnTimingState,
    item: TurnItem,
    now: Instant,
    span: Option<Duration>,
)
    requires
        call_ensures(TurnTimingState::record_ttfm_for_turn_item_at, (state, &item, now), span),
    ensures
        span is Some <==> item is AgentMessage && old(state)@.started_at is Some && old(
            state,
        )@.first_message_at is None,
        span matches Some(span) ==> {
            &&& duration_nanos(span) == max(0, instant_nanos(now) - old(state)@.started_at->0)
            &&& final(state)@ == (TurnModel {
                first_message_at: Some(instant_nanos(now)),
                ..old(state)@
            })
        },
        span is None ==> final(state)@ == old(state)@,
{
}

/// Recording an item of the turn now is recording it at a reading of the monotonic clock.
pub proof fn law_recording_a_turn_item_now(
    state: &mut TurnTimingState,
    item: TurnItem,
    span: Option<Duration>,
)
    requires
        call_ensures(TurnTimingState::record_ttfm_for_turn_item, (state, &item), span),
    ensures
        span is Some <==> item is AgentMessage && old(state)@.started_at is Some && old(
            state,
        )@.first_message_at is None,
        span matches Some(span) ==> exists|now: Instant|
            call_ensures(Instant::now, (), now) && duration_nanos(span) == max(
                0,
                #[trigger] instant_nanos(now) - old(state)@.started_at->0,
            ) && final(state)@ == (TurnModel {
                first_message_at: Some(instant_nanos(now)),
                ..old(state)@
            }),
        span is None ==> final(state)@ == old(state)@,
{
}

/// There is a time to the first output exactly if a start and a first output are both recorded,
/// whatever sampling, messages, retries and waits there were. It is the time between the two, and
/// is told in whole milliseconds, up to the largest `i64`.
pub proof fn law_time_to_first_output(
    record: TurnTimingStateInner,
    span: Option<Duration>,
    state: TurnTimingState,
    millis: Option<i64>,
)
    requires
        call_ensures(TurnTimingStateInner::time_to_first_token, (&record,), span),
        call_ensures(TurnTimingState::time_to_first_token_ms, (&state,), millis),
    ensures
        span is Some <==> record@.started_at is Some && record@.first_token_at is Some,
        span matches Some(span) ==> duration_nanos(span) == max(
            0,
            record@.first_token_at->0 - record@.started_at->0,
        ),
        millis is Some <==> state@.started_at is Some && state@.first_token_at is Some,
        millis matches Some(millis) ==> millis == min(
            max(0, state@.first_token_at->0 - state@.started_at->0) / 1_000_000,
            i64::MAX as int,
        ),
{
}

/// The seconds handed back are those recorded at the start of the turn.
pub proof fn law_start_of_the_turn(state: TurnTimingState, secs: Option<i64>)
    requires
        call_ensures(TurnTimingState::started_at_unix_secs, (&state,), secs),
    ensures
        secs is Some <==> state@.started_at_unix_secs is Some,
        secs matches Some(secs) ==> secs == state@.started_at_unix_secs->0,
{
}

/// Timings are handed back exactly if a turn has started and sampled. Each count is the one
/// recorded, and each duration has the whole milliseconds, up to the largest `u64`, of the time
/// recorded: retries, waits, the time before the first request, and the time between requests. The
/// time within requests includes that of a running one up to the end. The time after the last
/// completion is told only when none is running.
pub proof fn law_timings_handed_back(
    record: TurnTimingStateInner,
    completed_at: Instant,
    timings: Option<TurnSamplingPhaseTimings>,
)
    requires
        call_ensures(
            TurnTimingStateInner::sampling_phase_timings,
            (&record, completed_at),
            timings,
        ),
    ensures
        timings is Some <==> record@.started_at is Some
            && record@.first_sampling_started_at is Some,
        timings matches Some(timings) ==> {
            let turn = record@;
            let end = instant_nanos(completed_at);
            let running = turn.active_sampling_started_at;
            &&& timings.sampling_request_count == turn.sampling_request_count
            &&& timings.sampling_retry_count == turn.sampling_retry_count
            &&& timings.request_user_input_count == turn.request_user_input_count
            &&& timings.sampling_request_duration_ms == min(
                min(
                    turn.sampling_request_nanos + if running is Some {
                        max(0, end - running->0)
                    } else {
                        0
                    },
                    MAX_DURATION_NANOS as int,
                ) / 1_000_000,
                u64::MAX as int,
            )
            &&& timings.sampling_retry_delay_duration_ms == min(
                turn.sampling_retry_delay_nanos as int / 1_000_000,
                u64::MAX as int,
            )
            &&& timings.pre_sampling_duration_ms == min(
                max(0, turn.first_sampling_started_at->0 - turn.started_at->0) / 1_000_000,
                u64::MAX as int,
            )
            &&& timings.inter_sampling_duration_ms == min(
                turn.inter_sampling_nanos as int / 1_000_000,
                u64::MAX as int,
            )
            &&& timings.post_sampling_duration_ms == (if running is None
                && turn.last_sampling_completed_at is Some {
                min(
                    max(0, end - turn.last_sampling_completed_at->0) / 1_000_000,
                    u64::MAX as int,
                )
            } else {
                0
            })
            &&& timings.request_user_input_wait_duration_ms == min(
                turn.request_user_input_wait_nanos as int / 1_000_000,
                u64::MAX as int,
            )
        },
{
}

/// The state hands back the timings that its record does, by themselves and with the report of the
/// completed turn. Beside them that report has the timestamp it was given and, if a turn has
/// started, the whole milliseconds that it took, up to the largest `i64`.
pub proof fn law_report_handed_back(
    state: TurnTimingState,
    record: TurnTimingStateInner,
    completed_at: Instant,
    completed_at_unix_secs: i64,
    timings: Option<TurnSamplingPhaseTimings>,
    timings_of_state: Option<TurnSamplingPhaseTimings>,
    report: (Option<i64>, Option<i64>, Option<TurnSamplingPhaseTimings>),
)
    requires
        state@ == record@,
        call_ensures(
            TurnTimingStateInner::sampling_phase_timings,
            (&record, completed_at),
            timings,
        ),
        call_ensures(
            TurnTimingState::sampling_phase_timings_at,
            (&state, completed_at),
            timings_of_state,
        ),
        call_ensures(
            TurnTimingState::completed_at_duration_and_sampling_phase_at,
            (&state, completed_at, completed_at_unix_secs),
            report,
        ),
    ensures
        timings_of_state == timings,
        report.2 == timings,
        report.0 == Some(completed_at_unix_secs),
        report.1 is Some <==> state@.started_at is Some,
        report.1 matches Some(millis) ==> millis == min(
            max(0, instant_nanos(completed_at) - state@.started_at->0) / 1_000_000,
            i64::MAX as int,
        ),
{
}

/// Reporting the turn as completed now is reporting it at one reading of the monotonic clock, with
/// the seconds since the epoch of a reading of the wall clock.
pub proof fn law_report_handed_back_now(
    state: TurnTimingState,
    report: (Option<i64>, Option<i64>, Option<TurnSamplingPhaseTimings>),
)
    requires
        call_ensures(
            TurnTimingState::completed_at_duration_and_sampling_phase,
            (&state,),
            report,
        ),
    ensures
        exists|now: SystemTime|
            call_ensures(SystemTime::now, (), now) && (report.0 matches Some(secs) && secs == min(
                max(0, #[trigger] system_time_nanos(now)) / 1_000_000,
                i64::MAX as int,
            ) / 1000),
        report.1 is Some <==> state@.started_at is Some,
        report.2 is Some <==> state@.started_at is Some
            && state@.first_sampling_started_at is Some,
        exists|now: Instant|
            {
                &&& call_ensures(Instant::now, (), now)
                &&& report.1 matches Some(millis) ==> millis == min(
                    max(0, #[trigger] instant_nanos(now) - state@.started_at->0) / 1_000_000,
                    i64::MAX as int,
                )
                &&& forall|at: Instant, timings: Option<TurnSamplingPhaseTimings>|
                    instant_nanos(at) == instant_nanos(now) && #[trigger] call_ensures(
                        TurnTimingState::sampling_phase_timings_at,
                        (&state, at),
                        timings,
                    ) ==> report.2 == timings
            },
{
}

/// The milliseconds of a span are the whole ones, up to the largest number of the type.
pub proof fn law_milliseconds_of_a_span(duration: Duration, signed: i64, unsigned: u64)
    requires
        call_ensures(duration_millis_i64, (duration,), signed),
        call_ensures(duration_millis_u64, (duration,), unsigned),
    ensures
        signed * 1_000_000 <= duration_nanos(duration),
        duration_nanos(duration) < signed * 1_000_000 + 1_000_000 || signed == i64::MAX,
        unsigned * 1_000_000 <= duration_nanos(duration),
        duration_nanos(duration) < unsigned * 1_000_000 + 1_000_000 || unsigned == u64::MAX,
{
}

/// A Unix timestamp is the whole milliseconds from the epoch to the reading, up to the largest
/// `i64`, and zero for a reading before the epoch.
pub proof fn law_unix_timestamp(now: SystemTime, millis: i64)
    requires
        call_ensures(unix_timestamp_ms_at, (now,), millis),
    ensures
        system_time_nanos(now) < 0 ==> millis == 0,
        system_time_nanos(now) >= 0 ==> millis * 1_000_000 <= system_time_nanos(now),
        system_time_nanos(now) >= 0 ==> system_time_nanos(now) < millis * 1_000_000 + 1_000_000
            || millis == i64::MAX,
        0 <= millis,
{
}

/// The current timestamps are those of a reading of the wall clock, in milliseconds and in whole
/// seconds.
pub proof fn law_unix_timestamps_now(millis: i64, secs: i64)
    ensures
        call_ensures(now_unix_timestamp_ms, (), millis) ==> exists|now: SystemTime|
            call_ensures(SystemTime::now, (), now) && millis == min(
                max(0, #[trigger] system_time_nanos(now)) / 1_000_000,
                i64::MAX as int,
            ),
        call_ensures(now_unix_timestamp_secs, (), secs) ==> exists|now: SystemTime|
            call_ensures(SystemTime::now, (), now) && secs == min(
                max(0, #[trigger] system_time_nanos(now)) / 1_000_000,
                i64::MAX as int,
            ) / 1000,
{
}

/// A message counts as output if and only if its role is "assistant" and one of its output parts
/// has text, whatever its id, its phase and its other parts.
pub proof fn law_messages_that_count(
    id: Option<String>,
    role: String,
    content: Vec<ContentItem>,
    phase: Option<String>,
    counts: bool,
)
    requires
        call_ensures(
            response_item_records_turn_ttft,
            (&ResponseItem::Message { id, role, content, phase },),
            counts,
        ),
    ensures
        counts <==> role@ == "assistant"@ && exists|i: int|
            0 <= i < content@.len() && (#[trigger] content@[i] matches ContentItem::OutputText {
                text,
            } && text@.len() > 0),
{
    law_output_text_is_that_of_some_part(content@);
}

/// Reasoning counts as output if and only if some part of its summary or of its body has text.
pub proof fn law_reasoning_that_counts(
    summary: Vec<ReasoningItemReasoningSummary>,
    content: Option<Vec<ReasoningItemContent>>,
    counts: bool,
)
    requires
        call_ensures(
            response_item_records_turn_ttft,
            (&ResponseItem::Reasoning { summary, content },),
            counts,
        ),
    ensures
        counts <==> {
            ||| exists|i: int|
                0 <= i < summary@.len() && (
                #[trigger] summary@[i] matches ReasoningItemReasoningSummary::SummaryText {
                    text,
                } && text@.len() > 0)
            ||| content matches Some(content) && exists|i: int|
                0 <= i < content@.len() && {
                    ||| #[trigger] content@[i] matches ReasoningItemContent::ReasoningText { text }
                        && text@.len() > 0
                    ||| content@[i] matches ReasoningItemContent::Text { text } && text@.len() > 0
                }
        },
{
}

/// Calls of tools and compactions count as output, whatever is in them. Results of tools, messages
/// between agents, triggers of compactions and unknown items do not.
pub proof fn law_items_that_count(item: ResponseItem, counts: bool)
    requires
        call_ensures(response_item_records_turn_ttft, (&item,), counts),
    ensures
        item is LocalShellCall ==> counts,
        item is FunctionCall ==> counts,
        item is CustomToolCall ==> counts,
        item is ToolSearchCall ==> counts,
        item is WebSearchCall ==> counts,
        item is ImageGenerationCall ==> counts,
        item is Compaction ==> counts,
        item is ContextCompaction ==> counts,
        item is AgentMessage ==> !counts,
        item is CompactionTrigger ==> !counts,
        item is FunctionCallOutput ==> !counts,
        item is CustomToolCallOutput ==> !counts,
        item is ToolSearchOutput ==> !counts,
        item is Other ==> !counts,
{
}

/// An event that carries an item counts exactly if the item does, be it added or done. Text and
/// reasoning being written count, whatever they say. No other event does.
pub proof fn law_events_that_count(
    item: ResponseItem,
    item_counts: bool,
    event: ResponseEvent,
    counts: bool,
)
    requires
        call_ensures(response_item_records_turn_ttft, (&item,), item_counts),
        call_ensures(response_event_records_turn_ttft, (&event,), counts),
    ensures
        event == ResponseEvent::OutputItemAdded(item) ==> counts == item_counts,
        event == ResponseEvent::OutputItemDone(item) ==> counts == item_counts,
        event is OutputTextDelta ==> counts,
        event is ReasoningSummaryDelta ==> counts,
        event is ReasoningContentDelta ==> counts,
        counts ==> event is OutputItemAdded || event is OutputItemDone || event is OutputTextDelta
            || event is ReasoningSummaryDelta || event is ReasoningContentDelta,
{
}

/// The joined text is that of the parts that are output, one after the other.
proof fn lemma_joined_output_text(content: Seq<ContentItem>)
    ensures
        joined_output_text(content) == content.fold_left(
            Seq::<char>::empty(),
            |joined: Seq<char>, part: ContentItem|
                match part {
                    ContentItem::OutputText { text } => joined + text@,
                    _ => joined,
                },
        ),
    decreases content.len(),
{
    if content.len() > 0 {
        lemma_joined_output_text(content.drop_last());
    }
}

/// Messages in the assistant role have an output text, and nothing else has: the text of their
/// output parts, one after the other, whatever their id and phase.
pub proof fn law_output_text_of_items(item: ResponseItem, text: Option<String>)
    requires
        call_ensures(raw_assistant_output_text_from_item, (&item,), text),
    ensures
        text is Some <==> (item matches ResponseItem::Message { role, .. } && role@
            == "assistant"@),
        text matches Some(text) ==> (item matches ResponseItem::Message { content, .. } && text@
            == content@.fold_left(
            Seq::<char>::empty(),
            |joined: Seq<char>, part: ContentItem|
                match part {
                    ContentItem::OutputText { text } => joined + text@,
                    _ => joined,
                },
        )),
{
    if let ResponseItem::Message { content, .. } = item {
        lemma_joined_output_text(content@);
    }
}

} // verus!
