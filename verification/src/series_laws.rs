//! What is handed back after a series of events, in terms of the events themselves.
use crate::clock::instant_nanos;
use crate::clock::MAX_DURATION_NANOS;
use crate::laws::law_records_stay_well_formed;
use crate::laws::law_report_adds_up_completed_requests;
use crate::laws::law_retries_and_waits_add_up;
use crate::laws::law_start_is_kept;
use crate::model::retries;
use crate::model::retry_delays;
use crate::model::time_between_requests;
use crate::model::time_in_requests;
use crate::model::user_input_requests;
use crate::model::user_input_waits;
use crate::model::within_turn;
use crate::model::TurnEvent;
use crate::model::TurnModel;
use crate::turn_timing::TurnSamplingPhaseTimings;
use crate::turn_timing::TurnTimingState;
use std::time::Instant;
use vstd::math::max;
use vstd::math::min;
use vstd::prelude::*;

verus! {

/// A series of events is run one event after the other.
pub proof fn law_series_runs_event_by_event(
    turn: TurnModel,
    events: Seq<TurnEvent>,
    event: TurnEvent,
)
    ensures
        turn.after_all(Seq::empty()) == turn,
        turn.after_all(events.push(event)) == (match event {
            TurnEvent::TurnStarted { at, unix_millis } => TurnModel::started(at, unix_millis),
            TurnEvent::SamplingStarted { at } => turn.after_all(events).sampling_started(at),
            TurnEvent::SamplingCompleted { at } => turn.after_all(events).sampling_completed(at),
            TurnEvent::SamplingRetried { delay } => turn.after_all(events).sampling_retried(delay),
            TurnEvent::UserInputWaited { wait } => turn.after_all(events).user_input_waited(wait),
            TurnEvent::TokenSeen { at } => turn.after_all(events).token_seen(at),
            TurnEvent::MessageSeen { at } => turn.after_all(events).message_seen(at),
        }),
{
    assert(events.push(event).drop_last() =~= events);
}

/// What is recorded of sampling is the same without the events that are not sampling.
proof fn lemma_sampling_alone_is_recorded(turn: TurnModel, events: Seq<TurnEvent>)
    requires
        within_turn(events),
    ensures
        ({
            let all = turn.after_all(events);
            let sampling = turn.after_all(
                events.filter(
                    |event: TurnEvent| event is SamplingStarted || event is SamplingCompleted,
                ),
            );
            &&& all.started_at == sampling.started_at
            &&& all.first_sampling_started_at == sampling.first_sampling_started_at
            &&& all.active_sampling_started_at == sampling.active_sampling_started_at
            &&& all.last_sampling_completed_at == sampling.last_sampling_completed_at
            &&& all.sampling_request_count == sampling.sampling_request_count
            &&& all.sampling_request_nanos == sampling.sampling_request_nanos
            &&& all.inter_sampling_nanos == sampling.inter_sampling_nanos
        }),
    decreases events.len(),
{
    reveal(Seq::filter);
    if events.len() > 0 {
        let earlier = events.drop_last();
        let kept = earlier.filter(
            |event: TurnEvent| event is SamplingStarted || event is SamplingCompleted,
        );
        lemma_sampling_alone_is_recorded(turn, earlier);
        assert(kept.push(events.last()).drop_last() =~= kept);
    }
}

/// Output, messages, retries and waits have no part in sampling: without them a series of events
/// within a turn leads to the same number of requests and to the same phases, whenever the turn
/// ends.
pub proof fn law_sampling_is_timed_whatever_else_happens(
    turn: TurnModel,
    events: Seq<TurnEvent>,
    end: int,
)
    requires
        forall|i: int| 0 <= i < events.len() ==> !(#[trigger] events[i] is TurnStarted),
    ensures
        ({
            let all = turn.after_all(events);
            let sampling = turn.after_all(
                events.filter(
                    |event: TurnEvent| event is SamplingStarted || event is SamplingCompleted,
                ),
            );
            &&& all.sampling_request_count == sampling.sampling_request_count
            &&& all.phase_spans(end) == sampling.phase_spans(end)
        }),
{
    lemma_sampling_alone_is_recorded(turn, events);
}

/// Starts and completions that take turns are a series of completed requests.
proof fn lemma_requests_as_events(
    turn: TurnModel,
    sampling: Seq<TurnEvent>,
    requests: Seq<(int, int)>,
)
    requires
        sampling.len() == 2 * requests.len(),
        forall|i: int|
            0 <= i < requests.len() ==> {
                &&& sampling[2 * i] == TurnEvent::SamplingStarted { at: (#[trigger] requests[i]).0 }
                &&& sampling[2 * i + 1] == TurnEvent::SamplingCompleted { at: requests[i].1 }
            },
    ensures
        turn.after_all(sampling) == turn.after_requests(requests),
    decreases requests.len(),
{
    if requests.len() > 0 {
        let earlier = sampling.drop_last().drop_last();
        lemma_requests_as_events(turn, earlier, requests.drop_last());
        reveal_with_fuel(TurnModel::after_all, 3);
    }
}

/// The time within and between requests, as sums.
proof fn lemma_time_of_requests(requests: Seq<(int, int)>)
    ensures
        time_in_requests(requests) == requests.fold_left(
            0int,
            |sum: int, request: (int, int)| sum + max(0, request.1 - request.0),
        ),
        requests.len() > 0 ==> time_between_requests(requests) == Seq::new(
            (requests.len() - 1) as nat,
            |i: int| max(0, requests[i + 1].0 - requests[i].1),
        ).fold_left(0int, |sum: int, gap: int| sum + gap),
    decreases requests.len(),
{
    if requests.len() > 0 {
        let earlier = requests.drop_last();
        lemma_time_of_requests(earlier);
        if requests.len() > 1 {
            let gaps = Seq::new(
                (requests.len() - 1) as nat,
                |i: int| max(0, requests[i + 1].0 - requests[i].1),
            );
            let earlier_gaps = Seq::new(
                (earlier.len() - 1) as nat,
                |i: int| max(0, earlier[i + 1].0 - earlier[i].1),
            );
            assert(gaps.drop_last() =~= earlier_gaps);
        }
    }
}

/// Retries and waits, as numbers and sums.
proof fn lemma_retries_and_waits(events: Seq<TurnEvent>)
    ensures
        retries(events) == events.filter(|event: TurnEvent| event is SamplingRetried).len(),
        user_input_requests(events) == events.filter(
            |event: TurnEvent| event is UserInputWaited,
        ).len(),
        retry_delays(events) == events.fold_left(
            0int,
            |sum: int, event: TurnEvent|
                match event {
                    TurnEvent::SamplingRetried { delay } => sum + delay,
                    _ => sum,
                },
        ),
        user_input_waits(events) == events.fold_left(
            0int,
            |sum: int, event: TurnEvent|
                match event {
                    TurnEvent::UserInputWaited { wait } => sum + wait,
                    _ => sum,
                },
        ),
    decreases events.len(),
{
    reveal(Seq::filter);
    if events.len() > 0 {
        lemma_retries_and_waits(events.drop_last());
    }
}

/// The timings handed back for a turn count every retry and every wait of its events, whatever
/// else happened, and tell the whole milliseconds of their sums.
pub proof fn law_retries_and_waits_handed_back(
    start: int,
    unix_millis: int,
    events: Seq<TurnEvent>,
    state: TurnTimingState,
    end: Instant,
    timings: Option<TurnSamplingPhaseTimings>,
)
    requires
        forall|i: int| 0 <= i < events.len() ==> !(#[trigger] events[i] is TurnStarted),
        state@ == TurnModel::started(start, unix_millis).after_all(events),
        call_ensures(TurnTimingState::sampling_phase_timings_at, (&state, end), timings),
    ensures
        timings is Some <==> exists|i: int|
            0 <= i < events.len() && #[trigger] events[i] is SamplingStarted,
        timings matches Some(timings) ==> {
            &&& timings.sampling_retry_count == min(
                events.filter(|event: TurnEvent| event is SamplingRetried).len() as int,
                u64::MAX as int,
            )
            &&& timings.sampling_retry_delay_duration_ms == min(
                min(
                    events.fold_left(
                        0int,
                        |sum: int, event: TurnEvent|
                            match event {
                                TurnEvent::SamplingRetried { delay } => sum + delay,
                                _ => sum,
                            },
                    ),
                    MAX_DURATION_NANOS as int,
                ) / 1_000_000,
                u64::MAX as int,
            )
            &&& timings.request_user_input_count == min(
                events.filter(|event: TurnEvent| event is UserInputWaited).len() as int,
                u64::MAX as int,
            )
            &&& timings.request_user_input_wait_duration_ms == min(
                min(
                    events.fold_left(
                        0int,
                        |sum: int, event: TurnEvent|
                            match event {
                                TurnEvent::UserInputWaited { wait } => sum + wait,
                                _ => sum,
                            },
                    ),
                    MAX_DURATION_NANOS as int,
                ) / 1_000_000,
                u64::MAX as int,
            )
        },
{
    let turn = TurnModel::started(start, unix_millis);
    law_retries_and_waits_add_up(turn, events);
    lemma_retries_and_waits(events);
    lemma_sampled_after(turn, events);
}

/// A turn has sampled once a request was started in it.
proof fn lemma_sampled_after(turn: TurnModel, events: Seq<TurnEvent>)
    requires
        within_turn(events),
        turn.started_at is Some,
        turn.well_formed(),
    ensures
        turn.after_all(events).started_at == turn.started_at,
        turn.after_all(events).first_sampling_started_at is Some <==> {
            ||| turn.first_sampling_started_at is Some
            ||| exists|i: int| 0 <= i < events.len() && #[trigger] events[i] is SamplingStarted
        },
    decreases events.len(),
{
    law_start_is_kept(turn, events);
    if events.len() > 0 {
        let earlier = events.drop_last();
        lemma_sampled_after(turn, earlier);
        law_records_stay_well_formed(turn, earlier);
        assert(forall|i: int| 0 <= i < earlier.len() ==> #[trigger] events[i] == earlier[i]);
    }
}

/// Where the starts and completions among the events of a turn take turns, the timings handed back
/// count the requests they make up and tell the time within them, before the first, from each to
/// the next and after the last, whatever output, messages, retries and waits come between and
/// within them.
pub proof fn law_completed_requests_handed_back(
    start: int,
    unix_millis: int,
    events: Seq<TurnEvent>,
    requests: Seq<(int, int)>,
    state: TurnTimingState,
    end: Instant,
    timings: Option<TurnSamplingPhaseTimings>,
)
    requires
        forall|i: int| 0 <= i < events.len() ==> !(#[trigger] events[i] is TurnStarted),
        requests.len() > 0,
        events.filter(
            |event: TurnEvent| event is SamplingStarted || event is SamplingCompleted,
        ).len() == 2 * requests.len(),
        forall|i: int|
            0 <= i < requests.len() ==> {
                let sampling = events.filter(
                    |event: TurnEvent| event is SamplingStarted || event is SamplingCompleted,
                );
                &&& sampling[2 * i] == TurnEvent::SamplingStarted { at: (#[trigger] requests[i]).0 }
                &&& sampling[2 * i + 1] == TurnEvent::SamplingCompleted { at: requests[i].1 }
            },
        state@ == TurnModel::started(start, unix_millis).after_all(events),
        call_ensures(TurnTimingState::sampling_phase_timings_at, (&state, end), timings),
    ensures
        timings matches Some(timings) && {
            &&& timings.sampling_request_count == min(requests.len() as int, u64::MAX as int)
            &&& timings.sampling_request_duration_ms == min(
                min(
                    requests.fold_left(
                        0int,
                        |sum: int, request: (int, int)| sum + max(0, request.1 - request.0),
                    ),
                    MAX_DURATION_NANOS as int,
                ) / 1_000_000,
                u64::MAX as int,
            )
            &&& timings.pre_sampling_duration_ms == min(
                max(0, requests.first().0 - start) / 1_000_000,
                u64::MAX as int,
            )
            &&& timings.inter_sampling_duration_ms == min(
                min(
                    Seq::new(
                        (requests.len() - 1) as nat,
                        |i: int| max(0, requests[i + 1].0 - requests[i].1),
                    ).fold_left(0int, |sum: int, gap: int| sum + gap),
                    MAX_DURATION_NANOS as int,
                ) / 1_000_000,
                u64::MAX as int,
            )
            &&& timings.post_sampling_duration_ms == min(
                max(0, instant_nanos(end) - requests.last().1) / 1_000_000,
                u64::MAX as int,
            )
        },
{
    let turn = TurnModel::started(start, unix_millis);
    let sampling = events.filter(
        |event: TurnEvent| event is SamplingStarted || event is SamplingCompleted,
    );
    law_sampling_is_timed_whatever_else_happens(turn, events, instant_nanos(end));
    lemma_requests_as_events(turn, sampling, requests);
    law_report_adds_up_completed_requests(start, unix_millis, requests, instant_nanos(end));
    lemma_time_of_requests(requests);
}

/// When the first output of a series of events is recorded.
proof fn lemma_first_output_of_a_series(turn: TurnModel, events: Seq<TurnEvent>)
    requires
        within_turn(events),
        turn.started_at is Some,
        turn.first_token_at is None,
    ensures
        turn.after_all(events).first_token_at is Some <==> exists|i: int|
            0 <= i < events.len() && #[trigger] events[i] is TokenSeen,
        forall|i: int|
            0 <= i < events.len() && #[trigger] events[i] is TokenSeen && (forall|j: int|
                0 <= j < i ==> !(#[trigger] events[j] is TokenSeen)) ==> turn.after_all(
                events,
            ).first_token_at == Some(events[i]->TokenSeen_at),
    decreases events.len(),
{
    if events.len() > 0 {
        let earlier = events.drop_last();
        lemma_first_output_of_a_series(turn, earlier);
        law_start_is_kept(turn, earlier);
        assert(forall|i: int| 0 <= i < earlier.len() ==> #[trigger] events[i] == earlier[i]);
    }
}

/// As long as no output was seen in a turn there is no time to the first output, whatever
/// sampling, messages, retries and waits there were. Once output was seen, it is the time from the
/// start of the turn to the first of it, in whole milliseconds.
pub proof fn law_first_output_handed_back(
    start: int,
    unix_millis: int,
    events: Seq<TurnEvent>,
    state: TurnTimingState,
    millis: Option<i64>,
)
    requires
        forall|i: int| 0 <= i < events.len() ==> !(#[trigger] events[i] is TurnStarted),
        state@ == TurnModel::started(start, unix_millis).after_all(events),
        call_ensures(TurnTimingState::time_to_first_token_ms, (&state,), millis),
    ensures
        millis is Some <==> exists|i: int|
            0 <= i < events.len() && #[trigger] events[i] is TokenSeen,
        forall|i: int|
            0 <= i < events.len() && #[trigger] events[i] is TokenSeen && (forall|j: int|
                0 <= j < i ==> !(#[trigger] events[j] is TokenSeen)) ==> (millis matches Some(
                millis,
            ) && millis == min(
                max(0, events[i]->TokenSeen_at - start) / 1_000_000,
                i64::MAX as int,
            )),
{
    let turn = TurnModel::started(start, unix_millis);
    lemma_first_output_of_a_series(turn, events);
    law_start_is_kept(turn, events);
}

} // verus!
