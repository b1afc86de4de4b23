//! What holds of turns as a whole.
use crate::clock::elapsed_nanos;
use crate::clock::millis_i64;
use crate::clock::millis_u64;
use crate::clock::whole_millis;
use crate::clock::MAX_DURATION_NANOS;
use crate::clock::NANOS_PER_MILLI;
use crate::first_output::event_is_output;
use crate::first_output::joined_output_text;
use crate::first_output::part_output_text;
use crate::model::capped_count;
use crate::model::capped_nanos;
use crate::model::on_whole_milli;
use crate::model::retries;
use crate::model::retry_delays;
use crate::model::sampling_in_order;
use crate::model::sampling_on_whole_millis;
use crate::model::sampling_time;
use crate::model::time_between_requests;
use crate::model::time_in_requests;
use crate::model::user_input_requests;
use crate::model::user_input_waits;
use crate::model::within_turn;
use crate::model::TurnEvent;
use crate::model::TurnModel;
use crate::protocol::ContentItem;
use crate::protocol::ResponseEvent;
use crate::protocol::ResponseItem;
use vstd::prelude::*;

verus! {

/// Well-formed records stay well formed, so every record that events lead to is.
pub proof fn law_records_stay_well_formed(turn: TurnModel, events: Seq<TurnEvent>)
    ensures
        TurnModel::idle().well_formed(),
        turn.well_formed() ==> turn.after_all(events).well_formed(),
    decreases events.len(),
{
    if events.len() > 0 {
        law_records_stay_well_formed(turn, events.drop_last());
    }
}

/// A new turn forgets the turns before it: what is recorded from its start on does not depend on
/// what was recorded earlier.
pub proof fn law_new_turn_forgets_earlier_ones(
    one: TurnModel,
    other: TurnModel,
    start: TurnEvent,
    events: Seq<TurnEvent>,
)
    requires
        start is TurnStarted,
    ensures
        one.after(start).after_all(events) == other.after(start).after_all(events),
{
}

/// Before a turn starts, sampling, output and messages leave no trace and nothing is reported.
pub proof fn law_nothing_is_timed_outside_a_turn(turn: TurnModel, at: int)
    requires
        turn.well_formed(),
        turn.started_at is None,
    ensures
        turn.sampling_started(at) == turn,
        turn.sampling_completed(at) == turn,
        turn.token_seen(at) == turn,
        turn.message_seen(at) == turn,
        turn.token_report(at) is None,
        turn.message_report(at) is None,
        turn.time_to_first_token() is None,
        turn.turn_nanos(at) is None,
        turn.phase_spans(at) is None,
{
}

/// A turn keeps its start, on both clocks, until the next turn starts.
pub proof fn law_start_is_kept(turn: TurnModel, events: Seq<TurnEvent>)
    requires
        within_turn(events),
    ensures
        turn.after_all(events).started_at == turn.started_at,
        turn.after_all(events).started_at_unix_secs == turn.started_at_unix_secs,
    decreases events.len(),
{
    if events.len() > 0 {
        law_start_is_kept(turn, events.drop_last());
    }
}

/// Whether output has been recorded after a series of events within a turn.
proof fn lemma_first_token_after(turn: TurnModel, events: Seq<TurnEvent>)
    requires
        within_turn(events),
    ensures
        turn.after_all(events).first_token_at is Some <==> {
            ||| turn.first_token_at is Some
            ||| turn.started_at is Some && exists|i: int|
                0 <= i < events.len() && #[trigger] events[i] is TokenSeen
        },
        turn.first_token_at is Some ==> turn.after_all(events).first_token_at
            == turn.first_token_at,
    decreases events.len(),
{
    if events.len() > 0 {
        let earlier = events.drop_last();
        lemma_first_token_after(turn, earlier);
        law_start_is_kept(turn, earlier);
        assert(forall|i: int| 0 <= i < earlier.len() ==> #[trigger] events[i] == earlier[i]);
    }
}

/// The time to the first output is reported at most once per turn: for the first event that counts
/// as output, and with the time since the start of the turn.
pub proof fn law_first_token_is_reported_once_per_turn(turn: TurnModel, events: Seq<TurnEvent>)
    requires
        within_turn(events),
    ensures
        turn.token_reports(events).len() <= 1,
        turn.token_reports(events).len() == 1 <==> {
            &&& turn.started_at is Some
            &&& turn.first_token_at is None
            &&& exists|i: int| 0 <= i < events.len() && #[trigger] events[i] is TokenSeen
        },
        forall|i: int|
            0 <= i < events.len() && #[trigger] events[i] is TokenSeen && (forall|j: int|
                0 <= j < i ==> !(#[trigger] events[j] is TokenSeen)) && turn.started_at is Some
                && turn.first_token_at is None ==> turn.token_reports(events) == seq![
                elapsed_nanos(events[i]->TokenSeen_at, turn.started_at->0),
            ],
    decreases events.len(),
{
    lemma_first_token_after(turn, events);
    if events.len() > 0 {
        let earlier = events.drop_last();
        law_first_token_is_reported_once_per_turn(turn, earlier);
        lemma_first_token_after(turn, earlier);
        law_start_is_kept(turn, earlier);
        assert(forall|i: int| 0 <= i < earlier.len() ==> #[trigger] events[i] == earlier[i]);
    }
}

/// Whether a message has been recorded after a series of events within a turn.
proof fn lemma_first_message_after(turn: TurnModel, events: Seq<TurnEvent>)
    requires
        within_turn(events),
    ensures
        turn.after_all(events).first_message_at is Some <==> {
            ||| turn.first_message_at is Some
            ||| turn.started_at is Some && exists|i: int|
                0 <= i < events.len() && #[trigger] events[i] is MessageSeen
        },
    decreases events.len(),
{
    if events.len() > 0 {
        let earlier = events.drop_last();
        lemma_first_message_after(turn, earlier);
        law_start_is_kept(turn, earlier);
        assert(forall|i: int| 0 <= i < earlier.len() ==> #[trigger] events[i] == earlier[i]);
    }
}

/// The time to the first message is reported at most once per turn: for the first message, and
/// with the time since the start of the turn.
pub proof fn law_first_message_is_reported_once_per_turn(turn: TurnModel, events: Seq<TurnEvent>)
    requires
        within_turn(events),
    ensures
        turn.message_reports(events).len() <= 1,
        turn.message_reports(events).len() == 1 <==> {
            &&& turn.started_at is Some
            &&& turn.first_message_at is None
            &&& exists|i: int| 0 <= i < events.len() && #[trigger] events[i] is MessageSeen
        },
        forall|i: int|
            0 <= i < events.len() && #[trigger] events[i] is MessageSeen && (forall|j: int|
                0 <= j < i ==> !(#[trigger] events[j] is MessageSeen)) && turn.started_at is Some
                && turn.first_message_at is None ==> turn.message_reports(events) == seq![
                elapsed_nanos(events[i]->MessageSeen_at, turn.started_at->0),
            ],
    decreases events.len(),
{
    lemma_first_message_after(turn, events);
    if events.len() > 0 {
        let earlier = events.drop_last();
        law_first_message_is_reported_once_per_turn(turn, earlier);
        lemma_first_message_after(turn, earlier);
        law_start_is_kept(turn, earlier);
        assert(forall|i: int| 0 <= i < earlier.len() ==> #[trigger] events[i] == earlier[i]);
    }
}

/// The first output and the first message of a turn are timed independently of each other.
pub proof fn law_token_and_message_are_independent(turn: TurnModel, token: int, message: int)
    ensures
        turn.message_seen(message).token_report(token) == turn.token_report(token),
        turn.token_seen(token).message_report(message) == turn.message_report(message),
        turn.token_seen(token).message_seen(message) == turn.message_seen(message).token_seen(
            token,
        ),
{
}

/// The time reported for the first output is the time to the first output from then on, until the
/// next turn starts.
pub proof fn law_reported_first_token_time_is_kept(
    turn: TurnModel,
    at: int,
    events: Seq<TurnEvent>,
)
    requires
        within_turn(events),
        turn.token_report(at) is Some,
    ensures
        turn.token_seen(at).after_all(events).time_to_first_token() == turn.token_report(at),
{
    lemma_first_token_after(turn.token_seen(at), events);
    law_start_is_kept(turn.token_seen(at), events);
}

/// A sampling request that is already running is not started again, and one that has completed is
/// not completed again.
pub proof fn law_repeated_sampling_marks_are_ignored(turn: TurnModel, at: int, again: int)
    ensures
        turn.sampling_started(at).sampling_started(again) == turn.sampling_started(at),
        turn.sampling_completed(at).sampling_completed(again) == turn.sampling_completed(at),
{
}

/// A turn that is broken off while it samples is reported as if the request had completed at that
/// point.
pub proof fn law_running_request_counts_up_to_the_end(turn: TurnModel, at: int)
    ensures
        turn.phase_spans(at) == turn.sampling_completed(at).phase_spans(at),
{
}

/// There is a division into phases exactly if the turn has counted a sampling request.
pub proof fn law_phases_are_reported_once_sampled(turn: TurnModel, at: int)
    requires
        turn.well_formed(),
    ensures
        turn.phase_spans(at) is Some <==> turn.sampling_request_count > 0,
{
}

/// If a turn ends later, the time before and between its requests is the same, and only the time
/// of a running request, or else the time after the last one, is longer.
pub proof fn law_later_end_prolongs_the_last_phase(turn: TurnModel, at: int, later: int)
    requires
        at <= later,
    ensures
        turn.phase_spans(at) is Some <==> turn.phase_spans(later) is Some,
        turn.phase_spans(at) matches Some(spans) ==> {
            let longer = turn.phase_spans(later)->0;
            &&& longer.pre_sampling == spans.pre_sampling
            &&& longer.inter_sampling == spans.inter_sampling
            &&& if turn.active_sampling_started_at is Some {
                spans.sampling_request <= longer.sampling_request && longer.post_sampling
                    == spans.post_sampling
            } else {
                longer.sampling_request == spans.sampling_request && spans.post_sampling
                    <= longer.post_sampling
            }
        },
{
}

/// Retries, waits, output and messages do not change how the time of a turn divides up.
pub proof fn law_only_sampling_divides_time(turn: TurnModel, event: TurnEvent, at: int)
    requires
        !(event is TurnStarted),
        sampling_time(event) is None,
    ensures
        turn.after(event).phase_spans(at) == turn.phase_spans(at),
{
}

/// What the start, the requests and the gaps between them account for reaches up to the last
/// sampling event, and that is no later than `latest`.
spec fn accounted(turn: TurnModel, start: int, latest: int) -> bool {
    &&& turn.started_at == Some(start)
    &&& match turn.first_sampling_started_at {
        None => {
            &&& turn.active_sampling_started_at is None
            &&& turn.last_sampling_completed_at is None
            &&& turn.sampling_request_nanos == 0
            &&& turn.inter_sampling_nanos == 0
        },
        Some(first) => {
            let reached = match turn.active_sampling_started_at {
                Some(since) => Some(since),
                None => turn.last_sampling_completed_at,
            };
            &&& start <= first
            &&& reached matches Some(reached)
            &&& first <= reached <= latest
            &&& elapsed_nanos(first, start) + turn.sampling_request_nanos
                + turn.inter_sampling_nanos == reached - start
        },
    }
}

/// Where sampling events happen one after the other, no time up to the last of them is lost.
proof fn lemma_turn_is_accounted_for(
    start: int,
    unix_millis: int,
    events: Seq<TurnEvent>,
    latest: int,
)
    requires
        within_turn(events),
        sampling_in_order(start, events, latest),
        latest - start <= MAX_DURATION_NANOS,
    ensures
        accounted(TurnModel::started(start, unix_millis).after_all(events), start, latest),
    decreases events.len(),
{
    if events.len() > 0 {
        let earlier = events.drop_last();
        let until = match sampling_time(events.last()) {
            Some(at) => at,
            None => latest,
        };
        assert(sampling_in_order(start, earlier, until));
        lemma_turn_is_accounted_for(start, unix_millis, earlier, until);
    }
}

/// The phases partition the turn: where its sampling events happen one after the other, the time
/// before the first request, within requests, between them and after the last one add up to the
/// time that the turn took. The turn must not take longer than the longest span there is.
pub proof fn law_phases_partition_the_turn(
    start: int,
    unix_millis: int,
    events: Seq<TurnEvent>,
    end: int,
)
    requires
        within_turn(events),
        sampling_in_order(start, events, end),
        end - start <= MAX_DURATION_NANOS,
    ensures
        TurnModel::started(start, unix_millis).after_all(events).phase_spans(end) matches Some(
            spans,
        ) ==> spans.pre_sampling + spans.sampling_request + spans.inter_sampling
            + spans.post_sampling == end - start,
{
    lemma_turn_is_accounted_for(start, unix_millis, events, end);
}

/// The reported milliseconds partition the turn but for rounding: where its sampling events happen
/// one after the other, the four reported phases add up to the reported time of the turn, less at
/// most three milliseconds. The time of the turn must be one that can be reported.
pub proof fn law_reported_phases_partition_the_turn(
    start: int,
    unix_millis: int,
    events: Seq<TurnEvent>,
    end: int,
)
    requires
        within_turn(events),
        sampling_in_order(start, events, end),
        whole_millis((end - start) as nat) <= i64::MAX,
    ensures
        ({
            let turn = TurnModel::started(start, unix_millis).after_all(events);
            turn.phase_spans(end) matches Some(spans) ==> {
                let phases = millis_u64(spans.pre_sampling) + millis_u64(spans.sampling_request)
                    + millis_u64(spans.inter_sampling) + millis_u64(spans.post_sampling);
                turn.turn_nanos(end) matches Some(nanos) && phases <= millis_i64(nanos) <= phases
                    + 3
            }
        }),
{
    law_phases_partition_the_turn(start, unix_millis, events, end);
    law_start_is_kept(TurnModel::started(start, unix_millis), events);
}

/// Every point and every span that a turn records of its sampling is a whole number of
/// milliseconds.
spec fn records_whole_millis(turn: TurnModel, start: int) -> bool {
    &&& turn.started_at == Some(start)
    &&& turn.first_sampling_started_at matches Some(at) ==> on_whole_milli(start, at)
    &&& turn.active_sampling_started_at matches Some(at) ==> on_whole_milli(start, at)
    &&& turn.last_sampling_completed_at matches Some(at) ==> on_whole_milli(start, at)
    &&& turn.sampling_request_nanos % (NANOS_PER_MILLI as nat) == 0
    &&& turn.inter_sampling_nanos % (NANOS_PER_MILLI as nat) == 0
}

/// Where sampling events happen one after the other and on whole milliseconds, only whole
/// milliseconds are recorded of them.
proof fn lemma_whole_millis_are_recorded(
    start: int,
    unix_millis: int,
    events: Seq<TurnEvent>,
    latest: int,
)
    requires
        within_turn(events),
        sampling_in_order(start, events, latest),
        sampling_on_whole_millis(start, events),
        latest - start <= MAX_DURATION_NANOS,
    ensures
        records_whole_millis(TurnModel::started(start, unix_millis).after_all(events), start),
    decreases events.len(),
{
    if events.len() > 0 {
        let earlier = events.drop_last();
        lemma_whole_millis_are_recorded(start, unix_millis, earlier, latest);
        lemma_turn_is_accounted_for(start, unix_millis, earlier, latest);
    }
}

/// The reported milliseconds partition the turn exactly where nothing is rounded: where its
/// sampling events happen one after the other, and they and its end lie whole milliseconds after
/// its start, the four reported phases add up to the milliseconds that the turn took, unless one of
/// them has more milliseconds than can be reported.
pub proof fn law_whole_millis_partition_the_turn_exactly(
    start: int,
    unix_millis: int,
    events: Seq<TurnEvent>,
    end: int,
)
    requires
        within_turn(events),
        sampling_in_order(start, events, end),
        sampling_on_whole_millis(start, events),
        on_whole_milli(start, end),
        end - start <= MAX_DURATION_NANOS,
    ensures
        ({
            let turn = TurnModel::started(start, unix_millis).after_all(events);
            turn.phase_spans(end) matches Some(spans) ==> {
                let total = whole_millis((end - start) as nat);
                let phases = millis_u64(spans.pre_sampling) + millis_u64(spans.sampling_request)
                    + millis_u64(spans.inter_sampling) + millis_u64(spans.post_sampling);
                &&& turn.turn_nanos(end) == Some((end - start) as nat)
                &&& whole_millis(spans.pre_sampling) + whole_millis(spans.sampling_request)
                    + whole_millis(spans.inter_sampling) + whole_millis(spans.post_sampling)
                    == total
                &&& phases == total <==> {
                    &&& whole_millis(spans.pre_sampling) <= u64::MAX
                    &&& whole_millis(spans.sampling_request) <= u64::MAX
                    &&& whole_millis(spans.inter_sampling) <= u64::MAX
                    &&& whole_millis(spans.post_sampling) <= u64::MAX
                }
                &&& total <= u64::MAX ==> phases == total
                &&& total <= i64::MAX ==> phases == millis_i64((end - start) as nat)
            }
        }),
{
    law_phases_partition_the_turn(start, unix_millis, events, end);
    lemma_whole_millis_are_recorded(start, unix_millis, events, end);
}

/// The record after a series of completed sampling requests.
proof fn lemma_after_requests(start: int, unix_millis: int, requests: Seq<(int, int)>)
    requires
        requests.len() > 0,
    ensures
        ({
            let turn = TurnModel::started(start, unix_millis).after_requests(requests);
            &&& turn.started_at == Some(start)
            &&& turn.first_sampling_started_at == Some(requests.first().0)
            &&& turn.active_sampling_started_at is None
            &&& turn.last_sampling_completed_at == Some(requests.last().1)
            &&& turn.sampling_request_count == capped_count(requests.len())
            &&& turn.sampling_request_nanos == capped_nanos(time_in_requests(requests))
            &&& turn.inter_sampling_nanos == capped_nanos(time_between_requests(requests))
        }),
    decreases requests.len(),
{
    let earlier = requests.drop_last();
    reveal_with_fuel(TurnModel::after_requests, 2);
    reveal_with_fuel(time_in_requests, 2);
    if requests.len() > 1 {
        lemma_after_requests(start, unix_millis, earlier);
    }
}

/// After a series of completed sampling requests, the report counts them, adds up the time within
/// them and the time from each to the next, and gives the time before the first and after the
/// last.
pub proof fn law_report_adds_up_completed_requests(
    start: int,
    unix_millis: int,
    requests: Seq<(int, int)>,
    end: int,
)
    requires
        requests.len() > 0,
    ensures
        ({
            let turn = TurnModel::started(start, unix_millis).after_requests(requests);
            &&& turn.sampling_request_count == capped_count(requests.len())
            &&& turn.phase_spans(end) matches Some(spans)
            &&& spans.pre_sampling == elapsed_nanos(requests.first().0, start)
            &&& spans.sampling_request == capped_nanos(time_in_requests(requests))
            &&& spans.inter_sampling == capped_nanos(time_between_requests(requests))
            &&& spans.post_sampling == elapsed_nanos(end, requests.last().1)
        }),
{
    lemma_after_requests(start, unix_millis, requests);
}

/// Retries and waits for the user are counted and added up over a turn, whatever else happens in
/// it.
pub proof fn law_retries_and_waits_add_up(turn: TurnModel, events: Seq<TurnEvent>)
    requires
        turn.well_formed(),
        within_turn(events),
    ensures
        ({
            let later = turn.after_all(events);
            &&& later.sampling_retry_count == capped_count(
                turn.sampling_retry_count + retries(events),
            )
            &&& later.sampling_retry_delay_nanos == capped_nanos(
                turn.sampling_retry_delay_nanos + retry_delays(events),
            )
            &&& later.request_user_input_count == capped_count(
                turn.request_user_input_count + user_input_requests(events),
            )
            &&& later.request_user_input_wait_nanos == capped_nanos(
                turn.request_user_input_wait_nanos + user_input_waits(events),
            )
        }),
    decreases events.len(),
{
    if events.len() > 0 {
        law_retries_and_waits_add_up(turn, events.drop_last());
    }
}

/// Within a turn no count and no span ever shrinks.
pub proof fn law_counts_and_spans_never_shrink(turn: TurnModel, events: Seq<TurnEvent>)
    requires
        turn.well_formed(),
        within_turn(events),
    ensures
        ({
            let later = turn.after_all(events);
            &&& turn.sampling_request_count <= later.sampling_request_count
            &&& turn.sampling_request_nanos <= later.sampling_request_nanos
            &&& turn.sampling_retry_count <= later.sampling_retry_count
            &&& turn.sampling_retry_delay_nanos <= later.sampling_retry_delay_nanos
            &&& turn.inter_sampling_nanos <= later.inter_sampling_nanos
            &&& turn.request_user_input_count <= later.request_user_input_count
            &&& turn.request_user_input_wait_nanos <= later.request_user_input_wait_nanos
        }),
    decreases events.len(),
{
    if events.len() > 0 {
        let earlier = events.drop_last();
        law_counts_and_spans_never_shrink(turn, earlier);
        law_records_stay_well_formed(turn, earlier);
    }
}

/// An item counts as output equally when it is added and when it is done.
pub proof fn law_added_and_done_items_count_alike(item: ResponseItem)
    ensures
        event_is_output(ResponseEvent::OutputItemAdded(item)) == event_is_output(
            ResponseEvent::OutputItemDone(item),
        ),
{
}

/// A message has output text exactly if one of its parts does.
pub proof fn law_output_text_is_that_of_some_part(content: Seq<ContentItem>)
    ensures
        joined_output_text(content).len() > 0 <==> exists|i: int|
            0 <= i < content.len() && part_output_text(#[trigger] content[i]).len() > 0,
    decreases content.len(),
{
    if content.len() > 0 {
        let earlier = content.drop_last();
        law_output_text_is_that_of_some_part(earlier);
        assert(forall|i: int| 0 <= i < earlier.len() ==> #[trigger] content[i] == earlier[i]);
    }
}

} // verus!
