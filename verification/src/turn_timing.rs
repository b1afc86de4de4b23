//! The record of a turn and the operations on it.
//!
//! An operation that reads a clock stands beside one with the ending `_at`, which takes the
//! reading as an argument.
use crate::clock::duration_millis_i64;
use crate::clock::duration_millis_u64;
use crate::clock::duration_nanos;
use crate::clock::instant_nanos;
use crate::clock::is_instant_reading;
use crate::clock::is_system_time_reading;
use crate::clock::millis_i64;
use crate::clock::millis_u64;
use crate::clock::now_unix_timestamp_ms;
use crate::clock::now_unix_timestamp_secs;
use crate::clock::optional_nanos;
use crate::clock::system_time_nanos;
use crate::clock::unix_millis;
use crate::clock::whole_seconds;
use crate::clock::zero_duration;
use crate::first_output::event_is_output;
use crate::first_output::response_event_records_turn_ttft;
use crate::model::PhaseSpans;
use crate::model::TurnModel;
use crate::protocol::ResponseEvent;
use crate::protocol::TurnItem;
use std::time::Duration;
use std::time::Instant;
use std::time::SystemTime;
use vstd::prelude::*;

verus! {

/// How the time of a turn divides up, in whole milliseconds, with the number of requests, retries
/// and waits.
#[derive(Clone, Copy, Debug, PartialEq, Eq, Structural)]
pub struct TurnSamplingPhaseTimings {
    pub sampling_request_count: u64,
    pub sampling_request_duration_ms: u64,
    pub sampling_retry_count: u64,
    pub sampling_retry_delay_duration_ms: u64,
    pub pre_sampling_duration_ms: u64,
    pub inter_sampling_duration_ms: u64,
    pub post_sampling_duration_ms: u64,
    pub request_user_input_count: u64,
    pub request_user_input_wait_duration_ms: u64,
}

impl TurnSamplingPhaseTimings {
    /// These are the timings of `turn` where its time divides up into `spans`.
    pub open spec fn reports(self, turn: TurnModel, spans: PhaseSpans) -> bool {
        &&& self.sampling_request_count == turn.sampling_request_count
        &&& self.sampling_request_duration_ms == millis_u64(spans.sampling_request)
        &&& self.sampling_retry_count == turn.sampling_retry_count
        &&& self.sampling_retry_delay_duration_ms == millis_u64(turn.sampling_retry_delay_nanos)
        &&& self.pre_sampling_duration_ms == millis_u64(spans.pre_sampling)
        &&& self.inter_sampling_duration_ms == millis_u64(spans.inter_sampling)
        &&& self.post_sampling_duration_ms == millis_u64(spans.post_sampling)
        &&& self.request_user_input_count == turn.request_user_input_count
        &&& self.request_user_input_wait_duration_ms == millis_u64(
            turn.request_user_input_wait_nanos,
        )
    }
}

/// `timings` is what there is to report of `turn` if it ends at `at`.
pub open spec fn reports_phases(
    timings: Option<TurnSamplingPhaseTimings>,
    turn: TurnModel,
    at: int,
) -> bool {
    match (timings, turn.phase_spans(at)) {
        (Some(timings), Some(spans)) => timings.reports(turn, spans),
        (None, None) => true,
        _ => false,
    }
}

/// A point in time, if there is one.
spec fn optional_instant(instant: Option<Instant>) -> Option<int> {
    match instant {
        Some(instant) => Some(instant_nanos(instant)),
        None => None,
    }
}

/// A number, if there is one.
pub open spec fn optional_int(number: Option<i64>) -> Option<int> {
    match number {
        Some(number) => Some(number as int),
        None => None,
    }
}

/// The whole milliseconds of a span, if there is one.
pub open spec fn optional_millis(nanos: Option<nat>) -> Option<int> {
    match nanos {
        Some(nanos) => Some(millis_i64(nanos) as int),
        None => None,
    }
}

/// The record itself.
#[derive(Debug)]
pub struct TurnTimingStateInner {
    started_at: Option<Instant>,
    started_at_unix_secs: Option<i64>,
    first_token_at: Option<Instant>,
    first_message_at: Option<Instant>,
    first_sampling_started_at: Option<Instant>,
    active_sampling_started_at: Option<Instant>,
    last_sampling_completed_at: Option<Instant>,
    sampling_request_count: u64,
    sampling_request_duration: Duration,
    sampling_retry_count: u64,
    sampling_retry_delay_duration: Duration,
    inter_sampling_duration: Duration,
    request_user_input_count: u64,
    request_user_input_wait_duration: Duration,
}

impl View for TurnTimingStateInner {
    type V = TurnModel;

    closed spec fn view(&self) -> TurnModel {
        TurnModel {
            started_at: optional_instant(self.started_at),
            started_at_unix_secs: optional_int(self.started_at_unix_secs),
            first_token_at: optional_instant(self.first_token_at),
            first_message_at: optional_instant(self.first_message_at),
            first_sampling_started_at: optional_instant(self.first_sampling_started_at),
            active_sampling_started_at: optional_instant(self.active_sampling_started_at),
            last_sampling_completed_at: optional_instant(self.last_sampling_completed_at),
            sampling_request_count: self.sampling_request_count as nat,
            sampling_request_nanos: duration_nanos(self.sampling_request_duration),
            sampling_retry_count: self.sampling_retry_count as nat,
            sampling_retry_delay_nanos: duration_nanos(self.sampling_retry_delay_duration),
            inter_sampling_nanos: duration_nanos(self.inter_sampling_duration),
            request_user_input_count: self.request_user_input_count as nat,
            request_user_input_wait_nanos: duration_nanos(self.request_user_input_wait_duration),
        }
    }
}

impl Default for TurnTimingStateInner {
    /// A record of nothing.
    fn default() -> (state: Self)
        ensures
            state@ == TurnModel::idle(),
            state@.well_formed(),
    {
        TurnTimingStateInner {
            started_at: None,
            started_at_unix_secs: None,
            first_token_at: None,
            first_message_at: None,
            first_sampling_started_at: None,
            active_sampling_started_at: None,
            last_sampling_completed_at: None,
            sampling_request_count: 0,
            sampling_request_duration: zero_duration(),
            sampling_retry_count: 0,
            sampling_retry_delay_duration: zero_duration(),
            inter_sampling_duration: zero_duration(),
            request_user_input_count: 0,
            request_user_input_wait_duration: zero_duration(),
        }
    }
}

impl TurnTimingStateInner {
    /// Records that a sampling request started. Ignored outside a turn and while another request
    /// is running.
    pub fn mark_sampling_started(&mut self, started_at: Instant)
        ensures
            final(self)@ == old(self)@.sampling_started(instant_nanos(started_at)),
            old(self)@.well_formed() ==> final(self)@.well_formed(),
    {
        if self.started_at.is_none() || self.active_sampling_started_at.is_some() {
            return;
        }
        if self.first_sampling_started_at.is_none() {
            self.first_sampling_started_at = Some(started_at);
        } else if let Some(last_sampling_completed_at) = self.last_sampling_completed_at {
            self.inter_sampling_duration =
                self.inter_sampling_duration.saturating_add(
                    started_at.saturating_duration_since(last_sampling_completed_at),
                );
        }
        self.active_sampling_started_at = Some(started_at);
        self.sampling_request_count = self.sampling_request_count.saturating_add(1);
    }

    /// Records that the running sampling request completed. Ignored when none is running.
    pub fn mark_sampling_completed(&mut self, completed_at: Instant)
        ensures
            final(self)@ == old(self)@.sampling_completed(instant_nanos(completed_at)),
            old(self)@.well_formed() ==> final(self)@.well_formed(),
    {
        let Some(started_at) = self.active_sampling_started_at.take() else {
            return;
        };
        self.sampling_request_duration =
            self.sampling_request_duration.saturating_add(
                completed_at.saturating_duration_since(started_at),
            );
        self.last_sampling_completed_at = Some(completed_at);
    }

    /// How the time of the turn divides up if it ends at `completed_at`: nothing unless the turn
    /// has sampled. A request that is still running counts up to `completed_at`.
    pub fn sampling_phase_timings(&self, completed_at: Instant) -> (timings: Option<
        TurnSamplingPhaseTimings,
    >)
        ensures
            reports_phases(timings, self@, instant_nanos(completed_at)),
    {
        let turn_started_at = self.started_at?;
        let first_sampling_started_at = self.first_sampling_started_at?;
        let active_sampling_duration = match self.active_sampling_started_at {
            Some(started_at) => completed_at.saturating_duration_since(started_at),
            None => zero_duration(),
        };
        let sampling_request_duration = self.sampling_request_duration.saturating_add(
            active_sampling_duration,
        );
        let post_sampling_duration = if self.active_sampling_started_at.is_some() {
            zero_duration()
        } else {
            match self.last_sampling_completed_at {
                Some(last_completed_at) => completed_at.saturating_duration_since(
                    last_completed_at,
                ),
                None => zero_duration(),
            }
        };
        Some(
            TurnSamplingPhaseTimings {
                sampling_request_count: self.sampling_request_count,
                sampling_request_duration_ms: duration_millis_u64(sampling_request_duration),
                sampling_retry_count: self.sampling_retry_count,
                sampling_retry_delay_duration_ms: duration_millis_u64(
                    self.sampling_retry_delay_duration,
                ),
                pre_sampling_duration_ms: duration_millis_u64(
                    first_sampling_started_at.saturating_duration_since(turn_started_at),
                ),
                inter_sampling_duration_ms: duration_millis_u64(self.inter_sampling_duration),
                post_sampling_duration_ms: duration_millis_u64(post_sampling_duration),
                request_user_input_count: self.request_user_input_count,
                request_user_input_wait_duration_ms: duration_millis_u64(
                    self.request_user_input_wait_duration,
                ),
            },
        )
    }

    /// The time from the start of the turn to its first output, once both have happened.
    pub fn time_to_first_token(&self) -> (span: Option<Duration>)
        ensures
            optional_nanos(span) == self@.time_to_first_token(),
    {
        let first_token_at = self.first_token_at?;
        let started_at = self.started_at?;
        Some(first_token_at.duration_since(started_at))
    }

    /// Records output seen at `now` and reports the time since the start of the turn. Only the
    /// first output in a turn is recorded and reported.
    pub fn record_turn_ttft_at(&mut self, now: Instant) -> (span: Option<Duration>)
        ensures
            final(self)@ == old(self)@.token_seen(instant_nanos(now)),
            optional_nanos(span) == old(self)@.token_report(instant_nanos(now)),
            old(self)@.well_formed() ==> final(self)@.well_formed(),
    {
        if self.first_token_at.is_some() {
            return None;
        }
        self.started_at?;
        self.first_token_at = Some(now);
        self.time_to_first_token()
    }

    /// Records output seen now and reports the time since the start of the turn. Only the first
    /// output in a turn is recorded and reported.
    pub fn record_turn_ttft(&mut self) -> (span: Option<Duration>)
        ensures
            span is Some <==> old(self)@.started_at is Some && old(self)@.first_token_at is None,
            exists|now: Instant|
                is_instant_reading(now)
                    && final(self)@ == old(self)@.token_seen(#[trigger] instant_nanos(now))
                    && optional_nanos(span) == old(self)@.token_report(instant_nanos(now)),
            old(self)@.well_formed() ==> final(self)@.well_formed(),
    {
        let now = Instant::now();
        self.record_turn_ttft_at(now)
    }

    /// Records a message seen at `now` and reports the time since the start of the turn. Only the
    /// first message in a turn is recorded and reported.
    pub fn record_turn_ttfm_at(&mut self, now: Instant) -> (span: Option<Duration>)
        ensures
            final(self)@ == old(self)@.message_seen(instant_nanos(now)),
            optional_nanos(span) == old(self)@.message_report(instant_nanos(now)),
            old(self)@.well_formed() ==> final(self)@.well_formed(),
    {
        if self.first_message_at.is_some() {
            return None;
        }
        let started_at = self.started_at?;
        self.first_message_at = Some(now);
        Some(now.duration_since(started_at))
    }

    /// Records a message seen now and reports the time since the start of the turn. Only the
    /// first message in a turn is recorded and reported.
    pub fn record_turn_ttfm(&mut self) -> (span: Option<Duration>)
        ensures
            span is Some <==> old(self)@.started_at is Some && old(self)@.first_message_at is None,
            exists|now: Instant|
                is_instant_reading(now)
                    && final(self)@ == old(self)@.message_seen(#[trigger] instant_nanos(now))
                    && optional_nanos(span) == old(self)@.message_report(instant_nanos(now)),
            old(self)@.well_formed() ==> final(self)@.well_formed(),
    {
        let now = Instant::now();
        self.record_turn_ttfm_at(now)
    }
}

/// The timing of the turns of a session, one at a time.
#[derive(Debug)]
pub struct TurnTimingState {
    state: TurnTimingStateInner,
}

impl View for TurnTimingState {
    type V = TurnModel;

    closed spec fn view(&self) -> TurnModel {
        self.state@
    }
}

impl Default for TurnTimingState {
    /// No turn has started.
    fn default() -> (state: Self)
        ensures
            state@ == TurnModel::idle(),
            state@.well_formed(),
    {
        TurnTimingState { state: TurnTimingStateInner::default() }
    }
}

impl TurnTimingState {
    /// Starts a turn at `started_at` on the monotonic clock, when the Unix timestamp in
    /// milliseconds is `started_at_unix_ms`. Nothing of an earlier turn is kept.
    pub fn mark_turn_started_at(&mut self, started_at: Instant, started_at_unix_ms: i64)
        ensures
            final(self)@ == TurnModel::started(
                instant_nanos(started_at),
                started_at_unix_ms as int,
            ),
            final(self)@.well_formed(),
    {
        self.state.started_at = Some(started_at);
        self.state.started_at_unix_secs = Some(started_at_unix_ms / 1000);
        self.state.first_token_at = None;
        self.state.first_message_at = None;
        self.state.first_sampling_started_at = None;
        self.state.active_sampling_started_at = None;
        self.state.last_sampling_completed_at = None;
        self.state.sampling_request_count = 0;
        self.state.sampling_request_duration = zero_duration();
        self.state.sampling_retry_count = 0;
        self.state.sampling_retry_delay_duration = zero_duration();
        self.state.inter_sampling_duration = zero_duration();
        self.state.request_user_input_count = 0;
        self.state.request_user_input_wait_duration = zero_duration();
    }

    /// Starts a turn at `started_at` on the monotonic clock and now on the wall clock, and gives
    /// the Unix timestamp in milliseconds. Nothing of an earlier turn is kept.
    pub fn mark_turn_started(&mut self, started_at: Instant) -> (started_at_unix_ms: i64)
        ensures
            0 <= started_at_unix_ms,
            exists|now: SystemTime|
                is_system_time_reading(now)
                    && started_at_unix_ms == unix_millis(#[trigger] system_time_nanos(now)),
            final(self)@ == TurnModel::started(
                instant_nanos(started_at),
                started_at_unix_ms as int,
            ),
            final(self)@.well_formed(),
    {
        let started_at_unix_ms: i64 = now_unix_timestamp_ms();
        self.mark_turn_started_at(started_at, started_at_unix_ms);
        started_at_unix_ms
    }

    /// The Unix timestamp in whole seconds at which the turn started.
    pub fn started_at_unix_secs(&self) -> (secs: Option<i64>)
        ensures
            optional_int(secs) == self@.started_at_unix_secs,
    {
        self.state.started_at_unix_secs
    }

    /// What there is to report of the turn if it ends at `completed_at` on the monotonic clock and
    /// at the Unix timestamp `completed_at_unix_secs`: that timestamp, the milliseconds that the
    /// turn took, and how they divide up.
    pub fn completed_at_duration_and_sampling_phase_at(
        &self,
        completed_at: Instant,
        completed_at_unix_secs: i64,
    ) -> (report: (Option<i64>, Option<i64>, Option<TurnSamplingPhaseTimings>))
        ensures
            report.0 == Some(completed_at_unix_secs),
            optional_int(report.1) == optional_millis(
                self@.turn_nanos(instant_nanos(completed_at)),
            ),
            reports_phases(report.2, self@, instant_nanos(completed_at)),
    {
        let duration_ms = match self.state.started_at {
            Some(started_at) => Some(
                duration_millis_i64(completed_at.saturating_duration_since(started_at)),
            ),
            None => None,
        };
        let sampling_phase = self.state.sampling_phase_timings(completed_at);
        (Some(completed_at_unix_secs), duration_ms, sampling_phase)
    }

    /// What there is to report of the turn if it ends now: the Unix timestamp in whole seconds,
    /// the milliseconds that the turn took, and how they divide up.
    pub fn completed_at_duration_and_sampling_phase(&self) -> (report: (
        Option<i64>,
        Option<i64>,
        Option<TurnSamplingPhaseTimings>,
    ))
        ensures
            exists|now: SystemTime|
                is_system_time_reading(now)
                    && optional_int(report.0) == Some(
                    whole_seconds(unix_millis(#[trigger] system_time_nanos(now)) as int),
                ),
            exists|now: Instant|
                is_instant_reading(now)
                    && optional_int(report.1) == optional_millis(
                    self@.turn_nanos(#[trigger] instant_nanos(now)),
                ) && reports_phases(report.2, self@, instant_nanos(now)),
    {
        let completed_at = Instant::now();
        let completed_at_unix_secs: i64 = now_unix_timestamp_secs();
        self.completed_at_duration_and_sampling_phase_at(completed_at, completed_at_unix_secs)
    }

    /// Records that a sampling request started at `started_at`. Ignored outside a turn and while
    /// another request is running.
    pub fn mark_sampling_started_at(&mut self, started_at: Instant)
        ensures
            final(self)@ == old(self)@.sampling_started(instant_nanos(started_at)),
            old(self)@.well_formed() ==> final(self)@.well_formed(),
    {
        self.state.mark_sampling_started(started_at);
    }

    /// Records that a sampling request started now. Ignored outside a turn and while another
    /// request is running.
    pub fn mark_sampling_started(&mut self)
        ensures
            exists|now: Instant|
                is_instant_reading(now)
                    && final(self)@ == old(self)@.sampling_started(#[trigger] instant_nanos(now)),
            old(self)@.well_formed() ==> final(self)@.well_formed(),
    {
        self.mark_sampling_started_at(Instant::now());
    }

    /// Records that the running sampling request completed at `completed_at`. Ignored when none
    /// is running.
    pub fn mark_sampling_completed_at(&mut self, completed_at: Instant)
        ensures
            final(self)@ == old(self)@.sampling_completed(instant_nanos(completed_at)),
            old(self)@.well_formed() ==> final(self)@.well_formed(),
    {
        self.state.mark_sampling_completed(completed_at);
    }

    /// Records that the running sampling request completed now. Ignored when none is running.
    pub fn mark_sampling_completed(&mut self)
        ensures
            exists|now: Instant|
                is_instant_reading(now)
                    && final(self)@ == old(self)@.sampling_completed(#[trigger] instant_nanos(now)),
            old(self)@.well_formed() ==> final(self)@.well_formed(),
    {
        self.mark_sampling_completed_at(Instant::now());
    }

    /// Records a retry of a sampling request after `delay`.
    pub fn record_sampling_retry(&mut self, delay: Duration)
        ensures
            final(self)@ == old(self)@.sampling_retried(duration_nanos(delay)),
            old(self)@.well_formed() ==> final(self)@.well_formed(),
    {
        self.state.sampling_retry_count = self.state.sampling_retry_count.saturating_add(1);
        self.state.sampling_retry_delay_duration =
            self.state.sampling_retry_delay_duration.saturating_add(delay);
    }

    /// Records a wait of `duration` for input from the user.
    pub fn record_request_user_input_wait(&mut self, duration: Duration)
        ensures
            final(self)@ == old(self)@.user_input_waited(duration_nanos(duration)),
            old(self)@.well_formed() ==> final(self)@.well_formed(),
    {
        self.state.request_user_input_count =
            self.state.request_user_input_count.saturating_add(1);
        self.state.request_user_input_wait_duration =
            self.state.request_user_input_wait_duration.saturating_add(duration);
    }

    /// The whole milliseconds from the start of the turn to its first output, once both have
    /// happened.
    pub fn time_to_first_token_ms(&self) -> (millis: Option<i64>)
        ensures
            optional_int(millis) == optional_millis(self@.time_to_first_token()),
    {
        match self.state.time_to_first_token() {
            Some(duration) => Some(duration_millis_i64(duration)),
            None => None,
        }
    }

    /// Takes note of an event of the response stream seen at `now`. The first one in a turn that
    /// counts as output is recorded, and the time since the start of the turn is given back.
    pub fn record_ttft_for_response_event_at(
        &mut self,
        event: &ResponseEvent,
        now: Instant,
    ) -> (span: Option<Duration>)
        ensures
            event_is_output(*event) ==> {
                &&& final(self)@ == old(self)@.token_seen(instant_nanos(now))
                &&& optional_nanos(span) == old(self)@.token_report(instant_nanos(now))
            },
            !event_is_output(*event) ==> final(self)@ == old(self)@ && span is None,
            old(self)@.well_formed() ==> final(self)@.well_formed(),
    {
        if !response_event_records_turn_ttft(event) {
            return None;
        }
        self.state.record_turn_ttft_at(now)
    }

    /// Takes note of an event of the response stream. The first one in a turn that counts as
    /// output is recorded, and the time since the start of the turn is given back.
    pub fn record_ttft_for_response_event(&mut self, event: &ResponseEvent) -> (span: Option<
        Duration,
    >)
        ensures
            span is Some <==> event_is_output(*event) && old(self)@.started_at is Some
                && old(self)@.first_token_at is None,
            event_is_output(*event) ==> exists|now: Instant|
                is_instant_reading(now)
                    && final(self)@ == old(self)@.token_seen(#[trigger] instant_nanos(now))
                    && optional_nanos(span) == old(self)@.token_report(instant_nanos(now)),
            !event_is_output(*event) ==> final(self)@ == old(self)@,
            old(self)@.well_formed() ==> final(self)@.well_formed(),
    {
        if !response_event_records_turn_ttft(event) {
            return None;
        }
        self.state.record_turn_ttft()
    }

    /// Takes note of an item of the turn seen at `now`. The first message from the agent in a turn
    /// is recorded, and the time since the start of the turn is given back.
    pub fn record_ttfm_for_turn_item_at(&mut self, item: &TurnItem, now: Instant) -> (span: Option<
        Duration,
    >)
        ensures
            item is AgentMessage ==> {
                &&& final(self)@ == old(self)@.message_seen(instant_nanos(now))
                &&& optional_nanos(span) == old(self)@.message_report(instant_nanos(now))
            },
            !(item is AgentMessage) ==> final(self)@ == old(self)@ && span is None,
            old(self)@.well_formed() ==> final(self)@.well_formed(),
    {
        if !matches!(item, TurnItem::AgentMessage(_)) {
            return None;
        }
        self.state.record_turn_ttfm_at(now)
    }

    /// Takes note of an item of the turn. The first message from the agent in a turn is recorded,
    /// and the time since the start of the turn is given back.
    pub fn record_ttfm_for_turn_item(&mut self, item: &TurnItem) -> (span: Option<Duration>)
        ensures
            span is Some <==> item is AgentMessage && old(self)@.started_at is Some
                && old(self)@.first_message_at is None,
            item is AgentMessage ==> exists|now: Instant|
                is_instant_reading(now)
                    && final(self)@ == old(self)@.message_seen(#[trigger] instant_nanos(now))
                    && optional_nanos(span) == old(self)@.message_report(instant_nanos(now)),
            !(item is AgentMessage) ==> final(self)@ == old(self)@,
            old(self)@.well_formed() ==> final(self)@.well_formed(),
    {
        if !matches!(item, TurnItem::AgentMessage(_)) {
            return None;
        }
        self.state.record_turn_ttfm()
    }

    /// How the time of the turn divides up if it ends at `completed_at`.
    pub fn sampling_phase_timings_at(&self, completed_at: Instant) -> (timings: Option<
        TurnSamplingPhaseTimings,
    >)
        ensures
            reports_phases(timings, self@, instant_nanos(completed_at)),
    {
        self.state.sampling_phase_timings(completed_at)
    }
}

} // verus!
