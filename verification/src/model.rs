//! The mathematical model of a turn: what has been recorded of it, in nanoseconds, and how each
//! event changes the record.
use crate::clock::elapsed_nanos;
use crate::clock::saturating_nanos;
use crate::clock::whole_seconds;
use crate::clock::MAX_DURATION_NANOS;
use crate::clock::NANOS_PER_MILLI;
use vstd::prelude::*;

verus! {

/// What is known of a turn. Points in time are positions on the monotonic clock; spans are
/// lengths in nanoseconds.
pub struct TurnModel {
    pub started_at: Option<int>,
    pub started_at_unix_secs: Option<int>,
    pub first_token_at: Option<int>,
    pub first_message_at: Option<int>,
    pub first_sampling_started_at: Option<int>,
    pub active_sampling_started_at: Option<int>,
    pub last_sampling_completed_at: Option<int>,
    pub sampling_request_count: nat,
    pub sampling_request_nanos: nat,
    pub sampling_retry_count: nat,
    pub sampling_retry_delay_nanos: nat,
    pub inter_sampling_nanos: nat,
    pub request_user_input_count: nat,
    pub request_user_input_wait_nanos: nat,
}

/// How the time of a turn divides up, in nanoseconds.
pub struct PhaseSpans {
    /// From the start of the turn to its first sampling request.
    pub pre_sampling: nat,
    /// Within sampling requests.
    pub sampling_request: nat,
    /// Between one sampling request and the next.
    pub inter_sampling: nat,
    /// From the last sampling request to the end of the turn.
    pub post_sampling: nat,
}

/// One more, up to the largest `u64`.
pub open spec fn counted(count: nat) -> nat {
    if count < u64::MAX {
        count + 1
    } else {
        u64::MAX as nat
    }
}

impl TurnModel {
    /// No turn has started and nothing has been recorded.
    pub open spec fn idle() -> TurnModel {
        TurnModel {
            started_at: None,
            started_at_unix_secs: None,
            first_token_at: None,
            first_message_at: None,
            first_sampling_started_at: None,
            active_sampling_started_at: None,
            last_sampling_completed_at: None,
            sampling_request_count: 0,
            sampling_request_nanos: 0,
            sampling_retry_count: 0,
            sampling_retry_delay_nanos: 0,
            inter_sampling_nanos: 0,
            request_user_input_count: 0,
            request_user_input_wait_nanos: 0,
        }
    }

    /// A turn has just started: nothing else is recorded of it yet.
    pub open spec fn started(at: int, unix_millis: int) -> TurnModel {
        TurnModel {
            started_at: Some(at),
            started_at_unix_secs: Some(whole_seconds(unix_millis)),
            ..TurnModel::idle()
        }
    }

    /// A sampling request starts. Ignored outside a turn and while another request is running.
    pub open spec fn sampling_started(self, at: int) -> TurnModel {
        if self.started_at is None || self.active_sampling_started_at is Some {
            self
        } else {
            TurnModel {
                first_sampling_started_at: match self.first_sampling_started_at {
                    Some(first) => Some(first),
                    None => Some(at),
                },
                inter_sampling_nanos: match (
                    self.first_sampling_started_at,
                    self.last_sampling_completed_at,
                ) {
                    (Some(_), Some(last)) => saturating_nanos(
                        self.inter_sampling_nanos,
                        elapsed_nanos(at, last),
                    ),
                    _ => self.inter_sampling_nanos,
                },
                active_sampling_started_at: Some(at),
                sampling_request_count: counted(self.sampling_request_count),
                ..self
            }
        }
    }

    /// The running sampling request completes. Ignored when none is running.
    pub open spec fn sampling_completed(self, at: int) -> TurnModel {
        match self.active_sampling_started_at {
            Some(since) => TurnModel {
                active_sampling_started_at: None,
                sampling_request_nanos: saturating_nanos(
                    self.sampling_request_nanos,
                    elapsed_nanos(at, since),
                ),
                last_sampling_completed_at: Some(at),
                ..self
            },
            None => self,
        }
    }

    /// A sampling request is to be retried after a delay.
    pub open spec fn sampling_retried(self, delay: nat) -> TurnModel {
        TurnModel {
            sampling_retry_count: counted(self.sampling_retry_count),
            sampling_retry_delay_nanos: saturating_nanos(self.sampling_retry_delay_nanos, delay),
            ..self
        }
    }

    /// The turn has waited for input from the user.
    pub open spec fn user_input_waited(self, wait: nat) -> TurnModel {
        TurnModel {
            request_user_input_count: counted(self.request_user_input_count),
            request_user_input_wait_nanos: saturating_nanos(
                self.request_user_input_wait_nanos,
                wait,
            ),
            ..self
        }
    }

    /// Output is seen. Only the first one in a turn is recorded.
    pub open spec fn token_seen(self, at: int) -> TurnModel {
        if self.started_at is Some && self.first_token_at is None {
            TurnModel { first_token_at: Some(at), ..self }
        } else {
            self
        }
    }

    /// What seeing output reports: the time since the start of the turn, for the first output in
    /// a turn, and nothing otherwise.
    pub open spec fn token_report(self, at: int) -> Option<nat> {
        match (self.started_at, self.first_token_at) {
            (Some(start), None) => Some(elapsed_nanos(at, start)),
            _ => None,
        }
    }

    /// A message to the user is seen. Only the first one in a turn is recorded.
    pub open spec fn message_seen(self, at: int) -> TurnModel {
        if self.started_at is Some && self.first_message_at is None {
            TurnModel { first_message_at: Some(at), ..self }
        } else {
            self
        }
    }

    /// What seeing a message reports: the time since the start of the turn, for the first message
    /// in a turn, and nothing otherwise.
    pub open spec fn message_report(self, at: int) -> Option<nat> {
        match (self.started_at, self.first_message_at) {
            (Some(start), None) => Some(elapsed_nanos(at, start)),
            _ => None,
        }
    }

    /// The time from the start of the turn to its first output, once both have happened.
    pub open spec fn time_to_first_token(self) -> Option<nat> {
        match (self.started_at, self.first_token_at) {
            (Some(start), Some(token)) => Some(elapsed_nanos(token, start)),
            _ => None,
        }
    }

    /// The time the turn has taken at `at`.
    pub open spec fn turn_nanos(self, at: int) -> Option<nat> {
        match self.started_at {
            Some(start) => Some(elapsed_nanos(at, start)),
            None => None,
        }
    }

    /// How the time of the turn divides up if it ends at `at`: nothing unless the turn has
    /// sampled. A request that is still running counts up to `at`.
    pub open spec fn phase_spans(self, at: int) -> Option<PhaseSpans> {
        match (self.started_at, self.first_sampling_started_at) {
            (Some(start), Some(first)) => Some(
                PhaseSpans {
                    pre_sampling: elapsed_nanos(first, start),
                    sampling_request: saturating_nanos(
                        self.sampling_request_nanos,
                        match self.active_sampling_started_at {
                            Some(since) => elapsed_nanos(at, since),
                            None => 0,
                        },
                    ),
                    inter_sampling: self.inter_sampling_nanos,
                    post_sampling: match (
                        self.active_sampling_started_at,
                        self.last_sampling_completed_at,
                    ) {
                        (None, Some(last)) => elapsed_nanos(at, last),
                        _ => 0,
                    },
                },
            ),
            _ => None,
        }
    }

    /// What holds of every record that events can lead to: everything but retries and waits is
    /// recorded within a turn; the turn has sampled exactly if it has counted a request; each
    /// request is either running or completed; counts and spans stay within their types.
    pub open spec fn well_formed(self) -> bool {
        &&& self.started_at_unix_secs is Some <==> self.started_at is Some
        &&& self.first_token_at is Some ==> self.started_at is Some
        &&& self.first_message_at is Some ==> self.started_at is Some
        &&& self.first_sampling_started_at is Some ==> self.started_at is Some
        &&& self.first_sampling_started_at is Some <==> self.sampling_request_count > 0
        &&& self.first_sampling_started_at is Some <==> (self.active_sampling_started_at is Some
            || self.last_sampling_completed_at is Some)
        &&& self.last_sampling_completed_at is None ==> self.sampling_request_nanos == 0
            && self.inter_sampling_nanos == 0
        &&& self.sampling_request_count <= u64::MAX
        &&& self.sampling_retry_count <= u64::MAX
        &&& self.request_user_input_count <= u64::MAX
        &&& self.sampling_request_nanos <= MAX_DURATION_NANOS
        &&& self.sampling_retry_delay_nanos <= MAX_DURATION_NANOS
        &&& self.inter_sampling_nanos <= MAX_DURATION_NANOS
        &&& self.request_user_input_wait_nanos <= MAX_DURATION_NANOS
    }
}

/// Something that happens to a turn.
pub enum TurnEvent {
    TurnStarted { at: int, unix_millis: int },
    SamplingStarted { at: int },
    SamplingCompleted { at: int },
    SamplingRetried { delay: nat },
    UserInputWaited { wait: nat },
    TokenSeen { at: int },
    MessageSeen { at: int },
}

impl TurnModel {
    /// The record after one more event.
    pub open spec fn after(self, event: TurnEvent) -> TurnModel {
        match event {
            TurnEvent::TurnStarted { at, unix_millis } => TurnModel::started(at, unix_millis),
            TurnEvent::SamplingStarted { at } => self.sampling_started(at),
            TurnEvent::SamplingCompleted { at } => self.sampling_completed(at),
            TurnEvent::SamplingRetried { delay } => self.sampling_retried(delay),
            TurnEvent::UserInputWaited { wait } => self.user_input_waited(wait),
            TurnEvent::TokenSeen { at } => self.token_seen(at),
            TurnEvent::MessageSeen { at } => self.message_seen(at),
        }
    }

    /// The record after a series of events.
    pub open spec fn after_all(self, events: Seq<TurnEvent>) -> TurnModel
        decreases events.len(),
    {
        if events.len() == 0 {
            self
        } else {
            self.after_all(events.drop_last()).after(events.last())
        }
    }

    /// What is reported as the time to the first output in the course of a series of events.
    pub open spec fn token_reports(self, events: Seq<TurnEvent>) -> Seq<nat>
        decreases events.len(),
    {
        if events.len() == 0 {
            Seq::empty()
        } else {
            let earlier = self.token_reports(events.drop_last());
            match events.last() {
                TurnEvent::TokenSeen { at } => match self.after_all(
                    events.drop_last(),
                ).token_report(at) {
                    Some(nanos) => earlier.push(nanos),
                    None => earlier,
                },
                _ => earlier,
            }
        }
    }

    /// What is reported as the time to the first message in the course of a series of events.
    pub open spec fn message_reports(self, events: Seq<TurnEvent>) -> Seq<nat>
        decreases events.len(),
    {
        if events.len() == 0 {
            Seq::empty()
        } else {
            let earlier = self.message_reports(events.drop_last());
            match events.last() {
                TurnEvent::MessageSeen { at } => match self.after_all(
                    events.drop_last(),
                ).message_report(at) {
                    Some(nanos) => earlier.push(nanos),
                    None => earlier,
                },
                _ => earlier,
            }
        }
    }

    /// The record after a series of completed sampling requests, each given by when it started
    /// and when it completed.
    pub open spec fn after_requests(self, requests: Seq<(int, int)>) -> TurnModel
        decreases requests.len(),
    {
        if requests.len() == 0 {
            self
        } else {
            self.after_requests(requests.drop_last()).sampling_started(
                requests.last().0,
            ).sampling_completed(requests.last().1)
        }
    }
}

/// No event of the series starts another turn.
pub open spec fn within_turn(events: Seq<TurnEvent>) -> bool {
    forall|i: int| 0 <= i < events.len() ==> !(#[trigger] events[i] is TurnStarted)
}

/// When a sampling request started or completed.
pub open spec fn sampling_time(event: TurnEvent) -> Option<int> {
    match event {
        TurnEvent::SamplingStarted { at } => Some(at),
        TurnEvent::SamplingCompleted { at } => Some(at),
        _ => None,
    }
}

/// The sampling events of the series happen one after the other, between `start` and `end`.
pub open spec fn sampling_in_order(start: int, events: Seq<TurnEvent>, end: int) -> bool {
    &&& start <= end
    &&& forall|i: int|
        0 <= i < events.len() ==> (sampling_time(#[trigger] events[i]) matches Some(at) ==> start
            <= at <= end)
    &&& forall|i: int, j: int|
        0 <= i < j < events.len() && sampling_time(events[i]) is Some && sampling_time(
            events[j],
        ) is Some ==> sampling_time(#[trigger] events[i])->0 <= sampling_time(
            #[trigger] events[j],
        )->0
}

/// `at` lies a whole number of milliseconds after `start`, or before it.
pub open spec fn on_whole_milli(start: int, at: int) -> bool {
    (at - start) % (NANOS_PER_MILLI as int) == 0
}

/// The sampling events of the series happen whole milliseconds from `start`.
pub open spec fn sampling_on_whole_millis(start: int, events: Seq<TurnEvent>) -> bool {
    forall|i: int|
        0 <= i < events.len() ==> (sampling_time(#[trigger] events[i]) matches Some(at)
            ==> on_whole_milli(start, at))
}

/// The time within sampling requests.
pub open spec fn time_in_requests(requests: Seq<(int, int)>) -> nat
    decreases requests.len(),
{
    if requests.len() == 0 {
        0
    } else {
        time_in_requests(requests.drop_last()) + elapsed_nanos(
            requests.last().1,
            requests.last().0,
        )
    }
}

/// The time from each sampling request to the next.
pub open spec fn time_between_requests(requests: Seq<(int, int)>) -> nat
    decreases requests.len(),
{
    if requests.len() <= 1 {
        0
    } else {
        time_between_requests(requests.drop_last()) + elapsed_nanos(
            requests.last().0,
            requests.drop_last().last().1,
        )
    }
}

/// How often a sampling request is retried.
pub open spec fn retries(events: Seq<TurnEvent>) -> nat
    decreases events.len(),
{
    if events.len() == 0 {
        0
    } else {
        retries(events.drop_last()) + if events.last() is SamplingRetried {
            1nat
        } else {
            0
        }
    }
}

/// The delays before retries, taken together.
pub open spec fn retry_delays(events: Seq<TurnEvent>) -> nat
    decreases events.len(),
{
    if events.len() == 0 {
        0
    } else {
        retry_delays(events.drop_last()) + match events.last() {
            TurnEvent::SamplingRetried { delay } => delay,
            _ => 0,
        }
    }
}

/// How often the turn waits for the user.
pub open spec fn user_input_requests(events: Seq<TurnEvent>) -> nat
    decreases events.len(),
{
    if events.len() == 0 {
        0
    } else {
        user_input_requests(events.drop_last()) + if events.last() is UserInputWaited {
            1nat
        } else {
            0
        }
    }
}

/// The waits for the user, taken together.
pub open spec fn user_input_waits(events: Seq<TurnEvent>) -> nat
    decreases events.len(),
{
    if events.len() == 0 {
        0
    } else {
        user_input_waits(events.drop_last()) + match events.last() {
            TurnEvent::UserInputWaited { wait } => wait,
            _ => 0,
        }
    }
}

/// A span, cut off at the longest span there is.
pub open spec fn capped_nanos(nanos: nat) -> nat {
    saturating_nanos(nanos, 0)
}

/// A count, up to the largest `u64`.
pub open spec fn capped_count(count: nat) -> nat {
    if count <= u64::MAX {
        count
    } else {
        u64::MAX as nat
    }
}

} // verus!
