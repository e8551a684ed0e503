//! The retry state machine: one per logical request, it counts transport
//! attempts against a budget of ten retries and five minutes, and turns each
//! transport outcome into the next thing the request loop must do — return
//! the response, sleep and retry, or fail with a typed error.

use vstd::prelude::*;

use crate::method::Method;
use crate::text::{parse_u64, spec_contains, spec_parse_u64, str_contains, str_eq};

verus! {

/// Nanoseconds in one second
pub const NANOS_PER_SEC: u64 = 1_000_000_000;

/// Maximum number of times to retry a request
pub const RETRIES: i32 = 10;

/// Maximum amount of time to spend retrying a request, in nanoseconds
pub const TOTAL_WAIT_NANOS: u64 = 300_000_000_000;

/// Maximum value of exponential backoff delays, in nanoseconds
pub const BACKOFF_MAX_NANOS: u64 = 120_000_000_000;

/// Backoff before the first retry, in nanoseconds
pub const FIRST_BACKOFF_NANOS: u64 = 100_000_000;

/// The pieces of an HTTP response that retry decisions read, as plain values
pub struct ReplyInfo {
    /// The response's status code
    pub status: u16,
    /// The raw value of the `Retry-After` header, when present and readable
    pub retry_after: Option<String>,
    /// The raw value of the `X-RateLimit-Remaining` header, when present and
    /// readable
    pub ratelimit_remaining: Option<String>,
    /// The raw value of the `X-RateLimit-Reset` header, when present and
    /// readable
    pub ratelimit_reset: Option<String>,
    /// The response body read as text, when readable
    pub body: Option<String>,
}

/// What one transport attempt produced
pub enum TransportOutcome {
    /// No response was received: a connection-level failure
    Failure,
    /// A response was received
    Reply(ReplyInfo),
}

/// What the caller's request loop must do next
#[derive(Clone, Debug, PartialEq, Eq)]
pub enum RetryDecision {
    /// Return the latest response as the result
    Success,
    /// Sleep for the given number of nanoseconds, then send the request again
    Retry { delay_nanos: u64 },
    /// Terminal failure: report a status error built from the latest response
    FailStatus,
    /// Terminal failure: report the transport error
    FailSend,
}

/// 5^n
pub open spec fn pow5(n: nat) -> int
    decreases n,
{
    if n == 0 {
        1
    } else {
        5 * pow5((n - 1) as nat)
    }
}

/// 4^n
pub open spec fn pow4(n: nat) -> int
    decreases n,
{
    if n == 0 {
        1
    } else {
        4 * pow4((n - 1) as nat)
    }
}

proof fn lemma_pow_pos(n: nat)
    ensures
        pow5(n) >= 1,
        pow4(n) >= 1,
    decreases n,
{
    if n > 0 {
        lemma_pow_pos((n - 1) as nat);
    }
}

proof fn lemma_pow_mono(a: nat, b: nat)
    requires
        a <= b,
    ensures
        pow5(a) <= pow5(b),
        pow4(a) <= pow4(b),
    decreases b - a,
{
    if a < b {
        lemma_pow_mono(a, (b - 1) as nat);
        lemma_pow_pos((b - 1) as nat);
    }
}

proof fn lemma_pow_values()
    ensures
        pow5(9) == 1_953_125,
        pow4(9) == 262_144,
{
    reveal_with_fuel(pow5, 10);
    reveal_with_fuel(pow4, 10);
}

/// The backoff before the retry numbered `attempt`, in nanoseconds: a tenth
/// of a second before the first retry, and afterwards `1.25 ^ (attempt - 1)`
/// seconds — computed in whole nanoseconds, rounding down — capped at 120
/// seconds
pub open spec fn spec_backoff_nanos(attempt: int) -> int {
    if attempt < 2 {
        FIRST_BACKOFF_NANOS as int
    } else {
        let raw = (NANOS_PER_SEC as int) * pow5((attempt - 1) as nat) / pow4((attempt - 1) as nat);
        if raw > BACKOFF_MAX_NANOS as int {
            BACKOFF_MAX_NANOS as int
        } else {
            raw
        }
    }
}

/// Compute the exponential backoff for the retry numbered `attempt`
pub fn backoff_nanos(attempt: i32) -> (r: u64)
    requires
        1 <= attempt <= RETRIES,
    ensures
        r as int == spec_backoff_nanos(attempt as int),
{
    if attempt < 2 {
        return FIRST_BACKOFF_NANOS;
    }
    let e: i32 = attempt - 1;
    let mut p5: u64 = 1;
    let mut p4: u64 = 1;
    let mut k: i32 = 0;
    while k < e
        invariant
            0 <= k <= e <= 9,
            p5 == pow5(k as nat),
            p4 == pow4(k as nat),
        decreases e - k,
    {
        proof {
            lemma_pow_mono((k + 1) as nat, 9);
            lemma_pow_values();
        }
        p5 = p5 * 5;
        p4 = p4 * 4;
        k = k + 1;
    }
    proof {
        lemma_pow_mono(e as nat, 9);
        lemma_pow_values();
        lemma_pow_pos(e as nat);
    }
    let raw: u64 = NANOS_PER_SEC * p5 / p4;
    if raw > BACKOFF_MAX_NANOS {
        BACKOFF_MAX_NANOS
    } else {
        raw
    }
}

/// The time from `now_unix_nanos` until `ts` seconds past the Unix epoch:
/// `None` when that moment has already passed, and otherwise the number of
/// nanoseconds until it, saturated at `u64::MAX`
pub open spec fn spec_time_till_timestamp(ts: u64, now_unix_nanos: u64) -> Option<u64> {
    let target = (ts as int) * (NANOS_PER_SEC as int);
    if target >= now_unix_nanos as int {
        if target - now_unix_nanos > u64::MAX as int {
            Some(u64::MAX)
        } else {
            Some((target - now_unix_nanos) as u64)
        }
    } else {
        None
    }
}

/// How long until the system time reaches `ts` seconds since the Unix epoch,
/// given the current system time in nanoseconds since that epoch
pub fn time_till_timestamp(ts: u64, now_unix_nanos: u64) -> (r: Option<u64>)
    ensures
        r == spec_time_till_timestamp(ts, now_unix_nanos),
{
    proof {
        assert((ts as int) * (NANOS_PER_SEC as int) <= (u64::MAX as int) * (NANOS_PER_SEC as int))
            by (nonlinear_arith)
            requires
                ts as int <= u64::MAX as int,
        ;
    }
    let target: u128 = (ts as u128) * (NANOS_PER_SEC as u128);
    if target >= now_unix_nanos as u128 {
        let diff: u128 = target - (now_unix_nanos as u128);
        if diff > u64::MAX as u128 {
            Some(u64::MAX)
        } else {
            Some(diff as u64)
        }
    } else {
        None
    }
}

/// How much of the retry time budget remains at monotonic time `now`
pub open spec fn spec_time_left(stop: int, now: int) -> int {
    if now >= stop {
        0
    } else {
        stop - now
    }
}

/// Retry after `delay` nanoseconds, clamped to the time remaining until the
/// deadline
pub open spec fn clamped_retry(delay: int, time_left: int) -> RetryDecision {
    RetryDecision::Retry {
        delay_nanos: (if delay <= time_left {
            delay
        } else {
            time_left
        }) as u64,
    }
}

pub open spec fn status_is_client_error(status: u16) -> bool {
    400 <= status < 500
}

pub open spec fn status_is_server_error(status: u16) -> bool {
    500 <= status < 600
}

/// The terminal decision for an outcome: an error status is reported as a
/// status failure, a transport error as a send failure, and any other
/// response is returned as success
pub open spec fn spec_finalize(o: TransportOutcome) -> RetryDecision {
    match o {
        TransportOutcome::Reply(r) => {
            if status_is_client_error(r.status) || status_is_server_error(r.status) {
                RetryDecision::FailStatus
            } else {
                RetryDecision::Success
            }
        },
        TransportOutcome::Failure => RetryDecision::FailSend,
    }
}

/// The rate-limit sub-protocol for a 403 response.  A `Retry-After` header
/// asks for that many seconds plus one; failing that, a body that mentions
/// "rate limit" with an exhausted primary quota waits until the reset
/// timestamp plus one second, and with quota remaining falls back to the
/// exponential backoff; any other 403 is a terminal status failure.  A wait
/// that cannot finish inside the remaining budget is a terminal status
/// failure as well.
pub open spec fn spec_forbidden(
    r: ReplyInfo,
    backoff: int,
    time_left: int,
    now_unix: int,
) -> RetryDecision {
    match r.retry_after {
        Some(v) => match spec_parse_u64(v@) {
            Some(n) => {
                let need = (n + 1) * (NANOS_PER_SEC as int);
                if time_left < need {
                    RetryDecision::FailStatus
                } else {
                    clamped_retry(need, time_left)
                }
            },
            None => clamped_retry(0, time_left),
        },
        None => {
            if r.body matches Some(b) && spec_contains(b@, "rate limit"@) {
                if r.ratelimit_remaining matches Some(v) && v@ == "0"@ {
                    match r.ratelimit_reset {
                        Some(rv) => match spec_parse_u64(rv@) {
                            Some(ts) => {
                                let target = ts * (NANOS_PER_SEC as int);
                                let wait = if target >= now_unix {
                                    target - now_unix
                                } else {
                                    0
                                };
                                let delay = wait + NANOS_PER_SEC;
                                if time_left < delay {
                                    RetryDecision::FailStatus
                                } else {
                                    clamped_retry(delay, time_left)
                                }
                            },
                            None => clamped_retry(0, time_left),
                        },
                        None => clamped_retry(0, time_left),
                    }
                } else {
                    clamped_retry(backoff, time_left)
                }
            } else {
                RetryDecision::FailStatus
            }
        },
    }
}

/// The decision taken for one transport outcome, `attempts_after` being the
/// attempt counter after counting this outcome.  Once the attempt budget or
/// the time budget is exhausted the outcome is finalized; otherwise transport
/// errors and 5xx responses retry with exponential backoff, a 403 goes
/// through the rate-limit sub-protocol, any other 4xx is a terminal status
/// failure, and everything else is a success.
pub open spec fn spec_decision(
    attempts_after: int,
    stop: int,
    now: int,
    now_unix: int,
    o: TransportOutcome,
) -> RetryDecision {
    if attempts_after > RETRIES {
        spec_finalize(o)
    } else if spec_time_left(stop, now) == 0 {
        spec_finalize(o)
    } else {
        let time_left = spec_time_left(stop, now);
        let backoff = spec_backoff_nanos(attempts_after);
        match o {
            TransportOutcome::Failure => clamped_retry(backoff, time_left),
            TransportOutcome::Reply(r) => {
                if r.status == 403 {
                    spec_forbidden(r, backoff, time_left, now_unix)
                } else if status_is_server_error(r.status) {
                    clamped_retry(backoff, time_left)
                } else {
                    spec_finalize(o)
                }
            },
        }
    }
}

/// The deadline a fresh retry state machine gets: the full time budget past
/// `now`, saturated at `u64::MAX`
pub open spec fn spec_deadline(now: int) -> int {
    if now + TOTAL_WAIT_NANOS <= u64::MAX {
        now + TOTAL_WAIT_NANOS
    } else {
        u64::MAX as int
    }
}

/// The retry state machine for a single logical request
pub struct Retrier {
    /// The HTTP method of the request
    pub method: Method,
    /// The URL to which the request is being sent
    pub url: String,
    /// How many transport attempts have been counted so far
    pub attempts: i32,
    /// Monotonic timestamp, in nanoseconds, beyond which no more retries are
    /// scheduled
    pub stop_time_nanos: u64,
}

impl Retrier {
    /// The state machine is live: its attempt budget is not yet exhausted
    pub open spec fn wf(&self) -> bool {
        0 <= self.attempts <= RETRIES
    }

    /// Create the retry state for one logical request, with the full attempt
    /// and time budget ahead of it; `now_nanos` is the current monotonic time
    pub fn new(method: Method, url: String, now_nanos: u64) -> (r: Retrier)
        ensures
            r.method == method,
            r.url == url,
            r.attempts == 0,
            r.stop_time_nanos as int == spec_deadline(now_nanos as int),
            r.wf(),
    {
        let stop_time_nanos: u64 = if now_nanos <= u64::MAX - TOTAL_WAIT_NANOS {
            now_nanos + TOTAL_WAIT_NANOS
        } else {
            u64::MAX
        };
        Retrier { method, url, attempts: 0, stop_time_nanos }
    }

    /// Count one transport outcome and decide what the request loop does
    /// next.  `now_nanos` is the current monotonic time and `now_unix_nanos`
    /// the current system time in nanoseconds since the Unix epoch.
    pub fn handle(&mut self, now_nanos: u64, now_unix_nanos: u64, outcome: &TransportOutcome) -> (d:
        RetryDecision)
        requires
            old(self).wf(),
        ensures
            final(self).method == old(self).method,
            final(self).url == old(self).url,
            final(self).stop_time_nanos == old(self).stop_time_nanos,
            final(self).attempts == old(self).attempts + 1,
            d == spec_decision(
                old(self).attempts + 1,
                old(self).stop_time_nanos as int,
                now_nanos as int,
                now_unix_nanos as int,
                *outcome,
            ),
            d matches RetryDecision::Retry { .. } ==> final(self).wf(),
    {
        self.attempts = self.attempts + 1;
        if self.attempts > RETRIES {
            return finalize(outcome);
        }
        let time_left: u64 = if now_nanos >= self.stop_time_nanos {
            0
        } else {
            self.stop_time_nanos - now_nanos
        };
        if time_left == 0 {
            return finalize(outcome);
        }
        let backoff: u64 = backoff_nanos(self.attempts);
        let delay: u64 = match outcome {
            TransportOutcome::Failure => backoff,
            TransportOutcome::Reply(r) => {
                if r.status == 403 {
                    match &r.retry_after {
                        Some(v) => match parse_u64(v.as_str()) {
                            Some(n) => {
                                let need: u128 = ((n as u128) + 1) * (NANOS_PER_SEC as u128);
                                if (time_left as u128) < need {
                                    return RetryDecision::FailStatus;
                                }
                                need as u64
                            },
                            None => 0,
                        },
                        None => {
                            let rate_limited: bool = match &r.body {
                                Some(b) => str_contains(b.as_str(), "rate limit"),
                                None => false,
                            };
                            if rate_limited {
                                let remaining_zero: bool = match &r.ratelimit_remaining {
                                    Some(v) => str_eq(v.as_str(), "0"),
                                    None => false,
                                };
                                if remaining_zero {
                                    let reset: Option<u64> = match &r.ratelimit_reset {
                                        Some(v) => parse_u64(v.as_str()),
                                        None => None,
                                    };
                                    match reset {
                                        Some(ts) => {
                                            let target: u128 = (ts as u128) * (
                                            NANOS_PER_SEC as u128);
                                            let wait: u128 = if target >= (now_unix_nanos as u128) {
                                                target - (now_unix_nanos as u128)
                                            } else {
                                                0
                                            };
                                            let needed: u128 = wait + (NANOS_PER_SEC as u128);
                                            if (time_left as u128) < needed {
                                                return RetryDecision::FailStatus;
                                            }
                                            needed as u64
                                        },
                                        None => 0,
                                    }
                                } else {
                                    backoff
                                }
                            } else {
                                return RetryDecision::FailStatus;
                            }
                        },
                    }
                } else if r.status >= 500 && r.status < 600 {
                    backoff
                } else {
                    return finalize(outcome);
                }
            },
        };
        let clamped: u64 = if delay <= time_left {
            delay
        } else {
            time_left
        };
        RetryDecision::Retry { delay_nanos: clamped }
    }
}

/// One transport outcome together with the clock readings at which the
/// retry machine handled it
pub struct RetryEvent {
    pub now_nanos: u64,
    pub now_unix_nanos: u64,
    pub outcome: TransportOutcome,
}

/// The decision taken for one recorded event
pub open spec fn event_decision(attempts_after: int, stop: int, e: RetryEvent) -> RetryDecision {
    spec_decision(attempts_after, stop, e.now_nanos as int, e.now_unix_nanos as int, e.outcome)
}

/// How many transport attempts a run of the retry machine makes: starting
/// with `attempts` already counted, the recorded events are handled in order
/// until one produces a terminal decision or the record runs out
pub open spec fn spec_attempts_used(attempts: int, stop: int, events: Seq<RetryEvent>) -> int
    decreases events.len(),
{
    if events.len() == 0 {
        0
    } else if event_decision(attempts + 1, stop, events[0]) matches RetryDecision::Retry { .. } {
        1 + spec_attempts_used(attempts + 1, stop, events.drop_first())
    } else {
        1
    }
}

/// The terminal decision a run of the retry machine reaches, when the
/// recorded events suffice to reach one
pub open spec fn spec_run_outcome(attempts: int, stop: int, events: Seq<RetryEvent>) -> Option<
    RetryDecision,
>
    decreases events.len(),
{
    if events.len() == 0 {
        None
    } else if event_decision(attempts + 1, stop, events[0]) matches RetryDecision::Retry { .. } {
        spec_run_outcome(attempts + 1, stop, events.drop_first())
    } else {
        Some(event_decision(attempts + 1, stop, events[0]))
    }
}

/// However the transport behaves, a retry machine that has counted
/// `attempts` of its budget makes at most `RETRIES + 1 - attempts` further
/// transport attempts; a fresh machine therefore makes at most 11 in total.
pub proof fn lemma_attempt_budget(attempts: int, stop: int, events: Seq<RetryEvent>)
    requires
        0 <= attempts <= RETRIES,
    ensures
        spec_attempts_used(attempts, stop, events) <= RETRIES + 1 - attempts,
    decreases events.len(),
{
    if events.len() > 0 {
        if event_decision(attempts + 1, stop, events[0]) matches RetryDecision::Retry { .. } {
            assert(attempts + 1 <= RETRIES);
            lemma_attempt_budget(attempts + 1, stop, events.drop_first());
        }
    }
}

/// Once more events are recorded than the attempt budget leaves room for,
/// the run is sure to have reached a terminal decision.
pub proof fn lemma_run_terminates(attempts: int, stop: int, events: Seq<RetryEvent>)
    requires
        0 <= attempts <= RETRIES,
        events.len() > RETRIES - attempts,
    ensures
        spec_run_outcome(attempts, stop, events) is Some,
    decreases events.len(),
{
    if event_decision(attempts + 1, stop, events[0]) matches RetryDecision::Retry { .. } {
        assert(attempts + 1 <= RETRIES);
        lemma_run_terminates(attempts + 1, stop, events.drop_first());
    }
}

pub open spec fn outcome_is_server_error(o: TransportOutcome) -> bool {
    o matches TransportOutcome::Reply(r) && status_is_server_error(r.status)
}

/// A run fed nothing but 5xx responses never succeeds: when it reaches a
/// terminal decision, that decision reports a status error reflecting the
/// final response.
pub proof fn lemma_server_errors_end_in_status_failure(
    attempts: int,
    stop: int,
    events: Seq<RetryEvent>,
)
    requires
        forall|i: int|
            0 <= i < events.len() ==> outcome_is_server_error(#[trigger] events[i].outcome),
        spec_run_outcome(attempts, stop, events) is Some,
    ensures
        spec_run_outcome(attempts, stop, events) == Some(RetryDecision::FailStatus),
    decreases events.len(),
{
    if events.len() > 0 {
        if event_decision(attempts + 1, stop, events[0]) matches RetryDecision::Retry { .. } {
            assert(forall|i: int|
                0 <= i < events.drop_first().len() ==> outcome_is_server_error(
                    #[trigger] events.drop_first()[i].outcome,
                ));
            lemma_server_errors_end_in_status_failure(attempts + 1, stop, events.drop_first());
        } else {
            assert(outcome_is_server_error(events[0].outcome));
        }
    }
}

/// The terminal decision for an outcome, as `spec_finalize` states it
fn finalize(o: &TransportOutcome) -> (d: RetryDecision)
    ensures
        d == spec_finalize(*o),
{
    match o {
        TransportOutcome::Reply(r) => {
            if (r.status >= 400 && r.status < 500) || (r.status >= 500 && r.status < 600) {
                RetryDecision::FailStatus
            } else {
                RetryDecision::Success
            }
        },
        TransportOutcome::Failure => RetryDecision::FailSend,
    }
}

} // verus!
