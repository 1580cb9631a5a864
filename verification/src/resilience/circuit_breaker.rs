//! A circuit breaker that stops calling a failing dependency for a while.
//!
//! Time is measured in nanoseconds on a monotonic clock chosen by the caller;
//! every operation that looks at the clock takes the current reading `now`.
use crate::errors::CircuitBreakerError;
use vstd::prelude::*;

verus! {

/// Consecutive failures after which the breaker opens.
pub const FAILURE_THRESHOLD: u64 = 100;

/// How long an open breaker rejects calls, in nanoseconds (sixty seconds).
pub const OPEN_TIMEOUT_NANOS: u128 = 60_000_000_000;

/// The abstract state of a [`CircuitBreaker`].
pub struct BreakerState {
    pub failure_count: u64,
    pub is_open: bool,
    pub last_failure_time: u128,
    pub threshold: u64,
    pub timeout: u128,
}

/// Time elapsed from `then` to `now`; zero when the clock reading is earlier.
pub open spec fn elapsed_since(now: u128, then: u128) -> u128 {
    if now >= then {
        (now - then) as u128
    } else {
        0
    }
}

/// A call is let through when the breaker is closed, or when it has been open
/// for at least the timeout.
pub open spec fn admits(s: BreakerState, now: u128) -> bool {
    !s.is_open || elapsed_since(now, s.last_failure_time) >= s.timeout
}

/// The state after a call was let through at `now`: an expired open breaker
/// closes and forgets its failures.
pub open spec fn after_admission(s: BreakerState, now: u128) -> BreakerState {
    if s.is_open && elapsed_since(now, s.last_failure_time) >= s.timeout {
        BreakerState { is_open: false, failure_count: 0, ..s }
    } else {
        s
    }
}

/// The state after a call that succeeded.
pub open spec fn after_success(s: BreakerState) -> BreakerState {
    BreakerState { failure_count: 0, ..s }
}

/// The failure count after one more failure (the counter wraps like an
/// atomic counter).
pub open spec fn next_count(count: u64) -> u64 {
    if count == u64::MAX {
        0
    } else {
        (count + 1) as u64
    }
}

/// The state after a call that failed at `now`: the failure is counted, and
/// reaching the threshold opens the breaker and stamps the time.
pub open spec fn after_failure(s: BreakerState, now: u128) -> BreakerState {
    let count = next_count(s.failure_count);
    if count >= s.threshold {
        BreakerState { failure_count: count, is_open: true, last_failure_time: now, ..s }
    } else {
        BreakerState { failure_count: count, ..s }
    }
}

/// The state after `n` failures in a row, all at time `now`.
pub open spec fn after_failures(s: BreakerState, n: nat, now: u128) -> BreakerState
    decreases n,
{
    if n == 0 {
        s
    } else {
        after_failure(after_failures(s, (n - 1) as nat, now), now)
    }
}

/// Guards calls to a dependency: after too many failures in a row it rejects
/// calls until a timeout has passed.
pub struct CircuitBreaker {
    failure_count: u64,
    is_open: bool,
    last_failure_time: u128,
    threshold: u64,
    timeout: u128,
}

impl View for CircuitBreaker {
    type V = BreakerState;

    closed spec fn view(&self) -> BreakerState {
        BreakerState {
            failure_count: self.failure_count,
            is_open: self.is_open,
            last_failure_time: self.last_failure_time,
            threshold: self.threshold,
            timeout: self.timeout,
        }
    }
}

impl CircuitBreaker {
    /// A closed breaker with no failures, the default threshold and timeout.
    pub fn new() -> (r: CircuitBreaker)
        ensures
            r@.failure_count == 0,
            !r@.is_open,
            r@.threshold == FAILURE_THRESHOLD,
            r@.timeout == OPEN_TIMEOUT_NANOS,
    {
        CircuitBreaker {
            failure_count: 0,
            is_open: false,
            last_failure_time: 0,
            threshold: FAILURE_THRESHOLD,
            timeout: OPEN_TIMEOUT_NANOS,
        }
    }

    /// Decides, at time `now`, whether a call may go ahead. An open breaker
    /// whose timeout has not passed refuses with `Open`; one whose timeout has
    /// passed closes and forgets its failures.
    pub fn before_call<E>(&mut self, now: u128) -> (r: Result<(), CircuitBreakerError<E>>)
        ensures
            r is Ok <==> admits(old(self)@, now),
            r is Err ==> r == Err::<(), CircuitBreakerError<E>>(CircuitBreakerError::Open),
            final(self)@ == after_admission(old(self)@, now),
    {
        if self.is_open {
            let elapsed: u128 = if now >= self.last_failure_time {
                now - self.last_failure_time
            } else {
                0
            };
            if elapsed < self.timeout {
                return Err(CircuitBreakerError::Open);
            }
            self.is_open = false;
            self.failure_count = 0;
        }
        Ok(())
    }

    /// Takes the outcome of a call that was let through and finished at `now`:
    /// a success clears the failure count, a failure is counted and may open
    /// the breaker. The value or error is handed back.
    pub fn finish<T, E>(&mut self, outcome: Result<T, E>, now: u128) -> (r: Result<
        T,
        CircuitBreakerError<E>,
    >)
        ensures
            match outcome {
                Ok(v) => r == Ok::<T, CircuitBreakerError<E>>(v) && final(self)@ == after_success(
                    old(self)@,
                ),
                Err(e) => r == Err::<T, CircuitBreakerError<E>>(CircuitBreakerError::Inner(e))
                    && final(self)@ == after_failure(old(self)@, now),
            },
            outcome is Err && next_count(old(self)@.failure_count) >= old(self)@.threshold
                ==> final(self)@.is_open && final(self)@.last_failure_time == now,
    {
        match outcome {
            Ok(v) => {
                self.failure_count = 0;
                Ok(v)
            },
            Err(e) => {
                let count = self.failure_count.wrapping_add(1);
                self.failure_count = count;
                if count >= self.threshold {
                    self.is_open = true;
                    self.last_failure_time = now;
                }
                Err(CircuitBreakerError::Inner(e))
            },
        }
    }

    /// Whether the breaker is open.
    pub fn is_open(&self) -> (r: bool)
        ensures
            r == self@.is_open,
    {
        self.is_open
    }

    /// Closes the breaker and forgets all failures.
    pub fn reset(&mut self)
        ensures
            final(self)@ == (BreakerState { is_open: false, failure_count: 0, ..old(self)@ }),
    {
        self.is_open = false;
        self.failure_count = 0;
    }
}

impl Default for CircuitBreaker {
    /// The same as [`CircuitBreaker::new`].
    fn default() -> (r: CircuitBreaker)
        ensures
            r@.failure_count == 0,
            !r@.is_open,
            r@.threshold == FAILURE_THRESHOLD,
            r@.timeout == OPEN_TIMEOUT_NANOS,
    {
        CircuitBreaker::new()
    }
}

/// A success always clears the failure count, whatever came before.
pub proof fn law_success_clears_failures(s: BreakerState)
    ensures
        after_success(s).failure_count == 0,
        after_success(s).is_open == s.is_open,
{
}

/// From a closed breaker with no failures, `n` failures in a row below the
/// threshold leave it closed with `n` failures counted.
pub proof fn law_failures_below_threshold(s: BreakerState, n: nat, now: u128)
    requires
        !s.is_open,
        s.failure_count == 0,
        n < s.threshold,
    ensures
        !after_failures(s, n, now).is_open,
        after_failures(s, n, now).failure_count == n,
        after_failures(s, n, now).threshold == s.threshold,
    decreases n,
{
    if n > 0 {
        law_failures_below_threshold(s, (n - 1) as nat, now);
    }
}

/// From a closed breaker with no failures, as many failures in a row as the
/// threshold (at least one) open it, stamped with the time of the last one.
pub proof fn law_threshold_failures_open(s: BreakerState, now: u128)
    requires
        !s.is_open,
        s.failure_count == 0,
        s.threshold >= 1,
    ensures
        after_failures(s, s.threshold as nat, now).is_open,
        after_failures(s, s.threshold as nat, now).last_failure_time == now,
        after_failures(s, s.threshold as nat, now).failure_count == s.threshold,
{
    law_failures_below_threshold(s, (s.threshold - 1) as nat, now);
}

/// An open breaker refuses every call before its timeout has passed, and the
/// refusal changes nothing.
pub proof fn law_open_refuses_until_timeout(s: BreakerState, now: u128)
    requires
        s.is_open,
        elapsed_since(now, s.last_failure_time) < s.timeout,
    ensures
        !admits(s, now),
        after_admission(s, now) == s,
{
}

/// Once the timeout has passed, an open breaker lets the next call through,
/// closed and with no failures counted.
pub proof fn law_timeout_closes(s: BreakerState, now: u128)
    requires
        s.is_open,
        elapsed_since(now, s.last_failure_time) >= s.timeout,
    ensures
        admits(s, now),
        !after_admission(s, now).is_open,
        after_admission(s, now).failure_count == 0,
{
}

/// A closed breaker lets every call through and is not changed by that.
pub proof fn law_closed_admits(s: BreakerState, now: u128)
    requires
        !s.is_open,
    ensures
        admits(s, now),
        after_admission(s, now) == s,
{
}

/// A failure that brings the count to the threshold or beyond opens the
/// breaker and stamps it with the failure's time, also when it was open
/// already: the timeout runs from the latest such failure.
pub proof fn law_failure_at_threshold_stamps(s: BreakerState, now: u128)
    requires
        next_count(s.failure_count) >= s.threshold,
    ensures
        after_failure(s, now).is_open,
        after_failure(s, now).last_failure_time == now,
        after_failure(s, now).failure_count == next_count(s.failure_count),
{
}

/// After a failure at time `t` that reaches the threshold, calls are refused
/// until a full timeout has passed since `t`, whenever the breaker opened
/// first.
pub proof fn law_latest_failure_restarts_timeout(s: BreakerState, t: u128, now: u128)
    requires
        next_count(s.failure_count) >= s.threshold,
        t <= now,
        now - t < s.timeout,
    ensures
        !admits(after_failure(s, t), now),
{
}

} // verus!
