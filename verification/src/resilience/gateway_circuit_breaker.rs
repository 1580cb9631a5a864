//! The gateway's circuit breaker, with a half-open phase: after its timeout an
//! open breaker lets requests through again, and closes once enough of them
//! have succeeded.
//!
//! Time is measured in nanoseconds on a monotonic clock chosen by the caller.
use crate::resilience::circuit_breaker::{elapsed_since, next_count};
use vstd::prelude::*;

verus! {

/// Successes needed while half-open before the breaker closes.
pub const HALF_OPEN_MAX_REQUESTS: u64 = 5;

/// Failure threshold of the default gateway breaker.
pub const DEFAULT_GATEWAY_THRESHOLD: u64 = 200;

/// Timeout of the default gateway breaker, in seconds.
pub const DEFAULT_GATEWAY_TIMEOUT_SECS: u64 = 30;

/// Nanoseconds in a second.
pub const NANOS_PER_SEC: u128 = 1_000_000_000;

/// The abstract state of a [`GatewayCircuitBreaker`].
pub struct GatewayState {
    pub failure_count: u64,
    pub success_count: u64,
    pub is_open: bool,
    pub last_failure_time: u128,
    pub threshold: u64,
    pub timeout: u128,
    pub half_open_max_requests: u64,
}

/// The state of a closed breaker with both counters cleared.
pub open spec fn closed(s: GatewayState) -> GatewayState {
    GatewayState { is_open: false, failure_count: 0, success_count: 0, ..s }
}

/// Whether a request may pass at `now`: always when closed; when open, only
/// once the timeout has been exceeded (the half-open phase).
pub open spec fn allows(s: GatewayState, now: u128) -> bool {
    !s.is_open || elapsed_since(now, s.last_failure_time) > s.timeout
}

/// The state after asking at `now` whether a request may pass: a half-open
/// breaker that has already seen enough successes closes.
pub open spec fn after_allow_check(s: GatewayState, now: u128) -> GatewayState {
    if s.is_open && elapsed_since(now, s.last_failure_time) > s.timeout && s.success_count
        >= s.half_open_max_requests {
        closed(s)
    } else {
        s
    }
}

/// The state after a success is recorded: the success is counted, an open
/// breaker with enough successes closes, and the failure count is cleared.
pub open spec fn after_success(s: GatewayState) -> GatewayState {
    let success = next_count(s.success_count);
    if s.is_open && success >= s.half_open_max_requests {
        closed(s)
    } else {
        GatewayState { success_count: success, failure_count: 0, ..s }
    }
}

/// The state after a failure is recorded at `now`: the failure is counted, and
/// a closed breaker that reaches the threshold opens, clears its successes and
/// stamps the time.
pub open spec fn after_failure(s: GatewayState, now: u128) -> GatewayState {
    let count = next_count(s.failure_count);
    if count >= s.threshold && !s.is_open {
        GatewayState {
            failure_count: count,
            is_open: true,
            success_count: 0,
            last_failure_time: now,
            ..s
        }
    } else {
        GatewayState { failure_count: count, ..s }
    }
}

/// The state after `n` failures recorded in a row at `now`.
pub open spec fn after_failures(s: GatewayState, n: nat, now: u128) -> GatewayState
    decreases n,
{
    if n == 0 {
        s
    } else {
        after_failure(after_failures(s, (n - 1) as nat, now), now)
    }
}

/// The state after `n` successes recorded in a row.
pub open spec fn after_successes(s: GatewayState, n: nat) -> GatewayState
    decreases n,
{
    if n == 0 {
        s
    } else {
        after_success(after_successes(s, (n - 1) as nat))
    }
}

/// A circuit breaker for the gateway: it opens after `threshold` failures, and
/// after its timeout lets requests through until enough have succeeded.
pub struct GatewayCircuitBreaker {
    failure_count: u64,
    success_count: u64,
    is_open: bool,
    last_failure_time: u128,
    threshold: u64,
    timeout: u128,
    half_open_max_requests: u64,
}

impl View for GatewayCircuitBreaker {
    type V = GatewayState;

    closed spec fn view(&self) -> GatewayState {
        GatewayState {
            failure_count: self.failure_count,
            success_count: self.success_count,
            is_open: self.is_open,
            last_failure_time: self.last_failure_time,
            threshold: self.threshold,
            timeout: self.timeout,
            half_open_max_requests: self.half_open_max_requests,
        }
    }
}

impl GatewayCircuitBreaker {
    /// A closed breaker that opens after `threshold` failures and stays open
    /// for `timeout_secs` seconds.
    pub fn new(threshold: u64, timeout_secs: u64) -> (r: GatewayCircuitBreaker)
        ensures
            r@.failure_count == 0,
            r@.success_count == 0,
            !r@.is_open,
            r@.threshold == threshold,
            r@.timeout == timeout_secs * NANOS_PER_SEC,
            r@.half_open_max_requests == HALF_OPEN_MAX_REQUESTS,
    {
        let secs: u128 = timeout_secs as u128;
        GatewayCircuitBreaker {
            failure_count: 0,
            success_count: 0,
            is_open: false,
            last_failure_time: 0,
            threshold,
            timeout: secs * NANOS_PER_SEC,
            half_open_max_requests: HALF_OPEN_MAX_REQUESTS,
        }
    }

    /// Whether the breaker is open.
    pub fn is_open(&self) -> (r: bool)
        ensures
            r == self@.is_open,
    {
        self.is_open
    }

    /// The number of failures counted.
    pub fn get_failure_count(&self) -> (r: u64)
        ensures
            r == self@.failure_count,
    {
        self.failure_count
    }

    /// The number of successes counted.
    pub fn get_success_count(&self) -> (r: u64)
        ensures
            r == self@.success_count,
    {
        self.success_count
    }

    /// Decides, at time `now`, whether a request may pass.
    pub fn should_allow_request(&mut self, now: u128) -> (r: bool)
        ensures
            r == allows(old(self)@, now),
            final(self)@ == after_allow_check(old(self)@, now),
            old(self)@.success_count < old(self)@.half_open_max_requests
                ==> final(self)@ == old(self)@,
    {
        if !self.is_open {
            return true;
        }
        let elapsed: u128 = if now >= self.last_failure_time {
            now - self.last_failure_time
        } else {
            0
        };
        if elapsed > self.timeout {
            let success = self.success_count;
            if success < self.half_open_max_requests {
                return true;
            }
            self.close_circuit();
            true
        } else {
            false
        }
    }

    /// Records a request that succeeded.
    pub fn record_success(&mut self)
        ensures
            final(self)@ == after_success(old(self)@),
    {
        let success = self.success_count.wrapping_add(1);
        self.success_count = success;
        if self.is_open && success >= self.half_open_max_requests {
            self.close_circuit();
        }
        self.failure_count = 0;
    }

    /// Records a request that failed at time `now`.
    pub fn record_failure(&mut self, now: u128)
        ensures
            final(self)@ == after_failure(old(self)@, now),
    {
        let count = self.failure_count.wrapping_add(1);
        self.failure_count = count;
        if count >= self.threshold && !self.is_open {
            self.open_circuit(now);
        }
    }

    fn open_circuit(&mut self, now: u128)
        ensures
            final(self)@ == (GatewayState {
                is_open: true,
                success_count: 0,
                last_failure_time: now,
                ..old(self)@
            }),
    {
        self.is_open = true;
        self.success_count = 0;
        self.last_failure_time = now;
    }

    fn close_circuit(&mut self)
        ensures
            final(self)@ == closed(old(self)@),
    {
        self.is_open = false;
        self.failure_count = 0;
        self.success_count = 0;
    }

    /// Closes the breaker and clears both counters.
    pub fn reset(&mut self)
        ensures
            final(self)@ == closed(old(self)@),
    {
        self.close_circuit();
    }
}

impl Default for GatewayCircuitBreaker {
    /// A breaker with threshold 200 and a timeout of 30 seconds.
    fn default() -> (r: GatewayCircuitBreaker)
        ensures
            r@.failure_count == 0,
            r@.success_count == 0,
            !r@.is_open,
            r@.threshold == DEFAULT_GATEWAY_THRESHOLD,
            r@.timeout == DEFAULT_GATEWAY_TIMEOUT_SECS * NANOS_PER_SEC,
            r@.half_open_max_requests == HALF_OPEN_MAX_REQUESTS,
    {
        GatewayCircuitBreaker::new(DEFAULT_GATEWAY_THRESHOLD, DEFAULT_GATEWAY_TIMEOUT_SECS)
    }
}

/// From a closed breaker with no failures, fewer failures than the threshold
/// leave it closed, with each failure counted.
pub proof fn law_failures_below_threshold(s: GatewayState, n: nat, now: u128)
    requires
        !s.is_open,
        s.failure_count == 0,
        n < s.threshold,
    ensures
        !after_failures(s, n, now).is_open,
        after_failures(s, n, now).failure_count == n,
        after_failures(s, n, now).success_count == s.success_count,
        after_failures(s, n, now).threshold == s.threshold,
    decreases n,
{
    if n > 0 {
        law_failures_below_threshold(s, (n - 1) as nat, now);
    }
}

/// From a closed breaker with no failures, `threshold` failures in a row
/// (at least one) open it, with its successes cleared and the time stamped.
pub proof fn law_threshold_failures_open(s: GatewayState, now: u128)
    requires
        !s.is_open,
        s.failure_count == 0,
        s.threshold >= 1,
    ensures
        after_failures(s, s.threshold as nat, now).is_open,
        after_failures(s, s.threshold as nat, now).success_count == 0,
        after_failures(s, s.threshold as nat, now).last_failure_time == now,
{
    law_failures_below_threshold(s, (s.threshold - 1) as nat, now);
}

/// A success always leaves the failure count at zero.
pub proof fn law_success_clears_failures(s: GatewayState)
    ensures
        after_success(s).failure_count == 0,
{
}

/// An open breaker with `k` successes counted closes after
/// `half_open_max_requests - k` further successes, and not before.
pub proof fn law_half_open_closes_after_successes(s: GatewayState, n: nat)
    requires
        s.is_open,
        s.success_count < s.half_open_max_requests,
        n <= s.half_open_max_requests - s.success_count,
    ensures
        n < s.half_open_max_requests - s.success_count ==> after_successes(s, n).is_open
            && after_successes(s, n).success_count == s.success_count + n,
        n == s.half_open_max_requests - s.success_count ==> after_successes(s, n) == closed(
            s,
        ),
        n < s.half_open_max_requests - s.success_count ==> after_successes(s, n) == (
        GatewayState { success_count: (s.success_count + n) as u64, failure_count: if n == 0 {
            s.failure_count
        } else {
            0
        }, ..s }),
    decreases n,
{
    if n > 0 {
        law_half_open_closes_after_successes(s, (n - 1) as nat);
    }
}

/// An open breaker refuses requests until its timeout has been exceeded, and
/// asking changes nothing.
pub proof fn law_open_refuses_within_timeout(s: GatewayState, now: u128)
    requires
        s.is_open,
        elapsed_since(now, s.last_failure_time) <= s.timeout,
    ensures
        !allows(s, now),
        after_allow_check(s, now) == s,
{
}

/// After its timeout an open breaker lets requests through (half-open).
pub proof fn law_half_open_allows(s: GatewayState, now: u128)
    requires
        s.is_open,
        elapsed_since(now, s.last_failure_time) > s.timeout,
    ensures
        allows(s, now),
{
}

/// A closed breaker lets every request through and asking changes nothing.
pub proof fn law_closed_allows(s: GatewayState, now: u128)
    requires
        !s.is_open,
    ensures
        allows(s, now),
        after_allow_check(s, now) == s,
{
}

/// Failures recorded while open are counted but never change the open state.
pub proof fn law_failure_keeps_open(s: GatewayState, now: u128)
    requires
        s.is_open,
    ensures
        after_failure(s, now).is_open,
        after_failure(s, now).last_failure_time == s.last_failure_time,
        after_failure(s, now).success_count == s.success_count,
{
}

/// One request in the half-open phase: asked about at `now`, then
/// recorded as a success.
pub open spec fn half_open_round(s: GatewayState, now: u128) -> GatewayState {
    after_success(after_allow_check(s, now))
}

/// `n` half-open requests in a row, each asked about at `now` and then
/// recorded as a success.
pub open spec fn half_open_rounds(s: GatewayState, now: u128, n: nat) -> GatewayState
    decreases n,
{
    if n == 0 {
        s
    } else {
        half_open_rounds(half_open_round(s, now), now, (n - 1) as nat)
    }
}

/// In the half-open phase, before enough successes are counted, asking
/// whether a request may pass lets it pass and changes nothing: the
/// successes counted so far are kept.
pub proof fn law_half_open_check_keeps_state(s: GatewayState, now: u128)
    requires
        s.is_open,
        elapsed_since(now, s.last_failure_time) > s.timeout,
        s.success_count < s.half_open_max_requests,
    ensures
        allows(s, now),
        after_allow_check(s, now) == s,
{
}

/// An open breaker past its timeout with `k` successes counted closes after
/// exactly `half_open_max_requests - k` requests that are each let through
/// and succeed, with both counters cleared.
pub proof fn law_half_open_rounds_close(s: GatewayState, now: u128, n: nat)
    requires
        s.is_open,
        elapsed_since(now, s.last_failure_time) > s.timeout,
        s.success_count < s.half_open_max_requests,
        n == s.half_open_max_requests - s.success_count,
    ensures
        half_open_rounds(s, now, n) == closed(s),
        forall|m: nat| m < n ==> (#[trigger] half_open_rounds(s, now, m)).is_open,
    decreases n,
{
    law_half_open_check_keeps_state(s, now);
    let t = half_open_round(s, now);
    assert(t == after_success(s));
    if s.success_count + 1 >= s.half_open_max_requests {
        assert(t == closed(s));
        assert(n == 1);
        assert(half_open_rounds(t, now, 0) == t);
        assert forall|m: nat| m < n implies (#[trigger] half_open_rounds(s, now, m)).is_open by {
            assert(m == 0);
        }
    } else {
        assert(t == GatewayState { success_count: (s.success_count + 1) as u64, failure_count: 0, ..s });
        law_half_open_rounds_close(t, now, (n - 1) as nat);
        assert(closed(t) == closed(s));
        assert forall|m: nat| m < n implies (#[trigger] half_open_rounds(s, now, m)).is_open by {
            if m > 0 {
                assert(half_open_rounds(s, now, m) == half_open_rounds(t, now, (m - 1) as nat));
                assert(half_open_rounds(t, now, (m - 1) as nat).is_open);
            }
        }
    }
}

} // verus!
