//! Counts requests so that a request rate can be derived.
//!
//! Time is measured in nanoseconds on a monotonic clock chosen by the caller.
use crate::resilience::circuit_breaker::{elapsed_since, next_count};
use vstd::prelude::*;

verus! {

/// What the monitor hands out when its count is read: the requests counted
/// since the previous reading and the nanoseconds elapsed since then.
pub struct RequestSample {
    pub count: u64,
    pub elapsed_nanos: u128,
}

/// The abstract state of a [`LoadMonitor`].
pub struct MonitorState {
    pub request_count: u64,
    pub last_reset: u128,
}

/// Counts requests between two readings.
pub struct LoadMonitor {
    request_count: u64,
    last_reset: u128,
}

impl View for LoadMonitor {
    type V = MonitorState;

    closed spec fn view(&self) -> MonitorState {
        MonitorState { request_count: self.request_count, last_reset: self.last_reset }
    }
}

impl LoadMonitor {
    /// A monitor with nothing counted, whose period starts at `now`.
    pub fn new(now: u128) -> (r: LoadMonitor)
        ensures
            r@.request_count == 0,
            r@.last_reset == now,
    {
        LoadMonitor { request_count: 0, last_reset: now }
    }

    /// Counts one request (the counter wraps like an atomic counter).
    pub fn record_request(&mut self)
        ensures
            final(self)@.request_count == next_count(old(self)@.request_count),
            final(self)@.last_reset == old(self)@.last_reset,
    {
        self.request_count = self.request_count.wrapping_add(1);
    }

    /// Reads and clears the count at time `now`, starting a new period.
    pub fn take_sample(&mut self, now: u128) -> (r: RequestSample)
        ensures
            r.count == old(self)@.request_count,
            r.elapsed_nanos == elapsed_since(now, old(self)@.last_reset),
            final(self)@.request_count == 0,
            final(self)@.last_reset == now,
    {
        let count = self.request_count;
        self.request_count = 0;
        let elapsed: u128 = if now >= self.last_reset {
            now - self.last_reset
        } else {
            0
        };
        self.last_reset = now;
        RequestSample { count, elapsed_nanos: elapsed }
    }
}

/// The count after `k` requests from zero.
pub open spec fn counted(k: nat) -> u64
    decreases k,
{
    if k == 0 {
        0
    } else {
        next_count(counted((k - 1) as nat))
    }
}

/// From a cleared count, `k` recorded requests (no more than the counter
/// holds) are counted as exactly `k`; a sample then reads `k`.
pub proof fn law_requests_counted(k: nat)
    requires
        k <= u64::MAX,
    ensures
        counted(k) == k,
    decreases k,
{
    if k > 0 {
        law_requests_counted((k - 1) as nat);
    }
}

} // verus!
