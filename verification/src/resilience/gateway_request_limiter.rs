//! Bounds the number of requests the gateway serves at once.
use std::sync::Arc;
use tokio::sync::Semaphore;
use vstd::prelude::*;

verus! {

/// The largest number of permits a semaphore can hold.
pub const MAX_PERMITS: usize = usize::MAX >> 3;

/// Concurrency limit of the default limiter.
pub const DEFAULT_MAX_CONCURRENT: usize = 2000;

#[verifier::external_type_specification]
#[verifier::external_body]
pub struct ExSemaphore(Semaphore);

/// The number of permits a semaphore was made with.
pub uninterp spec fn permits_made_with(s: Semaphore) -> nat;

/// `tokio::sync::Semaphore::new`: a semaphore made with `permits` permits. It
/// panics above `Semaphore::MAX_PERMITS`, which `requires` excludes.
#[verifier::external_body]
fn new_semaphore(permits: usize) -> (r: Semaphore)
    requires
        permits <= MAX_PERMITS,
    ensures
        permits_made_with(r) == permits,
{
    Semaphore::new(permits)
}

/// `tokio::sync::Semaphore::available_permits`: the permits free at this
/// moment, which other tasks change at any time. The count is kept in a
/// `usize` shifted left by one bit and read back shifted right, so it is at
/// most `usize::MAX >> 1`. It is not stated to be at most `MAX_PERMITS`:
/// `add_permits` adds before it checks that limit, so a call that panics on
/// the limit leaves a larger count behind.
#[verifier::external_body]
fn semaphore_available_permits(s: &Semaphore) -> (r: usize)
    ensures
        r <= usize::MAX >> 1,
{
    s.available_permits()
}

/// A semaphore shared by the request handlers, and its size.
pub struct GatewayRequestLimiter {
    pub semaphore: Arc<Semaphore>,
    pub max_concurrent: usize,
}

impl GatewayRequestLimiter {
    /// A limiter that lets `max_concurrent` requests run at once.
    pub fn new(max_concurrent: usize) -> (r: GatewayRequestLimiter)
        requires
            max_concurrent <= MAX_PERMITS,
        ensures
            r.max_concurrent == max_concurrent,
            permits_made_with(*r.semaphore) == max_concurrent,
    {
        let semaphore = Arc::new(new_semaphore(max_concurrent));
        GatewayRequestLimiter { semaphore, max_concurrent }
    }

    /// The permits free at this moment; other tasks change that number at
    /// any time.
    pub fn available_permits(&self) -> (r: usize)
        ensures
            r <= usize::MAX >> 1,
    {
        semaphore_available_permits(&self.semaphore)
    }

    /// The limit the limiter was made with.
    pub fn max_concurrent(&self) -> (r: usize)
        ensures
            r == self.max_concurrent,
    {
        self.max_concurrent
    }
}

impl Default for GatewayRequestLimiter {
    /// A limiter for 2000 concurrent requests.
    fn default() -> (r: GatewayRequestLimiter)
        ensures
            r.max_concurrent == DEFAULT_MAX_CONCURRENT,
            permits_made_with(*r.semaphore) == DEFAULT_MAX_CONCURRENT,
    {
        proof {
            let m: usize = usize::MAX;
            assert(m >= 0xffff_ffffusize);
            assert((m >> 3usize) >= 2000usize) by (bit_vector)
                requires
                    m >= 0xffff_ffffusize,
            ;
        }
        GatewayRequestLimiter::new(DEFAULT_MAX_CONCURRENT)
    }
}

} // verus!
