use payment_core::errors::CircuitBreakerError;
use payment_core::resilience::circuit_breaker::CircuitBreaker;
use payment_core::resilience::gateway_circuit_breaker::GatewayCircuitBreaker;
use payment_core::resilience::gateway_request_limiter::GatewayRequestLimiter;
use payment_core::resilience::load_monitor::LoadMonitor;

const SEC: u128 = 1_000_000_000;

fn fail(cb: &mut CircuitBreaker, now: u128) {
    let r: Result<(), CircuitBreakerError<&str>> = cb.finish(Err("boom"), now);
    assert!(matches!(r, Err(CircuitBreakerError::Inner("boom"))));
}

#[test]
fn breaker_stays_closed_below_threshold() {
    let mut cb = CircuitBreaker::new();
    for _ in 0..99 {
        fail(&mut cb, 5 * SEC);
    }
    assert!(!cb.is_open());
    assert!(cb.before_call::<()>(5 * SEC).is_ok());
}

#[test]
fn breaker_opens_at_threshold_and_refuses_until_timeout() {
    let mut cb = CircuitBreaker::default();
    for _ in 0..100 {
        fail(&mut cb, 10 * SEC);
    }
    assert!(cb.is_open());
    assert!(matches!(cb.before_call::<()>(10 * SEC), Err(CircuitBreakerError::Open)));
    assert!(matches!(cb.before_call::<()>(69 * SEC), Err(CircuitBreakerError::Open)));
    assert!(cb.is_open());
    assert!(cb.before_call::<()>(70 * SEC).is_ok());
    assert!(!cb.is_open());
    // the failures were forgotten: one more failure does not reopen it
    fail(&mut cb, 71 * SEC);
    assert!(!cb.is_open());
}

#[test]
fn breaker_success_clears_failure_count() {
    let mut cb = CircuitBreaker::new();
    for _ in 0..99 {
        fail(&mut cb, 0);
    }
    let ok: Result<u32, CircuitBreakerError<&str>> = cb.finish(Ok::<u32, &str>(7), 0);
    assert!(matches!(ok, Ok(7)));
    for _ in 0..99 {
        fail(&mut cb, 0);
    }
    assert!(!cb.is_open());
    fail(&mut cb, 0);
    assert!(cb.is_open());
}

#[test]
fn breaker_reset_closes() {
    let mut cb = CircuitBreaker::new();
    for _ in 0..100 {
        fail(&mut cb, SEC);
    }
    assert!(cb.is_open());
    cb.reset();
    assert!(!cb.is_open());
    assert!(cb.before_call::<()>(SEC).is_ok());
}

#[test]
fn gateway_breaker_half_open_cycle() {
    let mut gb = GatewayCircuitBreaker::new(3, 1);
    assert!(gb.should_allow_request(0));
    gb.record_failure(SEC);
    gb.record_failure(SEC);
    assert!(!gb.is_open());
    assert_eq!(gb.get_failure_count(), 2);
    gb.record_failure(SEC);
    assert!(gb.is_open());
    assert_eq!(gb.get_success_count(), 0);
    // within the timeout (exactly one second is not beyond it)
    assert!(!gb.should_allow_request(SEC + SEC / 2));
    assert!(!gb.should_allow_request(2 * SEC));
    // beyond the timeout: half-open
    assert!(gb.should_allow_request(2 * SEC + 1));
    assert!(gb.is_open());
    for i in 1..5u64 {
        gb.record_success();
        assert!(gb.is_open());
        assert_eq!(gb.get_success_count(), i);
        assert_eq!(gb.get_failure_count(), 0);
    }
    gb.record_success();
    assert!(!gb.is_open());
    assert_eq!(gb.get_success_count(), 0);
    assert_eq!(gb.get_failure_count(), 0);
}

#[test]
fn gateway_breaker_failure_while_open_keeps_timestamp() {
    let mut gb = GatewayCircuitBreaker::new(1, 10);
    gb.record_failure(0);
    assert!(gb.is_open());
    gb.record_failure(9 * SEC);
    assert_eq!(gb.get_failure_count(), 2);
    // the opening time stays at 0, so 10s + 1ns later requests pass again
    assert!(gb.should_allow_request(10 * SEC + 1));
}

#[test]
fn gateway_breaker_default_threshold_is_200() {
    let mut gb = GatewayCircuitBreaker::default();
    for _ in 0..199 {
        gb.record_failure(0);
    }
    assert!(!gb.is_open());
    gb.record_failure(0);
    assert!(gb.is_open());
    assert!(!gb.should_allow_request(30 * SEC));
    assert!(gb.should_allow_request(30 * SEC + 1));
    gb.reset();
    assert!(!gb.is_open());
    assert_eq!(gb.get_failure_count(), 0);
}

#[test]
fn gateway_breaker_closes_when_successes_already_counted() {
    let mut gb = GatewayCircuitBreaker::new(1, 0);
    gb.record_failure(0);
    assert!(gb.is_open());
    for _ in 0..4 {
        gb.record_success();
    }
    assert!(gb.is_open());
    assert_eq!(gb.get_success_count(), 4);
    gb.record_success();
    assert!(!gb.is_open());
}

#[test]
fn limiter_holds_its_permits() {
    let l = GatewayRequestLimiter::new(3);
    assert_eq!(l.max_concurrent(), 3);
    assert_eq!(l.available_permits(), 3);
    let d = GatewayRequestLimiter::default();
    assert_eq!(d.max_concurrent(), 2000);
    assert_eq!(d.available_permits(), 2000);
}

#[test]
fn load_monitor_counts_and_starts_new_period() {
    let mut m = LoadMonitor::new(SEC);
    for _ in 0..5 {
        m.record_request();
    }
    let s = m.take_sample(3 * SEC);
    assert_eq!(s.count, 5);
    assert_eq!(s.elapsed_nanos, 2 * SEC);
    let s2 = m.take_sample(4 * SEC);
    assert_eq!(s2.count, 0);
    assert_eq!(s2.elapsed_nanos, SEC);
    // a clock reading earlier than the period start counts as no time
    let s3 = m.take_sample(SEC);
    assert_eq!(s3.elapsed_nanos, 0);
}
