pub mod circuit_breaker;
pub mod gateway_circuit_breaker;
pub mod gateway_request_limiter;
pub mod load_monitor;
