//! Configuration of health checks: the timeout the application shell's
//! probes honor. The probes themselves (TCP connects, HTTP requests,
//! certificate reads) are the shell's business.

use vstd::prelude::*;

verus! {

/// The default health-check timeout, in milliseconds.
pub const DEFAULT_TIMEOUT_MS: u64 = 5000;

/// Service configuration for health checks over ports.
#[derive(Debug, Clone, Copy)]
pub struct HealthCheckService {
    pub timeout_ms: u64,
}

impl HealthCheckService {
    /// Creates a new `HealthCheckService` with the default timeout.
    pub fn new() -> (r: HealthCheckService)
        ensures
            r.timeout_ms == DEFAULT_TIMEOUT_MS,
    {
        HealthCheckService { timeout_ms: DEFAULT_TIMEOUT_MS }
    }

    /// Creates a new `HealthCheckService` with a custom timeout.
    pub fn with_timeout_ms(timeout_ms: u64) -> (r: HealthCheckService)
        ensures
            r.timeout_ms == timeout_ms,
    {
        HealthCheckService { timeout_ms }
    }

    /// Sets the timeout for health checks.
    pub fn set_timeout_ms(&mut self, timeout_ms: u64)
        ensures
            final(self).timeout_ms == timeout_ms,
    {
        self.timeout_ms = timeout_ms;
    }
}

} // verus!
