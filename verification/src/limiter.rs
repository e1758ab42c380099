//! Per-agent admission quota and the shared application state around it.
//!
//! Each agent gets an independent token bucket, refilled continuously at the
//! configured rate; entries are created lazily on first observation. The
//! bucket arithmetic and the clock live in the governor crate and are taken
//! on trust; whether a given check passes depends on the clock, so nothing
//! is promised about single outcomes.

use vstd::prelude::*;

verus! {

/// A keyed rate limiter, one independent token bucket per agent id.
///
/// The store is governor's dashmap-backed keyed limiter; Verus sees it as an
/// opaque value behind the methods below.
#[verifier::external_body]
pub struct AgentLimiter {
    inner: governor::DefaultKeyedRateLimiter<String>,
}

impl AgentLimiter {
    /// Relies on governor's Quota::per_second and RateLimiter::keyed: builds
    /// a keyed limiter allowing `per_second` admissions per second per key.
    #[verifier::external_body]
    pub fn new(per_second: u32) -> (r: AgentLimiter)
        requires
            per_second > 0,
    {
        let quota = governor::Quota::per_second(core::num::NonZeroU32::new(per_second).unwrap());
        AgentLimiter { inner: governor::RateLimiter::keyed(quota) }
    }

    /// Relies on governor's RateLimiter::check_key: non-blocking, charges
    /// the agent's bucket on success and leaves it unchanged on denial. The
    /// outcome depends on the clock, so nothing is promised of it.
    #[verifier::external_body]
    pub fn check(&self, agent_id: &str) -> bool {
        self.inner.check_key(&agent_id.to_string()).is_ok()
    }
}

/// The quota actually enforced for a configured value: a zero (absent or
/// invalid) configuration falls back to the default of 10000 admissions per
/// second per agent.
pub open spec fn effective_quota(configured: u32) -> u32 {
    if configured == 0 {
        10000u32
    } else {
        configured
    }
}

/// Shared state of the gateway: the per-agent rate limiter and the quota it
/// was built with.
pub struct AppState {
    pub rate_limiter: AgentLimiter,
    pub rate_limit_per_agent: u32,
}

impl AppState {
    /// Builds the state, falling back to the default quota when the
    /// configured value is zero.
    pub fn new(rate_limit_per_agent: u32) -> (r: AppState)
        ensures
            r.rate_limit_per_agent == effective_quota(rate_limit_per_agent),
            r.rate_limit_per_agent > 0,
    {
        let rate_limit = if rate_limit_per_agent == 0 {
            10000
        } else {
            rate_limit_per_agent
        };
        AppState { rate_limiter: AgentLimiter::new(rate_limit), rate_limit_per_agent: rate_limit }
    }

    /// Non-blocking rate check for one agent; true admits the event. The
    /// outcome depends on the clock.
    pub fn check_rate_limit(&self, agent_id: &str) -> bool {
        self.rate_limiter.check(agent_id)
    }
}

} // verus!
