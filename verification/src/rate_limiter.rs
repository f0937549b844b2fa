//! A fixed-window request budget per subject.
//!
//! The counting happens in Valkey (one `INCR` per request, with the window
//! as the key's expiry); what to do with the count is decided here.
use vstd::prelude::*;

use crate::clock::{nanos_per_sec, Duration};
use crate::config::RateLimitConfig;
use crate::error::AppError;

verus! {

#[derive(Clone, Copy, Debug)]
pub struct RateLimitPolicy {
    pub name: &'static str,
    pub max_requests: u32,
    pub window: Duration,
}

#[derive(Clone, Copy, Debug, PartialEq, Eq, Structural)]
pub enum RateLimitDecision {
    Allowed,
    Exceeded { retry_after_secs: u64 },
}

/// The budgets in force.
#[derive(Clone, Copy, Debug)]
pub struct RateLimits {
    pub auth: RateLimitPolicy,
}

impl RateLimits {
    pub fn from_config(config: &RateLimitConfig) -> (limits: RateLimits)
        ensures
            limits.auth.name == "auth",
            limits.auth.max_requests == config.auth_max_requests,
            limits.auth.window == config.auth_window,
    {
        RateLimits {
            auth: RateLimitPolicy {
                name: "auth",
                max_requests: config.auth_max_requests,
                window: config.auth_window,
            },
        }
    }
}

/// The answer to the `used`-th request of a window whose key has
/// `ttl_secs` seconds left: allowed while the budget lasts, and past it a
/// refusal that says when to retry. A negative TTL (Valkey's "no expiry" or
/// "no key") falls back to the configured window, and the wait is never
/// zero, since `Retry-After: 0` invites an immediate second refusal.
pub open spec fn spec_decide(max_requests: u32, window_secs: int, used: u64, ttl_secs: i64)
    -> RateLimitDecision
{
    if used <= max_requests {
        RateLimitDecision::Allowed
    } else {
        let wait: int = if ttl_secs >= 0 { ttl_secs as int } else { window_secs };
        RateLimitDecision::Exceeded { retry_after_secs: (if wait >= 1 { wait } else { 1 }) as u64 }
    }
}

/// `ratelimit:{policy}:{subject}`: one counter per policy and subject.
pub open spec fn spec_counter_key(policy: Seq<char>, subject: Seq<char>) -> Seq<char> {
    "ratelimit:"@ + policy + ":"@ + subject
}

impl RateLimitPolicy {
    /// The Valkey key that counts `subject`'s requests under this policy.
    pub fn counter_key(&self, subject: &str) -> (key: String)
        ensures
            key@ == spec_counter_key(self.name@, subject@),
    {
        let mut key = String::from_str("ratelimit:");
        key.append(self.name);
        key.append(":");
        key.append(subject);
        key
    }

    /// Whole seconds of the window.
    pub open spec fn window_secs(&self) -> int {
        self.window@ / nanos_per_sec()
    }

    pub fn decide(&self, used: u64, ttl_secs: i64) -> (d: RateLimitDecision)
        ensures
            d == spec_decide(self.max_requests, self.window_secs(), used, ttl_secs),
    {
        if used <= self.max_requests as u64 {
            return RateLimitDecision::Allowed;
        }
        let wait: u64 = if ttl_secs >= 0 {
            ttl_secs as u64
        } else {
            self.window.as_secs()
        };
        let retry_after_secs: u64 = if wait >= 1 {
            wait
        } else {
            1
        };
        RateLimitDecision::Exceeded { retry_after_secs }
    }
}

/// What a request is answered with once Valkey has been asked: `counted` is
/// the hit count and TTL it reported, or `None` when it could not be
/// reached. A limiter outage must not take the login flow down with it, so
/// an unavailable counter allows the request.
pub fn check(policy: &RateLimitPolicy, counted: Option<(u64, i64)>) -> (d: RateLimitDecision)
    ensures
        d == match counted {
            Some((used, ttl_secs)) => spec_decide(
                policy.max_requests,
                policy.window_secs(),
                used,
                ttl_secs,
            ),
            None => RateLimitDecision::Allowed,
        },
{
    match counted {
        Some((used, ttl_secs)) => policy.decide(used, ttl_secs),
        None => RateLimitDecision::Allowed,
    }
}

/// A refusal is answered with `429` and the wait it carries.
pub fn enforce(decision: RateLimitDecision) -> (r: Result<(), AppError>)
    ensures
        decision is Allowed <==> r is Ok,
        decision matches RateLimitDecision::Exceeded { retry_after_secs } ==> (r matches Err(
            AppError::RateLimited { retry_after_secs: r_secs },
        ) && r_secs == retry_after_secs),
{
    match decision {
        RateLimitDecision::Allowed => Ok(()),
        RateLimitDecision::Exceeded { retry_after_secs } => Err(
            AppError::RateLimited { retry_after_secs },
        ),
    }
}

/// The budget is a threshold: once one request of a window is refused,
/// every later request of that window is refused too.
pub proof fn lemma_refusal_persists(
    max_requests: u32,
    window_secs: int,
    used: u64,
    later: u64,
    ttl_secs: i64,
    later_ttl_secs: i64,
)
    requires
        used <= later,
        spec_decide(max_requests, window_secs, used, ttl_secs) is Exceeded,
    ensures
        spec_decide(max_requests, window_secs, later, later_ttl_secs) is Exceeded,
{
}

/// Exactly `max_requests` requests of a window are allowed: every one up to
/// the budget, and none after it.
pub proof fn lemma_budget_is_exact(max_requests: u32, window_secs: int, used: u64, ttl_secs: i64)
    ensures
        (spec_decide(max_requests, window_secs, used, ttl_secs) is Allowed) <==> used
            <= max_requests,
{
}

/// A refusal tells the client exactly how long the window has left: the
/// key's remaining TTL when it has one (at least a second), and the whole
/// window (at least a second) when Valkey reports none.
pub proof fn lemma_retry_after_is_the_windows_remaining_ttl(
    max_requests: u32,
    window_secs: int,
    used: u64,
    ttl_secs: i64,
)
    requires
        used > max_requests,
        0 <= window_secs <= u64::MAX,
    ensures
        ttl_secs >= 1 ==> spec_decide(max_requests, window_secs, used, ttl_secs)
            == (RateLimitDecision::Exceeded { retry_after_secs: ttl_secs as u64 }),
        ttl_secs == 0 ==> spec_decide(max_requests, window_secs, used, ttl_secs)
            == (RateLimitDecision::Exceeded { retry_after_secs: 1 }),
        ttl_secs < 0 && window_secs >= 1 ==> spec_decide(max_requests, window_secs, used, ttl_secs)
            == (RateLimitDecision::Exceeded { retry_after_secs: window_secs as u64 }),
        ttl_secs < 0 && window_secs == 0 ==> spec_decide(max_requests, window_secs, used, ttl_secs)
            == (RateLimitDecision::Exceeded { retry_after_secs: 1 }),
{
}

/// A refusal never tells the client to retry immediately.
pub proof fn lemma_retry_after_is_positive(
    max_requests: u32,
    window_secs: int,
    used: u64,
    ttl_secs: i64,
)
    requires
        0 <= window_secs <= u64::MAX,
    ensures
        spec_decide(max_requests, window_secs, used, ttl_secs) matches
            RateLimitDecision::Exceeded { retry_after_secs } ==> retry_after_secs >= 1,
{
}

} // verus!
