use justaskrepo::clock::Duration;
use justaskrepo::config::RateLimitConfig;
use justaskrepo::rate_limiter::{check, RateLimitDecision, RateLimitPolicy, RateLimits};

fn policy() -> RateLimitPolicy {
    RateLimitPolicy {
        name: "test",
        max_requests: 3,
        window: Duration::from_secs(60),
    }
}

#[test]
fn the_whole_budget_is_spendable() {
    assert_eq!(policy().decide(1, 60), RateLimitDecision::Allowed);
    assert_eq!(policy().decide(3, 58), RateLimitDecision::Allowed);
}

/// Off-by-one here is the difference between a budget of 3 and a budget of
/// 4, and nothing else in the system would notice.
#[test]
fn the_request_after_the_budget_is_refused() {
    assert_eq!(
        policy().decide(4, 58),
        RateLimitDecision::Exceeded {
            retry_after_secs: 58
        }
    );
}

/// `Retry-After: 0` parses fine and tells the client to retry immediately,
/// straight into another refusal.
#[test]
fn retry_after_is_never_zero() {
    assert_eq!(
        policy().decide(9, 0),
        RateLimitDecision::Exceeded {
            retry_after_secs: 1
        }
    );
}

/// -1 (no expiry) and -2 (no key) are both unreachable after an `INCR` in
/// the same transaction; if Valkey ever says otherwise, fall back to the
/// configured window rather than emitting a nonsense header.
#[test]
fn a_negative_ttl_falls_back_to_the_window() {
    assert_eq!(
        policy().decide(4, -1),
        RateLimitDecision::Exceeded {
            retry_after_secs: 60
        }
    );
    assert_eq!(
        policy().decide(4, -2),
        RateLimitDecision::Exceeded {
            retry_after_secs: 60
        }
    );
}

#[test]
fn an_unreachable_counter_allows_the_request() {
    assert_eq!(check(&policy(), None), RateLimitDecision::Allowed);
    assert_eq!(
        check(&policy(), Some((5, 30))),
        RateLimitDecision::Exceeded {
            retry_after_secs: 30
        }
    );
    assert_eq!(check(&policy(), Some((2, 30))), RateLimitDecision::Allowed);
}

#[test]
fn once_refused_every_later_request_of_the_window_is_refused() {
    for used in 4..50u64 {
        assert!(matches!(
            policy().decide(used, 10),
            RateLimitDecision::Exceeded { .. }
        ));
    }
}

#[test]
fn the_auth_budget_comes_from_the_configuration() {
    let limits = RateLimits::from_config(&RateLimitConfig {
        auth_max_requests: 20,
        auth_window: Duration::from_secs(60),
    });
    assert_eq!(limits.auth.name, "auth");
    assert_eq!(limits.auth.max_requests, 20);
    assert_eq!(limits.auth.decide(20, 5), RateLimitDecision::Allowed);
    assert_eq!(
        limits.auth.decide(21, 5),
        RateLimitDecision::Exceeded {
            retry_after_secs: 5
        }
    );
}

#[test]
fn each_policy_counts_each_subject_under_its_own_key() {
    let auth = RateLimitPolicy {
        name: "auth",
        max_requests: 20,
        window: Duration::from_secs(60),
    };
    assert_eq!(auth.counter_key("203.0.113.7"), "ratelimit:auth:203.0.113.7");
    assert_eq!(auth.counter_key("2001:db8:0:1::/64"), "ratelimit:auth:2001:db8:0:1::/64");
}
