use chrono::{DateTime, TimeDelta as ChronoDelta, Utc};

use justaskrepo::clock::{Duration, Timestamp};
use justaskrepo::error::AppError;
use justaskrepo::session::{verdict, Session, SessionResponse, SessionVerdict};
use justaskrepo::probe::{self, unique_session, unique_user, Sequence};
use justaskrepo::session_store::{check_session, SessionCheck};
use justaskrepo::types::{GitHubId, SessionId, UserId};

const ABSOLUTE_SECS: u64 = 30 * 24 * 60 * 60;
const THRESHOLD_SECS: u64 = 300;

fn at(instant: DateTime<Utc>) -> Timestamp {
    match Timestamp::from_timestamp(instant.timestamp(), instant.timestamp_subsec_nanos()) {
        Some(t) => t,
        None => panic!("{instant} is representable"),
    }
}

fn session(now: DateTime<Utc>) -> Session {
    match Session::new(
        UserId(1),
        GitHubId(2),
        "203.0.113.7".to_owned(),
        "probe".to_owned(),
        at(now),
        Duration::from_secs(ABSOLUTE_SECS),
    ) {
        Ok(session) => session,
        Err(error) => panic!("a 30-day TTL is representable: {error:?}"),
    }
}

fn after(instant: DateTime<Utc>, seconds: i64) -> DateTime<Utc> {
    instant + ChronoDelta::seconds(seconds)
}

fn cap(session: &Session) -> DateTime<Utc> {
    match DateTime::from_timestamp(
        session.expires_at.timestamp(),
        session.expires_at.timestamp_subsec_nanos(),
    ) {
        Some(t) => t,
        None => panic!("the cap is a valid instant"),
    }
}

#[test]
fn a_new_session_starts_both_clocks_together_and_caps_at_the_ttl() {
    let now = Utc::now();
    let session = session(now);

    assert_eq!(session.created_at, at(now));
    assert_eq!(session.last_seen_at, at(now));
    assert_eq!(session.expires_at, at(now + ChronoDelta::days(30)));
}

/// `>=`, not `>`. The cap is the first instant the session is dead, and an
/// off-by-one here is a credential that outlives its own expiry.
#[test]
fn the_cap_is_the_first_expired_instant() {
    let session = session(Utc::now());
    let expires_at = cap(&session);

    assert!(!session.is_expired(&at(after(expires_at, -1))));
    assert!(session.is_expired(&at(expires_at)));
    assert!(session.is_expired(&at(after(expires_at, 1))));
}

/// Activity slides the idle timeout and nothing slides the absolute cap.
#[test]
fn activity_moves_last_seen_but_never_the_cap() {
    let now = Utc::now();
    let mut session = session(now);
    let cap = session.expires_at;

    session.touch(at(after(now, 3600)));

    assert_eq!(session.last_seen_at, at(after(now, 3600)));
    assert_eq!(session.expires_at, cap);
}

/// Refresh *at* the threshold, never before it.
#[test]
fn a_session_is_refreshed_only_once_the_threshold_has_elapsed() {
    let now = Utc::now();
    let session = session(now);
    let threshold = Duration::from_secs(THRESHOLD_SECS);

    assert!(!session.needs_refresh(&at(now), threshold));
    assert!(!session.needs_refresh(&at(after(now, 299)), threshold));
    assert!(session.needs_refresh(&at(after(now, 300)), threshold));
    assert!(session.needs_refresh(&at(after(now, 3600)), threshold));
}

/// `Duration::MAX` does not fit in a `TimeDelta`: an error, not a panic or
/// a wrapped cap.
#[test]
fn an_unrepresentable_ttl_is_an_error_not_a_panic() {
    let result = Session::new(
        UserId(1),
        GitHubId(2),
        "203.0.113.7".to_owned(),
        "probe".to_owned(),
        at(Utc::now()),
        Duration::max_value(),
    );

    assert!(result.is_err());
}

#[test]
fn a_ttl_past_the_last_representable_instant_is_a_validation_error() {
    // Fits in a TimeDelta (about 292 million years) but lands past the year 262142.
    let result = Session::new(
        UserId(1),
        GitHubId(2),
        String::new(),
        String::new(),
        at(Utc::now()),
        Duration::from_secs(9_000_000_000_000_000),
    );
    match result {
        Err(AppError::Validation(message)) => {
            assert_eq!(message, "session absolute TTL overflows")
        }
        other => panic!("expected a validation error, got {other:?}"),
    }
    match Session::new(
        UserId(1),
        GitHubId(2),
        String::new(),
        String::new(),
        at(Utc::now()),
        Duration::max_value(),
    ) {
        Err(AppError::Internal(_)) => {}
        other => panic!("expected an internal error, got {other:?}"),
    }
}

#[test]
fn the_timestamp_range_is_chrono_s() {
    let min = DateTime::<Utc>::MIN_UTC;
    let max = DateTime::<Utc>::MAX_UTC;
    assert!(Timestamp::from_timestamp(min.timestamp(), 0).is_some());
    assert!(Timestamp::from_timestamp(max.timestamp(), 999_999_999).is_some());
    assert!(Timestamp::from_timestamp(min.timestamp() - 1, 999_999_999).is_none());
    assert!(Timestamp::from_timestamp(max.timestamp() + 1, 0).is_none());
    assert!(Timestamp::from_timestamp(0, 1_000_000_000).is_none());
}

const IDLE_ABSOLUTE_SECS: u64 = 600;

fn probe_session(now: DateTime<Utc>, ttl_secs: u64) -> Session {
    let mut seq = Sequence::new();
    probe::session(unique_user(4242, &mut seq), at(now), Duration::from_secs(ttl_secs))
}

const IDLE_SECS: u64 = 60;

fn check(loaded: Option<Session>, now: DateTime<Utc>) -> (SessionId, SessionCheck) {
    let mut seq = Sequence::new();
    let id = unique_session(4242, &mut seq);
    let result = check_session(
        &id,
        loaded,
        at(now),
        Duration::from_secs(THRESHOLD_SECS),
        Duration::from_secs(IDLE_SECS),
    );
    (id, result)
}

#[test]
fn a_session_that_was_never_stored_is_unauthorized() {
    let (_, result) = check(None, Utc::now());
    assert!(matches!(result.answer, Err(AppError::Unauthorized)));
    assert!(result.delete.is_none());
    assert!(result.touch.is_none());
}

/// Alive in Valkey for another minute but already past its cap: refused,
/// and both the record and its index entry are deleted.
#[test]
fn a_session_past_its_absolute_cap_is_rejected_and_deleted() {
    let now = Utc::now();
    let expired = probe_session(now, 0);
    let user = expired.user_id;
    let (id, result) = check(Some(expired), now);
    assert!(matches!(result.answer, Err(AppError::Unauthorized)));
    assert!(result.touch.is_none());
    match result.delete {
        Some(plan) => {
            assert_eq!(plan.record_key, format!("session:{}", id.0));
            assert_eq!(plan.index_key, format!("user_sessions:{}", user.0));
            assert_eq!(plan.member, id.0);
        }
        None => panic!("the expired session was not deleted"),
    }
}

/// Seconds after the last request the answer costs a read and no write.
#[test]
fn a_recently_seen_session_is_not_rewritten() {
    let now = Utc::now();
    let fresh = probe_session(now, IDLE_ABSOLUTE_SECS);
    let response = SessionResponse {
        user_id: fresh.user_id,
        github_id: fresh.github_id,
    };
    let (_, result) = check(Some(fresh), after(now, 10));
    assert_eq!(result.answer.ok(), Some(response));
    assert!(result.delete.is_none());
    assert!(result.touch.is_none(), "the session was rewritten inside the refresh threshold");
}

/// Ten minutes idle against a five-minute threshold: the touched session is
/// written back under its own key with the idle TTL, only its idle clock
/// moved.
#[test]
fn a_session_idle_past_the_threshold_is_touched() {
    let now = Utc::now();
    let mut stale = probe_session(now, IDLE_ABSOLUTE_SECS);
    stale.touch(at(after(now, -600)));
    let seen = stale.last_seen_at;
    let original_cap = stale.expires_at;
    let response = SessionResponse {
        user_id: stale.user_id,
        github_id: stale.github_id,
    };
    let (id, result) = check(Some(stale), now);
    assert_eq!(result.answer.ok(), Some(response));
    assert!(result.delete.is_none());
    match result.touch {
        Some((plan, session)) => {
            assert_eq!(plan.record_key, format!("session:{}", id.0));
            assert_eq!(plan.record_ttl_secs, IDLE_SECS);
            assert!(session.last_seen_at.timestamp() > seen.timestamp());
            assert_eq!(session.last_seen_at, at(now));
            assert_eq!(session.expires_at, original_cap);
        }
        None => panic!("the session was not touched past the refresh threshold"),
    }
}

#[test]
fn a_session_expiring_later_but_seen_at_the_threshold_is_touched_not_rejected() {
    let now = Utc::now();
    let s = session(now);
    match verdict(
        Some(s),
        at(after(now, 300)),
        Duration::from_secs(THRESHOLD_SECS),
    ) {
        SessionVerdict::Refresh { .. } => {}
        other => panic!("expected a refresh at the threshold, got {other:?}"),
    }
}
