use justaskrepo::clock::{Duration, Timestamp};
use justaskrepo::probe::{session, unique_session, unique_token, unique_user, Sequence};
use justaskrepo::types::{GitHubId, UserId};

fn instant(secs: i64) -> Timestamp {
    match Timestamp::from_timestamp(secs, 0) {
        Some(t) => t,
        None => panic!("{secs} is representable"),
    }
}

#[test]
fn sequence_hands_out_consecutive_draws_from_zero() {
    let mut seq = Sequence::new();
    assert_eq!(seq.next(), 0);
    assert_eq!(seq.next(), 1);
    assert_eq!(seq.next(), 2);
    assert_eq!(seq.counter, 3);
}

#[test]
fn sequence_wraps_like_an_atomic_fetch_add() {
    let mut seq = Sequence { counter: i64::MAX };
    assert_eq!(seq.next(), i64::MAX);
    assert_eq!(seq.counter, i64::MIN);
    assert_eq!(seq.next(), i64::MIN);
}

#[test]
fn unique_user_offsets_the_draw_by_the_process_stride() {
    let mut seq = Sequence { counter: 5 };
    assert_eq!(unique_user(42, &mut seq), UserId(42_000_005));
    assert_eq!(unique_user(42, &mut seq), UserId(42_000_006));
    assert_eq!(seq.counter, 7);
}

#[test]
fn unique_user_of_the_largest_process_id() {
    let mut seq = Sequence::new();
    assert_eq!(unique_user(u32::MAX, &mut seq), UserId(4_294_967_295_000_000));
}

#[test]
fn unique_token_names_the_process_and_the_draw() {
    let mut seq = Sequence { counter: 3 };
    assert_eq!(unique_token(7, &mut seq), "probe-7-3");
    assert_eq!(unique_token(7, &mut seq), "probe-7-4");
}

#[test]
fn unique_token_after_the_counter_wrapped() {
    let mut seq = Sequence { counter: -5 };
    assert_eq!(unique_token(1234, &mut seq), "probe-1234--5");
}

#[test]
fn unique_sessions_differ_within_a_process() {
    let mut seq = Sequence::new();
    let a = unique_session(99, &mut seq);
    let b = unique_session(99, &mut seq);
    assert_eq!(a.0, "probe-99-0");
    assert_eq!(b.0, "probe-99-1");
    assert_ne!(a, b);
}

#[test]
fn unique_tokens_differ_across_processes_with_the_same_draw() {
    let mut first = Sequence::new();
    let mut second = Sequence::new();
    assert_ne!(unique_token(1, &mut first), unique_token(11, &mut second));
}

#[test]
fn probe_session_is_capped_after_its_ttl() {
    let now = instant(1_700_000_000);
    let s = session(UserId(7), now, Duration::from_secs(60));
    assert_eq!(s.user_id, UserId(7));
    assert_eq!(s.github_id, GitHubId(7));
    assert_eq!(s.ip, "203.0.113.7");
    assert_eq!(s.user_agent, "probe");
    assert_eq!(s.created_at.timestamp(), 1_700_000_000);
    assert_eq!(s.last_seen_at.timestamp(), 1_700_000_000);
    assert_eq!(s.expires_at.timestamp(), 1_700_000_060);
}

#[test]
fn probe_session_with_zero_ttl_is_already_expired() {
    let now = instant(1_700_000_000);
    let s = session(UserId(8), now, Duration::zero());
    assert!(s.is_expired(&now));
}
