use justaskrepo::clock::Duration;
use justaskrepo::session_store::{
    create_plan, delete_plan, revoke_all_plan, session_key, touch_plan, user_index_key,
};
use justaskrepo::probe::{unique_session, unique_user, Sequence};
use justaskrepo::types::{SessionId, UserId};

#[test]
fn keys_name_the_record_and_the_users_index() {
    assert_eq!(session_key("abc"), "session:abc");
    assert_eq!(user_index_key(42), "user_sessions:42");
    assert_eq!(user_index_key(0), "user_sessions:0");
    assert_eq!(user_index_key(-7), "user_sessions:-7");
    assert_eq!(
        user_index_key(i64::MIN),
        format!("user_sessions:{}", i64::MIN)
    );
    assert_eq!(
        user_index_key(i64::MAX),
        format!("user_sessions:{}", i64::MAX)
    );
}

/// Swapped, a session record outlives the idle timeout by weeks.
#[test]
fn the_record_expires_on_the_idle_ttl_and_the_index_on_the_cap() {
    let plan = create_plan(
        &SessionId("s1".to_owned()),
        UserId(9),
        Duration::from_secs(60),
        Duration::from_secs(600),
    );
    assert_eq!(plan.record_key, "session:s1");
    assert_eq!(plan.record_ttl_secs, 60);
    assert_eq!(plan.index_key, "user_sessions:9");
    assert_eq!(plan.member, "s1");
    assert_eq!(plan.index_ttl_secs, 600);
}

#[test]
fn touching_rewrites_only_the_record_with_the_idle_ttl() {
    let plan = touch_plan(&SessionId("s1".to_owned()), Duration::from_secs(5));
    assert_eq!(plan.record_key, "session:s1");
    assert_eq!(plan.record_ttl_secs, 5);
}

#[test]
fn deleting_one_session_leaves_the_users_others_alone() {
    let mut seq = Sequence::new();
    let user = unique_user(3, &mut seq);
    let this_device = unique_session(3, &mut seq);
    let other_device = unique_session(3, &mut seq);
    let plan = delete_plan(&this_device, user);
    assert_eq!(plan.record_key, "session:probe-3-1");
    assert_eq!(plan.index_key, "user_sessions:3000000");
    assert_eq!(plan.member, this_device.0);
    assert_ne!(plan.member, other_device.0);
    assert_ne!(plan.record_key, session_key(&other_device.0));
}

#[test]
fn revoking_all_sessions_with_nothing_to_revoke_succeeds() {
    assert!(revoke_all_plan(UserId(5), vec![]).is_none());
}

#[test]
fn revoking_all_sessions_clears_every_record_and_index_entry() {
    let members = vec!["a".to_owned(), "b".to_owned(), "c".to_owned()];
    let plan = match revoke_all_plan(UserId(5), members.clone()) {
        Some(plan) => plan,
        None => panic!("three members make a plan"),
    };
    assert_eq!(plan.index_key, "user_sessions:5");
    assert_eq!(plan.members, members);
    assert_eq!(plan.record_keys, vec!["session:a", "session:b", "session:c"]);
}
