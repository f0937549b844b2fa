//! How sessions are laid out in Valkey, as the commands the store issues.
//!
//! A session is a record under `session:{id}` whose TTL is the sliding idle
//! timeout, plus a member `{id}` of the per-user index set
//! `user_sessions:{user_id}` whose TTL is the absolute cap. The index is
//! what makes "log out everywhere" a bounded operation instead of a scan.
//! Each plan below is one atomic pipeline; the application sends it.
use vstd::prelude::*;

use crate::clock::{nanos_per_sec, Duration, Timestamp};
use crate::error::AppError;
use crate::session::{
    spec_is_expired, spec_needs_refresh, verdict, Session, SessionResponse, SessionVerdict,
};
use crate::text::{decimal_i64, i64_to_decimal};
use crate::types::{SessionId, UserId};

verus! {

pub open spec fn spec_session_key(session_id: Seq<char>) -> Seq<char> {
    "session:"@ + session_id
}

pub open spec fn spec_user_index_key(user_id: i64) -> Seq<char> {
    "user_sessions:"@ + decimal_i64(user_id as int)
}

pub fn session_key(session_id: &str) -> (key: String)
    ensures
        key@ == spec_session_key(session_id@),
{
    let mut key = String::from_str("session:");
    key.append(session_id);
    key
}

pub fn user_index_key(user_id: i64) -> (key: String)
    ensures
        key@ == spec_user_index_key(user_id),
{
    let mut key = String::from_str("user_sessions:");
    let digits = i64_to_decimal(user_id);
    key.append(digits.as_str());
    key
}

/// `SET record EX idle` + `SADD index member` + `EXPIRE index absolute`.
#[derive(Debug)]
pub struct CreatePlan {
    pub record_key: String,
    pub record_ttl_secs: u64,
    pub index_key: String,
    pub member: String,
    pub index_ttl_secs: u64,
}

/// `SET record EX idle`, re-arming the idle timeout.
#[derive(Debug)]
pub struct TouchPlan {
    pub record_key: String,
    pub record_ttl_secs: u64,
}

/// `DEL record` + `SREM index member`.
#[derive(Debug)]
pub struct DeletePlan {
    pub record_key: String,
    pub index_key: String,
    pub member: String,
}

/// `DEL` of every listed record + one `SREM index` of exactly the listed
/// members.
#[derive(Debug)]
pub struct RevokeAllPlan {
    pub record_keys: Vec<String>,
    pub index_key: String,
    pub members: Vec<String>,
}

/// Storing a new session. The two TTLs are not interchangeable: the record
/// carries the idle timeout, the index the absolute cap.
pub fn create_plan(session_id: &SessionId, user_id: UserId, idle_ttl: Duration, absolute_ttl: Duration)
    -> (p: CreatePlan)
    ensures
        p.record_key@ == spec_session_key(session_id.0@),
        p.record_ttl_secs == idle_ttl@ / nanos_per_sec(),
        p.index_key@ == spec_user_index_key(user_id.0),
        p.member@ == session_id.0@,
        p.index_ttl_secs == absolute_ttl@ / nanos_per_sec(),
        forall|st: StoreModel|
            #[trigger] run_create(st, p) == apply_create(
                st,
                session_id.0@,
                spec_user_index_key(user_id.0),
            ),
{
    proof {
        lemma_record_id(session_id.0@);
    }
    CreatePlan {
        record_key: session_key(session_id.0.as_str()),
        record_ttl_secs: idle_ttl.as_secs(),
        index_key: user_index_key(user_id.0),
        member: session_id.0.clone(),
        index_ttl_secs: absolute_ttl.as_secs(),
    }
}

/// Writing back a touched session; only the record's TTL moves.
pub fn touch_plan(session_id: &SessionId, idle_ttl: Duration) -> (p: TouchPlan)
    ensures
        p.record_key@ == spec_session_key(session_id.0@),
        p.record_ttl_secs == idle_ttl@ / nanos_per_sec(),
{
    TouchPlan { record_key: session_key(session_id.0.as_str()), record_ttl_secs: idle_ttl.as_secs() }
}

/// Revoking one session: the record and its entry in its user's index.
pub fn delete_plan(session_id: &SessionId, user_id: UserId) -> (p: DeletePlan)
    ensures
        p.record_key@ == spec_session_key(session_id.0@),
        p.index_key@ == spec_user_index_key(user_id.0),
        p.member@ == session_id.0@,
        forall|st: StoreModel|
            #[trigger] run_delete(st, p) == apply_delete(
                st,
                session_id.0@,
                spec_user_index_key(user_id.0),
            ),
{
    proof {
        lemma_record_id(session_id.0@);
    }
    DeletePlan {
        record_key: session_key(session_id.0.as_str()),
        index_key: user_index_key(user_id.0),
        member: session_id.0.clone(),
    }
}

/// Revoking every session the user's index listed when it was read. An
/// empty listing needs no write at all (and `SREM` with no members is an
/// error, not a no-op). The index loses exactly the members read, never the
/// whole key, so a sign-in landing between the read and the write stays
/// indexed.
pub fn revoke_all_plan(user_id: UserId, members: Vec<String>) -> (p: Option<RevokeAllPlan>)
    ensures
        members@.len() == 0 <==> p is None,
        p matches Some(plan) ==> {
            &&& plan.index_key@ == spec_user_index_key(user_id.0)
            &&& plan.members@ == members@
            &&& plan.record_keys@.len() == members@.len()
            &&& forall|k: int|
                0 <= k < members@.len() ==> #[trigger] plan.record_keys@[k]@ == spec_session_key(
                    members@[k]@,
                )
            &&& forall|st: StoreModel|
                #[trigger] run_revoke_all(st, plan) == apply_revoke_all(
                    st,
                    spec_user_index_key(user_id.0),
                    listed(members@),
                )
        },
{
    if members.len() == 0 {
        return None;
    }
    let mut record_keys: Vec<String> = Vec::new();
    let mut i: usize = 0;
    while i < members.len()
        invariant
            i <= members@.len(),
            record_keys@.len() == i,
            forall|k: int|
                0 <= k < i ==> #[trigger] record_keys@[k]@ == spec_session_key(members@[k]@),
        decreases members@.len() - i,
    {
        record_keys.push(session_key(members[i].as_str()));
        i = i + 1;
    }
    let plan = RevokeAllPlan { record_keys, index_key: user_index_key(user_id.0), members };
    proof {
        assert(listed_records(plan.record_keys@) =~= listed(plan.members@)) by {
            assert forall|id: Seq<char>| listed_records(plan.record_keys@).contains(id) implies listed(
                plan.members@,
            ).contains(id) by {
                let k = choose|k: int|
                    0 <= k < plan.record_keys@.len() && record_id(#[trigger] plan.record_keys@[k]@)
                        == id;
                lemma_record_id(plan.members@[k]@);
                assert(plan.members@[k]@ == id);
            }
            assert forall|id: Seq<char>| listed(plan.members@).contains(id) implies listed_records(
                plan.record_keys@,
            ).contains(id) by {
                let k = choose|k: int| 0 <= k < plan.members@.len() && #[trigger] plan.members@[k]@ == id;
                lemma_record_id(plan.members@[k]@);
                assert(record_id(plan.record_keys@[k]@) == id);
            }
        }
    }
    Some(plan)
}

/// What the session query answers with, and the writes that go with the
/// answer.
#[derive(Debug)]
pub struct SessionCheck {
    pub answer: Result<SessionResponse, AppError>,
    /// An expired session's record and index entry, deleted before the
    /// refusal so the key does not linger until its idle TTL.
    pub delete: Option<DeletePlan>,
    /// A session idle past the refresh threshold, touched, to write back so
    /// that its idle TTL starts over.
    pub touch: Option<(TouchPlan, Session)>,
}

/// The session query on what Valkey held under `session_id` at `now`. A
/// missing session and an expired one are both `Unauthorized`; the expired
/// one is deleted. A valid one answers with its user, and is written back
/// only once the refresh threshold has passed.
pub fn check_session(
    session_id: &SessionId,
    loaded: Option<Session>,
    now: Timestamp,
    refresh_threshold: Duration,
    idle_ttl: Duration,
) -> (c: SessionCheck)
    ensures
        match loaded {
            None => c.answer matches Err(AppError::Unauthorized) && c.delete is None && c.touch is None,
            Some(s) => if spec_is_expired(s.expires_at@, now@) {
                &&& c.answer matches Err(AppError::Unauthorized)
                &&& c.touch is None
                &&& c.delete matches Some(p) && p.record_key@ == spec_session_key(session_id.0@)
                    && p.index_key@ == spec_user_index_key(s.user_id.0) && p.member@
                    == session_id.0@
            } else {
                &&& c.answer == Ok::<SessionResponse, AppError>(
                    SessionResponse { user_id: s.user_id, github_id: s.github_id },
                )
                &&& c.delete is None
                &&& if spec_needs_refresh(s.last_seen_at@, now@, refresh_threshold@) {
                    &&& c.touch matches Some((p, t))
                    &&& p.record_key@ == spec_session_key(session_id.0@)
                    &&& p.record_ttl_secs == idle_ttl@ / nanos_per_sec()
                    &&& t.last_seen_at == now
                    &&& t.expires_at == s.expires_at
                    &&& t.created_at == s.created_at
                    &&& t.user_id == s.user_id
                    &&& t.github_id == s.github_id
                    &&& t.ip == s.ip
                    &&& t.user_agent == s.user_agent
                } else {
                    c.touch is None
                }
            },
        },
{
    match verdict(loaded, now, refresh_threshold) {
        SessionVerdict::Missing => SessionCheck {
            answer: Err(AppError::Unauthorized),
            delete: None,
            touch: None,
        },
        SessionVerdict::Expired { user_id } => SessionCheck {
            answer: Err(AppError::Unauthorized),
            delete: Some(delete_plan(session_id, user_id)),
            touch: None,
        },
        SessionVerdict::Refresh { session, response } => SessionCheck {
            answer: Ok(response),
            delete: None,
            touch: Some((touch_plan(session_id, idle_ttl), session)),
        },
        SessionVerdict::Valid { response } => SessionCheck {
            answer: Ok(response),
            delete: None,
            touch: None,
        },
    }
}

/// The sessions in Valkey as the plans see them: each live record, by
/// session id, with the index key of the user it belongs to; and each index
/// key with its members.
pub struct StoreModel {
    pub records: Map<Seq<char>, Seq<char>>,
    pub index: Map<Seq<char>, Set<Seq<char>>>,
}

pub open spec fn members_of(st: StoreModel, index_key: Seq<char>) -> Set<Seq<char>> {
    if st.index.contains_key(index_key) {
        st.index[index_key]
    } else {
        Set::empty()
    }
}

/// No orphans: every live record is listed in its user's index, so "log out
/// everywhere" can always reach it.
pub open spec fn no_orphans(st: StoreModel) -> bool {
    forall|id: Seq<char>| #[trigger]
        st.records.contains_key(id) ==> members_of(st, st.records[id]).contains(id)
}

pub open spec fn apply_create(st: StoreModel, id: Seq<char>, index_key: Seq<char>) -> StoreModel {
    StoreModel {
        records: st.records.insert(id, index_key),
        index: st.index.insert(index_key, members_of(st, index_key).insert(id)),
    }
}

pub open spec fn apply_delete(st: StoreModel, id: Seq<char>, index_key: Seq<char>) -> StoreModel {
    StoreModel {
        records: st.records.remove(id),
        index: st.index.insert(index_key, members_of(st, index_key).remove(id)),
    }
}

pub open spec fn apply_revoke_all(st: StoreModel, index_key: Seq<char>, read: Set<Seq<char>>)
    -> StoreModel
{
    StoreModel {
        records: st.records.remove_keys(read),
        index: st.index.insert(index_key, members_of(st, index_key).difference(read)),
    }
}

/// The session id a record key names.
pub open spec fn record_id(record_key: Seq<char>) -> Seq<char> {
    record_key.skip(8)
}

proof fn lemma_record_id(id: Seq<char>)
    ensures
        record_id(spec_session_key(id)) == id,
{
    reveal_strlit("session:");
    assert(spec_session_key(id).skip(8) =~= id);
}

/// What a create plan's commands do to the store: `SET` the record (which
/// belongs to the index's user) and `SADD` the member to the index.
pub open spec fn run_create(st: StoreModel, p: CreatePlan) -> StoreModel {
    StoreModel {
        records: st.records.insert(record_id(p.record_key@), p.index_key@),
        index: st.index.insert(p.index_key@, members_of(st, p.index_key@).insert(p.member@)),
    }
}

/// What a delete plan's commands do: `DEL` the record, `SREM` the member.
pub open spec fn run_delete(st: StoreModel, p: DeletePlan) -> StoreModel {
    StoreModel {
        records: st.records.remove(record_id(p.record_key@)),
        index: st.index.insert(p.index_key@, members_of(st, p.index_key@).remove(p.member@)),
    }
}

/// The ids a list of strings holds.
pub open spec fn listed(v: Seq<String>) -> Set<Seq<char>> {
    Set::new(|id: Seq<char>| exists|k: int| 0 <= k < v.len() && #[trigger] v[k]@ == id)
}

/// The ids a list of record keys names.
pub open spec fn listed_records(v: Seq<String>) -> Set<Seq<char>> {
    Set::new(|id: Seq<char>| exists|k: int| 0 <= k < v.len() && record_id(#[trigger] v[k]@) == id)
}

/// What a revoke-all plan's commands do: `DEL` every listed record and
/// `SREM` exactly the listed members.
pub open spec fn run_revoke_all(st: StoreModel, p: RevokeAllPlan) -> StoreModel {
    StoreModel {
        records: st.records.remove_keys(listed_records(p.record_keys@)),
        index: st.index.insert(
            p.index_key@,
            members_of(st, p.index_key@).difference(listed(p.members@)),
        ),
    }
}

/// Storing a session keeps every record reachable.
pub proof fn lemma_create_keeps_no_orphans(st: StoreModel, id: Seq<char>, index_key: Seq<char>)
    requires
        no_orphans(st),
    ensures
        no_orphans(apply_create(st, id, index_key)),
{
    let post = apply_create(st, id, index_key);
    assert forall|other: Seq<char>| #[trigger] post.records.contains_key(other) implies members_of(
        post,
        post.records[other],
    ).contains(other) by {
        if other != id {
            assert(st.records.contains_key(other));
            let k = st.records[other];
            if k == index_key {
                assert(members_of(post, k) == members_of(st, k).insert(id));
            } else {
                assert(members_of(post, k) == members_of(st, k));
            }
        }
    }
}

/// A stored session is there to load, belonging to its user, and listed
/// in that user's index.
pub proof fn lemma_created_session_is_stored_and_indexed(
    st: StoreModel,
    id: Seq<char>,
    index_key: Seq<char>,
)
    ensures
        apply_create(st, id, index_key).records.contains_key(id),
        apply_create(st, id, index_key).records[id] == index_key,
        members_of(apply_create(st, id, index_key), index_key).contains(id),
{
}

/// Revoking one session (with the user it belongs to) keeps every other
/// record reachable.
pub proof fn lemma_delete_keeps_no_orphans(st: StoreModel, id: Seq<char>, index_key: Seq<char>)
    requires
        no_orphans(st),
        st.records.contains_key(id) ==> st.records[id] == index_key,
    ensures
        no_orphans(apply_delete(st, id, index_key)),
        !apply_delete(st, id, index_key).records.contains_key(id),
{
    let post = apply_delete(st, id, index_key);
    assert forall|other: Seq<char>| #[trigger] post.records.contains_key(other) implies members_of(
        post,
        post.records[other],
    ).contains(other) by {
        assert(st.records.contains_key(other));
        let k = st.records[other];
        if k == index_key {
            assert(members_of(post, k) == members_of(st, k).remove(id));
        } else {
            assert(members_of(post, k) == members_of(st, k));
        }
    }
}

/// "Log out everywhere" never orphans a session, whatever happened since
/// the index was read: removing exactly the members that were read (rather
/// than dropping the index key) leaves a sign-in that landed in between
/// both alive and indexed. And every session that was read is gone.
pub proof fn lemma_revoke_all_never_orphans(
    st: StoreModel,
    index_key: Seq<char>,
    read: Set<Seq<char>>,
)
    requires
        no_orphans(st),
    ensures
        no_orphans(apply_revoke_all(st, index_key, read)),
        forall|id: Seq<char>|
            read.contains(id) ==> !#[trigger] apply_revoke_all(
                st,
                index_key,
                read,
            ).records.contains_key(id),
{
    let post = apply_revoke_all(st, index_key, read);
    assert forall|other: Seq<char>| #[trigger] post.records.contains_key(other) implies members_of(
        post,
        post.records[other],
    ).contains(other) by {
        assert(st.records.contains_key(other));
        assert(!read.contains(other));
        let k = st.records[other];
        if k == index_key {
            assert(members_of(post, k) == members_of(st, k).difference(read));
        } else {
            assert(members_of(post, k) == members_of(st, k));
        }
    }
}

/// The race "log out everywhere" is written around: a sign-in that lands
/// between reading the index and removing what was read survives, alive and
/// still indexed, so the next bulk revocation can reach it.
pub proof fn lemma_login_mid_revoke_stays_revocable(
    st: StoreModel,
    index_key: Seq<char>,
    newcomer: Seq<char>,
)
    requires
        no_orphans(st),
        !members_of(st, index_key).contains(newcomer),
    ensures
        ({
            let read = members_of(st, index_key);
            let after = apply_revoke_all(apply_create(st, newcomer, index_key), index_key, read);
            &&& after.records.contains_key(newcomer)
            &&& members_of(after, index_key).contains(newcomer)
            &&& no_orphans(after)
        }),
{
    let read = members_of(st, index_key);
    let mid = apply_create(st, newcomer, index_key);
    lemma_create_keeps_no_orphans(st, newcomer, index_key);
    lemma_revoke_all_never_orphans(mid, index_key, read);
    let after = apply_revoke_all(mid, index_key, read);
    assert(after.records.contains_key(newcomer));
    assert(members_of(mid, index_key).contains(newcomer));
    assert(members_of(after, index_key) == members_of(mid, index_key).difference(read));
}

} // verus!
