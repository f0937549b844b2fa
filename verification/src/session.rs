//! A signed-in session and the two clocks that end it.
//!
//! The *idle* timeout is the Valkey key's TTL and slides forward on
//! activity; the *absolute* cap is `expires_at`, fixed at sign-in, and
//! nothing ever moves it. Every load checks the cap, because the sliding
//! TTL structurally cannot enforce it.
use vstd::prelude::*;

use crate::clock::{max_delta, max_instant, min_instant, Duration, TimeDelta, Timestamp};
use crate::error::AppError;
use crate::types::{GitHubId, UserId};

verus! {

#[derive(Debug)]
pub struct Session {
    pub user_id: UserId,
    pub github_id: GitHubId,
    pub created_at: Timestamp,
    pub last_seen_at: Timestamp,
    pub expires_at: Timestamp,
    pub ip: String,
    pub user_agent: String,
}

/// What the session query hands back to the request that presented the
/// session.
#[derive(Clone, Copy, Debug, PartialEq, Eq, Structural)]
pub struct SessionResponse {
    pub user_id: UserId,
    pub github_id: GitHubId,
}

/// The session is dead from `expires_at` on: the cap is the first expired
/// instant, not the last live one.
pub open spec fn spec_is_expired(expires_at: int, now: int) -> bool {
    now >= expires_at
}

/// A refresh (a Valkey write that re-arms the idle TTL) is due once
/// `threshold` has elapsed since the session was last seen. A threshold too
/// large for a `TimeDelta` makes every check due.
pub open spec fn spec_needs_refresh(last_seen_at: int, now: int, threshold: int) -> bool {
    !(threshold <= max_delta() && now - last_seen_at < threshold)
}

pub open spec fn ttl_overflow_message() -> Seq<char> {
    "session absolute TTL overflows"@
}

pub open spec fn ttl_out_of_range_message() -> Seq<char> {
    "Source duration value is out of range for the target type"@
}

impl Session {
    /// Starts a session at `now`: both clocks start together and the cap is
    /// `absolute_ttl` later. A TTL beyond what a `TimeDelta` holds is an
    /// internal error; a cap beyond the last representable instant is a
    /// validation error. Neither panics or wraps.
    pub fn new(
        user_id: UserId,
        github_id: GitHubId,
        ip: String,
        user_agent: String,
        now: Timestamp,
        absolute_ttl: Duration,
    ) -> (r: Result<Session, AppError>)
        ensures
            r is Ok <==> (absolute_ttl@ <= max_delta() && min_instant() <= now@ + absolute_ttl@
                <= max_instant()),
            r matches Ok(s) ==> {
                &&& s.user_id == user_id
                &&& s.github_id == github_id
                &&& s.ip == ip
                &&& s.user_agent == user_agent
                &&& s.created_at == now
                &&& s.last_seen_at == now
                &&& s.expires_at@ == now@ + absolute_ttl@
            },
            absolute_ttl@ > max_delta() ==> (r matches Err(AppError::Internal(m))
                && m@ == ttl_out_of_range_message()),
            absolute_ttl@ <= max_delta() && !(min_instant() <= now@ + absolute_ttl@
                <= max_instant()) ==> (r matches Err(AppError::Validation(m))
                && m@ == ttl_overflow_message()),
    {
        let ttl = match TimeDelta::from_std(absolute_ttl) {
            Some(ttl) => ttl,
            None => {
                let m = String::from_str("Source duration value is out of range for the target type");
                proof {
                    reveal_strlit("Source duration value is out of range for the target type");
                }
                return Err(AppError::internal(m));
            },
        };
        let expires_at = match now.checked_add_signed(ttl) {
            Some(t) => t,
            None => {
                let m = String::from_str("session absolute TTL overflows");
                proof {
                    reveal_strlit("session absolute TTL overflows");
                }
                return Err(AppError::Validation(m));
            },
        };
        Ok(Session {
            user_id,
            github_id,
            created_at: now,
            last_seen_at: now,
            expires_at,
            ip,
            user_agent,
        })
    }

    pub fn is_expired(&self, now: &Timestamp) -> (b: bool)
        ensures
            b == spec_is_expired(self.expires_at@, now@),
    {
        now.ge(&self.expires_at)
    }

    pub fn needs_refresh(&self, now: &Timestamp, threshold: Duration) -> (b: bool)
        ensures
            b == spec_needs_refresh(self.last_seen_at@, now@, threshold@),
    {
        match TimeDelta::from_std(threshold) {
            Some(threshold) => !now.signed_duration_since(&self.last_seen_at).lt(&threshold),
            None => true,
        }
    }

    /// Records activity. Only the idle clock moves; the cap never does.
    pub fn touch(&mut self, now: Timestamp)
        ensures
            final(self).last_seen_at == now,
            final(self).expires_at == old(self).expires_at,
            final(self).created_at == old(self).created_at,
            final(self).user_id == old(self).user_id,
            final(self).github_id == old(self).github_id,
            final(self).ip == old(self).ip,
            final(self).user_agent == old(self).user_agent,
    {
        self.last_seen_at = now;
    }
}

/// What the session query does with whatever Valkey held under the
/// presented id.
#[derive(Debug)]
pub enum SessionVerdict {
    /// Nothing stored: the caller is not signed in.
    Missing,
    /// Past its absolute cap: delete the record (and its index entry for
    /// this user), then answer as if it were missing.
    Expired { user_id: UserId },
    /// Valid, and idle long enough that the touched record must be written
    /// back so its idle TTL starts over.
    Refresh { session: Session, response: SessionResponse },
    /// Valid and recently seen: no write at all.
    Valid { response: SessionResponse },
}

/// Decides a session check at `now`. Expiry is tested before refresh, so an
/// expired session is never written back.
pub fn verdict(loaded: Option<Session>, now: Timestamp, refresh_threshold: Duration) -> (v:
    SessionVerdict)
    ensures
        match loaded {
            None => v is Missing,
            Some(s) => if spec_is_expired(s.expires_at@, now@) {
                v == SessionVerdict::Expired { user_id: s.user_id }
            } else {
                let response = SessionResponse { user_id: s.user_id, github_id: s.github_id };
                if spec_needs_refresh(s.last_seen_at@, now@, refresh_threshold@) {
                    &&& v matches SessionVerdict::Refresh { session, response: r }
                    &&& r == response
                    &&& session.last_seen_at == now
                    &&& session.expires_at == s.expires_at
                    &&& session.created_at == s.created_at
                    &&& session.user_id == s.user_id
                    &&& session.github_id == s.github_id
                    &&& session.ip == s.ip
                    &&& session.user_agent == s.user_agent
                } else {
                    v == SessionVerdict::Valid { response }
                }
            },
        },
{
    match loaded {
        None => SessionVerdict::Missing,
        Some(mut session) => {
            if session.is_expired(&now) {
                return SessionVerdict::Expired { user_id: session.user_id };
            }
            let response = SessionResponse { user_id: session.user_id, github_id: session.github_id };
            if session.needs_refresh(&now, refresh_threshold) {
                session.touch(now);
                SessionVerdict::Refresh { session, response }
            } else {
                SessionVerdict::Valid { response }
            }
        },
    }
}

/// Activity can never extend a session past its cap: however often it is
/// touched, a session expires at the instant it was created with.
pub proof fn lemma_touch_keeps_the_cap(before: Session, after: Session, now: Timestamp, at: int)
    requires
        after.expires_at == before.expires_at,
        after.last_seen_at == now,
    ensures
        spec_is_expired(after.expires_at@, at) == spec_is_expired(before.expires_at@, at),
{
}

/// Once expired, a session stays expired at every later instant.
pub proof fn lemma_expiry_is_permanent(expires_at: int, now: int, later: int)
    requires
        spec_is_expired(expires_at, now),
        now <= later,
    ensures
        spec_is_expired(expires_at, later),
{
}

/// Refresh is a threshold: checks strictly inside it never write, and once it
/// has elapsed every later check (until the next touch) does.
pub proof fn lemma_refresh_is_monotone(last_seen_at: int, now: int, later: int, threshold: int)
    requires
        spec_needs_refresh(last_seen_at, now, threshold),
        now <= later,
    ensures
        spec_needs_refresh(last_seen_at, later, threshold),
{
}

/// A session freshly started or freshly touched needs no refresh at that
/// same instant, for any threshold a `TimeDelta` can hold that is above
/// zero.
pub proof fn lemma_fresh_session_is_not_refreshed(now: int, threshold: int)
    requires
        0 < threshold <= max_delta(),
    ensures
        !spec_needs_refresh(now, now, threshold),
{
}

} // verus!
