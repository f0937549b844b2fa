//! The auth module's commands and queries, and the answers they give.
use vstd::prelude::*;

use crate::error::AppError;
use crate::types::{GitHubId, SessionId, UserId};

verus! {

#[derive(Debug)]
pub struct StartGithubLoginCommand;

#[derive(Debug)]
pub struct StartGithubLoginResponse {
    pub authorize_url: String,
}

/// Carries the user id as well as the session id because revocation is two
/// writes: the record, and its entry in that user's index.
#[derive(Debug)]
pub struct RevokeSessionCommand {
    pub session_id: SessionId,
    pub user_id: UserId,
}

#[derive(Debug)]
pub struct RevokeAllSessionsCommand {
    pub user_id: UserId,
}

#[derive(Debug)]
pub struct GetSessionQuery {
    pub session_id: SessionId,
}

#[derive(Debug)]
pub struct GetUserProfileQuery {
    pub user_id: UserId,
}

/// A stored user.
#[derive(Debug)]
pub struct User {
    pub id: UserId,
    pub github_id: GitHubId,
    pub username: String,
    pub name: Option<String>,
    pub email: Option<String>,
    pub avatar_url: Option<String>,
}

#[derive(Debug)]
pub struct UserProfileResponse {
    pub user_id: UserId,
    pub github_id: GitHubId,
    pub username: String,
    pub name: Option<String>,
    pub email: Option<String>,
    pub avatar_url: Option<String>,
}

/// `GET /api/me`: the profile without the e-mail address.
#[derive(Debug)]
pub struct MeResponse {
    pub user_id: UserId,
    pub github_id: GitHubId,
    pub username: String,
    pub name: Option<String>,
    pub avatar_url: Option<String>,
}

/// The profile query's answer for what the user lookup found: a user id
/// with no row is `NotFound`.
pub fn user_profile_response(found: Option<User>) -> (r: Result<UserProfileResponse, AppError>)
    ensures
        found is None ==> (r matches Err(AppError::NotFound { resource }) && resource == "user"),
        found matches Some(u) ==> (r matches Ok(p) && p.user_id == u.id && p.github_id
            == u.github_id && p.username == u.username && p.name == u.name && p.email == u.email
            && p.avatar_url == u.avatar_url),
{
    match found {
        None => Err(AppError::NotFound { resource: "user" }),
        Some(user) => Ok(
            UserProfileResponse {
                user_id: user.id,
                github_id: user.github_id,
                username: user.username,
                name: user.name,
                email: user.email,
                avatar_url: user.avatar_url,
            },
        ),
    }
}

pub fn me_response(profile: UserProfileResponse) -> (me: MeResponse)
    ensures
        me.user_id == profile.user_id,
        me.github_id == profile.github_id,
        me.username == profile.username,
        me.name == profile.name,
        me.avatar_url == profile.avatar_url,
{
    MeResponse {
        user_id: profile.user_id,
        github_id: profile.github_id,
        username: profile.username,
        name: profile.name,
        avatar_url: profile.avatar_url,
    }
}

} // verus!
