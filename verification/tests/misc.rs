use justaskrepo::api::{me_response, user_profile_response, User};
use justaskrepo::error::AppError;
use justaskrepo::events::{channel_capacity, listener_step, ListenerStep, Received};
use justaskrepo::http::CurrentUser;
use justaskrepo::session::SessionResponse;
use justaskrepo::types::{GitHubId, SessionId, UserId};

#[test]
fn every_error_has_its_status_and_code() {
    let cases = [
        (AppError::NotFound { resource: "user" }, 404, "not_found"),
        (AppError::Unauthorized, 401, "unauthorized"),
        (AppError::Forbidden, 403, "forbidden"),
        (AppError::Validation("v".to_owned()), 422, "validation_failed"),
        (AppError::Conflict("c".to_owned()), 409, "conflict"),
        (AppError::Unavailable { service: "github" }, 503, "unavailable"),
        (AppError::RateLimited { retry_after_secs: 5 }, 429, "rate_limited"),
        (AppError::Internal("secret detail".to_owned()), 500, "internal"),
    ];
    for (error, status, code) in cases {
        assert_eq!(error.status(), status);
        assert_eq!(error.code(), code);
        assert_eq!(error.exposes_detail(), status != 500);
    }
}

#[test]
fn clients_see_every_description_but_an_internal_one() {
    let cases = [
        (AppError::NotFound { resource: "user" }, "user not found"),
        (AppError::Unauthorized, "unauthorized"),
        (AppError::Forbidden, "forbidden"),
        (AppError::Validation("bad input".to_owned()), "bad input"),
        (AppError::Conflict("taken".to_owned()), "taken"),
        (AppError::Unavailable { service: "github" }, "github is unavailable"),
        (
            AppError::RateLimited {
                retry_after_secs: 58,
            },
            "too many requests; retry after 58s",
        ),
    ];
    for (error, message) in cases {
        assert_eq!(error.description(), message);
        assert_eq!(error.public_message(), message);
    }
    let internal = AppError::Internal("pool timed out at 10.0.0.3".to_owned());
    assert_eq!(internal.description(), "internal error: pool timed out at 10.0.0.3");
    assert_eq!(internal.public_message(), "internal server error");
}

#[test]
fn only_a_refusal_carries_a_retry_after() {
    assert_eq!(AppError::RateLimited { retry_after_secs: 1 }.retry_after(), Some(1));
    assert_eq!(AppError::Unauthorized.retry_after(), None);
    assert_eq!(AppError::Internal(String::new()).retry_after(), None);
}

#[test]
fn a_missing_user_is_not_found() {
    assert!(matches!(
        user_profile_response(None),
        Err(AppError::NotFound { resource: "user" })
    ));
    let profile = match user_profile_response(Some(User {
        id: UserId(1),
        github_id: GitHubId(2),
        username: "octocat".to_owned(),
        name: None,
        email: Some("o@example.com".to_owned()),
        avatar_url: None,
    })) {
        Ok(profile) => profile,
        Err(error) => panic!("{error:?}"),
    };
    assert_eq!(profile.user_id, UserId(1));
    assert_eq!(profile.email, Some("o@example.com".to_owned()));
    let me = me_response(profile);
    assert_eq!(me.username, "octocat");
    assert_eq!(me.github_id, GitHubId(2));
}

#[test]
fn a_listener_stops_only_when_the_bus_is_gone() {
    assert_eq!(listener_step(Received::Event), ListenerStep::Dispatch);
    assert_eq!(
        listener_step(Received::Lagged(8)),
        ListenerStep::ReportLagAndContinue { missed: 8 }
    );
    assert_eq!(listener_step(Received::Closed), ListenerStep::Stop);
    assert_eq!(channel_capacity(0), 1);
    assert_eq!(channel_capacity(8), 8);
}

#[test]
fn the_current_user_comes_from_the_session() {
    let user = CurrentUser::from_session(
        SessionId("sid".to_owned()),
        SessionResponse {
            user_id: UserId(4),
            github_id: GitHubId(5),
        },
    );
    assert_eq!(user.session_id, SessionId("sid".to_owned()));
    assert_eq!(user.user_id, UserId(4));
    assert_eq!(user.github_id, GitHubId(5));
}
