use justaskrepo::error::AppError;
use justaskrepo::oauth::{
    build_authorize_url, callback_params, oauth_state_key, state_verdict, token_exchange_result,
    token_exchange_status, user_profile_status, GitHubUserDto, TokenExchange,
    OAUTH_STATE_TTL_SECS,
};
use base64::Engine;
use justaskrepo::token::{generate_token, token_from_bytes};
use justaskrepo::types::GitHubId;

#[test]
fn a_state_is_stored_under_its_own_key_for_ten_minutes() {
    assert_eq!(oauth_state_key("xyz"), "oauth_state:xyz");
    assert_eq!(OAUTH_STATE_TTL_SECS, 600);
}

#[test]
fn a_state_we_never_issued_is_rejected() {
    assert!(state_verdict(true).is_ok());
    assert!(matches!(state_verdict(false), Err(AppError::Unauthorized)));
}

#[test]
fn the_authorize_url_carries_the_three_parameters() {
    let url = match build_authorize_url(
        "st ate",
        "Iv1.abc",
        "http://localhost:8080/api/auth/github/callback",
    ) {
        Ok(url) => url,
        Err(error) => panic!("{error:?}"),
    };
    assert_eq!(
        url,
        "https://github.com/login/oauth/authorize?client_id=Iv1.abc&redirect_uri=http%3A%2F%2Flocalhost%3A8080%2Fapi%2Fauth%2Fgithub%2Fcallback&state=st+ate"
    );
}

#[test]
fn a_callback_needs_code_and_state_unless_github_refused() {
    let s = |t: &str| Some(t.to_owned());
    assert!(matches!(
        callback_params(s("c"), s("s"), s("access_denied")),
        Err(AppError::Unauthorized)
    ));
    assert_eq!(
        callback_params(s("c"), s("s"), None).ok(),
        Some(("c".to_owned(), "s".to_owned()))
    );
    match callback_params(s("c"), None, None) {
        Err(AppError::Validation(message)) => assert_eq!(message, "callback missing code or state"),
        other => panic!("{other:?}"),
    }
    assert!(matches!(callback_params(None, s("s"), None), Err(AppError::Validation(_))));
}

#[test]
fn the_code_exchange_distinguishes_outage_from_refusal() {
    assert!(token_exchange_status(200).is_ok());
    assert!(token_exchange_status(204).is_ok());
    assert!(matches!(
        token_exchange_status(502),
        Err(AppError::Unavailable { service: "github" })
    ));
    assert_eq!(
        token_exchange_result(TokenExchange::Success {
            access_token: "gho_x".to_owned()
        })
        .ok(),
        Some("gho_x".to_owned())
    );
    assert!(matches!(
        token_exchange_result(TokenExchange::Failure {
            error: "bad_verification_code".to_owned(),
            error_description: None
        }),
        Err(AppError::Unauthorized)
    ));
}

#[test]
fn the_profile_fetch_maps_statuses() {
    assert!(user_profile_status(200).is_ok());
    assert!(matches!(user_profile_status(401), Err(AppError::Unauthorized)));
    assert!(matches!(
        user_profile_status(500),
        Err(AppError::Unavailable { service: "github" })
    ));
    let profile = GitHubUserDto {
        id: 583231,
        login: "octocat".to_owned(),
        name: Some("The Octocat".to_owned()),
        email: None,
        avatar_url: "https://avatars.githubusercontent.com/u/583231".to_owned(),
    }
    .into_domain();
    assert_eq!(profile.github_user_id, GitHubId(583231));
    assert_eq!(profile.login, "octocat");
    assert_eq!(profile.email, None);
}

#[test]
fn tokens_are_fresh_url_safe_and_forty_three_characters() {
    let first = generate_token();
    let second = generate_token();
    assert_eq!(first.len(), 43);
    assert!(first
        .chars()
        .all(|c| c.is_ascii_alphanumeric() || c == '-' || c == '_'));
    assert_ne!(first, second);
}

#[test]
fn a_token_is_the_url_safe_unpadded_base64_of_its_bytes() {
    let mut bytes = [0u8; 32];
    for (i, b) in bytes.iter_mut().enumerate() {
        *b = (i as u8) * 8 + 3;
    }
    bytes[31] = 0xff;
    let token = token_from_bytes(bytes);
    assert_eq!(token, base64::engine::general_purpose::URL_SAFE_NO_PAD.encode(bytes));
    assert_eq!(token, "AwsTGyMrMztDS1NbY2tze4OLk5ujq7O7w8vT2-Pr8_8");
    assert_eq!(token_from_bytes([0u8; 32]), "AAAAAAAAAAAAAAAAAAAAAAAAAAAAAAAAAAAAAAAAAAA");
}
