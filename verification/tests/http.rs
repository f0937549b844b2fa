use justaskrepo::clock::Duration;
use justaskrepo::http::{
    removal_cookie, session_cookie, summarise, user_agent, AuthContext, ListParams,
    UserRepositoryResponse, NEVER_INDEXED,
};
use justaskrepo::types::SessionId;

fn auth_context() -> AuthContext {
    AuthContext {
        cookie_name: "__Host-session".to_owned(),
        absolute_ttl: Duration::from_secs(2_592_000),
        idle_ttl: Duration::from_secs(604_800),
        refresh_threshold: Duration::from_secs(300),
        client_id: "id".to_owned(),
        redirect_uri: "http://localhost:8080/api/auth/github/callback".to_owned(),
    }
}

#[test]
fn session_cookie_satisfies_host_prefix_rules() {
    let auth = auth_context();

    let rendered = session_cookie(&auth, SessionId("abc123".to_owned())).unwrap_or_default();

    println!("Set-Cookie: {rendered}");
    assert!(rendered.starts_with("__Host-session=abc123"));
    assert!(rendered.contains("HttpOnly"));
    assert!(rendered.contains("Secure"));
    assert!(rendered.contains("SameSite=Lax"));
    assert!(rendered.contains("Path=/"));
    assert!(rendered.contains("Max-Age=2592000"));
    assert!(
        !rendered.contains("Domain"),
        "__Host- forbids a Domain attribute"
    );
}

/// A removal only deletes a cookie the browser considers the same cookie.
#[test]
fn removal_cookie_can_actually_delete_the_session_cookie() {
    let rendered = removal_cookie(&auth_context());

    println!("Set-Cookie: {rendered}");
    assert!(rendered.starts_with("__Host-session="));
    assert!(rendered.contains("Max-Age=0"));
    assert!(rendered.contains("HttpOnly"));
    assert!(rendered.contains("Secure"));
    assert!(rendered.contains("Path=/"));
    assert!(
        !rendered.contains("Domain"),
        "__Host- forbids a Domain attribute"
    );
}

#[test]
fn the_cookie_is_rendered_in_full() {
    assert_eq!(
        session_cookie(&auth_context(), SessionId("abc123".to_owned())).unwrap_or_default(),
        "__Host-session=abc123; HttpOnly; SameSite=Lax; Secure; Path=/; Max-Age=2592000"
    );
    assert_eq!(
        removal_cookie(&auth_context()),
        "__Host-session=; HttpOnly; SameSite=Lax; Secure; Path=/; Max-Age=0"
    );
}

#[test]
fn a_cap_too_long_for_a_cookie_age_is_an_internal_error() {
    let mut auth = auth_context();
    auth.absolute_ttl = Duration::from_secs(u64::MAX);
    assert!(matches!(
        session_cookie(&auth, SessionId("x".to_owned())),
        Err(justaskrepo::error::AppError::Internal(_))
    ));
}

#[test]
fn the_user_agent_defaults_and_is_capped() {
    assert_eq!(user_agent(None), "unknown");
    assert_eq!(user_agent(Some("curl/8.0".to_owned())), "curl/8.0");
    let long = "é".repeat(300);
    let recorded = user_agent(Some(long));
    assert_eq!(recorded.chars().count(), 256);
    assert!(recorded.chars().all(|c| c == 'é'));
}

#[test]
fn the_refresh_flag_is_forgiving() {
    let force = |refresh: Option<&str>| {
        ListParams {
            refresh: refresh.map(str::to_owned),
        }
        .force()
    };
    assert!(force(Some("1")));
    assert!(force(Some("true")));
    assert!(force(Some("")));
    assert!(!force(Some("0")));
    assert!(!force(Some("false")));
    assert!(!force(Some("yes")));
    assert!(!force(None));
}

#[test]
fn a_repository_row_carries_its_id_as_text_and_no_index_state() {
    let row = summarise(UserRepositoryResponse {
        repository_id: 9_007_199_254_740_993,
        owner_login: "octo".to_owned(),
        name: "repo".to_owned(),
        full_name: "octo/repo".to_owned(),
        is_private: true,
        default_branch: "main".to_owned(),
    });
    assert_eq!(row.repository_id, "9007199254740993");
    assert_eq!(row.full_name, "octo/repo");
    assert_eq!(row.current_index_status, NEVER_INDEXED);
    assert_eq!(row.current_index_status, "never_indexed");
    assert!(row.last_indexed_commit_sha.is_none());
    assert!(row.last_indexed_at.is_none());
    let negative = summarise(UserRepositoryResponse {
        repository_id: -42,
        owner_login: String::new(),
        name: String::new(),
        full_name: String::new(),
        is_private: false,
        default_branch: String::new(),
    });
    assert_eq!(negative.repository_id, "-42");
}
