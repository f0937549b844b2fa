use justaskrepo::clock::Duration;
use justaskrepo::config::{
    days_or, load_private_key, optional, parsed, parsed_or, parsed_or_u32, parsed_or_u8,
    private_key_source, public_url, rate_limit_config, required, seconds_or, session_config,
    validate, ConfigError, KeySource, SessionConfig,
};

fn some(text: &str) -> Option<String> {
    Some(text.to_owned())
}

fn session(cookie: &str, absolute_days: u64, idle_days: u64, refresh_secs: u64) -> SessionConfig {
    SessionConfig {
        cookie_name: cookie.to_owned(),
        absolute_ttl: Duration::from_secs(absolute_days * 86_400),
        idle_ttl: Duration::from_secs(idle_days * 86_400),
        refresh_threshold: Duration::from_secs(refresh_secs),
    }
}

#[test]
fn a_blank_variable_counts_as_unset() {
    assert_eq!(optional(None), None);
    assert_eq!(optional(some("")), None);
    assert_eq!(optional(some(" \t\n")), None);
    assert_eq!(optional(some(" value ")), some(" value "));
    assert!(matches!(required("KEY", some("  ")), Err(ConfigError::Missing("KEY"))));
    assert_eq!(required("KEY", some("x")).ok(), some("x"));
}

#[test]
fn numbers_parse_as_rust_does() {
    assert_eq!(parsed("N", some("42")).ok(), Some(42));
    assert_eq!(parsed("N", some("+7")).ok(), Some(7));
    assert!(matches!(parsed("N", None), Err(ConfigError::Missing("N"))));
    for bad in ["-1", " 1", "1 ", "1_000", "0x10", "+", "18446744073709551616"] {
        match parsed("N", some(bad)) {
            Err(ConfigError::Invalid { var, message }) => {
                assert_eq!(var, "N");
                assert!(message.contains(&format!("{bad:?}")), "{message}");
            }
            other => panic!("{bad:?} parsed as {other:?}"),
        }
    }
    assert_eq!(parsed_or("N", None, "10").ok(), Some(10));
    assert_eq!(parsed_or("N", some("  "), "10").ok(), Some(10));
    assert_eq!(parsed_or_u32("N", some("4294967295"), "1").ok(), Some(u32::MAX));
    assert!(parsed_or_u32("N", some("4294967296"), "1").is_err());
    assert_eq!(parsed_or_u8("N", None, "0").ok(), Some(0));
    assert!(parsed_or_u8("N", some("256"), "0").is_err());
}

#[test]
fn durations_come_in_seconds_and_days() {
    assert_eq!(seconds_or("S", None, "300").ok(), Some(Duration::from_secs(300)));
    assert_eq!(days_or("D", some("2"), "30").ok(), Some(Duration::from_secs(172_800)));
    assert!(matches!(days_or("D", some("x"), "30"), Err(ConfigError::Invalid { var: "D", .. })));
}

#[test]
fn the_public_url_defaults_and_loses_trailing_slashes() {
    assert_eq!(public_url(None), "http://localhost:3001");
    assert_eq!(public_url(some("https://example.com//")), "https://example.com");
    assert_eq!(public_url(some("https://example.com/app")), "https://example.com/app");
}

#[test]
fn the_session_settings_have_defaults() {
    let config = match session_config(None, None, None, None) {
        Ok(config) => config,
        Err(error) => panic!("defaults are valid: {error:?}"),
    };
    assert_eq!(config.cookie_name, "__Host-session");
    assert_eq!(config.absolute_ttl, Duration::from_secs(30 * 86_400));
    assert_eq!(config.idle_ttl, Duration::from_secs(7 * 86_400));
    assert_eq!(config.refresh_threshold, Duration::from_secs(300));
    assert!(validate("http://localhost:3001", &config).is_ok());
    assert!(matches!(
        session_config(None, some("x"), some("y"), None),
        Err(ConfigError::Invalid { var: "SESSION_ABSOLUTE_TTL_DAYS", .. })
    ));
    assert!(matches!(
        session_config(None, None, some("y"), some("z")),
        Err(ConfigError::Invalid { var: "SESSION_IDLE_TTL_DAYS", .. })
    ));
    assert!(matches!(
        session_config(None, None, None, some("z")),
        Err(ConfigError::Invalid { var: "SESSION_REFRESH_THRESHOLD_SECS", .. })
    ));
}

#[test]
fn an_idle_timeout_past_the_cap_is_inconsistent() {
    match validate("https://example.com", &session("s", 7, 30, 300)) {
        Err(ConfigError::Inconsistent(message)) => assert_eq!(
            message,
            "SESSION_IDLE_TTL_DAYS exceeds SESSION_ABSOLUTE_TTL_DAYS; the idle timeout would never fire"
        ),
        other => panic!("{other:?}"),
    }
    assert!(validate("https://example.com", &session("s", 7, 7, 300)).is_ok());
}

#[test]
fn a_refresh_threshold_at_or_past_the_idle_timeout_is_inconsistent() {
    match validate("https://example.com", &session("s", 30, 1, 86_400)) {
        Err(ConfigError::Inconsistent(message)) => assert!(message.starts_with(
            "SESSION_REFRESH_THRESHOLD_SECS is not shorter than the idle TTL"
        )),
        other => panic!("{other:?}"),
    }
}

#[test]
fn a_host_cookie_needs_a_secure_origin() {
    for secure in ["https://example.com", "http://localhost:3001", "http://127.0.0.1:8080"] {
        assert!(validate(secure, &session("__Host-session", 30, 7, 300)).is_ok());
    }
    match validate("http://example.com", &session("__Host-session", 30, 7, 300)) {
        Err(ConfigError::Inconsistent(message)) => assert_eq!(
            message,
            "SESSION_COOKIE_NAME uses the __Host- prefix, which requires a secure origin, but \
             PUBLIC_URL is http://example.com. Use https, or set a plain cookie name for this \
             environment."
        ),
        other => panic!("{other:?}"),
    }
    assert!(validate("http://example.com", &session("session", 30, 7, 300)).is_ok());
}

#[test]
fn the_sign_in_budget_has_defaults() {
    let config = match rate_limit_config(None, None) {
        Ok(config) => config,
        Err(error) => panic!("{error:?}"),
    };
    assert_eq!(config.auth_max_requests, 20);
    assert_eq!(config.auth_window, Duration::from_secs(60));
    assert!(matches!(
        rate_limit_config(some("-3"), None),
        Err(ConfigError::Invalid { var: "AUTH_RATE_LIMIT_MAX_REQUESTS", .. })
    ));
}

#[test]
fn an_inline_private_key_wins_and_must_be_base64_utf8() {
    // "-----BEGIN KEY-----" in standard base64, surrounded by whitespace.
    let source = private_key_source(some("  LS0tLS1CRUdJTiBLRVktLS0tLQ==\n"), some("/key.pem"));
    assert!(matches!(source, KeySource::Encoded(_)));
    assert_eq!(load_private_key(source, None).ok(), some("-----BEGIN KEY-----"));

    match load_private_key(KeySource::Encoded("not base64!".to_owned()), None) {
        Err(ConfigError::Invalid { var, message }) => {
            assert_eq!(var, "GITHUB_APP_PRIVATE_KEY_B64");
            assert!(message.starts_with("not valid base64: "));
        }
        other => panic!("{other:?}"),
    }
    // 0xff 0xfe is valid base64 but not UTF-8.
    match load_private_key(KeySource::Encoded("//4=".to_owned()), None) {
        Err(ConfigError::Invalid { var, message }) => {
            assert_eq!(var, "GITHUB_APP_PRIVATE_KEY_B64");
            assert_eq!(message, "decoded bytes are not UTF-8");
        }
        other => panic!("{other:?}"),
    }
}

#[test]
fn a_key_file_is_read_as_is_and_one_source_is_required() {
    let source = private_key_source(some(" "), some("/etc/key.pem"));
    assert!(matches!(&source, KeySource::File(path) if path == "/etc/key.pem"));
    assert_eq!(
        load_private_key(source, Some(Ok("PEM".to_owned()))).ok(),
        some("PEM")
    );
    match load_private_key(
        KeySource::File("/etc/key.pem".to_owned()),
        Some(Err("No such file or directory".to_owned())),
    ) {
        Err(ConfigError::Invalid { var, message }) => {
            assert_eq!(var, "GITHUB_APP_PRIVATE_KEY_PATH");
            assert_eq!(message, "cannot read /etc/key.pem: No such file or directory");
        }
        other => panic!("{other:?}"),
    }
    let missing = private_key_source(None, some(""));
    assert!(matches!(missing, KeySource::Missing));
    assert!(matches!(
        load_private_key(missing, None),
        Err(ConfigError::Missing("GITHUB_APP_PRIVATE_KEY_B64 or GITHUB_APP_PRIVATE_KEY_PATH"))
    ));
}

#[test]
fn an_unparsable_number_reports_the_parse_error_and_the_value_read() {
    match parsed_or("DATABASE_MAX_CONNECTIONS", Some("ten".to_owned()), "10") {
        Err(ConfigError::Invalid { var, message }) => {
            assert_eq!(var, "DATABASE_MAX_CONNECTIONS");
            assert_eq!(message, "invalid digit found in string (got \"ten\")");
        }
        other => panic!("{other:?}"),
    }
    match parsed_or_u8("TRUSTED_PROXY_HOPS", Some("256".to_owned()), "0") {
        Err(ConfigError::Invalid { message, .. }) => {
            assert_eq!(message, "number too large to fit in target type (got \"256\")")
        }
        other => panic!("{other:?}"),
    }
    match parsed("GITHUB_APP_ID", Some("\"1\"\t".to_owned())) {
        Err(ConfigError::Invalid { message, .. }) => {
            assert_eq!(message, "invalid digit found in string (got \"\\\"1\\\"\\t\")")
        }
        other => panic!("{other:?}"),
    }
}

#[test]
fn an_inline_key_that_is_not_base64_reports_the_decoder_s_error() {
    match load_private_key(KeySource::Encoded(" ab$d\n".to_owned()), None) {
        Err(ConfigError::Invalid { var, message }) => {
            assert_eq!(var, "GITHUB_APP_PRIVATE_KEY_B64");
            assert_eq!(message, "not valid base64: Invalid symbol 36, offset 2.");
        }
        other => panic!("{other:?}"),
    }
}
