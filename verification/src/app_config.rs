//! The whole configuration, assembled from the environment in one pass.
//!
//! Values are read in a fixed order, section by section, and the first one
//! that is missing or does not parse is the error. Only a complete
//! configuration is checked for consistency. Secrets are plain strings
//! here; the application wraps them so that they never print, and none of
//! these types can be printed either.
use vstd::prelude::*;

use crate::clock::{nanos_per_sec, Duration};
use crate::config::{
    idle_exceeds_absolute_message, insecure_host_cookie_message,
    is_secure_origin, key_loads, key_result, load_private_key, optional_or, parsed, parsed_or_u32,
    parsed_or_u8, private_key_source, public_url, rate_limit_config, refresh_not_shorter_message,
    decimal_value, required, seconds_or, session_config, session_days_convert, spec_chosen, spec_key_source,
    spec_optional, spec_parse_unsigned, validate, ConfigError, KeySource, RateLimitConfig,
    SessionConfig,
};
use crate::text::{has_prefix, trim_end_char};

verus! {

/// The environment as read: one field per variable, `None` when unset.
/// `BIND_ADDR` is not among them: parsing a socket address is the
/// caller's, which hands over its rendering or the parse error.
pub struct RawEnv {
    pub public_url: Option<String>,
    pub static_dir: Option<String>,
    pub trusted_proxy_hops: Option<String>,
    pub database_url: Option<String>,
    pub database_max_connections: Option<String>,
    pub database_acquire_timeout_secs: Option<String>,
    pub valkey_url: Option<String>,
    pub valkey_pool_size: Option<String>,
    pub qdrant_url: Option<String>,
    pub qdrant_api_key: Option<String>,
    pub qdrant_collection_prefix: Option<String>,
    pub gemini_api_key: Option<String>,
    pub gemini_chat_model: Option<String>,
    pub gemini_embedding_model: Option<String>,
    pub github_app_id: Option<String>,
    pub github_client_id: Option<String>,
    pub github_client_secret: Option<String>,
    pub github_app_private_key_b64: Option<String>,
    pub github_app_private_key_path: Option<String>,
    pub github_webhook_secret: Option<String>,
    pub session_cookie_name: Option<String>,
    pub session_absolute_ttl_days: Option<String>,
    pub session_idle_ttl_days: Option<String>,
    pub session_refresh_threshold_secs: Option<String>,
    pub auth_rate_limit_max_requests: Option<String>,
    pub auth_rate_limit_window_secs: Option<String>,
}

pub struct ServerConfig {
    /// The listening address, as its `Display` renders it.
    pub bind_addr: String,
    pub public_url: String,
    pub static_dir: String,
    pub trusted_proxy_hops: u8,
}

pub struct DatabaseConfig {
    pub url: String,
    pub max_connections: u32,
    pub acquire_timeout: Duration,
}

pub struct ValkeyConfig {
    pub url: String,
    pub pool_size: u32,
}

pub struct QdrantConfig {
    pub url: String,
    pub api_key: String,
    pub collection_prefix: String,
}

pub struct GeminiConfig {
    pub api_key: String,
    pub chat_model: String,
    pub embedding_model: String,
}

pub struct GitHubAppConfig {
    pub app_id: u64,
    pub client_id: String,
    pub client_secret: String,
    pub private_key_pem: String,
    pub webhook_secret: String,
    pub redirect_uri: String,
}

pub struct AppConfig {
    pub server: ServerConfig,
    pub database: DatabaseConfig,
    pub valkey: ValkeyConfig,
    pub qdrant: QdrantConfig,
    pub gemini: GeminiConfig,
    pub github: GitHubAppConfig,
    pub session: SessionConfig,
    pub rate_limit: RateLimitConfig,
}

/// The first thing wrong with an environment, in reading order.
pub enum FirstFailure {
    /// A required variable is unset (or blank).
    Missing(&'static str),
    /// A number does not parse, or does not fit its type.
    Unparsable(&'static str),
    /// `BIND_ADDR` is not a socket address.
    BindAddress,
    /// No private key could be had.
    PrivateKey,
    /// Every value reads, but they contradict each other.
    Inconsistent,
}

/// `e` is how `f` is reported, for the failures named by a variable alone.
pub open spec fn reports(f: FirstFailure, e: ConfigError) -> bool {
    match f {
        FirstFailure::Missing(k) => e == ConfigError::Missing(k),
        FirstFailure::Unparsable(k) => e matches ConfigError::Invalid { var, .. } && var == k,
        _ => true,
    }
}

pub open spec fn first_of(a: Option<FirstFailure>, b: Option<FirstFailure>) -> Option<
    FirstFailure,
> {
    if a is Some {
        a
    } else {
        b
    }
}

pub open spec fn is_set(raw: Option<String>) -> bool {
    spec_optional(raw) is Some
}

/// The text of a set variable.
pub open spec fn set_text(raw: Option<String>) -> Seq<char> {
    match spec_optional(raw) {
        Some(v) => v@,
        None => Seq::empty(),
    }
}

/// The number a variable with a default stands for, if it parses.
pub open spec fn number(raw: Option<String>, default: Seq<char>, max: int) -> Option<int> {
    spec_parse_unsigned(spec_chosen(raw, default), max)
}

pub open spec fn spec_public_url(raw: Option<String>) -> Seq<char> {
    trim_end_char(spec_chosen(raw, "http://localhost:3001"@), '/')
}

// ─── Server ──────────────────────────────────────────────────────────────────

pub open spec fn server_failure(bind: Result<String, String>, hops: Option<String>) -> Option<
    FirstFailure,
> {
    if bind is Err {
        Some(FirstFailure::BindAddress)
    } else if number(hops, "0"@, u8::MAX as int) is None {
        Some(FirstFailure::Unparsable("TRUSTED_PROXY_HOPS"))
    } else {
        None
    }
}

pub open spec fn server_matches(
    c: ServerConfig,
    bind: Result<String, String>,
    url: Option<String>,
    static_dir: Option<String>,
    hops: Option<String>,
) -> bool {
    &&& c.bind_addr@ == bind->Ok_0@
    &&& c.public_url@ == spec_public_url(url)
    &&& c.static_dir@ == spec_chosen(static_dir, "../frontend/out"@)
    &&& c.trusted_proxy_hops == number(hops, "0"@, u8::MAX as int)->0
}

fn server_config(
    url: Option<String>,
    bind: Result<String, String>,
    static_dir: Option<String>,
    hops: Option<String>,
) -> (r: Result<ServerConfig, ConfigError>)
    ensures
        server_failure(bind, hops) is None <==> r is Ok,
        server_failure(bind, hops) matches Some(f) ==> (r matches Err(e) && reports(f, e)),
        bind is Err ==> (r matches Err(ConfigError::Invalid { var, message }) && var == "BIND_ADDR"
            && message == bind->Err_0),
        r matches Ok(c) ==> server_matches(c, bind, url, static_dir, hops),
{
    let public_url = public_url(url);
    let bind_addr = match bind {
        Ok(a) => a,
        Err(m) => return Err(ConfigError::invalid("BIND_ADDR", m)),
    };
    let static_dir = optional_or(static_dir, "../frontend/out");
    let trusted_proxy_hops = match parsed_or_u8("TRUSTED_PROXY_HOPS", hops, "0") {
        Ok(n) => n,
        Err(e) => return Err(e),
    };
    Ok(ServerConfig { bind_addr, public_url, static_dir, trusted_proxy_hops })
}

// ─── Database and Valkey ─────────────────────────────────────────────────────

pub open spec fn database_failure(
    url: Option<String>,
    max_connections: Option<String>,
    acquire_timeout_secs: Option<String>,
) -> Option<FirstFailure> {
    if !is_set(url) {
        Some(FirstFailure::Missing("DATABASE_URL"))
    } else if number(max_connections, "10"@, u32::MAX as int) is None {
        Some(FirstFailure::Unparsable("DATABASE_MAX_CONNECTIONS"))
    } else if number(acquire_timeout_secs, "10"@, u64::MAX as int) is None {
        Some(FirstFailure::Unparsable("DATABASE_ACQUIRE_TIMEOUT_SECS"))
    } else {
        None
    }
}

pub open spec fn database_matches(
    c: DatabaseConfig,
    url: Option<String>,
    max_connections: Option<String>,
    acquire_timeout_secs: Option<String>,
) -> bool {
    &&& c.url@ == set_text(url)
    &&& c.max_connections == number(max_connections, "10"@, u32::MAX as int)->0
    &&& c.acquire_timeout@ == number(acquire_timeout_secs, "10"@, u64::MAX as int)->0
        * nanos_per_sec()
}

fn database_config(
    url: Option<String>,
    max_connections: Option<String>,
    acquire_timeout_secs: Option<String>,
) -> (r: Result<DatabaseConfig, ConfigError>)
    ensures
        database_failure(url, max_connections, acquire_timeout_secs) is None <==> r is Ok,
        database_failure(url, max_connections, acquire_timeout_secs) matches Some(f) ==> (r matches Err(e)
            && reports(f, e)),
        r matches Ok(c) ==> database_matches(c, url, max_connections, acquire_timeout_secs),
{
    let url = match required("DATABASE_URL", url) {
        Ok(v) => v,
        Err(e) => return Err(e),
    };
    let max_connections = match parsed_or_u32("DATABASE_MAX_CONNECTIONS", max_connections, "10") {
        Ok(n) => n,
        Err(e) => return Err(e),
    };
    let acquire_timeout = match seconds_or(
        "DATABASE_ACQUIRE_TIMEOUT_SECS",
        acquire_timeout_secs,
        "10",
    ) {
        Ok(d) => d,
        Err(e) => return Err(e),
    };
    Ok(DatabaseConfig { url, max_connections, acquire_timeout })
}

pub open spec fn valkey_failure(url: Option<String>, pool_size: Option<String>) -> Option<
    FirstFailure,
> {
    if !is_set(url) {
        Some(FirstFailure::Missing("VALKEY_URL"))
    } else if number(pool_size, "10"@, u32::MAX as int) is None {
        Some(FirstFailure::Unparsable("VALKEY_POOL_SIZE"))
    } else {
        None
    }
}

pub open spec fn valkey_matches(c: ValkeyConfig, url: Option<String>, pool_size: Option<String>) -> bool {
    &&& c.url@ == set_text(url)
    &&& c.pool_size == number(pool_size, "10"@, u32::MAX as int)->0
}

fn valkey_config(url: Option<String>, pool_size: Option<String>) -> (r: Result<
    ValkeyConfig,
    ConfigError,
>)
    ensures
        valkey_failure(url, pool_size) is None <==> r is Ok,
        valkey_failure(url, pool_size) matches Some(f) ==> (r matches Err(e) && reports(f, e)),
        r matches Ok(c) ==> valkey_matches(c, url, pool_size),
{
    let url = match required("VALKEY_URL", url) {
        Ok(v) => v,
        Err(e) => return Err(e),
    };
    let pool_size = match parsed_or_u32("VALKEY_POOL_SIZE", pool_size, "10") {
        Ok(n) => n,
        Err(e) => return Err(e),
    };
    Ok(ValkeyConfig { url, pool_size })
}

// ─── Qdrant and Gemini ───────────────────────────────────────────────────────

pub open spec fn qdrant_failure(url: Option<String>, api_key: Option<String>) -> Option<
    FirstFailure,
> {
    if !is_set(url) {
        Some(FirstFailure::Missing("QDRANT_URL"))
    } else if !is_set(api_key) {
        Some(FirstFailure::Missing("QDRANT_API_KEY"))
    } else {
        None
    }
}

pub open spec fn qdrant_matches(
    c: QdrantConfig,
    url: Option<String>,
    api_key: Option<String>,
    collection_prefix: Option<String>,
) -> bool {
    &&& c.url@ == set_text(url)
    &&& c.api_key@ == set_text(api_key)
    &&& c.collection_prefix@ == spec_chosen(collection_prefix, "justaskrepo"@)
}

fn qdrant_config(url: Option<String>, api_key: Option<String>, collection_prefix: Option<String>) -> (r:
    Result<QdrantConfig, ConfigError>)
    ensures
        qdrant_failure(url, api_key) is None <==> r is Ok,
        qdrant_failure(url, api_key) matches Some(f) ==> (r matches Err(e) && reports(f, e)),
        r matches Ok(c) ==> qdrant_matches(c, url, api_key, collection_prefix),
{
    let url = match required("QDRANT_URL", url) {
        Ok(v) => v,
        Err(e) => return Err(e),
    };
    let api_key = match required("QDRANT_API_KEY", api_key) {
        Ok(v) => v,
        Err(e) => return Err(e),
    };
    let collection_prefix = optional_or(collection_prefix, "justaskrepo");
    Ok(QdrantConfig { url, api_key, collection_prefix })
}

pub open spec fn gemini_failure(api_key: Option<String>) -> Option<FirstFailure> {
    if !is_set(api_key) {
        Some(FirstFailure::Missing("GEMINI_API_KEY"))
    } else {
        None
    }
}

pub open spec fn gemini_matches(
    c: GeminiConfig,
    api_key: Option<String>,
    chat_model: Option<String>,
    embedding_model: Option<String>,
) -> bool {
    &&& c.api_key@ == set_text(api_key)
    &&& c.chat_model@ == spec_chosen(chat_model, "gemini-2.5-flash"@)
    &&& c.embedding_model@ == spec_chosen(embedding_model, "gemini-embedding-001"@)
}

fn gemini_config(
    api_key: Option<String>,
    chat_model: Option<String>,
    embedding_model: Option<String>,
) -> (r: Result<GeminiConfig, ConfigError>)
    ensures
        gemini_failure(api_key) is None <==> r is Ok,
        gemini_failure(api_key) matches Some(f) ==> (r matches Err(e) && reports(f, e)),
        r matches Ok(c) ==> gemini_matches(c, api_key, chat_model, embedding_model),
{
    let api_key = match required("GEMINI_API_KEY", api_key) {
        Ok(v) => v,
        Err(e) => return Err(e),
    };
    let chat_model = optional_or(chat_model, "gemini-2.5-flash");
    let embedding_model = optional_or(embedding_model, "gemini-embedding-001");
    Ok(GeminiConfig { api_key, chat_model, embedding_model })
}

// ─── GitHub App ──────────────────────────────────────────────────────────────

pub open spec fn github_failure(
    app_id: Option<String>,
    client_id: Option<String>,
    client_secret: Option<String>,
    key: KeySource,
    key_file: Option<Result<String, String>>,
    webhook_secret: Option<String>,
) -> Option<FirstFailure> {
    if !is_set(app_id) {
        Some(FirstFailure::Missing("GITHUB_APP_ID"))
    } else if spec_parse_unsigned(set_text(app_id), u64::MAX as int) is None {
        Some(FirstFailure::Unparsable("GITHUB_APP_ID"))
    } else if !is_set(client_id) {
        Some(FirstFailure::Missing("GITHUB_CLIENT_ID"))
    } else if !is_set(client_secret) {
        Some(FirstFailure::Missing("GITHUB_CLIENT_SECRET"))
    } else if !key_loads(key, key_file) {
        Some(FirstFailure::PrivateKey)
    } else if !is_set(webhook_secret) {
        Some(FirstFailure::Missing("GITHUB_WEBHOOK_SECRET"))
    } else {
        None
    }
}

/// The OAuth callback on the listening address.
pub open spec fn spec_redirect_uri(bind_addr: Seq<char>) -> Seq<char> {
    "http://"@ + bind_addr + "/api/auth/github/callback"@
}

pub open spec fn github_matches(
    c: GitHubAppConfig,
    bind_addr: Seq<char>,
    app_id: Option<String>,
    client_id: Option<String>,
    client_secret: Option<String>,
    key: KeySource,
    key_file: Option<Result<String, String>>,
    webhook_secret: Option<String>,
) -> bool {
    &&& c.app_id == spec_parse_unsigned(set_text(app_id), u64::MAX as int)->0
    &&& c.client_id@ == set_text(client_id)
    &&& c.client_secret@ == set_text(client_secret)
    &&& key_result(key, key_file, Ok(c.private_key_pem))
    &&& c.webhook_secret@ == set_text(webhook_secret)
    &&& c.redirect_uri@ == spec_redirect_uri(bind_addr)
}

fn github_config(
    bind_addr: &str,
    app_id: Option<String>,
    client_id: Option<String>,
    client_secret: Option<String>,
    key_b64: Option<String>,
    key_path: Option<String>,
    key_file: Option<Result<String, String>>,
    webhook_secret: Option<String>,
) -> (r: Result<GitHubAppConfig, ConfigError>)
    requires
        (spec_key_source(key_b64, key_path) is File) <==> (key_file is Some),
    ensures
        ({
            let key = spec_key_source(key_b64, key_path);
            let f = github_failure(app_id, client_id, client_secret, key, key_file, webhook_secret);
            &&& f is None <==> r is Ok
            &&& f matches Some(ff) ==> (r matches Err(e) && reports(ff, e))
            &&& f == Some(FirstFailure::PrivateKey) ==> (r matches Err(e) && key_result(
                key,
                key_file,
                Err(e),
            ))
            &&& r matches Ok(c) ==> github_matches(
                c,
                bind_addr@,
                app_id,
                client_id,
                client_secret,
                key,
                key_file,
                webhook_secret,
            )
        }),
{
    let app_id = match parsed("GITHUB_APP_ID", app_id) {
        Ok(n) => n,
        Err(e) => return Err(e),
    };
    let client_id = match required("GITHUB_CLIENT_ID", client_id) {
        Ok(v) => v,
        Err(e) => return Err(e),
    };
    let client_secret = match required("GITHUB_CLIENT_SECRET", client_secret) {
        Ok(v) => v,
        Err(e) => return Err(e),
    };
    let source = private_key_source(key_b64, key_path);
    let private_key_pem = match load_private_key(source, key_file) {
        Ok(pem) => pem,
        Err(e) => return Err(e),
    };
    let webhook_secret = match required("GITHUB_WEBHOOK_SECRET", webhook_secret) {
        Ok(v) => v,
        Err(e) => return Err(e),
    };
    let mut redirect_uri = String::from_str("http://");
    redirect_uri.append(bind_addr);
    redirect_uri.append("/api/auth/github/callback");
    proof {
        reveal_strlit("http://");
        reveal_strlit("/api/auth/github/callback");
    }
    Ok(GitHubAppConfig { app_id, client_id, client_secret, private_key_pem, webhook_secret, redirect_uri })
}

// ─── Session, budget, consistency ────────────────────────────────────────────

pub open spec fn session_failure(
    absolute_ttl_days: Option<String>,
    idle_ttl_days: Option<String>,
    refresh_threshold_secs: Option<String>,
) -> Option<FirstFailure> {
    if number(absolute_ttl_days, "30"@, u64::MAX as int) is None {
        Some(FirstFailure::Unparsable("SESSION_ABSOLUTE_TTL_DAYS"))
    } else if number(idle_ttl_days, "7"@, u64::MAX as int) is None {
        Some(FirstFailure::Unparsable("SESSION_IDLE_TTL_DAYS"))
    } else if number(refresh_threshold_secs, "300"@, u64::MAX as int) is None {
        Some(FirstFailure::Unparsable("SESSION_REFRESH_THRESHOLD_SECS"))
    } else {
        None
    }
}

pub open spec fn rate_limit_failure(max_requests: Option<String>, window_secs: Option<String>) -> Option<
    FirstFailure,
> {
    if number(max_requests, "20"@, u32::MAX as int) is None {
        Some(FirstFailure::Unparsable("AUTH_RATE_LIMIT_MAX_REQUESTS"))
    } else if number(window_secs, "60"@, u64::MAX as int) is None {
        Some(FirstFailure::Unparsable("AUTH_RATE_LIMIT_WINDOW_SECS"))
    } else {
        None
    }
}

/// Nanoseconds in a day.
pub open spec fn nanos_per_day() -> int {
    86400 * nanos_per_sec()
}

/// The consistency rules over plain values (durations in nanoseconds), in
/// the order they are checked; `None` when all hold.
pub open spec fn inconsistency(
    public_url: Seq<char>,
    cookie_name: Seq<char>,
    absolute: int,
    idle: int,
    refresh: int,
) -> Option<Seq<char>> {
    if idle > absolute {
        Some(idle_exceeds_absolute_message())
    } else if refresh >= idle {
        Some(refresh_not_shorter_message())
    } else if has_prefix(cookie_name, "__Host-"@) && !is_secure_origin(public_url) {
        Some(insecure_host_cookie_message(public_url))
    } else {
        None
    }
}

/// The consistency rules applied to what the environment says.
pub open spec fn env_inconsistency(raw: RawEnv) -> Option<Seq<char>> {
    inconsistency(
        spec_public_url(raw.public_url),
        spec_chosen(raw.session_cookie_name, "__Host-session"@),
        number(raw.session_absolute_ttl_days, "30"@, u64::MAX as int)->0 * nanos_per_day(),
        number(raw.session_idle_ttl_days, "7"@, u64::MAX as int)->0 * nanos_per_day(),
        number(raw.session_refresh_threshold_secs, "300"@, u64::MAX as int)->0 * nanos_per_sec(),
    )
}

// ─── The whole ───────────────────────────────────────────────────────────────

/// Everything before the session settings.
pub open spec fn services_failure(
    raw: RawEnv,
    bind: Result<String, String>,
    key_file: Option<Result<String, String>>,
) -> Option<FirstFailure> {
    first_of(
        server_failure(bind, raw.trusted_proxy_hops),
        first_of(
            database_failure(
                raw.database_url,
                raw.database_max_connections,
                raw.database_acquire_timeout_secs,
            ),
            first_of(
                valkey_failure(raw.valkey_url, raw.valkey_pool_size),
                first_of(
                    qdrant_failure(raw.qdrant_url, raw.qdrant_api_key),
                    first_of(
                        gemini_failure(raw.gemini_api_key),
                        github_failure(
                            raw.github_app_id,
                            raw.github_client_id,
                            raw.github_client_secret,
                            spec_key_source(
                                raw.github_app_private_key_b64,
                                raw.github_app_private_key_path,
                            ),
                            key_file,
                            raw.github_webhook_secret,
                        ),
                    ),
                ),
            ),
        ),
    )
}

/// The first thing wrong with the environment, `None` when nothing is.
pub open spec fn first_failure(
    raw: RawEnv,
    bind: Result<String, String>,
    key_file: Option<Result<String, String>>,
) -> Option<FirstFailure> {
    first_of(
        services_failure(raw, bind, key_file),
        first_of(
            session_failure(
                raw.session_absolute_ttl_days,
                raw.session_idle_ttl_days,
                raw.session_refresh_threshold_secs,
            ),
            first_of(
                rate_limit_failure(raw.auth_rate_limit_max_requests, raw.auth_rate_limit_window_secs),
                if env_inconsistency(raw) is Some {
                    Some(FirstFailure::Inconsistent)
                } else {
                    None
                },
            ),
        ),
    )
}

/// The sections before the session settings hold exactly what the
/// environment says.
pub open spec fn services_match(
    s: Services,
    raw: RawEnv,
    bind: Result<String, String>,
    key_file: Option<Result<String, String>>,
) -> bool {
    &&& server_matches(s.server, bind, raw.public_url, raw.static_dir, raw.trusted_proxy_hops)
    &&& database_matches(
        s.database,
        raw.database_url,
        raw.database_max_connections,
        raw.database_acquire_timeout_secs,
    )
    &&& valkey_matches(s.valkey, raw.valkey_url, raw.valkey_pool_size)
    &&& qdrant_matches(s.qdrant, raw.qdrant_url, raw.qdrant_api_key, raw.qdrant_collection_prefix)
    &&& gemini_matches(
        s.gemini,
        raw.gemini_api_key,
        raw.gemini_chat_model,
        raw.gemini_embedding_model,
    )
    &&& github_matches(
        s.github,
        bind->Ok_0@,
        raw.github_app_id,
        raw.github_client_id,
        raw.github_client_secret,
        spec_key_source(raw.github_app_private_key_b64, raw.github_app_private_key_path),
        key_file,
        raw.github_webhook_secret,
    )
}

/// A complete configuration holds exactly what the environment says.
pub open spec fn config_matches(
    c: AppConfig,
    raw: RawEnv,
    bind: Result<String, String>,
    key_file: Option<Result<String, String>>,
) -> bool {
    &&& services_match(
        Services {
            server: c.server,
            database: c.database,
            valkey: c.valkey,
            qdrant: c.qdrant,
            gemini: c.gemini,
            github: c.github,
        },
        raw,
        bind,
        key_file,
    )
    &&& c.session.cookie_name@ == spec_chosen(raw.session_cookie_name, "__Host-session"@)
    &&& c.session.absolute_ttl@ == number(raw.session_absolute_ttl_days, "30"@, u64::MAX as int)->0
        * nanos_per_day()
    &&& c.session.idle_ttl@ == number(raw.session_idle_ttl_days, "7"@, u64::MAX as int)->0
        * nanos_per_day()
    &&& c.session.refresh_threshold@ == number(
        raw.session_refresh_threshold_secs,
        "300"@,
        u64::MAX as int,
    )->0 * nanos_per_sec()
    &&& c.rate_limit.auth_max_requests == number(
        raw.auth_rate_limit_max_requests,
        "20"@,
        u32::MAX as int,
    )->0
    &&& c.rate_limit.auth_window@ == number(raw.auth_rate_limit_window_secs, "60"@, u64::MAX as int)->0
        * nanos_per_sec()
}

/// What reading the environment answers: the first failure, reported as
/// its variable says, or the configuration the environment describes.
pub open spec fn env_outcome(
    raw: RawEnv,
    bind: Result<String, String>,
    key_file: Option<Result<String, String>>,
    r: Result<AppConfig, ConfigError>,
) -> bool {
    let f = first_failure(raw, bind, key_file);
    let key = spec_key_source(raw.github_app_private_key_b64, raw.github_app_private_key_path);
    &&& f is None <==> r is Ok
    &&& f matches Some(ff) ==> (r matches Err(e) && reports(ff, e))
    &&& f == Some(FirstFailure::BindAddress) ==> (r matches Err(ConfigError::Invalid { var, message })
        && var == "BIND_ADDR" && message == bind->Err_0)
    &&& f == Some(FirstFailure::PrivateKey) ==> (r matches Err(e) && key_result(key, key_file, Err(e)))
    &&& f == Some(FirstFailure::Inconsistent) ==> (r matches Err(ConfigError::Inconsistent(m))
        && env_inconsistency(raw) == Some(m@))
    &&& r matches Ok(c) ==> config_matches(c, raw, bind, key_file)
}

/// The promise an accepted configuration keeps: the idle timeout fires
/// before the absolute cap, a refresh comes before the idle timeout, and a
/// `__Host-` cookie is only ever set from a secure origin.
pub open spec fn is_consistent(c: AppConfig) -> bool {
    &&& c.session.idle_ttl@ <= c.session.absolute_ttl@
    &&& c.session.refresh_threshold@ < c.session.idle_ttl@
    &&& has_prefix(c.session.cookie_name@, "__Host-"@) ==> (has_prefix(
        c.server.public_url@,
        "https://"@,
    ) || has_prefix(c.server.public_url@, "http://localhost"@) || has_prefix(
        c.server.public_url@,
        "http://127.0.0.1"@,
    ))
}

/// The sections before the session settings.
pub struct Services {
    pub server: ServerConfig,
    pub database: DatabaseConfig,
    pub valkey: ValkeyConfig,
    pub qdrant: QdrantConfig,
    pub gemini: GeminiConfig,
    pub github: GitHubAppConfig,
}

/// The variables read after the services.
struct LaterEnv {
    session_cookie_name: Option<String>,
    session_absolute_ttl_days: Option<String>,
    session_idle_ttl_days: Option<String>,
    session_refresh_threshold_secs: Option<String>,
    auth_rate_limit_max_requests: Option<String>,
    auth_rate_limit_window_secs: Option<String>,
}

fn read_services(
    raw: RawEnv,
    bind: Result<String, String>,
    key_file: Option<Result<String, String>>,
) -> (r: Result<(Services, LaterEnv), ConfigError>)
    requires
        (spec_key_source(raw.github_app_private_key_b64, raw.github_app_private_key_path) is File)
            <==> (key_file is Some),
    ensures
        ({
            let f = services_failure(raw, bind, key_file);
            let key = spec_key_source(raw.github_app_private_key_b64, raw.github_app_private_key_path);
            &&& f is None <==> r is Ok
            &&& f matches Some(ff) ==> (r matches Err(e) && reports(ff, e))
            &&& f == Some(FirstFailure::BindAddress) ==> (r matches Err(
                ConfigError::Invalid { var, message },
            ) && var == "BIND_ADDR" && message == bind->Err_0)
            &&& f == Some(FirstFailure::PrivateKey) ==> (r matches Err(e) && key_result(
                key,
                key_file,
                Err(e),
            ))
            &&& r matches Ok((s, later)) ==> {
                &&& services_match(s, raw, bind, key_file)
                &&& later.session_cookie_name == raw.session_cookie_name
                &&& later.session_absolute_ttl_days == raw.session_absolute_ttl_days
                &&& later.session_idle_ttl_days == raw.session_idle_ttl_days
                &&& later.session_refresh_threshold_secs == raw.session_refresh_threshold_secs
                &&& later.auth_rate_limit_max_requests == raw.auth_rate_limit_max_requests
                &&& later.auth_rate_limit_window_secs == raw.auth_rate_limit_window_secs
            }
        }),
{
    let RawEnv {
        public_url,
        static_dir,
        trusted_proxy_hops,
        database_url,
        database_max_connections,
        database_acquire_timeout_secs,
        valkey_url,
        valkey_pool_size,
        qdrant_url,
        qdrant_api_key,
        qdrant_collection_prefix,
        gemini_api_key,
        gemini_chat_model,
        gemini_embedding_model,
        github_app_id,
        github_client_id,
        github_client_secret,
        github_app_private_key_b64,
        github_app_private_key_path,
        github_webhook_secret,
        session_cookie_name,
        session_absolute_ttl_days,
        session_idle_ttl_days,
        session_refresh_threshold_secs,
        auth_rate_limit_max_requests,
        auth_rate_limit_window_secs,
    } = raw;
    let server = match server_config(public_url, bind, static_dir, trusted_proxy_hops) {
        Ok(c) => c,
        Err(e) => return Err(e),
    };
    let database = match database_config(
        database_url,
        database_max_connections,
        database_acquire_timeout_secs,
    ) {
        Ok(c) => c,
        Err(e) => return Err(e),
    };
    let valkey = match valkey_config(valkey_url, valkey_pool_size) {
        Ok(c) => c,
        Err(e) => return Err(e),
    };
    let qdrant = match qdrant_config(qdrant_url, qdrant_api_key, qdrant_collection_prefix) {
        Ok(c) => c,
        Err(e) => return Err(e),
    };
    let gemini = match gemini_config(gemini_api_key, gemini_chat_model, gemini_embedding_model) {
        Ok(c) => c,
        Err(e) => return Err(e),
    };
    let github = match github_config(
        server.bind_addr.as_str(),
        github_app_id,
        github_client_id,
        github_client_secret,
        github_app_private_key_b64,
        github_app_private_key_path,
        key_file,
        github_webhook_secret,
    ) {
        Ok(c) => c,
        Err(e) => return Err(e),
    };
    let later = LaterEnv {
        session_cookie_name,
        session_absolute_ttl_days,
        session_idle_ttl_days,
        session_refresh_threshold_secs,
        auth_rate_limit_max_requests,
        auth_rate_limit_window_secs,
    };
    Ok((Services { server, database, valkey, qdrant, gemini, github }, later))
}

impl AppConfig {
    /// Reads the whole configuration. `bind` is the rendering of the
    /// parsed `BIND_ADDR` (default `0.0.0.0:8080`), or the description of
    /// why it does not parse; `key_file` is what reading
    /// `GITHUB_APP_PRIVATE_KEY_PATH` gave, when that is where the key comes
    /// from. The first value that is missing or unparsable is the error;
    /// a complete configuration must then be consistent. The session's day
    /// counts are converted to seconds once every earlier section has
    /// read, and must not overflow there.
    pub fn from_env(
        raw: RawEnv,
        bind: Result<String, String>,
        key_file: Option<Result<String, String>>,
    ) -> (r: Result<AppConfig, ConfigError>)
        requires
            (spec_key_source(raw.github_app_private_key_b64, raw.github_app_private_key_path) is File)
                <==> (key_file is Some),
            services_failure(raw, bind, key_file) is None ==> session_days_convert(
                raw.session_absolute_ttl_days,
                raw.session_idle_ttl_days,
            ),
        ensures
            env_outcome(raw, bind, key_file, r),
            r matches Ok(c) ==> is_consistent(c),
    {
        let (services, later) = match read_services(raw, bind, key_file) {
            Ok(read) => read,
            Err(e) => return Err(e),
        };
        let session = match session_config(
            later.session_cookie_name,
            later.session_absolute_ttl_days,
            later.session_idle_ttl_days,
            later.session_refresh_threshold_secs,
        ) {
            Ok(c) => c,
            Err(e) => return Err(e),
        };
        let rate_limit = match rate_limit_config(
            later.auth_rate_limit_max_requests,
            later.auth_rate_limit_window_secs,
        ) {
            Ok(c) => c,
            Err(e) => return Err(e),
        };
        match validate(services.server.public_url.as_str(), &session) {
            Ok(()) => {},
            Err(e) => return Err(e),
        }
        let Services { server, database, valkey, qdrant, gemini, github } = services;
        Ok(AppConfig { server, database, valkey, qdrant, gemini, github, session, rate_limit })
    }

    /// `from_env` wherever it is defined: `None` exactly when every section
    /// before the session settings reads but a session day count is too
    /// large to convert to seconds.
    pub fn checked_from_env(
        raw: RawEnv,
        bind: Result<String, String>,
        key_file: Option<Result<String, String>>,
    ) -> (r: Option<Result<AppConfig, ConfigError>>)
        requires
            (spec_key_source(raw.github_app_private_key_b64, raw.github_app_private_key_path) is File)
                <==> (key_file is Some),
        ensures
            r is None <==> (services_failure(raw, bind, key_file) is None && !session_days_convert(
                raw.session_absolute_ttl_days,
                raw.session_idle_ttl_days,
            )),
            r matches Some(outcome) ==> env_outcome(raw, bind, key_file, outcome),
            r matches Some(Ok(c)) ==> is_consistent(c),
    {
        if session_days_fit(&raw.session_absolute_ttl_days, &raw.session_idle_ttl_days) {
            return Some(AppConfig::from_env(raw, bind, key_file));
        }
        match read_services(raw, bind, key_file) {
            Ok(_) => None,
            Err(e) => Some(Err(e)),
        }
    }
}

/// The day count a variable stands for, if it parses.
fn day_count(key: &'static str, raw: &Option<String>, default: &str) -> (n: Option<u64>)
    ensures
        n matches Some(d) ==> spec_parse_unsigned(spec_chosen(*raw, default@), u64::MAX as int)
            == Some(d as int),
        n is None ==> spec_parse_unsigned(spec_chosen(*raw, default@), u64::MAX as int) is None,
{
    let copy: Option<String> = match raw {
        Some(v) => Some(v.clone()),
        None => None,
    };
    match crate::config::parsed_or(key, copy, default) {
        Ok(d) => Some(d),
        Err(_) => None,
    }
}

/// Whether the session's day counts convert to seconds wherever they are
/// converted.
pub fn session_days_fit(absolute_ttl_days: &Option<String>, idle_ttl_days: &Option<String>) -> (b:
    bool)
    ensures
        b == session_days_convert(*absolute_ttl_days, *idle_ttl_days),
{
    let per_day: u64 = 86400;
    match day_count("SESSION_ABSOLUTE_TTL_DAYS", absolute_ttl_days, "30") {
        None => true,
        Some(absolute) => {
            if absolute > u64::MAX / per_day {
                proof {
                    assert(absolute * 86400 > u64::MAX) by (nonlinear_arith)
                        requires
                            absolute > u64::MAX / 86400,
                    ;
                }
                return false;
            }
            proof {
                assert(absolute * 86400 <= u64::MAX) by (nonlinear_arith)
                    requires
                        absolute <= u64::MAX / 86400,
                ;
            }
            match day_count("SESSION_IDLE_TTL_DAYS", idle_ttl_days, "7") {
                None => true,
                Some(idle) => {
                    proof {
                        assert(idle <= u64::MAX / 86400 <==> idle * 86400 <= u64::MAX)
                            by (nonlinear_arith);
                    }
                    idle <= u64::MAX / per_day
                },
            }
        },
    }
}

/// The number a variable stands for in a configuration that loads: the
/// value it is set to, or `default` when it is unset or blank.
pub open spec fn set_or(raw: Option<String>, default: int, max: int) -> int {
    match spec_optional(raw) {
        Some(v) => spec_parse_unsigned(v@, max)->0,
        None => default,
    }
}

/// The text of a variable that is set.
pub open spec fn value_of(raw: Option<String>) -> Seq<char> {
    spec_optional(raw)->0@
}

proof fn lemma_one_digit(a: char)
    ensures
        decimal_value(seq![a]) == a as int - '0' as int,
{
    assert(seq![a].drop_last() =~= Seq::<char>::empty());
    assert(decimal_value(Seq::<char>::empty()) == 0);
    assert(seq![a].last() == a);
}

proof fn lemma_two_digits(a: char, b: char)
    ensures
        decimal_value(seq![a, b]) == (a as int - '0' as int) * 10 + (b as int - '0' as int),
{
    lemma_one_digit(a);
    assert(seq![a, b].drop_last() =~= seq![a]);
    assert(seq![a, b].last() == b);
}

proof fn lemma_three_digits(a: char, b: char, c: char)
    ensures
        decimal_value(seq![a, b, c]) == ((a as int - '0' as int) * 10 + (b as int - '0' as int))
            * 10 + (c as int - '0' as int),
{
    lemma_two_digits(a, b);
    assert(seq![a, b, c].drop_last() =~= seq![a, b]);
    assert(seq![a, b, c].last() == c);
}

/// A variable with a default stands for its own value when set, and for
/// the default's value otherwise.
proof fn lemma_number_is_set_or(raw: Option<String>, text: Seq<char>, default: int, max: int)
    requires
        spec_parse_unsigned(text, max) == Some(default),
        number(raw, text, max) is Some,
    ensures
        number(raw, text, max)->0 == set_or(raw, default, max),
{
}

proof fn lemma_defaults_parse()
    ensures
        spec_parse_unsigned("0"@, u8::MAX as int) == Some(0int),
        spec_parse_unsigned("10"@, u32::MAX as int) == Some(10int),
        spec_parse_unsigned("10"@, u64::MAX as int) == Some(10int),
        spec_parse_unsigned("30"@, u64::MAX as int) == Some(30int),
        spec_parse_unsigned("7"@, u64::MAX as int) == Some(7int),
        spec_parse_unsigned("300"@, u64::MAX as int) == Some(300int),
        spec_parse_unsigned("20"@, u32::MAX as int) == Some(20int),
        spec_parse_unsigned("60"@, u64::MAX as int) == Some(60int),
{
    reveal_strlit("0");
    reveal_strlit("10");
    reveal_strlit("30");
    reveal_strlit("7");
    reveal_strlit("300");
    reveal_strlit("20");
    reveal_strlit("60");
    lemma_one_digit('0');
    lemma_one_digit('7');
    lemma_two_digits('1', '0');
    lemma_two_digits('3', '0');
    lemma_two_digits('2', '0');
    lemma_two_digits('6', '0');
    lemma_three_digits('3', '0', '0');
    assert("0"@ =~= seq!['0']);
    assert("7"@ =~= seq!['7']);
    assert("10"@ =~= seq!['1', '0']);
    assert("30"@ =~= seq!['3', '0']);
    assert("20"@ =~= seq!['2', '0']);
    assert("60"@ =~= seq!['6', '0']);
    assert("300"@ =~= seq!['3', '0', '0']);
}

/// A configuration that loads holds what the environment says, field by
/// field: each required variable's own text, each number the value its
/// variable is set to (or its default when unset or blank), in the unit the
/// variable names.
pub proof fn lemma_loaded_config_reads_the_environment(
    raw: RawEnv,
    bind: Result<String, String>,
    key_file: Option<Result<String, String>>,
    c: AppConfig,
)
    requires
        env_outcome(raw, bind, key_file, Ok(c)),
    ensures
        c.server.bind_addr@ == bind->Ok_0@,
        c.server.public_url@ == trim_end_char(
            spec_chosen(raw.public_url, "http://localhost:3001"@),
            '/',
        ),
        c.server.static_dir@ == spec_chosen(raw.static_dir, "../frontend/out"@),
        c.qdrant.collection_prefix@ == spec_chosen(raw.qdrant_collection_prefix, "justaskrepo"@),
        c.gemini.chat_model@ == spec_chosen(raw.gemini_chat_model, "gemini-2.5-flash"@),
        c.gemini.embedding_model@ == spec_chosen(
            raw.gemini_embedding_model,
            "gemini-embedding-001"@,
        ),
        c.session.cookie_name@ == spec_chosen(raw.session_cookie_name, "__Host-session"@),
        c.server.trusted_proxy_hops == set_or(raw.trusted_proxy_hops, 0, u8::MAX as int),
        c.database.url@ == value_of(raw.database_url),
        c.database.max_connections == set_or(raw.database_max_connections, 10, u32::MAX as int),
        c.database.acquire_timeout@ == set_or(
            raw.database_acquire_timeout_secs,
            10,
            u64::MAX as int,
        ) * 1_000_000_000,
        c.valkey.url@ == value_of(raw.valkey_url),
        c.valkey.pool_size == set_or(raw.valkey_pool_size, 10, u32::MAX as int),
        c.qdrant.url@ == value_of(raw.qdrant_url),
        c.qdrant.api_key@ == value_of(raw.qdrant_api_key),
        c.gemini.api_key@ == value_of(raw.gemini_api_key),
        c.github.app_id == spec_parse_unsigned(value_of(raw.github_app_id), u64::MAX as int)->0,
        c.github.client_id@ == value_of(raw.github_client_id),
        c.github.client_secret@ == value_of(raw.github_client_secret),
        c.github.webhook_secret@ == value_of(raw.github_webhook_secret),
        c.github.redirect_uri@ == "http://"@ + bind->Ok_0@ + "/api/auth/github/callback"@,
        c.session.absolute_ttl@ == set_or(raw.session_absolute_ttl_days, 30, u64::MAX as int)
            * 86_400_000_000_000,
        c.session.idle_ttl@ == set_or(raw.session_idle_ttl_days, 7, u64::MAX as int)
            * 86_400_000_000_000,
        c.session.refresh_threshold@ == set_or(
            raw.session_refresh_threshold_secs,
            300,
            u64::MAX as int,
        ) * 1_000_000_000,
        c.rate_limit.auth_max_requests == set_or(
            raw.auth_rate_limit_max_requests,
            20,
            u32::MAX as int,
        ),
        c.rate_limit.auth_window@ == set_or(raw.auth_rate_limit_window_secs, 60, u64::MAX as int)
            * 1_000_000_000,
{
    lemma_defaults_parse();
    lemma_number_is_set_or(raw.trusted_proxy_hops, "0"@, 0, u8::MAX as int);
    lemma_number_is_set_or(raw.database_max_connections, "10"@, 10, u32::MAX as int);
    lemma_number_is_set_or(raw.database_acquire_timeout_secs, "10"@, 10, u64::MAX as int);
    lemma_number_is_set_or(raw.valkey_pool_size, "10"@, 10, u32::MAX as int);
    lemma_number_is_set_or(raw.session_absolute_ttl_days, "30"@, 30, u64::MAX as int);
    lemma_number_is_set_or(raw.session_idle_ttl_days, "7"@, 7, u64::MAX as int);
    lemma_number_is_set_or(raw.session_refresh_threshold_secs, "300"@, 300, u64::MAX as int);
    lemma_number_is_set_or(raw.auth_rate_limit_max_requests, "20"@, 20, u32::MAX as int);
    lemma_number_is_set_or(raw.auth_rate_limit_window_secs, "60"@, 60, u64::MAX as int);
}

} // verus!
