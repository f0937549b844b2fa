//! Configuration rules: which environment values are required, how they
//! are parsed, the defaults, and the consistency checks that must hold
//! before the server starts. Reading the environment itself is the
//! application's job; every function here takes the raw value it read
//! (`None` when the variable is unset).
use vstd::prelude::*;
use vstd::utf8::{
    decode_utf8, encode_utf8, encode_utf8_decode_utf8, encode_utf8_valid_utf8, valid_utf8,
};

use crate::clock::{nanos_per_sec, Duration};
use crate::encoding::{
    base64_decode_error, base64_encode, base64_standard_decode, lemma_padded_encoding_is_injective, string_from_utf8,
};
use crate::encoding::base64_char;
use crate::text::{
    has_prefix, is_blank, is_blank_str, is_whitespace, lemma_trim_end_take, lemma_trim_start_skip,
    trim_end, trim_start, starts_with, trim, trim_end_char, trim_end_matches,
    trim_str,
};

verus! {

#[derive(Debug)]
pub enum ConfigError {
    Missing(&'static str),
    Invalid { var: &'static str, message: String },
    Inconsistent(String),
}

impl ConfigError {
    pub fn invalid(var: &'static str, message: String) -> (e: ConfigError)
        ensures
            e == (ConfigError::Invalid { var, message }),
    {
        ConfigError::Invalid { var, message }
    }
}

/// The session-cookie and lifetime settings.
#[derive(Debug)]
pub struct SessionConfig {
    pub cookie_name: String,
    pub absolute_ttl: Duration,
    pub idle_ttl: Duration,
    pub refresh_threshold: Duration,
}

/// The budget of the sign-in endpoints.
#[derive(Clone, Copy, Debug)]
pub struct RateLimitConfig {
    pub auth_max_requests: u32,
    pub auth_window: Duration,
}

pub open spec fn is_ascii_digit(c: char) -> bool {
    '0' <= c && c <= '9'
}

/// The value of a string of decimal digits.
pub open spec fn decimal_value(digits: Seq<char>) -> int
    decreases digits.len(),
{
    if digits.len() == 0 {
        0
    } else {
        decimal_value(digits.drop_last()) * 10 + (digits.last() as int - '0' as int)
    }
}

/// `str::parse` for an unsigned integer type whose largest value is `max`:
/// an optional `+` followed by one or more ASCII digits, with no whitespace
/// anywhere, denoting a value no larger than `max`.
pub open spec fn spec_parse_unsigned(text: Seq<char>, max: int) -> Option<int> {
    let digits = if text.len() > 0 && text[0] == '+' {
        text.drop_first()
    } else {
        text
    };
    if digits.len() > 0 && (forall|i: int| 0 <= i < digits.len() ==> is_ascii_digit(digits[i]))
        && decimal_value(digits) <= max {
        Some(decimal_value(digits))
    } else {
        None
    }
}

/// The text of the error `<u64 as FromStr>::from_str` answers `text` with.
pub uninterp spec fn u64_parse_error(text: Seq<char>) -> Seq<char>;

/// The text of the error `<u32 as FromStr>::from_str` answers `text` with.
pub uninterp spec fn u32_parse_error(text: Seq<char>) -> Seq<char>;

/// The text of the error `<u8 as FromStr>::from_str` answers `text` with.
pub uninterp spec fn u8_parse_error(text: Seq<char>) -> Seq<char>;

/// `text` as `str`'s `Debug` renders it: quoted, with escapes.
pub uninterp spec fn str_debug(text: Seq<char>) -> Seq<char>;

/// `<u64 as FromStr>::from_str`: the number when `text` is one, else the
/// error's `Display` text.
#[verifier::external_body]
fn parse_u64(text: &str) -> (r: Result<u64, String>)
    ensures
        r matches Ok(n) ==> spec_parse_unsigned(text@, u64::MAX as int) == Some(n as int),
        r is Err ==> spec_parse_unsigned(text@, u64::MAX as int) is None,
        r matches Err(m) ==> m@ == u64_parse_error(text@),
{
    text.parse::<u64>().map_err(|e| e.to_string())
}

/// `<u32 as FromStr>::from_str`, as `parse_u64`.
#[verifier::external_body]
fn parse_u32(text: &str) -> (r: Result<u32, String>)
    ensures
        r matches Ok(n) ==> spec_parse_unsigned(text@, u32::MAX as int) == Some(n as int),
        r is Err ==> spec_parse_unsigned(text@, u32::MAX as int) is None,
        r matches Err(m) ==> m@ == u32_parse_error(text@),
{
    text.parse::<u32>().map_err(|e| e.to_string())
}

/// `<u8 as FromStr>::from_str`, as `parse_u64`.
#[verifier::external_body]
fn parse_u8(text: &str) -> (r: Result<u8, String>)
    ensures
        r matches Ok(n) ==> spec_parse_unsigned(text@, u8::MAX as int) == Some(n as int),
        r is Err ==> spec_parse_unsigned(text@, u8::MAX as int) is None,
        r matches Err(m) ==> m@ == u8_parse_error(text@),
{
    text.parse::<u8>().map_err(|e| e.to_string())
}

/// `format!("{text:?}")`: `str`'s `Debug` rendering.
#[verifier::external_body]
fn debug_str(text: &str) -> (d: String)
    ensures
        d@ == str_debug(text@),
{
    format!("{text:?}")
}

/// How an unparsable number is reported: the parse error, then the value
/// that was read.
pub open spec fn parse_message(reason: Seq<char>, text: Seq<char>) -> Seq<char> {
    reason + " (got "@ + str_debug(text) + ")"@
}

/// The error for `key` whose value `text` did not parse, with `reason`.
fn unparsable(key: &'static str, text: &str, reason: String) -> (e: ConfigError)
    ensures
        e matches ConfigError::Invalid { var, message } && var == key && message@ == parse_message(
            reason@,
            text@,
        ),
{
    let mut message = reason;
    message.append(" (got ");
    let shown = debug_str(text);
    message.append(shown.as_str());
    message.append(")");
    proof {
        reveal_strlit(" (got ");
        reveal_strlit(")");
    }
    ConfigError::invalid(key, message)
}

/// A variable counts as set only when it holds something besides
/// whitespace; the value itself is kept untrimmed.
pub open spec fn spec_optional(raw: Option<String>) -> Option<String> {
    match raw {
        Some(v) => if is_blank(v@) {
            None
        } else {
            Some(v)
        },
        None => None,
    }
}

/// The value a variable with a default stands for.
pub open spec fn spec_chosen(raw: Option<String>, default: Seq<char>) -> Seq<char> {
    match spec_optional(raw) {
        Some(v) => v@,
        None => default,
    }
}

/// A number parsed from a variable with a default, or the variable's
/// `Invalid` error.
pub open spec fn parsed_outcome(
    r: Result<int, ConfigError>,
    key: &'static str,
    text: Seq<char>,
    max: int,
    reason: Seq<char>,
) -> bool {
    match spec_parse_unsigned(text, max) {
        Some(n) => r == Ok::<int, ConfigError>(n),
        None => r matches Err(ConfigError::Invalid { var, message }) && var == key && message@
            == parse_message(reason, text),
    }
}

pub fn optional(raw: Option<String>) -> (r: Option<String>)
    ensures
        r == spec_optional(raw),
{
    match raw {
        Some(v) => if is_blank_str(v.as_str()) {
            None
        } else {
            Some(v)
        },
        None => None,
    }
}

/// A variable that must be set.
pub fn required(key: &'static str, raw: Option<String>) -> (r: Result<String, ConfigError>)
    ensures
        match spec_optional(raw) {
            Some(v) => r == Ok::<String, ConfigError>(v),
            None => r == Err::<String, ConfigError>(ConfigError::Missing(key)),
        },
{
    match optional(raw) {
        Some(v) => Ok(v),
        None => Err(ConfigError::Missing(key)),
    }
}

/// A variable with a default.
pub fn optional_or(raw: Option<String>, default: &str) -> (v: String)
    ensures
        v@ == spec_chosen(raw, default@),
{
    match optional(raw) {
        Some(v) => v,
        None => String::from_str(default),
    }
}

/// A required unsigned number.
pub fn parsed(key: &'static str, raw: Option<String>) -> (r: Result<u64, ConfigError>)
    ensures
        match spec_optional(raw) {
            None => r == Err::<u64, ConfigError>(ConfigError::Missing(key)),
            Some(v) => parsed_outcome(
                match r {
                    Ok(n) => Ok(n as int),
                    Err(e) => Err(e),
                },
                key,
                v@,
                u64::MAX as int,
                u64_parse_error(v@),
            ),
        },
{
    let text = match required(key, raw) {
        Ok(t) => t,
        Err(e) => return Err(e),
    };
    match parse_u64(text.as_str()) {
        Ok(n) => Ok(n),
        Err(reason) => Err(unparsable(key, text.as_str(), reason)),
    }
}

/// An unsigned number with a default.
pub fn parsed_or(key: &'static str, raw: Option<String>, default: &str) -> (r: Result<
    u64,
    ConfigError,
>)
    ensures
        parsed_outcome(
            match r {
                Ok(n) => Ok(n as int),
                Err(e) => Err(e),
            },
            key,
            spec_chosen(raw, default@),
            u64::MAX as int,
            u64_parse_error(spec_chosen(raw, default@)),
        ),
{
    let text = optional_or(raw, default);
    match parse_u64(text.as_str()) {
        Ok(n) => Ok(n),
        Err(reason) => Err(unparsable(key, text.as_str(), reason)),
    }
}

/// A 32-bit unsigned number with a default.
pub fn parsed_or_u32(key: &'static str, raw: Option<String>, default: &str) -> (r: Result<
    u32,
    ConfigError,
>)
    ensures
        parsed_outcome(
            match r {
                Ok(n) => Ok(n as int),
                Err(e) => Err(e),
            },
            key,
            spec_chosen(raw, default@),
            u32::MAX as int,
            u32_parse_error(spec_chosen(raw, default@)),
        ),
{
    let text = optional_or(raw, default);
    match parse_u32(text.as_str()) {
        Ok(n) => Ok(n),
        Err(reason) => Err(unparsable(key, text.as_str(), reason)),
    }
}

/// An 8-bit unsigned number with a default.
pub fn parsed_or_u8(key: &'static str, raw: Option<String>, default: &str) -> (r: Result<
    u8,
    ConfigError,
>)
    ensures
        parsed_outcome(
            match r {
                Ok(n) => Ok(n as int),
                Err(e) => Err(e),
            },
            key,
            spec_chosen(raw, default@),
            u8::MAX as int,
            u8_parse_error(spec_chosen(raw, default@)),
        ),
{
    let text = optional_or(raw, default);
    match parse_u8(text.as_str()) {
        Ok(n) => Ok(n),
        Err(reason) => Err(unparsable(key, text.as_str(), reason)),
    }
}

/// A duration parsed from a variable with a default, in units of
/// `unit_nanos` nanoseconds, or the variable's `Invalid` error.
pub open spec fn duration_outcome(
    r: Result<Duration, ConfigError>,
    key: &'static str,
    text: Seq<char>,
    unit_nanos: int,
) -> bool {
    match spec_parse_unsigned(text, u64::MAX as int) {
        Some(n) => r matches Ok(d) && d@ == n * unit_nanos,
        None => r matches Err(ConfigError::Invalid { var, message }) && var == key && message@
            == parse_message(u64_parse_error(text), text),
    }
}

/// A duration given in whole seconds, with a default.
pub fn seconds_or(key: &'static str, raw: Option<String>, default: &str) -> (r: Result<
    Duration,
    ConfigError,
>)
    ensures
        duration_outcome(r, key, spec_chosen(raw, default@), nanos_per_sec()),
{
    let secs = match parsed_or(key, raw, default) {
        Ok(n) => n,
        Err(e) => return Err(e),
    };
    Ok(Duration::from_secs(secs))
}

/// Whether a day count read from a variable converts to seconds without
/// overflowing (the conversion panics where it would).
pub open spec fn days_fit(raw: Option<String>, default: Seq<char>) -> bool {
    spec_parse_unsigned(spec_chosen(raw, default), u64::MAX as int) matches Some(days) ==> days
        * 86400 <= u64::MAX
}

/// A duration given in whole days, with a default.
pub fn days_or(key: &'static str, raw: Option<String>, default: &str) -> (r: Result<
    Duration,
    ConfigError,
>)
    requires
        days_fit(raw, default@),
    ensures
        duration_outcome(r, key, spec_chosen(raw, default@), 86400 * nanos_per_sec()),
{
    let days = match parsed_or(key, raw, default) {
        Ok(n) => n,
        Err(e) => return Err(e),
    };
    let secs: u64 = days * 86400;
    let d = Duration::from_secs(secs);
    proof {
        assert(secs * 1_000_000_000 == days * 86_400_000_000_000) by (nonlinear_arith)
            requires
                secs == days * 86400,
        ;
    }
    Ok(d)
}

/// `PUBLIC_URL`, defaulting to the local dev origin, without trailing
/// slashes.
pub fn public_url(raw: Option<String>) -> (url: String)
    ensures
        url@ == trim_end_char(spec_chosen(raw, "http://localhost:3001"@), '/'),
{
    let chosen = optional_or(raw, "http://localhost:3001");
    String::from_str(trim_end_matches(chosen.as_str(), '/'))
}

/// The session's day counts convert to seconds wherever they are
/// converted: the idle count is only converted once the absolute count has
/// parsed.
pub open spec fn session_days_convert(absolute_ttl_days: Option<String>, idle_ttl_days: Option<
    String,
>) -> bool {
    &&& days_fit(absolute_ttl_days, "30"@)
    &&& spec_parse_unsigned(spec_chosen(absolute_ttl_days, "30"@), u64::MAX as int) is Some
        ==> days_fit(idle_ttl_days, "7"@)
}

/// The session settings, read in order (cookie name, absolute TTL, idle
/// TTL, refresh threshold); the first unparsable one is the error.
pub fn session_config(
    cookie_name: Option<String>,
    absolute_ttl_days: Option<String>,
    idle_ttl_days: Option<String>,
    refresh_threshold_secs: Option<String>,
) -> (r: Result<SessionConfig, ConfigError>)
    requires
        session_days_convert(absolute_ttl_days, idle_ttl_days),
    ensures
        ({
            let absolute = spec_parse_unsigned(
                spec_chosen(absolute_ttl_days, "30"@),
                u64::MAX as int,
            );
            let idle = spec_parse_unsigned(spec_chosen(idle_ttl_days, "7"@), u64::MAX as int);
            let refresh = spec_parse_unsigned(
                spec_chosen(refresh_threshold_secs, "300"@),
                u64::MAX as int,
            );
            &&& r is Ok <==> (absolute is Some && idle is Some && refresh is Some)
            &&& r matches Ok(c) ==> {
                &&& c.cookie_name@ == spec_chosen(cookie_name, "__Host-session"@)
                &&& c.absolute_ttl@ == absolute->0 * (86400 * nanos_per_sec())
                &&& c.idle_ttl@ == idle->0 * (86400 * nanos_per_sec())
                &&& c.refresh_threshold@ == refresh->0 * nanos_per_sec()
            }
            &&& absolute is None ==> (r matches Err(ConfigError::Invalid { var, .. }) && var
                == "SESSION_ABSOLUTE_TTL_DAYS")
            &&& absolute is Some && idle is None ==> (r matches Err(
                ConfigError::Invalid { var, .. },
            ) && var == "SESSION_IDLE_TTL_DAYS")
            &&& absolute is Some && idle is Some && refresh is None ==> (r matches Err(
                ConfigError::Invalid { var, .. },
            ) && var == "SESSION_REFRESH_THRESHOLD_SECS")
        }),
{
    let cookie_name = optional_or(cookie_name, "__Host-session");
    let absolute_ttl = match days_or("SESSION_ABSOLUTE_TTL_DAYS", absolute_ttl_days, "30") {
        Ok(d) => d,
        Err(e) => return Err(e),
    };
    let idle_ttl = match days_or("SESSION_IDLE_TTL_DAYS", idle_ttl_days, "7") {
        Ok(d) => d,
        Err(e) => return Err(e),
    };
    let refresh_threshold = match seconds_or(
        "SESSION_REFRESH_THRESHOLD_SECS",
        refresh_threshold_secs,
        "300",
    ) {
        Ok(d) => d,
        Err(e) => return Err(e),
    };
    Ok(SessionConfig { cookie_name, absolute_ttl, idle_ttl, refresh_threshold })
}

pub open spec fn idle_exceeds_absolute_message() -> Seq<char> {
    "SESSION_IDLE_TTL_DAYS exceeds SESSION_ABSOLUTE_TTL_DAYS; the idle timeout would never fire"@
}

pub open spec fn refresh_not_shorter_message() -> Seq<char> {
    "SESSION_REFRESH_THRESHOLD_SECS is not shorter than the idle TTL; sessions would expire before they are ever refreshed"@
}

pub open spec fn insecure_host_cookie_message(public_url: Seq<char>) -> Seq<char> {
    "SESSION_COOKIE_NAME uses the __Host- prefix, which requires a secure origin, but PUBLIC_URL is "@
        + public_url
        + ". Use https, or set a plain cookie name for this environment."@
}

/// An origin a `Secure` cookie can be set from: https, or plain http on
/// the loopback host, which browsers treat as secure.
pub open spec fn is_secure_origin(url: Seq<char>) -> bool {
    has_prefix(url, "https://"@) || has_prefix(url, "http://localhost"@) || has_prefix(
        url,
        "http://127.0.0.1"@,
    )
}

/// Plain http is a secure origin only on the loopback host: any other
/// `http://` URL (a LAN address, a public host) is not, and every `https://`
/// URL is.
pub proof fn lemma_only_loopback_http_is_secure(url: Seq<char>)
    ensures
        has_prefix(url, "http://"@) && !has_prefix(url, "http://localhost"@) && !has_prefix(
            url,
            "http://127.0.0.1"@,
        ) ==> !is_secure_origin(url),
        has_prefix(url, "https://"@) ==> is_secure_origin(url),
{
    reveal_strlit("http://");
    reveal_strlit("https://");
    if has_prefix(url, "http://"@) && has_prefix(url, "https://"@) {
        assert(url.subrange(0, 7)[4] == "http://"@[4]);
        assert(url.subrange(0, 8)[4] == "https://"@[4]);
        assert(url.subrange(0, 7)[4] == url[4]);
        assert(url.subrange(0, 8)[4] == url[4]);
        assert(false);
    }
}

/// The consistency rules, checked in order: the idle timeout must fire
/// before the absolute cap, a refresh must come before the idle timeout,
/// and a `__Host-` cookie needs a secure origin.
pub fn validate(public_url: &str, session: &SessionConfig) -> (r: Result<(), ConfigError>)
    ensures
        session.idle_ttl@ > session.absolute_ttl@ ==> (r matches Err(ConfigError::Inconsistent(m))
            && m@ == idle_exceeds_absolute_message()),
        session.idle_ttl@ <= session.absolute_ttl@ && session.refresh_threshold@
            >= session.idle_ttl@ ==> (r matches Err(ConfigError::Inconsistent(m)) && m@
            == refresh_not_shorter_message()),
        session.idle_ttl@ <= session.absolute_ttl@ && session.refresh_threshold@
            < session.idle_ttl@ ==> {
            if has_prefix(session.cookie_name@, "__Host-"@) && !(has_prefix(public_url@, "https://"@)
                || has_prefix(public_url@, "http://localhost"@) || has_prefix(
                public_url@,
                "http://127.0.0.1"@,
            )) {
                r matches Err(ConfigError::Inconsistent(m)) && m@ == insecure_host_cookie_message(
                    public_url@,
                )
            } else {
                r is Ok
            }
        },
{
    if session.absolute_ttl.lt(&session.idle_ttl) {
        return Err(
            ConfigError::Inconsistent(
                String::from_str(
                    "SESSION_IDLE_TTL_DAYS exceeds SESSION_ABSOLUTE_TTL_DAYS; the idle timeout would never fire",
                ),
            ),
        );
    }
    if !session.refresh_threshold.lt(&session.idle_ttl) {
        return Err(
            ConfigError::Inconsistent(
                String::from_str(
                    "SESSION_REFRESH_THRESHOLD_SECS is not shorter than the idle TTL; sessions would expire before they are ever refreshed",
                ),
            ),
        );
    }
    let secure_origin = starts_with(public_url, "https://") || starts_with(
        public_url,
        "http://localhost",
    ) || starts_with(public_url, "http://127.0.0.1");
    if starts_with(session.cookie_name.as_str(), "__Host-") && !secure_origin {
        let mut message = String::from_str(
            "SESSION_COOKIE_NAME uses the __Host- prefix, which requires a secure origin, but PUBLIC_URL is ",
        );
        message.append(public_url);
        message.append(". Use https, or set a plain cookie name for this environment.");
        return Err(ConfigError::Inconsistent(message));
    }
    Ok(())
}

/// The sign-in budget: `AUTH_RATE_LIMIT_MAX_REQUESTS` requests (default 20)
/// per `AUTH_RATE_LIMIT_WINDOW_SECS` seconds (default 60).
pub fn rate_limit_config(max_requests: Option<String>, window_secs: Option<String>) -> (r: Result<
    RateLimitConfig,
    ConfigError,
>)
    ensures
        ({
            let max = spec_parse_unsigned(spec_chosen(max_requests, "20"@), u32::MAX as int);
            let window = spec_parse_unsigned(spec_chosen(window_secs, "60"@), u64::MAX as int);
            &&& r is Ok <==> (max is Some && window is Some)
            &&& r matches Ok(c) ==> c.auth_max_requests == max->0 && c.auth_window@ == window->0
                * nanos_per_sec()
            &&& max is None ==> (r matches Err(ConfigError::Invalid { var, .. }) && var
                == "AUTH_RATE_LIMIT_MAX_REQUESTS")
            &&& max is Some && window is None ==> (r matches Err(ConfigError::Invalid { var, .. })
                && var == "AUTH_RATE_LIMIT_WINDOW_SECS")
        }),
{
    let auth_max_requests = match parsed_or_u32("AUTH_RATE_LIMIT_MAX_REQUESTS", max_requests, "20") {
        Ok(n) => n,
        Err(e) => return Err(e),
    };
    let auth_window = match seconds_or("AUTH_RATE_LIMIT_WINDOW_SECS", window_secs, "60") {
        Ok(d) => d,
        Err(e) => return Err(e),
    };
    Ok(RateLimitConfig { auth_max_requests, auth_window })
}

/// Where the GitHub App's private key comes from: inline base64 wins over a
/// file path, and one of the two is required.
#[derive(Debug)]
pub enum KeySource {
    Encoded(String),
    File(String),
    Missing,
}

pub open spec fn spec_key_source(encoded: Option<String>, path: Option<String>) -> KeySource {
    match spec_optional(encoded) {
        Some(e) => KeySource::Encoded(e),
        None => match spec_optional(path) {
            Some(p) => KeySource::File(p),
            None => KeySource::Missing,
        },
    }
}

pub fn private_key_source(encoded: Option<String>, path: Option<String>) -> (s: KeySource)
    ensures
        s == spec_key_source(encoded, path),
{
    match optional(encoded) {
        Some(e) => KeySource::Encoded(e),
        None => match optional(path) {
            Some(p) => KeySource::File(p),
            None => KeySource::Missing,
        },
    }
}

pub open spec fn not_base64_prefix() -> Seq<char> {
    "not valid base64: "@
}

pub open spec fn not_utf8_message() -> Seq<char> {
    "decoded bytes are not UTF-8"@
}

pub open spec fn missing_key_variables() -> Seq<char> {
    "GITHUB_APP_PRIVATE_KEY_B64 or GITHUB_APP_PRIVATE_KEY_PATH"@
}

/// Whether a private key can be had from `source`: an inline key must be
/// the base64 of UTF-8 text, and a key file must have been read.
pub open spec fn key_loads(source: KeySource, file_contents: Option<Result<String, String>>) -> bool {
    match source {
        KeySource::Encoded(e) => exists|bytes: Seq<u8>|
            base64_encode(bytes, false, true) == trim(e@) && valid_utf8(bytes),
        KeySource::File(_) => file_contents matches Some(Ok(_)),
        KeySource::Missing => false,
    }
}

/// What loading the private key from `source` answers: the PEM text, or
/// the error naming the variable at fault.
pub open spec fn key_result(
    source: KeySource,
    file_contents: Option<Result<String, String>>,
    r: Result<String, ConfigError>,
) -> bool {
    match source {
        KeySource::Encoded(e) => {
            let text = trim(e@);
            &&& (forall|bytes: Seq<u8>| base64_encode(bytes, false, true) != text) ==> (r matches Err(
                ConfigError::Invalid { var, message },
            ) && var == "GITHUB_APP_PRIVATE_KEY_B64" && message@ == not_base64_prefix()
                + base64_decode_error(text))
            &&& forall|bytes: Seq<u8>|
                base64_encode(bytes, false, true) == text ==> if valid_utf8(bytes) {
                    r matches Ok(pem) && pem@ == decode_utf8(bytes)
                } else {
                    r matches Err(ConfigError::Invalid { var, message }) && var
                        == "GITHUB_APP_PRIVATE_KEY_B64" && message@ == not_utf8_message()
                }
        },
        KeySource::File(path) => match file_contents {
            Some(Ok(pem)) => r == Ok::<String, ConfigError>(pem),
            Some(Err(reason)) => r matches Err(ConfigError::Invalid { var, message }) && var
                == "GITHUB_APP_PRIVATE_KEY_PATH" && message@ == "cannot read "@ + path@ + ": "@
                + reason@,
            None => false,
        },
        KeySource::Missing => r == Err::<String, ConfigError>(
            ConfigError::Missing("GITHUB_APP_PRIVATE_KEY_B64 or GITHUB_APP_PRIVATE_KEY_PATH"),
        ),
    }
}

/// The PEM text of the private key. An inline key is trimmed, base64
/// decoded and must be UTF-8; a key file's contents (read by the caller,
/// `Err` holding the read error's description) are taken as they are.
pub fn load_private_key(source: KeySource, file_contents: Option<Result<String, String>>) -> (r:
    Result<String, ConfigError>)
    requires
        (source is File) <==> (file_contents is Some),
    ensures
        key_result(source, file_contents, r),
        r is Ok <==> key_loads(source, file_contents),
{
    match source {
        KeySource::Encoded(encoded) => {
            let bytes = match base64_standard_decode(trim_str(encoded.as_str())) {
                Ok(bytes) => bytes,
                Err(reason) => {
                    let mut message = String::from_str("not valid base64: ");
                    message.append(reason.as_str());
                    proof {
                        reveal_strlit("not valid base64: ");
                    }
                    return Err(ConfigError::invalid("GITHUB_APP_PRIVATE_KEY_B64", message));
                },
            };
            let ghost decoded = bytes@;
            proof {
                assert forall|other: Seq<u8>| base64_encode(other, false, true)
                    == base64_encode(decoded, false, true) implies other == decoded by {
                    lemma_padded_encoding_is_injective(other, decoded, false);
                }
            }
            match string_from_utf8(bytes) {
                Some(pem) => {
                    proof {
                        assert(base64_encode(decoded, false, true) == trim(encoded@) && valid_utf8(
                            decoded,
                        ));
                    }
                    Ok(pem)
                },
                None => {
                    Err(
                        ConfigError::invalid(
                            "GITHUB_APP_PRIVATE_KEY_B64",
                            String::from_str("decoded bytes are not UTF-8"),
                        ),
                    )
                },
            }
        },
        KeySource::File(path) => match file_contents {
            Some(Ok(pem)) => Ok(pem),
            Some(Err(reason)) => {
                let mut message = String::from_str("cannot read ");
                message.append(path.as_str());
                message.append(": ");
                message.append(reason.as_str());
                Err(ConfigError::invalid("GITHUB_APP_PRIVATE_KEY_PATH", message))
            },
            None => Err(ConfigError::Missing("GITHUB_APP_PRIVATE_KEY_PATH")),
        },
        KeySource::Missing => Err(
            ConfigError::Missing("GITHUB_APP_PRIVATE_KEY_B64 or GITHUB_APP_PRIVATE_KEY_PATH"),
        ),
    }
}


proof fn lemma_base64_char_not_whitespace(v: int, url_safe: bool)
    requires
        0 <= v < 64,
    ensures
        !is_whitespace(base64_char(v, url_safe)),
{
}

/// Base64 holds no whitespace, and is empty only for no bytes.
proof fn lemma_base64_has_no_whitespace(bytes: Seq<u8>, url_safe: bool, padded: bool)
    ensures
        bytes.len() > 0 ==> base64_encode(bytes, url_safe, padded).len() > 0,
        forall|i: int|
            0 <= i < base64_encode(bytes, url_safe, padded).len() ==> !is_whitespace(
                #[trigger] base64_encode(bytes, url_safe, padded)[i],
            ),
    decreases bytes.len(),
{
    if bytes.len() == 0 {
    } else if bytes.len() == 1 {
        let b0 = bytes[0] as int;
        lemma_base64_char_not_whitespace(b0 / 4, url_safe);
        lemma_base64_char_not_whitespace((b0 % 4) * 16, url_safe);
    } else if bytes.len() == 2 {
        let b0 = bytes[0] as int;
        let b1 = bytes[1] as int;
        lemma_base64_char_not_whitespace(b0 / 4, url_safe);
        lemma_base64_char_not_whitespace((b0 % 4) * 16 + b1 / 16, url_safe);
        lemma_base64_char_not_whitespace((b1 % 16) * 4, url_safe);
    } else {
        let b0 = bytes[0] as int;
        let b1 = bytes[1] as int;
        let b2 = bytes[2] as int;
        lemma_base64_char_not_whitespace(b0 / 4, url_safe);
        lemma_base64_char_not_whitespace((b0 % 4) * 16 + b1 / 16, url_safe);
        lemma_base64_char_not_whitespace((b1 % 16) * 4 + b2 / 64, url_safe);
        lemma_base64_char_not_whitespace(b2 % 64, url_safe);
        lemma_base64_has_no_whitespace(bytes.skip(3), url_safe, padded);
        let head = seq![
            base64_char(b0 / 4, url_safe),
            base64_char((b0 % 4) * 16 + b1 / 16, url_safe),
            base64_char((b1 % 16) * 4 + b2 / 64, url_safe),
            base64_char(b2 % 64, url_safe),
        ];
        let tail = base64_encode(bytes.skip(3), url_safe, padded);
        assert forall|i: int|
            0 <= i < base64_encode(bytes, url_safe, padded).len() implies !is_whitespace(
            #[trigger] base64_encode(bytes, url_safe, padded)[i],
        ) by {
            if i >= 4 {
                assert(base64_encode(bytes, url_safe, padded)[i] == tail[i - 4]);
            } else {
                assert(base64_encode(bytes, url_safe, padded)[i] == head[i]);
            }
        }
    }
}

/// Trimming strips exactly the whitespace around a text that neither
/// starts nor ends with whitespace.
proof fn lemma_trim_around(before: Seq<char>, t: Seq<char>, after: Seq<char>)
    requires
        is_blank(before),
        is_blank(after),
        t.len() > 0,
        !is_whitespace(t[0]),
        !is_whitespace(t.last()),
    ensures
        trim(before + t + after) == t,
{
    let s = before + t + after;
    assert forall|k: int| 0 <= k < before.len() implies is_whitespace(#[trigger] s[k]) by {
        assert(s[k] == before[k]);
    }
    lemma_trim_start_skip(s, before.len() as int);
    assert(s.skip(before.len() as int) =~= t + after);
    assert(trim_start(t + after) == t + after);
    let u = t + after;
    assert forall|k: int| t.len() <= k < u.len() implies is_whitespace(#[trigger] u[k]) by {
        assert(u[k] == after[k - t.len()]);
    }
    lemma_trim_end_take(u, t.len() as int);
    assert(u.take(t.len() as int) =~= t);
    assert(trim_end(t) == t);
}

/// A key given inline loads as exactly the text that was encoded, whatever
/// whitespace surrounds its base64; the path variable is then not
/// consulted.
pub proof fn lemma_inline_key_round_trip(
    pem: Seq<char>,
    before: Seq<char>,
    after: Seq<char>,
    encoded: Option<String>,
    path: Option<String>,
    file_contents: Option<Result<String, String>>,
    r: Result<String, ConfigError>,
)
    requires
        pem.len() > 0,
        is_blank(before),
        is_blank(after),
        encoded matches Some(e) && e@ == before + base64_encode(encode_utf8(pem), false, true)
            + after,
        key_result(spec_key_source(encoded, path), file_contents, r),
    ensures
        spec_key_source(encoded, path) == KeySource::Encoded(encoded->0),
        r matches Ok(k) && k@ == pem,
{
    let e = encoded->0;
    let bytes = encode_utf8(pem);
    let t = base64_encode(bytes, false, true);
    assert(bytes.len() > 0) by {
        reveal_with_fuel(encode_utf8, 2);
    }
    lemma_base64_has_no_whitespace(bytes, false, true);
    assert(!is_whitespace(t[0]));
    assert(!is_whitespace(t[t.len() - 1]));
    lemma_trim_around(before, t, after);
    assert(e@[before.len() as int] == t[0]);
    assert(!is_blank(e@));
    encode_utf8_valid_utf8(pem);
    encode_utf8_decode_utf8(pem);
}

} // verus!
