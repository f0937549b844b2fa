//! The request-facing rules of the HTTP layer: the session cookie and its
//! removal, the recorded user agent, the repository listing's flag and
//! rows, and the identity a verified session lends a request.
use vstd::prelude::*;

use crate::clock::{nanos_per_sec, Duration};
use crate::config::SessionConfig;
use crate::error::AppError;
use crate::session::SessionResponse;
use crate::text::{decimal_i64, i64_to_decimal};
use crate::types::{GitHubId, SessionId, UserId};

use axum_extra::extract::cookie::{Cookie, SameSite};

verus! {

/// What the auth handlers need to know, without the client secret (which
/// only the token exchange ever reads).
#[derive(Debug)]
pub struct AuthContext {
    pub cookie_name: String,
    pub absolute_ttl: Duration,
    pub idle_ttl: Duration,
    pub refresh_threshold: Duration,
    pub client_id: String,
    pub redirect_uri: String,
}

impl AuthContext {
    pub fn from_config(session: &SessionConfig, client_id: &str, redirect_uri: &str) -> (a:
        AuthContext)
        ensures
            a.cookie_name@ == session.cookie_name@,
            a.absolute_ttl == session.absolute_ttl,
            a.idle_ttl == session.idle_ttl,
            a.refresh_threshold == session.refresh_threshold,
            a.client_id@ == client_id@,
            a.redirect_uri@ == redirect_uri@,
    {
        AuthContext {
            cookie_name: session.cookie_name.clone(),
            absolute_ttl: session.absolute_ttl,
            idle_ttl: session.idle_ttl,
            refresh_threshold: session.refresh_threshold,
            client_id: String::from_str(client_id),
            redirect_uri: String::from_str(redirect_uri),
        }
    }
}

/// When a browser sends a cookie along with a cross-site request.
#[derive(Clone, Copy, Debug, PartialEq, Eq, Structural)]
pub enum CookieSameSite {
    Strict,
    Lax,
    /// `SameSite=None`: always sent.
    Unrestricted,
}

pub open spec fn same_site_text(s: CookieSameSite) -> Seq<char> {
    match s {
        CookieSameSite::Strict => "Strict"@,
        CookieSameSite::Lax => "Lax"@,
        CookieSameSite::Unrestricted => "None"@,
    }
}

/// A `Set-Cookie` value as the `cookie` crate renders it: name and value,
/// then the attributes in a fixed order, the age in whole seconds, and no
/// `Domain`.
pub open spec fn spec_cookie_header(
    name: Seq<char>,
    value: Seq<char>,
    http_only: bool,
    same_site: CookieSameSite,
    secure: bool,
    path: Seq<char>,
    max_age_secs: int,
) -> Seq<char> {
    name + "="@ + value + (if http_only {
        "; HttpOnly"@
    } else {
        ""@
    }) + "; SameSite="@ + same_site_text(same_site) + (if secure {
        "; Secure"@
    } else {
        ""@
    }) + "; Path="@ + path + "; Max-Age="@ + decimal_i64(max_age_secs)
}

/// The session cookie's policy: `HttpOnly`, `Secure`, `SameSite=Lax`,
/// `Path=/` and no `Domain`, exactly what the `__Host-` prefix demands, so
/// a development setup changes the cookie's name, never these.
pub open spec fn spec_set_cookie(name: Seq<char>, value: Seq<char>, max_age_secs: int) -> Seq<char> {
    spec_cookie_header(name, value, true, CookieSameSite::Lax, true, "/"@, max_age_secs)
}

/// The session cookie carries the configured name, whatever it is: the
/// header starts with that name, `=`, and the value. So the removal cookie
/// (an empty value) names the same cookie the session cookie set.
pub proof fn lemma_cookie_bears_the_configured_name(
    name: Seq<char>,
    value: Seq<char>,
    max_age_secs: int,
)
    ensures
        spec_set_cookie(name, value, max_age_secs).take((name.len() + 1 + value.len()) as int)
            == name + "="@ + value,
        spec_set_cookie(name, Seq::<char>::empty(), 0).take((name.len() + 1) as int) == name + "="@,
{
    reveal_strlit("=");
    let head = name + "="@ + value;
    let h = spec_set_cookie(name, value, max_age_secs);
    assert(h.take(head.len() as int) =~= head);
    let empty = Seq::<char>::empty();
    let head2 = name + "="@ + empty;
    assert(head2 =~= name + "="@);
    let h2 = spec_set_cookie(name, empty, 0);
    assert(h2.take(head2.len() as int) =~= head2);
}

/// `Cookie::build((name, value))` from the `cookie` crate (as axum-extra
/// re-exports it) with `http_only`, `secure`, `same_site`, `path` and a
/// `max_age` of `time::Duration::new(secs, nanos)`, rendered with its
/// `Display`. `secure` is always set explicitly, so `Secure` is written
/// exactly when it is true. The age is never negative here:
/// `time::Duration::new` would carry a negative second count towards zero
/// when the nanoseconds are positive.
#[verifier::external_body]
fn render_cookie(
    name: &str,
    value: &str,
    http_only: bool,
    same_site: CookieSameSite,
    secure: bool,
    path: &str,
    max_age_secs: i64,
    max_age_nanos: i32,
) -> (header: String)
    requires
        max_age_secs >= 0,
        0 <= max_age_nanos < 1_000_000_000,
    ensures
        header@ == spec_cookie_header(
            name@,
            value@,
            http_only,
            same_site,
            secure,
            path@,
            max_age_secs as int,
        ),
{
    let site = match same_site {
        CookieSameSite::Strict => SameSite::Strict,
        CookieSameSite::Lax => SameSite::Lax,
        CookieSameSite::Unrestricted => SameSite::None,
    };
    Cookie::build((name.to_owned(), value.to_owned())).http_only(http_only).secure(secure)
        .same_site(site).path(path.to_owned()).max_age(
        time::Duration::new(max_age_secs, max_age_nanos),
    ).build().to_string()
}

/// `time::Duration::try_from` of `std::time::Duration::new(secs, nanos)`:
/// it succeeds exactly when the whole seconds fit an `i64`, keeping both
/// parts; otherwise its error renders as "Source value is out of range for
/// the target type".
#[verifier::external_body]
fn cookie_age(secs: u64, nanos: u32) -> (r: Result<(i64, i32), String>)
    requires
        nanos < 1_000_000_000,
    ensures
        r is Ok <==> secs <= i64::MAX,
        r matches Ok((s, n)) ==> s == secs && n == nanos,
        r matches Err(m) ==> m@ == "Source value is out of range for the target type"@,
{
    match time::Duration::try_from(std::time::Duration::new(secs, nanos)) {
        Ok(d) => Ok((d.whole_seconds(), d.subsec_nanoseconds())),
        Err(e) => Err(e.to_string()),
    }
}

/// The session cookie, living as long as the absolute cap. A cap whose
/// whole seconds exceed `i64::MAX` cannot be a cookie age and is an
/// internal error.
pub fn session_cookie(auth: &AuthContext, session_id: SessionId) -> (r: Result<String, AppError>)
    ensures
        auth.absolute_ttl@ / nanos_per_sec() <= i64::MAX <==> r is Ok,
        r matches Ok(header) ==> header@ == spec_set_cookie(
            auth.cookie_name@,
            session_id.0@,
            auth.absolute_ttl@ / nanos_per_sec(),
        ),
        r matches Err(e) ==> (e matches AppError::Internal(m) && m@
            == "Source value is out of range for the target type"@),
{
    let (secs, nanos) = match cookie_age(auth.absolute_ttl.as_secs(), auth.absolute_ttl.subsec_nanos()) {
        Ok(age) => age,
        Err(reason) => return Err(AppError::internal(reason)),
    };
    Ok(
        render_cookie(
            auth.cookie_name.as_str(),
            session_id.0.as_str(),
            true,
            CookieSameSite::Lax,
            true,
            "/",
            secs,
            nanos,
        ),
    )
}

/// The cookie that deletes the session cookie: same name, path and flags,
/// an empty value and `Max-Age=0`. A removal that differs in any of those
/// is not the same cookie to a browser, or is rejected under `__Host-`.
pub fn removal_cookie(auth: &AuthContext) -> (header: String)
    ensures
        header@ == spec_set_cookie(auth.cookie_name@, Seq::<char>::empty(), 0),
{
    proof {
        reveal_strlit("");
    }
    render_cookie(auth.cookie_name.as_str(), "", true, CookieSameSite::Lax, true, "/", 0, 0)
}

/// The longest `User-Agent` recorded with a session: it is
/// attacker-controlled and unbounded.
pub const MAX_USER_AGENT: usize = 256;

pub open spec fn spec_user_agent(header: Option<Seq<char>>) -> Seq<char> {
    let ua = match header {
        Some(v) => v,
        None => "unknown"@,
    };
    if ua.len() <= MAX_USER_AGENT {
        ua
    } else {
        ua.take(MAX_USER_AGENT as int)
    }
}

/// The `User-Agent` to record: the header's text (`None` when absent or
/// not visible ASCII), else `"unknown"`, cut to its first 256 characters.
pub fn user_agent(header: Option<String>) -> (ua: String)
    ensures
        ua@ == spec_user_agent(
            match header {
                Some(v) => Some(v@),
                None => None,
            },
        ),
{
    let text = match header {
        Some(v) => v,
        None => String::from_str("unknown"),
    };
    let len = text.as_str().unicode_len();
    if len <= MAX_USER_AGENT {
        text
    } else {
        String::from_str(text.as_str().substring_char(0, MAX_USER_AGENT))
    }
}

/// The repository listing's query.
#[derive(Debug)]
pub struct ListParams {
    pub refresh: Option<String>,
}

impl ListParams {
    /// `?refresh=1`, `?refresh=true` and a bare `?refresh` force a refresh;
    /// anything else (including `0` and `false`) does not.
    pub fn force(&self) -> (b: bool)
        ensures
            b == match self.refresh {
                Some(v) => v@ == "1"@ || v@ == "true"@ || v@ == ""@,
                None => false,
            },
    {
        match &self.refresh {
            Some(v) => {
                let s = v.as_str();
                let n = s.unicode_len();
                proof {
                    reveal_strlit("1");
                    reveal_strlit("true");
                    reveal_strlit("");
                }
                if n == 0 {
                    assert(v@ =~= ""@);
                    true
                } else if n == 1 {
                    if s.get_char(0) == '1' {
                        assert(v@ =~= "1"@);
                        true
                    } else {
                        assert(v@[0] != "1"@[0]);
                        false
                    }
                } else if n == 4 {
                    if s.get_char(0) == 't' && s.get_char(1) == 'r' && s.get_char(2) == 'u'
                        && s.get_char(3) == 'e' {
                        assert(v@ =~= "true"@);
                        true
                    } else {
                        false
                    }
                } else {
                    false
                }
            },
            None => false,
        }
    }
}

/// A repository the user can see, as the installations module lists it.
#[derive(Debug)]
pub struct UserRepositoryResponse {
    pub repository_id: i64,
    pub owner_login: String,
    pub name: String,
    pub full_name: String,
    pub is_private: bool,
    pub default_branch: String,
}

/// A dashboard row.
#[derive(Debug)]
pub struct RepoSummary {
    pub repository_id: String,
    pub owner_login: String,
    pub name: String,
    pub full_name: String,
    pub is_private: bool,
    pub default_branch: String,
    pub current_index_status: &'static str,
    pub last_indexed_commit_sha: Option<String>,
    pub last_indexed_at: Option<String>,
}

/// The index status of every repository until indexing exists.
pub const NEVER_INDEXED: &'static str = "never_indexed";

/// A repository as a dashboard row: the id as decimal text (safe in
/// JavaScript whatever its size), and nothing indexed yet.
pub fn summarise(repo: UserRepositoryResponse) -> (row: RepoSummary)
    ensures
        row.repository_id@ == decimal_i64(repo.repository_id as int),
        row.owner_login == repo.owner_login,
        row.name == repo.name,
        row.full_name == repo.full_name,
        row.is_private == repo.is_private,
        row.default_branch == repo.default_branch,
        row.current_index_status == NEVER_INDEXED,
        row.last_indexed_commit_sha is None,
        row.last_indexed_at is None,
{
    RepoSummary {
        repository_id: i64_to_decimal(repo.repository_id),
        owner_login: repo.owner_login,
        name: repo.name,
        full_name: repo.full_name,
        is_private: repo.is_private,
        default_branch: repo.default_branch,
        current_index_status: NEVER_INDEXED,
        last_indexed_commit_sha: None,
        last_indexed_at: None,
    }
}

/// The session id a request presents: the value of the session cookie, and
/// without one the request is not signed in.
pub fn presented_session(cookie_value: Option<String>) -> (r: Result<SessionId, AppError>)
    ensures
        match cookie_value {
            Some(v) => r == Ok::<SessionId, AppError>(SessionId(v)),
            None => r matches Err(AppError::Unauthorized),
        },
{
    match cookie_value {
        Some(v) => Ok(SessionId(v)),
        None => Err(AppError::Unauthorized),
    }
}

/// The identity `require_session` attaches to a request.
#[derive(Clone, Debug)]
pub struct CurrentUser {
    pub session_id: SessionId,
    pub user_id: UserId,
    pub github_id: GitHubId,
}

impl CurrentUser {
    pub fn from_session(session_id: SessionId, session: SessionResponse) -> (u: CurrentUser)
        ensures
            u.session_id == session_id,
            u.user_id == session.user_id,
            u.github_id == session.github_id,
    {
        CurrentUser { session_id, user_id: session.user_id, github_id: session.github_id }
    }
}

} // verus!
