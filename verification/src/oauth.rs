//! The GitHub OAuth handshake: the single-use `state`, the authorize URL,
//! and what each GitHub answer means for the sign-in.
use vstd::prelude::*;

use crate::error::AppError;
use crate::types::GitHubId;

verus! {

/// How long an issued `state` stays redeemable.
pub const OAUTH_STATE_TTL_SECS: u64 = 600;

pub open spec fn spec_oauth_state_key(state: Seq<char>) -> Seq<char> {
    "oauth_state:"@ + state
}

pub fn oauth_state_key(state: &str) -> (key: String)
    ensures
        key@ == spec_oauth_state_key(state@),
{
    let mut key = String::from_str("oauth_state:");
    key.append(state);
    key
}

/// The callback's `state` verifies when `GETDEL` found it: the check and the
/// consumption are one operation, so no state verifies twice.
pub fn state_verdict(found: bool) -> (r: Result<(), AppError>)
    ensures
        found <==> r is Ok,
        !found ==> r matches Err(AppError::Unauthorized),
{
    if found {
        Ok(())
    } else {
        Err(AppError::Unauthorized)
    }
}

/// The issued, unredeemed states.
pub open spec fn issue_state(issued: Set<Seq<char>>, state: Seq<char>) -> Set<Seq<char>> {
    issued.insert(state)
}

/// Redeeming a state: whether it was issued, and what remains issued.
pub open spec fn redeem_state(issued: Set<Seq<char>>, state: Seq<char>) -> (bool, Set<Seq<char>>) {
    (issued.contains(state), issued.remove(state))
}

/// A state verifies once and its replay is rejected; a state that was
/// never issued is rejected.
pub proof fn lemma_state_is_single_use(issued: Set<Seq<char>>, state: Seq<char>)
    ensures
        redeem_state(issue_state(issued, state), state).0,
        !redeem_state(redeem_state(issue_state(issued, state), state).1, state).0,
        !issued.contains(state) ==> !redeem_state(issued, state).0,
{
}

/// Where GitHub's sign-in screen lives.
pub open spec fn spec_authorize_endpoint() -> Seq<char> {
    "https://github.com/login/oauth/authorize"@
}

/// The URL `base` with the query pairs `(k1, v1)`, `(k2, v2)`, `(k3, v3)`
/// appended in that order, form-urlencoded, as the `url` crate serializes
/// it.
pub uninterp spec fn url_with_query(
    base: Seq<char>,
    k1: Seq<char>,
    v1: Seq<char>,
    k2: Seq<char>,
    v2: Seq<char>,
    k3: Seq<char>,
    v3: Seq<char>,
) -> Seq<char>;

/// `url::Url::parse(base)`, then `query_pairs_mut().append_pair(k, v)` for
/// the three pairs in order, then the URL's serialization. The only base
/// handed in is the authorize endpoint, an absolute `https` URL that the
/// parser accepts, so the answer is always `Ok`; a parse error would be
/// handed back as its description.
#[verifier::external_body]
fn url_with_pairs(base: &str, k1: &str, v1: &str, k2: &str, v2: &str, k3: &str, v3: &str) -> (r:
    Result<String, String>)
    requires
        base@ == spec_authorize_endpoint(),
    ensures
        r is Ok,
        r matches Ok(url) ==> url@ == url_with_query(base@, k1@, v1@, k2@, v2@, k3@, v3@),
{
    let mut url = match url::Url::parse(base) {
        Ok(url) => url,
        Err(e) => return Err(e.to_string()),
    };
    url.query_pairs_mut().append_pair(k1, v1).append_pair(k2, v2).append_pair(k3, v3);
    Ok(url.into())
}

/// The sign-in URL: the authorize endpoint with `client_id`,
/// `redirect_uri` and `state`, in that order.
pub open spec fn spec_authorize_url(
    client_id: Seq<char>,
    redirect_uri: Seq<char>,
    state: Seq<char>,
) -> Seq<char> {
    url_with_query(
        spec_authorize_endpoint(),
        "client_id"@,
        client_id,
        "redirect_uri"@,
        redirect_uri,
        "state"@,
        state,
    )
}

/// Where the browser is sent to sign in. It is always built.
pub fn build_authorize_url(state: &str, client_id: &str, redirect_uri: &str) -> (r: Result<
    String,
    AppError,
>)
    ensures
        r matches Ok(url) && url@ == spec_authorize_url(client_id@, redirect_uri@, state@),
{
    match url_with_pairs(
        "https://github.com/login/oauth/authorize",
        "client_id",
        client_id,
        "redirect_uri",
        redirect_uri,
        "state",
        state,
    ) {
        Ok(url) => Ok(url),
        Err(reason) => Err(AppError::internal(reason)),
    }
}

/// Where the code is exchanged for a user access token.
pub const ACCESS_TOKEN_URL: &'static str = "https://github.com/login/oauth/access_token";

/// The signed-in user's profile.
pub const USER_PROFILE_URL: &'static str = "https://api.github.com/user";

/// The REST API version every API request pins.
pub const GITHUB_API_VERSION: &'static str = "2026-03-10";

/// The media type API requests accept.
pub const GITHUB_ACCEPT: &'static str = "application/vnd.github+json";

/// The form posted to exchange `code`: the app's credentials, the code, and
/// the redirect URI the code was issued for, in that order.
pub fn token_exchange_form(client_id: &str, client_secret: &str, code: &str, redirect_uri: &str) -> (form:
    Vec<(String, String)>)
    ensures
        form@.len() == 4,
        form@[0].0@ == "client_id"@ && form@[0].1@ == client_id@,
        form@[1].0@ == "client_secret"@ && form@[1].1@ == client_secret@,
        form@[2].0@ == "code"@ && form@[2].1@ == code@,
        form@[3].0@ == "redirect_uri"@ && form@[3].1@ == redirect_uri@,
{
    let mut form: Vec<(String, String)> = Vec::new();
    form.push((String::from_str("client_id"), String::from_str(client_id)));
    form.push((String::from_str("client_secret"), String::from_str(client_secret)));
    form.push((String::from_str("code"), String::from_str(code)));
    form.push((String::from_str("redirect_uri"), String::from_str(redirect_uri)));
    form
}

/// The callback's query: GitHub's own refusal wins, then both `code` and
/// `state` must be present.
pub fn callback_params(code: Option<String>, state: Option<String>, error: Option<String>) -> (r:
    Result<(String, String), AppError>)
    ensures
        error is Some ==> r matches Err(AppError::Unauthorized),
        error is None && code is Some && state is Some ==> r == Ok::<(String, String), AppError>(
            (code->0, state->0),
        ),
        error is None && !(code is Some && state is Some) ==> (r matches Err(
            AppError::Validation(m),
        ) && m@ == "callback missing code or state"@),
{
    if error.is_some() {
        return Err(AppError::Unauthorized);
    }
    match (code, state) {
        (Some(code), Some(state)) => Ok((code, state)),
        _ => Err(AppError::Validation(String::from_str("callback missing code or state"))),
    }
}

/// GitHub's answer to the code exchange, once its status was a success.
#[derive(Debug)]
pub enum TokenExchange {
    Success { access_token: String },
    Failure { error: String, error_description: Option<String> },
}

/// A non-2xx status from the token endpoint means GitHub is unavailable,
/// not that the user is.
pub fn token_exchange_status(status: u16) -> (r: Result<(), AppError>)
    ensures
        200 <= status <= 299 <==> r is Ok,
        !(200 <= status <= 299) ==> (r matches Err(AppError::Unavailable { service })
            && service == "github"),
{
    if 200 <= status && status <= 299 {
        Ok(())
    } else {
        Err(AppError::Unavailable { service: "github" })
    }
}

/// A refused exchange (bad or reused code) is an authentication failure.
pub fn token_exchange_result(answer: TokenExchange) -> (r: Result<String, AppError>)
    ensures
        match answer {
            TokenExchange::Success { access_token } => r == Ok::<String, AppError>(access_token),
            TokenExchange::Failure { .. } => r matches Err(AppError::Unauthorized),
        },
{
    match answer {
        TokenExchange::Success { access_token } => Ok(access_token),
        TokenExchange::Failure { .. } => Err(AppError::Unauthorized),
    }
}

/// `GET /user`: 200 carries the profile, 401 means the token is no good,
/// anything else is GitHub being unavailable.
pub fn user_profile_status(status: u16) -> (r: Result<(), AppError>)
    ensures
        status == 200 <==> r is Ok,
        status == 401 ==> r matches Err(AppError::Unauthorized),
        status != 200 && status != 401 ==> (r matches Err(AppError::Unavailable { service })
            && service == "github"),
{
    if status == 200 {
        Ok(())
    } else if status == 401 {
        Err(AppError::Unauthorized)
    } else {
        Err(AppError::Unavailable { service: "github" })
    }
}

/// The fields of `GET /user` that sign-in keeps.
#[derive(Debug)]
pub struct GitHubUserDto {
    pub id: i64,
    pub login: String,
    pub name: Option<String>,
    pub email: Option<String>,
    pub avatar_url: String,
}

#[derive(Debug)]
pub struct GitHubProfile {
    pub github_user_id: GitHubId,
    pub login: String,
    pub name: Option<String>,
    pub email: Option<String>,
    pub avatar_url: String,
}

impl GitHubUserDto {
    pub fn into_domain(self) -> (p: GitHubProfile)
        ensures
            p.github_user_id == GitHubId(self.id),
            p.login == self.login,
            p.name == self.name,
            p.email == self.email,
            p.avatar_url == self.avatar_url,
    {
        GitHubProfile {
            github_user_id: GitHubId(self.id),
            login: self.login,
            name: self.name,
            email: self.email,
            avatar_url: self.avatar_url,
        }
    }
}

} // verus!
