//! The authentication routes: which requests pass the authentication gate, and
//! the steps of each login, logout and callback, from what each outside call
//! came back with to the answer.
use vstd::prelude::*;
use vstd::string::*;
use crate::cache::CacheError;
use crate::config::config_api::ApiConfig;
use crate::handler::auth::{
    CacheWrite, LOGOUT_BLACKLIST_EXPIRE, LOGOUT_BLACKLIST_PREFIX, auth_nonce_write, cache_key,
    github_bind_request, logout_write, oidc_bind_request, found_id, no_access_token_message,
    AUTH_NONCE_EXPIRE,
};
use crate::routes::BAD_REQUEST;
use crate::text::{concat2, debug_rendering, decimal, opt_text_is, same_opt_text, str_debug, str_eq, strip_prefix};
use crate::handler::auth::PasswordLogin;
use crate::types::user::{GithubUserInfo, OidcUserInfo, SaveUserRequest};

verus! {

pub const ROOT_URI: &'static str = "/";
pub const AUTH_CONNECT_OIDC_URI: &'static str = "/auth/connect/oidc";
pub const AUTH_CONNECT_GITHUB_URI: &'static str = "/auth/connect/github";
pub const AUTH_CALLBACK_OIDC_URI: &'static str = "/auth/callback/oidc";
pub const AUTH_CALLBACK_GITHUB_URI: &'static str = "/auth/callback/github";
pub const AUTH_LOGOUT_URI: &'static str = "/auth/logout";
pub const AUTH_LOGIN_PUBKEY_URI: &'static str = "/auth/login/pubkey";
pub const AUTH_LOGIN_VERIFY_URI: &'static str = "/auth/login/verify";
pub const STATIC_RESOURCES_URI: &'static str = "/static/*file";

/// The name under which a login's CSRF token is looked up.
pub const CSRF_TOKEN_NAME: &'static str = "csrf_token";

/// The name of the cookie that carries the CSRF token of an OpenID Connect login.
pub const CSRF_COOKIE_NAME: &'static str = "_csrf_token";

pub const OK: u16 = 200;
pub const UNAUTHORIZED: u16 = 401;
pub const INTERNAL_SERVER_ERROR: u16 = 500;

/// The paths that never need authentication, as the authentication mechanisms
/// themselves live there. A path is compared as a whole.
pub open spec fn excluded_path(p: Seq<char>) -> bool {
    ||| p == AUTH_CONNECT_OIDC_URI@
    ||| p == AUTH_CONNECT_GITHUB_URI@
    ||| p == AUTH_CALLBACK_OIDC_URI@
    ||| p == AUTH_CALLBACK_GITHUB_URI@
    ||| p == AUTH_LOGIN_PUBKEY_URI@
    ||| p == AUTH_LOGIN_VERIFY_URI@
    ||| p == STATIC_RESOURCES_URI@
}

/// Whether the path is one that never needs authentication.
pub fn is_excluded_path(path: &str) -> (r: bool)
    ensures
        r == excluded_path(path@),
        path@ == "/auth/connect/oidc"@
            || path@ == "/auth/connect/github"@
            || path@ == "/auth/callback/oidc"@
            || path@ == "/auth/callback/github"@
            || path@ == "/auth/login/pubkey"@
            || path@ == "/auth/login/verify"@
            || path@ == "/static/*file"@ ==> r,
{
    str_eq(path, AUTH_CONNECT_OIDC_URI) || str_eq(path, AUTH_CONNECT_GITHUB_URI)
        || str_eq(path, AUTH_CALLBACK_OIDC_URI) || str_eq(path, AUTH_CALLBACK_GITHUB_URI)
        || str_eq(path, AUTH_LOGIN_PUBKEY_URI) || str_eq(path, AUTH_LOGIN_VERIFY_URI)
        || str_eq(path, STATIC_RESOURCES_URI)
}

/// Where an answer sends the user.
pub enum AuthTarget {
    /// The configured login page.
    LoginPage,
    /// The configured page after a login.
    SuccessPage,
    /// A given address (a provider's authorization page).
    Url(String),
}

/// A cookie an answer sets: its name and value, the path it is sent for,
/// whether scripts may not read it, whether it goes over HTTPS only, and how
/// long it lives, in milliseconds.
pub struct ReplyCookie {
    pub name: String,
    pub value: String,
    pub path: String,
    pub http_only: bool,
    pub secure: bool,
    pub max_age_millis: i64,
}

/// The cookies an answer sets.
pub enum ReplyCookies {
    NoCookies,
    /// The CSRF token of a login that starts.
    Csrf(ReplyCookie),
    /// Removes the access and refresh token cookies.
    RemoveTokens,
}

/// An answer of the authentication routes.
pub enum AuthReply {
    /// A redirect toward the target (or, for API clients, JSON), with a status
    /// and a message.
    Respond { target: AuthTarget, status: u16, message: String, cookies: ReplyCookies },
    /// The user is logged in: tokens are issued for the user.
    LoginSuccess { uid: i64, uname: String, email: String },
    /// A JSON body (`RespBase`) carrying an error message in `errmsg`, with the status.
    ErrorJson { status: u16, errmsg: String },
}

/// Whether the answer sends the user to the login page with the status and
/// message, setting no cookie.
pub open spec fn respond_to_login(r: AuthReply, status: u16, message: Seq<char>) -> bool {
    r matches AuthReply::Respond { target: AuthTarget::LoginPage, status: s, message: m, cookies: ReplyCookies::NoCookies }
        && s == status && m@ == message
}

/// Whether the answer logs the user in under the id, name and e-mail address.
pub open spec fn logs_in(r: AuthReply, uid: i64, uname: Seq<char>, email: Seq<char>) -> bool {
    r matches AuthReply::LoginSuccess { uid: u, uname: n, email: m } && u == uid && n@ == uname && m@ == email
}

fn reply_login(status: u16, message: String) -> (r: AuthReply)
    ensures
        respond_to_login(r, status, message@),
{
    AuthReply::Respond { target: AuthTarget::LoginPage, status, message, cookies: ReplyCookies::NoCookies }
}

// ----- The authentication gate -----

/// Law: the login, connect and callback endpoints and the static files are
/// open to everyone: a request to any of them passes, whatever its headers and
/// cookies.
pub proof fn law_auth_endpoints_pass_the_gate()
    ensures
        excluded_path("/auth/connect/oidc"@),
        excluded_path("/auth/connect/github"@),
        excluded_path("/auth/callback/oidc"@),
        excluded_path("/auth/callback/github"@),
        excluded_path("/auth/login/pubkey"@),
        excluded_path("/auth/login/verify"@),
        excluded_path("/static/*file"@),
{
    reveal_strlit("/auth/connect/oidc");
    reveal_strlit("/auth/connect/github");
    reveal_strlit("/auth/callback/oidc");
    reveal_strlit("/auth/callback/github");
    reveal_strlit("/auth/login/pubkey");
    reveal_strlit("/auth/login/verify");
    reveal_strlit("/static/*file");
}

/// The outcome of the authentication check for a request.
pub enum Gate {
    /// The request goes on to its route.
    Pass,
    /// The token must be validated first.
    Validate { token: String },
    /// The request is answered here.
    Reply(AuthReply),
}

/// The token of an `Authorization` header: what follows `Bearer `, or the whole
/// header when it does not start so.
pub open spec fn bearer_token_spec(header: Seq<char>) -> Seq<char> {
    if "Bearer "@.is_prefix_of(header) {
        header.subrange(7, header.len() as int)
    } else {
        header
    }
}

/// The token of an `Authorization` header.
pub fn bearer_token(header: &str) -> (r: &str)
    ensures
        r@ == bearer_token_spec(header@),
{
    proof {
        reveal_strlit("Bearer ");
    }
    match strip_prefix(header, "Bearer ") {
        Some(t) => t,
        None => header,
    }
}

/// The answer to a request that is not authenticated.
pub open spec fn unauthenticated_reply(r: AuthReply) -> bool {
    respond_to_login(r, UNAUTHORIZED, "Logout"@)
}

/// The first authentication step for a request. Paths that never need authentication, and the
/// configured anonymous paths, pass. Otherwise the token is taken from the
/// `Authorization` header (`auth_header`: absent, or present with its text when
/// it is visible ASCII), or, when there is no such header, from the access token
/// cookie; it is then validated. A request with no token is not authenticated.
pub fn gate_request(config: &ApiConfig, path: &str, auth_header: Option<Option<String>>, cookie_token: Option<String>) -> (r: Gate)
    ensures
        excluded_path(path@) || config.anonymous(path@) ==> r is Pass,
        path@ == "/auth/connect/oidc"@
            || path@ == "/auth/connect/github"@
            || path@ == "/auth/callback/oidc"@
            || path@ == "/auth/callback/github"@
            || path@ == "/auth/login/pubkey"@
            || path@ == "/auth/login/verify"@
            || path@ == "/static/*file"@ ==> r is Pass,
        !excluded_path(path@) && !config.anonymous(path@) ==> match auth_header {
            Some(Some(h)) => r matches Gate::Validate { token } && token@ == bearer_token_spec(h@),
            Some(None) => r matches Gate::Reply(a) && unauthenticated_reply(a),
            None => match cookie_token {
                Some(t) => r matches Gate::Validate { token } && token@ == t@,
                None => r matches Gate::Reply(a) && unauthenticated_reply(a),
            },
        },
{
    if is_excluded_path(path) {
        return Gate::Pass;
    }
    if config.is_anonymous_path(path) {
        return Gate::Pass;
    }
    match auth_header {
        Some(Some(h)) => Gate::Validate { token: String::from_str(bearer_token(h.as_str())) },
        Some(None) => Gate::Reply(reply_login(UNAUTHORIZED, String::from_str("Logout"))),
        None => match cookie_token {
            Some(t) => Gate::Validate { token: t },
            None => Gate::Reply(reply_login(UNAUTHORIZED, String::from_str("Logout"))),
        },
    }
}

/// How the validation of a token went.
pub enum TokenCheck {
    /// The token is not a valid token.
    Invalid,
    /// The token is valid but has expired.
    Expired,
    /// The token is valid and live; the read of its blacklist entry.
    Live { blacklisted: Result<Option<String>, CacheError> },
}

/// Where a token stands before its blacklist is read.
pub enum TokenPhase {
    /// The JWT check refused it.
    Invalid,
    /// Its claims have expired.
    Expired,
    /// Its claims are still valid: its blacklist entry is to be read.
    Live,
}

/// The earliest and latest expiry, in seconds since the Unix epoch, that can be
/// read as a date (years -9999 to 9999).
pub const MIN_EXPIRY_SECS: i64 = -377705116800;
pub const MAX_EXPIRY_SECS: i64 = 253402300799;

/// Where a token stands: `claims_exp` is the expiry (seconds since the Unix
/// epoch) of the claims the JWT check found, or `None` when it refused the token;
/// `now_secs` is the current time in whole seconds. Claims expire once the
/// current time has reached their expiry.
pub fn token_phase(claims_exp: Option<i64>, now_secs: i64) -> (r: TokenPhase)
    requires
        claims_exp matches Some(e) ==> MIN_EXPIRY_SECS <= e <= MAX_EXPIRY_SECS,
    ensures
        claims_exp is None ==> r is Invalid,
        claims_exp matches Some(e) ==> (if e > now_secs { r is Live } else { r is Expired }),
{
    match claims_exp {
        None => TokenPhase::Invalid,
        Some(e) => {
            if e > now_secs {
                TokenPhase::Live
            } else {
                TokenPhase::Expired
            }
        },
    }
}

/// A token authenticates when it is valid, live, and not found on the blacklist;
/// a failed read of the blacklist does not stop it.
pub open spec fn token_authenticates(check: TokenCheck) -> bool {
    check matches TokenCheck::Live { blacklisted } && match blacklisted {
        Ok(entry) => entry is None,
        Err(_) => true,
    }
}

/// Whether the checked token authenticates the request.
pub fn token_authenticated(check: &TokenCheck) -> (r: bool)
    ensures
        r == token_authenticates(*check),
{
    match check {
        TokenCheck::Live { blacklisted } => match blacklisted {
            Ok(entry) => entry.is_none(),
            Err(_) => true,
        },
        _ => false,
    }
}

/// The blacklist key a live token is looked up under.
pub fn token_blacklist_key(token: &str) -> (r: String)
    ensures
        r@ == cache_key(LOGOUT_BLACKLIST_PREFIX@, token@),
{
    crate::handler::auth::build_logout_blacklist_key(token)
}

/// The last authentication step, once the token is checked: an authenticated request goes
/// on, except at the root, where it is sent to the page after login; an
/// unauthenticated one is sent to the login page.
pub fn gate_after_validation(path: &str, authenticated: bool) -> (r: Gate)
    ensures
        authenticated && path@ != ROOT_URI@ ==> r is Pass,
        authenticated && path@ == ROOT_URI@ ==> (r matches Gate::Reply(a)
            && a matches AuthReply::Respond { target: AuthTarget::SuccessPage, status, message, cookies: ReplyCookies::NoCookies }
            && status == OK && message@ == "Logged"@),
        !authenticated ==> (r matches Gate::Reply(a) && unauthenticated_reply(a)),
{
    if authenticated {
        if str_eq(path, ROOT_URI) {
            Gate::Reply(AuthReply::Respond {
                target: AuthTarget::SuccessPage,
                status: OK,
                message: String::from_str("Logged"),
                cookies: ReplyCookies::NoCookies,
            })
        } else {
            Gate::Pass
        }
    } else {
        Gate::Reply(reply_login(UNAUTHORIZED, String::from_str("Logout")))
    }
}

// ----- GitHub login -----

/// The answer to a request for a GitHub login: to GitHub's authorization page
/// (`auth_url`, when a GitHub client is configured; that answer carries the
/// status `500`), else to the login page.
pub fn connect_github(auth_url: Option<String>) -> (r: AuthReply)
    ensures
        auth_url is None ==> respond_to_login(r, INTERNAL_SERVER_ERROR, "Github oauth2 client not configured"@),
        auth_url matches Some(u) ==> (r matches AuthReply::Respond { target: AuthTarget::Url(t), status, message, cookies: ReplyCookies::NoCookies }
            && t@ == u@ && status == INTERNAL_SERVER_ERROR && message@ == "ok"@),
{
    match auth_url {
        Some(u) => AuthReply::Respond {
            target: AuthTarget::Url(u),
            status: INTERNAL_SERVER_ERROR,
            message: String::from_str("ok"),
            cookies: ReplyCookies::NoCookies,
        },
        None => reply_login(INTERNAL_SERVER_ERROR, String::from_str("Github oauth2 client not configured")),
    }
}

/// Why exchanging an authorization code for a token failed.
pub enum TokenFailure {
    /// The provider answered with an error, and perhaps a description of it.
    ServerResponse(Option<String>),
    /// Any other failure.
    Other,
}

/// Why fetching the user's profile failed.
pub enum FetchFailure {
    /// The request could not be sent; its message (answered in its quoted,
    /// escaped `Debug` form).
    Send(String),
    /// The answer is not a profile; the parser's message.
    Parse(String),
}

/// The steps of a GitHub login callback.
pub enum GithubCallback {
    /// Exchange the authorization code for an access token.
    ExchangeCode { code: String },
    /// Fetch the user's profile with the access token.
    FetchUser { access_token: String },
    /// Look up the user registered under the GitHub id.
    LookupUser { sub: i64, uname: String, email: Option<String> },
    /// Save the user record; then log the user in by the login and e-mail address.
    SaveUser { request: SaveUserRequest, uname: String, email: Option<String> },
    /// The answer.
    Done(AuthReply),
}

/// What a step of a GitHub login callback came back with.
pub enum GithubCallbackEvent {
    TokenExchanged(Result<String, TokenFailure>),
    UserFetched(Result<GithubUserInfo, FetchFailure>),
    /// The user found: its id, if it has one; `None` when no user was found.
    UserLookedUp(Option<Option<i64>>),
    /// The id the save gave, or its message (answered in its quoted, escaped
    /// `Debug` form).
    Saved(Result<i64, String>),
}

/// The reason given for a failed token exchange.
pub open spec fn token_failure_reason(f: TokenFailure) -> Seq<char> {
    match f {
        TokenFailure::ServerResponse(d) => match d {
            Some(t) => t@,
            None => Seq::empty(),
        },
        TokenFailure::Other => "Unknown error"@,
    }
}

/// The text, or nothing when absent.
pub open spec fn text_or_empty(t: Option<String>) -> Seq<char> {
    match t {
        Some(x) => x@,
        None => Seq::empty(),
    }
}

/// Whether the event may be handed to the step: a profile handed to the fetch
/// step carries an id and a login.
pub open spec fn github_event_allowed(s: GithubCallback, e: GithubCallbackEvent) -> bool {
    s is FetchUser ==> match e {
        GithubCallbackEvent::UserFetched(Ok(info)) => info.id is Some && info.login is Some,
        _ => true,
    }
}

/// The step a GitHub login callback takes on an event; an event that does not
/// answer the current step leaves it where it is.
pub open spec fn github_callback_steps(s: GithubCallback, e: GithubCallbackEvent, r: GithubCallback) -> bool {
    match (s, e) {
        (GithubCallback::ExchangeCode { .. }, GithubCallbackEvent::TokenExchanged(t)) => match t {
            Ok(token) => r matches GithubCallback::FetchUser { access_token } && access_token@ == token@,
            Err(f) => r matches GithubCallback::Done(a) && respond_to_login(a, INTERNAL_SERVER_ERROR,
                "failed to exchange token. reason: "@ + token_failure_reason(f)),
        },
        (GithubCallback::FetchUser { .. }, GithubCallbackEvent::UserFetched(u)) => match u {
            Err(FetchFailure::Send(d)) => r matches GithubCallback::Done(a) && respond_to_login(a, INTERNAL_SERVER_ERROR,
                "failed to sending get github user info. "@ + debug_rendering(d@)),
            Err(FetchFailure::Parse(d)) => r matches GithubCallback::Done(a) && respond_to_login(a, INTERNAL_SERVER_ERROR,
                "Failed to parse github user info: "@ + d@),
            Ok(info) => r matches GithubCallback::LookupUser { sub, uname, email }
                && info.id == Some(sub) && opt_text_is(info.login, uname@) && same_opt_text(email, info.email),
        },
        (GithubCallback::LookupUser { sub, uname, email }, GithubCallbackEvent::UserLookedUp(found)) =>
            r matches GithubCallback::SaveUser { request, uname: n, email: m }
            && n@ == uname@ && same_opt_text(m, email)
            && request.id == found_id(found)
            && opt_text_is(request.name, uname@)
            && opt_text_is(request.github_claims_sub, decimal(sub as int))
            && opt_text_is(request.github_claims_name, uname@)
            && same_opt_text(request.github_claims_email, email)
            && request.email is None && request.phone is None && request.password is None && request.lang is None
            && request.oidc_claims_sub is None && request.oidc_claims_name is None && request.oidc_claims_email is None
            && request.google_claims_sub is None && request.google_claims_name is None
            && request.google_claims_email is None && request.ethers_address is None,
        (GithubCallback::SaveUser { uname, email, .. }, GithubCallbackEvent::Saved(saved)) => match saved {
            Ok(uid) => if uid > 0 {
                r matches GithubCallback::Done(a) && logs_in(a, uid, uname@, text_or_empty(email))
            } else {
                r matches GithubCallback::Done(a) && respond_to_login(a, INTERNAL_SERVER_ERROR, "Failed to bind github user"@)
            },
            Err(d) => r matches GithubCallback::Done(a) && respond_to_login(a, INTERNAL_SERVER_ERROR, debug_rendering(d@)),
        },
        _ => r == s,
    }
}

fn text_or_default(t: Option<String>) -> (r: String)
    ensures
        r@ == text_or_empty(t),
{
    match t {
        Some(x) => x,
        None => String::new(),
    }
}

impl GithubCallback {
    /// The first step of a callback with the authorization code: the code is
    /// exchanged, when a GitHub client is configured; else the answer is an error.
    pub fn start(client_configured: bool, code: Option<String>) -> (r: Self)
        requires
            client_configured ==> code is Some,
        ensures
            !client_configured ==> (r matches GithubCallback::Done(a)
                && respond_to_login(a, INTERNAL_SERVER_ERROR, "Github client not configured"@)),
            client_configured ==> (r matches GithubCallback::ExchangeCode { code: c } && code == Some(c)),
    {
        if !client_configured {
            return GithubCallback::Done(reply_login(INTERNAL_SERVER_ERROR, String::from_str("Github client not configured")));
        }
        match code {
            Some(c) => GithubCallback::ExchangeCode { code: c },
            None => GithubCallback::Done(reply_login(INTERNAL_SERVER_ERROR, String::from_str("Github client not configured"))),
        }
    }

    /// The next step, on what the current step came back with.
    pub fn next(self, event: GithubCallbackEvent) -> (r: Self)
        requires
            github_event_allowed(self, event),
        ensures
            github_callback_steps(self, event, r),
    {
        match (self, event) {
            (GithubCallback::ExchangeCode { code }, GithubCallbackEvent::TokenExchanged(t)) => match t {
                Ok(token) => GithubCallback::FetchUser { access_token: token },
                Err(f) => {
                    let reason = match f {
                        TokenFailure::ServerResponse(d) => text_or_default(d),
                        TokenFailure::Other => String::from_str("Unknown error"),
                    };
                    GithubCallback::Done(reply_login(INTERNAL_SERVER_ERROR,
                        concat2("failed to exchange token. reason: ", reason.as_str())))
                },
            },
            (GithubCallback::FetchUser { access_token }, GithubCallbackEvent::UserFetched(u)) => match u {
                Err(FetchFailure::Send(d)) => GithubCallback::Done(reply_login(INTERNAL_SERVER_ERROR,
                    concat2("failed to sending get github user info. ", str_debug(d.as_str()).as_str()))),
                Err(FetchFailure::Parse(d)) => GithubCallback::Done(reply_login(INTERNAL_SERVER_ERROR,
                    concat2("Failed to parse github user info: ", d.as_str()))),
                Ok(info) => {
                    let GithubUserInfo { id, login, email } = info;
                    match (id, login) {
                        (Some(sub), Some(uname)) => GithubCallback::LookupUser { sub, uname, email },
                        _ => GithubCallback::FetchUser { access_token },
                    }
                },
            },
            (GithubCallback::LookupUser { sub, uname, email }, GithubCallbackEvent::UserLookedUp(found)) => {
                let keep = crate::text::clone_opt_text(&email);
                let request = github_bind_request(found, sub, uname.as_str(), email);
                GithubCallback::SaveUser { request, uname, email: keep }
            },
            (GithubCallback::SaveUser { request, uname, email }, GithubCallbackEvent::Saved(saved)) => match saved {
                Ok(uid) => {
                    if uid > 0 {
                        GithubCallback::Done(AuthReply::LoginSuccess { uid, uname, email: text_or_default(email) })
                    } else {
                        GithubCallback::Done(reply_login(INTERNAL_SERVER_ERROR, String::from_str("Failed to bind github user")))
                    }
                },
                Err(d) => GithubCallback::Done(reply_login(INTERNAL_SERVER_ERROR, str_debug(d.as_str()))),
            },
            (s, _) => s,
        }
    }
}

// ----- OpenID Connect login -----

/// The steps of a request for an OpenID Connect login.
pub enum OidcConnect {
    /// Keep the nonce under the CSRF token; then send the user to `auth_url`.
    StoreNonce { write: CacheWrite, auth_url: String, csrf: String },
    /// The answer.
    Done(AuthReply),
}

impl OidcConnect {
    /// The first step: when a client is configured, `authorization` holds the
    /// provider's authorization address, the CSRF token and the nonce it drew,
    /// and the nonce is kept for a short while under the CSRF token; else the
    /// answer is an error.
    pub fn start(authorization: Option<(String, String, String)>) -> (r: Self)
        ensures
            authorization is None ==> (r matches OidcConnect::Done(a)
                && respond_to_login(a, INTERNAL_SERVER_ERROR, "OIDC client not configured"@)),
            authorization matches Some((url, csrf, nonce)) ==> (r matches OidcConnect::StoreNonce { write, auth_url, csrf: c }
                && write.key@ == cache_key(LOGOUT_BLACKLIST_PREFIX@, csrf@) && write.value@ == nonce@
                && write.expire == AUTH_NONCE_EXPIRE && auth_url@ == url@ && c@ == csrf@),
    {
        match authorization {
            Some((url, csrf, nonce)) => {
                let write = auth_nonce_write(csrf.as_str(), nonce);
                OidcConnect::StoreNonce { write, auth_url: url, csrf }
            },
            None => OidcConnect::Done(reply_login(INTERNAL_SERVER_ERROR, String::from_str("OIDC client not configured"))),
        }
    }

    /// The answer once the nonce is kept, or could not be: to the authorization
    /// page with the CSRF cookie (`_csrf_token`, for every path, HTTP only, over
    /// HTTPS only, living as long as an access token: `access_token_validity`
    /// milliseconds), or to the login page with the failure.
    pub fn finish(self, stored: Result<(), String>, access_token_validity: i64) -> (r: AuthReply)
        requires
            self is StoreNonce,
        ensures
            self matches OidcConnect::StoreNonce { auth_url, csrf, .. } && match stored {
                Ok(_) => r matches AuthReply::Respond { target: AuthTarget::Url(t), status, message, cookies: ReplyCookies::Csrf(c) }
                    && t@ == auth_url@ && status == OK && message@ == "ok"@
                    && c.name@ == CSRF_COOKIE_NAME@ && c.value@ == csrf@ && c.path@ == ROOT_URI@
                    && c.http_only && c.secure && c.max_age_millis == access_token_validity,
                Err(d) => respond_to_login(r, INTERNAL_SERVER_ERROR, "Failed to create nonce. "@ + d@),
            },
    {
        match self {
            OidcConnect::StoreNonce { write, auth_url, csrf } => match stored {
                Ok(_) => AuthReply::Respond {
                    target: AuthTarget::Url(auth_url),
                    status: OK,
                    message: String::from_str("ok"),
                    cookies: ReplyCookies::Csrf(ReplyCookie {
                        name: String::from_str(CSRF_COOKIE_NAME),
                        value: csrf,
                        path: String::from_str(ROOT_URI),
                        http_only: true,
                        secure: true,
                        max_age_millis: access_token_validity,
                    }),
                },
                Err(d) => reply_login(INTERNAL_SERVER_ERROR, concat2("Failed to create nonce. ", d.as_str())),
            },
            OidcConnect::Done(a) => a,
        }
    }
}

/// Why fetching the OpenID Connect user info failed.
pub enum UserInfoFailure {
    /// The request could not be made; its message.
    Request(String),
    /// The claims could not be had; the message.
    Claims(String),
}

/// The steps of an OpenID Connect login callback.
pub enum OidcCallback {
    /// Exchange the authorization code for an access token.
    ExchangeCode { code: String },
    /// Fetch the user info claims with the access token.
    FetchUserInfo { access_token: String },
    /// Look up the user registered under the subject; `name` and `email` are
    /// what the login is then made under.
    LookupUser { info: OidcUserInfo, name: String, email: String },
    /// Save the user record; then log the user in.
    SaveUser { request: SaveUserRequest, name: String, email: String },
    /// The answer.
    Done(AuthReply),
}

/// What a step of an OpenID Connect login callback came back with.
pub enum OidcCallbackEvent {
    TokenExchanged(Result<String, String>),
    UserInfoFetched(Result<OidcUserInfo, UserInfoFailure>),
    UserLookedUp(Option<Option<i64>>),
    Saved(Result<i64, String>),
}

/// The step an OpenID Connect login callback takes on an event; an event that
/// does not answer the current step leaves it where it is.
pub open spec fn oidc_callback_steps(s: OidcCallback, e: OidcCallbackEvent, r: OidcCallback) -> bool {
    match (s, e) {
        (OidcCallback::ExchangeCode { .. }, OidcCallbackEvent::TokenExchanged(t)) => match t {
            Ok(token) => r matches OidcCallback::FetchUserInfo { access_token } && access_token@ == token@,
            Err(d) => r matches OidcCallback::Done(a) && respond_to_login(a, INTERNAL_SERVER_ERROR,
                "failed exchange token: "@ + d@),
        },
        (OidcCallback::FetchUserInfo { .. }, OidcCallbackEvent::UserInfoFetched(u)) => match u {
            Err(UserInfoFailure::Request(d)) => r matches OidcCallback::Done(a) && respond_to_login(a, INTERNAL_SERVER_ERROR,
                "failed to create user info request: "@ + d@),
            Err(UserInfoFailure::Claims(d)) => r matches OidcCallback::Done(a) && respond_to_login(a, INTERNAL_SERVER_ERROR,
                "failed to get user info claims: "@ + d@),
            Ok(i) => r matches OidcCallback::LookupUser { info, name, email }
                && info == i && name@ == text_or_empty(i.preferred_username) && email@ == text_or_empty(i.email),
        },
        (OidcCallback::LookupUser { info, name, email }, OidcCallbackEvent::UserLookedUp(found)) =>
            r matches OidcCallback::SaveUser { request, name: n, email: m }
            && n@ == name@ && m@ == email@
            && request.id == found_id(found)
            && same_opt_text(request.name, info.preferred_username)
            && opt_text_is(request.oidc_claims_sub, info.subject@)
            && same_opt_text(request.oidc_claims_name, info.preferred_username)
            && same_opt_text(request.oidc_claims_email, info.email)
            && request.email is None && request.phone is None && request.password is None && request.lang is None
            && request.github_claims_sub is None && request.github_claims_name is None && request.github_claims_email is None
            && request.google_claims_sub is None && request.google_claims_name is None
            && request.google_claims_email is None && request.ethers_address is None,
        (OidcCallback::SaveUser { name, email, .. }, OidcCallbackEvent::Saved(saved)) => match saved {
            Ok(uid) => if uid > 0 {
                r matches OidcCallback::Done(a) && logs_in(a, uid, name@, email@)
            } else {
                r matches OidcCallback::Done(a) && respond_to_login(a, INTERNAL_SERVER_ERROR, "Failed to bind oidc user"@)
            },
            Err(d) => r matches OidcCallback::Done(a) && respond_to_login(a, INTERNAL_SERVER_ERROR, d@),
        },
        _ => r == s,
    }
}

fn clone_text_or_default(t: &Option<String>) -> (r: String)
    ensures
        r@ == text_or_empty(*t),
{
    match t {
        Some(x) => x.clone(),
        None => String::new(),
    }
}

impl OidcCallback {
    /// The first step of a callback: the code is exchanged, when a client is
    /// configured and the code is there; else the answer is an error.
    pub fn start(client_configured: bool, code: Option<String>) -> (r: Self)
        ensures
            !client_configured ==> (r matches OidcCallback::Done(a)
                && respond_to_login(a, INTERNAL_SERVER_ERROR, "Oidc client not configured"@)),
            client_configured && code is None ==> (r matches OidcCallback::Done(a)
                && respond_to_login(a, BAD_REQUEST, "Missing authentication code"@)),
            client_configured && code is Some ==> (r matches OidcCallback::ExchangeCode { code: c } && code == Some(c)),
    {
        if !client_configured {
            return OidcCallback::Done(reply_login(INTERNAL_SERVER_ERROR, String::from_str("Oidc client not configured")));
        }
        match code {
            Some(c) => OidcCallback::ExchangeCode { code: c },
            None => OidcCallback::Done(reply_login(BAD_REQUEST, String::from_str("Missing authentication code"))),
        }
    }

    /// The next step, on what the current step came back with.
    pub fn next(self, event: OidcCallbackEvent) -> (r: Self)
        ensures
            oidc_callback_steps(self, event, r),
    {
        match (self, event) {
            (OidcCallback::ExchangeCode { code }, OidcCallbackEvent::TokenExchanged(t)) => match t {
                Ok(token) => OidcCallback::FetchUserInfo { access_token: token },
                Err(d) => OidcCallback::Done(reply_login(INTERNAL_SERVER_ERROR, concat2("failed exchange token: ", d.as_str()))),
            },
            (OidcCallback::FetchUserInfo { access_token }, OidcCallbackEvent::UserInfoFetched(u)) => match u {
                Err(UserInfoFailure::Request(d)) => OidcCallback::Done(reply_login(INTERNAL_SERVER_ERROR,
                    concat2("failed to create user info request: ", d.as_str()))),
                Err(UserInfoFailure::Claims(d)) => OidcCallback::Done(reply_login(INTERNAL_SERVER_ERROR,
                    concat2("failed to get user info claims: ", d.as_str()))),
                Ok(info) => {
                    let name = clone_text_or_default(&info.preferred_username);
                    let email = clone_text_or_default(&info.email);
                    OidcCallback::LookupUser { info, name, email }
                },
            },
            (OidcCallback::LookupUser { info, name, email }, OidcCallbackEvent::UserLookedUp(found)) => {
                let OidcUserInfo { subject, preferred_username, email: claims_email } = info;
                let request = oidc_bind_request(found, subject.as_str(), preferred_username, claims_email);
                OidcCallback::SaveUser { request, name, email }
            },
            (OidcCallback::SaveUser { request, name, email }, OidcCallbackEvent::Saved(saved)) => match saved {
                Ok(uid) => {
                    if uid > 0 {
                        OidcCallback::Done(AuthReply::LoginSuccess { uid, uname: name, email })
                    } else {
                        OidcCallback::Done(reply_login(INTERNAL_SERVER_ERROR, String::from_str("Failed to bind oidc user")))
                    }
                },
                Err(d) => OidcCallback::Done(reply_login(INTERNAL_SERVER_ERROR, d)),
            },
            (s, _) => s,
        }
    }
}

// ----- Logout -----

/// The steps of a logout.
pub enum Logout {
    /// Blacklist the access token.
    Blacklist(CacheWrite),
    /// The answer.
    Done(AuthReply),
}

impl Logout {
    /// The first step: the access token is the one of the query, else the one of
    /// the cookie; it is blacklisted from `now_millis` on. Without one the answer
    /// is an error.
    pub fn start(query_token: Option<String>, cookie_token: Option<String>, now_millis: i64) -> (r: Self)
        ensures
            query_token is None && cookie_token is None ==> (r matches Logout::Done(a)
                && respond_to_login(a, BAD_REQUEST, no_access_token_message())),
            (match query_token {
                Some(t) => Some(t),
                None => cookie_token,
            }) matches Some(ak) ==> (r matches Logout::Blacklist(w)
                && w.key@ == cache_key(LOGOUT_BLACKLIST_PREFIX@, ak@)
                && w.value@ == decimal(now_millis as int)
                && w.expire == LOGOUT_BLACKLIST_EXPIRE),
    {
        let token = match query_token {
            Some(t) => Some(t),
            None => cookie_token,
        };
        match logout_write(token, now_millis) {
            Ok(w) => Logout::Blacklist(w),
            Err(e) => Logout::Done(reply_login(BAD_REQUEST, e.message)),
        }
    }

    /// The answer once the token is blacklisted (the token cookies are removed),
    /// or could not be.
    pub fn finish(stored: Result<(), String>) -> (r: AuthReply)
        ensures
            stored is Ok ==> (r matches AuthReply::Respond { target: AuthTarget::LoginPage, status, message, cookies: ReplyCookies::RemoveTokens }
                && status == OK && message@ == "Bad Parameters"@),
            stored matches Err(d) ==> respond_to_login(r, BAD_REQUEST, d@),
    {
        match stored {
            Ok(_) => AuthReply::Respond {
                target: AuthTarget::LoginPage,
                status: OK,
                message: String::from_str("Bad Parameters"),
                cookies: ReplyCookies::RemoveTokens,
            },
            Err(d) => reply_login(BAD_REQUEST, d),
        }
    }
}

// ----- Password login -----

/// What reading a password login's body gave.
pub enum LoginBody<T> {
    /// The body could not be read.
    Unreadable,
    /// The body is not the JSON of a login request.
    BadJson,
    /// The login request.
    Parsed(T),
}

/// The login request of a body, or the answer to a body that is not one.
pub fn login_request<T>(body: LoginBody<T>) -> (r: Result<T, AuthReply>)
    ensures
        body is Unreadable ==> (r matches Err(a) && respond_to_login(a, BAD_REQUEST, "Unable to read password login request failed"@)),
        body is BadJson ==> (r matches Err(a) && respond_to_login(a, BAD_REQUEST, "Invalid password login parameter json"@)),
        body matches LoginBody::Parsed(v) ==> r == Ok::<T, AuthReply>(v),
{
    match body {
        LoginBody::Unreadable => Err(reply_login(BAD_REQUEST, String::from_str("Unable to read password login request failed"))),
        LoginBody::BadJson => Err(reply_login(BAD_REQUEST, String::from_str("Invalid password login parameter json"))),
        LoginBody::Parsed(v) => Ok(v),
    }
}

/// The answer to a decided password login: logged in as the accepted user
/// (an absent name or e-mail address as empty), or, with status `200`, a JSON
/// body whose `errmsg` says why not (the rejection's message in its quoted,
/// escaped `Debug` form).
pub fn login_verify_reply(login: PasswordLogin) -> (r: AuthReply)
    requires
        login is Accepted || login is Rejected,
        login matches PasswordLogin::Accepted { uid, .. } ==> uid is Some,
    ensures
        login matches PasswordLogin::Accepted { uid: Some(id), name, email } ==> logs_in(r, id, text_or_empty(name), text_or_empty(email)),
        login matches PasswordLogin::Rejected(e) ==> (r matches AuthReply::ErrorJson { status, errmsg }
            && status == OK && errmsg@ == "Failed to login. "@ + debug_rendering(e.message@)),
{
    match login {
        PasswordLogin::Accepted { uid, name, email } => {
            let id = match uid {
                Some(id) => id,
                None => 0,
            };
            AuthReply::LoginSuccess { uid: id, uname: text_or_default(name), email: text_or_default(email) }
        },
        PasswordLogin::Rejected(e) => {
            let rendered = str_debug(e.message.as_str());
            AuthReply::ErrorJson { status: OK, errmsg: concat2("Failed to login. ", rendered.as_str()) }
        },
        _ => AuthReply::ErrorJson { status: OK, errmsg: String::new() },
    }
}

/// Law: a token found on the blacklist (given up by a logout) never
/// authenticates.
pub proof fn law_blacklisted_token_rejected(check: TokenCheck)
    requires
        check matches TokenCheck::Live { blacklisted: Ok(Some(_)) },
    ensures
        !token_authenticates(check),
{
}

/// Law: a GitHub login callback logs a user in only once the user is saved, and
/// only under the positive id the save gave.
pub proof fn law_github_login_needs_saved_user(s: GithubCallback, e: GithubCallbackEvent, r: GithubCallback)
    requires
        github_callback_steps(s, e, r),
        !(s is Done),
        r matches GithubCallback::Done(AuthReply::LoginSuccess { .. }),
    ensures
        s is SaveUser,
        r matches GithubCallback::Done(AuthReply::LoginSuccess { uid, .. }) && e == GithubCallbackEvent::Saved(Ok(uid)) && uid > 0,
{
}

/// Law: an OpenID Connect login callback logs a user in only once the user is
/// saved, and only under the positive id the save gave.
pub proof fn law_oidc_login_needs_saved_user(s: OidcCallback, e: OidcCallbackEvent, r: OidcCallback)
    requires
        oidc_callback_steps(s, e, r),
        !(s is Done),
        r matches OidcCallback::Done(AuthReply::LoginSuccess { .. }),
    ensures
        s is SaveUser,
        r matches OidcCallback::Done(AuthReply::LoginSuccess { uid, .. }) && e == OidcCallbackEvent::Saved(Ok(uid)) && uid > 0,
{
}

/// Law: the user record a GitHub login callback saves, once the profile is
/// fetched and the user looked up, is the GitHub user's: named by the GitHub
/// login, with the GitHub id, login and reported e-mail address as its claims,
/// under the id of the user found (none for a first login).
pub proof fn law_github_saves_reported_user(
    s0: GithubCallback,
    info: GithubUserInfo,
    s1: GithubCallback,
    found: Option<Option<i64>>,
    s2: GithubCallback,
)
    requires
        s0 is FetchUser,
        github_callback_steps(s0, GithubCallbackEvent::UserFetched(Ok(info)), s1),
        github_callback_steps(s1, GithubCallbackEvent::UserLookedUp(found), s2),
    ensures
        s2 matches GithubCallback::SaveUser { request, .. } && {
            &&& request.id == found_id(found)
            &&& same_opt_text(request.name, info.login)
            &&& same_opt_text(request.github_claims_name, info.login)
            &&& same_opt_text(request.github_claims_email, info.email)
            &&& info.id matches Some(id) && opt_text_is(request.github_claims_sub, decimal(id as int))
        },
{
}

/// Law: the user record an OpenID Connect callback saves, once the claims are
/// fetched and the user looked up, is named by the preferred user name of the
/// claims, with their subject, name and e-mail address as its claims, under the
/// id of the user found (none for a first login).
pub proof fn law_oidc_saves_claimed_user(
    s0: OidcCallback,
    info: OidcUserInfo,
    s1: OidcCallback,
    found: Option<Option<i64>>,
    s2: OidcCallback,
)
    requires
        s0 is FetchUserInfo,
        oidc_callback_steps(s0, OidcCallbackEvent::UserInfoFetched(Ok(info)), s1),
        oidc_callback_steps(s1, OidcCallbackEvent::UserLookedUp(found), s2),
    ensures
        s2 matches OidcCallback::SaveUser { request, .. } && {
            &&& request.id == found_id(found)
            &&& same_opt_text(request.name, info.preferred_username)
            &&& opt_text_is(request.oidc_claims_sub, info.subject@)
            &&& same_opt_text(request.oidc_claims_name, info.preferred_username)
            &&& same_opt_text(request.oidc_claims_email, info.email)
        },
{
}

} // verus!
