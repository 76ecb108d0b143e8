use mywebnote::cache::CacheError;
use mywebnote::config::config_api::{ApiConfig, ApiProperties};
use mywebnote::handler::auth::{
    auth_nonce_write, build_auth_nonce_key, build_login_private_key, build_logout_blacklist_key,
    constant_time_eq, github_bind_request, AuthError, FoundUser, logout_write, oidc_bind_request, password_pubkey_write,
    wallet_bind_request, wallet_verdict, PasswordLogin, PasswordLoginEvent, PrincipalType, WalletCheck,
};
use mywebnote::handler::users::{first_found, save_updates, set_outcome, set_save_request, user_lookup_filter};
use mywebnote::routes::auths::{
    bearer_token, connect_github, gate_after_validation, gate_request, is_excluded_path, login_request,
    login_verify_reply, token_authenticated, token_phase, TokenPhase, token_blacklist_key, AuthReply, AuthTarget, FetchFailure, Gate,
    GithubCallback, GithubCallbackEvent, LoginBody, Logout, OidcCallback, OidcCallbackEvent, OidcConnect,
    ReplyCookies, TokenCheck, TokenFailure, UserInfoFailure,
};
use mywebnote::types::user::{GithubUserInfo, OidcUserInfo, SaveUserRequestWith};

fn reply_parts(r: &AuthReply) -> (String, u16, String) {
    match r {
        AuthReply::Respond { target, status, message, .. } => {
            let t = match target {
                AuthTarget::LoginPage => "login".to_string(),
                AuthTarget::SuccessPage => "success".to_string(),
                AuthTarget::Url(u) => u.clone(),
            };
            (t, *status, message.clone())
        }
        AuthReply::LoginSuccess { uid, uname, email } => (format!("{}/{}", uname, email), 0, uid.to_string()),
        AuthReply::ErrorJson { status, errmsg } => ("json".to_string(), *status, errmsg.clone()),
    }
}

fn config_with_anonymous(paths: Option<Vec<String>>) -> std::sync::Arc<ApiConfig> {
    let mut props = ApiProperties::default();
    props.auth.anonymous_paths = paths;
    ApiConfig::try_new(props).unwrap()
}

#[test]
fn cache_keys_have_prefix_colon_and_id() {
    assert_eq!(build_auth_nonce_key("n1"), "auth:nonce::n1");
    assert_eq!(build_login_private_key("fp"), "login:privatekey::fp");
    assert_eq!(build_logout_blacklist_key("tok"), "logout:blacklist::tok");
    assert_eq!(token_blacklist_key("tok"), build_logout_blacklist_key("tok"));
    assert_ne!(build_logout_blacklist_key("a:b"), build_logout_blacklist_key("a"));
}

#[test]
fn cache_writes_of_the_logins() {
    let w = password_pubkey_write("fp", "pk".to_string());
    assert_eq!((w.key.as_str(), w.value.as_str(), w.expire), ("login:privatekey::fp", "pk", 30000));
    let w = auth_nonce_write("sid", "nonce".to_string());
    assert_eq!((w.key.as_str(), w.value.as_str(), w.expire), ("logout:blacklist::sid", "nonce", 10000));
}

#[test]
fn logout_needs_an_access_token() {
    let e = logout_write(None, 5).err().unwrap();
    assert_eq!(e.message, "access_token is None");
    let w = logout_write(Some("ak".to_string()), -1234567).ok().unwrap();
    assert_eq!(w.key, "logout:blacklist::ak");
    assert_eq!(w.value, "-1234567");
    assert_eq!(w.expire, 3600000);
}

#[test]
fn constant_time_eq_compares_bytes() {
    assert!(constant_time_eq(b"secret", b"secret"));
    assert!(!constant_time_eq(b"secret", b"secreT"));
    assert!(!constant_time_eq(b"abc", b"ab"));
    assert!(constant_time_eq(b"", b""));
}

fn found(password: Option<&str>) -> FoundUser {
    FoundUser { uid: Some(7), name: Some("neo".to_string()), email: None, password: password.map(|p| p.to_string()) }
}

#[test]
fn password_login_accepts_matching_password() {
    let s = PasswordLogin::start("fp");
    assert!(matches!(&s, PasswordLogin::ReadPrivateKey { key } if key == "login:privatekey::fp"));
    let s = s.next(PasswordLoginEvent::PrivateKeyRead(Ok(Some("pk".to_string()))), "req");
    assert!(matches!(&s, PasswordLogin::Decrypt { private_key } if private_key == "pk"));
    let s = s.next(PasswordLoginEvent::Decrypted(Ok(b"pw".to_vec())), "req");
    let s = s.next(PasswordLoginEvent::UserLookedUp(Ok(Some(found(Some("pw"))))), "req");
    assert!(matches!(&s, PasswordLogin::Accepted { uid: Some(7), name: Some(n), email: None } if n == "neo"));
}

#[test]
fn password_login_rejections() {
    let start = || PasswordLogin::start("fp");
    let msg = |s: PasswordLogin| match s {
        PasswordLogin::Rejected(e) => e.message,
        _ => panic!("not rejected"),
    };
    let s = start().next(PasswordLoginEvent::PrivateKeyRead(Ok(None)), "R");
    assert_eq!(msg(s), "No login private key, The operation takes too long? Please refresh and log in again. R");
    let s = start().next(PasswordLoginEvent::PrivateKeyRead(Err(CacheError { message: "down".to_string() })), "R");
    assert_eq!(msg(s), "down");
    let d = || start().next(PasswordLoginEvent::PrivateKeyRead(Ok(Some("pk".to_string()))), "R");
    let s = d().next(PasswordLoginEvent::Decrypted(Err("\"bad\"".to_string())), "R");
    assert_eq!(msg(s), "Unable decryption password. \"bad\"");
    let l = || d().next(PasswordLoginEvent::Decrypted(Ok(b"pw".to_vec())), "R");
    assert_eq!(msg(l().next(PasswordLoginEvent::UserLookedUp(Ok(None)), "R")),
        "No login user, Please confirm that the login account is correct. R");
    assert_eq!(msg(l().next(PasswordLoginEvent::UserLookedUp(Ok(Some(found(Some("other"))))), "R")), "Invalid password");
    assert_eq!(msg(l().next(PasswordLoginEvent::UserLookedUp(Ok(Some(found(None)))), "R")), "Invalid password");
    assert_eq!(msg(l().next(PasswordLoginEvent::UserLookedUp(Err("db".to_string())), "R")), "db");
    // An event that does not answer the step leaves the login where it is.
    assert!(matches!(start().next(PasswordLoginEvent::Decrypted(Ok(vec![])), "R"), PasswordLogin::ReadPrivateKey { .. }));
}

#[test]
fn empty_password_matches_missing_password() {
    let s = PasswordLogin::start("fp")
        .next(PasswordLoginEvent::PrivateKeyRead(Ok(Some("pk".to_string()))), "R")
        .next(PasswordLoginEvent::Decrypted(Ok(vec![])), "R")
        .next(PasswordLoginEvent::UserLookedUp(Ok(Some(found(None)))), "R");
    assert!(matches!(s, PasswordLogin::Accepted { .. }));
}

#[test]
fn bind_requests_keep_the_found_id() {
    let r = github_bind_request(Some(Some(7)), 42, "octo", Some("o@x".to_string()));
    assert_eq!(r.id, Some(7));
    assert_eq!(r.name.as_deref(), Some("octo"));
    assert_eq!(r.github_claims_sub.as_deref(), Some("42"));
    assert_eq!(r.github_claims_email.as_deref(), Some("o@x"));
    assert!(r.oidc_claims_sub.is_none() && r.ethers_address.is_none());
    let r = github_bind_request(None, -3, "octo", None);
    assert_eq!(r.id, None);
    assert_eq!(r.github_claims_sub.as_deref(), Some("-3"));
    let r = github_bind_request(Some(None), 1, "octo", None);
    assert_eq!(r.id, None);

    let r = oidc_bind_request(Some(Some(9)), "sub1", Some("neo".to_string()), None);
    assert_eq!(r.id, Some(9));
    assert_eq!(r.name.as_deref(), Some("neo"));
    assert_eq!(r.oidc_claims_sub.as_deref(), Some("sub1"));
    assert_eq!(r.oidc_claims_name.as_deref(), Some("neo"));

    let r = wallet_bind_request(None, "0xabc");
    assert_eq!(r.name.as_deref(), Some("0xabc"));
    assert_eq!(r.ethers_address.as_deref(), Some("0xabc"));
}

#[test]
fn wallet_verdicts() {
    assert!(wallet_verdict(WalletCheck::Recovered { matches: true }).is_ok());
    assert_eq!(wallet_verdict(WalletCheck::Recovered { matches: false }).err().unwrap().message, "401 Unauthorized");
    assert_eq!(wallet_verdict(WalletCheck::BadAddress).err().unwrap().message, "Invalid address");
    assert_eq!(wallet_verdict(WalletCheck::BadSignature).err().unwrap().message, "Invalid signature");
    assert_eq!(wallet_verdict(WalletCheck::RecoverFailed).err().unwrap().message, "401 Unauthorized");
}

#[test]
fn principal_types_compare() {
    assert_eq!(PrincipalType::Github, PrincipalType::Github);
    assert_ne!(PrincipalType::OIDC, PrincipalType::Password);
}

fn with_values() -> SaveUserRequestWith {
    SaveUserRequestWith {
        name: Some("n".to_string()),
        email: Some("e".to_string()),
        phone: None,
        password: None,
        oidc_claims_sub: None,
        oidc_claims_name: None,
        oidc_claims_email: None,
        github_claims_sub: None,
        github_claims_name: None,
        github_claims_email: None,
        google_claims_sub: None,
        google_claims_name: None,
        google_claims_email: None,
        lang: Some("en".to_string()),
    }
}

#[test]
fn user_set_decisions() {
    let r = set_save_request(Ok(Some(Some(5))), with_values()).ok().unwrap();
    assert_eq!(r.id, Some(5));
    assert_eq!(r.name.as_deref(), Some("n"));
    assert_eq!(r.lang.as_deref(), Some("en"));
    assert!(save_updates(&r));
    let r = set_save_request(Ok(None), with_values()).ok().unwrap();
    assert_eq!(r.id, None);
    assert!(!save_updates(&r));
    assert_eq!(set_save_request(Err("db".to_string()), with_values()).err().unwrap().message, "db");
    assert!(set_outcome(true, Ok(3)).is_ok());
    assert_eq!(set_outcome(true, Ok(0)).err().unwrap().message, "Failed to save user");
    assert_eq!(set_outcome(false, Ok(0)).err().unwrap().message, "Failed to save user, because no found user");
    assert_eq!(set_outcome(false, Err("x".to_string())).err().unwrap().message, "x");
}

#[test]
fn excluded_paths_are_exact() {
    assert!(is_excluded_path("/auth/login/verify"));
    assert!(is_excluded_path("/static/*file"));
    assert!(!is_excluded_path("/static/app.js"));
    assert!(!is_excluded_path("/"));
}

#[test]
fn bearer_prefix_is_taken_off() {
    assert_eq!(bearer_token("Bearer abc"), "abc");
    assert_eq!(bearer_token("abc"), "abc");
    assert_eq!(bearer_token("bearer abc"), "bearer abc");
    assert_eq!(bearer_token("Bearer "), "");
}

#[test]
fn gate_passes_excluded_and_anonymous_paths() {
    let config = config_with_anonymous(Some(vec!["/public/**".to_string()]));
    assert!(matches!(gate_request(&config, "/auth/callback/github", None, None), Gate::Pass));
    assert!(matches!(gate_request(&config, "/public/a/b", None, None), Gate::Pass));
    let g = gate_request(&config, "/api/docs", None, None);
    match g {
        Gate::Reply(r) => assert_eq!(reply_parts(&r), ("login".to_string(), 401, "Logout".to_string())),
        _ => panic!("expected a reply"),
    }
}

#[test]
fn gate_takes_the_token_from_header_or_cookie() {
    let config = config_with_anonymous(None);
    let g = gate_request(&config, "/api", Some(Some("Bearer t1".to_string())), Some("c".to_string()));
    assert!(matches!(g, Gate::Validate { token } if token == "t1"));
    let g = gate_request(&config, "/api", None, Some("c".to_string()));
    assert!(matches!(g, Gate::Validate { token } if token == "c"));
    let g = gate_request(&config, "/api", Some(None), Some("c".to_string()));
    assert!(matches!(g, Gate::Reply(_)));
}

#[test]
fn token_checks() {
    assert!(token_authenticated(&TokenCheck::Live { blacklisted: Ok(None) }));
    assert!(!token_authenticated(&TokenCheck::Live { blacklisted: Ok(Some("1".to_string())) }));
    assert!(token_authenticated(&TokenCheck::Live { blacklisted: Err(CacheError { message: "x".to_string() }) }));
    assert!(!token_authenticated(&TokenCheck::Expired));
    assert!(!token_authenticated(&TokenCheck::Invalid));
}

#[test]
fn gate_after_validation_answers() {
    assert!(matches!(gate_after_validation("/api", true), Gate::Pass));
    match gate_after_validation("/", true) {
        Gate::Reply(r) => assert_eq!(reply_parts(&r), ("success".to_string(), 200, "Logged".to_string())),
        _ => panic!("expected a reply"),
    }
    match gate_after_validation("/api", false) {
        Gate::Reply(r) => assert_eq!(reply_parts(&r), ("login".to_string(), 401, "Logout".to_string())),
        _ => panic!("expected a reply"),
    }
}

fn github_done(s: GithubCallback) -> (String, u16, String) {
    match s {
        GithubCallback::Done(r) => reply_parts(&r),
        _ => panic!("not done"),
    }
}

#[test]
fn github_callback_logs_in() {
    let s = GithubCallback::start(true, Some("code".to_string()));
    let s = s.next(GithubCallbackEvent::TokenExchanged(Ok("at".to_string())));
    assert!(matches!(&s, GithubCallback::FetchUser { access_token } if access_token == "at"));
    let info = GithubUserInfo { id: Some(42), login: Some("octo".to_string()), email: Some("o@x".to_string()) };
    let s = s.next(GithubCallbackEvent::UserFetched(Ok(info)));
    let s = s.next(GithubCallbackEvent::UserLookedUp(Some(Some(8))));
    match &s {
        GithubCallback::SaveUser { request, .. } => {
            assert_eq!(request.id, Some(8));
            assert_eq!(request.github_claims_sub.as_deref(), Some("42"));
        }
        _ => panic!("expected the save step"),
    }
    let s = s.next(GithubCallbackEvent::Saved(Ok(8)));
    assert_eq!(github_done(s), ("octo/o@x".to_string(), 0, "8".to_string()));
}

#[test]
fn github_callback_failures() {
    assert_eq!(github_done(GithubCallback::start(false, None)),
        ("login".to_string(), 500, "Github client not configured".to_string()));
    let ex = || GithubCallback::start(true, Some("c".to_string()));
    assert_eq!(github_done(ex().next(GithubCallbackEvent::TokenExchanged(Err(TokenFailure::Other)))).2,
        "failed to exchange token. reason: Unknown error");
    assert_eq!(github_done(ex().next(GithubCallbackEvent::TokenExchanged(Err(TokenFailure::ServerResponse(Some("bad code".to_string())))))).2,
        "failed to exchange token. reason: bad code");
    assert_eq!(github_done(ex().next(GithubCallbackEvent::TokenExchanged(Err(TokenFailure::ServerResponse(None))))).2,
        "failed to exchange token. reason: ");
    let fetch = || ex().next(GithubCallbackEvent::TokenExchanged(Ok("at".to_string())));
    assert_eq!(github_done(fetch().next(GithubCallbackEvent::UserFetched(Err(FetchFailure::Send("down".to_string()))))).2,
        "failed to sending get github user info. \"down\"");
    assert_eq!(github_done(fetch().next(GithubCallbackEvent::UserFetched(Err(FetchFailure::Parse("eof".to_string()))))).2,
        "Failed to parse github user info: eof");
    let save = || fetch()
        .next(GithubCallbackEvent::UserFetched(Ok(GithubUserInfo { id: Some(1), login: Some("u".to_string()), email: None })))
        .next(GithubCallbackEvent::UserLookedUp(None));
    assert_eq!(github_done(save().next(GithubCallbackEvent::Saved(Ok(0)))).2, "Failed to bind github user");
    assert_eq!(github_done(save().next(GithubCallbackEvent::Saved(Err("x".to_string())))).2, "\"x\"");
    assert_eq!(github_done(save().next(GithubCallbackEvent::Saved(Ok(4)))).0, "u/");
}

fn oidc_done(s: OidcCallback) -> (String, u16, String) {
    match s {
        OidcCallback::Done(r) => reply_parts(&r),
        _ => panic!("not done"),
    }
}

#[test]
fn oidc_callback_flow() {
    assert_eq!(oidc_done(OidcCallback::start(false, Some("c".to_string()))).2, "Oidc client not configured");
    assert_eq!(oidc_done(OidcCallback::start(true, None)), ("login".to_string(), 400, "Missing authentication code".to_string()));
    let ex = || OidcCallback::start(true, Some("c".to_string()));
    assert_eq!(oidc_done(ex().next(OidcCallbackEvent::TokenExchanged(Err("e".to_string())))).2, "failed exchange token: e");
    let fetch = || ex().next(OidcCallbackEvent::TokenExchanged(Ok("at".to_string())));
    assert_eq!(oidc_done(fetch().next(OidcCallbackEvent::UserInfoFetched(Err(UserInfoFailure::Request("r".to_string()))))).2,
        "failed to create user info request: r");
    assert_eq!(oidc_done(fetch().next(OidcCallbackEvent::UserInfoFetched(Err(UserInfoFailure::Claims("c".to_string()))))).2,
        "failed to get user info claims: c");
    let info = OidcUserInfo { subject: "s1".to_string(), preferred_username: Some("neo".to_string()), email: None };
    let s = fetch().next(OidcCallbackEvent::UserInfoFetched(Ok(info))).next(OidcCallbackEvent::UserLookedUp(Some(Some(3))));
    match &s {
        OidcCallback::SaveUser { request, .. } => {
            assert_eq!(request.id, Some(3));
            assert_eq!(request.oidc_claims_sub.as_deref(), Some("s1"));
        }
        _ => panic!("expected the save step"),
    }
    assert_eq!(oidc_done(s.next(OidcCallbackEvent::Saved(Ok(3)))), ("neo/".to_string(), 0, "3".to_string()));
}

#[test]
fn oidc_connect_flow() {
    match OidcConnect::start(None) {
        OidcConnect::Done(r) => assert_eq!(reply_parts(&r).2, "OIDC client not configured"),
        _ => panic!("expected an answer"),
    }
    let s = OidcConnect::start(Some(("https://idp/auth".to_string(), "csrf1".to_string(), "n1".to_string())));
    match &s {
        OidcConnect::StoreNonce { write, .. } => {
            assert_eq!(write.key, "logout:blacklist::csrf1");
            assert_eq!(write.value, "n1");
        }
        _ => panic!("expected the nonce step"),
    }
    let ok = OidcConnect::start(Some(("https://idp/auth".to_string(), "csrf1".to_string(), "n1".to_string()))).finish(Ok(()), 3600000);
    assert_eq!(reply_parts(&ok), ("https://idp/auth".to_string(), 200, "ok".to_string()));
    match ok {
        AuthReply::Respond { cookies: ReplyCookies::Csrf(c), .. } => {
            assert_eq!(c.name, "_csrf_token");
            assert_eq!(c.value, "csrf1");
            assert_eq!(c.path, "/");
            assert!(c.http_only && c.secure);
            assert_eq!(c.max_age_millis, 3600000);
        }
        _ => panic!("expected the CSRF cookie"),
    }
    let err = s.finish(Err("down".to_string()), 3600000);
    assert_eq!(reply_parts(&err), ("login".to_string(), 500, "Failed to create nonce. down".to_string()));
}

#[test]
fn github_connect_answers() {
    assert_eq!(reply_parts(&connect_github(None)).2, "Github oauth2 client not configured");
    assert_eq!(reply_parts(&connect_github(Some("https://gh".to_string()))), ("https://gh".to_string(), 500, "ok".to_string()));
}

#[test]
fn logout_flow() {
    match Logout::start(None, None, 1) {
        Logout::Done(r) => assert_eq!(reply_parts(&r), ("login".to_string(), 400, "access_token is None".to_string())),
        _ => panic!("expected an answer"),
    }
    match Logout::start(None, Some("cookie".to_string()), 1700000000000) {
        Logout::Blacklist(w) => {
            assert_eq!(w.key, "logout:blacklist::cookie");
            assert_eq!(w.value, "1700000000000");
        }
        _ => panic!("expected the blacklist step"),
    }
    match Logout::start(Some("query".to_string()), Some("cookie".to_string()), 1) {
        Logout::Blacklist(w) => assert_eq!(w.key, "logout:blacklist::query"),
        _ => panic!("expected the blacklist step"),
    }
    let ok = Logout::finish(Ok(()));
    assert_eq!(reply_parts(&ok), ("login".to_string(), 200, "Bad Parameters".to_string()));
    assert!(matches!(ok, AuthReply::Respond { cookies: ReplyCookies::RemoveTokens, .. }));
    assert_eq!(reply_parts(&Logout::finish(Err("x".to_string()))), ("login".to_string(), 400, "x".to_string()));
}

#[test]
fn login_verify_answers() {
    let r: Result<u8, AuthReply> = login_request(LoginBody::Unreadable);
    assert_eq!(reply_parts(&r.err().unwrap()).2, "Unable to read password login request failed");
    let r: Result<u8, AuthReply> = login_request(LoginBody::BadJson);
    assert_eq!(reply_parts(&r.err().unwrap()).2, "Invalid password login parameter json");
    assert_eq!(login_request(LoginBody::Parsed(5u8)).ok(), Some(5));
    let r = login_verify_reply(PasswordLogin::Accepted { uid: Some(2), name: Some("n".to_string()), email: None });
    assert_eq!(reply_parts(&r), ("n/".to_string(), 0, "2".to_string()));
    let r = login_verify_reply(PasswordLogin::Rejected(AuthError { message: "bad".to_string() }));
    assert_eq!(reply_parts(&r), ("json".to_string(), 200, "Failed to login. \"bad\"".to_string()));
}

#[test]
fn lookups_take_the_first_record() {
    assert_eq!(first_found(vec![3, 1, 2]), Some(3));
    assert_eq!(first_found(Vec::<i32>::new()), None);
}

#[test]
fn token_phases() {
    assert!(matches!(token_phase(None, 10), TokenPhase::Invalid));
    assert!(matches!(token_phase(Some(10), 10), TokenPhase::Expired));
    assert!(matches!(token_phase(Some(11), 10), TokenPhase::Live));
}

#[test]
fn user_lookup_filter_sets_the_criteria() {
    let f = user_lookup_filter(None, None, None, None, None, Some("42".to_string()), None);
    assert_eq!(f.github_claims_sub.as_deref(), Some("42"));
    assert!(f.id.is_none() && f.name.is_none() && f.lang.is_none() && f.password.is_none());
}

#[test]
fn wallet_recover_failure_is_unauthorized() {
    assert_eq!(wallet_verdict(WalletCheck::RecoverFailed).err().unwrap().message, "401 Unauthorized");
}
