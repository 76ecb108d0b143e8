//! Authentication: the cache keys and writes of each login method, the password
//! check, and the user records that a login through a provider saves.
use vstd::prelude::*;
use vstd::string::*;
use vstd::utf8::*;
use crate::cache::CacheError;
use crate::text::{concat3, decimal, i64_to_decimal};
use crate::text::{clone_opt_text, opt_text_is, same_opt_text};
use crate::types::user::SaveUserRequest;

verus! {

/// Prefix of the cache keys of the nonces of an OpenID Connect login.
pub const AUTH_NONCE_PREFIX: &'static str = "auth:nonce:";

/// Prefix of the cache keys of the private keys of a password login.
pub const LOGIN_PRIVATE_KEY_PREFIX: &'static str = "login:privatekey:";

/// Prefix of the cache keys of the access tokens given up by a logout.
pub const LOGOUT_BLACKLIST_PREFIX: &'static str = "logout:blacklist:";

/// How long a password login's private key is kept, in milliseconds.
pub const LOGIN_PRIVATE_KEY_EXPIRE: i32 = 30000;

/// How long a login nonce is kept, in milliseconds.
pub const AUTH_NONCE_EXPIRE: i32 = 10000;

/// How long a given-up access token is kept, in milliseconds.
pub const LOGOUT_BLACKLIST_EXPIRE: i32 = 3600000;

/// The ways a user can prove who they are.
#[derive(Debug, Clone, Copy, PartialEq, Eq, Structural)]
pub enum PrincipalType {
    Password,
    OIDC,
    Github,
    EtherWallet,
}

/// A failed authentication step, with the message the user is told.
#[derive(Debug, Clone)]
pub struct AuthError {
    pub message: String,
}

/// The cache key of `id` under `prefix`: the prefix, a colon, then the id.
pub open spec fn cache_key(prefix: Seq<char>, id: Seq<char>) -> Seq<char> {
    prefix + ":"@ + id
}

/// The key under which a login nonce is kept.
pub fn build_auth_nonce_key(nonce: &str) -> (r: String)
    ensures
        r@ == cache_key(AUTH_NONCE_PREFIX@, nonce@),
{
    concat3(AUTH_NONCE_PREFIX, ":", nonce)
}

/// The key under which a password login's private key is kept.
pub fn build_login_private_key(fingerprint_token: &str) -> (r: String)
    ensures
        r@ == cache_key(LOGIN_PRIVATE_KEY_PREFIX@, fingerprint_token@),
{
    concat3(LOGIN_PRIVATE_KEY_PREFIX, ":", fingerprint_token)
}

/// The key under which a given-up access token is kept.
pub fn build_logout_blacklist_key(access_token: &str) -> (r: String)
    ensures
        r@ == cache_key(LOGOUT_BLACKLIST_PREFIX@, access_token@),
{
    concat3(LOGOUT_BLACKLIST_PREFIX, ":", access_token)
}

/// A value to store in the cache, with its time to live in milliseconds.
pub struct CacheWrite {
    pub key: String,
    pub value: String,
    pub expire: i32,
}

/// The write that keeps a password login's private key, for the login's
/// fingerprint, until the password arrives.
pub fn password_pubkey_write(fingerprint_token: &str, private_key: String) -> (r: CacheWrite)
    ensures
        r.key@ == cache_key(LOGIN_PRIVATE_KEY_PREFIX@, fingerprint_token@),
        r.value@ == private_key@,
        r.expire == LOGIN_PRIVATE_KEY_EXPIRE,
{
    CacheWrite { key: build_login_private_key(fingerprint_token), value: private_key, expire: LOGIN_PRIVATE_KEY_EXPIRE }
}

/// The key a login nonce is kept under for the session `sid`. It is the
/// blacklist key of `sid`, the same key that the nonce is read back from.
pub fn auth_nonce_key(sid: &str) -> (r: String)
    ensures
        r@ == cache_key(LOGOUT_BLACKLIST_PREFIX@, sid@),
{
    build_logout_blacklist_key(sid)
}

/// The write that keeps the nonce of the session `sid` for a short while.
pub fn auth_nonce_write(sid: &str, nonce: String) -> (r: CacheWrite)
    ensures
        r.key@ == cache_key(LOGOUT_BLACKLIST_PREFIX@, sid@),
        r.value@ == nonce@,
        r.expire == AUTH_NONCE_EXPIRE,
{
    CacheWrite { key: auth_nonce_key(sid), value: nonce, expire: AUTH_NONCE_EXPIRE }
}

/// The message of a logout without an access token.
pub open spec fn no_access_token_message() -> Seq<char> {
    "access_token is None"@
}

/// The write that blacklists a logged-out access token, with the logout time in
/// milliseconds as its value; an error when no access token is given.
pub fn logout_write(access_token: Option<String>, now_millis: i64) -> (r: Result<CacheWrite, AuthError>)
    ensures
        access_token is None <==> r is Err,
        r matches Err(e) ==> e.message@ == no_access_token_message(),
        access_token matches Some(ak) ==> (r matches Ok(w)
            && w.key@ == cache_key(LOGOUT_BLACKLIST_PREFIX@, ak@)
            && w.value@ == decimal(now_millis as int)
            && w.expire == LOGOUT_BLACKLIST_EXPIRE),
{
    match access_token {
        Some(ak) => Ok(CacheWrite {
            key: build_logout_blacklist_key(ak.as_str()),
            value: i64_to_decimal(now_millis),
            expire: LOGOUT_BLACKLIST_EXPIRE,
        }),
        None => Err(AuthError { message: String::from_str("access_token is None") }),
    }
}

/// Whether two byte strings are equal, looking at every byte of them whatever
/// they hold, so the time taken does not tell where they differ.
pub fn constant_time_eq(a: &[u8], b: &[u8]) -> (r: bool)
    ensures
        r == (a@ == b@),
{
    if a.len() != b.len() {
        return false;
    }
    let mut diff: u8 = 0;
    let mut i: usize = 0;
    while i < a.len()
        invariant
            a@.len() == b@.len(),
            i <= a@.len(),
            (diff == 0) == (forall|k: int| 0 <= k < i ==> a@[k] == b@[k]),
        decreases a@.len() - i,
    {
        let x = a[i];
        let y = b[i];
        let d: u8 = x ^ y;
        assert((d == 0) == (x == y)) by (bit_vector)
            requires
                d == x ^ y,
        ;
        let nd: u8 = diff | d;
        assert((nd == 0) == (diff == 0 && d == 0)) by (bit_vector)
            requires
                nd == diff | d,
        ;
        diff = nd;
        i = i + 1;
    }
    proof {
        if diff == 0 {
            assert(a@ =~= b@);
        }
    }
    diff == 0
}

/// The steps of a password login. A login starts by reading the private key
/// kept for its fingerprint; it decrypts the password with it; it looks the
/// user up; and it accepts that user when the stored password equals the
/// decrypted one.
pub enum PasswordLogin {
    ReadPrivateKey { key: String },
    Decrypt { private_key: String },
    LookupUser { hashed: Vec<u8> },
    /// The user logged in: its id, name and e-mail address.
    Accepted { uid: Option<i64>, name: Option<String>, email: Option<String> },
    Rejected(AuthError),
}

/// A user found for a login: its id, name, e-mail address and stored password.
pub struct FoundUser {
    pub uid: Option<i64>,
    pub name: Option<String>,
    pub email: Option<String>,
    pub password: Option<String>,
}

/// What a step of a password login came back with.
pub enum PasswordLoginEvent {
    /// The cache read of the private key.
    PrivateKeyRead(Result<Option<String>, CacheError>),
    /// The decryption of the password, or why it failed.
    Decrypted(Result<Vec<u8>, String>),
    /// The user found, if any, or why the lookup failed.
    UserLookedUp(Result<Option<FoundUser>, String>),
}

/// The message of a password login whose private key has expired; `request`
/// describes the login request.
pub open spec fn no_private_key_message(request: Seq<char>) -> Seq<char> {
    "No login private key, The operation takes too long? Please refresh and log in again. "@ + request
}

/// The message of a password login for an unknown user.
pub open spec fn no_user_message(request: Seq<char>) -> Seq<char> {
    "No login user, Please confirm that the login account is correct. "@ + request
}

/// The message of a password that could not be decrypted.
pub open spec fn undecryptable_message(detail: Seq<char>) -> Seq<char> {
    "Unable decryption password. "@ + detail
}

/// The message of a wrong password.
pub open spec fn invalid_password_message() -> Seq<char> {
    "Invalid password"@
}

/// Whether `r` is the rejection with the message `m`.
pub open spec fn rejected_with(r: PasswordLogin, m: Seq<char>) -> bool {
    r matches PasswordLogin::Rejected(e) && e.message@ == m
}

/// The bytes of a stored password; none when no password is stored.
pub open spec fn stored_password_bytes(stored: Option<String>) -> Seq<u8> {
    match stored {
        Some(p) => encode_utf8(p@),
        None => Seq::empty(),
    }
}

/// The step a password login takes on an event; `request` describes the login
/// request for the messages. An event that does not answer the current step
/// leaves the login where it is.
pub open spec fn password_login_steps(s: PasswordLogin, e: PasswordLoginEvent, request: Seq<char>, r: PasswordLogin) -> bool {
    match (s, e) {
        (PasswordLogin::ReadPrivateKey { .. }, PasswordLoginEvent::PrivateKeyRead(read)) => match read {
            Err(ce) => rejected_with(r, ce.message@),
            Ok(None) => rejected_with(r, no_private_key_message(request)),
            Ok(Some(pk)) => r matches PasswordLogin::Decrypt { private_key } && private_key@ == pk@,
        },
        (PasswordLogin::Decrypt { .. }, PasswordLoginEvent::Decrypted(d)) => match d {
            Err(detail) => rejected_with(r, undecryptable_message(detail@)),
            Ok(h) => r matches PasswordLogin::LookupUser { hashed } && hashed@ == h@,
        },
        (PasswordLogin::LookupUser { hashed }, PasswordLoginEvent::UserLookedUp(found)) => match found {
            Err(detail) => rejected_with(r, detail@),
            Ok(None) => rejected_with(r, no_user_message(request)),
            Ok(Some(u)) => if hashed@ == stored_password_bytes(u.password) {
                r == PasswordLogin::Accepted { uid: u.uid, name: u.name, email: u.email }
            } else {
                rejected_with(r, invalid_password_message())
            },
        },
        _ => r == s,
    }
}

fn password_bytes_equal(hashed: &Vec<u8>, stored: &Option<String>) -> (r: bool)
    ensures
        r == (hashed@ == stored_password_bytes(*stored)),
{
    match stored {
        Some(p) => {
            let b = p.as_str().as_bytes();
            constant_time_eq(hashed.as_slice(), b)
        },
        None => {
            let empty: Vec<u8> = Vec::new();
            let r = constant_time_eq(hashed.as_slice(), empty.as_slice());
            assert(empty@ =~= Seq::<u8>::empty());
            r
        },
    }
}

impl PasswordLogin {
    /// A password login for the fingerprint: first the private key kept for it
    /// is read.
    pub fn start(fingerprint_token: &str) -> (r: Self)
        ensures
            r matches PasswordLogin::ReadPrivateKey { key } && key@ == cache_key(LOGIN_PRIVATE_KEY_PREFIX@, fingerprint_token@),
    {
        PasswordLogin::ReadPrivateKey { key: build_login_private_key(fingerprint_token) }
    }

    /// The next step, on what the current step came back with.
    pub fn next(self, event: PasswordLoginEvent, request: &str) -> (r: Self)
        ensures
            password_login_steps(self, event, request@, r),
    {
        match (self, event) {
            (PasswordLogin::ReadPrivateKey { key }, PasswordLoginEvent::PrivateKeyRead(read)) => match read {
                Err(ce) => PasswordLogin::Rejected(AuthError { message: ce.message }),
                Ok(None) => PasswordLogin::Rejected(AuthError {
                    message: crate::text::concat2(
                        "No login private key, The operation takes too long? Please refresh and log in again. ",
                        request,
                    ),
                }),
                Ok(Some(pk)) => PasswordLogin::Decrypt { private_key: pk },
            },
            (PasswordLogin::Decrypt { private_key }, PasswordLoginEvent::Decrypted(d)) => match d {
                Err(detail) => PasswordLogin::Rejected(AuthError {
                    message: crate::text::concat2("Unable decryption password. ", detail.as_str()),
                }),
                Ok(h) => PasswordLogin::LookupUser { hashed: h },
            },
            (PasswordLogin::LookupUser { hashed }, PasswordLoginEvent::UserLookedUp(found)) => match found {
                Err(detail) => PasswordLogin::Rejected(AuthError { message: detail }),
                Ok(None) => PasswordLogin::Rejected(AuthError {
                    message: crate::text::concat2(
                        "No login user, Please confirm that the login account is correct. ",
                        request,
                    ),
                }),
                Ok(Some(u)) => {
                    if password_bytes_equal(&hashed, &u.password) {
                        PasswordLogin::Accepted { uid: u.uid, name: u.name, email: u.email }
                    } else {
                        PasswordLogin::Rejected(AuthError { message: String::from_str("Invalid password") })
                    }
                },
            },
            (s, _) => s,
        }
    }
}

/// The id of the user a lookup found: none when no user was found, or when the
/// user found has no id.
pub open spec fn found_id(existing: Option<Option<i64>>) -> Option<i64> {
    match existing {
        Some(id) => id,
        None => None,
    }
}

/// A save request with only the id set.
fn blank_save_request(id: Option<i64>) -> (r: SaveUserRequest)
    ensures
        r.id == id,
        r.name is None,
        r.email is None,
        r.phone is None,
        r.password is None,
        r.oidc_claims_sub is None,
        r.oidc_claims_name is None,
        r.oidc_claims_email is None,
        r.github_claims_sub is None,
        r.github_claims_name is None,
        r.github_claims_email is None,
        r.google_claims_sub is None,
        r.google_claims_name is None,
        r.google_claims_email is None,
        r.ethers_address is None,
        r.lang is None,
{
    SaveUserRequest {
        id,
        name: None,
        email: None,
        phone: None,
        password: None,
        oidc_claims_sub: None,
        oidc_claims_name: None,
        oidc_claims_email: None,
        github_claims_sub: None,
        github_claims_name: None,
        github_claims_email: None,
        google_claims_sub: None,
        google_claims_name: None,
        google_claims_email: None,
        ethers_address: None,
        lang: None,
    }
}

/// The user record a GitHub login saves: the user found by the GitHub id is
/// updated (its id kept), or a new user is registered, named by the GitHub login,
/// with the GitHub id, login and e-mail address as its claims.
pub fn github_bind_request(existing: Option<Option<i64>>, github_sub: i64, github_uname: &str, github_email: Option<String>) -> (r: SaveUserRequest)
    ensures
        r.id == found_id(existing),
        opt_text_is(r.name, github_uname@),
        opt_text_is(r.github_claims_sub, decimal(github_sub as int)),
        opt_text_is(r.github_claims_name, github_uname@),
        same_opt_text(r.github_claims_email, github_email),
        r.email is None && r.phone is None && r.password is None && r.lang is None,
        r.oidc_claims_sub is None && r.oidc_claims_name is None && r.oidc_claims_email is None,
        r.google_claims_sub is None && r.google_claims_name is None && r.google_claims_email is None,
        r.ethers_address is None,
{
    let id = match existing {
        Some(id) => id,
        None => None,
    };
    let mut r = blank_save_request(id);
    r.name = Some(String::from_str(github_uname));
    r.github_claims_sub = Some(i64_to_decimal(github_sub));
    r.github_claims_name = Some(String::from_str(github_uname));
    r.github_claims_email = github_email;
    r
}

/// The user record an OpenID Connect login saves: the user found by the subject
/// is updated (its id kept), or a new user is registered, named by the preferred
/// user name, with the subject, that name and the e-mail address as its claims.
pub fn oidc_bind_request(existing: Option<Option<i64>>, oidc_sub: &str, preferred_name: Option<String>, oidc_email: Option<String>) -> (r: SaveUserRequest)
    ensures
        r.id == found_id(existing),
        same_opt_text(r.name, preferred_name),
        opt_text_is(r.oidc_claims_sub, oidc_sub@),
        same_opt_text(r.oidc_claims_name, preferred_name),
        same_opt_text(r.oidc_claims_email, oidc_email),
        r.email is None && r.phone is None && r.password is None && r.lang is None,
        r.github_claims_sub is None && r.github_claims_name is None && r.github_claims_email is None,
        r.google_claims_sub is None && r.google_claims_name is None && r.google_claims_email is None,
        r.ethers_address is None,
{
    let id = match existing {
        Some(id) => id,
        None => None,
    };
    let mut r = blank_save_request(id);
    r.name = clone_opt_text(&preferred_name);
    r.oidc_claims_sub = Some(String::from_str(oidc_sub));
    r.oidc_claims_name = preferred_name;
    r.oidc_claims_email = oidc_email;
    r
}

/// The user record a wallet login saves: the user found by the wallet address is
/// updated (its id kept), or a new user is registered, named by the address.
pub fn wallet_bind_request(existing: Option<Option<i64>>, address: &str) -> (r: SaveUserRequest)
    ensures
        r.id == found_id(existing),
        opt_text_is(r.name, address@),
        opt_text_is(r.ethers_address, address@),
        r.email is None && r.phone is None && r.password is None && r.lang is None,
        r.oidc_claims_sub is None && r.oidc_claims_name is None && r.oidc_claims_email is None,
        r.github_claims_sub is None && r.github_claims_name is None && r.github_claims_email is None,
        r.google_claims_sub is None && r.google_claims_name is None && r.google_claims_email is None,
{
    let id = match existing {
        Some(id) => id,
        None => None,
    };
    let mut r = blank_save_request(id);
    r.name = Some(String::from_str(address));
    r.ethers_address = Some(String::from_str(address));
    r
}

/// How the check of a wallet login's signature went.
pub enum WalletCheck {
    /// The address does not parse.
    BadAddress,
    /// The signature does not parse.
    BadSignature,
    /// No address could be recovered from the signature and message.
    RecoverFailed,
    /// An address was recovered; whether it is the one claimed.
    Recovered { matches: bool },
}

/// The message of a signer that could not be recovered or is not the one
/// claimed (the text of the status `401 Unauthorized`).
pub open spec fn wallet_mismatch_message() -> Seq<char> {
    "401 Unauthorized"@
}

/// What a wallet login's check decides: on to saving the user when the recovered
/// address is the one claimed, else the error.
pub fn wallet_verdict(check: WalletCheck) -> (r: Result<(), AuthError>)
    ensures
        r is Ok <==> (check matches WalletCheck::Recovered { matches } && matches),
        check is BadAddress ==> (r matches Err(e) && e.message@ == "Invalid address"@),
        check is BadSignature ==> (r matches Err(e) && e.message@ == "Invalid signature"@),
        check is RecoverFailed ==> (r matches Err(e) && e.message@ == wallet_mismatch_message()),
        check matches WalletCheck::Recovered { matches } && !matches ==> (r matches Err(e) && e.message@ == wallet_mismatch_message()),
{
    match check {
        WalletCheck::BadAddress => Err(AuthError { message: String::from_str("Invalid address") }),
        WalletCheck::BadSignature => Err(AuthError { message: String::from_str("Invalid signature") }),
        WalletCheck::RecoverFailed => Err(AuthError { message: String::from_str("401 Unauthorized") }),
        WalletCheck::Recovered { matches } => {
            if matches {
                Ok(())
            } else {
                Err(AuthError { message: String::from_str("401 Unauthorized") })
            }
        },
    }
}

/// Law: under one prefix, distinct ids have distinct cache keys, so one user's
/// nonce, key or blacklisted token is never read for another's.
pub proof fn law_cache_key_injective(prefix: Seq<char>, a: Seq<char>, b: Seq<char>)
    requires
        cache_key(prefix, a) == cache_key(prefix, b),
    ensures
        a == b,
{
    reveal_strlit(":");
    let n = prefix.len() + 1;
    assert(a =~= cache_key(prefix, a).subrange(n as int, cache_key(prefix, a).len() as int));
    assert(b =~= cache_key(prefix, b).subrange(n as int, cache_key(prefix, b).len() as int));
}

/// Law: a password login is accepted only at the user lookup, only when the
/// password stored for the user found equals the decrypted one, and for that user.
pub proof fn law_password_accepted_only_on_match(s: PasswordLogin, e: PasswordLoginEvent, request: Seq<char>, r: PasswordLogin)
    requires
        password_login_steps(s, e, request, r),
        r is Accepted,
        !(s is Accepted),
    ensures
        s matches PasswordLogin::LookupUser { hashed } && (e matches PasswordLoginEvent::UserLookedUp(Ok(Some(u)))
            && hashed@ == stored_password_bytes(u.password)
            && r == PasswordLogin::Accepted { uid: u.uid, name: u.name, email: u.email }),
{
}

} // verus!
