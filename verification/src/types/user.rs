//! What a handler saves of a user, and the identity a login provider reports.
use vstd::prelude::*;

verus! {

/// A user to create (no `id`) or update (an `id`).
pub struct SaveUserRequest {
    pub id: Option<i64>,
    pub name: Option<String>,
    pub email: Option<String>,
    pub phone: Option<String>,
    pub password: Option<String>,
    pub oidc_claims_sub: Option<String>,
    pub oidc_claims_name: Option<String>,
    pub oidc_claims_email: Option<String>,
    pub github_claims_sub: Option<String>,
    pub github_claims_name: Option<String>,
    pub github_claims_email: Option<String>,
    pub google_claims_sub: Option<String>,
    pub google_claims_name: Option<String>,
    pub google_claims_email: Option<String>,
    pub ethers_address: Option<String>,
    pub lang: Option<String>,
}

/// The values to set on a user found by some criteria.
pub struct SaveUserRequestWith {
    pub name: Option<String>,
    pub email: Option<String>,
    pub phone: Option<String>,
    pub password: Option<String>,
    pub oidc_claims_sub: Option<String>,
    pub oidc_claims_name: Option<String>,
    pub oidc_claims_email: Option<String>,
    pub github_claims_sub: Option<String>,
    pub github_claims_name: Option<String>,
    pub github_claims_email: Option<String>,
    pub google_claims_sub: Option<String>,
    pub google_claims_name: Option<String>,
    pub google_claims_email: Option<String>,
    pub lang: Option<String>,
}

/// A user record as a lookup filter: the fields given are matched, the absent
/// ones match anything.
pub struct User {
    pub id: Option<i64>,
    pub name: Option<String>,
    pub email: Option<String>,
    pub phone: Option<String>,
    pub password: Option<String>,
    pub oidc_claims_sub: Option<String>,
    pub oidc_claims_name: Option<String>,
    pub oidc_claims_email: Option<String>,
    pub github_claims_sub: Option<String>,
    pub github_claims_name: Option<String>,
    pub github_claims_email: Option<String>,
    pub google_claims_sub: Option<String>,
    pub google_claims_name: Option<String>,
    pub google_claims_email: Option<String>,
    pub lang: Option<String>,
}

/// The user GitHub reports for an access token.
pub struct GithubUserInfo {
    pub id: Option<i64>,
    pub login: Option<String>,
    pub email: Option<String>,
}

/// The claims an OpenID Connect provider reports for an access token.
pub struct OidcUserInfo {
    pub subject: String,
    pub preferred_username: Option<String>,
    pub email: Option<String>,
}

} // verus!
