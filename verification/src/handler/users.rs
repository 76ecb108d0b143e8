//! Saving users: which record a save writes, and what it answers.
use vstd::prelude::*;
use crate::handler::auth::found_id;
use crate::types::user::{SaveUserRequest, SaveUserRequestWith, User};

verus! {

/// A failed user operation, with its message.
#[derive(Debug, Clone)]
pub struct UserError {
    pub message: String,
}

/// The record that setting values on a user saves: the values given, under the
/// id of the user the lookup found, or with no id (a new user) when none was
/// found. A failed lookup is passed on.
pub fn set_save_request(lookup: Result<Option<Option<i64>>, String>, param: SaveUserRequestWith) -> (r: Result<SaveUserRequest, UserError>)
    ensures
        lookup matches Err(d) ==> (r matches Err(e) && e.message@ == d@),
        lookup matches Ok(found) ==> (r matches Ok(s)
            && s.id == found_id(found)
            && s.name == param.name
            && s.email == param.email
            && s.phone == param.phone
            && s.password == param.password
            && s.oidc_claims_sub == param.oidc_claims_sub
            && s.oidc_claims_name == param.oidc_claims_name
            && s.oidc_claims_email == param.oidc_claims_email
            && s.github_claims_sub == param.github_claims_sub
            && s.github_claims_name == param.github_claims_name
            && s.github_claims_email == param.github_claims_email
            && s.google_claims_sub == param.google_claims_sub
            && s.google_claims_name == param.google_claims_name
            && s.google_claims_email == param.google_claims_email
            && s.ethers_address is None
            && s.lang == param.lang),
{
    match lookup {
        Err(d) => Err(UserError { message: d }),
        Ok(found) => {
            let id = match found {
                Some(id) => id,
                None => None,
            };
            Ok(SaveUserRequest {
                id,
                name: param.name,
                email: param.email,
                phone: param.phone,
                password: param.password,
                oidc_claims_sub: param.oidc_claims_sub,
                oidc_claims_name: param.oidc_claims_name,
                oidc_claims_email: param.oidc_claims_email,
                github_claims_sub: param.github_claims_sub,
                github_claims_name: param.github_claims_name,
                github_claims_email: param.github_claims_email,
                google_claims_sub: param.google_claims_sub,
                google_claims_name: param.google_claims_name,
                google_claims_email: param.google_claims_email,
                ethers_address: None,
                lang: param.lang,
            })
        },
    }
}

/// The message of a save that gave no id, for a user that was found.
pub open spec fn save_failed_message() -> Seq<char> {
    "Failed to save user"@
}

/// The message of a save that gave no id, for a user that was not found.
pub open spec fn save_failed_not_found_message() -> Seq<char> {
    "Failed to save user, because no found user"@
}

/// What setting values on a user answers, given whether the user was found and
/// what the save gave back: done when the save gave a positive id.
pub fn set_outcome(found: bool, saved: Result<i64, String>) -> (r: Result<(), UserError>)
    ensures
        r is Ok <==> (saved matches Ok(id) && id > 0),
        saved matches Err(d) ==> (r matches Err(e) && e.message@ == d@),
        saved matches Ok(id) && id <= 0 && found ==> (r matches Err(e) && e.message@ == save_failed_message()),
        saved matches Ok(id) && id <= 0 && !found ==> (r matches Err(e) && e.message@ == save_failed_not_found_message()),
{
    match saved {
        Err(d) => Err(UserError { message: d }),
        Ok(id) => {
            if id > 0 {
                Ok(())
            } else if found {
                Err(UserError { message: String::from_str("Failed to save user") })
            } else {
                Err(UserError { message: String::from_str("Failed to save user, because no found user") })
            }
        },
    }
}

/// The filter a user lookup is made with: the id, name, e-mail address, phone
/// and provider subjects given; every other field absent.
pub fn user_lookup_filter(
    id: Option<i64>,
    name: Option<String>,
    email: Option<String>,
    phone: Option<String>,
    oidc_claims_sub: Option<String>,
    github_claims_sub: Option<String>,
    google_claims_sub: Option<String>,
) -> (r: User)
    ensures
        r.id == id && r.name == name && r.email == email && r.phone == phone,
        r.oidc_claims_sub == oidc_claims_sub && r.github_claims_sub == github_claims_sub
            && r.google_claims_sub == google_claims_sub,
        r.password is None && r.lang is None,
        r.oidc_claims_name is None && r.oidc_claims_email is None,
        r.github_claims_name is None && r.github_claims_email is None,
        r.google_claims_name is None && r.google_claims_email is None,
{
    User {
        id,
        name,
        email,
        phone,
        password: None,
        oidc_claims_sub,
        oidc_claims_name: None,
        oidc_claims_email: None,
        github_claims_sub,
        github_claims_name: None,
        github_claims_email: None,
        google_claims_sub,
        google_claims_name: None,
        google_claims_email: None,
        lang: None,
    }
}

/// What a lookup by some criteria gives: the first record found, if any.
pub fn first_found<T>(found: Vec<T>) -> (r: Option<T>)
    ensures
        found@.len() == 0 ==> r is None,
        found@.len() > 0 ==> r == Some(found@[0]),
{
    let mut found = found;
    if found.len() > 0 {
        Some(found.swap_remove(0))
    } else {
        None
    }
}

/// Whether saving the record updates an existing user (it has an id) rather than
/// inserting a new one.
pub fn save_updates(param: &SaveUserRequest) -> (r: bool)
    ensures
        r == (param.id is Some),
{
    param.id.is_some()
}

} // verus!
