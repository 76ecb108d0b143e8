//! Request extractors that validate what they parse, and the authentication
//! routes.
pub mod auths;

use vstd::prelude::*;
use crate::text::concat2;

verus! {

/// The status of a request that is refused as malformed.
pub const BAD_REQUEST: u16 = 400;

/// A refused request: the status and the message answered.
pub struct Rejection {
    pub status: u16,
    pub message: String,
}

/// What parsing and validating a request's body or query gave.
pub enum Checked<T> {
    /// It did not parse; the parser's message.
    ParseFailed(String),
    /// It parsed, but failed validation; the validator's message.
    Invalid(String),
    /// It parsed and is valid.
    Valid(T),
}

/// How a checked request is answered: the value when valid, else a refusal
/// whose message starts with `parse_prefix` or with `Validation error: `.
pub open spec fn accepted_as<T>(checked: Checked<T>, parse_prefix: Seq<char>, r: Result<T, Rejection>) -> bool {
    match checked {
        Checked::ParseFailed(d) => r matches Err(j) && j.status == BAD_REQUEST && j.message@ == parse_prefix + d@,
        Checked::Invalid(d) => r matches Err(j) && j.status == BAD_REQUEST && j.message@ == "Validation error: "@ + d@,
        Checked::Valid(v) => r == Ok::<T, Rejection>(v),
    }
}

/// The value of a valid request, or the refusal of a malformed one.
pub fn accept<T>(checked: Checked<T>, parse_prefix: &str) -> (r: Result<T, Rejection>)
    ensures
        accepted_as(checked, parse_prefix@, r),
{
    match checked {
        Checked::ParseFailed(d) => Err(Rejection { status: BAD_REQUEST, message: concat2(parse_prefix, d.as_str()) }),
        Checked::Invalid(d) => Err(Rejection { status: BAD_REQUEST, message: concat2("Validation error: ", d.as_str()) }),
        Checked::Valid(v) => Ok(v),
    }
}

/// A JSON body that parsed and passed validation.
pub struct ValidatedJson<T>(pub T);

/// A query string that parsed and passed validation.
pub struct ValidatedQuery<T>(pub T);

impl<T> ValidatedJson<T> {
    /// The body, when it parsed and is valid; else the refusal.
    pub fn from_checked(checked: Checked<T>) -> (r: Result<Self, Rejection>)
        ensures
            accepted_as(checked, "Json parsing error: "@, match r {
                Ok(v) => Ok(v.0),
                Err(j) => Err(j),
            }),
    {
        match accept(checked, "Json parsing error: ") {
            Ok(v) => Ok(ValidatedJson(v)),
            Err(j) => Err(j),
        }
    }
}

impl<T> ValidatedQuery<T> {
    /// The query, when it parsed and is valid; else the refusal.
    pub fn from_checked(checked: Checked<T>) -> (r: Result<Self, Rejection>)
        ensures
            accepted_as(checked, "Query parsing error: "@, match r {
                Ok(v) => Ok(v.0),
                Err(j) => Err(j),
            }),
    {
        match accept(checked, "Query parsing error: ") {
            Ok(v) => Ok(ValidatedQuery(v)),
            Err(j) => Err(j),
        }
    }
}

} // verus!
