//! Request extractors that validate what they parse.
use vstd::prelude::*;
use crate::routes::{Checked, Rejection, accept, accepted_as};

verus! {

/// A JSON body that parsed and passed validation.
pub struct ValidatedJson<T>(pub T);

/// A query string that parsed and passed validation.
pub struct ValidatedQuery<T>(pub T);

impl<T> ValidatedJson<T> {
    /// The body, when it parsed and is valid; else the refusal.
    pub fn from_checked(checked: Checked<T>) -> (r: Result<Self, Rejection>)
        ensures
            accepted_as(checked, "Json parsing error: "@, match r {
                Ok(v) => Ok(v.0),
                Err(j) => Err(j),
            }),
    {
        match accept(checked, "Json parsing error: ") {
            Ok(v) => Ok(ValidatedJson(v)),
            Err(j) => Err(j),
        }
    }
}

impl<T> ValidatedQuery<T> {
    /// The query, when it parsed and is valid; else the refusal.
    pub fn from_checked(checked: Checked<T>) -> (r: Result<Self, Rejection>)
        ensures
            accepted_as(checked, "Query parsing error: "@, match r {
                Ok(v) => Ok(v.0),
                Err(j) => Err(j),
            }),
    {
        match accept(checked, "Query parsing error: ") {
            Ok(v) => Ok(ValidatedQuery(v)),
            Err(j) => Err(j),
        }
    }
}

} // verus!
