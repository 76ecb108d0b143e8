//! The records kept in the databases, and the requests and responses about them.
pub mod documents;
pub mod users;

use chrono::Utc;
use vstd::prelude::*;

verus! {

/// `chrono::Utc::now`, as milliseconds since the Unix epoch
/// (`DateTime::timestamp_millis`). It depends on the clock, so nothing is stated
/// of it.
#[verifier::external_body]
pub(crate) fn now_millis() -> (r: i64) {
    Utc::now().timestamp_millis()
}

/// Who created or updated a record when nobody is named.
pub const DEFAULT_BY: &'static str = "unknown";

/// The id every new record is given.
pub const NEW_RECORD_ID: i64 = 1001;

/// The fields every record carries; the times are milliseconds since the Unix
/// epoch, in UTC.
#[derive(Clone, Debug)]
pub struct BaseBean {
    pub id: Option<i64>,
    pub create_time: Option<i64>,
    pub update_time: Option<i64>,
    pub create_by: Option<String>,
    pub update_by: Option<String>,
    pub del_flag: Option<i32>,
}

impl BaseBean {
    /// A new record's fields, created and updated by `unknown`.
    pub fn new_default() -> (r: Self)
        ensures
            r.id == Some(NEW_RECORD_ID),
            r.create_time is Some,
            r.update_time is Some,
            r.create_by matches Some(s) && s@ == DEFAULT_BY@,
            r.update_by matches Some(s) && s@ == DEFAULT_BY@,
            r.del_flag == Some(0i32),
    {
        Self::new(Some(String::from_str(DEFAULT_BY)), Some(String::from_str(DEFAULT_BY)))
    }

    /// A new record's fields: the fixed new id, both times set to now, not deleted.
    pub fn new(create_by: Option<String>, update_by: Option<String>) -> (r: Self)
        ensures
            r.id == Some(NEW_RECORD_ID),
            r.create_time is Some,
            r.update_time is Some,
            r.create_by == create_by,
            r.update_by == update_by,
            r.del_flag == Some(0i32),
    {
        Self {
            id: Some(NEW_RECORD_ID),
            create_time: Some(now_millis()),
            update_time: Some(now_millis()),
            create_by,
            update_by,
            del_flag: Some(0),
        }
    }

    /// Marks the record as updated now by `update_by`; the other fields are kept.
    pub fn pre_update(&mut self, update_by: Option<String>)
        ensures
            final(self).update_time is Some,
            final(self).update_by == update_by,
            final(self).id == old(self).id,
            final(self).create_time == old(self).create_time,
            final(self).create_by == old(self).create_by,
            final(self).del_flag == old(self).del_flag,
    {
        self.update_time = Some(now_millis());
        self.update_by = update_by;
    }
}

} // verus!
