//! Repositories of records, and the container that picks the repository of the
//! configured database.
use vstd::prelude::*;
use crate::config::config::{ApiConfig, DbType};
use crate::text::concat3;

verus! {

/// The address of the SQLite database kept in the directory `dir`.
pub fn sqlite_db_url(dir: &str) -> (r: String)
    ensures
        r@ == "sqlite://"@ + dir@ + "/sqlite.db"@,
{
    concat3("sqlite://", dir, "/sqlite.db")
}

/// A failure of a repository operation.
#[derive(Debug, Clone)]
pub struct RepositoryError {
    pub message: String,
}

/// A store of records of type `T`, kept in some database.
pub trait Repository<T> {
    /// All records.
    fn select_all(&self) -> Result<Vec<T>, RepositoryError>;

    /// The record with the id.
    fn select_by_id(&self, id: i32) -> Result<T, RepositoryError>;

    /// Adds the record; gives back the record as stored.
    fn insert(&self, param: T) -> Result<T, RepositoryError>;

    /// Replaces the record; gives back the record as stored.
    fn update(&self, param: T) -> Result<T, RepositoryError>;

    /// Removes all records under the id; gives the number removed.
    fn delete_all(&self, id: i32) -> Result<i32, RepositoryError>;

    /// Removes the record with the id; gives the number removed.
    fn delete_by_id(&self, id: i32) -> Result<i32, RepositoryError>;
}

/// The repository the configuration selects.
pub enum RepoRef<'a, S, M> {
    Sqlite(&'a S),
    Mongo(&'a M),
}

/// The repositories of both databases; the configuration decides which serves.
pub struct RepositoryContainer<S, M> {
    sqlite_repo: S,
    mongo_repo: M,
}

impl<S, M> RepositoryContainer<S, M> {
    /// The SQLite repository held.
    pub closed spec fn sqlite(&self) -> S {
        self.sqlite_repo
    }

    /// The MongoDB repository held.
    pub closed spec fn mongo(&self) -> M {
        self.mongo_repo
    }

    pub fn new(sqlite_repo: S, mongo_repo: M) -> (r: Self)
        ensures
            r.sqlite() == sqlite_repo,
            r.mongo() == mongo_repo,
    {
        RepositoryContainer { sqlite_repo, mongo_repo }
    }

    fn sqlite_repo(&self) -> (r: &S)
        ensures
            *r == self.sqlite(),
    {
        &self.sqlite_repo
    }

    fn mongo_repo(&self) -> (r: &M)
        ensures
            *r == self.mongo(),
    {
        &self.mongo_repo
    }

    /// The repository of the configured database.
    pub fn repo(&mut self, config: &ApiConfig) -> (r: RepoRef<'_, S, M>)
        ensures
            config.service.db.db_type == DbType::Sqlite ==> (r matches RepoRef::Sqlite(s) && *s == old(self).sqlite()),
            config.service.db.db_type == DbType::Mongo ==> (r matches RepoRef::Mongo(m) && *m == old(self).mongo()),
            *final(self) == *old(self),
    {
        match config.service.db.db_type {
            DbType::Sqlite => RepoRef::Sqlite(self.sqlite_repo()),
            DbType::Mongo => RepoRef::Mongo(self.mongo_repo()),
        }
    }
}

} // verus!
