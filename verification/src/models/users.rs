//! User records and the requests and responses about them.
use vstd::prelude::*;
use super::BaseBean;

verus! {

/// A user.
#[derive(Clone, Debug)]
pub struct User {
    pub base: BaseBean,
    pub name: String,
    pub email: String,
    pub password: Option<String>,
}

/// A search for users by name and e-mail address.
pub struct QueryUserRequest {
    pub name: Option<String>,
    pub email: Option<String>,
}

/// The users found.
pub struct QueryUserResponse {
    pub users: Vec<User>,
}

/// A user to save.
pub struct SaveUserRequest {
    pub name: String,
    pub email: String,
    pub password: String,
}

/// The user saved.
pub struct SaveUserResponse {
    pub user: User,
}

/// The user to delete.
pub struct DeleteUserRequest {
    pub id: String,
}

/// The user deleted.
pub struct DeleteUserResponse {
    pub id: String,
}

} // verus!
