//! Users as the API shows them.

use vstd::prelude::*;

use crate::server::ident::{id_text, id_to_string, Id};

verus! {

/// What the API tells of a user.
#[derive(Debug, PartialEq, Eq)]
pub struct UserInfo {
    pub id: String,
    pub username: String,
    pub name: Option<String>,
    pub email: String,
    pub subjects: Option<Vec<String>>,
}

/// The answer to a request for one user.
#[derive(Debug, PartialEq, Eq)]
pub struct GetUserResponse {
    pub user: UserInfo,
}

/// The answer to a request that failed.
#[derive(Debug, PartialEq, Eq)]
pub struct ErrorResponse {
    pub message: String,
}

/// What a user may change of their profile.
#[derive(Debug, PartialEq, Eq)]
pub struct UpdateUserRequest {
    pub name: Option<String>,
    pub subjects: Option<Vec<String>>,
}

impl GetUserResponse {
    /// The answer that shows `user`.
    pub fn new(user: UserInfo) -> (response: Self)
        ensures
            response.user == user,
    {
        Self { user }
    }
}

impl ErrorResponse {
    /// The answer with the given message.
    pub fn new(message: String) -> (response: Self)
        ensures
            response.message == message,
    {
        Self { message }
    }
}

impl UserInfo {
    /// A stored user as the API shows it: the identifier as text, the
    /// username also as display name, and no subjects yet.
    pub fn from_row(id: Id, username: String, email: String) -> (info: Self)
        ensures
            info.id@ == id_text(id),
            info.username@ == username@,
            info.name matches Some(name) && name@ == username@,
            info.email@ == email@,
            info.subjects matches Some(subjects) && subjects@.len() == 0,
    {
        let name = username.clone();
        UserInfo { id: id_to_string(id), username, name: Some(name), email, subjects: Some(Vec::new()) }
    }
}

} // verus!
