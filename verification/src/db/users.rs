//! Users in the store: what is made of the rows it returns and what is
//! handed to it.

use vstd::prelude::*;
use vstd::string::StringSliceAdditionalSpecFns;
use vstd::utf8::encode_utf8;

use crate::api::user::UserInfo;
use crate::error::AppError;
use crate::server::auth::{
    password_digest, PasswordHash, Salt, HASH_LEN, MAX_HASH_INPUT_LEN, SALT_LEN,
};
use crate::server::credentials::{CredentialError, Credentials, StoredCredentials, Valid};
use crate::server::ident::{fresh_id, id_text, is_random_id, Id};

verus! {

/// A user as the store returns it for public display.
#[derive(Debug, PartialEq, Eq)]
pub struct UserRecord {
    pub id: Id,
    pub username: String,
    pub email: String,
}

/// A user that is to be stored.
#[derive(Debug)]
pub struct NewUser {
    pub email: String,
    pub username: String,
    pub salt: Salt,
    pub password_hash: PasswordHash,
}

/// What is stored of a user's credentials, from the row that holds it.
pub fn get_stored_credentials(id: Id, password_hash: Vec<u8>, salt: Vec<u8>) -> (stored:
    StoredCredentials)
    ensures
        stored.user_id() == id,
        stored.hash() == password_hash@,
        stored.salt() == salt@,
{
    StoredCredentials::new(id, PasswordHash::from_bytes(password_hash), Salt::from_bytes(salt))
}

/// The token version that replaces a user's current one: a fresh random
/// identifier.
pub fn update_token_ver() -> (token_ver: Id)
    ensures
        is_random_id(token_ver),
{
    fresh_id()
}

/// Whether a value counts as taken, given the store's answer to the
/// question whether it exists: only a plain yes counts, a failure of the
/// store does not.
pub open spec fn counts_as_taken(answer: Result<Option<bool>, AppError>) -> bool {
    answer matches Ok(Some(true))
}

/// Whether a username is taken.
pub fn is_username_taken(answer: Result<Option<bool>, AppError>) -> (taken: bool)
    ensures
        taken == counts_as_taken(answer),
{
    match answer {
        Ok(Some(exists)) => exists,
        _ => false,
    }
}

/// Whether an address is taken.
pub fn is_email_taken(answer: Result<Option<bool>, AppError>) -> (taken: bool)
    ensures
        taken == counts_as_taken(answer),
{
    match answer {
        Ok(Some(exists)) => exists,
        _ => false,
    }
}

/// The row for a new user: the address and the name, and the password
/// hashed under a fresh salt of 16 bytes. A password that is with the
/// pepper no longer than 0xFFFFFFFF bytes always gives a row; `None` comes
/// back only where the hash function refuses the password under the salt
/// that was drawn.
pub fn add_user(credentials: Credentials<Valid>, username: String, pepper: &str) -> (row: Option<
    NewUser,
>)
    ensures
        match row {
            Some(user) => {
                &&& user.email@ == credentials.email()
                &&& user.username == username
                &&& password_digest(
                    encode_utf8(credentials.password()),
                    pepper.spec_bytes(),
                    user.salt@,
                ) == Some(user.password_hash@)
                &&& user.password_hash@.len() == HASH_LEN
                &&& user.salt@.len() == SALT_LEN
            },
            None => exists|drawn: Seq<u8>|
                drawn.len() == SALT_LEN && (#[trigger] password_digest(
                    encode_utf8(credentials.password()),
                    pepper.spec_bytes(),
                    drawn,
                )) is None,
        },
        encode_utf8(credentials.password()).len() + pepper.spec_bytes().len() <= MAX_HASH_INPUT_LEN
            ==> row is Some,
{
    match credentials.prepare(pepper) {
        Some((email, password_hash, salt)) => Some(NewUser { email, username, salt, password_hash }),
        None => None,
    }
}

/// The user that an address belongs to, or the refusal of the address where
/// the store knows none.
pub fn get_user_id_by_email(found: Option<Id>) -> (outcome: Result<Id, AppError>)
    ensures
        outcome == match found {
            Some(id) => Ok::<Id, AppError>(id),
            None => Err(AppError::CredentialError(CredentialError::InvalidEmail)),
        },
{
    match found {
        Some(id) => Ok(id),
        None => Err(AppError::CredentialError(CredentialError::InvalidEmail)),
    }
}

/// Whether `info` shows `row`: the identifier as text, the username also as
/// display name, the address, and an empty list of subjects.
pub open spec fn shows(info: UserInfo, row: UserRecord) -> bool {
    &&& info.id@ == id_text(row.id)
    &&& info.username@ == row.username@
    &&& info.name matches Some(name)
    &&& name@ == row.username@
    &&& info.email@ == row.email@
    &&& info.subjects matches Some(subjects)
    &&& subjects@.len() == 0
}

/// A user as the API shows it, if the store found one.
pub fn get_user_by_id_public(row: Option<UserRecord>) -> (info: Option<UserInfo>)
    ensures
        match row {
            Some(r) => info matches Some(i) && shows(i, r),
            None => info is None,
        },
{
    match row {
        Some(r) => Some(UserInfo::from_row(r.id, r.username, r.email)),
        None => None,
    }
}

/// The name to store for a user whose profile is updated: the new display
/// name, if one is given. Subjects are not stored.
pub fn update_user(name: Option<String>, subjects: Option<Vec<String>>) -> (username: Option<String>)
    ensures
        username == name,
{
    name
}

/// All users as the API shows them, in the order of the rows.
pub fn get_all_users_public(rows: Vec<UserRecord>) -> (infos: Vec<UserInfo>)
    ensures
        infos@.len() == rows@.len(),
        forall|i: int| 0 <= i < rows@.len() ==> shows(#[trigger] infos@[i], rows@[i]),
{
    let ghost all = rows@;
    let mut infos: Vec<UserInfo> = Vec::new();
    for row in it: rows
        invariant
            it.seq() == all,
            infos@.len() == it.index(),
            forall|i: int| 0 <= i < it.index() ==> shows(#[trigger] infos@[i], all[i]),
    {
        infos.push(UserInfo::from_row(row.id, row.username, row.email));
    }
    infos
}

} // verus!
