//! Registration, login and token refresh: what each answers, given what
//! the store said.

use vstd::prelude::*;
use vstd::string::StringExecFns;

use crate::db::users::NewUser;
use crate::error::AppError;
use crate::server::credentials::{CredentialError, Credentials, Invalid};

verus! {

/// The request succeeded.
pub const STATUS_OK: u16 = 200;

/// The request created something.
pub const STATUS_CREATED: u16 = 201;

/// The request is malformed or breaks a rule.
pub const STATUS_BAD_REQUEST: u16 = 400;

/// The caller is not authenticated.
pub const STATUS_UNAUTHORIZED: u16 = 401;

/// The caller may not do this.
pub const STATUS_FORBIDDEN: u16 = 403;

/// There is no such thing.
pub const STATUS_NOT_FOUND: u16 = 404;

/// What the request would create exists already.
pub const STATUS_CONFLICT: u16 = 409;

/// The server failed.
pub const STATUS_INTERNAL_SERVER_ERROR: u16 = 500;

/// What a client sends to register.
#[derive(Debug)]
pub struct RegisterData {
    pub username: String,
    pub credentials: Credentials<Invalid>,
}

/// What a client sends to log in.
#[derive(Debug)]
pub struct LoginData {
    pub credentials: Credentials<Invalid>,
}

/// What a successful login answers: the encoded access token.
#[derive(Debug, PartialEq, Eq)]
pub struct LoginResponse {
    pub token: String,
}

/// What a successful refresh answers: the encoded access token.
#[derive(Debug, PartialEq, Eq)]
pub struct RefreshResponse {
    pub token: String,
}

/// A refusal: the status and the credential errors that explain it.
#[derive(Debug, PartialEq, Eq)]
pub struct Rejection {
    pub status: u16,
    pub errors: Vec<CredentialError>,
}

/// The cookie that carries a refresh token, as plain values.
#[derive(Debug, PartialEq, Eq)]
pub struct RefreshCookie {
    pub name: String,
    pub value: String,
    pub http_only: bool,
    pub same_site_strict: bool,
    pub path: String,
    pub secure: bool,
}

/// The cookie for an encoded refresh token: named `refresh_token`, hidden
/// from scripts, sent to the refresh route only and never across sites.
pub fn build_refresh_cookie(token: String, secure: bool) -> (cookie: RefreshCookie)
    ensures
        cookie.name@ == "refresh_token"@,
        cookie.value@ == token@,
        cookie.http_only,
        cookie.same_site_strict,
        cookie.path@ == "/auth/refresh"@,
        cookie.secure == secure,
{
    RefreshCookie {
        name: String::from_str("refresh_token"),
        value: token,
        http_only: true,
        same_site_strict: true,
        path: String::from_str("/auth/refresh"),
        secure,
    }
}

/// The errors that stand against a registration: a taken address first,
/// then a taken name.
pub open spec fn conflicts_spec(email_taken: bool, username_taken: bool) -> Seq<CredentialError> {
    (if email_taken {
        seq![CredentialError::EmailTaken]
    } else {
        Seq::<CredentialError>::empty()
    }) + (if username_taken {
        seq![CredentialError::UsernameTaken]
    } else {
        Seq::<CredentialError>::empty()
    })
}

/// What stands against a registration, given what the store said of the
/// address and the name.
pub fn registration_conflicts(email_taken: bool, username_taken: bool) -> (invalid: Vec<
    CredentialError,
>)
    ensures
        invalid@ == conflicts_spec(email_taken, username_taken),
{
    let mut invalid: Vec<CredentialError> = Vec::new();
    if email_taken {
        invalid.push(CredentialError::EmailTaken);
    }
    if username_taken {
        invalid.push(CredentialError::UsernameTaken);
    }
    assert(invalid@ =~= conflicts_spec(email_taken, username_taken));
    invalid
}

/// The refusal of credentials of the wrong form.
pub fn reject_invalid(error: CredentialError) -> (rejection: Rejection)
    ensures
        rejection.status == STATUS_BAD_REQUEST,
        rejection.errors@ == seq![error],
{
    let mut errors: Vec<CredentialError> = Vec::new();
    errors.push(error);
    Rejection { status: STATUS_BAD_REQUEST, errors }
}

/// Whether a registration may go on to be stored: refused with the list of
/// conflicts where the address or the name is taken.
pub fn registration_gate(email_taken: bool, username_taken: bool) -> (gate: Result<(), Rejection>)
    ensures
        match gate {
            Ok(_) => !email_taken && !username_taken,
            Err(rejection) => (email_taken || username_taken) && rejection.status
                == STATUS_BAD_REQUEST && rejection.errors@ == conflicts_spec(
                email_taken,
                username_taken,
            ),
        },
{
    let invalid = registration_conflicts(email_taken, username_taken);
    if invalid.len() > 0 {
        Err(Rejection { status: STATUS_BAD_REQUEST, errors: invalid })
    } else {
        Ok(())
    }
}

/// What registration answers once the store has tried to add the user:
/// created, or a server error without detail.
pub fn registration_reply(stored: Result<(), AppError>) -> (reply: Result<u16, Rejection>)
    ensures
        match reply {
            Ok(status) => stored is Ok && status == STATUS_CREATED,
            Err(rejection) => stored is Err && rejection.status == STATUS_INTERNAL_SERVER_ERROR
                && rejection.errors@.len() == 0,
        },
{
    match stored {
        Ok(_) => Ok(STATUS_CREATED),
        Err(_) => Err(Rejection { status: STATUS_INTERNAL_SERVER_ERROR, errors: Vec::new() }),
    }
}

/// The refusal that a failed step answers: a credential error is named with
/// status 400, anything else is answered with `fallback` and no detail.
pub fn rejection_for(error: &AppError, fallback: u16) -> (rejection: Rejection)
    ensures
        match *error {
            AppError::CredentialError(e) => rejection.status == STATUS_BAD_REQUEST
                && rejection.errors@ == seq![e],
            _ => rejection.status == fallback && rejection.errors@.len() == 0,
        },
{
    match error {
        AppError::CredentialError(e) => reject_invalid(*e),
        _ => Rejection { status: fallback, errors: Vec::new() },
    }
}

/// The refusal that login answers to a failed step: a server error unless
/// credentials are at fault.
pub fn login_rejection(error: &AppError) -> (rejection: Rejection)
    ensures
        match *error {
            AppError::CredentialError(e) => rejection.status == STATUS_BAD_REQUEST
                && rejection.errors@ == seq![e],
            _ => rejection.status == STATUS_INTERNAL_SERVER_ERROR && rejection.errors@.len() == 0,
        },
{
    rejection_for(error, STATUS_INTERNAL_SERVER_ERROR)
}

/// The refusal that refresh answers to a failed step: unauthorized unless
/// credentials are at fault.
pub fn refresh_rejection(error: &AppError) -> (rejection: Rejection)
    ensures
        match *error {
            AppError::CredentialError(e) => rejection.status == STATUS_BAD_REQUEST
                && rejection.errors@ == seq![e],
            _ => rejection.status == STATUS_UNAUTHORIZED && rejection.errors@.len() == 0,
        },
{
    rejection_for(error, STATUS_UNAUTHORIZED)
}

/// What an encoding step answers: the token, or a server error where the
/// encoder gave none.
pub fn encoded_or_reject(encoded: Option<String>) -> (outcome: Result<String, Rejection>)
    ensures
        match outcome {
            Ok(token) => encoded == Some(token),
            Err(rejection) => encoded is None && rejection.status == STATUS_INTERNAL_SERVER_ERROR
                && rejection.errors@.len() == 0,
        },
{
    match encoded {
        Some(token) => Ok(token),
        None => Err(Rejection { status: STATUS_INTERNAL_SERVER_ERROR, errors: Vec::new() }),
    }
}

/// The row of a new user, or a server error without detail where the
/// password could not be hashed.
pub fn hashed_or_reject(row: Option<NewUser>) -> (outcome: Result<NewUser, Rejection>)
    ensures
        match outcome {
            Ok(user) => row == Some(user),
            Err(rejection) => row is None && rejection.status == STATUS_INTERNAL_SERVER_ERROR
                && rejection.errors@.len() == 0,
        },
{
    match row {
        Some(user) => Ok(user),
        None => Err(Rejection { status: STATUS_INTERNAL_SERVER_ERROR, errors: Vec::new() }),
    }
}

/// What refresh answers where the cookie is missing or does not decode.
pub fn missing_refresh_token() -> (rejection: Rejection)
    ensures
        rejection.status == STATUS_UNAUTHORIZED,
        rejection.errors@.len() == 0,
{
    Rejection { status: STATUS_UNAUTHORIZED, errors: Vec::new() }
}

} // verus!
