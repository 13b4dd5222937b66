//! Everything that can go wrong in a request, and how much of it a client
//! is told.

use vstd::prelude::*;
use vstd::string::StringExecFns;

use crate::server::auth::TokenError;
use crate::server::credentials::CredentialError;

verus! {

/// The classes of failure that a client can tell apart.
#[derive(Debug, Clone, Copy, PartialEq, Eq, Structural)]
pub enum ErrorKind {
    /// A bad, expired or missing token, or wrong credentials.
    Unauthorized,
    /// Authenticated, but no participant of the thread.
    AccessDenied,
    /// An unknown thread, post or user.
    NotFound,
    /// A malformed command or request body.
    ValidationError,
    /// A value that must be unique is taken.
    Conflict,
    /// The store or the transport failed.
    Internal,
}

/// A failure of a request.
#[derive(Debug)]
pub enum AppError {
    /// Anything without a class of its own, described in words.
    GenericError(String),
    /// The store failed; the text is its own description.
    SqlxError(String),
    /// Credentials were refused.
    CredentialError(CredentialError),
    /// A refresh token was refused.
    TokenError(TokenError),
    /// The store's schema could not be brought up to date.
    MigrationError(String),
    /// A body or payload was no valid JSON of the expected shape.
    JsonError(String),
    /// A text was no identifier.
    UuidError(uuid::Error),
    /// The caller is no participant of the thread, or there is no such thread.
    AccessDenied,
    /// There is no such thing.
    NotFound(String),
    /// The request makes no sense as it stands.
    BadRequest(String),
    /// The server is at fault.
    InternalServerError(String),
}

/// `Display` of `uuid::Error`: the parse error in words. Nothing is claimed
/// of the text.
#[verifier::external_body]
fn describe_uuid_error(error: &uuid::Error) -> (text: String) {
    error.to_string()
}

impl AppError {
    /// The class of the failure.
    pub open spec fn spec_kind(&self) -> ErrorKind {
        match *self {
            AppError::GenericError(_) => ErrorKind::Internal,
            AppError::SqlxError(_) => ErrorKind::Internal,
            AppError::CredentialError(e) => match e {
                CredentialError::InvalidEmail => ErrorKind::Unauthorized,
                CredentialError::InvalidPassword => ErrorKind::Unauthorized,
                CredentialError::EmailTaken => ErrorKind::Conflict,
                CredentialError::UsernameTaken => ErrorKind::Conflict,
                CredentialError::InvalidCredentials => ErrorKind::Unauthorized,
            },
            AppError::TokenError(_) => ErrorKind::Unauthorized,
            AppError::MigrationError(_) => ErrorKind::Internal,
            AppError::JsonError(_) => ErrorKind::ValidationError,
            AppError::UuidError(_) => ErrorKind::ValidationError,
            AppError::AccessDenied => ErrorKind::AccessDenied,
            AppError::NotFound(_) => ErrorKind::NotFound,
            AppError::BadRequest(_) => ErrorKind::ValidationError,
            AppError::InternalServerError(_) => ErrorKind::Internal,
        }
    }

    /// The class of the failure.
    pub fn kind(&self) -> (kind: ErrorKind)
        ensures
            kind == self.spec_kind(),
    {
        match self {
            AppError::GenericError(_) => ErrorKind::Internal,
            AppError::SqlxError(_) => ErrorKind::Internal,
            AppError::CredentialError(e) => match e {
                CredentialError::InvalidEmail => ErrorKind::Unauthorized,
                CredentialError::InvalidPassword => ErrorKind::Unauthorized,
                CredentialError::EmailTaken => ErrorKind::Conflict,
                CredentialError::UsernameTaken => ErrorKind::Conflict,
                CredentialError::InvalidCredentials => ErrorKind::Unauthorized,
            },
            AppError::TokenError(_) => ErrorKind::Unauthorized,
            AppError::MigrationError(_) => ErrorKind::Internal,
            AppError::JsonError(_) => ErrorKind::ValidationError,
            AppError::UuidError(_) => ErrorKind::ValidationError,
            AppError::AccessDenied => ErrorKind::AccessDenied,
            AppError::NotFound(_) => ErrorKind::NotFound,
            AppError::BadRequest(_) => ErrorKind::ValidationError,
            AppError::InternalServerError(_) => ErrorKind::Internal,
        }
    }

    /// The failure in words, for the server's own log. For every variant but
    /// `UuidError` the text is fixed by the variant and what it holds; for
    /// `UuidError` it begins with the fixed words and goes on with the
    /// parser's own.
    pub fn message(&self) -> (text: String)
        ensures
            match *self {
                AppError::GenericError(s) => text@ == "A generic error has occured "@ + s@,
                AppError::SqlxError(s) => text@ == "Sqlx Error: "@ + s@,
                AppError::CredentialError(e) => text@ == match e {
                    CredentialError::InvalidEmail => "Invalid email"@,
                    CredentialError::InvalidPassword => "Invalid password"@,
                    CredentialError::EmailTaken => "Email taken"@,
                    CredentialError::UsernameTaken => "Username taken"@,
                    CredentialError::InvalidCredentials => "Invalid credentials"@,
                },
                AppError::TokenError(e) => text@ == match e {
                    TokenError::Revoked => "Refresh token revoked"@,
                    TokenError::Expired => "Refresh token expired"@,
                },
                AppError::MigrationError(s) => text@ == "Migration Error: "@ + s@,
                AppError::JsonError(s) => text@ == "JSON parsing error: "@ + s@,
                AppError::UuidError(_) => exists|detail: Seq<char>|
                    text@ == "UUID parsing error: "@ + detail,
                AppError::AccessDenied => text@ == "Thread not found or access denied"@,
                AppError::NotFound(s) => text@ == "Not found: "@ + s@,
                AppError::BadRequest(s) => text@ == "Bad request: "@ + s@,
                AppError::InternalServerError(s) => text@ == "Internal server error: "@ + s@,
            },
    {
        match self {
            AppError::GenericError(s) => String::from_str("A generic error has occured ").concat(
                s.as_str(),
            ),
            AppError::SqlxError(s) => String::from_str("Sqlx Error: ").concat(s.as_str()),
            AppError::CredentialError(e) => e.message(),
            AppError::TokenError(e) => match e {
                TokenError::Revoked => String::from_str("Refresh token revoked"),
                TokenError::Expired => String::from_str("Refresh token expired"),
            },
            AppError::MigrationError(s) => String::from_str("Migration Error: ").concat(s.as_str()),
            AppError::JsonError(s) => String::from_str("JSON parsing error: ").concat(s.as_str()),
            AppError::UuidError(e) => {
                let detail = describe_uuid_error(e);
                String::from_str("UUID parsing error: ").concat(detail.as_str())
            },
            AppError::AccessDenied => String::from_str("Thread not found or access denied"),
            AppError::NotFound(s) => String::from_str("Not found: ").concat(s.as_str()),
            AppError::BadRequest(s) => String::from_str("Bad request: ").concat(s.as_str()),
            AppError::InternalServerError(s) => String::from_str("Internal server error: ").concat(
                s.as_str(),
            ),
        }
    }
}

/// The word by which an event names a class of failure.
pub open spec fn kind_code(kind: ErrorKind) -> Seq<char> {
    match kind {
        ErrorKind::Unauthorized => "unauthorized"@,
        ErrorKind::AccessDenied => "access_denied"@,
        ErrorKind::NotFound => "not_found"@,
        ErrorKind::ValidationError => "validation_error"@,
        ErrorKind::Conflict => "conflict"@,
        ErrorKind::Internal => "internal"@,
    }
}

/// What a client is told of a class of failure: words that give away
/// nothing of the server's inside.
pub open spec fn kind_text(kind: ErrorKind) -> Seq<char> {
    match kind {
        ErrorKind::Unauthorized => "Unauthorized"@,
        ErrorKind::AccessDenied => "Thread not found or access denied"@,
        ErrorKind::NotFound => "Not found"@,
        ErrorKind::ValidationError => "Invalid request"@,
        ErrorKind::Conflict => "Conflict"@,
        ErrorKind::Internal => "Internal error"@,
    }
}

impl ErrorKind {
    /// The word by which an event names this class.
    pub fn code(&self) -> (code: String)
        ensures
            code@ == kind_code(*self),
    {
        match self {
            ErrorKind::Unauthorized => String::from_str("unauthorized"),
            ErrorKind::AccessDenied => String::from_str("access_denied"),
            ErrorKind::NotFound => String::from_str("not_found"),
            ErrorKind::ValidationError => String::from_str("validation_error"),
            ErrorKind::Conflict => String::from_str("conflict"),
            ErrorKind::Internal => String::from_str("internal"),
        }
    }

    /// What a client is told of this class.
    pub fn client_text(&self) -> (text: String)
        ensures
            text@ == kind_text(*self),
    {
        match self {
            ErrorKind::Unauthorized => String::from_str("Unauthorized"),
            ErrorKind::AccessDenied => String::from_str("Thread not found or access denied"),
            ErrorKind::NotFound => String::from_str("Not found"),
            ErrorKind::ValidationError => String::from_str("Invalid request"),
            ErrorKind::Conflict => String::from_str("Conflict"),
            ErrorKind::Internal => String::from_str("Internal error"),
        }
    }
}

} // verus!
