//! Logging in: from valid credentials to a refresh token, by way of three
//! questions to the store.

use vstd::prelude::*;
use vstd::string::StringExecFns;
use vstd::string::StringSliceAdditionalSpecFns;

use crate::error::AppError;
use crate::server::auth::{Auth, RefreshToken};
use crate::server::clock::now_seconds;
use crate::server::credentials::{CredentialError, Credentials, StoredCredentials, Valid};
use crate::server::ident::{fresh_id, Id};

verus! {

/// A question that a login puts to the store.
#[derive(Debug)]
pub enum LoginRequest {
    /// Which user has this address?
    UserIdByEmail { email: String },
    /// What is stored of this user's credentials?
    StoredCredentials { user_id: Id },
    /// Set this user's token version, which revokes every refresh token
    /// issued before.
    SetTokenVersion { user_id: Id, token_ver: Id },
}

/// An answer of the store to a login.
#[derive(Debug)]
pub enum LoginReply {
    UserId(Result<Id, AppError>),
    Credentials(Result<StoredCredentials, AppError>),
    VersionSet(Result<(), AppError>),
}

/// How far a login has come.
#[derive(Debug)]
pub enum LoginFlow {
    /// Waits for the user that the address belongs to.
    FindingUser { credentials: Credentials<Valid> },
    /// Has the user; waits for the stored credentials.
    LoadingCredentials { credentials: Credentials<Valid>, user_id: Id },
    /// The password matched; waits for the new token version to be stored.
    Bumping { user_id: Id, token_ver: Id },
}

/// What to do next for a login.
#[derive(Debug)]
pub enum LoginStep {
    /// Put `request` to the store and come back with its answer.
    Ask { flow: LoginFlow, request: LoginRequest },
    /// The login is over.
    Finish { outcome: Result<RefreshToken, AppError> },
}

/// What a login draws from outside while it runs.
pub struct LoginContext<'a> {
    /// The server's pepper.
    pub pepper: &'a str,
    /// A fresh identifier, to become the user's token version.
    pub fresh_version: Id,
    /// The second of the clock.
    pub now: u64,
}

/// How a login ends that fails on its credentials, whichever of them was
/// wrong.
pub open spec fn refused_login() -> Result<RefreshToken, AppError> {
    Err(AppError::CredentialError(CredentialError::InvalidCredentials))
}

/// What follows from the store's answer in each state of a login. The
/// password is judged as soon as the stored credentials arrive: only where
/// it matches is the user's token version replaced, so a failed attempt
/// asks nothing more of the store and revokes nothing. An unknown address
/// and a wrong password end the login in the same way.
pub open spec fn login_next(
    flow: LoginFlow,
    reply: LoginReply,
    pepper: Seq<u8>,
    fresh_version: Id,
    now: u64,
    step: LoginStep,
) -> bool {
    match flow {
        LoginFlow::FindingUser { credentials } => match reply {
            LoginReply::UserId(Ok(user_id)) => step == (LoginStep::Ask {
                flow: LoginFlow::LoadingCredentials { credentials, user_id },
                request: LoginRequest::StoredCredentials { user_id },
            }),
            LoginReply::UserId(Err(_)) => step == (LoginStep::Finish { outcome: refused_login() }),
            _ => step matches LoginStep::Finish { outcome: Err(AppError::InternalServerError(_)) },
        },
        LoginFlow::LoadingCredentials { credentials, user_id } => match reply {
            LoginReply::Credentials(Ok(stored)) => if stored.accepts(credentials.password(), pepper) {
                step == (LoginStep::Ask {
                    flow: LoginFlow::Bumping { user_id, token_ver: fresh_version },
                    request: LoginRequest::SetTokenVersion { user_id, token_ver: fresh_version },
                })
            } else {
                step == (LoginStep::Finish { outcome: refused_login() })
            },
            LoginReply::Credentials(Err(error)) => step == (LoginStep::Finish { outcome: Err(error) }),
            _ => step matches LoginStep::Finish { outcome: Err(AppError::InternalServerError(_)) },
        },
        LoginFlow::Bumping { user_id, token_ver } => match reply {
            LoginReply::VersionSet(Ok(_)) => step == (LoginStep::Finish {
                outcome: Ok(RefreshToken::issued_at_spec(token_ver, user_id, now)),
            }),
            LoginReply::VersionSet(Err(error)) => step == (LoginStep::Finish { outcome: Err(error) }),
            _ => step matches LoginStep::Finish { outcome: Err(AppError::InternalServerError(_)) },
        },
    }
}

/// The end of a login whose answer from the store is of the wrong kind.
fn out_of_step() -> (step: LoginStep)
    ensures
        step matches LoginStep::Finish { outcome: Err(AppError::InternalServerError(_)) },
{
    LoginStep::Finish {
        outcome: Err(
            AppError::InternalServerError(String::from_str("Unexpected answer from the store")),
        ),
    }
}

impl Auth {
    /// Sets out to mint a refresh token for credentials of the right form:
    /// the first question is which user the address belongs to.
    pub fn mint_refresh_token(credentials: Credentials<Valid>) -> (step: LoginStep)
        ensures
            ({
                &&& step matches LoginStep::Ask { flow, request }
                &&& flow == (LoginFlow::FindingUser { credentials })
                &&& request matches LoginRequest::UserIdByEmail { email }
                &&& email@ == credentials.email()
            }),
    {
        let email = credentials.get_email();
        LoginStep::Ask {
            flow: LoginFlow::FindingUser { credentials },
            request: LoginRequest::UserIdByEmail { email },
        }
    }

    /// Goes on with a login once the store has answered.
    pub fn resume_login(flow: LoginFlow, reply: LoginReply, context: &LoginContext) -> (step: LoginStep)
        ensures
            login_next(
                flow,
                reply,
                context.pepper.spec_bytes(),
                context.fresh_version,
                context.now,
                step,
            ),
    {
        match flow {
            LoginFlow::FindingUser { credentials } => match reply {
                LoginReply::UserId(Ok(user_id)) => LoginStep::Ask {
                    flow: LoginFlow::LoadingCredentials { credentials, user_id },
                    request: LoginRequest::StoredCredentials { user_id },
                },
                LoginReply::UserId(Err(_)) => LoginStep::Finish {
                    outcome: Err(AppError::CredentialError(CredentialError::InvalidCredentials)),
                },
                _ => out_of_step(),
            },
            LoginFlow::LoadingCredentials { credentials, user_id } => match reply {
                LoginReply::Credentials(Ok(stored)) => {
                    match stored.check_credentials(credentials, context.pepper) {
                        Ok(_) => LoginStep::Ask {
                            flow: LoginFlow::Bumping { user_id, token_ver: context.fresh_version },
                            request: LoginRequest::SetTokenVersion {
                                user_id,
                                token_ver: context.fresh_version,
                            },
                        },
                        Err(_) => LoginStep::Finish {
                            outcome: Err(
                                AppError::CredentialError(CredentialError::InvalidCredentials),
                            ),
                        },
                    }
                },
                LoginReply::Credentials(Err(error)) => LoginStep::Finish { outcome: Err(error) },
                _ => out_of_step(),
            },
            LoginFlow::Bumping { user_id, token_ver } => match reply {
                LoginReply::VersionSet(Ok(_)) => LoginStep::Finish {
                    outcome: Ok(RefreshToken::issued_at(token_ver, user_id, context.now)),
                },
                LoginReply::VersionSet(Err(error)) => LoginStep::Finish { outcome: Err(error) },
                _ => out_of_step(),
            },
        }
    }

    /// Goes on with a login once the store has answered, with a fresh token
    /// version and the time of the clock.
    pub fn continue_login(flow: LoginFlow, reply: LoginReply, pepper: &str) -> (step: LoginStep)
        ensures
            exists|fresh_version: Id, now: u64| #[trigger]
                login_next(flow, reply, pepper.spec_bytes(), fresh_version, now, step),
    {
        let context = LoginContext { pepper, fresh_version: fresh_id(), now: now_seconds() };
        Self::resume_login(flow, reply, &context)
    }
}

/// A login with an address that no user has and a login with a password
/// that does not match end alike, so that the answer does not tell which
/// addresses have an account; and neither asks the store to change
/// anything, so the refresh tokens in circulation stay as they are.
pub proof fn failed_logins_look_alike(
    unknown: LoginFlow,
    lookup_error: AppError,
    mismatch: LoginFlow,
    stored: StoredCredentials,
    pepper: Seq<u8>,
    fresh_version: Id,
    now: u64,
    first: LoginStep,
    second: LoginStep,
)
    requires
        unknown is FindingUser,
        mismatch matches LoginFlow::LoadingCredentials { credentials, .. } && !stored.accepts(
            credentials.password(),
            pepper,
        ),
        login_next(unknown, LoginReply::UserId(Err(lookup_error)), pepper, fresh_version, now, first),
        login_next(mismatch, LoginReply::Credentials(Ok(stored)), pepper, fresh_version, now, second),
    ensures
        first == second,
        first == (LoginStep::Finish { outcome: refused_login() }),
        !(second is Ask),
{
}

/// The user's token version is replaced only once the password has matched:
/// whenever a login asks the store to set a version, it is in answer to
/// stored credentials that accept the password.
pub proof fn version_is_bumped_only_on_a_match(
    flow: LoginFlow,
    reply: LoginReply,
    pepper: Seq<u8>,
    fresh_version: Id,
    now: u64,
    step: LoginStep,
)
    requires
        login_next(flow, reply, pepper, fresh_version, now, step),
        step matches LoginStep::Ask { request, .. } && request is SetTokenVersion,
    ensures
        flow matches LoginFlow::LoadingCredentials { credentials, .. } && reply matches LoginReply::Credentials(
            Ok(stored),
        ) && stored.accepts(credentials.password(), pepper),
{
}

} // verus!
