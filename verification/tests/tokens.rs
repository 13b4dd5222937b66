use techni_zlecenia_api::error::AppError;
use techni_zlecenia_api::server::auth::{
    bearer_token, AccessToken, Auth, AuthRejection, RefreshToken, TokenError,
};
use techni_zlecenia_api::server::credentials::{CredentialError, Credentials, StoredCredentials};
use techni_zlecenia_api::server::login::{LoginContext, LoginFlow, LoginReply, LoginRequest, LoginStep};

#[test]
fn access_token_lives_fifteen_minutes() {
    let t = AccessToken::issued_at(9, 1_000);
    assert_eq!(t, AccessToken::from_claims(1_900, 9));
    assert!(t.is_valid_at(1_000));
    assert!(t.is_valid_at(1_899));
    assert!(!t.is_valid_at(1_900));
    assert_eq!(AccessToken::issued_at(9, u64::MAX - 10).exp, u64::MAX);
}

#[test]
fn refresh_token_lives_fourteen_days() {
    let t = RefreshToken::issued_at(5, 9, 1_000);
    assert_eq!(t, RefreshToken { exp: 1_000 + 14 * 24 * 60 * 60, ver: 5, sub: 9 });
    assert!(t.is_valid_at(1_000 + 1_209_599));
    assert!(!t.is_valid_at(1_000 + 1_209_600));
    assert_eq!(RefreshToken::issued_at(5, 9, u64::MAX).exp, u64::MAX);
}

#[test]
fn tokens_against_the_clock() {
    assert!(AccessToken::from_claims(u64::MAX, 1).is_valid());
    assert!(!AccessToken::from_claims(0, 1).is_valid());
    assert!(RefreshToken { exp: u64::MAX, ver: 1, sub: 1 }.is_valid());
    assert!(!RefreshToken { exp: 1, ver: 1, sub: 1 }.is_valid());
}

#[test]
fn token_minted_before_bump_is_rejected_after() {
    let old = RefreshToken::issued_at(100, 9, 50);
    assert_eq!(Auth::mint_access_token_at(&old, 100, 60), Ok(AccessToken::from_claims(960, 9)));
    let new = RefreshToken::issued_at(101, 9, 70);
    assert_eq!(Auth::mint_access_token_at(&old, 101, 80), Err(TokenError::Revoked));
    assert_eq!(Auth::mint_access_token_at(&new, 101, 80), Ok(AccessToken::from_claims(980, 9)));
    assert_eq!(Auth::mint_access_token_at(&new, 101, new.exp - 1).map(|t| t.sub), Ok(9));
    assert_eq!(Auth::mint_access_token_at(&new, 101, new.exp), Err(TokenError::Expired));
    assert_eq!(Auth::mint_access_token_at(&old, 101, old.exp), Err(TokenError::Revoked));
}

#[test]
fn mint_access_token_by_the_clock() {
    let live = RefreshToken { exp: u64::MAX, ver: 1, sub: 2 };
    assert_eq!(Auth::mint_access_token(&live, 3), Err(TokenError::Revoked));
    assert_eq!(Auth::mint_access_token(&live, 1).map(|t| t.sub), Ok(2));
    let dead = RefreshToken { exp: 1, ver: 1, sub: 2 };
    assert_eq!(Auth::mint_access_token(&dead, 1), Err(TokenError::Expired));
}

#[test]
fn bearer_token_is_what_follows_the_prefix() {
    assert_eq!(bearer_token(Some("Bearer abc.def")), Some("abc.def"));
    assert_eq!(bearer_token(Some("Bearer ")), Some(""));
    assert_eq!(bearer_token(Some("bearer abc")), None);
    assert_eq!(bearer_token(Some("Bearer")), None);
    assert_eq!(bearer_token(Some("Basic abc")), None);
    assert_eq!(bearer_token(None), None);
}

#[test]
fn decoded_token_is_judged_by_expiry() {
    let t = AccessToken::from_claims(100, 1);
    assert_eq!(AccessToken::judge(Some(t), 99), Ok(t));
    assert_eq!(AccessToken::judge(Some(t), 100), Err(AuthRejection::TokenInvalid));
    assert_eq!(AccessToken::judge(None, 0), Err(AuthRejection::MissingOrInvalid));
    assert_eq!(AuthRejection::TokenInvalid.message(), "Token invalid");
    assert_eq!(AuthRejection::MissingOrInvalid.message(), "Missing or invalid auth header");
}

fn valid(password: &str) -> Credentials<techni_zlecenia_api::server::credentials::Valid> {
    Credentials::new("jan@technischools.com".to_string(), password.to_string()).validate().unwrap()
}

fn stored_for(password: &str, pepper: &str) -> StoredCredentials {
    let (_, hash, salt) = valid(password).prepare(pepper).unwrap();
    StoredCredentials::new(9, hash, salt)
}

#[test]
fn login_asks_three_questions_then_mints() {
    let context = LoginContext { pepper: "pepper", fresh_version: 77, now: 1_000 };
    let step = Auth::mint_refresh_token(valid("pw"));
    let flow = match step {
        LoginStep::Ask { flow, request: LoginRequest::UserIdByEmail { email } } => {
            assert_eq!(email, "jan@technischools.com");
            flow
        }
        other => panic!("unexpected step {:?}", other),
    };
    let step = Auth::resume_login(flow, LoginReply::UserId(Ok(9)), &context);
    let flow = match step {
        LoginStep::Ask { flow, request: LoginRequest::StoredCredentials { user_id } } => {
            assert_eq!(user_id, 9);
            flow
        }
        other => panic!("unexpected step {:?}", other),
    };
    let step = Auth::resume_login(flow, LoginReply::Credentials(Ok(stored_for("pw", "pepper"))), &context);
    let flow = match step {
        LoginStep::Ask { flow, request: LoginRequest::SetTokenVersion { user_id, token_ver } } => {
            assert_eq!((user_id, token_ver), (9, 77));
            flow
        }
        other => panic!("unexpected step {:?}", other),
    };
    match Auth::resume_login(flow, LoginReply::VersionSet(Ok(())), &context) {
        LoginStep::Finish { outcome: Ok(token) } => {
            assert_eq!(token, RefreshToken { exp: 1_000 + 1_209_600, ver: 77, sub: 9 });
        }
        other => panic!("unexpected step {:?}", other),
    }
}

#[test]
fn login_with_unknown_address_does_not_say_so() {
    let context = LoginContext { pepper: "pepper", fresh_version: 77, now: 1_000 };
    let flow = LoginFlow::FindingUser { credentials: valid("pw") };
    let reply = LoginReply::UserId(Err(AppError::SqlxError("down".to_string())));
    match Auth::resume_login(flow, reply, &context) {
        LoginStep::Finish { outcome: Err(AppError::CredentialError(CredentialError::InvalidCredentials)) } => {}
        other => panic!("unexpected step {:?}", other),
    }
}

#[test]
fn login_with_wrong_password_asks_for_no_bump() {
    let context = LoginContext { pepper: "pepper", fresh_version: 77, now: 1_000 };
    let flow = LoginFlow::LoadingCredentials { credentials: valid("wrong"), user_id: 9 };
    match Auth::resume_login(flow, LoginReply::Credentials(Ok(stored_for("pw", "pepper"))), &context) {
        LoginStep::Finish { outcome: Err(AppError::CredentialError(CredentialError::InvalidCredentials)) } => {}
        other => panic!("unexpected step {:?}", other),
    }
    let flow = LoginFlow::LoadingCredentials { credentials: valid("pw"), user_id: 9 };
    match Auth::resume_login(flow, LoginReply::Credentials(Ok(stored_for("pw", "other pepper"))), &context) {
        LoginStep::Finish { outcome: Err(AppError::CredentialError(CredentialError::InvalidCredentials)) } => {}
        other => panic!("unexpected step {:?}", other),
    }
    let flow = LoginFlow::Bumping { user_id: 9, token_ver: 77 };
    match Auth::resume_login(flow, LoginReply::VersionSet(Err(AppError::SqlxError("down".to_string()))), &context) {
        LoginStep::Finish { outcome: Err(AppError::SqlxError(_)) } => {}
        other => panic!("unexpected step {:?}", other),
    }
}

#[test]
fn login_passes_store_failures_on() {
    let context = LoginContext { pepper: "pepper", fresh_version: 77, now: 1_000 };
    let flow = LoginFlow::LoadingCredentials { credentials: valid("pw"), user_id: 9 };
    let reply = LoginReply::Credentials(Err(AppError::SqlxError("down".to_string())));
    match Auth::resume_login(flow, reply, &context) {
        LoginStep::Finish { outcome: Err(AppError::SqlxError(text)) } => assert_eq!(text, "down"),
        other => panic!("unexpected step {:?}", other),
    }
    let flow = LoginFlow::LoadingCredentials { credentials: valid("pw"), user_id: 9 };
    match Auth::resume_login(flow, LoginReply::VersionSet(Ok(())), &context) {
        LoginStep::Finish { outcome: Err(AppError::InternalServerError(_)) } => {}
        other => panic!("unexpected step {:?}", other),
    }
    let flow = LoginFlow::LoadingCredentials { credentials: valid("pw"), user_id: 9 };
    match Auth::continue_login(flow, LoginReply::Credentials(Ok(stored_for("pw", "pepper"))), "pepper") {
        LoginStep::Ask { request: LoginRequest::SetTokenVersion { user_id, token_ver }, .. } => {
            assert_eq!(user_id, 9);
            assert_eq!((token_ver >> 76) & 0xf, 4);
        }
        other => panic!("unexpected step {:?}", other),
    }
}
