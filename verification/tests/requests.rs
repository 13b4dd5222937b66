use techni_zlecenia_api::api::auth::{
    build_refresh_cookie, encoded_or_reject, hashed_or_reject, login_rejection, missing_refresh_token, refresh_rejection,
    registration_conflicts, registration_gate, registration_reply, reject_invalid, LoginData,
    LoginResponse, RefreshResponse, RegisterData, Rejection,
};
use techni_zlecenia_api::api::post::{
    capped_window, check_post_kind, filtered_window, page_window, validate_new_post,
    validate_post_update, DeletePostResponse, GetPostsQuery, PageWindow, PostUpdate,
    PostValidationError,
};
use techni_zlecenia_api::api::review::{
    count_or_zero, review_window, stats_review_type, validate_review, CreateReviewRequest,
    GetReviewsQuery, Review, ReviewRecord, ReviewRefusal, SenderRecord,
};
use techni_zlecenia_api::api::reply::{
    invalid, owner_filter, page_gate, profile_gate, refusal, reply_for, review_gate, user_in_path,
    Action, Reply, StoreOutcome,
};
use techni_zlecenia_api::api::user::{GetUserResponse, UpdateUserRequest, UserInfo};
use techni_zlecenia_api::common::env_var;
use techni_zlecenia_api::db::posts::{
    create_post, delete_post, get_post_by_id, get_posts, get_posts_filtered, update_post, OwnerRecord,
    PostRecord,
};
use techni_zlecenia_api::server::user::User;
use techni_zlecenia_api::db::users::{
    add_user, get_all_users_public, get_stored_credentials, get_user_by_id_public, get_user_id_by_email,
    is_email_taken, is_username_taken, update_token_ver, update_user, UserRecord,
};
use techni_zlecenia_api::error::{AppError, ErrorKind};
use techni_zlecenia_api::server::auth::TokenError;
use techni_zlecenia_api::server::credentials::{CredentialError, Credentials};
use techni_zlecenia_api::server::post::{Decimal, Post, PostContent, PostOwner};
use techni_zlecenia_api::server::text::{is_blank, strip_prefix, text_equals};

#[test]
fn registration_lists_what_is_taken() {
    assert_eq!(registration_conflicts(false, false), vec![]);
    assert_eq!(registration_conflicts(true, false), vec![CredentialError::EmailTaken]);
    assert_eq!(registration_conflicts(false, true), vec![CredentialError::UsernameTaken]);
    assert_eq!(
        registration_conflicts(true, true),
        vec![CredentialError::EmailTaken, CredentialError::UsernameTaken]
    );
    assert_eq!(registration_gate(false, false), Ok(()));
    assert_eq!(
        registration_gate(true, true),
        Err(Rejection { status: 400, errors: vec![CredentialError::EmailTaken, CredentialError::UsernameTaken] })
    );
    assert_eq!(registration_reply(Ok(())), Ok(201));
    assert_eq!(
        registration_reply(Err(AppError::SqlxError("x".to_string()))),
        Err(Rejection { status: 500, errors: vec![] })
    );
    assert_eq!(
        reject_invalid(CredentialError::InvalidEmail),
        Rejection { status: 400, errors: vec![CredentialError::InvalidEmail] }
    );
}

#[test]
fn login_and_refresh_refusals() {
    let bad = AppError::CredentialError(CredentialError::InvalidPassword);
    let down = AppError::SqlxError("x".to_string());
    let revoked = AppError::TokenError(TokenError::Revoked);
    assert_eq!(login_rejection(&bad), Rejection { status: 400, errors: vec![CredentialError::InvalidPassword] });
    assert_eq!(login_rejection(&down), Rejection { status: 500, errors: vec![] });
    assert_eq!(refresh_rejection(&bad), Rejection { status: 400, errors: vec![CredentialError::InvalidPassword] });
    assert_eq!(refresh_rejection(&revoked), Rejection { status: 401, errors: vec![] });
    assert_eq!(missing_refresh_token(), Rejection { status: 401, errors: vec![] });
    assert_eq!(encoded_or_reject(Some("abc".to_string())), Ok("abc".to_string()));
    assert_eq!(encoded_or_reject(None), Err(Rejection { status: 500, errors: vec![] }));
    assert_eq!(hashed_or_reject(None).err(), Some(Rejection { status: 500, errors: vec![] }));
    let valid = Credentials::new("jan@technischools.com".to_string(), "pw".to_string()).validate().unwrap();
    assert!(hashed_or_reject(add_user(valid, "jan".to_string(), "pepper")).is_ok());
}

#[test]
fn refresh_cookie_is_locked_down() {
    let cookie = build_refresh_cookie("tok".to_string(), true);
    assert_eq!(cookie.name, "refresh_token");
    assert_eq!(cookie.value, "tok");
    assert_eq!(cookie.path, "/auth/refresh");
    assert!(cookie.http_only && cookie.same_site_strict && cookie.secure);
    assert!(!build_refresh_cookie("tok".to_string(), false).secure);
}

#[test]
fn request_and_response_bodies() {
    let data = RegisterData {
        username: "jan".to_string(),
        credentials: Credentials::new("jan@technischools.com".to_string(), "pw".to_string()),
    };
    assert_eq!(data.username, "jan");
    assert!(data.credentials.validate().is_ok());
    let login = LoginData { credentials: Credentials::new("x".to_string(), "pw".to_string()) };
    assert_eq!(login.credentials.validate().err(), Some(CredentialError::InvalidEmail));
    assert_eq!(LoginResponse { token: "a".to_string() }.token, "a");
    assert_eq!(RefreshResponse { token: "b".to_string() }.token, "b");
    assert_eq!(DeletePostResponse::new("gone".to_string()).message, "gone");
    assert_eq!(techni_zlecenia_api::api::post::ErrorResponse::new("no".to_string()).message, "no");
    assert_eq!(techni_zlecenia_api::api::user::ErrorResponse::new("nope".to_string()).message, "nope");
    let info = UserInfo::from_row(0xab, "jan".to_string(), "jan@technischools.com".to_string());
    assert_eq!(info.id, "00000000-0000-0000-0000-0000000000ab");
    assert_eq!(info.name, Some("jan".to_string()));
    assert_eq!(info.subjects, Some(vec![]));
    let response = GetUserResponse::new(info);
    assert_eq!(response.user.username, "jan");
    let update = UpdateUserRequest { name: Some("n".to_string()), subjects: None };
    assert_eq!(update_user(update.name, update.subjects), Some("n".to_string()));
    assert_eq!(profile_gate(1, 1), Ok(()));
    assert_eq!(
        profile_gate(1, 2),
        Err(Reply { status: 403, message: Some("You can only update your own profile".to_string()) })
    );
}

fn reply(status: u16, message: &str) -> Reply {
    Reply { status, message: Some(message.to_string()) }
}

#[test]
fn routes_answer_by_the_outcome() {
    assert_eq!(reply_for(Action::ListPosts, StoreOutcome::Done), Reply { status: 200, message: None });
    assert_eq!(reply_for(Action::CreatePost, StoreOutcome::Done), Reply { status: 201, message: None });
    assert_eq!(reply_for(Action::DeletePost, StoreOutcome::Done), reply(200, "Post deleted successfully"));
    assert_eq!(reply_for(Action::DeleteReview, StoreOutcome::Done), reply(200, "Review deleted successfully"));
    assert_eq!(reply_for(Action::GetPost, StoreOutcome::Missing), reply(404, "Post not found"));
    assert_eq!(
        reply_for(Action::UpdatePost, StoreOutcome::Missing),
        reply(404, "Post not found or you don't have permission to update it")
    );
    assert_eq!(
        reply_for(Action::DeletePost, StoreOutcome::Missing),
        reply(404, "Post not found or you don't have permission to delete it")
    );
    assert_eq!(reply_for(Action::GetUser, StoreOutcome::Missing), reply(404, "User not found"));
    assert_eq!(
        reply_for(Action::DeleteReview, StoreOutcome::Missing),
        reply(404, "Review not found or you don't have permission to delete it")
    );
    assert_eq!(reply_for(Action::ListPosts, StoreOutcome::Failed), reply(500, "Failed to fetch posts"));
    assert_eq!(reply_for(Action::GetPost, StoreOutcome::Failed), reply(500, "Failed to fetch post"));
    assert_eq!(reply_for(Action::CreatePost, StoreOutcome::Failed), reply(500, "Failed to create post"));
    assert_eq!(reply_for(Action::UpdatePost, StoreOutcome::Failed), reply(500, "Failed to update post"));
    assert_eq!(reply_for(Action::DeletePost, StoreOutcome::Failed), reply(500, "Failed to delete post"));
    assert_eq!(reply_for(Action::GetUser, StoreOutcome::Failed), reply(500, "Failed to fetch user"));
    assert_eq!(reply_for(Action::RenameUser, StoreOutcome::Failed), reply(500, "Failed to update user"));
    assert_eq!(reply_for(Action::GetRenamedUser, StoreOutcome::Failed), reply(500, "Failed to fetch updated user"));
    assert_eq!(refusal(400, "no".to_string()), reply(400, "no"));
    assert_eq!(owner_filter(None), Ok(None));
    assert_eq!(owner_filter(Some("00000000-0000-0000-0000-000000000007")), Ok(Some(7)));
    assert_eq!(owner_filter(Some("seven")), Err(reply(400, "Invalid owner ID format")));
    assert_eq!(user_in_path("00000000-0000-0000-0000-000000000007"), Ok(7));
    assert_eq!(user_in_path("7"), Err(reply(400, "Invalid user ID format")));
    assert_eq!(review_gate(false), Ok(()));
    assert_eq!(review_gate(true), Err(reply(409, "Review already exists")));
    assert_eq!(page_gate(None), Err(reply(400, "page is out of range")));
    assert_eq!(page_gate(Some(PageWindow { limit: 1, offset: 2 })), Ok(PageWindow { limit: 1, offset: 2 }));
    assert_eq!(invalid("no".to_string()), reply(400, "no"));
}

#[test]
fn post_pages() {
    assert_eq!(page_window(3, 10), PageWindow { limit: 10, offset: 30 });
    assert_eq!(page_window(i32::MAX, i32::MAX), PageWindow { limit: 2147483647, offset: 4611686014132420609 });
    assert_eq!(page_window(-1, 5), PageWindow { limit: 5, offset: -5 });
    let query = GetPostsQuery { page: None, per_page: None, owner_id: None };
    assert_eq!(filtered_window(&query), PageWindow { limit: 10, offset: 0 });
    let query = GetPostsQuery { page: Some(2), per_page: Some(500), owner_id: None };
    assert_eq!(filtered_window(&query), PageWindow { limit: 500, offset: 1000 });
    assert_eq!(capped_window(Some(2), Some(500)), PageWindow { limit: 100, offset: 200 });
    assert_eq!(capped_window(None, None), PageWindow { limit: 10, offset: 0 });
    assert_eq!(get_posts(Some(1), Some(100)), PageWindow { limit: 100, offset: 100 });
    assert_eq!(get_posts(Some(1), Some(99)), PageWindow { limit: 99, offset: 99 });
    assert_eq!(get_posts_filtered(4, 7), PageWindow { limit: 7, offset: 28 });
}

#[test]
fn new_posts_are_checked_in_order() {
    assert_eq!(validate_new_post("t", "d", "request", "s", false), Ok(()));
    assert_eq!(validate_new_post("t", "d", "offer", "s", false), Ok(()));
    assert_eq!(validate_new_post("  \t", "", "bad", "", true), Err(PostValidationError::EmptyTitle));
    assert_eq!(validate_new_post("t", " \n", "bad", "", true), Err(PostValidationError::EmptyDescription));
    assert_eq!(validate_new_post("t", "d", "Request", "", true), Err(PostValidationError::InvalidType));
    assert_eq!(validate_new_post("t", "d", "offer", "\u{2003}", true), Err(PostValidationError::EmptySubject));
    assert_eq!(validate_new_post("t", "d", "offer", "s", true), Err(PostValidationError::NegativePrice));
    assert!(check_post_kind("offer"));
    assert!(!check_post_kind("offers"));
    assert_eq!(PostValidationError::EmptyTitle.message(), "Title cannot be empty");
    assert_eq!(PostValidationError::EmptyDescription.message(), "Description cannot be empty");
    assert_eq!(PostValidationError::InvalidType.message(), "Type must be 'request' or 'offer'");
    assert_eq!(PostValidationError::EmptySubject.message(), "Subject cannot be empty");
    assert_eq!(PostValidationError::NegativePrice.message(), "Price cannot be negative");
    assert_eq!(PostValidationError::NothingToUpdate.message(), "At least one field must be provided for update");
}

fn update() -> PostUpdate {
    PostUpdate { title: None, description: None, kind: None, subject: None, price_negative: None, names_other_field: false }
}

#[test]
fn updates_must_name_a_field_and_pass_the_checks() {
    assert_eq!(validate_post_update(&update()), Err(PostValidationError::NothingToUpdate));
    let mut u = update();
    u.names_other_field = true;
    assert_eq!(validate_post_update(&u), Ok(()));
    let mut u = update();
    u.title = Some(" ".to_string());
    assert_eq!(validate_post_update(&u), Err(PostValidationError::EmptyTitle));
    u.title = Some("t".to_string());
    u.description = Some("".to_string());
    assert_eq!(validate_post_update(&u), Err(PostValidationError::EmptyDescription));
    u.description = None;
    u.kind = Some("gift".to_string());
    assert_eq!(validate_post_update(&u), Err(PostValidationError::InvalidType));
    u.kind = Some("offer".to_string());
    u.subject = Some("\t".to_string());
    assert_eq!(validate_post_update(&u), Err(PostValidationError::EmptySubject));
    u.subject = Some("math".to_string());
    u.price_negative = Some(true);
    assert_eq!(validate_post_update(&u), Err(PostValidationError::NegativePrice));
    u.price_negative = Some(false);
    assert_eq!(validate_post_update(&u), Ok(()));
}

fn review(score: i32, kind: &str, post: Option<u128>, profile: Option<u128>) -> CreateReviewRequest {
    CreateReviewRequest {
        review_receiver_id: 2,
        score,
        comment: None,
        review_type: kind.to_string(),
        post_id: post,
        profile_id: profile,
    }
}

#[test]
fn reviews_are_checked_in_order() {
    assert_eq!(validate_review(1, &review(5, "post", Some(9), None)), Ok(()));
    assert_eq!(validate_review(1, &review(1, "profile", None, Some(9))), Ok(()));
    assert_eq!(validate_review(2, &review(0, "x", None, None)), Err(ReviewRefusal::ScoreOutOfRange));
    assert_eq!(validate_review(1, &review(6, "post", Some(9), None)), Err(ReviewRefusal::ScoreOutOfRange));
    assert_eq!(validate_review(2, &review(3, "post", None, Some(1))), Err(ReviewRefusal::PostIdRequired));
    assert_eq!(validate_review(2, &review(3, "post", Some(1), Some(1))), Err(ReviewRefusal::ProfileIdNotAllowed));
    assert_eq!(validate_review(2, &review(3, "profile", Some(1), None)), Err(ReviewRefusal::ProfileIdRequired));
    assert_eq!(validate_review(2, &review(3, "profile", Some(1), Some(1))), Err(ReviewRefusal::PostIdNotAllowed));
    assert_eq!(validate_review(2, &review(3, "other", Some(1), None)), Err(ReviewRefusal::UnknownType));
    assert_eq!(validate_review(2, &review(3, "post", Some(1), None)), Err(ReviewRefusal::SelfReview));
    assert_eq!(ReviewRefusal::ScoreOutOfRange.message(), "Score must be between 1 and 5");
    assert_eq!(ReviewRefusal::PostIdRequired.message(), "post_id is required for post reviews");
    assert_eq!(ReviewRefusal::ProfileIdNotAllowed.message(), "profile_id should not be set for post reviews");
    assert_eq!(ReviewRefusal::ProfileIdRequired.message(), "profile_id is required for profile reviews");
    assert_eq!(ReviewRefusal::PostIdNotAllowed.message(), "post_id should not be set for profile reviews");
    assert_eq!(ReviewRefusal::UnknownType.message(), "review_type must be 'post' or 'profile'");
    assert_eq!(ReviewRefusal::SelfReview.message(), "Cannot review yourself");
}

fn reviews_query(page: Option<i64>, limit: Option<i64>, kind: Option<&str>) -> GetReviewsQuery {
    GetReviewsQuery { review_type: kind.map(|k| k.to_string()), post_id: None, profile_id: None, page, limit }
}

#[test]
fn review_pages() {
    assert_eq!(review_window(&reviews_query(None, None, None)), Some(PageWindow { limit: 20, offset: 0 }));
    assert_eq!(review_window(&reviews_query(Some(3), Some(500), None)), Some(PageWindow { limit: 100, offset: 300 }));
    assert_eq!(review_window(&reviews_query(Some(2), Some(7), None)), Some(PageWindow { limit: 7, offset: 14 }));
    assert_eq!(review_window(&reviews_query(Some(i64::MAX), Some(2), None)), None);
    assert_eq!(stats_review_type(&reviews_query(None, None, None)), "profile");
    assert_eq!(stats_review_type(&reviews_query(None, None, Some("post"))), "post");
    assert_eq!(count_or_zero(None), 0);
    assert_eq!(count_or_zero(Some(4)), 4);
}

#[test]
fn errors_have_a_class_and_words() {
    assert_eq!(AppError::GenericError("x".to_string()).kind(), ErrorKind::Internal);
    assert_eq!(AppError::SqlxError("x".to_string()).kind(), ErrorKind::Internal);
    assert_eq!(AppError::MigrationError("x".to_string()).kind(), ErrorKind::Internal);
    assert_eq!(AppError::InternalServerError("x".to_string()).kind(), ErrorKind::Internal);
    assert_eq!(AppError::JsonError("x".to_string()).kind(), ErrorKind::ValidationError);
    assert_eq!(AppError::BadRequest("x".to_string()).kind(), ErrorKind::ValidationError);
    assert_eq!(AppError::AccessDenied.kind(), ErrorKind::AccessDenied);
    assert_eq!(AppError::NotFound("x".to_string()).kind(), ErrorKind::NotFound);
    assert_eq!(AppError::TokenError(TokenError::Expired).kind(), ErrorKind::Unauthorized);
    assert_eq!(AppError::CredentialError(CredentialError::InvalidEmail).kind(), ErrorKind::Unauthorized);
    assert_eq!(AppError::CredentialError(CredentialError::InvalidPassword).kind(), ErrorKind::Unauthorized);
    assert_eq!(AppError::CredentialError(CredentialError::EmailTaken).kind(), ErrorKind::Conflict);
    assert_eq!(AppError::CredentialError(CredentialError::InvalidCredentials).kind(), ErrorKind::Unauthorized);
    assert_eq!(AppError::CredentialError(CredentialError::UsernameTaken).kind(), ErrorKind::Conflict);
    let wrapped = techni_zlecenia_api::api::listener::parse_channel("thread_zz").unwrap_err();
    assert_eq!(wrapped.kind(), ErrorKind::ValidationError);
    assert!(wrapped.message().starts_with("UUID parsing error: "));
    assert!(wrapped.message().len() > "UUID parsing error: ".len());
    assert_eq!(AppError::GenericError("x".to_string()).message(), "A generic error has occured x");
    assert_eq!(AppError::SqlxError("x".to_string()).message(), "Sqlx Error: x");
    assert_eq!(AppError::MigrationError("x".to_string()).message(), "Migration Error: x");
    assert_eq!(AppError::JsonError("x".to_string()).message(), "JSON parsing error: x");
    assert_eq!(AppError::BadRequest("x".to_string()).message(), "Bad request: x");
    assert_eq!(AppError::InternalServerError("x".to_string()).message(), "Internal server error: x");
    assert_eq!(AppError::NotFound("x".to_string()).message(), "Not found: x");
    assert_eq!(AppError::AccessDenied.message(), "Thread not found or access denied");
    assert_eq!(AppError::TokenError(TokenError::Revoked).message(), "Refresh token revoked");
    assert_eq!(AppError::TokenError(TokenError::Expired).message(), "Refresh token expired");
    assert_eq!(AppError::CredentialError(CredentialError::EmailTaken).message(), "Email taken");
    assert_eq!(ErrorKind::Unauthorized.code(), "unauthorized");
    assert_eq!(ErrorKind::AccessDenied.code(), "access_denied");
    assert_eq!(ErrorKind::NotFound.code(), "not_found");
    assert_eq!(ErrorKind::ValidationError.code(), "validation_error");
    assert_eq!(ErrorKind::Conflict.code(), "conflict");
    assert_eq!(ErrorKind::Internal.code(), "internal");
    assert_eq!(ErrorKind::Unauthorized.client_text(), "Unauthorized");
    assert_eq!(ErrorKind::NotFound.client_text(), "Not found");
    assert_eq!(ErrorKind::ValidationError.client_text(), "Invalid request");
    assert_eq!(ErrorKind::Conflict.client_text(), "Conflict");
    assert_eq!(ErrorKind::Internal.client_text(), "Internal error");
}

#[test]
fn settings_come_from_the_process_first() {
    assert_eq!(env_var("A", Some("p".to_string()), Some("f".to_string())).ok(), Some("p".to_string()));
    assert_eq!(env_var("A", None, Some("f".to_string())).ok(), Some("f".to_string()));
    match env_var("DATABASE_URL", None, None) {
        Err(AppError::InternalServerError(text)) => {
            assert_eq!(text, "Required environment variable 'DATABASE_URL' is not set")
        }
        other => panic!("unexpected value {:?}", other),
    }
}

#[test]
fn text_questions() {
    assert_eq!(strip_prefix("thread_x", "thread_"), Some("x"));
    assert_eq!(strip_prefix("thread_", "thread_"), Some(""));
    assert_eq!(strip_prefix("thread", "thread_"), None);
    assert_eq!(strip_prefix("żółw", "żó"), Some("łw"));
    assert_eq!(strip_prefix("abc", ""), Some("abc"));
    assert!(is_blank(""));
    assert!(is_blank(" \t\r\n\u{a0}\u{3000}"));
    assert!(!is_blank(" a "));
    assert!(!is_blank("\u{200b}"));
    assert!(text_equals("a", "a"));
    assert!(!text_equals("a", "A"));
    assert!(!text_equals("a", "ab"));
}

#[test]
fn user_rows() {
    assert!(is_username_taken(Ok(Some(true))));
    assert!(!is_username_taken(Ok(Some(false))));
    assert!(!is_username_taken(Ok(None)));
    assert!(!is_username_taken(Err(AppError::SqlxError("x".to_string()))));
    assert!(is_email_taken(Ok(Some(true))));
    assert!(!is_email_taken(Err(AppError::SqlxError("x".to_string()))));
    assert_eq!(get_user_id_by_email(Some(4)).ok(), Some(4));
    match get_user_id_by_email(None) {
        Err(AppError::CredentialError(CredentialError::InvalidEmail)) => {}
        other => panic!("unexpected outcome {:?}", other),
    }
    let row = UserRecord { id: 1, username: "jan".to_string(), email: "jan@technischools.com".to_string() };
    let info = get_user_by_id_public(Some(row)).unwrap();
    assert_eq!(info.id, "00000000-0000-0000-0000-000000000001");
    assert_eq!(info.email, "jan@technischools.com");
    assert_eq!(get_user_by_id_public(None), None);
    let rows = vec![
        UserRecord { id: 1, username: "a".to_string(), email: "a@x".to_string() },
        UserRecord { id: 2, username: "b".to_string(), email: "b@x".to_string() },
    ];
    let infos = get_all_users_public(rows);
    assert_eq!(infos.iter().map(|i| i.username.as_str()).collect::<Vec<_>>(), vec!["a", "b"]);
    let version = update_token_ver();
    assert_eq!((version >> 76) & 0xf, 4);
    let valid = Credentials::new("jan@technischools.com".to_string(), "pw".to_string()).validate().unwrap();
    let new_user = add_user(valid, "jan".to_string(), "pepper").unwrap();
    assert_eq!(new_user.email, "jan@technischools.com");
    assert_eq!(new_user.username, "jan");
    assert_eq!(new_user.salt.len(), 16);
    assert_eq!(new_user.password_hash.len(), 32);
    let stored = get_stored_credentials(1, new_user.password_hash.to_vec(), new_user.salt.to_vec());
    let again = Credentials::new("jan@technischools.com".to_string(), "pw".to_string()).validate().unwrap();
    assert_eq!(stored.check_credentials(again, "pepper"), Ok(()));
}

fn post_row() -> PostRecord {
    PostRecord {
        id: 1,
        title: "t".to_string(),
        description: "d".to_string(),
        kind: "offer".to_string(),
        subject: "s".to_string(),
        price: Decimal { mantissa: 1250, scale: 2 },
        deadline: Some(5),
        urgent: true,
        status: "active".to_string(),
        created_at: 1,
        updated_at: 2,
        owner_id: 9,
        view_count: 3,
        response_count: 4,
        location: None,
        preferred_contact_method: Some("mail".to_string()),
        academic_level: None,
        difficulty: None,
    }
}

#[test]
fn post_rows() {
    let owner = OwnerRecord { username: "jan".to_string(), email: "jan@x".to_string(), avatar: None };
    let post = get_post_by_id(Some(post_row()), owner).unwrap();
    assert_eq!(post.owner_name, "jan");
    assert_eq!(post.owner_username, "jan");
    assert_eq!(post.owner_rating, Decimal { mantissa: 0, scale: 0 });
    assert_eq!(post.price, Decimal { mantissa: 1250, scale: 2 });
    assert_eq!(post.view_count, 3);
    assert_eq!(post.preferred_contact_method, Some("mail".to_string()));
    let owner = OwnerRecord { username: "jan".to_string(), email: "jan@x".to_string(), avatar: None };
    assert_eq!(get_post_by_id(None, owner), None);
    assert!(delete_post(1));
    assert!(!delete_post(0));
    assert!(update_post(Some(1)));
    assert!(!update_post(None));
    assert!(Decimal { mantissa: -1, scale: 0 }.is_negative());
    assert!(!Decimal::zero().is_negative());
}

#[test]
fn new_post_is_active_and_unseen() {
    let content = PostContent {
        title: "t".to_string(),
        description: "d".to_string(),
        kind: "request".to_string(),
        subject: "s".to_string(),
        price: Decimal { mantissa: 5, scale: 0 },
        deadline: None,
        urgent: false,
        location: Some("here".to_string()),
        preferred_contact_method: None,
        academic_level: None,
        difficulty: None,
    };
    let owner = PostOwner::from_row(9, "jan".to_string(), "jan@x".to_string(), Some(vec![1, 2]));
    let post = Post::assemble(3, content, owner, 77);
    assert_eq!(post.status, "active");
    assert_eq!((post.created_at, post.updated_at), (77, 77));
    assert_eq!((post.view_count, post.response_count), (0, 0));
    assert_eq!(post.owner_name, "jan");
    assert_eq!(post.owner_avatar, Some(vec![1, 2]));
    assert_eq!(post.location, Some("here".to_string()));
    assert_eq!(post.id, 3);
}

#[test]
fn post_made_from_its_parts() {
    let post = Post::new(
        3,
        "t".to_string(),
        "d".to_string(),
        "offer".to_string(),
        "s".to_string(),
        Decimal { mantissa: 995, scale: 2 },
        Some(10),
        true,
        9,
        "Jan".to_string(),
        "jan".to_string(),
        "jan@x".to_string(),
        None,
        Decimal { mantissa: 45, scale: 1 },
        None,
        Some("mail".to_string()),
        Some("high".to_string()),
        None,
    );
    assert_eq!(post.id, 3);
    assert_eq!(post.kind, "offer");
    assert_eq!(post.status, "active");
    assert_eq!(post.created_at, post.updated_at);
    assert_eq!(post.price, Decimal { mantissa: 995, scale: 2 });
    assert_eq!(post.owner_rating, Decimal { mantissa: 45, scale: 1 });
    assert_eq!(post.owner_name, "Jan");
    assert_eq!(post.deadline, Some(10));
    assert!(post.urgent);
    assert_eq!((post.view_count, post.response_count), (0, 0));
    assert_eq!(post.academic_level, Some("high".to_string()));
}

#[test]
fn new_post_row_names_the_owner_twice() {
    let content = PostContent {
        title: "t".to_string(),
        description: "d".to_string(),
        kind: "request".to_string(),
        subject: "s".to_string(),
        price: Decimal { mantissa: 5, scale: 0 },
        deadline: None,
        urgent: false,
        location: None,
        preferred_contact_method: None,
        academic_level: None,
        difficulty: None,
    };
    let owner = OwnerRecord { username: "jan".to_string(), email: "jan@x".to_string(), avatar: Some(vec![7]) };
    let row = create_post(content, 9, &owner);
    assert_eq!((row.id >> 76) & 0xf, 4);
    assert_eq!(row.owner_id, 9);
    assert_eq!(row.owner_name, "jan");
    assert_eq!(row.owner_username, "jan");
    assert_eq!(row.owner_email, "jan@x");
    assert_eq!(row.owner_avatar, Some(vec![7]));
    assert_eq!(row.content.title, "t");
}

#[test]
fn review_from_its_rows() {
    let row = ReviewRecord {
        id: 1,
        review_sender_id: 2,
        review_receiver_id: 3,
        score: 4,
        comment: Some("good".to_string()),
        review_type: "post".to_string(),
        post_id: Some(5),
        profile_id: None,
        created_at: None,
        updated_at: Some(8),
    };
    let sender = SenderRecord { name: None, username: "jan".to_string() };
    let review = Review::assemble(row, Some(sender), 99);
    assert_eq!(
        review,
        Review {
            id: 1,
            review_sender_id: 2,
            review_receiver_id: 3,
            score: 4,
            comment: Some("good".to_string()),
            review_type: "post".to_string(),
            post_id: Some(5),
            profile_id: None,
            created_at: 99,
            updated_at: 8,
            sender_name: None,
            sender_username: Some("jan".to_string()),
        }
    );
    let row = ReviewRecord {
        id: 1,
        review_sender_id: 2,
        review_receiver_id: 3,
        score: 4,
        comment: None,
        review_type: "profile".to_string(),
        post_id: None,
        profile_id: Some(6),
        created_at: Some(7),
        updated_at: Some(8),
    };
    let review = Review::from_rows(row, None);
    assert_eq!((review.created_at, review.updated_at), (7, 8));
    assert_eq!(review.sender_username, None);
    assert_eq!(review.profile_id, Some(6));
}

#[test]
fn a_user_is_plain_data() {
    let user = User { id: 1, username: "jan".to_string(), email: "jan@technischools.com".to_string() };
    assert_eq!(user, User { id: 1, username: "jan".to_string(), email: "jan@technischools.com".to_string() });
}

#[test]
fn posts_are_refused_in_the_words_of_the_check() {
    assert_eq!(techni_zlecenia_api::api::post::create_post("t", "d", "offer", "s", false), Ok(()));
    assert_eq!(
        techni_zlecenia_api::api::post::create_post("", "d", "offer", "s", false),
        Err(Reply { status: 400, message: Some("Title cannot be empty".to_string()) })
    );
    assert_eq!(
        techni_zlecenia_api::api::post::update_post(&update()),
        Err(Reply { status: 400, message: Some("At least one field must be provided for update".to_string()) })
    );
    let mut named = update();
    named.kind = Some("offer".to_string());
    assert_eq!(techni_zlecenia_api::api::post::update_post(&named), Ok(()));
    named.price_negative = Some(true);
    assert_eq!(
        techni_zlecenia_api::api::post::update_post(&named),
        Err(Reply { status: 400, message: Some("Price cannot be negative".to_string()) })
    );
}
