//! What the posts, users and reviews routes answer, given what became of
//! the store's work: a status, and words where the request failed.

use vstd::prelude::*;
use vstd::string::StringExecFns;

use crate::api::auth::{
    STATUS_BAD_REQUEST, STATUS_CONFLICT, STATUS_CREATED, STATUS_FORBIDDEN, STATUS_INTERNAL_SERVER_ERROR,
    STATUS_NOT_FOUND, STATUS_OK,
};
use crate::api::post::PageWindow;
use crate::server::ident::{id_parsed, parse_id, Id};

verus! {

/// What became of the store's work for a request.
#[derive(Debug, Clone, Copy, PartialEq, Eq, Structural)]
pub enum StoreOutcome {
    /// The store did what was asked.
    Done,
    /// The store found nothing to do it to.
    Missing,
    /// The store failed.
    Failed,
}

/// What a route does for a client.
#[derive(Debug, Clone, Copy, PartialEq, Eq, Structural)]
pub enum Action {
    ListPosts,
    GetPost,
    CreatePost,
    UpdatePost,
    DeletePost,
    GetUser,
    RenameUser,
    GetRenamedUser,
    DeleteReview,
}

/// An answer: the status, and the message that goes with it, if any.
#[derive(Debug, PartialEq, Eq)]
pub struct Reply {
    pub status: u16,
    pub message: Option<String>,
}

/// The status that an action answers with.
pub open spec fn reply_status(action: Action, outcome: StoreOutcome) -> u16 {
    match outcome {
        StoreOutcome::Done => if action == Action::CreatePost {
            STATUS_CREATED
        } else {
            STATUS_OK
        },
        StoreOutcome::Missing => STATUS_NOT_FOUND,
        StoreOutcome::Failed => STATUS_INTERNAL_SERVER_ERROR,
    }
}

/// The message that an action answers with. A failure of the store is
/// named without detail.
pub open spec fn reply_message(action: Action, outcome: StoreOutcome) -> Option<Seq<char>> {
    match outcome {
        StoreOutcome::Done => match action {
            Action::DeletePost => Some("Post deleted successfully"@),
            Action::DeleteReview => Some("Review deleted successfully"@),
            _ => None,
        },
        StoreOutcome::Missing => Some(
            match action {
                Action::ListPosts => "Post not found"@,
                Action::GetPost => "Post not found"@,
                Action::CreatePost => "Post not found"@,
                Action::UpdatePost => "Post not found or you don't have permission to update it"@,
                Action::DeletePost => "Post not found or you don't have permission to delete it"@,
                Action::GetUser => "User not found"@,
                Action::RenameUser => "User not found"@,
                Action::GetRenamedUser => "User not found"@,
                Action::DeleteReview => "Review not found or you don't have permission to delete it"@,
            },
        ),
        StoreOutcome::Failed => Some(
            match action {
                Action::ListPosts => "Failed to fetch posts"@,
                Action::GetPost => "Failed to fetch post"@,
                Action::CreatePost => "Failed to create post"@,
                Action::UpdatePost => "Failed to update post"@,
                Action::DeletePost => "Failed to delete post"@,
                Action::GetUser => "Failed to fetch user"@,
                Action::RenameUser => "Failed to update user"@,
                Action::GetRenamedUser => "Failed to fetch updated user"@,
                Action::DeleteReview => "Failed to delete review"@,
            },
        ),
    }
}

/// The text of an optional message.
pub open spec fn message_text(message: Option<String>) -> Option<Seq<char>> {
    match message {
        Some(s) => Some(s@),
        None => None,
    }
}

/// The words for an action that found nothing.
fn missing_words(action: Action) -> (text: String)
    ensures
        Some(text@) == reply_message(action, StoreOutcome::Missing),
{
    match action {
        Action::ListPosts => String::from_str("Post not found"),
        Action::GetPost => String::from_str("Post not found"),
        Action::CreatePost => String::from_str("Post not found"),
        Action::UpdatePost => String::from_str(
            "Post not found or you don't have permission to update it",
        ),
        Action::DeletePost => String::from_str(
            "Post not found or you don't have permission to delete it",
        ),
        Action::GetUser => String::from_str("User not found"),
        Action::RenameUser => String::from_str("User not found"),
        Action::GetRenamedUser => String::from_str("User not found"),
        Action::DeleteReview => String::from_str(
            "Review not found or you don't have permission to delete it",
        ),
    }
}

/// The words for an action on which the store failed.
fn failure_words(action: Action) -> (text: String)
    ensures
        Some(text@) == reply_message(action, StoreOutcome::Failed),
{
    match action {
        Action::ListPosts => String::from_str("Failed to fetch posts"),
        Action::GetPost => String::from_str("Failed to fetch post"),
        Action::CreatePost => String::from_str("Failed to create post"),
        Action::UpdatePost => String::from_str("Failed to update post"),
        Action::DeletePost => String::from_str("Failed to delete post"),
        Action::GetUser => String::from_str("Failed to fetch user"),
        Action::RenameUser => String::from_str("Failed to update user"),
        Action::GetRenamedUser => String::from_str("Failed to fetch updated user"),
        Action::DeleteReview => String::from_str("Failed to delete review"),
    }
}

/// What an action answers, given what became of the store's work.
pub fn reply_for(action: Action, outcome: StoreOutcome) -> (reply: Reply)
    ensures
        reply.status == reply_status(action, outcome),
        message_text(reply.message) == reply_message(action, outcome),
{
    match outcome {
        StoreOutcome::Done => {
            let status = match action {
                Action::CreatePost => STATUS_CREATED,
                _ => STATUS_OK,
            };
            let message = match action {
                Action::DeletePost => Some(String::from_str("Post deleted successfully")),
                Action::DeleteReview => Some(String::from_str("Review deleted successfully")),
                _ => None,
            };
            Reply { status, message }
        },
        StoreOutcome::Missing => Reply { status: STATUS_NOT_FOUND, message: Some(missing_words(action)) },
        StoreOutcome::Failed => Reply {
            status: STATUS_INTERNAL_SERVER_ERROR,
            message: Some(failure_words(action)),
        },
    }
}

/// What is answered to a request that is refused before the store is asked.
pub fn refusal(status: u16, words: String) -> (reply: Reply)
    ensures
        reply.status == status,
        reply.message == Some(words),
{
    Reply { status, message: Some(words) }
}

/// The owner that a listing of posts is narrowed to: none where the query
/// names none, and a refusal where what it names is no identifier.
pub fn owner_filter(owner_id: Option<&str>) -> (filter: Result<Option<Id>, Reply>)
    ensures
        match owner_id {
            None => filter == Ok::<Option<Id>, Reply>(None),
            Some(text) => match id_parsed(text@) {
                Some(id) => filter == Ok::<Option<Id>, Reply>(Some(id)),
                None => filter matches Err(reply) && reply.status == STATUS_BAD_REQUEST
                    && message_text(reply.message) == Some("Invalid owner ID format"@),
            },
        },
{
    match owner_id {
        None => Ok(None),
        Some(text) => match parse_id(text) {
            Ok(id) => Ok(Some(id)),
            Err(_) => Err(refusal(STATUS_BAD_REQUEST, String::from_str("Invalid owner ID format"))),
        },
    }
}

/// The user that a path names, or a refusal where it names no identifier.
pub fn user_in_path(user_id: &str) -> (user: Result<Id, Reply>)
    ensures
        match id_parsed(user_id@) {
            Some(id) => user == Ok::<Id, Reply>(id),
            None => user matches Err(reply) && reply.status == STATUS_BAD_REQUEST && message_text(
                reply.message,
            ) == Some("Invalid user ID format"@),
        },
{
    match parse_id(user_id) {
        Ok(id) => Ok(id),
        Err(_) => Err(refusal(STATUS_BAD_REQUEST, String::from_str("Invalid user ID format"))),
    }
}

/// Whether a profile update may go on: only on the caller's own profile.
pub fn profile_gate(caller: Id, profile: Id) -> (gate: Result<(), Reply>)
    ensures
        match gate {
            Ok(_) => caller == profile,
            Err(reply) => caller != profile && reply.status == STATUS_FORBIDDEN && message_text(
                reply.message,
            ) == Some("You can only update your own profile"@),
        },
{
    if caller == profile {
        Ok(())
    } else {
        Err(refusal(STATUS_FORBIDDEN, String::from_str("You can only update your own profile")))
    }
}

/// Whether a new review may be stored: not where the sender has reviewed
/// the same post or profile before.
pub fn review_gate(already_reviewed: bool) -> (gate: Result<(), Reply>)
    ensures
        match gate {
            Ok(_) => !already_reviewed,
            Err(reply) => already_reviewed && reply.status == STATUS_CONFLICT && message_text(
                reply.message,
            ) == Some("Review already exists"@),
        },
{
    if already_reviewed {
        Err(refusal(STATUS_CONFLICT, String::from_str("Review already exists")))
    } else {
        Ok(())
    }
}

/// The rows that a listing reads, or a refusal where the page lies out of
/// range.
pub fn page_gate(window: Option<PageWindow>) -> (gate: Result<PageWindow, Reply>)
    ensures
        match window {
            Some(w) => gate == Ok::<PageWindow, Reply>(w),
            None => gate matches Err(reply) && reply.status == STATUS_BAD_REQUEST && message_text(
                reply.message,
            ) == Some("page is out of range"@),
        },
{
    match window {
        Some(w) => Ok(w),
        None => Err(refusal(STATUS_BAD_REQUEST, String::from_str("page is out of range"))),
    }
}

/// The refusal of a request whose content breaks a rule, in the rule's own
/// words.
pub fn invalid(words: String) -> (reply: Reply)
    ensures
        reply.status == STATUS_BAD_REQUEST,
        reply.message == Some(words),
{
    refusal(STATUS_BAD_REQUEST, words)
}

} // verus!
