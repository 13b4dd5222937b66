//! Posts over the API: what a request must satisfy and what is answered.

use vstd::prelude::*;
use vstd::string::StringExecFns;

use crate::api::auth::STATUS_BAD_REQUEST;
use crate::api::reply::{invalid, message_text, Reply};
use crate::server::text::{is_blank, is_blank_spec, text_equals};

verus! {

/// Which page of posts a client asks for, and whose.
#[derive(Debug, PartialEq, Eq)]
pub struct GetPostsQuery {
    pub page: Option<i32>,
    pub per_page: Option<i32>,
    pub owner_id: Option<String>,
}

/// The answer to a deletion.
#[derive(Debug, PartialEq, Eq)]
pub struct DeletePostResponse {
    pub message: String,
}

/// The answer to a request that failed.
#[derive(Debug, PartialEq, Eq)]
pub struct ErrorResponse {
    pub message: String,
}

impl DeletePostResponse {
    /// The answer with the given message.
    pub fn new(message: String) -> (response: Self)
        ensures
            response.message == message,
    {
        Self { message }
    }
}

impl ErrorResponse {
    /// The answer with the given message.
    pub fn new(message: String) -> (response: Self)
        ensures
            response.message == message,
    {
        Self { message }
    }
}

/// Posts on a page where the client names no number.
pub const DEFAULT_PER_PAGE: i32 = 10;

/// The most posts a page of the unfiltered listing holds.
pub const MAX_PER_PAGE: i32 = 100;

/// The window of rows that a page stands for.
#[derive(Debug, Clone, Copy, PartialEq, Eq, Structural)]
pub struct PageWindow {
    pub limit: i64,
    pub offset: i64,
}

/// The window for page `page` of `per_page` rows: it starts `page` pages in.
pub open spec fn window_spec(page: i32, per_page: i32) -> PageWindow {
    PageWindow { limit: per_page as i64, offset: (page * per_page) as i64 }
}

/// The window of the filtered listing: page 0 and 10 rows where the client
/// names none.
pub fn filtered_window(query: &GetPostsQuery) -> (window: PageWindow)
    ensures
        window == window_spec(
            match query.page {
                Some(p) => p,
                None => 0,
            },
            match query.per_page {
                Some(n) => n,
                None => DEFAULT_PER_PAGE,
            },
        ),
{
    let page: i32 = match query.page {
        Some(p) => p,
        None => 0,
    };
    let per_page: i32 = match query.per_page {
        Some(n) => n,
        None => DEFAULT_PER_PAGE,
    };
    page_window(page, per_page)
}

/// The window for page `page` of `per_page` rows.
pub fn page_window(page: i32, per_page: i32) -> (window: PageWindow)
    ensures
        window == window_spec(page, per_page),
{
    let wide_page: i64 = page as i64;
    let wide_per_page: i64 = per_page as i64;
    assert(-0x4000_0000_0000_0000 <= wide_page * wide_per_page <= 0x4000_0000_0000_0000)
        by (nonlinear_arith)
        requires
            -0x8000_0000 <= wide_page <= 0x7fff_ffff,
            -0x8000_0000 <= wide_per_page <= 0x7fff_ffff,
    ;
    PageWindow { limit: wide_per_page, offset: wide_page * wide_per_page }
}

/// The window of the unfiltered listing: page 0 and 10 rows where none is
/// named, and never more than 100 rows.
pub fn capped_window(page: Option<i32>, per_page: Option<i32>) -> (window: PageWindow)
    ensures
        window == window_spec(
            match page {
                Some(p) => p,
                None => 0,
            },
            match per_page {
                Some(n) => if n < MAX_PER_PAGE {
                    n
                } else {
                    MAX_PER_PAGE
                },
                None => DEFAULT_PER_PAGE,
            },
        ),
        window.limit <= MAX_PER_PAGE,
{
    let page: i32 = match page {
        Some(p) => p,
        None => 0,
    };
    let per_page: i32 = match per_page {
        Some(n) => if n < MAX_PER_PAGE {
            n
        } else {
            MAX_PER_PAGE
        },
        None => DEFAULT_PER_PAGE,
    };
    page_window(page, per_page)
}

/// Why the content of a post is refused.
#[derive(Debug, Clone, Copy, PartialEq, Eq, Structural)]
pub enum PostValidationError {
    NothingToUpdate,
    EmptyTitle,
    EmptyDescription,
    InvalidType,
    EmptySubject,
    NegativePrice,
}

/// A refusal in words.
pub open spec fn refusal_words(refusal: PostValidationError) -> Seq<char> {
    match refusal {
        PostValidationError::NothingToUpdate => "At least one field must be provided for update"@,
        PostValidationError::EmptyTitle => "Title cannot be empty"@,
        PostValidationError::EmptyDescription => "Description cannot be empty"@,
        PostValidationError::InvalidType => "Type must be 'request' or 'offer'"@,
        PostValidationError::EmptySubject => "Subject cannot be empty"@,
        PostValidationError::NegativePrice => "Price cannot be negative"@,
    }
}

impl PostValidationError {
    /// The refusal in words.
    pub fn message(&self) -> (text: String)
        ensures
            text@ == refusal_words(*self),
    {
        match self {
            PostValidationError::NothingToUpdate => String::from_str(
                "At least one field must be provided for update",
            ),
            PostValidationError::EmptyTitle => String::from_str("Title cannot be empty"),
            PostValidationError::EmptyDescription => String::from_str("Description cannot be empty"),
            PostValidationError::InvalidType => String::from_str("Type must be 'request' or 'offer'"),
            PostValidationError::EmptySubject => String::from_str("Subject cannot be empty"),
            PostValidationError::NegativePrice => String::from_str("Price cannot be negative"),
        }
    }
}

/// Whether a text names a kind of post.
pub open spec fn is_post_kind(kind: Seq<char>) -> bool {
    kind == "request"@ || kind == "offer"@
}

/// Whether `kind` is one of the two kinds of post.
pub fn check_post_kind(kind: &str) -> (known: bool)
    ensures
        known == is_post_kind(kind@),
{
    text_equals(kind, "request") || text_equals(kind, "offer")
}

/// What the checks make of a new post: the first of them that fails, in the
/// order title, description, kind, subject, price.
pub open spec fn new_post_verdict(
    title: Seq<char>,
    description: Seq<char>,
    kind: Seq<char>,
    subject: Seq<char>,
    price_negative: bool,
) -> Result<(), PostValidationError> {
    if is_blank_spec(title) {
        Err(PostValidationError::EmptyTitle)
    } else if is_blank_spec(description) {
        Err(PostValidationError::EmptyDescription)
    } else if !is_post_kind(kind) {
        Err(PostValidationError::InvalidType)
    } else if is_blank_spec(subject) {
        Err(PostValidationError::EmptySubject)
    } else if price_negative {
        Err(PostValidationError::NegativePrice)
    } else {
        Ok(())
    }
}

/// Checks the content of a post that is to be created.
pub fn validate_new_post(
    title: &str,
    description: &str,
    kind: &str,
    subject: &str,
    price_negative: bool,
) -> (verdict: Result<(), PostValidationError>)
    ensures
        verdict == new_post_verdict(title@, description@, kind@, subject@, price_negative),
{
    if is_blank(title) {
        return Err(PostValidationError::EmptyTitle);
    }
    if is_blank(description) {
        return Err(PostValidationError::EmptyDescription);
    }
    if !check_post_kind(kind) {
        return Err(PostValidationError::InvalidType);
    }
    if is_blank(subject) {
        return Err(PostValidationError::EmptySubject);
    }
    if price_negative {
        return Err(PostValidationError::NegativePrice);
    }
    Ok(())
}

/// What an update names of a post; of the fields that need no check, only
/// whether one of them is there.
#[derive(Debug, PartialEq, Eq)]
pub struct PostUpdate {
    pub title: Option<String>,
    pub description: Option<String>,
    pub kind: Option<String>,
    pub subject: Option<String>,
    pub price_negative: Option<bool>,
    pub names_other_field: bool,
}

/// The text of an optional field.
pub open spec fn field_text(field: Option<String>) -> Option<Seq<char>> {
    match field {
        Some(s) => Some(s@),
        None => None,
    }
}

/// What the checks make of an update: it must name a field, and each named
/// field must pass the check of a new post, in the same order.
pub open spec fn update_verdict(
    title: Option<Seq<char>>,
    description: Option<Seq<char>>,
    kind: Option<Seq<char>>,
    subject: Option<Seq<char>>,
    price_negative: Option<bool>,
    names_other_field: bool,
) -> Result<(), PostValidationError> {
    if title is None && description is None && kind is None && subject is None && price_negative is None
        && !names_other_field {
        Err(PostValidationError::NothingToUpdate)
    } else if title is Some && is_blank_spec(title->0) {
        Err(PostValidationError::EmptyTitle)
    } else if description is Some && is_blank_spec(description->0) {
        Err(PostValidationError::EmptyDescription)
    } else if kind is Some && !is_post_kind(kind->0) {
        Err(PostValidationError::InvalidType)
    } else if subject is Some && is_blank_spec(subject->0) {
        Err(PostValidationError::EmptySubject)
    } else if price_negative == Some(true) {
        Err(PostValidationError::NegativePrice)
    } else {
        Ok(())
    }
}

/// Checks an update of a post.
pub fn validate_post_update(update: &PostUpdate) -> (verdict: Result<(), PostValidationError>)
    ensures
        verdict == update_verdict(
            field_text(update.title),
            field_text(update.description),
            field_text(update.kind),
            field_text(update.subject),
            update.price_negative,
            update.names_other_field,
        ),
{
    if update.title.is_none() && update.description.is_none() && update.kind.is_none()
        && update.subject.is_none() && update.price_negative.is_none() && !update.names_other_field {
        return Err(PostValidationError::NothingToUpdate);
    }
    if let Some(title) = &update.title {
        if is_blank(title.as_str()) {
            return Err(PostValidationError::EmptyTitle);
        }
    }
    if let Some(description) = &update.description {
        if is_blank(description.as_str()) {
            return Err(PostValidationError::EmptyDescription);
        }
    }
    if let Some(kind) = &update.kind {
        if !check_post_kind(kind.as_str()) {
            return Err(PostValidationError::InvalidType);
        }
    }
    if let Some(subject) = &update.subject {
        if is_blank(subject.as_str()) {
            return Err(PostValidationError::EmptySubject);
        }
    }
    if let Some(negative) = update.price_negative {
        if negative {
            return Err(PostValidationError::NegativePrice);
        }
    }
    Ok(())
}

/// Whether a new post may be stored: a refusal with the words of the first
/// check that fails, else leave to go on.
pub fn create_post(
    title: &str,
    description: &str,
    kind: &str,
    subject: &str,
    price_negative: bool,
) -> (gate: Result<(), Reply>)
    ensures
        match new_post_verdict(title@, description@, kind@, subject@, price_negative) {
            Ok(_) => gate is Ok,
            Err(refusal) => gate matches Err(reply) && reply.status == STATUS_BAD_REQUEST
                && message_text(reply.message) == Some(refusal_words(refusal)),
        },
{
    match validate_new_post(title, description, kind, subject, price_negative) {
        Ok(_) => Ok(()),
        Err(refusal) => Err(invalid(refusal.message())),
    }
}

/// Whether an update of a post may go on to the store: an update that names
/// no field, or names one that fails its check, is refused with the words
/// of the check.
pub fn update_post(update: &PostUpdate) -> (gate: Result<(), Reply>)
    ensures
        match update_verdict(
            field_text(update.title),
            field_text(update.description),
            field_text(update.kind),
            field_text(update.subject),
            update.price_negative,
            update.names_other_field,
        ) {
            Ok(_) => gate is Ok,
            Err(refusal) => gate matches Err(reply) && reply.status == STATUS_BAD_REQUEST
                && message_text(reply.message) == Some(refusal_words(refusal)),
        },
{
    match validate_post_update(update) {
        Ok(_) => Ok(()),
        Err(refusal) => Err(invalid(refusal.message())),
    }
}

} // verus!
