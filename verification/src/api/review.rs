//! Reviews over the API: what a new review must satisfy and which rows a
//! listing reads.

use vstd::prelude::*;
use vstd::string::StringExecFns;

use crate::api::post::PageWindow;
use crate::server::clock::{now_micros, Timestamp};
use crate::server::ident::Id;
use crate::server::text::text_equals;

verus! {

/// A review with what is known of its sender.
#[derive(Debug, PartialEq, Eq)]
pub struct Review {
    pub id: Id,
    pub review_sender_id: Id,
    pub review_receiver_id: Id,
    pub score: i32,
    pub comment: Option<String>,
    pub review_type: String,
    pub post_id: Option<Id>,
    pub profile_id: Option<Id>,
    pub created_at: Timestamp,
    pub updated_at: Timestamp,
    pub sender_name: Option<String>,
    pub sender_username: Option<String>,
}

/// What a client sends to review a post or a profile.
#[derive(Debug, PartialEq, Eq)]
pub struct CreateReviewRequest {
    pub review_receiver_id: Id,
    pub score: i32,
    pub comment: Option<String>,
    pub review_type: String,
    pub post_id: Option<Id>,
    pub profile_id: Option<Id>,
}

/// Which reviews a client asks for.
#[derive(Debug, PartialEq, Eq)]
pub struct GetReviewsQuery {
    pub review_type: Option<String>,
    pub post_id: Option<Id>,
    pub profile_id: Option<Id>,
    pub page: Option<i64>,
    pub limit: Option<i64>,
}

/// A review as its table returns it.
#[derive(Debug, PartialEq, Eq)]
pub struct ReviewRecord {
    pub id: Id,
    pub review_sender_id: Id,
    pub review_receiver_id: Id,
    pub score: i32,
    pub comment: Option<String>,
    pub review_type: String,
    pub post_id: Option<Id>,
    pub profile_id: Option<Id>,
    pub created_at: Option<Timestamp>,
    pub updated_at: Option<Timestamp>,
}

/// What the users' table holds of a review's sender.
#[derive(Debug, PartialEq, Eq)]
pub struct SenderRecord {
    pub name: Option<String>,
    pub username: String,
}

/// The time in `stamp`, or `now` where the store gave none.
pub open spec fn time_or(stamp: Option<Timestamp>, now: Timestamp) -> Timestamp {
    match stamp {
        Some(t) => t,
        None => now,
    }
}

/// The display name of a sender, if the sender is known and has one.
pub open spec fn sender_name_of(sender: Option<SenderRecord>) -> Option<String> {
    match sender {
        Some(s) => s.name,
        None => None,
    }
}

/// The username of a sender, if the sender is known.
pub open spec fn sender_username_of(sender: Option<SenderRecord>) -> Option<String> {
    match sender {
        Some(s) => Some(s.username),
        None => None,
    }
}

impl Review {
    /// The review that a row and its sender's row make. Times that the
    /// store left out are taken to be `now`.
    pub fn assemble(row: ReviewRecord, sender: Option<SenderRecord>, now: Timestamp) -> (review: Self)
        ensures
            review == (Review {
                id: row.id,
                review_sender_id: row.review_sender_id,
                review_receiver_id: row.review_receiver_id,
                score: row.score,
                comment: row.comment,
                review_type: row.review_type,
                post_id: row.post_id,
                profile_id: row.profile_id,
                created_at: time_or(row.created_at, now),
                updated_at: time_or(row.updated_at, now),
                sender_name: sender_name_of(sender),
                sender_username: sender_username_of(sender),
            }),
    {
        let (sender_name, sender_username) = match sender {
            Some(s) => (s.name, Some(s.username)),
            None => (None, None),
        };
        Review {
            id: row.id,
            review_sender_id: row.review_sender_id,
            review_receiver_id: row.review_receiver_id,
            score: row.score,
            comment: row.comment,
            review_type: row.review_type,
            post_id: row.post_id,
            profile_id: row.profile_id,
            created_at: match row.created_at {
                Some(t) => t,
                None => now,
            },
            updated_at: match row.updated_at {
                Some(t) => t,
                None => now,
            },
            sender_name,
            sender_username,
        }
    }

    /// The review that a row and its sender's row make, with the time of
    /// the clock for times that the store left out.
    pub fn from_rows(row: ReviewRecord, sender: Option<SenderRecord>) -> (review: Self)
        ensures
            review.id == row.id,
            review.review_sender_id == row.review_sender_id,
            review.review_receiver_id == row.review_receiver_id,
            review.score == row.score,
            review.comment == row.comment,
            review.review_type == row.review_type,
            review.post_id == row.post_id,
            review.profile_id == row.profile_id,
            row.created_at matches Some(t) ==> review.created_at == t,
            row.updated_at matches Some(t) ==> review.updated_at == t,
            review.sender_name == sender_name_of(sender),
            review.sender_username == sender_username_of(sender),
    {
        let now = now_micros();
        Self::assemble(row, sender, now)
    }
}

/// Why a review is refused.
#[derive(Debug, Clone, Copy, PartialEq, Eq, Structural)]
pub enum ReviewRefusal {
    ScoreOutOfRange,
    PostIdRequired,
    ProfileIdNotAllowed,
    ProfileIdRequired,
    PostIdNotAllowed,
    UnknownType,
    SelfReview,
}

impl ReviewRefusal {
    /// The refusal in words.
    pub fn message(&self) -> (text: String)
        ensures
            text@ == match *self {
                ReviewRefusal::ScoreOutOfRange => "Score must be between 1 and 5"@,
                ReviewRefusal::PostIdRequired => "post_id is required for post reviews"@,
                ReviewRefusal::ProfileIdNotAllowed => "profile_id should not be set for post reviews"@,
                ReviewRefusal::ProfileIdRequired => "profile_id is required for profile reviews"@,
                ReviewRefusal::PostIdNotAllowed => "post_id should not be set for profile reviews"@,
                ReviewRefusal::UnknownType => "review_type must be 'post' or 'profile'"@,
                ReviewRefusal::SelfReview => "Cannot review yourself"@,
            },
    {
        match self {
            ReviewRefusal::ScoreOutOfRange => String::from_str("Score must be between 1 and 5"),
            ReviewRefusal::PostIdRequired => String::from_str("post_id is required for post reviews"),
            ReviewRefusal::ProfileIdNotAllowed => String::from_str(
                "profile_id should not be set for post reviews",
            ),
            ReviewRefusal::ProfileIdRequired => String::from_str(
                "profile_id is required for profile reviews",
            ),
            ReviewRefusal::PostIdNotAllowed => String::from_str(
                "post_id should not be set for profile reviews",
            ),
            ReviewRefusal::UnknownType => String::from_str("review_type must be 'post' or 'profile'"),
            ReviewRefusal::SelfReview => String::from_str("Cannot review yourself"),
        }
    }
}

/// What the checks make of a new review by `sender`: the first of them that
/// fails. The score is judged first, then the kind with the identifier it
/// needs, then whether the sender reviews themselves.
pub open spec fn review_verdict(
    sender: Id,
    receiver: Id,
    score: i32,
    review_type: Seq<char>,
    has_post_id: bool,
    has_profile_id: bool,
) -> Result<(), ReviewRefusal> {
    if score < 1 || score > 5 {
        Err(ReviewRefusal::ScoreOutOfRange)
    } else if review_type == "post"@ {
        if !has_post_id {
            Err(ReviewRefusal::PostIdRequired)
        } else if has_profile_id {
            Err(ReviewRefusal::ProfileIdNotAllowed)
        } else if sender == receiver {
            Err(ReviewRefusal::SelfReview)
        } else {
            Ok(())
        }
    } else if review_type == "profile"@ {
        if !has_profile_id {
            Err(ReviewRefusal::ProfileIdRequired)
        } else if has_post_id {
            Err(ReviewRefusal::PostIdNotAllowed)
        } else if sender == receiver {
            Err(ReviewRefusal::SelfReview)
        } else {
            Ok(())
        }
    } else {
        Err(ReviewRefusal::UnknownType)
    }
}

/// Checks a new review by `sender`.
pub fn validate_review(sender: Id, request: &CreateReviewRequest) -> (verdict: Result<(), ReviewRefusal>)
    ensures
        verdict == review_verdict(
            sender,
            request.review_receiver_id,
            request.score,
            request.review_type@,
            request.post_id is Some,
            request.profile_id is Some,
        ),
{
    if request.score < 1 || request.score > 5 {
        return Err(ReviewRefusal::ScoreOutOfRange);
    }
    if text_equals(request.review_type.as_str(), "post") {
        if request.post_id.is_none() {
            return Err(ReviewRefusal::PostIdRequired);
        }
        if request.profile_id.is_some() {
            return Err(ReviewRefusal::ProfileIdNotAllowed);
        }
    } else if text_equals(request.review_type.as_str(), "profile") {
        if request.profile_id.is_none() {
            return Err(ReviewRefusal::ProfileIdRequired);
        }
        if request.post_id.is_some() {
            return Err(ReviewRefusal::PostIdNotAllowed);
        }
    } else {
        return Err(ReviewRefusal::UnknownType);
    }
    if sender == request.review_receiver_id {
        return Err(ReviewRefusal::SelfReview);
    }
    Ok(())
}

/// Reviews on a page where the client names no number.
pub const DEFAULT_REVIEW_LIMIT: i64 = 20;

/// The most reviews a page holds.
pub const MAX_REVIEW_LIMIT: i64 = 100;

/// The number of reviews on a page: 20 where none is named, and never more
/// than 100.
pub open spec fn review_limit(limit: Option<i64>) -> i64 {
    match limit {
        Some(n) => if n < MAX_REVIEW_LIMIT {
            n
        } else {
            MAX_REVIEW_LIMIT
        },
        None => DEFAULT_REVIEW_LIMIT,
    }
}

/// The page that a query names, or the first.
pub open spec fn review_page(page: Option<i64>) -> i64 {
    match page {
        Some(p) => p,
        None => 0,
    }
}

/// The rows that a listing of reviews reads, or nothing where the page lies
/// so far out that its first row cannot be counted in 64 bits.
pub fn review_window(query: &GetReviewsQuery) -> (window: Option<PageWindow>)
    ensures
        match window {
            Some(w) => w.limit == review_limit(query.limit) && w.offset == review_page(query.page)
                * review_limit(query.limit),
            None => review_page(query.page) * review_limit(query.limit) < i64::MIN || review_page(
                query.page,
            ) * review_limit(query.limit) > i64::MAX,
        },
{
    let page: i64 = match query.page {
        Some(p) => p,
        None => 0,
    };
    let limit: i64 = match query.limit {
        Some(n) => if n < MAX_REVIEW_LIMIT {
            n
        } else {
            MAX_REVIEW_LIMIT
        },
        None => DEFAULT_REVIEW_LIMIT,
    };
    match page.checked_mul(limit) {
        Some(offset) => Some(PageWindow { limit, offset }),
        None => None,
    }
}

/// The kind of review whose statistics are asked for: `profile` where the
/// query names none.
pub fn stats_review_type(query: &GetReviewsQuery) -> (kind: String)
    ensures
        kind@ == match query.review_type {
            Some(t) => t@,
            None => "profile"@,
        },
{
    match &query.review_type {
        Some(t) => t.clone(),
        None => String::from_str("profile"),
    }
}

/// A count from the store, or zero where it gave none.
pub fn count_or_zero(count: Option<i64>) -> (n: i64)
    ensures
        n == match count {
            Some(c) => c,
            None => 0,
        },
{
    match count {
        Some(c) => c,
        None => 0,
    }
}

} // verus!
