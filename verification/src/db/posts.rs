//! Posts in the store: what is made of the rows it returns.

use vstd::prelude::*;

use crate::api::post::{capped_window, page_window, window_spec, PageWindow, DEFAULT_PER_PAGE, MAX_PER_PAGE};
use crate::server::clock::Timestamp;
use crate::server::ident::{fresh_id, is_random_id, Id};
use crate::server::post::{Decimal, Post, PostContent};

verus! {

/// A post as its table holds it.
#[derive(Debug, PartialEq, Eq)]
pub struct PostRecord {
    pub id: Id,
    pub title: String,
    pub description: String,
    pub kind: String,
    pub subject: String,
    pub price: Decimal,
    pub deadline: Option<Timestamp>,
    pub urgent: bool,
    pub status: String,
    pub created_at: Timestamp,
    pub updated_at: Timestamp,
    pub owner_id: Id,
    pub view_count: i32,
    pub response_count: i32,
    pub location: Option<String>,
    pub preferred_contact_method: Option<String>,
    pub academic_level: Option<String>,
    pub difficulty: Option<String>,
}

/// What the users' table holds of a post's owner.
#[derive(Debug, PartialEq, Eq)]
pub struct OwnerRecord {
    pub username: String,
    pub email: String,
    pub avatar: Option<Vec<u8>>,
}

/// The post that a row and its owner's row make: the username serves as
/// display name too, and the rating is zero.
pub open spec fn joined(row: PostRecord, owner: OwnerRecord, post: Post) -> bool {
    &&& post.id == row.id
    &&& post.title == row.title
    &&& post.description == row.description
    &&& post.kind == row.kind
    &&& post.subject == row.subject
    &&& post.price == row.price
    &&& post.deadline == row.deadline
    &&& post.urgent == row.urgent
    &&& post.status == row.status
    &&& post.created_at == row.created_at
    &&& post.updated_at == row.updated_at
    &&& post.owner_id == row.owner_id
    &&& post.owner_name == owner.username
    &&& post.owner_username == owner.username
    &&& post.owner_email == owner.email
    &&& post.owner_avatar == owner.avatar
    &&& post.owner_rating == (Decimal { mantissa: 0, scale: 0 })
    &&& post.view_count == row.view_count
    &&& post.response_count == row.response_count
    &&& post.location == row.location
    &&& post.preferred_contact_method == row.preferred_contact_method
    &&& post.academic_level == row.academic_level
    &&& post.difficulty == row.difficulty
}

/// A row of the posts' table with what is known of its owner.
pub fn post_from_rows(row: PostRecord, owner: OwnerRecord) -> (post: Post)
    ensures
        joined(row, owner, post),
{
    let owner_name = owner.username.clone();
    Post {
        id: row.id,
        title: row.title,
        description: row.description,
        kind: row.kind,
        subject: row.subject,
        price: row.price,
        deadline: row.deadline,
        urgent: row.urgent,
        status: row.status,
        created_at: row.created_at,
        updated_at: row.updated_at,
        owner_id: row.owner_id,
        owner_name,
        owner_username: owner.username,
        owner_email: owner.email,
        owner_avatar: owner.avatar,
        owner_rating: Decimal::zero(),
        view_count: row.view_count,
        response_count: row.response_count,
        location: row.location,
        preferred_contact_method: row.preferred_contact_method,
        academic_level: row.academic_level,
        difficulty: row.difficulty,
    }
}

/// A post that is to be stored, with what it carries of its owner.
#[derive(Debug, PartialEq, Eq)]
pub struct NewPost {
    pub id: Id,
    pub content: PostContent,
    pub owner_id: Id,
    pub owner_name: String,
    pub owner_username: String,
    pub owner_email: String,
    pub owner_avatar: Option<Vec<u8>>,
}

/// The bytes of an avatar, if there is one.
pub open spec fn avatar_bytes(avatar: Option<Vec<u8>>) -> Option<Seq<u8>> {
    match avatar {
        Some(bytes) => Some(bytes@),
        None => None,
    }
}

/// The row for a new post of `owner_id`: a fresh random identifier, the
/// content as given, and the owner's username also as display name.
pub fn create_post(content: PostContent, owner_id: Id, owner: &OwnerRecord) -> (row: NewPost)
    ensures
        is_random_id(row.id),
        row.content == content,
        row.owner_id == owner_id,
        row.owner_name == owner.username,
        row.owner_username == owner.username,
        row.owner_email == owner.email,
        avatar_bytes(row.owner_avatar) == avatar_bytes(owner.avatar),
{
    let owner_avatar = match &owner.avatar {
        Some(bytes) => Some(bytes.clone()),
        None => None,
    };
    NewPost {
        id: fresh_id(),
        content,
        owner_id,
        owner_name: owner.username.clone(),
        owner_username: owner.username.clone(),
        owner_email: owner.email.clone(),
        owner_avatar,
    }
}

/// The rows that the listing of all posts reads: page 0 and 10 rows where
/// none is named, and never more than 100 rows.
pub fn get_posts(page: Option<i32>, per_page: Option<i32>) -> (window: PageWindow)
    ensures
        window == window_spec(
            match page {
                Some(p) => p,
                None => 0,
            },
            match per_page {
                Some(n) => if n < MAX_PER_PAGE {
                    n
                } else {
                    MAX_PER_PAGE
                },
                None => DEFAULT_PER_PAGE,
            },
        ),
        window.limit <= MAX_PER_PAGE,
{
    capped_window(page, per_page)
}

/// The rows that a filtered listing reads.
pub fn get_posts_filtered(page: i32, per_page: i32) -> (window: PageWindow)
    ensures
        window == window_spec(page, per_page),
{
    page_window(page, per_page)
}

/// A post with its owner, if the store found the post.
pub fn get_post_by_id(row: Option<PostRecord>, owner: OwnerRecord) -> (post: Option<Post>)
    ensures
        match row {
            Some(r) => post matches Some(p) && joined(r, owner, p),
            None => post is None,
        },
{
    match row {
        Some(r) => Some(post_from_rows(r, owner)),
        None => None,
    }
}

/// Whether an update may go on: only where the post exists and belongs to
/// the caller.
pub fn update_post(owned_post: Option<Id>) -> (go_on: bool)
    ensures
        go_on == owned_post is Some,
{
    owned_post.is_some()
}

/// Whether a deletion took place: whether it removed a row.
pub fn delete_post(rows_affected: u64) -> (deleted: bool)
    ensures
        deleted == (rows_affected > 0),
{
    rows_affected > 0
}

} // verus!
