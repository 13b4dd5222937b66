//! Posts: requests for tutoring and offers of it.

use vstd::prelude::*;
use vstd::string::StringExecFns;

use crate::server::clock::{now_micros, Timestamp};
use crate::server::ident::Id;

verus! {

/// A decimal number: `mantissa` divided by ten to the power `scale`.
#[derive(Debug, Clone, Copy, PartialEq, Eq, Structural)]
pub struct Decimal {
    pub mantissa: i128,
    pub scale: u32,
}

impl Decimal {
    /// Zero, with no digits behind the point.
    pub fn zero() -> (d: Self)
        ensures
            d == (Decimal { mantissa: 0, scale: 0 }),
    {
        Decimal { mantissa: 0, scale: 0 }
    }

    /// Whether the number is below zero.
    pub fn is_negative(&self) -> (negative: bool)
        ensures
            negative == (self.mantissa < 0),
    {
        self.mantissa < 0
    }
}

/// A post with what is known of its owner.
#[derive(Debug, PartialEq, Eq)]
pub struct Post {
    pub id: Id,
    pub title: String,
    pub description: String,
    pub kind: String,
    pub subject: String,
    pub price: Decimal,
    pub deadline: Option<Timestamp>,
    pub urgent: bool,
    pub status: String,
    pub created_at: Timestamp,
    pub updated_at: Timestamp,
    pub owner_id: Id,
    pub owner_name: String,
    pub owner_username: String,
    pub owner_email: String,
    pub owner_avatar: Option<Vec<u8>>,
    pub owner_rating: Decimal,
    pub view_count: i32,
    pub response_count: i32,
    pub location: Option<String>,
    pub preferred_contact_method: Option<String>,
    pub academic_level: Option<String>,
    pub difficulty: Option<String>,
}

/// What a client says of a post, apart from who owns it.
#[derive(Debug, PartialEq, Eq)]
pub struct PostContent {
    pub title: String,
    pub description: String,
    pub kind: String,
    pub subject: String,
    pub price: Decimal,
    pub deadline: Option<Timestamp>,
    pub urgent: bool,
    pub location: Option<String>,
    pub preferred_contact_method: Option<String>,
    pub academic_level: Option<String>,
    pub difficulty: Option<String>,
}

/// What a post carries of its owner.
#[derive(Debug, PartialEq, Eq)]
pub struct PostOwner {
    pub id: Id,
    pub name: String,
    pub username: String,
    pub email: String,
    pub avatar: Option<Vec<u8>>,
    pub rating: Decimal,
}

impl PostOwner {
    /// The owner as the store knows them: the username serves as display
    /// name too, and the rating starts at zero.
    pub fn from_row(id: Id, username: String, email: String, avatar: Option<Vec<u8>>) -> (owner:
        Self)
        ensures
            owner.id == id,
            owner.name@ == username@,
            owner.username == username,
            owner.email == email,
            owner.avatar == avatar,
            owner.rating == (Decimal { mantissa: 0, scale: 0 }),
    {
        let name = username.clone();
        PostOwner { id, name, username, email, avatar, rating: Decimal::zero() }
    }
}

impl Post {
    /// The post `id` with the given content and owner, created at `now`: it
    /// is active and nobody has seen or answered it.
    pub fn assemble(id: Id, content: PostContent, owner: PostOwner, now: Timestamp) -> (post: Self)
        ensures
            post.id == id,
            post.title == content.title,
            post.description == content.description,
            post.kind == content.kind,
            post.subject == content.subject,
            post.price == content.price,
            post.deadline == content.deadline,
            post.urgent == content.urgent,
            post.status@ == "active"@,
            post.created_at == now,
            post.updated_at == now,
            post.owner_id == owner.id,
            post.owner_name == owner.name,
            post.owner_username == owner.username,
            post.owner_email == owner.email,
            post.owner_avatar == owner.avatar,
            post.owner_rating == owner.rating,
            post.view_count == 0,
            post.response_count == 0,
            post.location == content.location,
            post.preferred_contact_method == content.preferred_contact_method,
            post.academic_level == content.academic_level,
            post.difficulty == content.difficulty,
    {
        Post {
            id,
            title: content.title,
            description: content.description,
            kind: content.kind,
            subject: content.subject,
            price: content.price,
            deadline: content.deadline,
            urgent: content.urgent,
            status: String::from_str("active"),
            created_at: now,
            updated_at: now,
            owner_id: owner.id,
            owner_name: owner.name,
            owner_username: owner.username,
            owner_email: owner.email,
            owner_avatar: owner.avatar,
            owner_rating: owner.rating,
            view_count: 0,
            response_count: 0,
            location: content.location,
            preferred_contact_method: content.preferred_contact_method,
            academic_level: content.academic_level,
            difficulty: content.difficulty,
        }
    }

    /// A new active post, created now.
    pub fn new(
        id: Id,
        title: String,
        description: String,
        kind: String,
        subject: String,
        price: Decimal,
        deadline: Option<Timestamp>,
        urgent: bool,
        owner_id: Id,
        owner_name: String,
        owner_username: String,
        owner_email: String,
        owner_avatar: Option<Vec<u8>>,
        owner_rating: Decimal,
        location: Option<String>,
        preferred_contact_method: Option<String>,
        academic_level: Option<String>,
        difficulty: Option<String>,
    ) -> (post: Self)
        ensures
            post.id == id,
            post.title == title,
            post.description == description,
            post.kind == kind,
            post.subject == subject,
            post.price == price,
            post.deadline == deadline,
            post.urgent == urgent,
            post.status@ == "active"@,
            post.created_at == post.updated_at,
            post.owner_id == owner_id,
            post.owner_name == owner_name,
            post.owner_username == owner_username,
            post.owner_email == owner_email,
            post.owner_avatar == owner_avatar,
            post.owner_rating == owner_rating,
            post.view_count == 0,
            post.response_count == 0,
            post.location == location,
            post.preferred_contact_method == preferred_contact_method,
            post.academic_level == academic_level,
            post.difficulty == difficulty,
    {
        let now = now_micros();
        let content = PostContent {
            title,
            description,
            kind,
            subject,
            price,
            deadline,
            urgent,
            location,
            preferred_contact_method,
            academic_level,
            difficulty,
        };
        let owner = PostOwner {
            id: owner_id,
            name: owner_name,
            username: owner_username,
            email: owner_email,
            avatar: owner_avatar,
            rating: owner_rating,
        };
        Self::assemble(id, content, owner, now)
    }
}

} // verus!
