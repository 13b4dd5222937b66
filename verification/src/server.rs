//! Domain types and the rules on them.

pub mod auth;
pub mod chat;
pub mod clock;
pub mod credentials;
pub mod ident;
pub mod login;
pub mod post;
pub mod text;
pub mod user;
