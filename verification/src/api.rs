//! What each request decides, apart from the transport that carries it.

pub mod auth;
pub mod chat;
pub mod command;
pub mod listener;
pub mod post;
pub mod reply;
pub mod review;
pub mod user;
