//! Verified core of a marketplace backend: credentials and tokens, chat
//! threads and messages, the registry of live connections, and the rules that
//! decide what each request does.

pub mod api;
pub mod common;
pub mod db;
pub mod error;
pub mod server;
