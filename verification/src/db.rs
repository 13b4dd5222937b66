//! What the library asks of the durable store, and a reference store that
//! answers it in memory.

pub mod messages;
pub mod order;
pub mod posts;
pub mod store;
pub mod users;
