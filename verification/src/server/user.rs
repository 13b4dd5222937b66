//! Users.

use vstd::prelude::*;

use crate::server::ident::Id;

verus! {

/// A user of the marketplace.
#[derive(Debug, PartialEq, Eq)]
pub struct User {
    pub id: Id,
    pub username: String,
    pub email: String,
}

} // verus!
