//! The credentials of an authenticated user.

use vstd::prelude::*;

verus! {

/// What authentication hands out: the bearer token that every later
/// request carries, and the token that renews it, if the server gave one.
#[derive(Debug, Clone, Default, PartialEq)]
pub struct Session {
    pub auth_token: String,
    pub refresh_token: Option<String>,
}

} // verus!
