//! Users, sessions and profile edits.

use vstd::prelude::*;

verus! {

/// A user account as the API returns it.
#[derive(Debug)]
pub struct User {
    pub id: String,
    pub username: String,
    pub email: Option<String>,
    pub features: Vec<String>,
    pub notifications: Option<bool>,
    pub tabcoins: i64,
    pub tabcash: i64,
    pub created_at: String,
    pub updated_at: String,
}

/// The credential bundle that a login exchange returns.
#[derive(Debug)]
pub struct UserSession {
    pub id: String,
    pub token: String,
    pub expires_at: String,
    pub created_at: String,
    pub updated_at: String,
}

/// The fields of a profile that an edit may replace. On the wire the first
/// three are called `username`, `email` and `password`.
#[derive(Debug)]
pub struct EditProfilePayload {
    pub new_username: Option<String>,
    pub new_email: Option<String>,
    pub new_password: Option<String>,
    pub notifications: Option<bool>,
}

} // verus!
