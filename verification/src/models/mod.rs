//! Plain data exchanged with the API.

pub mod analytics;
pub mod content;
pub mod error;
pub mod user;
