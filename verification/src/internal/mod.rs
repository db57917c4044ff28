//! The shared transport and the domain modules built on it.

pub mod analytics;
pub mod auth;
pub mod headers;
pub mod http_client;
pub mod posts;
pub mod query;
pub mod request;
pub mod url;
pub mod user;
pub mod users;
