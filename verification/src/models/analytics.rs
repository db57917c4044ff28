//! Daily counters of the analytics endpoints.

use vstd::prelude::*;

verus! {

/// Accounts created on one day; `date` is written `dd/mm`.
#[derive(Debug)]
pub struct UsersCreatedStatus {
    pub date: String,
    pub cadastros: u64,
}

/// Root contents published on one day; `date` is written `dd/mm`.
#[derive(Debug)]
pub struct PostsPublishedStatus {
    pub date: String,
    pub conteudos: u64,
}

/// Comments published on one day; `date` is written `dd/mm`.
#[derive(Debug)]
pub struct CommentsPublishedStatus {
    pub date: String,
    pub respostas: u64,
}

} // verus!
