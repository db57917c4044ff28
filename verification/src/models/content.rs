//! Posts, comments and the query controls of content listings.

use vstd::prelude::*;
use vstd::string::*;

verus! {

/// Direction of a tabcoin vote.
#[derive(Clone, Copy, Debug, PartialEq, Eq, Structural)]
pub enum TabcoinsTransaction {
    Credit,
    Debit,
}

/// Tabcoin balance of a content item after a vote.
#[derive(Debug)]
pub struct Tabcoins {
    pub tabcoins: i64,
}

/// A post or a comment.
///
/// Every field is optional: a value that is about to be published carries
/// only what the author set, one that was read back carries what the server
/// assigned as well.
#[derive(Debug)]
pub struct Content {
    pub id: Option<String>,
    pub parent_id: Option<String>,
    pub owner_id: Option<String>,
    pub slug: Option<String>,
    pub body: Option<String>,
    pub title: Option<String>,
    pub status: Option<String>,
    pub source_url: Option<String>,
    pub created_at: Option<String>,
    pub updated_at: Option<String>,
    pub published_at: Option<String>,
    pub deleted_at: Option<String>,
    pub tabcoins: Option<i64>,
    pub owner_username: Option<String>,
    pub children_deep_count: Option<u64>,
    pub children: Option<Box<Vec<Content>>>,
}

/// The text held by an optional string, if any.
pub open spec fn text_of(field: Option<String>) -> Option<Seq<char>> {
    match field {
        Some(s) => Some(s@),
        None => None,
    }
}

impl Content {
    /// A content item is blank when only its status is set, and set to
    /// `published`.
    pub open spec fn is_blank(&self) -> bool {
        &&& self.id is None
        &&& self.parent_id is None
        &&& self.owner_id is None
        &&& self.slug is None
        &&& self.body is None
        &&& self.title is None
        &&& text_of(self.status) == Some("published"@)
        &&& self.source_url is None
        &&& self.created_at is None
        &&& self.updated_at is None
        &&& self.published_at is None
        &&& self.deleted_at is None
        &&& self.tabcoins is None
        &&& self.owner_username is None
        &&& self.children_deep_count is None
        &&& self.children is None
    }

    /// Sets the body and leaves every other field as it was.
    pub fn set_body(&mut self, body: &str) -> (ret: &mut Self)
        ensures
            *final(self) == *final(ret),
            *ret == (Content { body: Some(ret.body->0), ..*old(self) }),
            text_of(ret.body) == Some(body@),
    {
        self.body = Some(body.to_owned());
        self
    }

    /// Sets the title and leaves every other field as it was.
    pub fn set_title(&mut self, title: &str) -> (ret: &mut Self)
        ensures
            *final(self) == *final(ret),
            *ret == (Content { title: Some(ret.title->0), ..*old(self) }),
            text_of(ret.title) == Some(title@),
    {
        self.title = Some(title.to_owned());
        self
    }

    /// Sets the source URL and leaves every other field as it was.
    pub fn set_source_url(&mut self, source_url: &str) -> (ret: &mut Self)
        ensures
            *final(self) == *final(ret),
            *ret == (Content { source_url: Some(ret.source_url->0), ..*old(self) }),
            text_of(ret.source_url) == Some(source_url@),
    {
        self.source_url = Some(source_url.to_owned());
        self
    }

    /// Sets the slug and leaves every other field as it was.
    pub fn set_slug(&mut self, slug: &str) -> (ret: &mut Self)
        ensures
            *final(self) == *final(ret),
            *ret == (Content { slug: Some(ret.slug->0), ..*old(self) }),
            text_of(ret.slug) == Some(slug@),
    {
        self.slug = Some(slug.to_owned());
        self
    }

    /// Sets the parent id, which marks the item as a comment, and leaves
    /// every other field as it was.
    pub fn set_parent_id(&mut self, parent_id: &str) -> (ret: &mut Self)
        ensures
            *final(self) == *final(ret),
            *ret == (Content { parent_id: Some(ret.parent_id->0), ..*old(self) }),
            text_of(ret.parent_id) == Some(parent_id@),
    {
        self.parent_id = Some(parent_id.to_owned());
        self
    }
}

/// Pagination and ordering controls of a content listing. A field that is
/// `None` is left to the server's default.
#[derive(Debug)]
pub struct ContentParams {
    pub page: Option<u64>,
    pub per_page: Option<u64>,
    pub strategy: Option<String>,
}

impl Default for ContentParams {
    fn default() -> (ret: Self)
        ensures
            ret.page is None,
            ret.per_page is None,
            ret.strategy is None,
    {
        ContentParams { page: None, per_page: None, strategy: None }
    }
}

impl Default for Content {
    fn default() -> (ret: Self)
        ensures
            ret.is_blank(),
    {
        Content {
            id: None,
            parent_id: None,
            owner_id: None,
            slug: None,
            body: None,
            title: None,
            status: Some("published".to_owned()),
            source_url: None,
            created_at: None,
            updated_at: None,
            published_at: None,
            deleted_at: None,
            tabcoins: None,
            owner_username: None,
            children_deep_count: None,
            children: None,
        }
    }
}

} // verus!
