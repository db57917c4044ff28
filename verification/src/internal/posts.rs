//! Posts and comments: listings, details, votes and publication.

use crate::internal::http_client::HttpClient;
use crate::internal::query::pairs_text;
use crate::internal::query::query_of;
use crate::internal::query::QueryText;
use crate::internal::request::Method;
use crate::internal::request::Payload;
use crate::internal::request::Request;
use crate::internal::url::url_of;
use crate::models::content::Content;
use crate::models::content::ContentParams;
use crate::models::content::TabcoinsTransaction;
use vstd::prelude::*;
use vstd::string::*;

verus! {

/// What `publish_comment` answers for a content item without a parent.
pub const PARENT_ID_REQUIRED: &'static str = "To post a comment `parent_id` must be set!";

/// The path of the contents of one user.
pub open spec fn user_contents_path(username: Seq<char>) -> Seq<char> {
    "/contents/"@ + username
}

/// The path of one content item.
pub open spec fn content_path(username: Seq<char>, slug: Seq<char>) -> Seq<char> {
    "/contents/"@ + username + "/"@ + slug
}

/// The query of a listing: the controls given, or none.
pub open spec fn listing_query(params: Option<ContentParams>) -> QueryText {
    match params {
        Some(p) => query_of(p),
        None => seq![],
    }
}

/// The word that the API knows a vote by.
pub open spec fn transaction_word(transaction_type: TabcoinsTransaction) -> Seq<char> {
    match transaction_type {
        TabcoinsTransaction::Credit => "credit"@,
        TabcoinsTransaction::Debit => "debit"@,
    }
}

/// The body of a vote: the one member `transaction_type`.
pub open spec fn vote_fields(transaction_type: TabcoinsTransaction) -> QueryText {
    seq![("transaction_type"@, transaction_word(transaction_type))]
}

/// The posts module: builds its requests from the transport client that it
/// was made with.
pub struct PostsApi<'a> {
    tabnews_client: &'a HttpClient,
}

impl<'a> PostsApi<'a> {
    /// The transport client that the module builds on.
    pub closed spec fn client(&self) -> HttpClient {
        *self.tabnews_client
    }

    /// Makes the posts module of `client`.
    pub fn new(client: &'a HttpClient) -> (api: Self)
        ensures
            api.client() == *client,
    {
        PostsApi { tabnews_client: client }
    }

    fn build_params(&self, params: Option<ContentParams>) -> (built: Option<ContentParams>)
        ensures
            built is Some,
            query_of(built->0) == listing_query(params),
    {
        let params = match params {
            Some(p) => p,
            None => ContentParams::default(),
        };
        Some(params)
    }

    fn item_path(&self, username: &str, slug: &str, tail: &str) -> (path: String)
        ensures
            path@ == content_path(username@, slug@) + tail@,
    {
        let mut path = "/contents/".to_owned();
        path.append(username);
        path.append("/");
        path.append(slug);
        path.append(tail);
        path
    }

    /// The request for the posts of the homepage.
    pub fn get_homepage_posts(&self, params: Option<ContentParams>) -> (request: Request)
        ensures
            request.goes_to(
                Method::Get,
                url_of(self.client().host_text(), "/contents"@),
                listing_query(params),
                self.client().headers(),
            ),
            request.body is Empty,
    {
        let params = self.build_params(params);
        self.tabnews_client.get_with_params("/contents".to_owned(), params.as_ref())
    }

    /// The request for the posts of `username`.
    pub fn get_posts_by_user(&self, username: &str, params: Option<ContentParams>) -> (request:
        Request)
        ensures
            request.goes_to(
                Method::Get,
                url_of(self.client().host_text(), user_contents_path(username@)),
                listing_query(params),
                self.client().headers(),
            ),
            request.body is Empty,
    {
        let params = self.build_params(params);
        let mut uri = "/contents/".to_owned();
        uri.append(username);
        self.tabnews_client.get_with_params(uri, params.as_ref())
    }

    /// The request for one post.
    pub fn get_post_details(&self, username: &str, slug: &str) -> (request: Request)
        ensures
            request.goes_to(
                Method::Get,
                url_of(self.client().host_text(), content_path(username@, slug@)),
                seq![],
                self.client().headers(),
            ),
            request.body is Empty,
    {
        let params = ContentParams::default();
        let uri = self.item_path(username, slug, "");
        proof {
            reveal_strlit("");
            assert(content_path(username@, slug@) + ""@ =~= content_path(username@, slug@));
        }
        self.tabnews_client.get_with_params(uri, Some(&params))
    }

    /// The request for the comments of one post.
    pub fn get_post_comments(&self, username: &str, slug: &str) -> (request: Request)
        ensures
            request.goes_to(
                Method::Get,
                url_of(
                    self.client().host_text(),
                    content_path(username@, slug@) + "/children"@,
                ),
                seq![],
                self.client().headers(),
            ),
            request.body is Empty,
    {
        let params = ContentParams::default();
        let uri = self.item_path(username, slug, "/children");
        self.tabnews_client.get_with_params(uri, Some(&params))
    }

    /// The request for the thumbnail of one post, whose response is an
    /// image and is handed on undecoded.
    pub fn get_post_thumbnail(&self, username: &str, slug: &str) -> (request: Request)
        ensures
            request.goes_to(
                Method::Get,
                url_of(
                    self.client().host_text(),
                    content_path(username@, slug@) + "/thumbnail"@,
                ),
                seq![],
                self.client().headers(),
            ),
            request.body is Empty,
    {
        let params = ContentParams::default();
        let uri = self.item_path(username, slug, "/thumbnail");
        self.tabnews_client.get_with_params(uri, Some(&params))
    }

    /// The request for the parent of a comment.
    pub fn get_post_parent(&self, username: &str, slug: &str) -> (request: Request)
        ensures
            request.goes_to(
                Method::Get,
                url_of(self.client().host_text(), content_path(username@, slug@) + "/parent"@),
                seq![],
                self.client().headers(),
            ),
            request.body is Empty,
    {
        let uri = self.item_path(username, slug, "/parent");
        self.tabnews_client.get(uri)
    }

    /// The request for the root post of a comment.
    pub fn get_post_root(&self, username: &str, slug: &str) -> (request: Request)
        ensures
            request.goes_to(
                Method::Get,
                url_of(self.client().host_text(), content_path(username@, slug@) + "/root"@),
                seq![],
                self.client().headers(),
            ),
            request.body is Empty,
    {
        let uri = self.item_path(username, slug, "/root");
        self.tabnews_client.get(uri)
    }

    /// The request that reads the tabcoins of a post: that for the post
    /// itself, whose `tabcoins` field holds them.
    pub fn get_post_tabcoins(&self, username: &str, slug: &str) -> (request: Request)
        ensures
            request.goes_to(
                Method::Get,
                url_of(self.client().host_text(), content_path(username@, slug@)),
                seq![],
                self.client().headers(),
            ),
            request.body is Empty,
    {
        self.get_post_details(username, slug)
    }

    fn _tabcoins_operation(
        &self,
        username: &str,
        slug: &str,
        transaction_type: TabcoinsTransaction,
    ) -> (request: Request)
        ensures
            request.goes_to(
                Method::Post,
                url_of(
                    self.client().host_text(),
                    content_path(username@, slug@) + "/tabcoins"@,
                ),
                seq![],
                self.client().headers(),
            ),
            request.body is Fields,
            request.body.fields() == vote_fields(transaction_type),
    {
        let uri = self.item_path(username, slug, "/tabcoins");
        let word = match transaction_type {
            TabcoinsTransaction::Credit => "credit",
            TabcoinsTransaction::Debit => "debit",
        };
        let mut body: Vec<(String, String)> = Vec::new();
        body.push(("transaction_type".to_owned(), word.to_owned()));
        assert(pairs_text(body@) =~= vote_fields(transaction_type));
        self.tabnews_client.post(uri, Payload::Fields(body))
    }

    /// The request that takes a tabcoin from a post.
    pub fn downvote(&self, username: &str, slug: &str) -> (request: Request)
        ensures
            request.goes_to(
                Method::Post,
                url_of(
                    self.client().host_text(),
                    content_path(username@, slug@) + "/tabcoins"@,
                ),
                seq![],
                self.client().headers(),
            ),
            request.body is Fields,
            request.body.fields() == vote_fields(TabcoinsTransaction::Debit),
    {
        self._tabcoins_operation(username, slug, TabcoinsTransaction::Debit)
    }

    /// The request that gives a tabcoin to a post.
    pub fn upvote(&self, username: &str, slug: &str) -> (request: Request)
        ensures
            request.goes_to(
                Method::Post,
                url_of(
                    self.client().host_text(),
                    content_path(username@, slug@) + "/tabcoins"@,
                ),
                seq![],
                self.client().headers(),
            ),
            request.body is Fields,
            request.body.fields() == vote_fields(TabcoinsTransaction::Credit),
    {
        self._tabcoins_operation(username, slug, TabcoinsTransaction::Credit)
    }

    /// The request for the RSS feed, whose response is text and no JSON.
    pub fn get_rss(&self) -> (request: Request)
        ensures
            request.goes_to(
                Method::Get,
                url_of(self.client().host_text(), "/contents/rss"@),
                seq![],
                self.client().headers(),
            ),
            request.body is Empty,
    {
        self.tabnews_client.get("/contents/rss".to_owned())
    }

    fn _publish(&self, content: Content) -> (request: Request)
        ensures
            request.goes_to(
                Method::Post,
                url_of(self.client().host_text(), "/contents"@),
                seq![],
                self.client().headers(),
            ),
            request.body == Payload::Content(content),
    {
        self.tabnews_client.post("/contents".to_owned(), Payload::Content(content))
    }

    /// The request that publishes `content` as a post.
    pub fn publish_post(&self, content: Content) -> (request: Request)
        ensures
            request.goes_to(
                Method::Post,
                url_of(self.client().host_text(), "/contents"@),
                seq![],
                self.client().headers(),
            ),
            request.body == Payload::Content(content),
    {
        self._publish(content)
    }

    /// The request that publishes `content` as a comment. A comment needs
    /// a parent: without one there is no request, only the reason.
    pub fn publish_comment(&self, content: Content) -> (outcome: Result<Request, &'static str>)
        ensures
            outcome is Ok <==> content.parent_id is Some,
            outcome is Ok ==> outcome->Ok_0.goes_to(
                Method::Post,
                url_of(self.client().host_text(), "/contents"@),
                seq![],
                self.client().headers(),
            ) && outcome->Ok_0.body == Payload::Content(content),
            outcome is Err ==> outcome->Err_0@ == PARENT_ID_REQUIRED@,
    {
        if content.parent_id.is_none() {
            return Err(PARENT_ID_REQUIRED);
        }
        Ok(self._publish(content))
    }
}

} // verus!
