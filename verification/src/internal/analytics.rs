//! The daily counters of the platform.

use crate::internal::http_client::HttpClient;
use crate::internal::request::Method;
use crate::internal::request::Request;
use crate::internal::url::url_of;
use vstd::prelude::*;
use vstd::string::*;

verus! {

/// The analytics module.
pub struct AnalyticsApi<'a> {
    http_client: &'a HttpClient,
}

impl<'a> AnalyticsApi<'a> {
    /// The transport client that the module builds on.
    pub closed spec fn client(&self) -> HttpClient {
        *self.http_client
    }

    /// Makes the analytics module of `client`.
    pub fn new(client: &'a HttpClient) -> (api: Self)
        ensures
            api.client() == *client,
    {
        AnalyticsApi { http_client: client }
    }

    /// The request for the accounts created per day.
    pub fn get_users_created(&self) -> (request: Request)
        ensures
            request.goes_to(
                Method::Get,
                url_of(self.client().host_text(), "/analytics/users-created"@),
                seq![],
                self.client().headers(),
            ),
            request.body is Empty,
    {
        self.http_client.get("/analytics/users-created".to_owned())
    }

    /// The request for the posts published per day.
    pub fn get_posts_published(&self) -> (request: Request)
        ensures
            request.goes_to(
                Method::Get,
                url_of(self.client().host_text(), "/analytics/root-content-published"@),
                seq![],
                self.client().headers(),
            ),
            request.body is Empty,
    {
        self.http_client.get("/analytics/root-content-published".to_owned())
    }

    /// The request for the comments published per day.
    pub fn get_comments_published(&self) -> (request: Request)
        ensures
            request.goes_to(
                Method::Get,
                url_of(self.client().host_text(), "/analytics/child-content-published"@),
                seq![],
                self.client().headers(),
            ),
            request.body is Empty,
    {
        self.http_client.get("/analytics/child-content-published".to_owned())
    }
}

} // verus!
