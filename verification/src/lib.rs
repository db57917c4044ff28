//! Client-side logic for the TabNews content platform API.
//!
//! The crate builds the requests that the API expects, keeps the shared
//! transport configuration (base host, header set, session cookie) and
//! classifies responses. Sending a request and decoding a body are left to
//! the embedding application, which exchanges plain values with this crate.

pub mod internal;
pub mod models;
pub mod utils;

use crate::internal::analytics::AnalyticsApi;
use crate::internal::auth::AuthApi;
use crate::internal::headers::name_key;
use crate::internal::headers::MAX_HEADER_COUNT;
use crate::internal::http_client::initial_headers;
use crate::internal::http_client::valid_headers;
use crate::internal::http_client::with_headers;
use crate::internal::http_client::HttpClient;
use crate::internal::http_client::BASE_URL;
use crate::internal::posts::PostsApi;
use crate::internal::query::pairs_text;
use crate::internal::user::UserApi;
use crate::internal::users::UsersApi;
use crate::utils::preview_host;
use crate::utils::API_PATH;
use vstd::prelude::*;

verus! {

/// The root client: owns the one transport client that all of its domain
/// modules build on. A module borrows the transport client for as long as
/// it lives, so each of them sees the host and the headers as they stand.
#[derive(Debug)]
pub struct TabnewsClient {
    pub http_client: HttpClient,
}

impl TabnewsClient {
    /// Makes a client for the public API that sends `headers` besides the
    /// initial ones.
    pub fn new(headers: Vec<(String, String)>) -> (client: Self)
        requires
            valid_headers(pairs_text(headers@)),
            headers@.len() <= MAX_HEADER_COUNT,
        ensures
            client.http_client.wf(),
            client.http_client.host_text() == BASE_URL@,
            client.http_client.headers() == with_headers(initial_headers(), pairs_text(headers@)),
    {
        let mut http_client = HttpClient::default();
        proof {
            assert(initial_headers().dom() =~= set![name_key("Content-Type"@)]);
        }
        http_client.add_multiple_headers(headers);
        TabnewsClient { http_client }
    }

    /// The posts module of this client.
    pub fn posts_api(&self) -> (api: PostsApi<'_>)
        ensures
            api.client() == self.http_client,
    {
        PostsApi::new(&self.http_client)
    }

    /// The analytics module of this client.
    pub fn analytics_api(&self) -> (api: AnalyticsApi<'_>)
        ensures
            api.client() == self.http_client,
    {
        AnalyticsApi::new(&self.http_client)
    }

    /// The module of the logged-in user of this client.
    pub fn user_api(&self) -> (api: UserApi<'_>)
        ensures
            api.client() == self.http_client,
    {
        UserApi::new(&self.http_client)
    }

    /// The users module of this client.
    pub fn users_api(&self) -> (api: UsersApi<'_>)
        ensures
            api.client() == self.http_client,
    {
        UsersApi::new(&self.http_client)
    }

    /// The session module of this client.
    pub fn auth_api(&self) -> (api: AuthApi<'_>)
        ensures
            api.client() == self.http_client,
    {
        AuthApi::new(&self.http_client)
    }

    /// Points the client at the API of the deployment served at
    /// `preview_url`; the headers stay.
    pub fn use_preview_url(self, preview_url: &str) -> (client: Self)
        ensures
            client.http_client.host_text() == preview_url@ + API_PATH@,
            client.http_client.headers() == self.http_client.headers(),
    {
        let mut client = self;
        client.http_client.set_host(preview_host(preview_url));
        client
    }
}

impl Default for TabnewsClient {
    fn default() -> (client: Self)
        ensures
            client.http_client.wf(),
            client.http_client.host_text() == BASE_URL@,
            client.http_client.headers() == initial_headers(),
    {
        TabnewsClient { http_client: HttpClient::default() }
    }
}

} // verus!
