//! The user who is logged in.

use crate::internal::http_client::HttpClient;
use crate::internal::request::Method;
use crate::internal::request::Request;
use crate::internal::url::url_of;
use vstd::prelude::*;
use vstd::string::*;

verus! {

/// What `get_current_user` answers for a client without a cookie.
pub const COOKIE_REQUIRED: &'static str =
    "`Cookie` header doesn't exists. In order to use `get_current_user()`, `Cookie` with `session_id=<token>` value is required";

/// The module of the user who is logged in.
pub struct UserApi<'a> {
    tabnews_client: &'a HttpClient,
}

impl<'a> UserApi<'a> {
    /// The transport client that the module builds on.
    pub closed spec fn client(&self) -> HttpClient {
        *self.tabnews_client
    }

    /// Makes the user module of `client`.
    pub fn new(client: &'a HttpClient) -> (api: Self)
        ensures
            api.client() == *client,
    {
        UserApi { tabnews_client: client }
    }

    /// The request for the user who is logged in. It exists only for a
    /// client that sends a cookie: for any other there is no request, only
    /// the reason, and so nothing to send.
    pub fn get_current_user(&self) -> (outcome: Result<Request, &'static str>)
        ensures
            outcome is Ok <==> self.client().has_header("Cookie"@),
            outcome is Ok ==> outcome->Ok_0.goes_to(
                Method::Get,
                url_of(self.client().host_text(), "/user"@),
                seq![],
                self.client().headers(),
            ) && outcome->Ok_0.body is Empty,
            outcome is Err ==> outcome->Err_0@ == COOKIE_REQUIRED@,
    {
        if self.tabnews_client.get_header("Cookie").is_err() {
            return Err(COOKIE_REQUIRED);
        }
        Ok(self.tabnews_client.get("/user".to_owned()))
    }
}

} // verus!
