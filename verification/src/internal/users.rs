//! User accounts: creation, listing, lookup and profile edits.

use crate::internal::http_client::HttpClient;
use crate::internal::query::pairs_text;
use crate::internal::query::QueryText;
use crate::internal::request::Method;
use crate::internal::request::Payload;
use crate::internal::request::Request;
use crate::internal::url::url_of;
use crate::models::user::EditProfilePayload;
use vstd::prelude::*;
use vstd::string::*;

verus! {

/// The path of one user.
pub open spec fn user_path(username: Seq<char>) -> Seq<char> {
    "/users/"@ + username
}

/// The path that a profile edit goes to.
pub open spec fn profile_path(username: Seq<char>) -> Seq<char> {
    "users/"@ + username
}

/// The body that creates a user.
pub open spec fn new_user_fields(
    username: Seq<char>,
    email: Seq<char>,
    password: Seq<char>,
) -> QueryText {
    seq![("username"@, username), ("email"@, email), ("password"@, password)]
}

/// The users module.
pub struct UsersApi<'a> {
    tabnews_client: &'a HttpClient,
}

impl<'a> UsersApi<'a> {
    /// The transport client that the module builds on.
    pub closed spec fn client(&self) -> HttpClient {
        *self.tabnews_client
    }

    /// Makes the users module of `client`.
    pub fn new(client: &'a HttpClient) -> (api: Self)
        ensures
            api.client() == *client,
    {
        UsersApi { tabnews_client: client }
    }

    /// The request that creates a user.
    pub fn create_user(&self, username: String, email: String, password: String) -> (request:
        Request)
        ensures
            request.goes_to(
                Method::Post,
                url_of(self.client().host_text(), "/users"@),
                seq![],
                self.client().headers(),
            ),
            request.body is Fields,
            request.body.fields() == new_user_fields(username@, email@, password@),
    {
        let mut body: Vec<(String, String)> = Vec::new();
        body.push(("username".to_owned(), username));
        body.push(("email".to_owned(), email));
        body.push(("password".to_owned(), password));
        assert(pairs_text(body@) =~= new_user_fields(username@, email@, password@));
        self.tabnews_client.post("/users".to_owned(), Payload::Fields(body))
    }

    /// The request that edits the profile of `current_username`.
    pub fn edit_profile(&self, current_username: String, payload: EditProfilePayload) -> (request:
        Request)
        ensures
            request.goes_to(
                Method::Patch,
                url_of(self.client().host_text(), profile_path(current_username@)),
                seq![],
                self.client().headers(),
            ),
            request.body == Payload::Profile(payload),
    {
        let mut url = "users/".to_owned();
        url.append(current_username.as_str());
        self.tabnews_client.patch(url, Payload::Profile(payload))
    }

    /// The request that lists every user.
    pub fn list_all_users(&self) -> (request: Request)
        ensures
            request.goes_to(
                Method::Get,
                url_of(self.client().host_text(), "/users"@),
                seq![],
                self.client().headers(),
            ),
            request.body is Empty,
    {
        self.tabnews_client.get("/users".to_owned())
    }

    /// The request for one user.
    pub fn get_user(&self, username: &str) -> (request: Request)
        ensures
            request.goes_to(
                Method::Get,
                url_of(self.client().host_text(), user_path(username@)),
                seq![],
                self.client().headers(),
            ),
            request.body is Empty,
    {
        let mut uri = "/users/".to_owned();
        uri.append(username);
        self.tabnews_client.get(uri)
    }
}

} // verus!
