//! Sessions: the login exchange and the cookie that it installs.

use crate::internal::headers::has_room;
use crate::internal::headers::name_key;
use crate::internal::headers::valid_header_value;
use crate::internal::http_client::HttpClient;
use crate::internal::query::pairs_text;
use crate::internal::query::QueryText;
use crate::internal::request::Method;
use crate::internal::request::Payload;
use crate::internal::request::Request;
use crate::internal::url::url_of;
use crate::models::user::UserSession;
use vstd::prelude::*;
use vstd::string::*;

verus! {

/// The cookie that authenticates with `token`.
pub open spec fn cookie_text(token: Seq<char>) -> Seq<char> {
    "session_id="@ + token
}

/// The body of a login exchange.
pub open spec fn credential_fields(email: Seq<char>, password: Seq<char>) -> QueryText {
    seq![("email"@, email), ("password"@, password)]
}

/// The headers of a client after a login with `token`.
pub open spec fn logged_in(headers: Map<Seq<char>, Seq<char>>, token: Seq<char>) -> Map<
    Seq<char>,
    Seq<char>,
> {
    headers.insert(name_key("Cookie"@), cookie_text(token))
}

/// After a login the cookie is `session_id=` followed by the token of the
/// session, and by nothing else: two tokens give the same cookie only if
/// they are the same token. Every other header is as it was.
pub proof fn lemma_cookie_is_exact(
    headers: Map<Seq<char>, Seq<char>>,
    token: Seq<char>,
    other: Seq<char>,
)
    ensures
        logged_in(headers, token).contains_key(name_key("Cookie"@)),
        logged_in(headers, token)[name_key("Cookie"@)] == cookie_text(token),
        logged_in(headers, token)[name_key("Cookie"@)] == cookie_text(other) <==> other == token,
        forall|name: Seq<char>|
            name != name_key("Cookie"@) ==> (logged_in(headers, token).contains_key(name)
                <==> headers.contains_key(name)) && (headers.contains_key(name) ==> logged_in(
                headers,
                token,
            )[name] == headers[name]),
{
    let prefix = "session_id="@;
    assert(cookie_text(token).subrange(prefix.len() as int, cookie_text(token).len() as int)
        =~= token);
    assert(cookie_text(other).subrange(prefix.len() as int, cookie_text(other).len() as int)
        =~= other);
}

/// A session lasts: once a client is logged in, setting a header of
/// another name leaves the cookie as the login set it. Nothing but a new
/// cookie replaces it.
pub proof fn lemma_session_outlives_other_headers(
    headers: Map<Seq<char>, Seq<char>>,
    token: Seq<char>,
    name: Seq<char>,
    value: Seq<char>,
)
    requires
        name_key(name) != name_key("Cookie"@),
    ensures
        logged_in(headers, token).insert(name_key(name), value).contains_key(name_key("Cookie"@)),
        logged_in(headers, token).insert(name_key(name), value)[name_key("Cookie"@)]
            == cookie_text(token),
{
}

/// A client is authenticated once it sends a cookie.
pub open spec fn is_authenticated(client: HttpClient) -> bool {
    client.has_header("Cookie"@)
}

/// Writes the cookie that authenticates with the token of `session`.
pub fn session_cookie(session: &UserSession) -> (cookie: String)
    ensures
        cookie@ == cookie_text(session.token@),
{
    let mut cookie = "session_id=".to_owned();
    cookie.append(session.token.as_str());
    cookie
}

/// The session module: builds the login exchange from the transport client
/// that it was made with, and promotes the session that came back to the
/// standing authentication of a client.
pub struct AuthApi<'a> {
    tabnews_client: &'a HttpClient,
}

impl<'a> AuthApi<'a> {
    /// The transport client that the module builds on.
    pub closed spec fn client(&self) -> HttpClient {
        *self.tabnews_client
    }

    /// Makes the session module of `client`.
    pub fn new(client: &'a HttpClient) -> (api: Self)
        ensures
            api.client() == *client,
    {
        AuthApi { tabnews_client: client }
    }

    /// The request that exchanges credentials for a session. The headers of
    /// the client stay as they are.
    pub fn get_user_session(&self, email: String, password: String) -> (request: Request)
        ensures
            request.goes_to(
                Method::Post,
                url_of(self.client().host_text(), "/sessions"@),
                seq![],
                self.client().headers(),
            ),
            request.body is Fields,
            request.body.fields() == credential_fields(email@, password@),
    {
        let mut data: Vec<(String, String)> = Vec::new();
        data.push(("email".to_owned(), email));
        data.push(("password".to_owned(), password));
        assert(pairs_text(data@) =~= credential_fields(email@, password@));
        self.tabnews_client.post("/sessions".to_owned(), Payload::Fields(data))
    }

    /// Installs the cookie of `session` on `client`, so that every request
    /// built from it from now on is authenticated, and hands the session
    /// back. This takes the client itself: a module only reads the one it
    /// was made with.
    pub fn login(client: &mut HttpClient, session: UserSession) -> (installed: UserSession)
        requires
            valid_header_value(cookie_text(session.token@)),
            has_room(old(client).headers()),
        ensures
            installed == session,
            final(client).headers() == logged_in(old(client).headers(), session.token@),
            final(client).host_text() == old(client).host_text(),
            old(client).wf() ==> final(client).wf(),
            is_authenticated(*final(client)),
    {
        let cookie_value = session_cookie(&session);
        proof {
            reveal_strlit("Cookie");
        }
        client.add_header("Cookie", cookie_value.as_str());
        session
    }
}

} // verus!
