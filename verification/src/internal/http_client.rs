//! The transport client: the base host and the header set that every
//! request is built from.

use crate::internal::headers::has_room;
use crate::internal::headers::header_entries;
use crate::internal::headers::name_key;
use crate::internal::headers::header_map_clone;
use crate::internal::headers::header_map_get;
use crate::internal::headers::header_map_insert;
use crate::internal::headers::header_map_keys_len;
use crate::internal::headers::header_map_new;
use crate::internal::headers::no_entries;
use crate::internal::headers::valid_header_name;
use crate::internal::headers::valid_header_value;
use crate::internal::headers::MAX_HEADER_COUNT;
use crate::internal::query::pairs_text;
use crate::internal::query::query_of;
use crate::internal::query::query_pairs;
use crate::internal::query::QueryText;
use crate::internal::request::Method;
use crate::internal::request::Payload;
use crate::internal::request::Request;
use crate::internal::url::join_url;
use crate::internal::url::url_of;
use crate::models::content::ContentParams;
use reqwest::header::HeaderMap;
use vstd::prelude::*;
use vstd::string::*;

verus! {

/// The host that a client talks to unless it is given another.
pub const BASE_URL: &'static str = "https://www.tabnews.com.br/api/v1";

/// The headers of a client that was just made.
pub open spec fn initial_headers() -> Map<Seq<char>, Seq<char>> {
    no_entries().insert(name_key("Content-Type"@), "application/json"@)
}

/// The entries of a header set after each pair of `added` was put into it,
/// first to last: a later pair replaces an earlier one of the same name.
pub open spec fn with_headers(entries: Map<Seq<char>, Seq<char>>, added: QueryText) -> Map<
    Seq<char>,
    Seq<char>,
>
    decreases added.len(),
{
    if added.len() == 0 {
        entries
    } else {
        with_headers(entries, added.drop_last()).insert(
            name_key(added.last().0),
            added.last().1,
        )
    }
}

/// Tells whether every pair of `added` is a header name with a header
/// value.
pub open spec fn valid_headers(added: QueryText) -> bool {
    forall|i: int|
        0 <= i < added.len() ==> valid_header_name((#[trigger] added[i]).0) && valid_header_value(
            added[i].1,
        )
}

/// The query that goes out for the controls of a listing, or for none.
pub open spec fn query_for(params: Option<&ContentParams>) -> QueryText {
    match params {
        Some(p) => query_of(*p),
        None => seq![],
    }
}

/// The failure of a header lookup: no header of that name is set.
#[derive(Debug)]
pub struct HeaderNotFound {
    pub name: String,
}

impl HeaderNotFound {
    /// What the failure says, as a text.
    pub open spec fn message_text(&self) -> Seq<char> {
        "Error: header "@ + self.name@ + " doesn't exists"@
    }

    /// Describes the failure.
    pub fn message(&self) -> (text: String)
        ensures
            text@ == self.message_text(),
    {
        let mut text = "Error: header ".to_owned();
        text.append(self.name.as_str());
        text.append(" doesn't exists");
        text
    }
}

/// The shared transport configuration.
///
/// A client does not send anything itself. Its verbs build the request that
/// is to be sent, from the host and the headers as they stand at that
/// moment; whoever holds the client mutably may change both, and every
/// request built afterwards shows the change.
#[derive(Debug)]
pub struct HttpClient {
    host: String,
    headers: HeaderMap,
}

impl HttpClient {
    /// The base host, as a text.
    pub closed spec fn host_text(&self) -> Seq<char> {
        self.host@
    }

    /// The header set, by lower-cased name.
    pub closed spec fn headers(&self) -> Map<Seq<char>, Seq<char>> {
        header_entries(self.headers)
    }

    /// The client with `host` in place of its host.
    pub closed spec fn with_host(self, host: String) -> HttpClient {
        HttpClient { host, headers: self.headers }
    }

    /// A client is well formed when its host is not empty and its header
    /// set is finite.
    pub open spec fn wf(&self) -> bool {
        &&& self.host_text().len() > 0
        &&& self.headers().dom().finite()
    }

    /// Tells whether the client sends a header of that name.
    pub open spec fn has_header(&self, name: Seq<char>) -> bool {
        self.headers().contains_key(name_key(name))
    }

    /// Makes a client for `host` that sends JSON.
    pub fn new(host: String) -> (client: Self)
        requires
            host@.len() > 0,
        ensures
            client.wf(),
            client.host_text() == host@,
            client.headers() == initial_headers(),
    {
        let mut headers = header_map_new();
        proof {
            reveal_strlit("Content-Type");
            reveal_strlit("application/json");
        }
        header_map_insert(&mut headers, "Content-Type", "application/json");
        HttpClient { host, headers }
    }

    /// Builds a `Get` of `path` with the controls of `params` as its
    /// query; without `params` the query is empty.
    pub fn get_with_params(&self, path: String, params: Option<&ContentParams>) -> (request:
        Request)
        ensures
            request.goes_to(
                Method::Get,
                url_of(self.host_text(), path@),
                query_for(params),
                self.headers(),
            ),
            request.body is Empty,
    {
        let query = match params {
            Some(p) => query_pairs(p),
            None => Vec::new(),
        };
        assert(pairs_text(query@) =~= query_for(params));
        Request {
            method: Method::Get,
            url: join_url(self.host.as_str(), path.as_str()),
            query,
            headers: header_map_clone(&self.headers),
            body: Payload::Empty,
        }
    }

    /// Builds a `Get` of `path` without a query.
    pub fn get(&self, path: String) -> (request: Request)
        ensures
            request.goes_to(Method::Get, url_of(self.host_text(), path@), seq![], self.headers()),
            request.body is Empty,
    {
        let query: Vec<(String, String)> = Vec::new();
        assert(pairs_text(query@) =~= seq![]);
        Request {
            method: Method::Get,
            url: join_url(self.host.as_str(), path.as_str()),
            query,
            headers: header_map_clone(&self.headers),
            body: Payload::Empty,
        }
    }

    /// Builds a `Post` of `body` to `path`.
    pub fn post(&self, path: String, body: Payload) -> (request: Request)
        ensures
            request.goes_to(Method::Post, url_of(self.host_text(), path@), seq![], self.headers()),
            request.body == body,
    {
        let query: Vec<(String, String)> = Vec::new();
        assert(pairs_text(query@) =~= seq![]);
        Request {
            method: Method::Post,
            url: join_url(self.host.as_str(), path.as_str()),
            query,
            headers: header_map_clone(&self.headers),
            body,
        }
    }

    /// Builds a `Patch` of `body` to `path`.
    pub fn patch(&self, path: String, body: Payload) -> (request: Request)
        ensures
            request.goes_to(Method::Patch, url_of(self.host_text(), path@), seq![], self.headers()),
            request.body == body,
    {
        let query: Vec<(String, String)> = Vec::new();
        assert(pairs_text(query@) =~= seq![]);
        Request {
            method: Method::Patch,
            url: join_url(self.host.as_str(), path.as_str()),
            query,
            headers: header_map_clone(&self.headers),
            body,
        }
    }

    /// Sets the header `key` to `value`, in place of whatever was set
    /// under that name in any case.
    pub fn add_header(&mut self, key: &str, value: &str)
        requires
            valid_header_name(key@),
            valid_header_value(value@),
            has_room(old(self).headers()),
        ensures
            final(self).headers() == old(self).headers().insert(name_key(key@), value@),
            final(self).host_text() == old(self).host_text(),
            old(self).wf() ==> final(self).wf(),
    {
        header_map_insert(&mut self.headers, key, value);
    }

    /// Sets every header of `headers`, first to last.
    pub fn add_multiple_headers(&mut self, headers: Vec<(String, String)>)
        requires
            valid_headers(pairs_text(headers@)),
            old(self).headers().dom().finite(),
            old(self).headers().dom().len() + headers@.len() <= MAX_HEADER_COUNT + 1,
        ensures
            final(self).headers() == with_headers(old(self).headers(), pairs_text(headers@)),
            final(self).host_text() == old(self).host_text(),
            old(self).wf() ==> final(self).wf(),
    {
        let ghost added = pairs_text(headers@);
        let mut i: usize = 0;
        assert(added.subrange(0, 0) =~= seq![]);
        while i < headers.len()
            invariant
                i <= headers@.len(),
                added == pairs_text(headers@),
                valid_headers(added),
                self.host_text() == old(self).host_text(),
                self.headers().dom().finite(),
                self.headers().dom().len() <= old(self).headers().dom().len() + i,
                old(self).headers().dom().len() + headers@.len() <= MAX_HEADER_COUNT + 1,
                self.headers() == with_headers(old(self).headers(), added.subrange(0, i as int)),
            decreases headers@.len() - i,
        {
            let pair = &headers[i];
            assert(added[i as int] == (pair.0@, pair.1@));
            assert(added.subrange(0, i + 1).drop_last() =~= added.subrange(0, i as int));
            self.add_header(pair.0.as_str(), pair.1.as_str());
            i += 1;
        }
        assert(added.subrange(0, i as int) =~= added);
    }

    /// Looks up the header `header_key`, whatever its case.
    pub fn get_header(&self, header_key: &str) -> (found: Result<String, HeaderNotFound>)
        ensures
            found is Ok <==> self.has_header(header_key@),
            found is Ok ==> found->Ok_0@ == self.headers()[name_key(header_key@)],
            found is Err ==> found->Err_0.name@ == header_key@,
    {
        match header_map_get(&self.headers, header_key) {
            Some(value) => Ok(value),
            None => Err(HeaderNotFound { name: header_key.to_owned() }),
        }
    }

    /// The base host.
    pub fn host(&self) -> (host: &str)
        ensures
            host@ == self.host_text(),
    {
        self.host.as_str()
    }

    /// The number of headers that are set.
    pub fn header_count(&self) -> (count: usize)
        ensures
            count == self.headers().dom().len(),
    {
        header_map_keys_len(&self.headers)
    }

    /// Replaces the host; the headers stay.
    pub fn set_host(&mut self, host: String)
        requires
            host@.len() > 0,
        ensures
            *final(self) == old(self).with_host(host),
            final(self).host_text() == host@,
            final(self).headers() == old(self).headers(),
            old(self).wf() ==> final(self).wf(),
    {
        self.host = host;
    }
}

/// A change of host reaches every request built afterwards, whichever
/// module builds it: a request takes its URL from the host of the client at
/// the moment it is built, and after `set_host` that host is the new one.
/// The headers are not touched.
pub proof fn lemma_set_host_reaches_every_request(
    client: HttpClient,
    host: String,
    path: Seq<char>,
)
    ensures
        client.with_host(host).host_text() == host@,
        client.with_host(host).headers() == client.headers(),
        url_of(client.with_host(host).host_text(), path) == url_of(host@, path),
{
}

/// A client that was just made sends no cookie.
pub proof fn lemma_new_client_sends_no_cookie()
    ensures
        name_key("Cookie"@) == "cookie"@,
        name_key("Content-Type"@) == "content-type"@,
        !initial_headers().contains_key(name_key("Cookie"@)),
{
    reveal_strlit("Cookie");
    reveal_strlit("cookie");
    reveal_strlit("Content-Type");
    reveal_strlit("content-type");
    assert(name_key("Cookie"@) =~= "cookie"@);
    assert(name_key("Content-Type"@) =~= "content-type"@);
    assert("cookie"@.len() != "content-type"@.len());
}

/// Headers that are added bring no name but their own: a name that the
/// set did not hold, and that none of the added pairs is called by in any
/// case, is not held afterwards.
pub proof fn lemma_added_headers_bring_their_names_only(
    entries: Map<Seq<char>, Seq<char>>,
    added: QueryText,
    name: Seq<char>,
)
    requires
        !entries.contains_key(name_key(name)),
        forall|i: int| 0 <= i < added.len() ==> name_key((#[trigger] added[i]).0) != name_key(name),
    ensures
        !with_headers(entries, added).contains_key(name_key(name)),
    decreases added.len(),
{
    if added.len() > 0 {
        let earlier = added.drop_last();
        assert forall|i: int| 0 <= i < earlier.len() implies name_key((#[trigger] earlier[i]).0)
            != name_key(name) by {
            assert(earlier[i] == added[i]);
        }
        lemma_added_headers_bring_their_names_only(entries, earlier, name);
        assert(added.last() == added[added.len() - 1]);
    }
}

impl Clone for HttpClient {
    /// A copy is a client of its own: it starts with the host and the
    /// headers of this one and shares nothing with it afterwards.
    fn clone(&self) -> (copy: Self)
        ensures
            copy.host_text() == self.host_text(),
            copy.headers() == self.headers(),
    {
        HttpClient { host: self.host.clone(), headers: header_map_clone(&self.headers) }
    }
}

impl Default for HttpClient {
    fn default() -> (client: Self)
        ensures
            client.wf(),
            client.host_text() == BASE_URL@,
            client.headers() == initial_headers(),
    {
        proof {
            reveal_strlit("https://www.tabnews.com.br/api/v1");
        }
        HttpClient::new(BASE_URL.to_owned())
    }
}

} // verus!
