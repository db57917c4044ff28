//! Requests as the transport hands them out, responses as it takes them
//! back, and the classification of a response.

use crate::internal::headers::header_entries;
use crate::internal::headers::header_map_get;
use crate::internal::headers::name_key;
use crate::internal::query::pairs_text;
use crate::internal::query::QueryText;
use crate::models::content::Content;
use crate::models::user::EditProfilePayload;
use reqwest::header::HeaderMap;
use vstd::prelude::*;

verus! {

/// The verbs that the transport issues.
#[derive(Clone, Copy, Debug, PartialEq, Eq, Structural)]
pub enum Method {
    Get,
    Post,
    Patch,
}

/// What a request carries as its JSON body.
#[derive(Debug)]
pub enum Payload {
    /// No body.
    Empty,
    /// An object whose members are strings, in the order given.
    Fields(Vec<(String, String)>),
    /// A content item.
    Content(Content),
    /// A profile edit.
    Profile(EditProfilePayload),
}

impl Payload {
    /// The members of a body made of string members, by name and value;
    /// of any other body, none.
    pub open spec fn fields(&self) -> QueryText {
        match self {
            Payload::Fields(pairs) => pairs_text(pairs@),
            _ => seq![],
        }
    }
}

/// A request that is ready to be sent: the verb, the full URL, the query
/// pairs, the header set as it stood when the request was built, and the
/// body.
#[derive(Debug)]
pub struct Request {
    pub method: Method,
    pub url: String,
    pub query: Vec<(String, String)>,
    pub headers: HeaderMap,
    pub body: Payload,
}

impl Request {
    /// The headers of the request, by lower-cased name.
    pub open spec fn headers_view(&self) -> Map<Seq<char>, Seq<char>> {
        header_entries(self.headers)
    }

    /// Tells whether the request goes to `url` by `method` with the given
    /// query and headers.
    pub open spec fn goes_to(
        &self,
        method: Method,
        url: Seq<char>,
        query: QueryText,
        headers: Map<Seq<char>, Seq<char>>,
    ) -> bool {
        &&& self.method == method
        &&& self.url@ == url
        &&& pairs_text(self.query@) == query
        &&& self.headers_view() == headers
    }

    /// The value that the request sends under the header `name`, whatever
    /// the case of `name`.
    pub fn header(&self, name: &str) -> (value: Option<String>)
        ensures
            match value {
                Some(text) => self.headers_view().contains_key(name_key(name@))
                    && text@ == self.headers_view()[name_key(name@)],
                None => !self.headers_view().contains_key(name_key(name@)),
            },
    {
        header_map_get(&self.headers, name)
    }
}

/// A response as it came back: the status code and the body, not yet
/// decoded.
#[derive(Debug)]
pub struct Response {
    pub status: u16,
    pub body: Vec<u8>,
}

/// The body of a response that reports an API error, still to be decoded.
#[derive(Debug)]
pub struct ErrorBody {
    pub status: u16,
    pub body: Vec<u8>,
}

/// The success range of status codes.
pub open spec fn is_success(status: u16) -> bool {
    200 <= status < 300
}

/// The verbs whose responses are classified by status. A response to a
/// `Post` is handed back as it is, whatever its status.
pub open spec fn checks_status(method: Method) -> bool {
    method != Method::Post
}

/// Tells whether a response to a request by `method` is handed on to the
/// caller as it is.
pub open spec fn passes(method: Method, status: u16) -> bool {
    !checks_status(method) || is_success(status)
}

/// Classifies a response, once: one that passes comes back untouched, any
/// other gives up its body to be decoded as the API's error.
pub fn classify(method: Method, response: Response) -> (outcome: Result<Response, ErrorBody>)
    ensures
        outcome is Ok <==> passes(method, response.status),
        outcome is Ok ==> outcome->Ok_0 == response,
        outcome is Err ==> outcome->Err_0.status == response.status && outcome->Err_0.body
            == response.body,
{
    let checked = match method {
        Method::Post => false,
        _ => true,
    };
    if checked && !(200 <= response.status && response.status < 300) {
        Err(ErrorBody { status: response.status, body: response.body })
    } else {
        Ok(response)
    }
}

} // verus!
