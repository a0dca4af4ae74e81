//! The `reqwest` client, as this library sees it.
//!
//! A request in progress is read as four parts: method, address, headers and
//! body. What the `reqwest` crate does is not proved here: each function
//! states what the crate's own code does to these parts.

use crate::address::url_text;
use crate::headers::{header_entries, Known};
use crate::routing::LightMethod;
use http::header::HeaderMap;
use reqwest::{
    Client, Method, Request as ReqwestRequest, RequestBuilder as ReqwestRequestBuilder,
};
use url::Url;
use vstd::prelude::*;

verus! {

/// The `reqwest` crate's `Client`. It is handed on, never looked into.
#[verifier::external_type_specification]
#[verifier::external_body]
pub struct ExClient(Client);

/// The `reqwest` crate's `RequestBuilder`, of which the proofs see
/// `builder_parts` alone.
#[verifier::external_type_specification]
#[verifier::external_body]
pub struct ExRequestBuilder(ReqwestRequestBuilder);

/// The `reqwest` crate's `Request`, of which the proofs see `request_parts`
/// alone.
#[verifier::external_type_specification]
#[verifier::external_body]
pub struct ExRequest(ReqwestRequest);

/// The parts of an outbound request.
pub struct Outbound {
    /// The method's name, such as `GET`.
    pub method: Seq<char>,
    /// The address's text.
    pub url: Seq<char>,
    /// The headers, read as `header_entries` reads a header map.
    pub headers: Map<Seq<char>, Seq<Seq<u8>>>,
    /// The payload, if there is one.
    pub body: Option<Seq<u8>>,
}

/// The parts of the request that a builder holds, or nothing where the
/// builder holds a refusal of the transport in place of a request.
pub uninterp spec fn builder_parts(builder: ReqwestRequestBuilder) -> Option<Outbound>;

/// The parts of a request.
pub uninterp spec fn request_parts(request: ReqwestRequest) -> Outbound;

/// What the transport makes of a method and an address when a request is
/// started: the parts of the fresh request, with the headers that the
/// transport sets by itself, or nothing where it refuses the address.
pub uninterp spec fn started(method: Seq<char>, url: Seq<char>) -> Option<Outbound>;

/// What is known of every request that the transport has started: it has the
/// method that was asked for and no body, and the one header that the
/// transport may have set is `Authorization`.
pub open spec fn is_fresh(parts: Outbound, method: Seq<char>) -> bool {
    &&& parts.method == method
    &&& parts.body is None
    &&& parts.headers.dom().subset_of(set![Known::Authorization.text()])
}

/// `parts` with `body` as the payload.
pub open spec fn carrying(parts: Option<Outbound>, body: Seq<u8>) -> Option<Outbound> {
    match parts {
        Some(held) => Some(Outbound { body: Some(body), ..held }),
        None => None,
    }
}

/// `parts` with `headers` as the header set.
pub open spec fn headed(parts: Outbound, headers: Map<Seq<char>, Seq<Seq<u8>>>) -> Outbound {
    Outbound { headers, ..parts }
}

/// `Client::request`. Claimed: the builder's parts depend on the method and
/// the address alone, and are named `started`. Where the transport accepts
/// the address, the fresh request has the given method and no body, and the
/// one header that the transport may have set is `Authorization`, which it
/// takes from credentials inside the address.
#[verifier::external_body]
pub(crate) fn start_request(client: &Client, method: LightMethod, url: Url) -> (builder:
    ReqwestRequestBuilder)
    ensures
        builder_parts(builder) == started(method.name(), url_text(url)),
        builder_parts(builder) matches Some(parts) ==> is_fresh(parts, method.name()),
{
    let verb = match method {
        LightMethod::Delete => Method::DELETE,
        LightMethod::Get => Method::GET,
        LightMethod::Patch => Method::PATCH,
        LightMethod::Post => Method::POST,
        LightMethod::Put => Method::PUT,
    };
    client.request(verb, url)
}

/// `RequestBuilder::body`, with a copy of the bytes. Claimed: the request
/// gets the bytes as its payload and is otherwise unchanged; a builder that
/// holds a refusal stays as it is.
#[verifier::external_body]
pub(crate) fn attach_body(builder: ReqwestRequestBuilder, bytes: &[u8]) -> (out:
    ReqwestRequestBuilder)
    ensures
        builder_parts(out) == carrying(builder_parts(builder), bytes@),
{
    builder.body(Vec::from(bytes))
}

/// `RequestBuilder::build_split`. Claimed: it hands out the client and the
/// request that the builder holds; where the builder holds a refusal, the
/// refusal is dropped and no request comes out.
#[verifier::external_body]
pub(crate) fn split_request(builder: ReqwestRequestBuilder) -> (halves: (
    Client,
    Option<ReqwestRequest>,
))
    ensures
        halves.1 matches Some(request) ==> builder_parts(builder) == Some(request_parts(request)),
        halves.1 is None ==> builder_parts(builder) is None,
{
    let (client, held) = builder.build_split();
    (client, held.ok())
}

/// `Request::headers_mut`. Claimed: it lends the request's header map, and
/// what the borrower leaves in the map is the request's header set, the
/// other parts unchanged.
#[verifier::external_body]
pub(crate) fn request_headers(request: &mut ReqwestRequest) -> (headers: &mut HeaderMap)
    ensures
        header_entries(*headers) == request_parts(*old(request)).headers,
        request_parts(*final(request)) == headed(
            request_parts(*old(request)),
            header_entries(*final(headers)),
        ),
{
    request.headers_mut()
}

/// `RequestBuilder::from_parts`. Claimed: the builder holds the request.
#[verifier::external_body]
pub(crate) fn join_request(client: Client, request: ReqwestRequest) -> (builder:
    ReqwestRequestBuilder)
    ensures
        builder_parts(builder) == Some(request_parts(request)),
{
    ReqwestRequestBuilder::from_parts(client, request)
}

} // verus!
