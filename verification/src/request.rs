//! The request descriptor, its builder, and the construction of the
//! transport's request from a descriptor, a token and an optional proxy.

use crate::address::{parse_url, parsed_url, resolve_path, rewritten, text_of};
use crate::constants::JSON_CONTENT;
use crate::decimal::decimal;
use crate::error::HttpError;
use crate::headers::{has_room, header_entries, is_value_text, Known};
use crate::merge::{
    bytes_of, entries_of, fill_missing, filled, law_authorization, law_content_length,
    law_content_type, lemma_known_names_differ, working_entries, working_headers,
};
use crate::routing::RouteInfo;
use crate::transport::{
    attach_body, builder_parts, is_fresh, join_request, request_headers, split_request,
    start_request, started, Outbound,
};
use http::header::HeaderMap;
use reqwest::{Client, RequestBuilder as ReqwestRequestBuilder};
use url::Url;
use vstd::prelude::*;
use vstd::set_lib::*;
use vstd::string::*;

verus! {

/// Collects the body, the header set and the route of a request before the
/// descriptor is made.
pub struct RequestBuilder<'a> {
    pub body: Option<&'a [u8]>,
    pub headers: Option<HeaderMap>,
    pub route: RouteInfo<'a>,
}

impl<'a> RequestBuilder<'a> {
    /// A builder for the given route, without body and without headers.
    pub fn new(route_info: RouteInfo<'a>) -> (builder: Self)
        ensures
            builder.body is None,
            builder.headers is None,
            builder.route == route_info,
    {
        Self { body: None, headers: None, route: route_info }
    }

    /// The descriptor with exactly the fields last set.
    pub fn build(self) -> (request: Request<'a>)
        ensures
            request.body == self.body,
            request.headers == self.headers,
            request.route == self.route,
    {
        Request::new(self)
    }

    /// Replaces the body, or clears it.
    pub fn body(&mut self, body: Option<&'a [u8]>) -> (same: &mut Self)
        ensures
            same.body == body,
            same.headers == old(self).headers,
            same.route == old(self).route,
            *final(self) == *final(same),
    {
        self.body = body;
        self
    }

    /// Replaces the header set, or clears it.
    pub fn headers(&mut self, headers: Option<HeaderMap>) -> (same: &mut Self)
        ensures
            same.body == old(self).body,
            same.headers == headers,
            same.route == old(self).route,
            *final(self) == *final(same),
    {
        self.headers = headers;
        self
    }

    /// Replaces the route.
    pub fn route(&mut self, route_info: RouteInfo<'a>) -> (same: &mut Self)
        ensures
            same.body == old(self).body,
            same.headers == old(self).headers,
            same.route == route_info,
            *final(self) == *final(same),
    {
        self.route = route_info;
        self
    }
}

/// The parts of the constructed request, given the parts `base` of the request
/// that the transport has started: the body is attached, and the header set
/// `working` is merged in without overwriting what the transport has set.
/// Where the transport has refused the address there are no parts.
pub open spec fn materialized(
    base: Option<Outbound>,
    body: Option<Seq<u8>>,
    working: Map<Seq<char>, Seq<Seq<u8>>>,
) -> Option<Outbound> {
    match base {
        Some(fresh) => Some(
            Outbound {
                method: fresh.method,
                url: fresh.url,
                headers: filled(fresh.headers, working),
                body: match body {
                    Some(bytes) => Some(bytes),
                    None => fresh.body,
                },
            },
        ),
        None => None,
    }
}

/// Describes a request before it is constructed: an optional body, an
/// optional header set of the caller's, and the route.
#[derive(Clone, Debug)]
pub struct Request<'a> {
    pub body: Option<&'a [u8]>,
    pub headers: Option<HeaderMap>,
    pub route: RouteInfo<'a>,
}

impl<'a> Request<'a> {
    /// The descriptor that the builder has collected.
    pub fn new(builder: RequestBuilder<'a>) -> (request: Self)
        ensures
            request.body == builder.body,
            request.headers == builder.headers,
            request.route == builder.route,
    {
        let RequestBuilder { body, headers, route } = builder;
        Self { body, headers, route }
    }

    /// The text that is parsed as the request's address.
    pub open spec fn resolved(&self, proxy: Option<&Url>) -> Seq<char> {
        rewritten(self.route.path@, text_of(proxy))
    }

    /// The header set computed for the request with the given token.
    pub open spec fn working(&self, token: &str) -> Map<Seq<char>, Seq<Seq<u8>>> {
        working_entries(entries_of(self.headers), token.spec_bytes(), bytes_of(self.body))
    }

    /// Constructs the transport's request for this descriptor.
    ///
    /// The route's path, rewritten for the proxy where one is given, is
    /// parsed as the address; a path that does not parse is the first
    /// failure. The transport starts a request for the route's method and
    /// that address, and the body is attached. The header set is computed
    /// from the caller's headers, the token and the body; a token that
    /// cannot stand in a header value is the second failure. The computed
    /// headers are then merged into the started request without overwriting
    /// any header that the transport has set. The descriptor is not changed.
    ///
    /// A transport that refuses the address hands back a builder that holds
    /// its refusal, and such a builder is what is returned.
    ///
    /// A header set of the caller's has to leave room for four more names:
    /// see `has_room_for`.
    pub fn build(&'a self, client: &Client, token: &str, proxy: Option<&Url>) -> (built: Result<
        ReqwestRequestBuilder,
        HttpError,
    >)
        requires
            self.headers matches Some(given) ==> has_room(header_entries(given), 4),
        ensures
            built is Ok <==> parsed_url(self.resolved(proxy)) is Some && is_value_text(
                token.spec_bytes(),
            ),
            built matches Ok(builder) ==> builder_parts(builder) == materialized(
                started(self.route.method.name(), parsed_url(self.resolved(proxy))->0),
                bytes_of(self.body),
                self.working(token),
            ),
            built is Ok ==> (started(
                self.route.method.name(),
                parsed_url(self.resolved(proxy))->0,
            ) matches Some(fresh) ==> is_fresh(fresh, self.route.method.name())),
            built matches Err(HttpError::InvalidUrl(_)) ==> parsed_url(self.resolved(proxy))
                is None,
            built matches Err(HttpError::InvalidHeader(_)) ==> parsed_url(self.resolved(proxy))
                is Some && !is_value_text(token.spec_bytes()),
    {
        let (method, _, path) = self.route.deconstruct();
        let resolved = resolve_path(path, proxy);
        let url = match parse_url(resolved.as_str()) {
            Ok(url) => url,
            Err(refused) => {
                return Err(HttpError::InvalidUrl(refused));
            },
        };
        let ghost base = started(method.name(), parsed_url(resolved@)->0);
        let mut builder = start_request(client, method, url);
        if let Some(bytes) = self.body {
            builder = attach_body(builder, bytes);
        }
        let working = match working_headers(&self.headers, token, self.body) {
            Ok(working) => working,
            Err(refused) => {
                return Err(HttpError::InvalidHeader(refused));
            },
        };
        proof {
            lemma_working_fits(entries_of(self.headers), token.spec_bytes(), bytes_of(self.body));
            if let Some(fresh) = base {
                lemma_len_subset(fresh.headers.dom(), set![Known::Authorization.text()]);
            }
        }
        let (owner, held) = split_request(builder);
        match held {
            Some(mut request) => {
                fill_missing(request_headers(&mut request), working);
                Ok(join_request(owner, request))
            },
            None => {
                match parse_url(resolved.as_str()) {
                    Ok(again) => Ok(start_request(client, method, again)),
                    Err(refused) => Err(HttpError::InvalidUrl(refused)),
                }
            },
        }
    }

    /// The body.
    pub fn body_ref(&self) -> (body: &Option<&'a [u8]>)
        ensures
            *body == self.body,
    {
        &self.body
    }

    /// The body, to be replaced as a whole.
    pub fn body_mut(&mut self) -> (body: &mut Option<&'a [u8]>)
        ensures
            *body == old(self).body,
            final(self).body == *final(body),
            final(self).headers == old(self).headers,
            final(self).route == old(self).route,
    {
        &mut self.body
    }

    /// The caller's header set.
    pub fn headers_ref(&self) -> (headers: &Option<HeaderMap>)
        ensures
            *headers == self.headers,
    {
        &self.headers
    }

    /// The caller's header set, to be replaced as a whole.
    pub fn headers_mut(&mut self) -> (headers: &mut Option<HeaderMap>)
        ensures
            *headers == old(self).headers,
            final(self).headers == *final(headers),
            final(self).body == old(self).body,
            final(self).route == old(self).route,
    {
        &mut self.headers
    }

    /// The route.
    pub fn route_ref(&self) -> (route: &RouteInfo<'a>)
        ensures
            *route == self.route,
    {
        &self.route
    }

    /// The route, to be replaced as a whole.
    pub fn route_mut(&mut self) -> (route: &mut RouteInfo<'a>)
        ensures
            *route == old(self).route,
            final(self).route == *final(route),
            final(self).body == old(self).body,
            final(self).headers == old(self).headers,
    {
        &mut self.route
    }
}

/// The request that comes of a started request `fresh`: the method and the
/// address are the transport's; the body is the descriptor's; and of the
/// headers, `Content-Length` is the decimal length of the body, `Content-Type`
/// is the caller's choice, else JSON with a body and absent without one, and
/// `Authorization` is the transport's where it has set one, else the token.
pub proof fn law_materialized(
    fresh: Outbound,
    method: Seq<char>,
    explicit: Option<Map<Seq<char>, Seq<Seq<u8>>>>,
    token: Seq<u8>,
    body: Option<Seq<u8>>,
)
    requires
        is_fresh(fresh, method),
    ensures
        ({
            let made = materialized(Some(fresh), body, working_entries(explicit, token, body))->0;
            let length = Known::ContentLength.text();
            let kind = Known::ContentType.text();
            let secret = Known::Authorization.text();
            let named = explicit is Some && explicit->0.dom().contains(kind);
            &&& made.method == method
            &&& made.url == fresh.url
            &&& made.body == body
            &&& made.headers.dom().contains(length)
            &&& made.headers[length] == seq![
                decimal(
                    match body {
                        Some(bytes) => bytes.len(),
                        None => 0,
                    },
                ),
            ]
            &&& named ==> made.headers.dom().contains(kind) && made.headers[kind] == seq![
                explicit->0[kind][0],
            ]
            &&& !named && body is Some ==> made.headers.dom().contains(kind)
                && made.headers[kind] == seq![JSON_CONTENT.spec_bytes()]
            &&& !named && body is None ==> !made.headers.dom().contains(kind)
            &&& made.headers.dom().contains(secret)
            &&& fresh.headers.dom().contains(secret) ==> made.headers[secret]
                == fresh.headers[secret]
            &&& !fresh.headers.dom().contains(secret) ==> made.headers[secret] == seq![token]
        }),
{
    lemma_known_names_differ();
    law_content_type(fresh.headers, explicit, token, body);
    law_content_length(fresh.headers, explicit, token, body);
    law_authorization(fresh.headers, explicit, token, body);
}

/// The computed header set holds at most three names more than the caller's
/// set, and four names where the caller gave none.
pub proof fn lemma_working_fits(
    explicit: Option<Map<Seq<char>, Seq<Seq<u8>>>>,
    token: Seq<u8>,
    body: Option<Seq<u8>>,
)
    requires
        explicit matches Some(given) ==> has_room(given, 4),
    ensures
        has_room(working_entries(explicit, token, body), 1),
{
}

} // verus!
