//! The flow model: one captured interaction. A flow pairs a request with at
//! most one response; each carries its metadata, an ordered header list, and
//! a body resource. Ids are short, URL-safe and collision-resistant.

use vstd::prelude::*;

verus! {

use crate::resource::Resource;

/// Milliseconds since the Unix epoch.
///
/// Relies on `std::time::SystemTime::now`; the value follows the system
/// clock, so nothing is promised of it. A clock before the epoch yields 0.
#[verifier::external_body]
pub fn get_current_time() -> u128 {
    match std::time::SystemTime::now().duration_since(std::time::UNIX_EPOCH) {
        Ok(d) => d.as_millis(),
        Err(_) => 0,
    }
}

/// What `reqwest`'s URL parser makes of the given text: the serialized form
/// of the parsed URL, or nothing when the text is not an absolute URL.
pub uninterp spec fn url_parsed(s: Seq<char>) -> Option<Seq<char>>;

/// Relies on `reqwest::Url::parse`: the parsed, reserialized form depends on
/// the input text alone.
#[verifier::external_body]
fn parse_url(url: &str) -> (r: Option<String>)
    ensures
        r is Some <==> url_parsed(url@) is Some,
        r matches Some(s) ==> url_parsed(url@) == Some(s@),
{
    match reqwest::Url::parse(url) {
        Ok(u) => Some(std::string::String::from(u.as_str())),
        Err(_) => None,
    }
}

/// A character of the URL-safe id alphabet: letters, digits, `_` and `-`.
pub open spec fn is_url_safe_char(c: char) -> bool {
    ||| c == '_'
    ||| c == '-'
    ||| '0' <= c && c <= '9'
    ||| 'a' <= c && c <= 'z'
    ||| 'A' <= c && c <= 'Z'
}

/// Relies on `nanoid::format` with its URL-safe default alphabet: the result
/// has exactly `len` characters, each from that alphabet. The characters are
/// drawn from an OS-secure random source, so nothing more is promised.
#[verifier::external_body]
fn fresh_id(len: usize) -> (r: String)
    ensures
        r@.len() == len,
        forall|i: int| 0 <= i < r@.len() ==> is_url_safe_char(#[trigger] r@[i]),
{
    nanoid::format(nanoid::rngs::default, &nanoid::alphabet::SAFE, len)
}

/// The number of characters in a flow id.
pub const FLOW_ID_LENGTH: usize = 21;

/// Metadata of a captured request: the absolute URL in its parsed, serialized
/// form, the method, the HTTP version, and the capture timestamp.
#[derive(Debug, Clone, PartialEq)]
pub struct RequestMeta {
    pub url: String,
    pub method: String,
    pub version: String,
    pub created_at: u128,
}

impl RequestMeta {
    /// Parse `url` and record the request metadata; `None` exactly when the
    /// URL does not parse.
    pub fn new(url: &str, method: &str, version: &str) -> (r: Option<Self>)
        ensures
            r is Some <==> url_parsed(url@) is Some,
            r matches Some(m) ==> (Some(m.url@) == url_parsed(url@) && m.method@ == method@ && m.version@
                == version@),
    {
        match parse_url(url) {
            Some(u) => Some(
                RequestMeta {
                    url: u,
                    method: method.to_owned(),
                    version: version.to_owned(),
                    created_at: get_current_time(),
                },
            ),
            None => None,
        }
    }

    pub fn url_str(&self) -> (r: &str)
        ensures
            r@ == self.url@,
    {
        self.url.as_str()
    }

    /// A request opens a proxy tunnel exactly when its method is `CONNECT`.
    pub fn is_proxy_client_connection(&self) -> (r: bool)
        ensures
            r == (self.method@ == "CONNECT"@),
    {
        let connect: String = "CONNECT".to_owned();
        self.method == connect
    }
}

/// Metadata of a captured response: the numeric status (16-bit on the wire,
/// widened for headroom), the HTTP version, and the capture timestamp.
#[derive(Debug, Clone, PartialEq)]
pub struct ResponseMeta {
    pub status: u32,
    pub version: String,
    pub created_at: u128,
}

impl ResponseMeta {
    pub fn new(status: u32, version: &str) -> (r: Self)
        ensures
            r.status == status,
            r.version@ == version@,
    {
        ResponseMeta { status, version: version.to_owned(), created_at: get_current_time() }
    }
}

/// The metadata of a captured message: exactly one of the two directions.
#[derive(Debug, Clone, PartialEq)]
pub enum RequestOrResponseMeta {
    Request(RequestMeta),
    Response(ResponseMeta),
}

/// The capture timestamp carried by either kind of metadata.
pub open spec fn spec_meta_created_at(m: RequestOrResponseMeta) -> u128 {
    match m {
        RequestOrResponseMeta::Request(r) => r.created_at,
        RequestOrResponseMeta::Response(r) => r.created_at,
    }
}

impl RequestOrResponseMeta {
    pub fn unwrap_request_ref(&self) -> (r: &RequestMeta)
        requires
            self is Request,
        ensures
            *r == self->Request_0,
    {
        match self {
            RequestOrResponseMeta::Request(m) => m,
            RequestOrResponseMeta::Response(_) => unreached(),
        }
    }

    pub fn unwrap_response_ref(&self) -> (r: &ResponseMeta)
        requires
            self is Response,
        ensures
            *r == self->Response_0,
    {
        match self {
            RequestOrResponseMeta::Request(_) => unreached(),
            RequestOrResponseMeta::Response(m) => m,
        }
    }
}

/// One header line. A name may occur on several lines; their order is kept.
#[derive(Debug, Clone, PartialEq)]
pub struct Header {
    pub name: String,
    pub value: String,
}

/// A captured message: metadata, ordered headers, body, and direction.
#[derive(Debug, Clone, PartialEq)]
pub struct RequestOrResponse {
    pub body: Resource,
    pub headers: Vec<Header>,
    pub is_response: bool,
    pub meta: RequestOrResponseMeta,
}

impl RequestOrResponse {
    /// The direction flag agrees with the metadata variant.
    pub open spec fn wf(self) -> bool {
        self.is_response <==> self.meta is Response
    }

    pub fn new_request(body: Resource, headers: Vec<Header>, meta: RequestMeta) -> (r: Self)
        ensures
            r == (RequestOrResponse {
                body,
                headers,
                is_response: false,
                meta: RequestOrResponseMeta::Request(meta),
            }),
            r.wf(),
    {
        Self { body, headers, is_response: false, meta: RequestOrResponseMeta::Request(meta) }
    }

    pub fn new_response(body: Resource, headers: Vec<Header>, meta: ResponseMeta) -> (r: Self)
        ensures
            r == (RequestOrResponse {
                body,
                headers,
                is_response: true,
                meta: RequestOrResponseMeta::Response(meta),
            }),
            r.wf(),
    {
        Self { body, headers, is_response: true, meta: RequestOrResponseMeta::Response(meta) }
    }
}

/// The HTTP versions the proxy can name.
#[derive(Debug, Clone, Copy, PartialEq, Eq, Structural)]
pub enum HttpVersion {
    Http09,
    Http10,
    Http11,
    Http2,
    Http3,
    Unknown,
}

/// The display form of each HTTP version; an unknown version is shown as
/// HTTP/1.0, the interception engine's baseline.
pub open spec fn spec_version_string(v: HttpVersion) -> Seq<char> {
    match v {
        HttpVersion::Http09 => "HTTP/0.9"@,
        HttpVersion::Http10 => "HTTP/1.0"@,
        HttpVersion::Http11 => "HTTP/1.1"@,
        HttpVersion::Http2 => "HTTP/2"@,
        HttpVersion::Http3 => "HTTP/3"@,
        HttpVersion::Unknown => "HTTP/1.0"@,
    }
}

pub fn version_to_string(version: HttpVersion) -> (r: String)
    ensures
        r@ == spec_version_string(version),
{
    match version {
        HttpVersion::Http09 => "HTTP/0.9".to_owned(),
        HttpVersion::Http10 => "HTTP/1.0".to_owned(),
        HttpVersion::Http11 => "HTTP/1.1".to_owned(),
        HttpVersion::Http2 => "HTTP/2".to_owned(),
        HttpVersion::Http3 => "HTTP/3".to_owned(),
        HttpVersion::Unknown => "HTTP/1.0".to_owned(),
    }
}

/// Pairs one request with at most one response.
#[derive(Debug, Clone, PartialEq)]
pub struct HTTPPair {
    pub request: RequestOrResponse,
    pub response: Option<RequestOrResponse>,
}

impl HTTPPair {
    /// The request side really is a request, the response side (when there is
    /// one) really is a response, and the response was captured no earlier
    /// than its request.
    pub open spec fn wf(self) -> bool {
        &&& self.request.wf()
        &&& !self.request.is_response
        &&& self.response matches Some(r) ==> (r.wf() && r.is_response && spec_meta_created_at(r.meta)
            >= spec_meta_created_at(self.request.meta))
    }

    pub fn has_response(&self) -> (r: bool)
        ensures
            r == (self.response is Some),
    {
        self.response.is_some()
    }

    pub fn new_request(request: RequestOrResponse) -> (r: Self)
        requires
            request.wf(),
            !request.is_response,
        ensures
            r == (HTTPPair { request, response: None }),
            r.wf(),
    {
        Self { request, response: None }
    }

    pub fn add_response(&mut self, response: RequestOrResponse)
        requires
            old(self).wf(),
            response.wf(),
            response.is_response,
            spec_meta_created_at(response.meta) >= spec_meta_created_at(old(self).request.meta),
        ensures
            *final(self) == (HTTPPair { response: Some(response), ..*old(self) }),
            final(self).wf(),
    {
        self.response = Some(response);
    }

    /// How long the exchange took: defined exactly when a response exists,
    /// and never negative.
    pub fn get_time_taken(&self) -> (r: Option<u128>)
        requires
            self.wf(),
        ensures
            r is Some <==> self.response is Some,
            r matches Some(d) ==> d == spec_meta_created_at(self.response->Some_0.meta) - spec_meta_created_at(
                self.request.meta,
            ),
    {
        match &self.response {
            Some(response) => Some(
                response.meta.unwrap_response_ref().created_at - self.request.meta.unwrap_request_ref().created_at,
            ),
            None => None,
        }
    }
}

/// Law: a well-formed captured message carries exactly one of the two
/// metadata variants, and the variant matches its direction flag.
pub proof fn lemma_metadata_exclusive(m: RequestOrResponse)
    requires
        m.wf(),
    ensures
        m.is_response ==> (m.meta is Response && !(m.meta is Request)),
        !m.is_response ==> (m.meta is Request && !(m.meta is Response)),
{
}

/// Law: in a well-formed pair that has its response, the response was
/// captured no earlier than the request, so the time taken is defined and
/// non-negative.
pub proof fn lemma_pair_time_monotone(p: HTTPPair)
    requires
        p.wf(),
        p.response is Some,
    ensures
        spec_meta_created_at(p.response->Some_0.meta) >= spec_meta_created_at(p.request.meta),
        spec_meta_created_at(p.response->Some_0.meta) - spec_meta_created_at(p.request.meta) >= 0,
{
}

/// What a flow records; a WebSocket session is reserved future work.
#[derive(Debug, Clone, PartialEq)]
pub enum FlowContent {
    RequestResponse(HTTPPair),
}

/// One captured interaction, under a stable opaque id.
#[derive(Debug, Clone, PartialEq)]
pub struct Flow {
    pub id: String,
    pub content: FlowContent,
    pub is_active: bool,
}

impl Flow {
    /// The recorded pair is well-formed.
    pub open spec fn wf(self) -> bool {
        match self.content {
            FlowContent::RequestResponse(p) => p.wf(),
        }
    }

    /// A fresh, active flow under a newly drawn URL-safe id.
    pub fn new(content: FlowContent) -> (r: Self)
        ensures
            r.content == content,
            r.is_active,
            r.id@.len() == FLOW_ID_LENGTH,
            forall|i: int| 0 <= i < r.id@.len() ==> is_url_safe_char(#[trigger] r.id@[i]),
    {
        Self { id: fresh_id(FLOW_ID_LENGTH), content, is_active: true }
    }

    pub fn get_id(&self) -> (r: String)
        ensures
            r@ == self.id@,
    {
        self.id.clone()
    }
}

} // verus!
