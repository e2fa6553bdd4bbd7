//! The client handle and the endpoint builder.
//!
//! A handle is immutable configuration: the base address, the port and
//! the authorization header value, fixed at construction. Every
//! endpoint URL has the shape
//! `{base_url}:{port}/_synapse/admin/{version}{path}`.

use vstd::prelude::*;
use vstd::string::{StringExecFns, StringSliceAdditionalSpecFns};
use vstd::utf8::encode_utf8;

use crate::error::SynapseError;
use crate::json::JsonValue;
use crate::strconv::{dec_str, u64_to_string};

verus! {

/// The API version segment of an endpoint path. Most operations live
/// under `v1`; a small subset requires `v2`. This is a per-call
/// choice, not a client-wide setting.
#[derive(Debug, Clone, Copy, PartialEq, Eq, Structural)]
pub enum ApiVersion {
    V1,
    V2,
}

impl Default for ApiVersion {
    /// Most operations live under `v1`.
    fn default() -> (r: ApiVersion)
        ensures
            r == ApiVersion::V1,
    {
        ApiVersion::V1
    }
}

impl ApiVersion {
    /// The path segment this version selects.
    pub open spec fn spec_str(self) -> Seq<char> {
        match self {
            ApiVersion::V1 => "v1"@,
            ApiVersion::V2 => "v2"@,
        }
    }

    /// Renders the path segment.
    pub fn as_str(self) -> (r: &'static str)
        ensures
            r@ == self.spec_str(),
    {
        match self {
            ApiVersion::V1 => "v1",
            ApiVersion::V2 => "v2",
        }
    }
}

/// The HTTP method of a prepared request.
#[derive(Debug, Clone, Copy, PartialEq, Eq, Structural)]
pub enum HttpMethod {
    Get,
    Post,
    Put,
    Delete,
}

/// One fully prepared request: everything the transport needs to issue
/// the call. The URL string has already been validated.
#[derive(Debug)]
pub struct Request {
    pub method: HttpMethod,
    pub url: String,
    pub query: Vec<(String, String)>,
    pub body: Option<JsonValue>,
}

/// The pairs of a query string, by the views of key and value.
pub open spec fn query_view(q: Seq<(String, String)>) -> Seq<(Seq<char>, Seq<char>)> {
    q.map_values(|p: (String, String)| (p.0@, p.1@))
}

/// A byte that may appear in an HTTP header value: horizontal tab or
/// any byte from the visible range upward, excluding delete.
pub open spec fn valid_header_byte(b: u8) -> bool {
    b == 9 || (32 <= b && b != 127)
}

/// Whether every byte of `bytes` may appear in an HTTP header value.
pub open spec fn valid_header_value(bytes: Seq<u8>) -> bool {
    forall|i: int| 0 <= i < bytes.len() ==> valid_header_byte(bytes[i])
}

/// Checks every byte of `s` against the header-value rule.
fn check_header_value(s: &str) -> (r: bool)
    ensures
        r == valid_header_value(s.spec_bytes()),
{
    let bytes = s.as_bytes();
    let n = bytes.len();
    for i in 0..n
        invariant
            n == bytes@.len(),
            bytes@ == s.spec_bytes(),
            forall|j: int| 0 <= j < i ==> valid_header_byte(bytes@[j]),
    {
        let b = bytes[i];
        if !(b == 9 || (b >= 32 && b != 127)) {
            return false;
        }
    }
    true
}

/// The value of the `Authorization` header carrying `token`.
pub open spec fn bearer_header(token: Seq<char>) -> Seq<char> {
    "Bearer "@ + token
}

/// Whether `url::Url::parse` accepts `s` as an absolute URL. The parse
/// is a pure function of the string.
pub uninterp spec fn url_parse_ok(s: Seq<char>) -> bool;

/// Relies on `url::Url::parse`: it decides whether a string is a valid
/// absolute URL, from the string alone.
#[verifier::external_body]
fn url_is_valid(s: &str) -> (r: bool)
    ensures
        r == url_parse_ok(s@),
{
    url::Url::parse(s).is_ok()
}

/// A prepared request carrying `method` and the validated URL `url`.
pub open spec fn prepared(req: Request, method: HttpMethod, url: Seq<char>) -> bool {
    &&& req.method == method
    &&& req.url@ == url
    &&& url_parse_ok(req.url@)
}

/// A prepared request with no query parameters and no body.
pub open spec fn plain_request(req: Request, method: HttpMethod, url: Seq<char>) -> bool {
    &&& prepared(req, method, url)
    &&& query_view(req.query@) == Seq::<(Seq<char>, Seq<char>)>::empty()
    &&& req.body is None
}

/// A prepared request with no query parameters whose body is the
/// object with bindings `fields`.
pub open spec fn body_request(
    req: Request,
    method: HttpMethod,
    url: Seq<char>,
    fields: Seq<(Seq<char>, JsonValue)>,
) -> bool {
    &&& prepared(req, method, url)
    &&& query_view(req.query@) == Seq::<(Seq<char>, Seq<char>)>::empty()
    &&& req.body matches Some(b) && b matches JsonValue::Obj(f) && crate::json::fields_view(f@)
        == fields
}

/// A prepared request with query parameters `query` and no body.
pub open spec fn query_request(
    req: Request,
    method: HttpMethod,
    url: Seq<char>,
    query: Seq<(Seq<char>, Seq<char>)>,
) -> bool {
    &&& prepared(req, method, url)
    &&& query_view(req.query@) == query
    &&& req.body is None
}

/// The outcome when the composed URL string `url` is refused: the
/// parse error, and nothing else.
pub open spec fn url_refused<T>(r: Result<T, SynapseError>, url: Seq<char>) -> bool {
    (r matches Err(e) && e matches SynapseError::Parse) && !url_parse_ok(url)
}

/// The full URL string of an endpoint.
pub open spec fn endpoint_str(
    api_url: Seq<char>,
    api_port: u16,
    version: ApiVersion,
    path: Seq<char>,
) -> Seq<char> {
    api_url + ":"@ + dec_str(api_port as int) + "/_synapse/admin/"@ + version.spec_str() + path
}

/// A client handle for the Synapse admin API: immutable configuration
/// shared by every call. The handle holds no per-call state, so any
/// number of calls may be prepared and decoded through it at once.
#[derive(Debug, Clone)]
pub struct SynapseClient {
    pub api_url: String,
    pub api_port: u16,
    pub auth_header: String,
}

impl SynapseClient {
    /// Builds a handle whose every request will carry
    /// `Authorization: Bearer {access_token}`. Fails if and only if
    /// the token contains a byte that cannot appear in an HTTP header
    /// value.
    pub fn new(api_url: String, api_port: u16, access_token: String) -> (r: Result<
        SynapseClient,
        SynapseError,
    >)
        ensures
            valid_header_value(encode_utf8(access_token@)) ==> (r matches Ok(c) && c.api_url
                == api_url && c.api_port == api_port && c.auth_header@ == bearer_header(
                access_token@,
            )),
            !valid_header_value(encode_utf8(access_token@)) ==> r == Err::<
                SynapseClient,
                SynapseError,
            >(SynapseError::InvalidHeader),
    {
        if !check_header_value(access_token.as_str()) {
            return Err(SynapseError::InvalidHeader);
        }
        let mut auth_header = String::from_str("Bearer ");
        auth_header.append(access_token.as_str());
        Ok(SynapseClient { api_url, api_port, auth_header })
    }

    /// Composes the absolute URL for a call:
    /// `{base_url}:{port}/_synapse/admin/{version}{path}`. The caller
    /// supplies `path` starting with `/`, with any embedded
    /// identifiers already escaped; no implicit percent-encoding is
    /// performed. Fails if and only if the composed string is not a
    /// valid absolute URL.
    pub fn endpoint(&self, version: ApiVersion, path: &str) -> (r: Result<String, SynapseError>)
        ensures
            r matches Ok(u) ==> u@ == endpoint_str(self.api_url@, self.api_port, version, path@)
                && url_parse_ok(u@),
            r matches Err(e) ==> !url_parse_ok(
                endpoint_str(self.api_url@, self.api_port, version, path@),
            ) && e matches SynapseError::Parse,
    {
        let mut u = self.api_url.clone();
        u.append(":");
        let port = u64_to_string(self.api_port as u64);
        u.append(port.as_str());
        u.append("/_synapse/admin/");
        u.append(version.as_str());
        u.append(path);
        proof {
            assert(u@ =~= endpoint_str(self.api_url@, self.api_port, version, path@));
        }
        if url_is_valid(u.as_str()) {
            Ok(u)
        } else {
            Err(SynapseError::Parse)
        }
    }

    /// Prepares a request with no query and no body for `path` under
    /// `version`.
    pub(crate) fn plain(&self, method: HttpMethod, version: ApiVersion, path: &str) -> (r: Result<
        Request,
        SynapseError,
    >)
        ensures
            r matches Ok(req) ==> plain_request(
                req,
                method,
                endpoint_str(self.api_url@, self.api_port, version, path@),
            ),
            r is Err ==> url_refused(
                r,
                endpoint_str(self.api_url@, self.api_port, version, path@),
            ),
    {
        let url = match self.endpoint(version, path) {
            Ok(u) => u,
            Err(e) => {
                return Err(e);
            },
        };
        let query: Vec<(String, String)> = Vec::new();
        proof {
            assert(query_view(query@) =~= Seq::<(Seq<char>, Seq<char>)>::empty());
        }
        Ok(Request { method, url, query, body: None })
    }
}

} // verus!
