//! The fields of one access-log line: which request data is kept, how long
//! values are cut at a character boundary, and how a status is classified.
use crate::common::codec::{parse_u64, u64_from_text};
use vstd::prelude::*;
use vstd::string::StringSliceAdditionalSpecFns;
use vstd::utf8::{encode_utf8, is_char_boundary, valid_utf8};

verus! {

broadcast use vstd::utf8::encode_utf8_valid_utf8;

/// Longest header value kept, in bytes.
pub const HEADER_MAX_BYTES: usize = 64;

/// Longest query string kept, in bytes.
pub const QUERY_MAX_BYTES: usize = 256;

/// The largest character boundary of `b` that is at most `i`.
pub open spec fn boundary_at_most(b: Seq<u8>, i: int) -> int
    decreases i,
{
    if i <= 0 {
        0
    } else if is_char_boundary(b, i) {
        i
    } else {
        boundary_at_most(b, i - 1)
    }
}

/// How many bytes of `b` survive truncation to `max` bytes without splitting a character.
pub open spec fn truncated_len(b: Seq<u8>, max: int) -> int {
    if b.len() <= max { b.len() as int } else { boundary_at_most(b, max) }
}

proof fn lemma_boundary_at_most(b: Seq<u8>, i: int)
    requires
        valid_utf8(b),
    ensures
        0 <= boundary_at_most(b, i),
        i >= 0 ==> boundary_at_most(b, i) <= i,
        is_char_boundary(b, boundary_at_most(b, i)),
    decreases i,
{
    if i > 0 && !is_char_boundary(b, i) {
        lemma_boundary_at_most(b, i - 1);
    }
}

/// A value cut for the log keeps at most `max` of its bytes, and where it is
/// cut (when it is) lies on a character boundary.
pub proof fn law_truncation_fits(b: Seq<u8>, max: int)
    requires
        valid_utf8(b),
        0 <= max,
    ensures
        0 <= truncated_len(b, max) <= max,
        truncated_len(b, max) <= b.len(),
        truncated_len(b, max) < b.len() ==> is_char_boundary(b, truncated_len(b, max)),
{
    lemma_boundary_at_most(b, max);
}

/// `s` cut to at most `max_bytes` bytes, at a character boundary.
pub fn safe_truncate(s: &str, max_bytes: usize) -> (r: &str)
    ensures
        r.spec_bytes() == s.spec_bytes().subrange(0, truncated_len(s.spec_bytes(), max_bytes as int)),
{
    let bytes = s.as_bytes();
    if bytes.len() <= max_bytes {
        assert(s.spec_bytes().subrange(0, s.spec_bytes().len() as int) =~= s.spec_bytes());
        return s;
    }
    proof { assert(valid_utf8(encode_utf8(s@))); }
    let mut end = max_bytes;
    while !s.is_char_boundary(end)
        invariant
            end <= max_bytes,
            max_bytes < s.spec_bytes().len(),
            valid_utf8(s.spec_bytes()),
            boundary_at_most(s.spec_bytes(), max_bytes as int) == boundary_at_most(s.spec_bytes(), end as int),
        decreases end,
    {
        end = end - 1;
    }
    let (head, _) = s.split_at(end);
    head
}

/// Classifies a response status: `client_error` for 4xx, `server_error` for 5xx.
pub fn error_kind(status: u16) -> (r: Option<&'static str>)
    ensures
        400 <= status <= 499 ==> (r matches Some(k) && k@ == "client_error"@),
        500 <= status <= 599 ==> (r matches Some(k) && k@ == "server_error"@),
        !(400 <= status <= 599) ==> r is None,
{
    if 400 <= status && status <= 499 {
        Some("client_error")
    } else if 500 <= status && status <= 599 {
        Some("server_error")
    } else {
        None
    }
}

/// The logged form of an optional header: cut to [`HEADER_MAX_BYTES`], empty when absent.
pub open spec fn header_field(value: Option<Seq<u8>>) -> Seq<u8> {
    match value {
        Some(b) => b.subrange(0, truncated_len(b, HEADER_MAX_BYTES as int)),
        None => Seq::empty(),
    }
}

pub open spec fn str_bytes(value: Option<&str>) -> Option<Seq<u8>> {
    match value {
        Some(v) => Some(v.spec_bytes()),
        None => None,
    }
}

/// A header value (absent when the header is missing or not text) as it is logged.
pub fn header_text(value: Option<&str>) -> (r: String)
    ensures
        encode_utf8(r@) == header_field(str_bytes(value)),
{
    match value {
        Some(v) => {
            let t = safe_truncate(v, HEADER_MAX_BYTES);
            let out = t.to_string();
            assert(out@ == t@);
            out
        },
        None => String::new(),
    }
}

/// The query string as it is logged: cut to [`QUERY_MAX_BYTES`], empty when absent.
pub fn query_text(query: Option<&str>) -> (r: String)
    ensures
        query is None ==> r@.len() == 0,
        query matches Some(q) ==> encode_utf8(r@) == q.spec_bytes().subrange(0, truncated_len(q.spec_bytes(), QUERY_MAX_BYTES as int)),
{
    match query {
        Some(q) => {
            let t = safe_truncate(q, QUERY_MAX_BYTES);
            let out = t.to_string();
            assert(out@ == t@);
            out
        },
        None => String::new(),
    }
}

/// The handler name logged: the one set on the route, else the matched route pattern, else `-`.
pub fn handler_label(handler: Option<&str>, matched_path: Option<&str>) -> (r: String)
    ensures
        handler matches Some(h) ==> r@ == h@,
        handler is None ==> (matched_path matches Some(p) ==> r@ == p@),
        handler is None && matched_path is None ==> r@ == "-"@,
{
    match handler {
        Some(h) => h.to_string(),
        None => match matched_path {
            Some(p) => p.to_string(),
            None => "-".to_string(),
        },
    }
}

/// Everything one access-log line records about a request. Authorization and
/// cookies are never among the headers kept.
pub struct AccessLogRecord {
    pub request_id: String,
    pub method: String,
    pub path: String,
    pub query: String,
    pub protocol: String,
    pub host: String,
    pub user_agent: String,
    pub traceparent: String,
    pub tenant_id: String,
    pub organization_id: String,
    pub handler: String,
    pub status_code: u16,
    pub response_duration_ms: u64,
    pub start_time: String,
    pub end_time: String,
    pub bytes_sent: Option<u64>,
    pub error_kind: Option<&'static str>,
    pub connection_status: Option<String>,
}

/// The request-side inputs of a log line, as read from the request.
pub struct RequestFacts<'a> {
    pub request_id: Option<&'a str>,
    pub method: &'a str,
    pub path: &'a str,
    pub query: Option<&'a str>,
    pub protocol: &'a str,
    pub host: Option<&'a str>,
    pub user_agent: Option<&'a str>,
    pub traceparent: Option<&'a str>,
    pub tenant_id: Option<&'a str>,
    pub organization_id: Option<&'a str>,
    pub handler: Option<&'a str>,
    pub matched_path: Option<&'a str>,
    pub start_time: &'a str,
}

/// The response-side inputs of a log line.
pub struct ResponseFacts<'a> {
    pub status_code: u16,
    pub response_duration_ms: u64,
    pub end_time: &'a str,
    pub content_length: Option<&'a str>,
    pub connection: Option<&'a str>,
}

impl AccessLogRecord {
    /// Builds the log line: headers cut to [`HEADER_MAX_BYTES`], the query to
    /// [`QUERY_MAX_BYTES`], the byte count read from `content-length` when it is a number.
    pub fn new(req: &RequestFacts, resp: &ResponseFacts) -> (r: Self)
        ensures
            req.request_id matches Some(id) ==> r.request_id@ == id@,
            req.request_id is None ==> r.request_id@.len() == 0,
            r.method@ == req.method@,
            r.path@ == req.path@,
            req.query is None ==> r.query@.len() == 0,
            req.query matches Some(q) ==> encode_utf8(r.query@) == q.spec_bytes().subrange(0, truncated_len(q.spec_bytes(), QUERY_MAX_BYTES as int)),
            r.protocol@ == req.protocol@,
            encode_utf8(r.host@) == header_field(str_bytes(req.host)),
            encode_utf8(r.user_agent@) == header_field(str_bytes(req.user_agent)),
            encode_utf8(r.traceparent@) == header_field(str_bytes(req.traceparent)),
            encode_utf8(r.tenant_id@) == header_field(str_bytes(req.tenant_id)),
            encode_utf8(r.organization_id@) == header_field(str_bytes(req.organization_id)),
            req.handler matches Some(h) ==> r.handler@ == h@,
            req.handler is None ==> (req.matched_path matches Some(p) ==> r.handler@ == p@),
            req.handler is None && req.matched_path is None ==> r.handler@ == "-"@,
            r.status_code == resp.status_code,
            r.response_duration_ms == resp.response_duration_ms,
            r.start_time@ == req.start_time@,
            r.end_time@ == resp.end_time@,
            resp.content_length matches Some(c) ==> r.bytes_sent == u64_from_text(c@),
            resp.content_length is None ==> r.bytes_sent is None,
            400 <= resp.status_code <= 499 ==> (r.error_kind matches Some(k) && k@ == "client_error"@),
            500 <= resp.status_code <= 599 ==> (r.error_kind matches Some(k) && k@ == "server_error"@),
            !(400 <= resp.status_code <= 599) ==> r.error_kind is None,
            resp.connection is None ==> r.connection_status is None,
            resp.connection matches Some(c) ==> (r.connection_status matches Some(s)
                && encode_utf8(s@) == header_field(Some(c.spec_bytes()))),
    {
        let request_id = match req.request_id {
            Some(id) => id.to_string(),
            None => String::new(),
        };
        let bytes_sent = match resp.content_length {
            Some(c) => parse_u64(c),
            None => None,
        };
        let connection_status = match resp.connection {
            Some(c) => Some(header_text(Some(c))),
            None => None,
        };
        AccessLogRecord {
            request_id,
            method: req.method.to_string(),
            path: req.path.to_string(),
            query: query_text(req.query),
            protocol: req.protocol.to_string(),
            host: header_text(req.host),
            user_agent: header_text(req.user_agent),
            traceparent: header_text(req.traceparent),
            tenant_id: header_text(req.tenant_id),
            organization_id: header_text(req.organization_id),
            handler: handler_label(req.handler, req.matched_path),
            status_code: resp.status_code,
            response_duration_ms: resp.response_duration_ms,
            start_time: req.start_time.to_string(),
            end_time: resp.end_time.to_string(),
            bytes_sent,
            error_kind: error_kind(resp.status_code),
            connection_status,
        }
    }
}

} // verus!
