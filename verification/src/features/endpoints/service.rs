//! The decisions of the endpoint service: the checks an endpoint's
//! configuration, event types, tags and rate limit face, what a missing
//! endpoint or a refused update answers, how a rotation's grace period is
//! read, how secrets are issued and revealed and how a listing is shaped.
use crate::common::codec::{uppercase_text, uppercased};
use crate::common::crypto::{decryption_result, envelope_nonce_fits, tenant_envelope_message, TenantCrypto};
use crate::common::codec::base64_url_encode;
use crate::common::text::{chars_of, concat2, concat3, starts_with, starts_with_chars};
use crate::common::types::{PaginatedResponse, RequestContext};
use crate::common::validators::{distinct_keys, find_tag_problem, tag_problem, TagProblem};
use crate::error::{require_found, text_eq, AppError};
use crate::features::endpoints::models::{
    shows_endpoint_row, CreateEndpointRequest, EndpointResponse, EndpointRow, HttpConfig, SecretResponse, SecretRow,
    UpdateEndpointRequest,
};
use crate::features::endpoints::repository::EndpointRepository;
use vstd::prelude::*;
use vstd::string::StringSliceAdditionalSpecFns;
use vstd::utf8::encode_utf8;

verus! {

/// The endpoint service, over a store `R`, with the tenant encryption of secrets.
pub struct EndpointService<R> {
    pub repo: R,
    pub crypto: TenantCrypto,
}

/// The endpoint service over a store on the database handle `db`.
pub fn svc<P>(db: P, crypto: TenantCrypto) -> (r: EndpointService<EndpointRepository<P>>)
    ensures
        r.repo.db == db,
{
    EndpointService::new(EndpointRepository::new(db), crypto)
}

/// The first rule an HTTP configuration breaks, as the message it is refused
/// with: it must parse, have a URL of 1 to 2048 bytes starting with `http://`
/// or `https://`, the method POST or PUT in any case, and at most 10 headers
/// with keys of at most 256 and values of at most 1024 bytes.
pub open spec fn http_config_problem(parsed: Result<HttpConfig, String>) -> Option<Seq<char>> {
    match parsed {
        Err(e) => Some("invalid http config: "@ + e@),
        Ok(h) => {
            let url = h.url@;
            let up = uppercased(h.method@);
            if encode_utf8(url).len() == 0 {
                Some("config.url is required"@)
            } else if encode_utf8(url).len() > 2048 {
                Some("config.url exceeds 2048 chars"@)
            } else if !starts_with(url, "http://"@) && !starts_with(url, "https://"@) {
                Some("config.url must start with http:// or https://"@)
            } else if up != "POST"@ && up != "PUT"@ {
                Some("config.method must be POST or PUT"@)
            } else {
                match tag_problem(h.headers@, 10, 256, 1024) {
                    Some(TagProblem::TooManyEntries) => Some("config.headers: max 10 entries"@),
                    Some(TagProblem::KeyTooLong) => Some("config.headers: key exceeds 256 chars"@),
                    Some(TagProblem::ValueTooLong) => Some("config.headers: value exceeds 1024 chars"@),
                    None => None,
                }
            }
        },
    }
}

/// An event type id has the form `evt_` followed by 16 more bytes.
pub open spec fn event_type_id_ok(et: Seq<char>) -> bool {
    starts_with(et, "evt_"@) && encode_utf8(et).len() == 20
}

/// The index of the first malformed event type id from `from` on.
pub open spec fn first_bad_event_type(ets: Seq<String>, from: int) -> Option<int>
    decreases ets.len() - from,
{
    if from < 0 || from >= ets.len() {
        None
    } else if !event_type_id_ok(ets[from]@) {
        Some(from)
    } else {
        first_bad_event_type(ets, from + 1)
    }
}

/// The message an event type list is refused with: more than 100 entries, or the first malformed id.
pub open spec fn event_types_problem(ets: Seq<String>) -> Option<Seq<char>> {
    if ets.len() > 100 {
        Some("event_types: max 100 entries"@)
    } else {
        match first_bad_event_type(ets, 0) {
            Some(k) => Some("event_types: invalid id '"@ + ets[k]@ + "' (expected evt_<16 chars>)"@),
            None => None,
        }
    }
}

/// The message endpoint tags are refused with: more than 20 entries, keys over 128 or values over 256 bytes.
pub open spec fn endpoint_tags_problem(tags: Seq<(String, String)>) -> Option<Seq<char>> {
    match tag_problem(tags, 20, 128, 256) {
        Some(TagProblem::TooManyEntries) => Some("tags: max 20 entries"@),
        Some(TagProblem::KeyTooLong) => Some("tags: key exceeds 128 chars"@),
        Some(TagProblem::ValueTooLong) => Some("tags: value exceeds 256 chars"@),
        None => None,
    }
}

/// The message a rate limit outside `1..=100000` is refused with.
pub open spec fn rate_limit_problem(rl: i32) -> Option<Seq<char>> {
    if 1 <= rl && rl <= 100_000 {
        None
    } else {
        Some("rate_limit_per_minute must be between 1 and 100000"@)
    }
}

/// The first problem of a list of checks, in order.
pub open spec fn first_problem(problems: Seq<Option<Seq<char>>>) -> Option<Seq<char>>
    decreases problems.len(),
{
    if problems.len() == 0 {
        None
    } else if problems[0] is Some {
        problems[0]
    } else {
        first_problem(problems.subrange(1, problems.len() as int))
    }
}

/// A check's answer: a bad request with the problem's message, or success.
pub open spec fn answers(problem: Option<Seq<char>>, r: Result<(), AppError>) -> bool {
    match problem {
        None => r is Ok,
        Some(m) => r matches Err(AppError::BadRequest(msg)) && msg@ == m,
    }
}

/// The problem of a creation request, its HTTP configuration as parsed.
pub open spec fn create_problem(req: CreateEndpointRequest, parsed: Result<HttpConfig, String>) -> Option<Seq<char>> {
    first_problem(seq![
        http_config_problem(parsed),
        event_types_problem(req.event_types@),
        endpoint_tags_problem(req.tags@),
        create_rate_limit_problem(req),
    ])
}

/// The problem of the configuration an update gives, if it gives one.
pub open spec fn update_config_problem(parsed: Option<Result<HttpConfig, String>>) -> Option<Seq<char>> {
    match parsed {
        Some(p) => http_config_problem(p),
        None => None,
    }
}

/// The problem of the event types an update gives, if it gives them.
pub open spec fn update_event_types_problem(req: UpdateEndpointRequest) -> Option<Seq<char>> {
    match req.event_types {
        Some(e) => event_types_problem(e@),
        None => None,
    }
}

/// The problem of the tags an update gives, if it gives them.
pub open spec fn update_tags_problem(req: UpdateEndpointRequest) -> Option<Seq<char>> {
    match req.tags {
        Some(t) => endpoint_tags_problem(t@),
        None => None,
    }
}

/// The problem of the rate limit an update sets, if it sets one.
pub open spec fn update_rate_limit_problem(req: UpdateEndpointRequest) -> Option<Seq<char>> {
    match req.rate_limit_per_minute {
        Some(Some(rl)) => rate_limit_problem(rl),
        _ => None,
    }
}

/// The problem of the rate limit a creation request gives, if it gives one.
pub open spec fn create_rate_limit_problem(req: CreateEndpointRequest) -> Option<Seq<char>> {
    match req.rate_limit_per_minute {
        Some(rl) => rate_limit_problem(rl),
        None => None,
    }
}

/// The problem of an update request: each field it gives is checked, in order.
pub open spec fn update_problem(req: UpdateEndpointRequest, parsed: Option<Result<HttpConfig, String>>) -> Option<Seq<char>> {
    first_problem(seq![
        update_config_problem(parsed),
        update_event_types_problem(req),
        update_tags_problem(req),
        update_rate_limit_problem(req),
    ])
}

proof fn lemma_first_problem4(a: Option<Seq<char>>, b: Option<Seq<char>>, c: Option<Seq<char>>, d: Option<Seq<char>>)
    ensures
        first_problem(seq![a, b, c, d]) == (if a is Some { a } else if b is Some { b } else if c is Some { c } else { d }),
{
    reveal_with_fuel(first_problem, 5);
    let s = seq![a, b, c, d];
    assert(s.subrange(1, 4) =~= seq![b, c, d]);
    assert(seq![b, c, d].subrange(1, 3) =~= seq![c, d]);
    assert(seq![c, d].subrange(1, 2) =~= seq![d]);
    assert(seq![d].subrange(1, 1) =~= Seq::<Option<Seq<char>>>::empty());
}

impl<R> EndpointService<R> {
    pub fn new(repo: R, crypto: TenantCrypto) -> (r: Self)
        ensures
            r.repo == repo,
            r.crypto == crypto,
    {
        EndpointService { repo, crypto }
    }

    /// Checks an HTTP configuration as parsed from the request's JSON (or the parser's message).
    pub fn validate_http_config(parsed: &Result<HttpConfig, String>) -> (r: Result<(), AppError>)
        ensures
            answers(http_config_problem(*parsed), r),
    {
        let http = match parsed {
            Err(e) => return Err(AppError::BadRequest(concat2("invalid http config: ", e.as_str()))),
            Ok(h) => h,
        };
        let url_len = http.url.as_str().as_bytes().len();
        if url_len == 0 {
            return Err(AppError::BadRequest("config.url is required".to_string()));
        }
        if url_len > 2048 {
            return Err(AppError::BadRequest("config.url exceeds 2048 chars".to_string()));
        }
        let url = chars_of(http.url.as_str());
        let plain = chars_of("http://");
        let secure = chars_of("https://");
        if !starts_with_chars(&url, &plain) && !starts_with_chars(&url, &secure) {
            return Err(AppError::BadRequest("config.url must start with http:// or https://".to_string()));
        }
        let method_upper = uppercase_text(http.method.as_str());
        if !text_eq(method_upper.as_str(), "POST") && !text_eq(method_upper.as_str(), "PUT") {
            return Err(AppError::BadRequest("config.method must be POST or PUT".to_string()));
        }
        match find_tag_problem(&http.headers, 10, 256, 1024) {
            Some(TagProblem::TooManyEntries) => Err(AppError::BadRequest("config.headers: max 10 entries".to_string())),
            Some(TagProblem::KeyTooLong) => Err(AppError::BadRequest("config.headers: key exceeds 256 chars".to_string())),
            Some(TagProblem::ValueTooLong) => Err(AppError::BadRequest("config.headers: value exceeds 1024 chars".to_string())),
            None => Ok(()),
        }
    }

    /// At most 100 event type ids, each `evt_` and 16 more bytes.
    pub fn validate_event_types(event_types: &Vec<String>) -> (r: Result<(), AppError>)
        ensures
            answers(event_types_problem(event_types@), r),
    {
        if event_types.len() > 100 {
            return Err(AppError::BadRequest("event_types: max 100 entries".to_string()));
        }
        let prefix = chars_of("evt_");
        let mut i: usize = 0;
        while i < event_types.len()
            invariant
                i <= event_types@.len(),
                event_types@.len() <= 100,
                prefix@ == "evt_"@,
                first_bad_event_type(event_types@, 0) == first_bad_event_type(event_types@, i as int),
            decreases event_types@.len() - i,
        {
            let et = event_types[i].as_str();
            let chars = chars_of(et);
            if !starts_with_chars(&chars, &prefix) || et.as_bytes().len() != 20 {
                assert(!event_type_id_ok(event_types@[i as int]@));
                return Err(AppError::BadRequest(concat3("event_types: invalid id '", et, "' (expected evt_<16 chars>)")));
            }
            i = i + 1;
        }
        Ok(())
    }

    /// At most 20 tags, keys of at most 128 and values of at most 256 bytes.
    pub fn validate_tags(tags: &Vec<(String, String)>) -> (r: Result<(), AppError>)
        requires
            distinct_keys(tags@),
        ensures
            answers(endpoint_tags_problem(tags@), r),
    {
        match find_tag_problem(tags, 20, 128, 256) {
            Some(TagProblem::TooManyEntries) => Err(AppError::BadRequest("tags: max 20 entries".to_string())),
            Some(TagProblem::KeyTooLong) => Err(AppError::BadRequest("tags: key exceeds 128 chars".to_string())),
            Some(TagProblem::ValueTooLong) => Err(AppError::BadRequest("tags: value exceeds 256 chars".to_string())),
            None => Ok(()),
        }
    }

    /// A rate limit must lie in `1..=100000` per minute.
    pub fn validate_rate_limit(rl: i32) -> (r: Result<(), AppError>)
        ensures
            answers(rate_limit_problem(rl), r),
    {
        if !(1 <= rl && rl <= 100_000) {
            return Err(AppError::BadRequest("rate_limit_per_minute must be between 1 and 100000".to_string()));
        }
        Ok(())
    }

    /// The checks a creation request faces, in order: configuration, event types, tags, rate limit.
    pub fn check_create(req: &CreateEndpointRequest, parsed: &Result<HttpConfig, String>) -> (r: Result<(), AppError>)
        requires
            distinct_keys(req.tags@),
        ensures
            answers(create_problem(*req, *parsed), r),
    {
        proof {
            lemma_first_problem4(http_config_problem(*parsed), event_types_problem(req.event_types@),
                endpoint_tags_problem(req.tags@), create_rate_limit_problem(*req));
        }
        match Self::validate_http_config(parsed) {
            Err(e) => return Err(e),
            Ok(()) => {},
        }
        match Self::validate_event_types(&req.event_types) {
            Err(e) => return Err(e),
            Ok(()) => {},
        }
        match Self::validate_tags(&req.tags) {
            Err(e) => return Err(e),
            Ok(()) => {},
        }
        match req.rate_limit_per_minute {
            Some(rl) => Self::validate_rate_limit(rl),
            None => Ok(()),
        }
    }

    /// The checks an update faces: each field it gives, in the same order as for creation.
    pub fn check_update(req: &UpdateEndpointRequest, parsed: &Option<Result<HttpConfig, String>>) -> (r: Result<(), AppError>)
        requires
            req.tags matches Some(t) ==> distinct_keys(t@),
        ensures
            answers(update_problem(*req, *parsed), r),
    {
        proof {
            lemma_first_problem4(update_config_problem(*parsed), update_event_types_problem(*req),
                update_tags_problem(*req), update_rate_limit_problem(*req));
        }
        match parsed {
            Some(p) => match Self::validate_http_config(p) {
                Err(e) => return Err(e),
                Ok(()) => {},
            },
            None => {},
        }
        match &req.event_types {
            Some(e) => match Self::validate_event_types(e) {
                Err(e) => return Err(e),
                Ok(()) => {},
            },
            None => {},
        }
        match &req.tags {
            Some(t) => match Self::validate_tags(t) {
                Err(e) => return Err(e),
                Ok(()) => {},
            },
            None => {},
        }
        match req.rate_limit_per_minute {
            Some(Some(rl)) => Self::validate_rate_limit(rl),
            _ => Ok(()),
        }
    }

    /// The endpoint's application, or `NotFound` naming it.
    pub fn require_application<T>(found: Option<T>, application_id: &str) -> (r: Result<T, AppError>)
        ensures
            found matches Some(x) ==> r == Ok::<T, AppError>(x),
            found is None ==> (r matches Err(AppError::NotFound(m)) && m@ == "Application not found: "@ + application_id@),
    {
        require_found(found, "Application not found: ", application_id)
    }

    /// A fetched, paused, resumed or rotated endpoint, or `NotFound` naming it.
    pub fn require_endpoint<T>(found: Option<T>, public_id: &str) -> (r: Result<T, AppError>)
        ensures
            found matches Some(x) ==> r == Ok::<T, AppError>(x),
            found is None ==> (r matches Err(AppError::NotFound(m)) && m@ == "Endpoint not found: "@ + public_id@),
    {
        require_found(found, "Endpoint not found: ", public_id)
    }

    /// What an update that changed no row answers: a version conflict when the
    /// endpoint still exists, `NotFound` when it does not.
    pub fn update_refusal(still_exists: bool, public_id: &str) -> (r: AppError)
        ensures
            still_exists ==> (r matches AppError::Conflict(m, errs)
                && m@ == "version mismatch \u{2014} fetch the latest version and retry"@ && errs@.len() == 0),
            !still_exists ==> (r matches AppError::NotFound(m) && m@ == "Endpoint not found: "@ + public_id@),
    {
        if still_exists {
            AppError::Conflict("version mismatch \u{2014} fetch the latest version and retry".to_string(), Vec::new())
        } else {
            AppError::NotFound(concat2("Endpoint not found: ", public_id))
        }
    }

    /// The grace period of a rotation: 0 seconds unless given, at most a day.
    pub fn rotation_expiry(expiry_seconds: Option<u32>) -> (r: Result<u32, AppError>)
        ensures
            ({
                let e = match expiry_seconds {
                    Some(s) => s,
                    None => 0u32,
                };
                &&& e <= 86_400 ==> r == Ok::<u32, AppError>(e)
                &&& e > 86_400 ==> (r matches Err(AppError::BadRequest(m)) && m@ == "expiry_seconds must be between 0 and 86400"@)
            }),
    {
        let expiry = match expiry_seconds {
            Some(s) => s,
            None => 0,
        };
        if expiry > 86_400 {
            return Err(AppError::BadRequest("expiry_seconds must be between 0 and 86400".to_string()));
        }
        Ok(expiry)
    }

    /// A new signing secret for the tenant: `whsec_` and 32 random bytes in URL-safe
    /// base64, with its envelope for the store, which decrypts back to it.
    pub fn issue_secret(&self, tenant_id: u128) -> (r: Result<(String, String), AppError>)
        ensures
            r matches Ok((plaintext, envelope)) ==> exists|bytes: Seq<u8>| bytes.len() == 32
                && plaintext@ == "whsec_"@ + #[trigger] base64_url_encode(bytes),
            r matches Ok((plaintext, envelope)) ==> decryption_result(self.crypto.master(), tenant_id, encode_utf8(envelope@))
                == Ok::<Seq<char>, crate::common::crypto::EnvelopeError>(plaintext@),
            r matches Ok((plaintext, envelope)) ==> envelope_nonce_fits(encode_utf8(envelope@)),
            r matches Err(e) ==> (e matches AppError::Internal(m) && m@ == "encryption failed"@),
    {
        let plaintext = TenantCrypto::generate_webhook_secret();
        match self.crypto.encrypt(tenant_id, plaintext.as_str()) {
            Ok(envelope) => Ok((plaintext, envelope)),
            Err(e) => Err(e),
        }
    }

    /// The plaintext of a stored secret.
    pub fn reveal_secret(&self, row: SecretRow) -> (r: Result<SecretResponse, AppError>)
        requires
            envelope_nonce_fits(encode_utf8(row.secret@)),
        ensures
            decryption_result(self.crypto.master(), row.tenant_id, encode_utf8(row.secret@)) matches Ok(p) ==> (r matches Ok(s)
                && s.id == row.public_id && s.secret@ == p && s.created_at == row.created_at),
            decryption_result(self.crypto.master(), row.tenant_id, encode_utf8(row.secret@)) matches Err(e) ==> (r matches Err(AppError::Internal(m))
                && m@ == tenant_envelope_message(e)),
    {
        match self.crypto.decrypt(row.tenant_id, row.secret.as_str()) {
            Ok(plaintext) => Ok(SecretResponse { id: row.public_id, secret: plaintext, created_at: row.created_at }),
            Err(e) => Err(e),
        }
    }

    /// A page of endpoints in their response shape, with the page coordinates as asked.
    pub fn list_response(rows: Vec<EndpointRow>, total: i64, page: u32, limit: u32) -> (r: PaginatedResponse<EndpointResponse>)
        ensures
            r.items@.len() == rows@.len(),
            forall|i: int| 0 <= i < rows@.len() ==> (#[trigger] r.items@[i]).id == rows@[i].public_id,
            forall|i: int| 0 <= i < rows@.len() ==> shows_endpoint_row(#[trigger] r.items@[i], rows@[i]),
            r.total == total,
            r.page == page as i32,
            r.limit == limit as i32,
    {
        let mut items: Vec<EndpointResponse> = Vec::new();
        let mut rest = rows;
        let ghost given = rest@;
        while rest.len() > 0
            invariant
                items@.len() + rest@.len() == given.len(),
                rest@ == given.subrange(items@.len() as int, given.len() as int),
                forall|i: int| 0 <= i < items@.len() ==> (#[trigger] items@[i]).id == given[i].public_id,
                forall|i: int| 0 <= i < items@.len() ==> shows_endpoint_row(#[trigger] items@[i], given[i]),
            decreases rest@.len(),
        {
            let row = rest.remove(0);
            proof {
                assert(row == given[items@.len() as int]);
            }
            items.push(EndpointResponse::from(row));
        }
        PaginatedResponse { items, total, page: #[verifier::truncate] (page as i32), limit: #[verifier::truncate] (limit as i32) }
    }
}

/// Listing endpoints shows every stored endpoint as it is, at its own position:
/// its status (a paused endpoint is listed as paused), configuration, event
/// types, rate limit, tags, description, creators and dates.
pub proof fn law_endpoint_listing_shows_each_endpoint_as_stored(
    rows: Vec<EndpointRow>,
    total: i64,
    page: u32,
    limit: u32,
    r: PaginatedResponse<EndpointResponse>,
)
    requires
        call_ensures(EndpointService::<()>::list_response, (rows, total, page, limit), r),
    ensures
        r.items@.len() == rows@.len(),
        r.total == total,
        forall|i: int| 0 <= i < rows@.len() ==> {
            let item = #[trigger] r.items@[i];
            let row = rows@[i];
            &&& item.id == row.public_id
            &&& item.application_id == row.application_public_id
            &&& item.status == row.status
            &&& item.description == row.description
            &&& item.endpoint_type == row.endpoint_type
            &&& item.config == row.config
            &&& item.event_types == row.event_types
            &&& item.rate_limit_per_minute == row.rate_limit_per_minute
            &&& item.tags == row.tags
            &&& item.created_by == row.created_by
            &&& item.updated_by == row.updated_by
            &&& item.created_at == row.created_at
            &&& item.updated_at == row.updated_at
        },
{
    assert forall|i: int| 0 <= i < rows@.len() implies shows_endpoint_row(#[trigger] r.items@[i], rows@[i]) by {}
}

} // verus!
