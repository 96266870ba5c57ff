//! The decisions of the event service: the checks a new event faces, how a
//! schema check's findings become schema errors, what an idempotent replay
//! answers, how the outcomes of a bulk request are tallied and how a listing
//! is shaped.
use crate::common::codec::{json_schema_outcome, json_schema_violations, trim_start_text, trimmed_start, violations_view};
use crate::common::text::{chars_of, find, find_char_from, starts_with, starts_with_chars, string_from_chars, sub_chars};
use crate::common::types::PaginatedResponse;
use crate::common::validators::{distinct_keys, tag_problem, tag_problem_message, validate_tags};
use crate::error::{lemma_find_from_occurs, code_of, public_message_of, require_found, status_of, AppError};
use crate::features::events::models::{
    event_response_of, BulkCreateEventItem, BulkCreateResponse, BulkEventError, BulkEventResultItem, CreateEventRequest, EventResponse,
    EventRow, JsonKind, JsonPayload, PayloadType, SchemaError,
};
use vstd::prelude::*;
use vstd::string::StringSliceAdditionalSpecFns;
use vstd::utf8::encode_utf8;

verus! {

/// The event service, over an event store `R`, a delivery store `D`, a
/// subscription store `S` and a queue connection `Q`.
pub struct EventService<R, D, S, Q> {
    pub repo: R,
    pub delivery: D,
    pub subscriptions: S,
    pub redis: Q,
}

/// The largest payload accepted, in bytes of its JSON text (512 KB).
pub const MAX_PAYLOAD_BYTES: usize = 524288;

/// What checking a payload against its declared type and size answers.
pub open spec fn payload_outcome(payload: JsonPayload, payload_type: PayloadType, r: Result<(), AppError>) -> bool {
    if payload_type == PayloadType::Json && payload.kind != JsonKind::Object {
        r matches Err(AppError::BadRequest(m)) && m@ == "payload must be a JSON object when payload_type is 'json'"@
    } else if payload_type == PayloadType::Text && payload.kind != JsonKind::String {
        r matches Err(AppError::BadRequest(m)) && m@ == "payload must be a string when payload_type is 'text'"@
    } else if encode_utf8(payload.text@).len() > MAX_PAYLOAD_BYTES {
        r matches Err(AppError::BadRequest(m)) && m@ == "payload exceeds 512 KB limit"@
    } else {
        r is Ok
    }
}

/// What the checks of a new event answer: its payload first, then its tags.
pub open spec fn request_check_of(req: CreateEventRequest, r: Result<(), AppError>) -> bool {
    if !payload_outcome(req.payload, req.payload_type, Ok(())) {
        payload_outcome(req.payload, req.payload_type, r)
    } else {
        &&& tag_problem(req.tags@, 5, 64, 255) is None ==> r is Ok
        &&& tag_problem(req.tags@, 5, 64, 255) matches Some(p) ==> (r matches Err(AppError::BadRequest(m))
            && m@ == tag_problem_message(p))
    }
}

/// What the schema check of a new event gives: text payloads are not checked,
/// JSON payloads are checked against the schema text.
pub open spec fn schema_check_of(payload_type: PayloadType, schema: Seq<char>, payload: JsonPayload, r: (bool, Vec<SchemaError>)) -> bool {
    if payload_type == PayloadType::Text {
        r.0 && r.1@.len() == 0
    } else {
        schema_result_of(json_schema_outcome(schema, payload.text@), r)
    }
}

/// What an idempotency key used before by `row` decides for a request whose body hashes to `hash`.
pub open spec fn replay_of(row: EventRow, hash: Seq<u8>, r: Result<Option<EventResponse>, AppError>) -> bool {
    if row.body_hash matches Some(h) && h@ == hash {
        r == Ok::<Option<EventResponse>, AppError>(Some(event_response_of(row)))
    } else {
        r matches Err(AppError::Conflict(m, errs)) && m@ == "Idempotency key already used with a different request body"@
            && errs@.len() == 0
    }
}

/// The field named by a jsonschema "required" message `"<field>" is a required property`.
pub open spec fn required_field(msg: Seq<char>) -> Option<Seq<char>> {
    if msg.len() > 0 && msg[0] == '"' {
        let rest = msg.subrange(1, msg.len() as int);
        match find(rest, seq!['"']) {
            Some(k) => if starts_with(trimmed_start(rest.subrange(k + 1, rest.len() as int)), "is a required property"@) {
                Some(rest.subrange(0, k))
            } else {
                None
            },
            None => None,
        }
    } else {
        None
    }
}

/// A JSON pointer without its leading slashes.
pub open spec fn strip_leading_slashes(p: Seq<char>) -> Seq<char>
    decreases p.len(),
{
    if p.len() > 0 && p[0] == '/' {
        strip_leading_slashes(p.subrange(1, p.len() as int))
    } else {
        p
    }
}

/// A JSON pointer as a dotted field path: leading slashes dropped, the others made dots.
pub open spec fn dotted_path(p: Seq<char>) -> Seq<char> {
    let q = strip_leading_slashes(p);
    Seq::new(q.len(), |i: int| if q[i] == '/' { '.' } else { q[i] })
}

/// A field path made from a JSON pointer holds no slash.
pub proof fn law_dotted_path_has_no_slash(p: Seq<char>)
    ensures
        forall|i: int| 0 <= i < dotted_path(p).len() ==> dotted_path(p)[i] != '/',
{
}

/// The field and message of the schema error for a violation with message
/// `raw` at instance location `path`: at the root it is a missing property.
pub open spec fn schema_error_parts(raw: Seq<char>, path: Seq<char>) -> (Seq<char>, Seq<char>) {
    if path.len() == 0 {
        (match required_field(raw) {
            Some(f) => f,
            None => Seq::empty(),
        }, "Missing required property"@)
    } else {
        (dotted_path(path), raw)
    }
}

/// What the findings of a schema check give: valid with no errors when the
/// check could not run, otherwise one schema error per violation, in order.
pub open spec fn schema_result_of(found: Option<Seq<(Seq<char>, Seq<char>)>>, r: (bool, Vec<SchemaError>)) -> bool {
    match found {
        None => r.0 && r.1@.len() == 0,
        Some(v) => {
            &&& r.0 == (v.len() == 0)
            &&& r.1@.len() == v.len()
            &&& forall|i: int| 0 <= i < v.len() ==> (#[trigger] r.1@[i]).field@ == schema_error_parts(v[i].0, v[i].1).0
                && r.1@[i].message@ == schema_error_parts(v[i].0, v[i].1).1
        },
    }
}

/// The outcome recorded for the next event of a bulk request.
pub open spec fn bulk_item_of(index: int, outcome: Result<(EventResponse, bool), AppError>, item: BulkEventResultItem) -> bool {
    &&& item.index == index
    &&& match outcome {
        Ok((ev, created)) => item.status == (if created { 201u16 } else { 200u16 }) && item.event == Some(ev) && item.error is None,
        Err(e) => item.status == status_of(e) && item.event is None && (item.error matches Some(be)
            && be.code@ == code_of(e) && be.message@ == public_message_of(e)),
    }
}

impl BulkCreateResponse {
    /// Every outcome sits at its own position, and each counted once as a success or a failure.
    pub open spec fn wf(&self) -> bool {
        &&& self.succeeded + self.failed == self.results@.len()
        &&& forall|i: int| 0 <= i < self.results@.len() ==> (#[trigger] self.results@[i]).index == i
    }

    /// A tally with no outcomes.
    pub fn new() -> (r: Self)
        ensures
            r.wf(),
            r.results@.len() == 0,
            r.succeeded == 0,
            r.failed == 0,
    {
        BulkCreateResponse { results: Vec::new(), succeeded: 0, failed: 0 }
    }

    /// Records the outcome of the next event: 201 for a new event, 200 for a
    /// replay, the error's status, code and message for a failure.
    pub fn record(&mut self, outcome: Result<(EventResponse, bool), AppError>)
        requires
            old(self).wf(),
            old(self).results@.len() < usize::MAX,
        ensures
            final(self).wf(),
            final(self).results@.len() == old(self).results@.len() + 1,
            final(self).results@.subrange(0, old(self).results@.len() as int) == old(self).results@,
            bulk_item_of(old(self).results@.len() as int, outcome, final(self).results@.last()),
            outcome is Ok ==> final(self).succeeded == old(self).succeeded + 1 && final(self).failed == old(self).failed,
            outcome is Err ==> final(self).failed == old(self).failed + 1 && final(self).succeeded == old(self).succeeded,
    {
        let index = self.results.len();
        let ghost before = self.results@;
        match outcome {
            Ok((ev, created)) => {
                let status: u16 = if created { 201 } else { 200 };
                self.results.push(BulkEventResultItem { index, status, event: Some(ev), error: None });
                self.succeeded = self.succeeded + 1;
            },
            Err(e) => {
                let (status, code, message) = e.to_error_info();
                self.results.push(BulkEventResultItem {
                    index,
                    status,
                    event: None,
                    error: Some(BulkEventError { code: code.to_string(), message }),
                });
                self.failed = self.failed + 1;
            },
        }
        proof {
            assert(self.results@.subrange(0, before.len() as int) =~= before);
            assert forall|i: int| 0 <= i < self.results@.len() implies (#[trigger] self.results@[i]).index == i by {
                if i < before.len() {
                    assert(self.results@[i] == before[i]);
                }
            }
        }
    }
}

impl<R, D, S, Q> EventService<R, D, S, Q> {
    pub fn new(repo: R, delivery: D, subscriptions: S, redis: Q) -> (r: Self)
        ensures
            r.repo == repo,
            r.delivery == delivery,
            r.subscriptions == subscriptions,
            r.redis == redis,
    {
        EventService { repo, delivery, subscriptions, redis }
    }

    /// A JSON payload must be an object, a text payload a string, and its JSON
    /// text may take at most 512 KB.
    pub fn validate_payload(payload: &JsonPayload, payload_type: &PayloadType) -> (r: Result<(), AppError>)
        ensures
            payload_outcome(*payload, *payload_type, r),
    {
        match payload_type {
            PayloadType::Json => {
                if payload.kind != JsonKind::Object {
                    return Err(AppError::BadRequest(
                        "payload must be a JSON object when payload_type is 'json'".to_string(),
                    ));
                }
            },
            PayloadType::Text => {
                if payload.kind != JsonKind::String {
                    return Err(AppError::BadRequest("payload must be a string when payload_type is 'text'".to_string()));
                }
            },
        }
        if payload.text.as_str().as_bytes().len() > MAX_PAYLOAD_BYTES {
            return Err(AppError::BadRequest("payload exceeds 512 KB limit".to_string()));
        }
        Ok(())
    }

    /// The checks a new event faces before anything is looked up: its payload, then its tags.
    pub fn check_request(req: &CreateEventRequest) -> (r: Result<(), AppError>)
        requires
            distinct_keys(req.tags@),
        ensures
            request_check_of(*req, r),
    {
        match Self::validate_payload(&req.payload, &req.payload_type) {
            Err(e) => Err(e),
            Ok(()) => validate_tags(&req.tags),
        }
    }

    /// The event's application, or `NotFound` naming it.
    pub fn require_application<T>(found: Option<T>, application_id: &str) -> (r: Result<T, AppError>)
        ensures
            found matches Some(x) ==> r == Ok::<T, AppError>(x),
            found is None ==> (r matches Err(AppError::NotFound(m)) && m@ == "Application not found: "@ + application_id@),
    {
        require_found(found, "Application not found: ", application_id)
    }

    /// The event's type (live, in the requested schema version), or `NotFound` naming it.
    pub fn require_event_type<T>(found: Option<T>, event_type_id: &str) -> (r: Result<T, AppError>)
        ensures
            found matches Some(x) ==> r == Ok::<T, AppError>(x),
            found is None ==> (r matches Err(AppError::NotFound(m)) && m@ == "Event type not found or archived: "@ + event_type_id@),
    {
        require_found(found, "Event type not found or archived: ", event_type_id)
    }

    /// A fetched event, or `NotFound` naming it.
    pub fn require_event<T>(found: Option<T>, public_id: &str) -> (r: Result<T, AppError>)
        ensures
            found matches Some(x) ==> r == Ok::<T, AppError>(x),
            found is None ==> (r matches Err(AppError::NotFound(m)) && m@ == "Event not found: "@ + public_id@),
    {
        require_found(found, "Event not found: ", public_id)
    }

    /// The field of a message `"<field>" is a required property`, if it is one.
    pub fn extract_required_field(msg: &str) -> (r: Option<String>)
        ensures
            r matches Some(f) ==> required_field(msg@) == Some(f@),
            r is None ==> required_field(msg@) is None,
    {
        let chars = chars_of(msg);
        if chars.len() == 0 || chars[0] != '"' {
            return None;
        }
        let rest = sub_chars(&chars, 1, chars.len());
        match find_char_from(&rest, '"', 0) {
            None => {
                proof {
                    assert(find(rest@, seq!['"']) is None);
                }
                None
            },
            Some(k) => {
                proof {
                    assert(find(rest@, seq!['"']) == Some(k as int));
                    lemma_find_from_occurs(rest@, seq!['"'], 0);
                }
                let after = sub_chars(&rest, k + 1, rest.len());
                let after_text = string_from_chars(after.as_slice());
                let trimmed = trim_start_text(after_text.as_str());
                let tail = chars_of(trimmed);
                let marker = chars_of("is a required property");
                if starts_with_chars(&tail, &marker) {
                    let field = sub_chars(&rest, 0, k);
                    Some(string_from_chars(field.as_slice()))
                } else {
                    None
                }
            },
        }
    }

    /// A JSON pointer as a dotted field path.
    pub fn dotted_path_text(path: &str) -> (r: String)
        ensures
            r@ == dotted_path(path@),
    {
        let chars = chars_of(path);
        let mut start: usize = 0;
        assert(chars@.subrange(0, chars@.len() as int) =~= chars@);
        while start < chars.len() && chars[start] == '/'
            invariant
                start <= chars@.len(),
                strip_leading_slashes(chars@) == strip_leading_slashes(chars@.subrange(start as int, chars@.len() as int)),
            decreases chars@.len() - start,
        {
            proof {
                let s = chars@.subrange(start as int, chars@.len() as int);
                assert(s.subrange(1, s.len() as int) =~= chars@.subrange(start + 1, chars@.len() as int));
            }
            start = start + 1;
        }
        let ghost q = chars@.subrange(start as int, chars@.len() as int);
        assert(strip_leading_slashes(q) == q);
        let mut out: Vec<char> = Vec::new();
        let mut i: usize = start;
        while i < chars.len()
            invariant
                start <= i <= chars@.len(),
                q == chars@.subrange(start as int, chars@.len() as int),
                out@.len() == i - start,
                forall|j: int| 0 <= j < out@.len() ==> out@[j] == (if q[j] == '/' { '.' } else { q[j] }),
            decreases chars@.len() - i,
        {
            let c = chars[i];
            out.push(if c == '/' { '.' } else { c });
            i = i + 1;
        }
        assert(out@ =~= dotted_path(path@));
        string_from_chars(out.as_slice())
    }

    /// The schema error for a violation with message `raw` at instance location `path`.
    pub fn schema_error_of(raw: String, path: String) -> (r: SchemaError)
        ensures
            r.field@ == schema_error_parts(raw@, path@).0,
            r.message@ == schema_error_parts(raw@, path@).1,
    {
        if path.unicode_len() == 0 {
            let field = match Self::extract_required_field(raw.as_str()) {
                Some(f) => f,
                None => String::new(),
            };
            SchemaError { field, message: "Missing required property".to_string() }
        } else {
            SchemaError { field: Self::dotted_path_text(path.as_str()), message: raw }
        }
    }

    /// Turns the findings of a schema check into the event's validity and schema errors.
    pub fn schema_result(found: Option<Vec<(String, String)>>) -> (r: (bool, Vec<SchemaError>))
        ensures
            schema_result_of(violations_view(found), r),
    {
        match found {
            None => (true, Vec::new()),
            Some(list) => {
                let ghost v = violations_view(Some(list)).unwrap();
                let mut errors: Vec<SchemaError> = Vec::new();
                let mut i: usize = 0;
                while i < list.len()
                    invariant
                        i <= list@.len(),
                        v.len() == list@.len(),
                        forall|k: int| 0 <= k < list@.len() ==> v[k] == (#[trigger] list@[k].0@, list@[k].1@),
                        errors@.len() == i,
                        forall|k: int| 0 <= k < i ==> (#[trigger] errors@[k]).field@ == schema_error_parts(v[k].0, v[k].1).0
                            && errors@[k].message@ == schema_error_parts(v[k].0, v[k].1).1,
                    decreases list@.len() - i,
                {
                    let raw = list[i].0.clone();
                    let path = list[i].1.clone();
                    assert(v[i as int] == (list@[i as int].0@, list@[i as int].1@));
                    errors.push(Self::schema_error_of(raw, path));
                    i = i + 1;
                }
                (list.len() == 0, errors)
            },
        }
    }

    /// Checks a JSON payload against the event type's schema (JSON text).
    pub fn validate_against_schema(schema: &str, payload: &JsonPayload) -> (r: (bool, Vec<SchemaError>))
        ensures
            schema_result_of(json_schema_outcome(schema@, payload.text@), r),
    {
        let found = json_schema_violations(schema, payload.text.as_str());
        Self::schema_result(found)
    }

    /// The schema check of a new event: text payloads are not checked.
    pub fn schema_check(payload_type: &PayloadType, schema: &str, payload: &JsonPayload) -> (r: (bool, Vec<SchemaError>))
        ensures
            schema_check_of(*payload_type, schema@, *payload, r),
    {
        match payload_type {
            PayloadType::Text => (true, Vec::new()),
            PayloadType::Json => Self::validate_against_schema(schema, payload),
        }
    }

    /// What an idempotency key that may have been used before decides: a new
    /// event when it was not, a replay of the stored event when its body hash is
    /// the same, a conflict otherwise.
    pub fn replay_decision(existing: Option<EventRow>, hash: &[u8]) -> (r: Result<Option<EventResponse>, AppError>)
        ensures
            existing is None ==> r == Ok::<Option<EventResponse>, AppError>(None),
            existing matches Some(row) ==> replay_of(row, hash@, r),
    {
        match existing {
            None => Ok(None),
            Some(row) => {
                let same = match &row.body_hash {
                    Some(h) => bytes_eq(h.as_slice(), hash),
                    None => false,
                };
                if same {
                    Ok(Some(EventResponse::from(row)))
                } else {
                    Err(AppError::Conflict("Idempotency key already used with a different request body".to_string(), Vec::new()))
                }
            },
        }
    }

    /// The single-event request and idempotency key of one bulk item.
    pub fn bulk_item_request(item: BulkCreateEventItem) -> (r: (CreateEventRequest, Option<String>))
        ensures
            r.0.application_id == item.application_id,
            r.0.event_type_id == item.event_type_id,
            r.0.schema_version == item.schema_version,
            r.0.payload == item.payload,
            r.0.payload_type == item.payload_type,
            r.0.tags == item.tags,
            r.1 == item.idempotency_key,
    {
        (CreateEventRequest {
            application_id: item.application_id,
            event_type_id: item.event_type_id,
            schema_version: item.schema_version,
            payload: item.payload,
            payload_type: item.payload_type,
            tags: item.tags,
        }, item.idempotency_key)
    }

    /// A page of events in their response shape, with the page coordinates as asked.
    pub fn list_response(rows: Vec<EventRow>, total: i64, page: u32, limit: u32) -> (r: PaginatedResponse<EventResponse>)
        ensures
            r.items@.len() == rows@.len(),
            forall|i: int| 0 <= i < rows@.len() ==> (#[trigger] r.items@[i]).id == rows@[i].public_id,
            forall|i: int| 0 <= i < rows@.len() ==> #[trigger] r.items@[i] == event_response_of(rows@[i]),
            r.total == total,
            r.page == page as i32,
            r.limit == limit as i32,
    {
        let mut items: Vec<EventResponse> = Vec::new();
        let mut rest = rows;
        let ghost given = rest@;
        while rest.len() > 0
            invariant
                items@.len() + rest@.len() == given.len(),
                rest@ == given.subrange(items@.len() as int, given.len() as int),
                forall|i: int| 0 <= i < items@.len() ==> (#[trigger] items@[i]).id == given[i].public_id,
                forall|i: int| 0 <= i < items@.len() ==> #[trigger] items@[i] == event_response_of(given[i]),
            decreases rest@.len(),
        {
            let row = rest.remove(0);
            proof {
                assert(row == given[items@.len() as int]);
            }
            items.push(EventResponse::from(row));
        }
        PaginatedResponse { items, total, page: #[verifier::truncate] (page as i32), limit: #[verifier::truncate] (limit as i32) }
    }
}

/// Listing events shows every stored event as it is, at its own position: the
/// same ids, payload, tags, idempotency key and creator, and the same schema
/// verdict with the same schema errors.
pub proof fn law_event_listing_shows_each_event_as_stored(
    rows: Vec<EventRow>,
    total: i64,
    page: u32,
    limit: u32,
    r: PaginatedResponse<EventResponse>,
)
    requires
        call_ensures(EventService::<(), (), (), ()>::list_response, (rows, total, page, limit), r),
    ensures
        r.items@.len() == rows@.len(),
        forall|i: int| 0 <= i < rows@.len() ==> {
            let item = #[trigger] r.items@[i];
            let row = rows@[i];
            &&& item.id == row.public_id
            &&& item.application_id == row.application_public_id
            &&& item.event_type_id == row.event_type_public_id
            &&& item.event_type_name == row.event_type_name
            &&& item.endpoint_id == row.endpoint_public_id
            &&& item.payload == row.payload
            &&& item.payload_type == row.payload_type
            &&& item.idempotency_key == row.idempotency_key
            &&& item.tags == row.tags
            &&& item.schema_valid == row.schema_valid
            &&& item.schema_errors == row.schema_errors
            &&& item.created_by == row.created_by
            &&& item.created_at == row.created_at
        },
{
    assert forall|i: int| 0 <= i < rows@.len() implies #[trigger] r.items@[i] == event_response_of(rows@[i]) by {}
}

/// Whether two byte strings are equal.
pub fn bytes_eq(a: &[u8], b: &[u8]) -> (r: bool)
    ensures
        r == (a@ == b@),
{
    if a.len() != b.len() {
        return false;
    }
    let mut i: usize = 0;
    while i < a.len()
        invariant
            i <= a@.len(),
            a@.len() == b@.len(),
            forall|k: int| 0 <= k < i ==> a@[k] == b@[k],
        decreases a@.len() - i,
    {
        if a[i] != b[i] {
            return false;
        }
        i = i + 1;
    }
    assert(a@ =~= b@);
    true
}

} // verus!
