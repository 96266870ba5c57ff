//! Events: the payload as the service sees it, the stored row, the single and
//! bulk creation requests, listing parameters and the response shapes.
use crate::error::AppError;
use vstd::prelude::*;

verus! {

/// One violation of an event type's schema: the field (dotted path) and why.
#[derive(Debug, Clone)]
pub struct SchemaError {
    pub field: String,
    pub message: String,
}

/// How an event's payload is to be read.
#[derive(Debug, PartialEq, Eq, Structural, Clone, Copy)]
pub enum PayloadType {
    Json,
    Text,
}

pub open spec fn payload_type_text(t: PayloadType) -> Seq<char> {
    match t {
        PayloadType::Json => "json"@,
        PayloadType::Text => "text"@,
    }
}

impl PayloadType {
    pub fn as_str(&self) -> (r: &'static str)
        ensures
            r@ == payload_type_text(*self),
    {
        match self {
            PayloadType::Json => "json",
            PayloadType::Text => "text",
        }
    }
}

impl Default for PayloadType {
    fn default() -> (r: Self)
        ensures
            r == PayloadType::Json,
    {
        PayloadType::Json
    }
}

/// The kind of a JSON value.
#[derive(Debug, PartialEq, Eq, Structural, Clone, Copy)]
pub enum JsonKind {
    Null,
    Bool,
    Number,
    String,
    Array,
    Object,
}

/// A JSON payload: its kind and its compact JSON text.
#[derive(Debug, Clone)]
pub struct JsonPayload {
    pub kind: JsonKind,
    pub text: String,
}

impl JsonPayload {
    /// A copy of the payload.
    pub fn duplicate(&self) -> (r: Self)
        ensures
            r == *self,
    {
        JsonPayload { kind: self.kind, text: self.text.clone() }
    }
}

/// A stored event. Identifiers are UUIDs as 128-bit numbers, times are
/// microseconds since the epoch, tags are key-value pairs in stored order.
pub struct EventRow {
    pub id: u128,
    pub public_id: String,
    pub application_id: u128,
    pub application_public_id: String,
    pub event_type_id: u128,
    pub event_type_public_id: String,
    pub event_type_name: String,
    pub endpoint_id: Option<u128>,
    pub endpoint_public_id: Option<String>,
    pub tenant_id: u128,
    pub organization_id: u128,
    pub payload: JsonPayload,
    pub payload_type: String,
    pub idempotency_key: Option<String>,
    pub body_hash: Option<Vec<u8>>,
    pub tags: Vec<(String, String)>,
    pub request_id: u128,
    pub created_by: u128,
    pub created_at: i64,
    pub schema_valid: bool,
    pub schema_errors: Vec<SchemaError>,
}

/// A request to publish one event.
pub struct CreateEventRequest {
    pub application_id: String,
    pub event_type_id: String,
    pub schema_version: Option<String>,
    pub payload: JsonPayload,
    pub payload_type: PayloadType,
    pub tags: Vec<(String, String)>,
}

/// Filters and page of an event listing.
pub struct ListQueryParams {
    pub application_id: String,
    pub page: u32,
    pub limit: u32,
    pub event_type_id: Option<String>,
    pub before: Option<i64>,
    pub after: Option<i64>,
    pub tags: Option<Vec<(String, String)>>,
}

/// The page a listing shows when none is asked for.
pub fn default_page() -> (r: u32)
    ensures
        r == 1,
{
    1
}

/// The page size a listing uses when none is asked for.
pub fn default_limit() -> (r: u32)
    ensures
        r == 20,
{
    20
}

/// One event of a bulk request, with its own idempotency key.
pub struct BulkCreateEventItem {
    pub application_id: String,
    pub event_type_id: String,
    pub schema_version: Option<String>,
    pub payload: JsonPayload,
    pub payload_type: PayloadType,
    pub tags: Vec<(String, String)>,
    pub idempotency_key: Option<String>,
}

pub struct BulkCreateEventRequest {
    pub events: Vec<BulkCreateEventItem>,
}

/// Why one event of a bulk request failed.
pub struct BulkEventError {
    pub code: String,
    pub message: String,
}

/// The outcome of one event of a bulk request, at its position `index`.
pub struct BulkEventResultItem {
    pub index: usize,
    pub status: u16,
    pub event: Option<EventResponse>,
    pub error: Option<BulkEventError>,
}

/// The outcomes of a bulk request, with how many succeeded and failed.
pub struct BulkCreateResponse {
    pub results: Vec<BulkEventResultItem>,
    pub succeeded: usize,
    pub failed: usize,
}

/// An event as returned to callers.
pub struct EventResponse {
    pub id: String,
    pub application_id: String,
    pub event_type_id: String,
    pub event_type_name: String,
    pub endpoint_id: Option<String>,
    pub payload: JsonPayload,
    pub payload_type: String,
    pub idempotency_key: Option<String>,
    pub tags: Vec<(String, String)>,
    pub schema_valid: bool,
    pub schema_errors: Vec<SchemaError>,
    pub created_by: u128,
    pub created_at: i64,
}

/// The response shape of a stored event.
pub open spec fn event_response_of(row: EventRow) -> EventResponse {
    EventResponse {
        id: row.public_id,
        application_id: row.application_public_id,
        event_type_id: row.event_type_public_id,
        event_type_name: row.event_type_name,
        endpoint_id: row.endpoint_public_id,
        payload: row.payload,
        payload_type: row.payload_type,
        idempotency_key: row.idempotency_key,
        tags: row.tags,
        schema_valid: row.schema_valid,
        schema_errors: row.schema_errors,
        created_by: row.created_by,
        created_at: row.created_at,
    }
}

impl EventResponse {
    pub fn from(row: EventRow) -> (r: Self)
        ensures
            r == event_response_of(row),
            r.id == row.public_id,
            r.application_id == row.application_public_id,
            r.event_type_id == row.event_type_public_id,
            r.event_type_name == row.event_type_name,
            r.endpoint_id == row.endpoint_public_id,
            r.payload == row.payload,
            r.payload_type == row.payload_type,
            r.idempotency_key == row.idempotency_key,
            r.tags == row.tags,
            r.schema_valid == row.schema_valid,
            r.schema_errors == row.schema_errors,
            r.created_by == row.created_by,
            r.created_at == row.created_at,
    {
        EventResponse {
            id: row.public_id,
            application_id: row.application_public_id,
            event_type_id: row.event_type_public_id,
            event_type_name: row.event_type_name,
            endpoint_id: row.endpoint_public_id,
            payload: row.payload,
            payload_type: row.payload_type,
            idempotency_key: row.idempotency_key,
            tags: row.tags,
            schema_valid: row.schema_valid,
            schema_errors: row.schema_errors,
            created_by: row.created_by,
            created_at: row.created_at,
        }
    }
}

} // verus!
