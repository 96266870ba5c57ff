//! Endpoints: their kinds and HTTP configuration, the stored rows of endpoints
//! and their signing secrets, the requests that create, change, rotate and
//! list them, and the response shapes.
use crate::common::nano_id::{all_alphanumeric, NanoId};
use crate::common::text::concat2;
use vstd::prelude::*;

verus! {

/// How an endpoint receives deliveries.
#[derive(Debug, PartialEq, Eq, Structural, Clone, Copy)]
pub enum EndpointType {
    Http,
}

impl EndpointType {
    pub fn as_str(&self) -> (r: &'static str)
        ensures
            r@ == "http"@,
    {
        match self {
            EndpointType::Http => "http",
        }
    }
}

/// The configuration of an HTTP endpoint; headers are key-value pairs in given order.
pub struct HttpConfig {
    pub url: String,
    pub method: String,
    pub headers: Vec<(String, String)>,
}

impl HttpConfig {
    /// The method used when a configuration names none.
    pub fn default_method() -> (r: String)
        ensures
            r@ == "POST"@,
    {
        "POST".to_string()
    }
}

/// A stored endpoint; its configuration is JSON text. Identifiers are UUIDs as
/// 128-bit numbers, times microseconds since the epoch.
pub struct EndpointRow {
    pub id: u128,
    pub public_id: String,
    pub application_id: u128,
    pub application_public_id: String,
    pub tenant_id: u128,
    pub organization_id: u128,
    pub description: Option<String>,
    pub endpoint_type: String,
    pub config: String,
    pub event_types: Vec<String>,
    pub status: String,
    pub rate_limit_per_minute: Option<i32>,
    pub tags: Vec<(String, String)>,
    pub version: i32,
    pub request_id: u128,
    pub created_by: u128,
    pub updated_by: u128,
    pub created_at: i64,
    pub updated_at: i64,
}

/// A stored signing secret of an endpoint, encrypted for its tenant.
pub struct SecretRow {
    pub id: u128,
    pub public_id: String,
    pub endpoint_id: u128,
    pub tenant_id: u128,
    pub organization_id: u128,
    pub secret: String,
    pub is_active: bool,
    pub expires_at: Option<i64>,
    pub request_id: u128,
    pub created_by: u128,
    pub created_at: i64,
}

/// A request to create an endpoint; the configuration is JSON text.
pub struct CreateEndpointRequest {
    pub application_id: String,
    pub description: Option<String>,
    pub endpoint_type: EndpointType,
    pub config: String,
    pub event_types: Vec<String>,
    pub rate_limit_per_minute: Option<i32>,
    pub tags: Vec<(String, String)>,
}

/// A partial update at the version the caller last read. For the rate limit,
/// `None` leaves it, `Some(None)` clears it and `Some(Some(x))` sets it.
pub struct UpdateEndpointRequest {
    pub description: Option<String>,
    pub config: Option<String>,
    pub event_types: Option<Vec<String>>,
    pub rate_limit_per_minute: Option<Option<i32>>,
    pub tags: Option<Vec<(String, String)>>,
    pub version: i32,
}

/// A secret rotation: how many seconds the old secret stays valid (0 ends it at once).
pub struct RotateSecretRequest {
    pub expiry_seconds: Option<u32>,
}

/// Filters and page of an endpoint listing.
pub struct ListQueryParams {
    pub application_id: String,
    pub page: u32,
    pub limit: u32,
    pub status: Option<String>,
    pub endpoint_type: Option<String>,
    pub tags: Option<Vec<(String, String)>>,
}

/// The page a listing shows when none is asked for.
pub fn default_page() -> (r: u32)
    ensures
        r == 1,
{
    1
}

/// The page size a listing uses when none is asked for.
pub fn default_limit() -> (r: u32)
    ensures
        r == 20,
{
    20
}

/// An endpoint as returned to callers.
pub struct EndpointResponse {
    pub id: String,
    pub application_id: String,
    pub description: Option<String>,
    pub endpoint_type: String,
    pub config: String,
    pub event_types: Vec<String>,
    pub status: String,
    pub rate_limit_per_minute: Option<i32>,
    pub tags: Vec<(String, String)>,
    pub created_by: u128,
    pub updated_by: u128,
    pub created_at: i64,
    pub updated_at: i64,
}

/// A signing secret in plaintext, as returned to callers.
pub struct SecretResponse {
    pub id: String,
    pub secret: String,
    pub created_at: i64,
}

/// Whether `r` is the response shape of the stored endpoint `row`: every field
/// as stored, with the public ids in place of the internal ones.
pub open spec fn shows_endpoint_row(r: EndpointResponse, row: EndpointRow) -> bool {
    &&& r.id == row.public_id
    &&& r.application_id == row.application_public_id
    &&& r.description == row.description
    &&& r.endpoint_type == row.endpoint_type
    &&& r.config == row.config
    &&& r.event_types == row.event_types
    &&& r.status == row.status
    &&& r.rate_limit_per_minute == row.rate_limit_per_minute
    &&& r.tags == row.tags
    &&& r.created_by == row.created_by
    &&& r.updated_by == row.updated_by
    &&& r.created_at == row.created_at
    &&& r.updated_at == row.updated_at
}

impl EndpointResponse {
    pub fn from(row: EndpointRow) -> (r: Self)
        ensures
            shows_endpoint_row(r, row),
            r.id == row.public_id,
            r.application_id == row.application_public_id,
            r.description == row.description,
            r.endpoint_type == row.endpoint_type,
            r.config == row.config,
            r.event_types == row.event_types,
            r.status == row.status,
            r.rate_limit_per_minute == row.rate_limit_per_minute,
            r.tags == row.tags,
            r.created_by == row.created_by,
            r.updated_by == row.updated_by,
            r.created_at == row.created_at,
            r.updated_at == row.updated_at,
    {
        EndpointResponse {
            id: row.public_id,
            application_id: row.application_public_id,
            description: row.description,
            endpoint_type: row.endpoint_type,
            config: row.config,
            event_types: row.event_types,
            status: row.status,
            rate_limit_per_minute: row.rate_limit_per_minute,
            tags: row.tags,
            created_by: row.created_by,
            updated_by: row.updated_by,
            created_at: row.created_at,
            updated_at: row.updated_at,
        }
    }
}

impl EndpointRow {
    /// A fresh public id for an endpoint: `ep_` and a 16-character alphanumeric nano id.
    pub fn new_public_id() -> (r: String)
        ensures
            exists|id: Seq<char>| id.len() == 16 && all_alphanumeric(id) && r@ == "ep_"@ + id,
    {
        let id = NanoId::new();
        concat2("ep_", id.as_str())
    }
}

impl SecretRow {
    /// A fresh public id for a secret: `sec_` and a 16-character alphanumeric nano id.
    pub fn new_public_id() -> (r: String)
        ensures
            exists|id: Seq<char>| id.len() == 16 && all_alphanumeric(id) && r@ == "sec_"@ + id,
    {
        let id = NanoId::new();
        concat2("sec_", id.as_str())
    }
}

} // verus!
