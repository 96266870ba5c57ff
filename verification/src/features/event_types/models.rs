//! Event types: the schema language of their payloads, the stored row, the
//! requests that create, version, list and change them, and the response shapes.
use vstd::prelude::*;

verus! {

/// The JSON type of a schema field.
#[derive(Debug, PartialEq, Eq, Structural, Clone, Copy)]
pub enum FieldType {
    String,
    Number,
    Integer,
    Boolean,
    Null,
    Object,
    Array,
}

/// The formats a `string` field may require.
#[derive(Debug, PartialEq, Eq, Structural, Clone, Copy)]
pub enum StringFormat {
    Date,
    DateTime,
    Uuid,
    Email,
    Uri,
}

/// One field of an event schema; nested objects and array items use the same
/// shape. Numeric bounds are kept as the JSON number text they were given in.
pub struct PropertyDef {
    pub field_type: FieldType,
    pub format: Option<StringFormat>,
    pub min_length: Option<u32>,
    pub max_length: Option<u32>,
    pub minimum: Option<String>,
    pub maximum: Option<String>,
    pub properties: Option<Vec<(String, PropertyDef)>>,
    pub required: Vec<String>,
    pub items: Option<Box<PropertyDef>>,
    pub min_items: Option<u32>,
    pub max_items: Option<u32>,
    pub description: Option<String>,
    pub nullable: bool,
}

/// A stored event type. Identifiers are UUIDs as 128-bit numbers, times are
/// microseconds since the epoch.
pub struct EventType {
    pub id: u128,
    pub public_id: String,
    pub organization_id: u128,
    pub tenant_id: u128,
    pub name: String,
    pub schema_version: String,
    pub description: Option<String>,
    pub event_schema: PropertyDef,
    pub archived: bool,
    pub version: i32,
    pub created_by: u128,
    pub updated_by: u128,
    pub created_at: i64,
    pub updated_at: i64,
}

/// A request to create an event type.
pub struct CreateEventTypeRequest {
    pub tenant_id: u128,
    pub organization_id: u128,
    pub name: String,
    pub schema_version: Option<String>,
    pub description: Option<String>,
    pub event_schema: PropertyDef,
}

/// A request to create a new schema version of an event type.
pub struct CreateVersionRequest {
    pub schema_version: String,
    pub description: Option<String>,
    pub event_schema: PropertyDef,
}

/// Filters and page of an event type listing.
pub struct ListQueryParams {
    pub tenant_id: u128,
    pub name: Option<String>,
    pub schema_version: Option<String>,
    pub archived: Option<bool>,
    pub page: i64,
    pub limit: i64,
}

/// The page a listing shows when none is asked for.
pub fn default_page() -> (r: i64)
    ensures
        r == 1,
{
    1
}

/// The page size a listing uses when none is asked for.
pub fn default_limit() -> (r: i64)
    ensures
        r == 20,
{
    20
}

/// A request to change an event type's description, at the version the caller last read.
pub struct UpdateEventTypeRequest {
    pub description: Option<String>,
    pub version: i32,
}

/// An event type as returned to callers.
pub struct EventTypeResponse {
    pub id: String,
    pub organization_id: u128,
    pub tenant_id: u128,
    pub name: String,
    pub schema_version: String,
    pub description: Option<String>,
    pub event_schema: PropertyDef,
    pub archived: bool,
    pub created_by: u128,
    pub updated_by: u128,
    pub created_at: i64,
    pub updated_at: i64,
}

impl EventTypeResponse {
    pub fn from(et: EventType) -> (r: Self)
        ensures
            r.id == et.public_id,
            r.organization_id == et.organization_id,
            r.tenant_id == et.tenant_id,
            r.name == et.name,
            r.schema_version == et.schema_version,
            r.description == et.description,
            r.event_schema == et.event_schema,
            r.archived == et.archived,
            r.created_by == et.created_by,
            r.updated_by == et.updated_by,
            r.created_at == et.created_at,
            r.updated_at == et.updated_at,
    {
        EventTypeResponse {
            id: et.public_id,
            organization_id: et.organization_id,
            tenant_id: et.tenant_id,
            name: et.name,
            schema_version: et.schema_version,
            description: et.description,
            event_schema: et.event_schema,
            archived: et.archived,
            created_by: et.created_by,
            updated_by: et.updated_by,
            created_at: et.created_at,
            updated_at: et.updated_at,
        }
    }
}

/// An event type's schema as returned to callers.
pub struct EventTypeSchemaResponse {
    pub id: String,
    pub name: String,
    pub schema_version: String,
    pub event_schema: PropertyDef,
}

impl EventTypeSchemaResponse {
    pub fn from(et: EventType) -> (r: Self)
        ensures
            r.id == et.public_id,
            r.name == et.name,
            r.schema_version == et.schema_version,
            r.event_schema == et.event_schema,
    {
        EventTypeSchemaResponse { id: et.public_id, name: et.name, schema_version: et.schema_version, event_schema: et.event_schema }
    }
}

} // verus!
