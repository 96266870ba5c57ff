//! Applications of a tenant: the stored shape, the creation request and the response shapes.
use vstd::prelude::*;

verus! {

/// The lifecycle state of an application.
#[derive(Debug, PartialEq, Eq, Structural, Clone, Copy)]
pub enum ApplicationState {
    Active,
    Suspended,
    Inactive,
}

/// A stored application. Identifiers are UUIDs as 128-bit numbers, times microseconds since the epoch.
pub struct Application {
    pub id: u128,
    pub public_id: String,
    pub tenant_id: u128,
    pub organization_id: u128,
    pub name: String,
    pub description: String,
    pub tags: Vec<(String, String)>,
    pub state: ApplicationState,
    pub created_by: u128,
    pub updated_by: u128,
    pub created_at: i64,
    pub updated_at: i64,
}

/// A request to create an application in the environment with public id `environment_id`.
pub struct CreateApplicationRequest {
    pub tenant_id: u128,
    pub organization_id: u128,
    pub environment_id: String,
    pub name: String,
    pub description: String,
    pub tags: Vec<(String, String)>,
}

/// A created application as returned to callers.
pub struct CreateApplicationResponse {
    pub id: u128,
    pub public_id: String,
    pub tenant_id: u128,
    pub organization_id: u128,
    pub name: String,
    pub description: String,
    pub tags: Vec<(String, String)>,
    pub state: ApplicationState,
    pub created_by: u128,
    pub updated_by: u128,
    pub created_at: i64,
    pub updated_at: i64,
}

/// A fetched application as returned to callers.
pub struct GetApplicationResponse {
    pub id: u128,
    pub public_id: String,
    pub tenant_id: u128,
    pub organization_id: u128,
    pub name: String,
    pub description: String,
    pub tags: Vec<(String, String)>,
    pub state: ApplicationState,
    pub created_by: u128,
    pub updated_by: u128,
    pub created_at: i64,
    pub updated_at: i64,
}

impl CreateApplicationResponse {
    pub fn from(app: Application) -> (r: Self)
        ensures
            r.id == app.id,
            r.public_id == app.public_id,
            r.tenant_id == app.tenant_id,
            r.organization_id == app.organization_id,
            r.name == app.name,
            r.description == app.description,
            r.tags == app.tags,
            r.state == app.state,
            r.created_by == app.created_by,
            r.updated_by == app.updated_by,
            r.created_at == app.created_at,
            r.updated_at == app.updated_at,
    {
        CreateApplicationResponse {
            id: app.id,
            public_id: app.public_id,
            tenant_id: app.tenant_id,
            organization_id: app.organization_id,
            name: app.name,
            description: app.description,
            tags: app.tags,
            state: app.state,
            created_by: app.created_by,
            updated_by: app.updated_by,
            created_at: app.created_at,
            updated_at: app.updated_at,
        }
    }
}

impl GetApplicationResponse {
    pub fn from(app: Application) -> (r: Self)
        ensures
            r.id == app.id,
            r.public_id == app.public_id,
            r.tenant_id == app.tenant_id,
            r.organization_id == app.organization_id,
            r.name == app.name,
            r.description == app.description,
            r.tags == app.tags,
            r.state == app.state,
            r.created_by == app.created_by,
            r.updated_by == app.updated_by,
            r.created_at == app.created_at,
            r.updated_at == app.updated_at,
    {
        GetApplicationResponse {
            id: app.id,
            public_id: app.public_id,
            tenant_id: app.tenant_id,
            organization_id: app.organization_id,
            name: app.name,
            description: app.description,
            tags: app.tags,
            state: app.state,
            created_by: app.created_by,
            updated_by: app.updated_by,
            created_at: app.created_at,
            updated_at: app.updated_at,
        }
    }
}

} // verus!
