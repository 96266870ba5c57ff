//! API keys and their per-tenant settings: the stored shapes, the requests that
//! create and change them and the checks those requests face.
use crate::common::codec::trimmed;
use crate::common::text::concat3;
use crate::common::validators::validate_not_blank;
use crate::error::{AppError, FieldError};
use vstd::prelude::*;

verus! {

/// Environment class an API key is issued for.
#[derive(Debug, PartialEq, Eq, Structural, Clone, Copy)]
pub enum ApiKeyEnvironment {
    Live,
    Test,
    Dev,
    Sandbox,
}

pub open spec fn environment_text(e: ApiKeyEnvironment) -> Seq<char> {
    match e {
        ApiKeyEnvironment::Live => "live"@,
        ApiKeyEnvironment::Test => "test"@,
        ApiKeyEnvironment::Dev => "dev"@,
        ApiKeyEnvironment::Sandbox => "sandbox"@,
    }
}

impl ApiKeyEnvironment {
    pub fn as_str(&self) -> (r: &'static str)
        ensures
            r@ == environment_text(*self),
    {
        match self {
            ApiKeyEnvironment::Live => "live",
            ApiKeyEnvironment::Test => "test",
            ApiKeyEnvironment::Dev => "dev",
            ApiKeyEnvironment::Sandbox => "sandbox",
        }
    }
}

#[derive(Debug, PartialEq, Eq, Structural, Clone, Copy)]
pub enum ApiKeyStatus {
    Active,
    Expired,
}

/// A stored API key. Identifiers are UUIDs as 128-bit numbers, times are
/// microseconds since the Unix epoch.
pub struct ApiKey {
    pub id: u128,
    pub public_id: String,
    pub organization_id: u128,
    pub tenant_id: u128,
    pub user_id: u128,
    pub name: String,
    pub description: Option<String>,
    pub key_hash: String,
    pub key_encrypted: Option<String>,
    pub key_prefix: String,
    pub environment_id: String,
    pub environment: ApiKeyEnvironment,
    pub status: ApiKeyStatus,
    pub expires_at: Option<i64>,
    pub last_used_at: Option<i64>,
    pub version: i32,
    pub created_by: u128,
    pub updated_by: u128,
    pub created_at: i64,
    pub updated_at: i64,
    pub deleted_at: Option<i64>,
}

/// A tenant's API key settings.
pub struct ApiKeySettings {
    pub id: u128,
    pub public_id: String,
    pub organization_id: u128,
    pub tenant_id: u128,
    pub max_keys_per_user: Option<i32>,
    pub key_length: i16,
    pub default_ttl_seconds: Option<i32>,
    pub allow_view_later: bool,
    pub version: i32,
    pub created_by: u128,
    pub updated_by: u128,
    pub created_at: i64,
    pub updated_at: i64,
}

pub struct CreateApiKeyRequest {
    pub tenant_id: u128,
    pub organization_id: u128,
    pub user_id: u128,
    pub name: String,
    pub description: Option<String>,
    pub environment_id: String,
    pub expires_at: Option<i64>,
}

/// The one-error validation failure for `field`.
pub open spec fn single_error(e: AppError, field: Seq<char>, code: Seq<char>, message: Seq<char>) -> bool {
    e matches AppError::Validation(errs) && errs@.len() == 1 && errs@[0].field@ == field
        && errs@[0].code@ == code && errs@[0].message@ == message && errs@[0].value is None
}

/// A field error with the given parts.
pub open spec fn is_field_error(fe: FieldError, field: Seq<char>, code: Seq<char>, message: Seq<char>) -> bool {
    fe.field@ == field && fe.code@ == code && fe.message@ == message && fe.value is None
}

/// The field errors of a create request's field rules, name rules first: a name
/// that is blank (`required`), a name over 64 characters, a description over 521 characters (`max_length`).
pub open spec fn create_request_field_errors(name: Seq<char>, description: Option<Seq<char>>, errs: Seq<FieldError>) -> bool {
    let blank = trimmed(name).len() == 0;
    let long_name = name.len() > 64;
    let long_desc = description matches Some(d) && d.len() > 521;
    let expected = (if blank { 1int } else { 0int }) + (if long_name { 1int } else { 0int }) + (if long_desc { 1int } else { 0int });
    &&& errs.len() == expected
    &&& blank ==> is_field_error(errs[0], "name"@, "required"@, "name is required"@)
    &&& long_name ==> is_field_error(errs[if blank { 1int } else { 0int }], "name"@, "max_length"@, "name must be 64 characters or fewer"@)
    &&& long_desc ==> is_field_error(errs[expected - 1], "description"@, "max_length"@, "description must be 521 characters or fewer"@)
}

pub open spec fn opt_text(s: Option<String>) -> Option<Seq<char>> {
    match s {
        Some(x) => Some(x@),
        None => None,
    }
}

impl CreateApiKeyRequest {
    /// Checks the field rules, then that an expiry, when given, lies after `now`.
    pub fn validate_all(&self, now: i64) -> (r: Result<(), AppError>)
        ensures
            ({
                let blank = trimmed(self.name@).len() == 0;
                let long_name = self.name@.len() > 64;
                let long_desc = self.description matches Some(d) && d@.len() > 521;
                &&& (blank || long_name || long_desc) ==> (r matches Err(AppError::Validation(errs))
                    && create_request_field_errors(self.name@, opt_text(self.description), errs@))
                &&& !(blank || long_name || long_desc) ==> (self.expires_at matches Some(t) && t <= now ==> single_error(
                    r->Err_0, "expires_at"@, "invalid_value"@, "expires_at must be in the future"@) && r is Err)
                &&& !(blank || long_name || long_desc) ==> (!(self.expires_at matches Some(t) && t <= now) ==> r is Ok)
            }),
    {
        let mut errs: Vec<FieldError> = Vec::new();
        let ghost blank = trimmed(self.name@).len() == 0;
        if validate_not_blank(self.name.as_str()).is_err() {
            errs.push(FieldError::new("name".to_string(), "required".to_string(), "name is required".to_string()));
        }
        if self.name.as_str().unicode_len() > 64 {
            errs.push(FieldError::new("name".to_string(), "max_length".to_string(), "name must be 64 characters or fewer".to_string()));
        }
        if let Some(d) = &self.description {
            if d.as_str().unicode_len() > 521 {
                errs.push(FieldError::new(
                    "description".to_string(),
                    "max_length".to_string(),
                    "description must be 521 characters or fewer".to_string(),
                ));
            }
        }
        if errs.len() > 0 {
            return Err(AppError::Validation(errs));
        }
        if let Some(expires_at) = self.expires_at {
            if expires_at <= now {
                return Err(AppError::Validation(vec![FieldError::new(
                    "expires_at".to_string(),
                    "invalid_value".to_string(),
                    "expires_at must be in the future".to_string(),
                )]));
            }
        }
        Ok(())
    }
}

pub struct UpdateApiKeyRequest {
    pub description: Option<String>,
    pub expires_at: Option<i64>,
}

impl UpdateApiKeyRequest {
    /// Something must change; a description may have at most 521 bytes; an expiry must lie after `now`.
    pub fn validate_all(&self, now: i64) -> (r: Result<(), AppError>)
        ensures
            self.description is None && self.expires_at is None ==> (r matches Err(AppError::BadRequest(m))
                && m@ == "at least one of description or expires_at must be provided"@),
            !(self.description is None && self.expires_at is None) ==> (
                (self.description matches Some(d) && vstd::utf8::encode_utf8(d@).len() > 521) ==> single_error(
                    r->Err_0, "description"@, "max_length"@, "description must be 521 characters or fewer"@) && r is Err),
            !(self.description is None && self.expires_at is None)
                && !(self.description matches Some(d) && vstd::utf8::encode_utf8(d@).len() > 521) ==> (
                (self.expires_at matches Some(t) && t <= now) ==> single_error(
                    r->Err_0, "expires_at"@, "invalid_value"@, "expires_at must be in the future"@) && r is Err),
            !(self.description is None && self.expires_at is None)
                && !(self.description matches Some(d) && vstd::utf8::encode_utf8(d@).len() > 521)
                && !(self.expires_at matches Some(t) && t <= now) ==> r is Ok,
    {
        if self.description.is_none() && self.expires_at.is_none() {
            return Err(AppError::BadRequest("at least one of description or expires_at must be provided".to_string()));
        }
        if let Some(desc) = &self.description {
            if desc.as_str().as_bytes().len() > 521 {
                return Err(AppError::Validation(vec![FieldError::new(
                    "description".to_string(),
                    "max_length".to_string(),
                    "description must be 521 characters or fewer".to_string(),
                )]));
            }
        }
        if let Some(expires_at) = self.expires_at {
            if expires_at <= now {
                return Err(AppError::Validation(vec![FieldError::new(
                    "expires_at".to_string(),
                    "invalid_value".to_string(),
                    "expires_at must be in the future".to_string(),
                )]));
            }
        }
        Ok(())
    }
}

/// The settings rules, checked in order: key length within 16..=128, a key limit
/// of at least 1, a default time-to-live of at least 1 second.
pub open spec fn settings_outcome(key_length: i16, max_keys_per_user: Option<i32>, default_ttl_seconds: Option<i32>, r: Result<(), AppError>) -> bool {
    if key_length < 16 || key_length > 128 {
        single_error(r->Err_0, "key_length"@, "invalid_value"@, "key_length must be between 16 and 128"@) && r is Err
    } else if max_keys_per_user matches Some(m) && m < 1 {
        single_error(r->Err_0, "max_keys_per_user"@, "invalid_value"@, "max_keys_per_user must be at least 1"@) && r is Err
    } else if default_ttl_seconds matches Some(t) && t < 1 {
        single_error(r->Err_0, "default_ttl_seconds"@, "invalid_value"@, "default_ttl_seconds must be at least 1"@) && r is Err
    } else {
        r is Ok
    }
}

fn validate_settings(key_length: i16, max_keys_per_user: Option<i32>, default_ttl_seconds: Option<i32>) -> (r: Result<(), AppError>)
    ensures
        settings_outcome(key_length, max_keys_per_user, default_ttl_seconds, r),
{
    if key_length < 16 || key_length > 128 {
        return Err(AppError::Validation(vec![FieldError::new(
            "key_length".to_string(),
            "invalid_value".to_string(),
            "key_length must be between 16 and 128".to_string(),
        )]));
    }
    if let Some(max) = max_keys_per_user {
        if max < 1 {
            return Err(AppError::Validation(vec![FieldError::new(
                "max_keys_per_user".to_string(),
                "invalid_value".to_string(),
                "max_keys_per_user must be at least 1".to_string(),
            )]));
        }
    }
    if let Some(ttl) = default_ttl_seconds {
        if ttl < 1 {
            return Err(AppError::Validation(vec![FieldError::new(
                "default_ttl_seconds".to_string(),
                "invalid_value".to_string(),
                "default_ttl_seconds must be at least 1".to_string(),
            )]));
        }
    }
    Ok(())
}

pub struct UpsertApiKeySettingsRequest {
    pub organization_id: u128,
    pub tenant_id: u128,
    pub max_keys_per_user: Option<i32>,
    pub key_length: i16,
    pub default_ttl_seconds: Option<i32>,
    pub allow_view_later: bool,
}

impl UpsertApiKeySettingsRequest {
    pub fn validate_all(&self) -> (r: Result<(), AppError>)
        ensures
            settings_outcome(self.key_length, self.max_keys_per_user, self.default_ttl_seconds, r),
    {
        validate_settings(self.key_length, self.max_keys_per_user, self.default_ttl_seconds)
    }
}

pub struct UpdateApiKeySettingsRequest {
    pub max_keys_per_user: Option<i32>,
    pub key_length: i16,
    pub default_ttl_seconds: Option<i32>,
    pub allow_view_later: bool,
}

impl UpdateApiKeySettingsRequest {
    pub fn validate_all(&self) -> (r: Result<(), AppError>)
        ensures
            settings_outcome(self.key_length, self.max_keys_per_user, self.default_ttl_seconds, r),
    {
        validate_settings(self.key_length, self.max_keys_per_user, self.default_ttl_seconds)
    }
}

pub struct ListApiKeysQuery {
    pub tenant_id: Option<u128>,
    pub user_id: Option<u128>,
    pub environment_id: Option<String>,
    pub status: Option<ApiKeyStatus>,
    pub limit: Option<i64>,
    pub cursor: Option<u128>,
    pub tags: Option<Vec<(String, String)>>,
}

/// Audit action recorded for an API key.
#[derive(Debug, PartialEq, Eq, Structural, Clone, Copy)]
pub enum AuditAction {
    Created,
    Updated,
    Deleted,
    Revealed,
}

/// What an update changed: for each field that was given, its value before and after.
pub struct ApiKeyChanges {
    pub description: Option<(Option<String>, String)>,
    pub expires_at: Option<(Option<i64>, i64)>,
}

pub struct InsertAuditParams {
    pub api_key_id: u128,
    pub api_key_public_id: String,
    pub organization_id: u128,
    pub tenant_id: u128,
    pub user_id: u128,
    pub action: AuditAction,
    pub actor_id: Option<u128>,
    pub request_id: u128,
    /// What an update changed, when it changed anything.
    pub changes: Option<ApiKeyChanges>,
}

/// An API key as returned to callers.
pub struct ApiKeyResponse {
    pub id: String,
    pub organization_id: u128,
    pub tenant_id: u128,
    pub user_id: u128,
    pub name: String,
    pub description: Option<String>,
    pub environment: ApiKeyEnvironment,
    pub status: ApiKeyStatus,
    /// Display hint: `hkly_<env>_<3-char prefix>...`
    pub key_hint: String,
    /// Plaintext key, present only in the creation response.
    pub key: Option<String>,
    pub expires_at: Option<i64>,
    pub last_used_at: Option<i64>,
    pub version: i32,
    pub created_by: u128,
    pub updated_by: u128,
    pub created_at: i64,
    pub updated_at: i64,
}

/// Whether `r` is the response shape of the stored key `k`: every stored field
/// as it is, `k`'s public id as `id`, a `hkly_<env>_<prefix>...` hint and no plaintext.
pub open spec fn shows_stored_key(r: ApiKeyResponse, k: ApiKey) -> bool {
    &&& r.id == k.public_id
    &&& r.organization_id == k.organization_id
    &&& r.tenant_id == k.tenant_id
    &&& r.user_id == k.user_id
    &&& r.name == k.name
    &&& r.description == k.description
    &&& r.environment == k.environment
    &&& r.status == k.status
    &&& r.key_hint@ == "hkly_"@ + environment_text(k.environment) + "_"@ + k.key_prefix@ + "..."@
    &&& r.key is None
    &&& r.expires_at == k.expires_at
    &&& r.last_used_at == k.last_used_at
    &&& r.version == k.version
    &&& r.created_by == k.created_by
    &&& r.updated_by == k.updated_by
    &&& r.created_at == k.created_at
    &&& r.updated_at == k.updated_at
}

impl ApiKeyResponse {
    /// The response for a stored key: its public id as `id`, a `hkly_<env>_<prefix>...` hint and no plaintext.
    pub fn from(k: ApiKey) -> (r: Self)
        ensures
            r.id == k.public_id,
            r.organization_id == k.organization_id,
            r.tenant_id == k.tenant_id,
            r.user_id == k.user_id,
            r.name == k.name,
            r.description == k.description,
            r.environment == k.environment,
            r.status == k.status,
            r.key_hint@ == "hkly_"@ + environment_text(k.environment) + "_"@ + k.key_prefix@ + "..."@,
            r.key is None,
            r.expires_at == k.expires_at,
            r.last_used_at == k.last_used_at,
            r.version == k.version,
            r.created_by == k.created_by,
            r.updated_by == k.updated_by,
            r.created_at == k.created_at,
            r.updated_at == k.updated_at,
            shows_stored_key(r, k),
    {
        let mut key_hint = concat3("hkly_", k.environment.as_str(), "_");
        key_hint.append(k.key_prefix.as_str());
        key_hint.append("...");
        ApiKeyResponse {
            id: k.public_id,
            organization_id: k.organization_id,
            tenant_id: k.tenant_id,
            user_id: k.user_id,
            name: k.name,
            description: k.description,
            environment: k.environment,
            status: k.status,
            key_hint,
            key: None,
            expires_at: k.expires_at,
            last_used_at: k.last_used_at,
            version: k.version,
            created_by: k.created_by,
            updated_by: k.updated_by,
            created_at: k.created_at,
            updated_at: k.updated_at,
        }
    }
}

pub struct ListApiKeysResponse {
    pub items: Vec<ApiKeyResponse>,
    pub next_cursor: Option<String>,
    pub limit: i64,
}

pub struct RevealApiKeyResponse {
    pub id: String,
    pub key: String,
}

pub struct ApiKeySettingsResponse {
    pub id: String,
    pub organization_id: u128,
    pub tenant_id: u128,
    pub max_keys_per_user: Option<i32>,
    pub key_length: i16,
    pub default_ttl_seconds: Option<i32>,
    pub allow_view_later: bool,
    pub version: i32,
    pub created_by: u128,
    pub updated_by: u128,
    pub created_at: i64,
    pub updated_at: i64,
}

impl ApiKeySettingsResponse {
    pub fn from(s: ApiKeySettings) -> (r: Self)
        ensures
            r.id == s.public_id,
            r.organization_id == s.organization_id,
            r.tenant_id == s.tenant_id,
            r.max_keys_per_user == s.max_keys_per_user,
            r.key_length == s.key_length,
            r.default_ttl_seconds == s.default_ttl_seconds,
            r.allow_view_later == s.allow_view_later,
            r.version == s.version,
            r.created_by == s.created_by,
            r.updated_by == s.updated_by,
            r.created_at == s.created_at,
            r.updated_at == s.updated_at,
    {
        ApiKeySettingsResponse {
            id: s.public_id,
            organization_id: s.organization_id,
            tenant_id: s.tenant_id,
            max_keys_per_user: s.max_keys_per_user,
            key_length: s.key_length,
            default_ttl_seconds: s.default_ttl_seconds,
            allow_view_later: s.allow_view_later,
            version: s.version,
            created_by: s.created_by,
            updated_by: s.updated_by,
            created_at: s.created_at,
            updated_at: s.updated_at,
        }
    }
}

} // verus!
