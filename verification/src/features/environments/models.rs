//! Environments of a tenant: the stored shape, the requests that create, change
//! and list them, the name rules and the response shape.
use crate::common::codec::{lowercase_text, lowercased, trim_text, trimmed};
use crate::common::text::{uuid_hyphenated, uuid_text};
use crate::error::{AppError, FieldError};
use crate::features::api_keys::models::single_error;
use vstd::prelude::*;

verus! {

/// Whether an environment accepts new work.
#[derive(Debug, PartialEq, Eq, Structural, Clone, Copy)]
pub enum EnvironmentStatus {
    Active,
    Disabled,
}

/// A stored environment. Identifiers are UUIDs as 128-bit numbers, times are
/// microseconds since the Unix epoch, tags are key-value pairs in stored order.
pub struct Environment {
    pub id: u128,
    pub public_id: String,
    pub tenant_id: u128,
    pub tenant_public_id: Option<String>,
    pub organization_public_id: Option<String>,
    pub name: String,
    pub description: Option<String>,
    pub status: EnvironmentStatus,
    pub tags: Vec<(String, String)>,
    pub version: i32,
    pub created_by: u128,
    pub updated_by: u128,
    pub created_at: i64,
    pub updated_at: i64,
    pub created_by_public_id: Option<String>,
    pub updated_by_public_id: Option<String>,
}

/// A request to create an environment in the tenant with public id `tenant_id`.
pub struct CreateEnvironmentRequest {
    pub tenant_id: String,
    pub name: String,
    pub description: Option<String>,
    pub tags: Option<Vec<(String, String)>>,
}

/// An environment name may hold lowercase ASCII letters, digits, `_` and `-`.
pub open spec fn is_name_char(c: char) -> bool {
    ('a' <= c && c <= 'z') || ('0' <= c && c <= '9') || c == '_' || c == '-'
}

/// What `validate_all` answers for a name whose trimmed form is `t` and takes `bytes` bytes:
/// the first rule broken, in the order length, first character, characters.
pub open spec fn name_outcome(t: Seq<char>, bytes: nat, r: Result<(), AppError>) -> bool {
    if bytes < 3 {
        r matches Err(e) && single_error(e, "name"@, "min_length"@, "name must be at least 3 characters"@)
    } else if bytes > 64 {
        r matches Err(e) && single_error(e, "name"@, "max_length"@, "name must be 64 characters or fewer"@)
    } else if !(t.len() > 0 && 'a' <= t[0] && t[0] <= 'z') {
        r matches Err(e) && single_error(e, "name"@, "invalid_format"@, "name must start with a lowercase letter"@)
    } else if !(forall|i: int| 0 <= i < t.len() ==> is_name_char(#[trigger] t[i])) {
        r matches Err(e) && single_error(e, "name"@, "invalid_format"@,
            "name may only contain lowercase letters, digits, hyphens, and underscores"@)
    } else {
        r is Ok
    }
}

fn name_error(code: &str, message: &str) -> (r: AppError)
    ensures
        single_error(r, "name"@, code@, message@),
{
    let fe = FieldError::new("name".to_string(), code.to_string(), message.to_string());
    let mut errs: Vec<FieldError> = Vec::new();
    errs.push(fe);
    proof {
        reveal_strlit("name");
    }
    AppError::Validation(errs)
}

impl CreateEnvironmentRequest {
    /// The request with its name trimmed and lowercased.
    pub fn normalize(self) -> (r: Self)
        ensures
            r.name@ == lowercased(trimmed(self.name@)),
            r.tenant_id == self.tenant_id,
            r.description == self.description,
            r.tags == self.tags,
    {
        let mut out = self;
        let name = lowercase_text(trim_text(out.name.as_str()));
        out.name = name;
        out
    }

    /// Checks the trimmed name: 3 to 64 bytes, a lowercase first letter, then
    /// only lowercase letters, digits, `_` and `-`.
    pub fn validate_all(&self) -> (r: Result<(), AppError>)
        ensures
            name_outcome(trimmed(self.name@), trim_text_bytes(self.name@), r),
    {
        let name = trim_text(self.name.as_str());
        let len = name.as_bytes().len();
        proof {
            assert(len == trim_text_bytes(self.name@));
        }
        if len < 3 {
            return Err(name_error("min_length", "name must be at least 3 characters"));
        }
        if len > 64 {
            return Err(name_error("max_length", "name must be 64 characters or fewer"));
        }
        let n = name.unicode_len();
        if n == 0 {
            return Err(name_error("invalid_format", "name must start with a lowercase letter"));
        }
        let first = name.get_char(0);
        if !('a' <= first && first <= 'z') {
            return Err(name_error("invalid_format", "name must start with a lowercase letter"));
        }
        let mut i: usize = 0;
        while i < n
            invariant
                i <= n,
                n == name@.len(),
                n > 0,
                3 <= len <= 64,
                len == trim_text_bytes(self.name@),
                name@ == trimmed(self.name@),
                'a' <= name@[0] && name@[0] <= 'z',
                forall|k: int| 0 <= k < i ==> is_name_char(#[trigger] name@[k]),
            decreases n - i,
        {
            let c = name.get_char(i);
            if !(('a' <= c && c <= 'z') || ('0' <= c && c <= '9') || c == '_' || c == '-') {
                return Err(name_error("invalid_format",
                    "name may only contain lowercase letters, digits, hyphens, and underscores"));
            }
            i = i + 1;
        }
        Ok(())
    }
}

/// The number of bytes of the trimmed form of `s`.
pub open spec fn trim_text_bytes(s: Seq<char>) -> nat {
    vstd::utf8::encode_utf8(trimmed(s)).len()
}

/// A request to replace an environment's tags.
pub struct UpdateEnvironmentRequest {
    pub tags: Option<Vec<(String, String)>>,
}

/// Filters and keyset cursor of an environment listing.
pub struct ListEnvironmentsQuery {
    pub status: Option<EnvironmentStatus>,
    pub limit: Option<i64>,
    pub cursor: Option<String>,
    pub tags: Option<Vec<(String, String)>>,
}

/// An environment as returned to callers.
pub struct EnvironmentResponse {
    pub id: String,
    pub organization_id: String,
    pub tenant_id: String,
    pub name: String,
    pub description: Option<String>,
    pub status: EnvironmentStatus,
    pub tags: Vec<(String, String)>,
    pub created_by: String,
    pub updated_by: String,
    pub created_at: i64,
    pub updated_at: i64,
}

/// A public id when it was joined in, otherwise the UUID's text.
pub open spec fn public_or_uuid(public: Option<String>, id: u128) -> Seq<char> {
    match public {
        Some(p) => p@,
        None => uuid_hyphenated(id),
    }
}

fn public_or_uuid_text(public: Option<String>, id: u128) -> (r: String)
    ensures
        r@ == public_or_uuid(public, id),
{
    match public {
        Some(p) => p,
        None => uuid_text(id),
    }
}

impl EnvironmentResponse {
    /// The response for a stored environment: public ids where they were joined
    /// in, the UUID's text otherwise, and an empty organization id when none was.
    pub fn from(e: Environment) -> (r: Self)
        ensures
            r.id == e.public_id,
            r.organization_id@ == (match e.organization_public_id {
                Some(o) => o@,
                None => Seq::<char>::empty(),
            }),
            r.tenant_id@ == public_or_uuid(e.tenant_public_id, e.tenant_id),
            r.name == e.name,
            r.description == e.description,
            r.status == e.status,
            r.tags == e.tags,
            r.created_by@ == public_or_uuid(e.created_by_public_id, e.created_by),
            r.updated_by@ == public_or_uuid(e.updated_by_public_id, e.updated_by),
            r.created_at == e.created_at,
            r.updated_at == e.updated_at,
    {
        let organization_id = match e.organization_public_id {
            Some(o) => o,
            None => String::new(),
        };
        EnvironmentResponse {
            id: e.public_id,
            organization_id,
            tenant_id: public_or_uuid_text(e.tenant_public_id, e.tenant_id),
            name: e.name,
            description: e.description,
            status: e.status,
            tags: e.tags,
            created_by: public_or_uuid_text(e.created_by_public_id, e.created_by),
            updated_by: public_or_uuid_text(e.updated_by_public_id, e.updated_by),
            created_at: e.created_at,
            updated_at: e.updated_at,
        }
    }
}

/// A page of environments with the cursor of the next page.
pub struct ListEnvironmentsResponse {
    pub items: Vec<EnvironmentResponse>,
    pub next_cursor: Option<String>,
    pub limit: i64,
}

} // verus!
