//! The decisions of the API key service: whether a key may be issued in an
//! environment, the policy a tenant's settings give, the quota, the expiry, the
//! key material, the audit records, and when a stored key may be revealed.
use crate::common::codec::AES_GCM_MAX_PLAINTEXT;
use crate::common::crypto::{envelope_nonce_fits, open_envelope, EnvelopeError};
use crate::common::nano_id::all_alphanumeric;
use crate::common::text::{concat2, signed_decimal, signed_decimal_text, uuid_hyphenated, uuid_text};
use crate::common::types::{clamp_limit, RequestContext};
use crate::error::{require_found, AppError};
use crate::features::api_keys::crypto::{
    decrypt_key, encrypt_key, generate_api_key, hash_key, key_envelope_message, key_hash_of, key_prefix_of,
};
use crate::features::api_keys::models::{
    ApiKey, ApiKeyChanges, ApiKeyResponse, ApiKeySettings, AuditAction, CreateApiKeyRequest, InsertAuditParams,
    environment_text, shows_stored_key, ListApiKeysResponse, RevealApiKeyResponse, UpdateApiKeyRequest,
};
use crate::features::environments::models::{Environment, EnvironmentStatus};
use vstd::prelude::*;
use vstd::string::StringSliceAdditionalSpecFns;
use vstd::utf8::encode_utf8;

verus! {

/// The API key service, over a key store `R`, an environment store `E` and a
/// source of the view-later encryption key `K`.
pub struct ApiKeyService<R, E, K> {
    pub repo: R,
    pub env_repo: E,
    pub key_provider: K,
}

/// What a tenant's settings decide for new keys.
#[derive(Debug, Clone, Copy)]
pub struct KeyPolicy {
    pub key_length: i16,
    pub allow_view_later: bool,
    pub default_ttl_seconds: Option<i32>,
    pub max_keys_per_user: Option<i32>,
}

/// The policy of a tenant: its settings, or 32-character keys that cannot be
/// viewed later, with no default lifetime and no quota.
pub open spec fn policy_of(settings: Option<ApiKeySettings>) -> KeyPolicy {
    match settings {
        Some(s) => KeyPolicy {
            key_length: s.key_length,
            allow_view_later: s.allow_view_later,
            default_ttl_seconds: s.default_ttl_seconds,
            max_keys_per_user: s.max_keys_per_user,
        },
        None => KeyPolicy { key_length: 32, allow_view_later: false, default_ttl_seconds: None, max_keys_per_user: None },
    }
}

/// What checking the environment of a new key answers.
pub open spec fn environment_outcome(
    found: Option<Environment>,
    tenant_id: u128,
    environment_id: Seq<char>,
    r: Result<Environment, AppError>,
) -> bool {
    match found {
        None => r matches Err(AppError::BadRequest(m)) && m@ == "environment not found: "@ + environment_id,
        Some(env) => if env.tenant_id != tenant_id {
            r matches Err(AppError::BadRequest(m)) && m@ == "environment does not belong to this tenant"@
        } else if env.status != EnvironmentStatus::Active {
            r matches Err(AppError::BadRequest(m)) && m@ == "environment is not active"@
        } else {
            r == Ok::<Environment, AppError>(env)
        },
    }
}

/// The message of a refused key because the user holds `max` keys already.
pub open spec fn quota_message(max: i32) -> Seq<char> {
    "user has reached the maximum of "@ + signed_decimal(max as int) + " api key(s) for this tenant"@
}

/// Microseconds in a second.
pub const MICROS_PER_SECOND: i64 = 1_000_000;

/// The expiry of a new key: the one requested, else `now` plus the default lifetime, else none.
pub open spec fn expiry_of(requested: Option<i64>, default_ttl_seconds: Option<i32>, now: i64) -> Option<int> {
    match requested {
        Some(t) => Some(t as int),
        None => match default_ttl_seconds {
            Some(ttl) => Some(now + ttl * MICROS_PER_SECOND),
            None => None,
        },
    }
}

/// A new key's material: the plaintext, its display prefix, its lookup hash and,
/// when the tenant allows viewing it later, its encrypted envelope.
pub struct IssuedKey {
    pub full_key: String,
    pub key_prefix: String,
    pub key_hash: String,
    pub key_encrypted: Option<String>,
}

/// The key `hkly_<env>_<random>` for a random part.
pub open spec fn full_key_text(env_name: Seq<char>, random: Seq<char>) -> Seq<char> {
    "hkly_"@ + env_name + "_"@ + random
}

/// Whether a key of the environment named `env_name` with a random part of
/// `key_length` alphanumerics is longer, in UTF-8, than AES-GCM can seal.
pub open spec fn too_long_to_seal(env_name: Seq<char>, key_length: int) -> bool {
    exists|random: Seq<char>| random.len() == key_length && all_alphanumeric(random)
        && #[trigger] encode_utf8(full_key_text(env_name, random)).len() > AES_GCM_MAX_PLAINTEXT
}

/// What a successful issue of a key in the environment named `env_name` gives:
/// a random part of the policy's length, its display prefix, the lookup hash
/// and, exactly when the policy allows viewing later, an envelope that opens
/// back to the key under `raw_key`.
pub open spec fn issued(env_name: Seq<char>, policy: KeyPolicy, raw_key: Option<[u8; 32]>, k: IssuedKey) -> bool {
    &&& exists|random: Seq<char>| {
        &&& random.len() == policy.key_length
        &&& all_alphanumeric(random)
        &&& k.full_key@ == full_key_text(env_name, random)
        &&& k.key_prefix@ == #[trigger] key_prefix_of(random)
    }
    &&& k.key_hash@ == key_hash_of(k.full_key@)
    &&& (k.key_encrypted is Some <==> policy.allow_view_later)
    &&& (k.key_encrypted matches Some(e) ==> open_envelope(raw_key.unwrap()@, encode_utf8(e@))
        == Ok::<Seq<char>, EnvelopeError>(k.full_key@) && envelope_nonce_fits(encode_utf8(e@)))
}

/// The audit record of `action` on `key`, by the caller of `ctx`.
pub open spec fn audit_of(key: ApiKey, action: AuditAction, changes: Option<ApiKeyChanges>, ctx: RequestContext, r: InsertAuditParams) -> bool {
    &&& r.api_key_id == key.id
    &&& r.api_key_public_id == key.public_id
    &&& r.organization_id == key.organization_id
    &&& r.tenant_id == key.tenant_id
    &&& r.user_id == key.user_id
    &&& r.action == action
    &&& r.actor_id == Some(ctx.created_by)
    &&& r.request_id == ctx.request_id
    &&& r.changes == changes
}

/// What revealing a key decides before decrypting: the tenant must allow it and
/// the key must have been stored encrypted.
pub open spec fn reveal_gate(settings: Option<ApiKeySettings>, key_encrypted: Option<String>, r: Result<String, AppError>) -> bool {
    if !policy_of(settings).allow_view_later {
        r matches Err(AppError::BadRequest(m)) && m@ == "view-later is not enabled for this tenant"@
    } else {
        match key_encrypted {
            None => r matches Err(AppError::BadRequest(m))
                && m@ == "this key was created before view-later was enabled and cannot be revealed"@,
            Some(e) => r == Ok::<String, AppError>(e),
        }
    }
}

impl<R, E, K> ApiKeyService<R, E, K> {
    pub fn new(repo: R, env_repo: E, key_provider: K) -> (r: Self)
        ensures
            r.repo == repo,
            r.env_repo == env_repo,
            r.key_provider == key_provider,
    {
        ApiKeyService { repo, env_repo, key_provider }
    }

    /// A key is issued only in an environment that exists, belongs to the
    /// requesting tenant and is active.
    pub fn check_environment(found: Option<Environment>, req: &CreateApiKeyRequest) -> (r: Result<Environment, AppError>)
        ensures
            environment_outcome(found, req.tenant_id, req.environment_id@, r),
    {
        match found {
            None => Err(AppError::BadRequest(concat2("environment not found: ", req.environment_id.as_str()))),
            Some(env) => {
                if env.tenant_id != req.tenant_id {
                    Err(AppError::BadRequest("environment does not belong to this tenant".to_string()))
                } else if env.status != EnvironmentStatus::Active {
                    Err(AppError::BadRequest("environment is not active".to_string()))
                } else {
                    Ok(env)
                }
            },
        }
    }

    /// The policy the tenant's settings give, with the defaults where there are none.
    pub fn policy(settings: &Option<ApiKeySettings>) -> (r: KeyPolicy)
        ensures
            r == policy_of(*settings),
    {
        match settings {
            Some(s) => KeyPolicy {
                key_length: s.key_length,
                allow_view_later: s.allow_view_later,
                default_ttl_seconds: s.default_ttl_seconds,
                max_keys_per_user: s.max_keys_per_user,
            },
            None => KeyPolicy { key_length: 32, allow_view_later: false, default_ttl_seconds: None, max_keys_per_user: None },
        }
    }

    /// A user holding `count` active keys may get another only while `count` is below `max`.
    pub fn check_quota(max: i32, count: i64) -> (r: Result<(), AppError>)
        ensures
            count < max ==> r is Ok,
            count >= max ==> (r matches Err(AppError::Conflict(m, errs)) && m@ == quota_message(max) && errs@.len() == 0),
    {
        if count >= max as i64 {
            let mut m = "user has reached the maximum of ".to_string();
            let n = signed_decimal_text(max as i64);
            m.append(n.as_str());
            m.append(" api key(s) for this tenant");
            Err(AppError::Conflict(m, Vec::new()))
        } else {
            Ok(())
        }
    }

    /// The expiry of a new key: the requested one, else `now` plus the tenant's
    /// default lifetime in seconds, else none. Times are microseconds.
    pub fn expiry(requested: Option<i64>, default_ttl_seconds: Option<i32>, now: i64) -> (r: Option<i64>)
        requires
            requested is None && default_ttl_seconds is Some ==> i64::MIN <= now + default_ttl_seconds.unwrap()
                * MICROS_PER_SECOND <= i64::MAX,
        ensures
            r matches Some(t) ==> expiry_of(requested, default_ttl_seconds, now) == Some(t as int),
            r is None <==> expiry_of(requested, default_ttl_seconds, now) is None,
    {
        match requested {
            Some(t) => Some(t),
            None => match default_ttl_seconds {
                Some(ttl) => {
                    assert(-0x8000_0000 * 1_000_000 <= ttl * MICROS_PER_SECOND <= 0x7fff_ffff * 1_000_000) by (nonlinear_arith)
                        requires
                            -0x8000_0000 <= ttl <= 0x7fff_ffff,
                    ;
                    Some(now + ttl as i64 * MICROS_PER_SECOND)
                },
                None => None,
            },
        }
    }

    /// The material of a new key in the environment named `env_name`: a random
    /// part of the policy's length, the display prefix, the lookup hash and, when
    /// the policy allows viewing later, an envelope sealed with `raw_key` that
    /// opens back to the key. Fails only when the key is too long to seal.
    pub fn issue_key(env_name: &str, policy: &KeyPolicy, raw_key: Option<[u8; 32]>) -> (r: Result<IssuedKey, AppError>)
        requires
            policy.key_length >= 1,
            policy.allow_view_later ==> raw_key is Some,
        ensures
            r matches Ok(k) ==> issued(env_name@, *policy, raw_key, k),
            !policy.allow_view_later ==> r is Ok,
            r matches Err(e) ==> (e matches AppError::Internal(m) && m@ == "api key encryption failed"@),
            r is Err ==> too_long_to_seal(env_name@, policy.key_length as int),
    {
        let (full_key, key_prefix) = generate_api_key(env_name, policy.key_length);
        let key_hash = hash_key(full_key.as_str());
        if policy.allow_view_later {
            let raw = raw_key.unwrap();
            match encrypt_key(raw, full_key.as_str()) {
                Ok(envelope) => Ok(IssuedKey { full_key, key_prefix, key_hash, key_encrypted: Some(envelope) }),
                Err(e) => {
                    proof {
                        let random = choose|random: Seq<char>| {
                            &&& random.len() == policy.key_length
                            &&& all_alphanumeric(random)
                            &&& full_key@ == "hkly_"@ + env_name@ + "_"@ + random
                            &&& #[trigger] key_prefix_of(random) == key_prefix@
                        };
                        assert(full_key@ == full_key_text(env_name@, random));
                        assert(encode_utf8(full_key_text(env_name@, random)).len() > AES_GCM_MAX_PLAINTEXT);
                        assert(too_long_to_seal(env_name@, policy.key_length as int));
                    }
                    Err(e)
                },
            }
        } else {
            Ok(IssuedKey { full_key, key_prefix, key_hash, key_encrypted: None })
        }
    }

    /// The audit record of `action` on `key`.
    pub fn audit_record(key: &ApiKey, action: AuditAction, changes: Option<ApiKeyChanges>, ctx: RequestContext) -> (r: InsertAuditParams)
        ensures
            audit_of(*key, action, changes, ctx, r),
    {
        InsertAuditParams {
            api_key_id: key.id,
            api_key_public_id: key.public_id.clone(),
            organization_id: key.organization_id,
            tenant_id: key.tenant_id,
            user_id: key.user_id,
            action,
            actor_id: Some(ctx.created_by),
            request_id: ctx.request_id,
            changes,
        }
    }

    /// What an update changes on `existing`: each field the request gives, with
    /// its value before and after; none when the request gives no field.
    pub fn update_changes(existing: &ApiKey, req: &UpdateApiKeyRequest) -> (r: Option<ApiKeyChanges>)
        ensures
            (req.description is None && req.expires_at is None) <==> r is None,
            r matches Some(c) ==> (match req.description {
                Some(d) => c.description == Some((existing.description, d)),
                None => c.description is None,
            }),
            r matches Some(c) ==> (match req.expires_at {
                Some(t) => c.expires_at == Some((existing.expires_at, t)),
                None => c.expires_at is None,
            }),
    {
        let description = match &req.description {
            Some(d) => Some((existing.description.clone(), d.clone())),
            None => None,
        };
        let expires_at = match req.expires_at {
            Some(t) => Some((existing.expires_at, t)),
            None => None,
        };
        if description.is_none() && expires_at.is_none() {
            None
        } else {
            Some(ApiKeyChanges { description, expires_at })
        }
    }

    /// A fetched or updated key, or `NotFound` naming it.
    pub fn require_key<T>(found: Option<T>, public_id: &str) -> (r: Result<T, AppError>)
        ensures
            found matches Some(x) ==> r == Ok::<T, AppError>(x),
            found is None ==> (r matches Err(AppError::NotFound(m)) && m@ == "api key not found: "@ + public_id@),
    {
        require_found(found, "api key not found: ", public_id)
    }

    /// Fetched or updated settings, or `NotFound` naming them.
    pub fn require_settings<T>(found: Option<T>, public_id: &str) -> (r: Result<T, AppError>)
        ensures
            found matches Some(x) ==> r == Ok::<T, AppError>(x),
            found is None ==> (r matches Err(AppError::NotFound(m)) && m@ == "api key settings not found: "@ + public_id@),
    {
        require_found(found, "api key settings not found: ", public_id)
    }

    /// A deletion that removed no row answers as a missing key.
    pub fn check_deleted(deleted: bool, public_id: &str) -> (r: Result<(), AppError>)
        ensures
            deleted ==> r is Ok,
            !deleted ==> (r matches Err(AppError::NotFound(m)) && m@ == "api key not found: "@ + public_id@),
    {
        if deleted {
            Ok(())
        } else {
            Err(AppError::NotFound(concat2("api key not found: ", public_id)))
        }
    }

    /// The envelope of a key that may be revealed under the tenant's settings.
    pub fn reveal_envelope(settings: &Option<ApiKeySettings>, key: &ApiKey) -> (r: Result<String, AppError>)
        ensures
            reveal_gate(*settings, key.key_encrypted, r),
    {
        let policy = Self::policy(settings);
        if !policy.allow_view_later {
            return Err(AppError::BadRequest("view-later is not enabled for this tenant".to_string()));
        }
        match &key.key_encrypted {
            None => Err(AppError::BadRequest(
                "this key was created before view-later was enabled and cannot be revealed".to_string(),
            )),
            Some(e) => Ok(e.clone()),
        }
    }

    /// The revealed plaintext of `key`, opened from `envelope` with `raw_key`.
    pub fn reveal_key(raw_key: [u8; 32], key: ApiKey, envelope: &str) -> (r: Result<RevealApiKeyResponse, AppError>)
        requires
            envelope_nonce_fits(envelope.spec_bytes()),
        ensures
            open_envelope(raw_key@, envelope.spec_bytes()) matches Ok(p) ==> (r matches Ok(resp)
                && resp.id == key.public_id && resp.key@ == p),
            open_envelope(raw_key@, envelope.spec_bytes()) matches Err(e) ==> (r matches Err(AppError::Internal(m))
                && m@ == key_envelope_message(e)),
    {
        match decrypt_key(raw_key, envelope) {
            Ok(plaintext) => Ok(RevealApiKeyResponse { id: key.public_id, key: plaintext }),
            Err(e) => Err(e),
        }
    }

    /// The page size of a listing: 20 by default, otherwise within `1..=100`.
    pub fn list_limit(limit: Option<i64>) -> (r: i64)
        ensures
            limit is None ==> r == 20,
            limit matches Some(l) ==> r == (if l < 1 { 1 } else if l > 100 { 100 } else { l }),
    {
        clamp_limit(limit)
    }

    /// The response of a listing: each key in its response shape, in order, and
    /// the next cursor as the UUID's text.
    pub fn list_response(keys: Vec<ApiKey>, next_cursor: Option<u128>, limit: i64) -> (r: ListApiKeysResponse)
        ensures
            r.items@.len() == keys@.len(),
            forall|i: int| 0 <= i < keys@.len() ==> r.items@[i].id == #[trigger] keys@[i].public_id,
            forall|i: int| 0 <= i < keys@.len() ==> shows_stored_key(#[trigger] r.items@[i], keys@[i]),
            next_cursor matches Some(c) ==> (r.next_cursor matches Some(t) && t@ == uuid_hyphenated(c)),
            next_cursor is None ==> r.next_cursor is None,
            r.limit == limit,
    {
        let mut items: Vec<ApiKeyResponse> = Vec::new();
        let mut rest = keys;
        let ghost given = rest@;
        while rest.len() > 0
            invariant
                items@.len() + rest@.len() == given.len(),
                rest@ == given.subrange(items@.len() as int, given.len() as int),
                forall|i: int| 0 <= i < items@.len() ==> items@[i].id == #[trigger] given[i].public_id,
                forall|i: int| 0 <= i < items@.len() ==> shows_stored_key(#[trigger] items@[i], given[i]),
            decreases rest@.len(),
        {
            let k = rest.remove(0);
            proof {
                assert(k == given[items@.len() as int]);
            }
            items.push(ApiKeyResponse::from(k));
        }
        let next = match next_cursor {
            Some(c) => Some(uuid_text(c)),
            None => None,
        };
        ListApiKeysResponse { items, next_cursor: next, limit }
    }
}

/// Listing API keys shows every stored key as it is, at its own position: its
/// status (an expired or revoked key is listed as such), name, description,
/// environment, owner, dates and version, a hint built from its prefix, and
/// never the plaintext key.
pub proof fn law_key_listing_shows_each_key_as_stored(
    keys: Vec<ApiKey>,
    next_cursor: Option<u128>,
    limit: i64,
    r: ListApiKeysResponse,
)
    requires
        call_ensures(ApiKeyService::<(), (), ()>::list_response, (keys, next_cursor, limit), r),
    ensures
        r.items@.len() == keys@.len(),
        forall|i: int| 0 <= i < keys@.len() ==> {
            let item = #[trigger] r.items@[i];
            let k = keys@[i];
            &&& item.id == k.public_id
            &&& item.status == k.status
            &&& item.name == k.name
            &&& item.description == k.description
            &&& item.environment == k.environment
            &&& item.organization_id == k.organization_id
            &&& item.tenant_id == k.tenant_id
            &&& item.user_id == k.user_id
            &&& item.expires_at == k.expires_at
            &&& item.last_used_at == k.last_used_at
            &&& item.version == k.version
            &&& item.created_by == k.created_by
            &&& item.updated_by == k.updated_by
            &&& item.created_at == k.created_at
            &&& item.updated_at == k.updated_at
            &&& item.key_hint@ == "hkly_"@ + environment_text(k.environment) + "_"@ + k.key_prefix@ + "..."@
            &&& item.key is None
        },
{
    assert forall|i: int| 0 <= i < keys@.len() implies shows_stored_key(#[trigger] r.items@[i], keys@[i]) by {}
}

} // verus!
