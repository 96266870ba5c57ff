use hookly::common::types::RequestContext;
use hookly::error::AppError;
use hookly::features::api_keys::auth::{
    auth_cache_key, build_ctx, check_jwt_claims, check_owner, extract_token, is_jwt, jwt_decode_error, jwt_key_cache_key,
    jwt_key_entry, jwt_kid, parse_jwt_algorithm, require_jwt_key_row, require_key_row, require_kid, validate, ApiKeyPrincipal,
    AuthCacheEntry, JwtAlgorithm, JwtClaims, JwtKeyCacheEntry, JwtKeyRow,
};
use hookly::features::api_keys::crypto::{decrypt_key, encrypt_key, generate_api_key, hash_key, try_decrypt_key};
use hookly::features::api_keys::models::{
    ApiKey, ApiKeyEnvironment, ApiKeyResponse, ApiKeySettings, ApiKeySettingsResponse, ApiKeyStatus, AuditAction,
    CreateApiKeyRequest, UpdateApiKeyRequest, UpdateApiKeySettingsRequest, UpsertApiKeySettingsRequest,
};
use hookly::features::api_keys::repository::ApiKeyRepository;
use hookly::features::api_keys::service::{ApiKeyService, KeyPolicy};
use hookly::features::environments::models::{Environment, EnvironmentStatus};

type Svc = ApiKeyService<(), (), ()>;

const RAW_KEY: [u8; 32] = [7u8; 32];

fn sample_key() -> ApiKey {
    ApiKey {
        id: 11,
        public_id: "ak_0123456789abcdef".into(),
        organization_id: 1,
        tenant_id: 2,
        user_id: 3,
        name: "ci key".into(),
        description: Some("old".into()),
        key_hash: "h".into(),
        key_encrypted: None,
        key_prefix: "AbC".into(),
        environment_id: "env_1".into(),
        environment: ApiKeyEnvironment::Live,
        status: ApiKeyStatus::Active,
        expires_at: Some(1_000),
        last_used_at: None,
        version: 1,
        created_by: 4,
        updated_by: 4,
        created_at: 10,
        updated_at: 20,
        deleted_at: None,
    }
}

fn settings(allow_view_later: bool) -> ApiKeySettings {
    ApiKeySettings {
        id: 1,
        public_id: "aks_1".into(),
        organization_id: 1,
        tenant_id: 2,
        max_keys_per_user: Some(3),
        key_length: 24,
        default_ttl_seconds: Some(60),
        allow_view_later,
        version: 1,
        created_by: 4,
        updated_by: 4,
        created_at: 0,
        updated_at: 0,
    }
}

fn environment(tenant_id: u128, status: EnvironmentStatus) -> Environment {
    Environment {
        id: 9,
        public_id: "env_1".into(),
        tenant_id,
        tenant_public_id: None,
        organization_public_id: None,
        name: "staging".into(),
        description: None,
        status,
        tags: vec![],
        version: 1,
        created_by: 4,
        updated_by: 4,
        created_at: 0,
        updated_at: 0,
        created_by_public_id: None,
        updated_by_public_id: None,
    }
}

fn create_request() -> CreateApiKeyRequest {
    CreateApiKeyRequest {
        tenant_id: 2,
        organization_id: 1,
        user_id: 3,
        name: "ci key".into(),
        description: None,
        environment_id: "env_1".into(),
        expires_at: None,
    }
}

fn ctx() -> RequestContext {
    RequestContext { request_id: 100, created_by: 4, organization_id: 1, tenant_id: 2 }
}

fn entry() -> AuthCacheEntry {
    AuthCacheEntry {
        api_key_public_id: "ak_1".into(),
        organization_id: 1,
        tenant_id: 2,
        user_id: 3,
        expires_at: None,
        api_key_deleted: false,
        api_key_status: "active".into(),
        org_status: "active".into(),
        org_deleted: false,
        tenant_status: "active".into(),
        tenant_deleted: false,
    }
}

fn key_entry() -> JwtKeyCacheEntry {
    JwtKeyCacheEntry {
        public_key_pem: "pem".into(),
        algorithm: "RS256".into(),
        tenant_id: 2,
        organization_id: 1,
        org_status: "active".into(),
        org_deleted: false,
        tenant_status: "active".into(),
        tenant_deleted: false,
    }
}

fn unauthorized<T>(r: Result<T, AppError>) -> String {
    match r {
        Err(AppError::Unauthorized(m)) => m,
        Err(e) => panic!("unexpected error {:?}", e),
        Ok(_) => panic!("unexpected success"),
    }
}

#[test]
fn extract_token_reads_bearer() {
    assert_eq!(extract_token(Some("Bearer abc")).unwrap(), "abc");
    assert_eq!(unauthorized(extract_token(None)), "missing Authorization header");
    assert_eq!(unauthorized(extract_token(Some("Basic abc"))), "Authorization header must be a Bearer token");
    assert_eq!(unauthorized(extract_token(Some("Bearer "))), "Bearer token must not be empty");
}

#[test]
fn is_jwt_counts_dots() {
    assert!(is_jwt("a.b.c"));
    assert!(!is_jwt("hkly_live_abcdef"));
    assert!(!is_jwt("a.b"));
    assert!(!is_jwt("a.b.c.d"));
}

#[test]
fn validate_judges_cache_entry() {
    let p = validate(&entry(), 50).unwrap();
    assert_eq!((p.api_key_public_id.as_str(), p.organization_id, p.tenant_id, p.user_id), ("ak_1", 1, 2, 3));
    let mut deleted = entry();
    deleted.api_key_deleted = true;
    assert_eq!(unauthorized(validate(&deleted, 50)), "invalid or revoked api key");
    let mut expired = entry();
    expired.expires_at = Some(10);
    assert_eq!(unauthorized(validate(&expired, 50)), "api key has expired");
    let mut marked = entry();
    marked.api_key_status = "expired".into();
    assert_eq!(unauthorized(validate(&marked, 50)), "api key has expired");
    let mut suspended = entry();
    suspended.tenant_status = "suspended".into();
    assert!(matches!(validate(&suspended, 50), Err(AppError::Forbidden(m)) if m == "Tenant has been suspended"));
}

#[test]
fn check_owner_order() {
    assert!(check_owner(false, "active", false, "active").is_ok());
    assert!(matches!(check_owner(true, "suspended", true, "suspended"), Err(AppError::Forbidden(m)) if m == "Organization has been deactivated"));
    assert!(matches!(check_owner(false, "suspended", true, "active"), Err(AppError::Forbidden(m)) if m == "Organization has been suspended"));
    assert!(matches!(check_owner(false, "active", true, "suspended"), Err(AppError::Forbidden(m)) if m == "Tenant has been deactivated"));
}

#[test]
fn build_ctx_uses_principal() {
    let p = ApiKeyPrincipal { api_key_public_id: "ak".into(), organization_id: 1, tenant_id: 2, user_id: 3 };
    let c = build_ctx(&p, 77);
    assert_eq!((c.request_id, c.created_by, c.organization_id, c.tenant_id), (77, 3, 1, 2));
}

#[test]
fn cache_keys_are_prefixed() {
    assert_eq!(auth_cache_key("h1"), "auth:h1");
    assert_eq!(jwt_key_cache_key("kid1"), "jwt_pk:kid1");
}

#[test]
fn jwt_algorithms_are_parsed() {
    assert_eq!(parse_jwt_algorithm("RS256").unwrap(), JwtAlgorithm::RS256);
    assert_eq!(parse_jwt_algorithm("ES384").unwrap(), JwtAlgorithm::ES384);
    assert_eq!(unauthorized(parse_jwt_algorithm("HS256")), "unsupported JWT algorithm: HS256");
}

#[test]
fn jwt_header_and_key_rows() {
    assert_eq!(unauthorized(jwt_kid("not-a-jwt")), "invalid JWT header");
    // {"alg":"RS256","typ":"JWT"} without a kid
    let no_kid = "eyJhbGciOiJSUzI1NiIsInR5cCI6IkpXVCJ9.e30.c2ln";
    assert_eq!(unauthorized(jwt_kid(no_kid)), "JWT missing kid header");
    // {"alg":"RS256","kid":"k1"}
    let with_kid = "eyJhbGciOiJSUzI1NiIsImtpZCI6ImsxIn0.e30.c2ln";
    assert_eq!(jwt_kid(with_kid).unwrap(), "k1");
    assert_eq!(require_kid(Some("k".into())).unwrap(), "k");
    assert_eq!(unauthorized(require_kid(None)), "JWT missing kid header");
    assert_eq!(unauthorized(require_key_row::<u8>(None)), "invalid or revoked api key");
    assert_eq!(unauthorized(require_jwt_key_row(None)), "unknown or inactive JWT signing key");
    assert!(matches!(jwt_decode_error(true), AppError::Unauthorized(m) if m == "JWT has expired"));
    assert!(matches!(jwt_decode_error(false), AppError::Unauthorized(m) if m == "invalid JWT signature or claims"));
}

#[test]
fn jwt_key_entry_requires_public_key() {
    let row = JwtKeyRow {
        public_key: None,
        algorithm: "RS256".into(),
        tenant_id: 2,
        organization_id: 1,
        org_status: "active".into(),
        org_deleted: false,
        tenant_status: "active".into(),
        tenant_deleted: false,
    };
    assert_eq!(unauthorized(jwt_key_entry(row)), "HMAC keys cannot be used for service authentication");
}

#[test]
fn jwt_claims_are_checked_against_key() {
    let sub = "6f1c2b9e-1111-4222-8333-944455556666";
    let ok = check_jwt_claims("k1".into(), &key_entry(), &JwtClaims { sub: sub.into(), org_id: 1, tenant_id: 2 }).unwrap();
    assert_eq!(ok.api_key_public_id, "k1");
    assert_eq!(ok.user_id, 0x6f1c2b9e_1111_4222_8333_944455556666);
    assert_eq!(unauthorized(check_jwt_claims("k1".into(), &key_entry(), &JwtClaims { sub: sub.into(), org_id: 1, tenant_id: 9 })),
        "JWT tenant_id does not match key ownership");
    assert_eq!(unauthorized(check_jwt_claims("k1".into(), &key_entry(), &JwtClaims { sub: sub.into(), org_id: 9, tenant_id: 2 })),
        "JWT org_id does not match key ownership");
    assert_eq!(unauthorized(check_jwt_claims("k1".into(), &key_entry(), &JwtClaims { sub: "nope".into(), org_id: 1, tenant_id: 2 })),
        "JWT sub is not a valid UUID");
}

#[test]
fn generated_key_has_prefix_and_length() {
    let (key, prefix) = generate_api_key("live", 32);
    assert!(key.starts_with("hkly_live_"));
    assert_eq!(key.len(), "hkly_live_".len() + 32);
    assert_eq!(prefix, key["hkly_live_".len().."hkly_live_".len() + 3]);
    let (short, short_prefix) = generate_api_key("dev", 2);
    assert_eq!(short.len(), "hkly_dev_".len() + 2);
    assert_eq!(short_prefix.len(), 2);
}

#[test]
fn key_hash_is_url_safe_sha256() {
    let h = hash_key("hkly_live_abc");
    assert_eq!(h.len(), 43);
    assert!(h.chars().all(|c| c.is_ascii_alphanumeric() || c == '-' || c == '_'));
    assert_eq!(h, hash_key("hkly_live_abc"));
    assert_ne!(h, hash_key("hkly_live_abd"));
    assert_eq!(hash_key("abc"), "ungWv48Bz-pBQUDeXa4iI7ADYaOWF3qctBD_YfIAFa0");
}

#[test]
fn key_envelope_roundtrip() {
    let envelope = encrypt_key(RAW_KEY, "hkly_live_secret").unwrap();
    assert!(envelope.starts_with("v1$"));
    assert_eq!(decrypt_key(RAW_KEY, &envelope).unwrap(), "hkly_live_secret");
    assert!(decrypt_key([8u8; 32], &envelope).is_err());
    assert!(try_decrypt_key(RAW_KEY, "v1$bad").is_none() || matches!(try_decrypt_key(RAW_KEY, "v1$bad"), Some(Err(_))));
}

#[test]
fn create_request_validation() {
    assert!(create_request().validate_all(0).is_ok());
    let mut blank = create_request();
    blank.name = "   ".into();
    match blank.validate_all(0) {
        Err(AppError::Validation(errs)) => assert_eq!((errs[0].field.as_str(), errs[0].code.as_str()), ("name", "required")),
        other => panic!("unexpected {:?}", other),
    }
    let mut past = create_request();
    past.expires_at = Some(5);
    match past.validate_all(10) {
        Err(AppError::Validation(errs)) => assert_eq!(errs[0].message, "expires_at must be in the future"),
        other => panic!("unexpected {:?}", other),
    }
}

#[test]
fn update_request_validation() {
    let none = UpdateApiKeyRequest { description: None, expires_at: None };
    assert!(matches!(none.validate_all(0), Err(AppError::BadRequest(m)) if m == "at least one of description or expires_at must be provided"));
    let ok = UpdateApiKeyRequest { description: Some("d".into()), expires_at: Some(100) };
    assert!(ok.validate_all(0).is_ok());
}

#[test]
fn settings_validation() {
    let bad = UpdateApiKeySettingsRequest { max_keys_per_user: None, key_length: 8, default_ttl_seconds: None, allow_view_later: false };
    match bad.validate_all() {
        Err(AppError::Validation(errs)) => assert_eq!(errs[0].message, "key_length must be between 16 and 128"),
        other => panic!("unexpected {:?}", other),
    }
    let zero_max = UpsertApiKeySettingsRequest { organization_id: 1, tenant_id: 2, max_keys_per_user: Some(0), key_length: 32, default_ttl_seconds: None, allow_view_later: true };
    match zero_max.validate_all() {
        Err(AppError::Validation(errs)) => assert_eq!(errs[0].field, "max_keys_per_user"),
        other => panic!("unexpected {:?}", other),
    }
    let good = UpdateApiKeySettingsRequest { max_keys_per_user: Some(5), key_length: 32, default_ttl_seconds: Some(3600), allow_view_later: true };
    assert!(good.validate_all().is_ok());
}

#[test]
fn environment_text_and_response_hint() {
    assert_eq!(ApiKeyEnvironment::Sandbox.as_str(), "sandbox");
    let r = ApiKeyResponse::from(sample_key());
    assert_eq!(r.key_hint, "hkly_live_AbC...");
    assert!(r.key.is_none());
    assert_eq!(r.id, "ak_0123456789abcdef");
    let s = ApiKeySettingsResponse::from(settings(true));
    assert_eq!((s.id.as_str(), s.key_length, s.allow_view_later), ("aks_1", 24, true));
}

#[test]
fn environment_must_be_active_in_tenant() {
    let req = create_request();
    assert!(Svc::check_environment(Some(environment(2, EnvironmentStatus::Active)), &req).is_ok());
    assert!(matches!(Svc::check_environment(None, &req), Err(AppError::BadRequest(m)) if m == "environment not found: env_1"));
    assert!(matches!(Svc::check_environment(Some(environment(5, EnvironmentStatus::Active)), &req),
        Err(AppError::BadRequest(m)) if m == "environment does not belong to this tenant"));
    assert!(matches!(Svc::check_environment(Some(environment(2, EnvironmentStatus::Disabled)), &req),
        Err(AppError::BadRequest(m)) if m == "environment is not active"));
}

#[test]
fn policy_defaults_without_settings() {
    let p = Svc::policy(&None);
    assert_eq!((p.key_length, p.allow_view_later, p.default_ttl_seconds, p.max_keys_per_user), (32, false, None, None));
    let p = Svc::policy(&Some(settings(true)));
    assert_eq!((p.key_length, p.allow_view_later, p.default_ttl_seconds, p.max_keys_per_user), (24, true, Some(60), Some(3)));
}

#[test]
fn quota_is_enforced() {
    assert!(Svc::check_quota(3, 2).is_ok());
    match Svc::check_quota(3, 3) {
        Err(AppError::Conflict(m, errs)) => {
            assert_eq!(m, "user has reached the maximum of 3 api key(s) for this tenant");
            assert!(errs.is_empty());
        }
        other => panic!("unexpected {:?}", other),
    }
}

#[test]
fn expiry_prefers_request_then_default() {
    assert_eq!(Svc::expiry(Some(5), Some(60), 1_000), Some(5));
    assert_eq!(Svc::expiry(None, Some(60), 1_000), Some(1_000 + 60_000_000));
    assert_eq!(Svc::expiry(None, None, 1_000), None);
}

#[test]
fn issued_key_can_be_revealed() {
    let policy = KeyPolicy { key_length: 32, allow_view_later: true, default_ttl_seconds: None, max_keys_per_user: None };
    let issued = Svc::issue_key("staging", &policy, Some(RAW_KEY)).unwrap();
    assert!(issued.full_key.starts_with("hkly_staging_"));
    assert_eq!(issued.key_hash, hash_key(&issued.full_key));
    assert_eq!(issued.key_prefix.len(), 3);
    let envelope = issued.key_encrypted.clone().unwrap();
    let mut key = sample_key();
    key.key_encrypted = Some(envelope.clone());
    let gate = Svc::reveal_envelope(&Some(settings(true)), &key).unwrap();
    assert_eq!(gate, envelope);
    let revealed = Svc::reveal_key(RAW_KEY, key, &gate).unwrap();
    assert_eq!(revealed.key, issued.full_key);
    assert_eq!(revealed.id, "ak_0123456789abcdef");
}

#[test]
fn issued_key_without_view_later_is_not_stored() {
    let policy = KeyPolicy { key_length: 16, allow_view_later: false, default_ttl_seconds: None, max_keys_per_user: None };
    let issued = Svc::issue_key("dev", &policy, None).unwrap();
    assert!(issued.key_encrypted.is_none());
    assert_eq!(issued.full_key.len(), "hkly_dev_".len() + 16);
}

#[test]
fn reveal_gate_refusals() {
    let key = sample_key();
    assert!(matches!(Svc::reveal_envelope(&None, &key), Err(AppError::BadRequest(m)) if m == "view-later is not enabled for this tenant"));
    assert!(matches!(Svc::reveal_envelope(&Some(settings(true)), &key),
        Err(AppError::BadRequest(m)) if m == "this key was created before view-later was enabled and cannot be revealed"));
}

#[test]
fn audit_and_changes() {
    let key = sample_key();
    let a = Svc::audit_record(&key, AuditAction::Deleted, None, ctx());
    assert_eq!((a.api_key_id, a.actor_id, a.request_id, a.action), (11, Some(4), 100, AuditAction::Deleted));
    let req = UpdateApiKeyRequest { description: Some("new".into()), expires_at: None };
    let changes = Svc::update_changes(&key, &req).unwrap();
    assert_eq!(changes.description, Some((Some("old".to_string()), "new".to_string())));
    assert!(changes.expires_at.is_none());
    let nothing = UpdateApiKeyRequest { description: None, expires_at: None };
    assert!(Svc::update_changes(&key, &nothing).is_none());
}

#[test]
fn missing_keys_and_settings() {
    assert!(matches!(Svc::require_key::<u8>(None, "ak_x"), Err(AppError::NotFound(m)) if m == "api key not found: ak_x"));
    assert!(matches!(Svc::require_settings::<u8>(None, "aks_x"), Err(AppError::NotFound(m)) if m == "api key settings not found: aks_x"));
    assert!(Svc::check_deleted(true, "ak_x").is_ok());
    assert!(matches!(Svc::check_deleted(false, "ak_x"), Err(AppError::NotFound(m)) if m == "api key not found: ak_x"));
}

#[test]
fn cursor_pages_list_every_key_once() {
    // Keys with ids 1..=7, listed two at a time as the store would: ids after the cursor, in order.
    let ids: Vec<u128> = (1..=7).collect();
    let mut seen = Vec::new();
    let mut cursor: Option<u128> = None;
    loop {
        let fetched: Vec<ApiKey> = ids
            .iter()
            .filter(|id| cursor.map_or(true, |c| **id > c))
            .take(3)
            .map(|id| {
                let mut k = sample_key();
                k.id = *id;
                k
            })
            .collect();
        let (items, next) = ApiKeyRepository::<()>::finish_page(fetched, 2);
        assert!(items.len() <= 2);
        seen.extend(items.iter().map(|k| k.id));
        match next {
            Some(c) => cursor = Some(c),
            None => break,
        }
    }
    assert_eq!(seen, ids);
}

#[test]
fn api_key_listing_pages() {
    assert_eq!(Svc::list_limit(None), 20);
    assert_eq!(Svc::list_limit(Some(1000)), 100);
    let filter = ApiKeyRepository::<()>::list_filter(2, None, None, None, 20, None, None);
    assert_eq!(filter.fetch_limit, 21);
    let mut rows = vec![sample_key(), sample_key(), sample_key()];
    rows[1].id = 42;
    rows[2].id = 99;
    let (items, next) = ApiKeyRepository::<()>::finish_page(rows, 2);
    assert_eq!(items.len(), 2);
    assert_eq!(next, Some(42));
    let resp = Svc::list_response(items, Some(0x0123_4567_89ab_cdef_0011_2233_4455_6677), 2);
    assert_eq!(resp.items.len(), 2);
    assert_eq!(resp.next_cursor.as_deref(), Some("01234567-89ab-cdef-0011-223344556677"));
    assert_eq!(resp.limit, 2);
}
