use hookly::common::types::RequestContext;
use hookly::error::AppError;
use hookly::features::api_keys::auth::{AuthCacheEntry, JwtAlgorithm, JwtClaims, JwtKeyRow};
use hookly::features::api_keys::auth_flow::{AuthAction, AuthFlow, AuthInput};
use hookly::features::api_keys::create_flow::{CreateKeyAction, CreateKeyFlow, CreateKeyInput};
use hookly::features::api_keys::crypto::hash_key;
use hookly::features::api_keys::manage_flow::{
    DeleteAction, DeleteFlow, DeleteInput, RevealAction, RevealFlow, RevealInput, UpdateAction, UpdateFlow, UpdateInput,
};
use hookly::features::api_keys::service::{ApiKeyService, KeyPolicy};
use hookly::features::api_keys::models::{
    ApiKey, ApiKeyEnvironment, ApiKeySettings, ApiKeyStatus, AuditAction, CreateApiKeyRequest, UpdateApiKeyRequest,
};
use hookly::common::versioned_update::{UpdatedResource, VersionedUpdateAction, VersionedUpdateFlow, VersionedUpdateInput};
use hookly::features::assignments::assign_flow::{AssignAction, AssignFlow, AssignInput, AssignKind};
use hookly::features::environments::models::{Environment, EnvironmentStatus};
use hookly::features::events::bulk_flow::{BulkAction, BulkCreateFlow, BulkInput, BulkItem};
use hookly::features::events::create_flow::{CreateEventAction, CreateEventFlow, CreateEventInput};
use hookly::features::events::models::{BulkCreateEventItem, CreateEventRequest, EventRow, JsonKind, JsonPayload, PayloadType};
use hookly::features::events::repository::{ApplicationRef, EventTypeRef};

const RAW_KEY: [u8; 32] = [3u8; 32];
const NOW: i64 = 1_700_000_000_000_000;

fn ctx() -> RequestContext {
    RequestContext { request_id: 1, created_by: 2, organization_id: 3, tenant_id: 4 }
}

fn event_request(tags: Vec<(String, String)>) -> CreateEventRequest {
    CreateEventRequest {
        application_id: "app_1".into(),
        event_type_id: "evt_1".into(),
        schema_version: None,
        payload: JsonPayload { kind: JsonKind::Object, text: r#"{"name":"x"}"#.into() },
        payload_type: PayloadType::Json,
        tags,
    }
}

fn app_ref() -> ApplicationRef {
    ApplicationRef { id: 10, tenant_id: 4, organization_id: 3 }
}

fn et_ref() -> EventTypeRef {
    EventTypeRef {
        id: 20,
        schema_json: r#"{"type":"object","required":["name"]}"#.into(),
        schema_version: "1".into(),
    }
}

fn stored_event(public_id: &str, hash: Option<Vec<u8>>) -> EventRow {
    EventRow {
        id: 30,
        public_id: public_id.into(),
        application_id: 10,
        application_public_id: "app_1".into(),
        event_type_id: 20,
        event_type_public_id: "evt_1".into(),
        event_type_name: "order.created".into(),
        endpoint_id: None,
        endpoint_public_id: None,
        tenant_id: 4,
        organization_id: 3,
        payload: JsonPayload { kind: JsonKind::Object, text: "{}".into() },
        payload_type: "json".into(),
        idempotency_key: None,
        body_hash: hash,
        tags: vec![],
        request_id: 1,
        created_by: 2,
        created_at: 0,
        schema_valid: true,
        schema_errors: vec![],
    }
}

#[test]
fn event_flow_without_key_inserts_and_enqueues() {
    let mut flow = CreateEventFlow::new(event_request(vec![]), None, b"{}");
    match flow.advance(CreateEventInput::Start) {
        CreateEventAction::FetchApplication { application_id } => assert_eq!(application_id, "app_1"),
        _ => panic!("expected application lookup"),
    }
    match flow.advance(CreateEventInput::Application(Ok(Some(app_ref())))) {
        CreateEventAction::FetchEventType { event_type_id, tenant_id, schema_version } => {
            assert_eq!((event_type_id.as_str(), tenant_id, schema_version), ("evt_1", 4, None));
        }
        _ => panic!("expected event type lookup"),
    }
    match flow.advance(CreateEventInput::EventType(Ok(Some(et_ref())))) {
        CreateEventAction::Insert(ev) => {
            assert_eq!(ev.event_type_id, 20);
            assert!(ev.schema_valid);
            assert!(ev.idempotency_key.is_none() && ev.body_hash.is_none());
        }
        _ => panic!("expected insert"),
    }
    match flow.advance(CreateEventInput::Inserted(Ok(stored_event("ev_1", None)))) {
        CreateEventAction::EnqueueDeliveries { event_id, event_type_id, application_id, organization_id } => {
            assert_eq!((event_id, event_type_id, application_id, organization_id), (30, 20, 10, 3));
        }
        _ => panic!("expected enqueue"),
    }
    match flow.advance(CreateEventInput::Enqueued) {
        CreateEventAction::Respond(Ok((resp, created))) => {
            assert_eq!(resp.id, "ev_1");
            assert!(created);
        }
        _ => panic!("expected answer"),
    }
}

#[test]
fn event_flow_replay_releases_lock_then_answers() {
    let body = br#"{"a":1}"#;
    let mut flow = CreateEventFlow::new(event_request(vec![]), Some("k1".into()), body);
    let hash = flow.body_hash.clone();
    flow.advance(CreateEventInput::Start);
    flow.advance(CreateEventInput::Application(Ok(Some(app_ref()))));
    match flow.advance(CreateEventInput::EventType(Ok(Some(et_ref())))) {
        CreateEventAction::AcquireLock { key } => assert_eq!(key, "k1"),
        _ => panic!("expected lock"),
    }
    match flow.advance(CreateEventInput::Locked(Ok("tok".into()))) {
        CreateEventAction::FindExisting { application_id, key } => assert_eq!((application_id, key.as_str()), (10, "k1")),
        _ => panic!("expected lookup"),
    }
    match flow.advance(CreateEventInput::Existing(Ok(Some(stored_event("ev_old", Some(hash)))))) {
        CreateEventAction::ReleaseLock { key, token } => assert_eq!((key.as_str(), token.as_str()), ("k1", "tok")),
        _ => panic!("expected release"),
    }
    match flow.advance(CreateEventInput::Released) {
        CreateEventAction::Respond(Ok((resp, created))) => {
            assert_eq!(resp.id, "ev_old");
            assert!(!created);
        }
        _ => panic!("expected replay"),
    }
}

#[test]
fn event_flow_conflicting_body_is_refused() {
    let mut flow = CreateEventFlow::new(event_request(vec![]), Some("k1".into()), b"{}");
    flow.advance(CreateEventInput::Start);
    flow.advance(CreateEventInput::Application(Ok(Some(app_ref()))));
    flow.advance(CreateEventInput::EventType(Ok(Some(et_ref()))));
    flow.advance(CreateEventInput::Locked(Ok("tok".into())));
    assert!(matches!(flow.advance(CreateEventInput::Existing(Ok(Some(stored_event("ev_old", Some(vec![1, 2])))))),
        CreateEventAction::ReleaseLock { .. }));
    match flow.advance(CreateEventInput::Released) {
        CreateEventAction::Respond(Err(AppError::Conflict(m, _))) => {
            assert_eq!(m, "Idempotency key already used with a different request body")
        }
        _ => panic!("expected conflict"),
    }
}

#[test]
fn event_flow_refusals() {
    let mut flow = CreateEventFlow::new(event_request(vec![]), None, b"{}");
    flow.advance(CreateEventInput::Start);
    match flow.advance(CreateEventInput::Application(Ok(None))) {
        CreateEventAction::Respond(Err(AppError::NotFound(m))) => assert_eq!(m, "Application not found: app_1"),
        _ => panic!("expected not found"),
    }
    let six: Vec<(String, String)> = (0..6).map(|i| (format!("k{}", i), "v".to_string())).collect();
    let mut flow = CreateEventFlow::new(event_request(six), None, b"{}");
    match flow.advance(CreateEventInput::Start) {
        CreateEventAction::Respond(Err(AppError::BadRequest(m))) => assert_eq!(m, "tags: max 5 entries"),
        _ => panic!("expected bad request"),
    }
    let mut flow = CreateEventFlow::new(event_request(vec![]), None, b"{}");
    flow.advance(CreateEventInput::Start);
    flow.advance(CreateEventInput::Application(Ok(Some(app_ref()))));
    match flow.advance(CreateEventInput::EventType(Ok(None))) {
        CreateEventAction::Respond(Err(AppError::NotFound(m))) => assert_eq!(m, "Event type not found or archived: evt_1"),
        _ => panic!("expected not found"),
    }
}

#[test]
fn event_flow_failed_insert_releases_lock() {
    let mut flow = CreateEventFlow::new(event_request(vec![]), Some("k".into()), b"{}");
    flow.advance(CreateEventInput::Start);
    flow.advance(CreateEventInput::Application(Ok(Some(app_ref()))));
    flow.advance(CreateEventInput::EventType(Ok(Some(et_ref()))));
    flow.advance(CreateEventInput::Locked(Ok("t".into())));
    assert!(matches!(flow.advance(CreateEventInput::Existing(Ok(None))), CreateEventAction::Insert(_)));
    assert!(matches!(flow.advance(CreateEventInput::Inserted(Err(AppError::Database("down".into())))),
        CreateEventAction::ReleaseLock { .. }));
    assert!(matches!(flow.advance(CreateEventInput::Released), CreateEventAction::Respond(Err(AppError::Database(_)))));
}

fn key_request() -> CreateApiKeyRequest {
    CreateApiKeyRequest {
        tenant_id: 4,
        organization_id: 3,
        user_id: 5,
        name: "deploy".into(),
        description: None,
        environment_id: "env_1".into(),
        expires_at: None,
    }
}

fn environment() -> Environment {
    Environment {
        id: 9,
        public_id: "env_1".into(),
        tenant_id: 4,
        tenant_public_id: None,
        organization_public_id: None,
        name: "live".into(),
        description: None,
        status: EnvironmentStatus::Active,
        tags: vec![],
        version: 1,
        created_by: 2,
        updated_by: 2,
        created_at: 0,
        updated_at: 0,
        created_by_public_id: None,
        updated_by_public_id: None,
    }
}

fn settings(max: Option<i32>, view_later: bool) -> ApiKeySettings {
    ApiKeySettings {
        id: 1,
        public_id: "aks_1".into(),
        organization_id: 3,
        tenant_id: 4,
        max_keys_per_user: max,
        key_length: 20,
        default_ttl_seconds: Some(10),
        allow_view_later: view_later,
        version: 1,
        created_by: 2,
        updated_by: 2,
        created_at: 0,
        updated_at: 0,
    }
}

fn stored_key(encrypted: Option<String>) -> ApiKey {
    ApiKey {
        id: 7,
        public_id: "ak_1".into(),
        organization_id: 3,
        tenant_id: 4,
        user_id: 5,
        name: "deploy".into(),
        description: None,
        key_hash: "h".into(),
        key_encrypted: encrypted,
        key_prefix: "abc".into(),
        environment_id: "env_1".into(),
        environment: ApiKeyEnvironment::Live,
        status: ApiKeyStatus::Active,
        expires_at: None,
        last_used_at: None,
        version: 1,
        created_by: 2,
        updated_by: 2,
        created_at: 0,
        updated_at: 0,
        deleted_at: None,
    }
}

#[test]
fn key_flow_issues_stores_and_audits() {
    let mut flow = CreateKeyFlow::new(key_request(), ctx(), NOW);
    assert!(matches!(flow.advance(CreateKeyInput::Start), CreateKeyAction::FetchEnvironment { environment_id } if environment_id == "env_1"));
    assert!(matches!(flow.advance(CreateKeyInput::Environment(Ok(Some(environment())))), CreateKeyAction::FetchSettings { tenant_id: 4 }));
    assert!(matches!(flow.advance(CreateKeyInput::Settings(Ok(Some(settings(Some(2), true))))),
        CreateKeyAction::CountActive { tenant_id: 4, user_id: 5 }));
    assert!(matches!(flow.advance(CreateKeyInput::Count(Ok(1))), CreateKeyAction::FetchEncryptionKey));
    let new_key = match flow.advance(CreateKeyInput::EncryptionKey(Ok(RAW_KEY))) {
        CreateKeyAction::Insert(n) => n,
        _ => panic!("expected insert"),
    };
    assert_eq!(new_key.expires_at, Some(NOW + 10_000_000));
    assert!(new_key.key_encrypted.is_some());
    let mut stored = stored_key(new_key.key_encrypted.clone());
    stored.key_hash = new_key.key_hash.clone();
    match flow.advance(CreateKeyInput::Inserted(Ok(stored))) {
        CreateKeyAction::WriteAudit(a) => assert_eq!((a.action, a.api_key_id, a.actor_id), (AuditAction::Created, 7, Some(2))),
        _ => panic!("expected audit"),
    }
    match flow.advance(CreateKeyInput::AuditWritten) {
        CreateKeyAction::Respond(Ok((key, plaintext))) => {
            assert!(plaintext.starts_with("hkly_live_"));
            assert_eq!(plaintext.len(), "hkly_live_".len() + 20);
            assert_eq!(hash_key(&plaintext), key.key_hash);
        }
        _ => panic!("expected answer"),
    }
}

#[test]
fn key_flow_quota_and_environment_refusals() {
    let mut flow = CreateKeyFlow::new(key_request(), ctx(), NOW);
    flow.advance(CreateKeyInput::Start);
    flow.advance(CreateKeyInput::Environment(Ok(Some(environment()))));
    flow.advance(CreateKeyInput::Settings(Ok(Some(settings(Some(2), false)))));
    match flow.advance(CreateKeyInput::Count(Ok(2))) {
        CreateKeyAction::Respond(Err(AppError::Conflict(m, _))) => {
            assert_eq!(m, "user has reached the maximum of 2 api key(s) for this tenant")
        }
        _ => panic!("expected conflict"),
    }
    let mut flow = CreateKeyFlow::new(key_request(), ctx(), NOW);
    flow.advance(CreateKeyInput::Start);
    let mut other = environment();
    other.tenant_id = 99;
    match flow.advance(CreateKeyInput::Environment(Ok(Some(other)))) {
        CreateKeyAction::Respond(Err(AppError::BadRequest(m))) => assert_eq!(m, "environment does not belong to this tenant"),
        _ => panic!("expected bad request"),
    }
}

#[test]
fn key_flow_without_settings_uses_defaults() {
    let mut flow = CreateKeyFlow::new(key_request(), ctx(), NOW);
    flow.advance(CreateKeyInput::Start);
    flow.advance(CreateKeyInput::Environment(Ok(Some(environment()))));
    match flow.advance(CreateKeyInput::Settings(Ok(None))) {
        CreateKeyAction::Insert(n) => {
            assert!(n.key_encrypted.is_none());
            assert!(n.expires_at.is_none());
            assert_eq!(n.key_prefix.len(), 3);
        }
        _ => panic!("expected insert"),
    }
}

fn auth_entry() -> AuthCacheEntry {
    AuthCacheEntry {
        api_key_public_id: "ak_1".into(),
        organization_id: 3,
        tenant_id: 4,
        user_id: 5,
        expires_at: None,
        api_key_deleted: false,
        api_key_status: "active".into(),
        org_status: "active".into(),
        org_deleted: false,
        tenant_status: "active".into(),
        tenant_deleted: false,
    }
}

#[test]
fn issued_key_is_looked_up_by_its_stored_hash() {
    let policy = KeyPolicy { key_length: 40, allow_view_later: false, default_ttl_seconds: None, max_keys_per_user: None };
    let issued = ApiKeyService::<(), (), ()>::issue_key("production", &policy, None).unwrap();
    assert!(!issued.full_key.contains('.'));
    let mut flow = AuthFlow::new(Some(format!("Bearer {}", issued.full_key)), 9, NOW);
    match flow.advance(AuthInput::Start) {
        AuthAction::ReadKeyCache { cache_key } => assert_eq!(cache_key, format!("auth:{}", issued.key_hash)),
        _ => panic!("an issued key is an API key, not a JWT"),
    }
}

#[test]
fn auth_flow_api_key_cache_miss_then_store() {
    let mut flow = AuthFlow::new(Some("Bearer hkly_live_abc".into()), 77, NOW);
    match flow.advance(AuthInput::Start) {
        AuthAction::ReadKeyCache { cache_key } => assert_eq!(cache_key, format!("auth:{}", hash_key("hkly_live_abc"))),
        _ => panic!("expected cache read"),
    }
    assert!(matches!(flow.advance(AuthInput::KeyCache(None)), AuthAction::FetchKeyRow { .. }));
    match flow.advance(AuthInput::KeyRow(Ok(Some(auth_entry())))) {
        AuthAction::WriteKeyCache { ttl_secs, entry, .. } => {
            assert_eq!(ttl_secs, 60);
            assert_eq!(entry.api_key_public_id, "ak_1");
        }
        _ => panic!("expected cache write"),
    }
    assert!(matches!(flow.advance(AuthInput::CacheWritten), AuthAction::TouchLastUsed { api_key_public_id } if api_key_public_id == "ak_1"));
    match flow.advance(AuthInput::Touched) {
        AuthAction::Respond(Ok((p, c))) => {
            assert_eq!((p.user_id, c.request_id, c.created_by, c.tenant_id), (5, 77, 5, 4));
        }
        _ => panic!("expected principal"),
    }
}

#[test]
fn auth_flow_cached_key_is_judged() {
    let mut flow = AuthFlow::new(Some("Bearer hkly_live_abc".into()), 1, NOW);
    flow.advance(AuthInput::Start);
    let mut expired = auth_entry();
    expired.expires_at = Some(NOW - 1);
    match flow.advance(AuthInput::KeyCache(Some(expired))) {
        AuthAction::Respond(Err(AppError::Unauthorized(m))) => assert_eq!(m, "api key has expired"),
        _ => panic!("expected refusal"),
    }
    let mut flow = AuthFlow::new(None, 1, NOW);
    match flow.advance(AuthInput::Start) {
        AuthAction::Respond(Err(AppError::Unauthorized(m))) => assert_eq!(m, "missing Authorization header"),
        _ => panic!("expected refusal"),
    }
    let mut flow = AuthFlow::new(Some("Bearer x".into()), 1, NOW);
    flow.advance(AuthInput::Start);
    match flow.advance(AuthInput::KeyCache(None)) {
        AuthAction::FetchKeyRow { .. } => {}
        _ => panic!("expected lookup"),
    }
    match flow.advance(AuthInput::KeyRow(Ok(None))) {
        AuthAction::Respond(Err(AppError::Unauthorized(m))) => assert_eq!(m, "invalid or revoked api key"),
        _ => panic!("expected refusal"),
    }
}

#[test]
fn auth_flow_jwt_paths() {
    // header {"alg":"RS256","kid":"k1"}
    let token = "eyJhbGciOiJSUzI1NiIsImtpZCI6ImsxIn0.e30.c2ln";
    let mut flow = AuthFlow::new(Some(format!("Bearer {}", token)), 1, NOW);
    match flow.advance(AuthInput::Start) {
        AuthAction::ReadJwtKeyCache { cache_key } => assert_eq!(cache_key, "jwt_pk:k1"),
        _ => panic!("expected key cache read"),
    }
    assert!(matches!(flow.advance(AuthInput::JwtKeyCache(None)), AuthAction::FetchJwtKeyRow { kid } if kid == "k1"));
    let hmac_row = JwtKeyRow {
        public_key: None,
        algorithm: "HS256".into(),
        tenant_id: 4,
        organization_id: 3,
        org_status: "active".into(),
        org_deleted: false,
        tenant_status: "active".into(),
        tenant_deleted: false,
    };
    match flow.advance(AuthInput::JwtKeyRow(Ok(Some(hmac_row)))) {
        AuthAction::Respond(Err(AppError::Unauthorized(m))) => assert_eq!(m, "HMAC keys cannot be used for service authentication"),
        _ => panic!("expected refusal"),
    }
    let mut flow = AuthFlow::new(Some(format!("Bearer {}", token)), 1, NOW);
    flow.advance(AuthInput::Start);
    flow.advance(AuthInput::JwtKeyCache(None));
    let bad_pem = JwtKeyRow {
        public_key: Some("not a pem".into()),
        algorithm: "RS256".into(),
        tenant_id: 4,
        organization_id: 3,
        org_status: "active".into(),
        org_deleted: false,
        tenant_status: "active".into(),
        tenant_deleted: false,
    };
    assert!(matches!(flow.advance(AuthInput::JwtKeyRow(Ok(Some(bad_pem)))), AuthAction::WriteJwtKeyCache { ttl_secs: 300, .. }));
    match flow.advance(AuthInput::CacheWritten) {
        AuthAction::Respond(Err(AppError::Internal(m))) => assert_eq!(m, "invalid RSA public key in key record"),
        _ => panic!("expected refusal"),
    }
    let _ = (JwtAlgorithm::RS256, JwtClaims { sub: String::new(), org_id: 0, tenant_id: 0 });
}

#[test]
fn reveal_flow_returns_plaintext_after_audit() {
    let envelope = hookly::features::api_keys::crypto::encrypt_key(RAW_KEY, "hkly_live_secret").unwrap();
    let mut flow = RevealFlow::new("ak_1".into(), ctx());
    assert!(matches!(flow.advance(RevealInput::Start), RevealAction::FetchKey { .. }));
    assert!(matches!(flow.advance(RevealInput::Key(Ok(Some(stored_key(Some(envelope)))))), RevealAction::FetchSettings { tenant_id: 4 }));
    assert!(matches!(flow.advance(RevealInput::Settings(Ok(Some(settings(None, true))))), RevealAction::FetchEncryptionKey));
    match flow.advance(RevealInput::EncryptionKey(Ok(RAW_KEY))) {
        RevealAction::WriteAudit(a) => assert_eq!(a.action, AuditAction::Revealed),
        _ => panic!("expected audit"),
    }
    match flow.advance(RevealInput::AuditWritten) {
        RevealAction::Respond(Ok(r)) => assert_eq!((r.id.as_str(), r.key.as_str()), ("ak_1", "hkly_live_secret")),
        _ => panic!("expected plaintext"),
    }
}

#[test]
fn reveal_flow_refusals() {
    let mut flow = RevealFlow::new("ak_9".into(), ctx());
    flow.advance(RevealInput::Start);
    match flow.advance(RevealInput::Key(Ok(None))) {
        RevealAction::Respond(Err(AppError::NotFound(m))) => assert_eq!(m, "api key not found: ak_9"),
        _ => panic!("expected not found"),
    }
    let mut flow = RevealFlow::new("ak_1".into(), ctx());
    flow.advance(RevealInput::Start);
    flow.advance(RevealInput::Key(Ok(Some(stored_key(None)))));
    match flow.advance(RevealInput::Settings(Ok(None))) {
        RevealAction::Respond(Err(AppError::BadRequest(m))) => assert_eq!(m, "view-later is not enabled for this tenant"),
        _ => panic!("expected bad request"),
    }
}

#[test]
fn update_flow_audits_changes() {
    let req = UpdateApiKeyRequest { description: Some("new".into()), expires_at: None };
    let mut flow = UpdateFlow::new("ak_1".into(), req, ctx());
    flow.advance(UpdateInput::Start);
    match flow.advance(UpdateInput::Existing(Ok(Some(stored_key(None))))) {
        UpdateAction::Update { public_id, description, expires_at } => {
            assert_eq!((public_id.as_str(), description.as_deref(), expires_at), ("ak_1", Some("new"), None));
        }
        _ => panic!("expected update"),
    }
    let mut updated = stored_key(None);
    updated.description = Some("new".into());
    match flow.advance(UpdateInput::Updated(Ok(Some(updated)))) {
        UpdateAction::WriteAudit(a) => {
            let changes = a.changes.unwrap();
            assert_eq!(changes.description, Some((None, "new".to_string())));
            assert_eq!(a.action, AuditAction::Updated);
        }
        _ => panic!("expected audit"),
    }
    assert!(matches!(flow.advance(UpdateInput::AuditWritten), UpdateAction::Respond(Ok(k)) if k.description.as_deref() == Some("new")));
}

#[test]
fn delete_flow_reports_missing_rows() {
    let mut flow = DeleteFlow::new("ak_1".into(), ctx());
    flow.advance(DeleteInput::Start);
    assert!(matches!(flow.advance(DeleteInput::Existing(Ok(Some(stored_key(None))))), DeleteAction::SoftDelete { .. }));
    match flow.advance(DeleteInput::Deleted(Ok(false))) {
        DeleteAction::Respond(Err(AppError::NotFound(m))) => assert_eq!(m, "api key not found: ak_1"),
        _ => panic!("expected not found"),
    }
    let mut flow = DeleteFlow::new("ak_1".into(), ctx());
    flow.advance(DeleteInput::Start);
    flow.advance(DeleteInput::Existing(Ok(Some(stored_key(None)))));
    assert!(matches!(flow.advance(DeleteInput::Deleted(Ok(true))), DeleteAction::WriteAudit(a) if a.action == AuditAction::Deleted));
    assert!(matches!(flow.advance(DeleteInput::AuditWritten), DeleteAction::Respond(Ok(()))));
}

#[test]
fn created_key_reveals_to_itself() {
    let mut create = CreateKeyFlow::new(key_request(), ctx(), NOW);
    create.advance(CreateKeyInput::Start);
    create.advance(CreateKeyInput::Environment(Ok(Some(environment()))));
    create.advance(CreateKeyInput::Settings(Ok(Some(settings(None, true)))));
    let new_key = match create.advance(CreateKeyInput::EncryptionKey(Ok(RAW_KEY))) {
        CreateKeyAction::Insert(n) => n,
        _ => panic!("expected insert"),
    };
    let stored = stored_key(new_key.key_encrypted.clone());
    create.advance(CreateKeyInput::Inserted(Ok(stored_key(new_key.key_encrypted.clone()))));
    let plaintext = match create.advance(CreateKeyInput::AuditWritten) {
        CreateKeyAction::Respond(Ok((_, p))) => p,
        _ => panic!("expected answer"),
    };
    let mut reveal = RevealFlow::new("ak_1".into(), ctx());
    reveal.advance(RevealInput::Start);
    reveal.advance(RevealInput::Key(Ok(Some(stored))));
    reveal.advance(RevealInput::Settings(Ok(Some(settings(None, true)))));
    reveal.advance(RevealInput::EncryptionKey(Ok(RAW_KEY)));
    match reveal.advance(RevealInput::AuditWritten) {
        RevealAction::Respond(Ok(r)) => assert_eq!(r.key, plaintext),
        _ => panic!("expected the key back"),
    }
}

fn bulk_item(n: usize, tags: usize) -> BulkItem {
    let req = event_request((0..tags).map(|i| (format!("k{i}"), "v".to_string())).collect());
    BulkItem {
        item: BulkCreateEventItem {
            application_id: req.application_id,
            event_type_id: req.event_type_id,
            schema_version: None,
            payload: req.payload,
            payload_type: req.payload_type,
            tags: req.tags,
            idempotency_key: None,
        },
        request_json: format!("{{\"n\":{n}}}").into_bytes(),
    }
}

#[test]
fn bulk_flow_caps_at_ten_and_records_each_outcome() {
    // Twelve events whose tags break the rules: each is refused on its own, and only ten are processed.
    let items: Vec<BulkItem> = (0..12).map(|n| bulk_item(n, 6)).collect();
    let mut flow = BulkCreateFlow::new(items);
    let mut recorded = 0;
    let tally = loop {
        match flow.advance(BulkInput::Resume) {
            BulkAction::Recorded => recorded += 1,
            BulkAction::Respond(t) => break t,
            BulkAction::Perform(_) => panic!("a refused event performs nothing"),
        }
    };
    assert_eq!(recorded, 10);
    assert_eq!(tally.results.len(), 10);
    assert_eq!((tally.succeeded, tally.failed), (0, 10));
    for (i, r) in tally.results.iter().enumerate() {
        assert_eq!((r.index, r.status), (i, 400));
        assert!(r.event.is_none());
    }
}

#[test]
fn bulk_flow_performs_the_current_events_actions() {
    let mut flow = BulkCreateFlow::new(vec![bulk_item(0, 0), bulk_item(1, 6)]);
    match flow.advance(BulkInput::Resume) {
        BulkAction::Perform(CreateEventAction::FetchApplication { application_id }) => assert_eq!(application_id, "app_1"),
        _ => panic!("expected a lookup"),
    }
    assert!(matches!(flow.advance(BulkInput::Item(CreateEventInput::Application(Ok(None)))), BulkAction::Recorded));
    assert!(matches!(flow.advance(BulkInput::Resume), BulkAction::Recorded));
    match flow.advance(BulkInput::Resume) {
        BulkAction::Respond(t) => {
            assert_eq!(t.results.len(), 2);
            assert_eq!((t.results[0].status, t.results[1].status), (404, 400));
        }
        _ => panic!("expected the answer"),
    }
}

#[test]
fn assign_flow_resolves_every_id_before_inserting() {
    let mut flow = AssignFlow::new(AssignKind::Role, vec!["role_a".to_string(), "role_b".to_string()]);
    match flow.start() {
        AssignAction::Resolve { public_id } => assert_eq!(public_id, "role_a"),
        _ => panic!("expected a lookup"),
    }
    match flow.advance(AssignInput::Found(Ok(Some((7, "ignored".to_string()))))) {
        AssignAction::Resolve { public_id } => assert_eq!(public_id, "role_b"),
        _ => panic!("expected a lookup"),
    }
    match flow.advance(AssignInput::Found(Ok(Some((8, String::new()))))) {
        AssignAction::Insert { id, public_id } => {
            assert_eq!(id, 7);
            assert_eq!(public_id, "role_a");
        }
        _ => panic!("expected an insert"),
    }
    match flow.advance(AssignInput::Inserted(Ok(true))) {
        AssignAction::Insert { id, public_id } => {
            assert_eq!(id, 8);
            assert_eq!(public_id, "role_b");
        }
        _ => panic!("expected an insert"),
    }
    match flow.advance(AssignInput::Inserted(Ok(false))) {
        AssignAction::Respond(Ok(r)) => {
            assert_eq!(r.assigned, vec!["role_a".to_string()]);
            assert_eq!(r.already_present, vec!["role_b".to_string()]);
        }
        _ => panic!("expected the answer"),
    }
}

#[test]
fn assign_flow_stops_at_the_first_missing_permission() {
    let mut flow = AssignFlow::new(AssignKind::Permission, vec!["perm_a".to_string(), "perm_b".to_string()]);
    assert!(matches!(flow.start(), AssignAction::Resolve { .. }));
    match flow.advance(AssignInput::Found(Ok(Some((1, "perm_a".to_string()))))) {
        AssignAction::Resolve { public_id } => assert_eq!(public_id, "perm_b"),
        _ => panic!("expected a lookup"),
    }
    match flow.advance(AssignInput::Found(Ok(None))) {
        AssignAction::Respond(Err(AppError::NotFound(m))) => assert_eq!(m, "permission not found: perm_b"),
        _ => panic!("expected not found"),
    }
}

#[test]
fn assign_flow_with_nothing_asked_answers_at_once() {
    let mut flow = AssignFlow::new(AssignKind::Permission, Vec::new());
    match flow.start() {
        AssignAction::Respond(Ok(r)) => {
            assert!(r.assigned.is_empty());
            assert!(r.already_present.is_empty());
        }
        _ => panic!("expected the answer"),
    }
}

#[test]
fn versioned_update_tells_a_stale_version_from_a_missing_record() {
    let mut flow = VersionedUpdateFlow::new(UpdatedResource::Endpoint, "ep_1".to_string());
    assert!(matches!(flow.advance::<u32>(VersionedUpdateInput::Checked(Ok(()))), VersionedUpdateAction::Update));
    assert!(matches!(flow.advance::<u32>(VersionedUpdateInput::Updated(Ok(None))), VersionedUpdateAction::Lookup));
    match flow.advance::<u32>(VersionedUpdateInput::Found(Ok(true))) {
        VersionedUpdateAction::Respond(Err(AppError::Conflict(m, errs))) => {
            assert_eq!(m, "version mismatch \u{2014} fetch the latest version and retry");
            assert!(errs.is_empty());
        }
        _ => panic!("expected a conflict"),
    }

    let mut gone = VersionedUpdateFlow::new(UpdatedResource::EventType, "evt_1".to_string());
    gone.advance::<u32>(VersionedUpdateInput::Checked(Ok(())));
    gone.advance::<u32>(VersionedUpdateInput::Updated(Ok(None)));
    match gone.advance::<u32>(VersionedUpdateInput::Found(Ok(false))) {
        VersionedUpdateAction::Respond(Err(AppError::NotFound(m))) => assert_eq!(m, "EventType not found: evt_1"),
        _ => panic!("expected not found"),
    }
}

#[test]
fn versioned_update_answers_a_failed_check_before_updating() {
    let mut flow = VersionedUpdateFlow::new(UpdatedResource::Endpoint, "ep_1".to_string());
    match flow.advance::<u32>(VersionedUpdateInput::Checked(Err(AppError::BadRequest("bad".to_string())))) {
        VersionedUpdateAction::Respond(Err(AppError::BadRequest(m))) => assert_eq!(m, "bad"),
        _ => panic!("expected the check's error"),
    }
    let mut ok = VersionedUpdateFlow::new(UpdatedResource::Endpoint, "ep_1".to_string());
    ok.advance::<u32>(VersionedUpdateInput::Checked(Ok(())));
    assert!(matches!(ok.advance(VersionedUpdateInput::Updated(Ok(Some(7u32)))), VersionedUpdateAction::Respond(Ok(7))));
}
