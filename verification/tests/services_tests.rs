use hookly::common::crypto::TenantCrypto;
use hookly::config::{OtelConfig, ServerConfig};
use hookly::email::NoopEmailService;
use hookly::error::AppError;
use hookly::features::applications::models::{
    Application, ApplicationState, CreateApplicationRequest, CreateApplicationResponse, GetApplicationResponse,
};
use hookly::features::applications::repository::ApplicationRepository;
use hookly::features::applications::service::ApplicationService;
use hookly::features::assignments::models::{AssignedRole, AssignedRoleRow, BulkAssignResponse, EffectivePermissionRow};
use hookly::features::assignments::repository::AssignmentRepository;
use hookly::features::assignments::service::{make_svc as assignment_svc, AssignmentService};
use hookly::features::delivery::models::{retry_refusal, DeliveryJobResponse, DeliveryJobRow};
use hookly::features::delivery::repository::DeliveryRepository;
use hookly::features::endpoints::models::{
    CreateEndpointRequest, EndpointRow, EndpointType, HttpConfig, SecretRow, UpdateEndpointRequest,
};
use hookly::features::endpoints::repository::EndpointRepository;
use hookly::features::endpoints::service::{svc as endpoint_svc, EndpointService};
use hookly::features::environments::models::{CreateEnvironmentRequest, Environment, EnvironmentResponse, EnvironmentStatus};
use hookly::features::environments::repository::EnvironmentRepository;
use hookly::features::environments::service::{make_svc as environment_svc, EnvironmentService};
use hookly::features::event_types::models::{EventType, EventTypeResponse, EventTypeSchemaResponse, FieldType, PropertyDef};
use hookly::features::event_types::repository::EventTypeRepository;
use hookly::features::event_types::service::{svc as event_type_svc, EventTypeService};
use hookly::features::events::models::{
    BulkCreateEventItem, BulkCreateResponse, CreateEventRequest, EventResponse, EventRow, JsonKind, JsonPayload, PayloadType,
};
use hookly::features::events::repository::EventRepository;
use hookly::features::events::service::{bytes_eq, EventService};

type EnvSvc = EnvironmentService<()>;
type AppSvc = ApplicationService<()>;
type AssignSvc = AssignmentService<(), (), ()>;
type EventSvc = EventService<(), (), (), ()>;
type TypeSvc = EventTypeService<()>;
type EpSvc = EndpointService<()>;

const MASTER_KEY_B64: &str = "AAECAwQFBgcICQoLDA0ODxAREhMUFRYXGBkaGxwdHh8=";

fn tags(pairs: &[(&str, &str)]) -> Vec<(String, String)> {
    pairs.iter().map(|(k, v)| (k.to_string(), v.to_string())).collect()
}

fn bad_request<T>(r: Result<T, AppError>) -> String {
    match r {
        Err(AppError::BadRequest(m)) => m,
        Err(e) => panic!("unexpected error {:?}", e),
        Ok(_) => panic!("unexpected success"),
    }
}

fn not_found<T>(r: Result<T, AppError>) -> String {
    match r {
        Err(AppError::NotFound(m)) => m,
        Err(e) => panic!("unexpected error {:?}", e),
        Ok(_) => panic!("unexpected success"),
    }
}

fn env_named(name: &str) -> CreateEnvironmentRequest {
    CreateEnvironmentRequest { tenant_id: "ten_1".into(), name: name.into(), description: None, tags: None }
}

fn environment(public_id: &str) -> Environment {
    Environment {
        id: 1,
        public_id: public_id.into(),
        tenant_id: 0x0123_4567_89ab_cdef_0011_2233_4455_6677,
        tenant_public_id: None,
        organization_public_id: Some("org_1".into()),
        name: "prod".into(),
        description: None,
        status: EnvironmentStatus::Active,
        tags: tags(&[("a", "b")]),
        version: 1,
        created_by: 5,
        updated_by: 6,
        created_at: 0,
        updated_at: 0,
        created_by_public_id: Some("usr_1".into()),
        updated_by_public_id: None,
    }
}

fn payload(kind: JsonKind, text: &str) -> JsonPayload {
    JsonPayload { kind, text: text.into() }
}

fn event_row(public_id: &str, hash: Option<Vec<u8>>) -> EventRow {
    EventRow {
        id: 1,
        public_id: public_id.into(),
        application_id: 2,
        application_public_id: "app_1".into(),
        event_type_id: 3,
        event_type_public_id: "evt_1".into(),
        event_type_name: "order.created".into(),
        endpoint_id: None,
        endpoint_public_id: None,
        tenant_id: 4,
        organization_id: 5,
        payload: payload(JsonKind::Object, "{\"a\":1}"),
        payload_type: "json".into(),
        idempotency_key: Some("k".into()),
        body_hash: hash,
        tags: vec![],
        request_id: 6,
        created_by: 7,
        created_at: 8,
        schema_valid: true,
        schema_errors: vec![],
    }
}

fn event_request(kind: JsonKind, text: &str, payload_type: PayloadType) -> CreateEventRequest {
    CreateEventRequest {
        application_id: "app_1".into(),
        event_type_id: "evt_1".into(),
        schema_version: None,
        payload: payload(kind, text),
        payload_type,
        tags: vec![],
    }
}

fn http(url: &str, method: &str) -> Result<HttpConfig, String> {
    Ok(HttpConfig { url: url.into(), method: method.into(), headers: vec![] })
}

fn endpoint_request() -> CreateEndpointRequest {
    CreateEndpointRequest {
        application_id: "app_1".into(),
        description: None,
        endpoint_type: EndpointType::Http,
        config: "{\"url\":\"https://example.com\"}".into(),
        event_types: vec!["evt_0123456789abcdef".into()],
        rate_limit_per_minute: Some(60),
        tags: vec![],
    }
}

fn property(field_type: FieldType) -> PropertyDef {
    PropertyDef {
        field_type,
        format: None,
        min_length: None,
        max_length: None,
        minimum: None,
        maximum: None,
        properties: None,
        required: vec![],
        items: None,
        min_items: None,
        max_items: None,
        description: None,
        nullable: false,
    }
}

fn event_type(public_id: &str) -> EventType {
    EventType {
        id: 1,
        public_id: public_id.into(),
        organization_id: 2,
        tenant_id: 3,
        name: "order.created".into(),
        schema_version: "1.0".into(),
        description: None,
        event_schema: property(FieldType::Object),
        archived: false,
        version: 1,
        created_by: 4,
        updated_by: 4,
        created_at: 0,
        updated_at: 0,
    }
}

// ── environments ─────────────────────────────────────────────────────────────

#[test]
fn environment_name_rules() {
    assert!(env_named("prod-eu_1").validate_all().is_ok());
    let cases = [
        ("ab", "min_length", "name must be at least 3 characters"),
        ("  a  ", "min_length", "name must be at least 3 characters"),
        ("1prod", "invalid_format", "name must start with a lowercase letter"),
        ("prod env", "invalid_format", "name may only contain lowercase letters, digits, hyphens, and underscores"),
    ];
    for (name, code, message) in cases {
        match env_named(name).validate_all() {
            Err(AppError::Validation(errs)) => {
                assert_eq!(errs.len(), 1);
                assert_eq!((errs[0].field.as_str(), errs[0].code.as_str(), errs[0].message.as_str()), ("name", code, message));
            }
            other => panic!("unexpected {:?} for {}", other, name),
        }
    }
    let long = "a".repeat(65);
    match env_named(&long).validate_all() {
        Err(AppError::Validation(errs)) => assert_eq!(errs[0].code, "max_length"),
        other => panic!("unexpected {:?}", other),
    }
}

#[test]
fn environment_normalize_trims_and_lowercases() {
    let req = env_named("  Prod-EU  ").normalize();
    assert_eq!(req.name, "prod-eu");
    assert_eq!(req.tenant_id, "ten_1");
    assert!(req.validate_all().is_ok());
}

#[test]
fn environment_response_fills_public_ids() {
    let r = EnvironmentResponse::from(environment("env_1"));
    assert_eq!(r.id, "env_1");
    assert_eq!(r.organization_id, "org_1");
    assert_eq!(r.tenant_id, "01234567-89ab-cdef-0011-223344556677");
    assert_eq!(r.created_by, "usr_1");
    assert_eq!(r.updated_by, "00000000-0000-0000-0000-000000000006");
}

#[test]
fn environment_service_decisions() {
    assert!(EnvSvc::check_tags(&None).is_ok());
    assert!(EnvSvc::check_tags(&Some(tags(&[("a", "b")]))).is_ok());
    assert_eq!(bad_request(EnvSvc::check_tags(&Some(tags(&[("a", "1"), ("b", "2"), ("c", "3"), ("d", "4"), ("e", "5"), ("f", "6")])))),
        "tags: max 5 entries");
    assert!(EnvSvc::stored_tags(None).is_empty());
    assert_eq!(EnvSvc::list_tags(Some(vec![])), None);
    assert_eq!(EnvSvc::list_tags(Some(tags(&[("a", "b")]))).unwrap().len(), 1);
    assert_eq!(EnvSvc::list_limit(Some(0)), 1);
    assert_eq!(not_found(EnvSvc::require_tenant(None, "ten_9")), "Tenant not found: ten_9");
    assert_eq!(EnvSvc::require_tenant(Some(5), "ten_9").unwrap(), 5);
    assert_eq!(not_found(EnvSvc::require_environment::<u8>(None, "env_9")), "environment not found: env_9");
    let svc = environment_svc(42u8);
    assert_eq!(svc.repo.pool, 42);
    assert_eq!(EnvironmentService::new(7u8).repo, 7);
}

#[test]
fn environment_listing_pages() {
    let filter = EnvironmentRepository::<()>::list_filter(1, Some(EnvironmentStatus::Active), 2, None, None);
    assert_eq!(filter.fetch_limit, 3);
    let rows = vec![environment("env_a"), environment("env_b"), environment("env_c")];
    let (items, next) = EnvironmentRepository::<()>::finish_page(rows, 2);
    assert_eq!(items.len(), 2);
    assert_eq!(next.as_deref(), Some("env_b"));
    let resp = EnvSvc::list_response(items, next, 2);
    assert_eq!(resp.items[0].id, "env_a");
    assert_eq!(resp.items[1].id, "env_b");
    assert_eq!(resp.next_cursor.as_deref(), Some("env_b"));
    let (items, next) = EnvironmentRepository::<()>::finish_page(vec![environment("env_a")], 2);
    assert_eq!(items.len(), 1);
    assert!(next.is_none());
    assert_eq!(EnvironmentRepository::new(3u8).pool, 3);
}

// ── applications ─────────────────────────────────────────────────────────────

#[test]
fn application_service_decisions() {
    let req = CreateApplicationRequest {
        tenant_id: 1,
        organization_id: 2,
        environment_id: "env_1".into(),
        name: "shop".into(),
        description: "d".into(),
        tags: tags(&[("team", "core")]),
    };
    assert!(AppSvc::check_create(&req).is_ok());
    assert_eq!(not_found(AppSvc::require_environment(None, "env_x")), "Environment not found: env_x");
    assert_eq!(not_found(AppSvc::require_application::<u8>(None, "app_x")), "Application not found: app_x");
    assert_eq!(ApplicationService::new(ApplicationRepository::new(9u8)).repo.pool, 9);
}

#[test]
fn application_responses_copy_fields() {
    let app = Application {
        id: 1,
        public_id: "app_1".into(),
        tenant_id: 2,
        organization_id: 3,
        name: "shop".into(),
        description: "d".into(),
        tags: vec![],
        state: ApplicationState::Active,
        created_by: 4,
        updated_by: 5,
        created_at: 6,
        updated_at: 7,
    };
    let r = GetApplicationResponse::from(app);
    assert_eq!((r.public_id.as_str(), r.state, r.updated_at), ("app_1", ApplicationState::Active, 7));
    let app2 = Application { id: 1, public_id: "app_2".into(), tenant_id: 2, organization_id: 3, name: "n".into(), description: "d".into(),
        tags: vec![], state: ApplicationState::Suspended, created_by: 4, updated_by: 5, created_at: 6, updated_at: 7 };
    let c = CreateApplicationResponse::from(app2);
    assert_eq!((c.public_id.as_str(), c.state), ("app_2", ApplicationState::Suspended));
}

// ── assignments ──────────────────────────────────────────────────────────────

#[test]
fn bulk_assign_partitions_outcomes() {
    let r = BulkAssignResponse::from_outcomes(vec![("r1".into(), true), ("r2".into(), false), ("r3".into(), true)]);
    assert_eq!(r.assigned, vec!["r1".to_string(), "r3".to_string()]);
    assert_eq!(r.already_present, vec!["r2".to_string()]);
    let mut acc = BulkAssignResponse::new();
    acc.record("p1".into(), false);
    assert_eq!(acc.already_present, vec!["p1".to_string()]);
    assert!(acc.assigned.is_empty());
}

#[test]
fn assignment_service_decisions() {
    assert_eq!(AssignSvc::resolve_role(Some(7), "rol_1").unwrap(), (7, "rol_1".to_string()));
    assert_eq!(not_found(AssignSvc::resolve_role(None, "rol_1")), "role not found: rol_1");
    assert_eq!(AssignSvc::resolve_permission(Some((8, "prm_1".into())), "prm_1").unwrap(), (8, "prm_1".to_string()));
    assert_eq!(not_found(AssignSvc::resolve_permission(None, "prm_1")), "permission not found: prm_1");
    assert!(AssignSvc::check_removed(true, "role", "rol_1", "user", "usr_1").is_ok());
    assert_eq!(not_found(AssignSvc::check_removed(false, "role", "rol_1", "user", "usr_1")), "role rol_1 not assigned to user usr_1");
    assert_eq!(not_found(AssignSvc::check_removed(false, "permission", "prm_1", "api key", "ak_1")),
        "permission prm_1 not assigned to api key ak_1");
    let rows = vec![EffectivePermissionRow {
        perm_public_id: "prm_1".into(),
        perm_name: "read".into(),
        resource: "events".into(),
        action: "read".into(),
        source: "role".into(),
        from_role: Some("admin".into()),
        expires_at: None,
    }];
    let resp = AssignSvc::effective_permissions("usr_1", 9, rows);
    assert_eq!((resp.subject_id.as_str(), resp.tenant_id, resp.permissions.len()), ("usr_1", 9, 1));
    assert_eq!(resp.permissions[0].from_role.as_deref(), Some("admin"));
    let svc = assignment_svc(3u8);
    assert_eq!(svc.repo.pool, 3);
    assert_eq!(AssignmentService::new(AssignmentRepository::new(1u8), 2u8, 3u8).perm_repo, 3);
    let role = AssignedRole::from(AssignedRoleRow { role_public_id: "rol_1".into(), role_name: "admin".into(), tenant_id: 1, expires_at: None, created_at: 2 });
    assert_eq!(role.role_id, "rol_1");
}

// ── events ───────────────────────────────────────────────────────────────────

#[test]
fn payload_type_text_and_default() {
    assert_eq!(PayloadType::Json.as_str(), "json");
    assert_eq!(PayloadType::Text.as_str(), "text");
    assert_eq!(PayloadType::default(), PayloadType::Json);
    assert_eq!(hookly::features::events::models::default_page(), 1);
    assert_eq!(hookly::features::events::models::default_limit(), 20);
}

#[test]
fn payload_validation() {
    assert!(EventSvc::validate_payload(&payload(JsonKind::Object, "{}"), &PayloadType::Json).is_ok());
    assert_eq!(bad_request(EventSvc::validate_payload(&payload(JsonKind::Array, "[]"), &PayloadType::Json)),
        "payload must be a JSON object when payload_type is 'json'");
    assert_eq!(bad_request(EventSvc::validate_payload(&payload(JsonKind::Object, "{}"), &PayloadType::Text)),
        "payload must be a string when payload_type is 'text'");
    let big = format!("\"{}\"", "x".repeat(524_288));
    assert_eq!(bad_request(EventSvc::validate_payload(&payload(JsonKind::String, &big), &PayloadType::Text)),
        "payload exceeds 512 KB limit");
    let fits = format!("\"{}\"", "x".repeat(524_286));
    assert!(EventSvc::validate_payload(&payload(JsonKind::String, &fits), &PayloadType::Text).is_ok());
}

#[test]
fn event_request_checks_payload_then_tags() {
    assert!(EventSvc::check_request(&event_request(JsonKind::Object, "{}", PayloadType::Json)).is_ok());
    let mut bad_tags = event_request(JsonKind::Object, "{}", PayloadType::Json);
    bad_tags.tags = tags(&[("a", "1"), ("b", "2"), ("c", "3"), ("d", "4"), ("e", "5"), ("f", "6")]);
    assert_eq!(bad_request(EventSvc::check_request(&bad_tags)), "tags: max 5 entries");
    let mut both = event_request(JsonKind::Null, "null", PayloadType::Json);
    both.tags = bad_tags.tags.clone();
    assert_eq!(bad_request(EventSvc::check_request(&both)), "payload must be a JSON object when payload_type is 'json'");
}

#[test]
fn event_lookups_name_what_is_missing() {
    assert_eq!(not_found(EventSvc::require_application::<u8>(None, "app_9")), "Application not found: app_9");
    assert_eq!(not_found(EventSvc::require_event_type::<u8>(None, "evt_9")), "Event type not found or archived: evt_9");
    assert_eq!(not_found(EventSvc::require_event::<u8>(None, "ev_9")), "Event not found: ev_9");
}

#[test]
fn schema_messages_become_schema_errors() {
    assert_eq!(EventSvc::extract_required_field("\"email\" is a required property"), Some("email".to_string()));
    assert_eq!(EventSvc::extract_required_field("\"email\"   is a required property"), Some("email".to_string()));
    assert_eq!(EventSvc::extract_required_field("email is a required property"), None);
    assert_eq!(EventSvc::extract_required_field("\"email\" is not a string"), None);
    assert_eq!(EventSvc::dotted_path_text("/customer/address/city"), "customer.address.city");
    assert_eq!(EventSvc::dotted_path_text("//items/0"), "items.0");
    let e = EventSvc::schema_error_of("\"email\" is a required property".into(), "".into());
    assert_eq!((e.field.as_str(), e.message.as_str()), ("email", "Missing required property"));
    let e = EventSvc::schema_error_of("5 is not of type \"string\"".into(), "/name".into());
    assert_eq!((e.field.as_str(), e.message.as_str()), ("name", "5 is not of type \"string\""));
}

#[test]
fn schema_result_from_findings() {
    let (valid, errors) = EventSvc::schema_result(None);
    assert!(valid && errors.is_empty());
    let (valid, errors) = EventSvc::schema_result(Some(vec![]));
    assert!(valid && errors.is_empty());
    let (valid, errors) = EventSvc::schema_result(Some(vec![("bad".into(), "/a/b".into())]));
    assert!(!valid);
    assert_eq!(errors[0].field, "a.b");
}

#[test]
fn schema_check_runs_json_schema() {
    let schema = r#"{"type":"object","properties":{"name":{"type":"string"}},"required":["name"]}"#;
    let (valid, errors) = EventSvc::validate_against_schema(schema, &payload(JsonKind::Object, r#"{"name":"x"}"#));
    assert!(valid);
    assert!(errors.is_empty());
    let (valid, errors) = EventSvc::validate_against_schema(schema, &payload(JsonKind::Object, r#"{}"#));
    assert!(!valid);
    assert_eq!(errors.len(), 1);
    assert_eq!(errors[0].field, "name");
    assert_eq!(errors[0].message, "Missing required property");
    let (valid, errors) = EventSvc::validate_against_schema(schema, &payload(JsonKind::Object, r#"{"name":5}"#));
    assert!(!valid);
    assert_eq!(errors[0].field, "name");
    let (valid, errors) = EventSvc::schema_check(&PayloadType::Text, schema, &payload(JsonKind::String, "\"hi\""));
    assert!(valid && errors.is_empty());
    // A schema that does not compile is treated as no schema.
    let (valid, errors) = EventSvc::validate_against_schema(r#"{"type":12}"#, &payload(JsonKind::Object, "{}"));
    assert!(valid && errors.is_empty());
}

#[test]
fn idempotent_replay_decisions() {
    assert!(EventSvc::replay_decision(None, b"h").unwrap().is_none());
    let replay = EventSvc::replay_decision(Some(event_row("ev_1", Some(b"h".to_vec()))), b"h").unwrap().unwrap();
    assert_eq!(replay.id, "ev_1");
    match EventSvc::replay_decision(Some(event_row("ev_1", Some(b"other".to_vec()))), b"h") {
        Err(AppError::Conflict(m, errs)) => {
            assert_eq!(m, "Idempotency key already used with a different request body");
            assert!(errs.is_empty());
        }
        other => panic!("unexpected {:?}", other.map(|o| o.map(|e| e.id))),
    }
    assert!(matches!(EventSvc::replay_decision(Some(event_row("ev_1", None)), b"h"), Err(AppError::Conflict(..))));
    assert!(bytes_eq(b"abc", b"abc"));
    assert!(!bytes_eq(b"abc", b"abd"));
    assert!(!bytes_eq(b"abc", b"ab"));
}

#[test]
fn bulk_tally_records_each_outcome() {
    let mut tally = BulkCreateResponse::new();
    tally.record(Ok((EventResponse::from(event_row("ev_1", None)), true)));
    tally.record(Ok((EventResponse::from(event_row("ev_2", None)), false)));
    tally.record(Err(AppError::NotFound("Application not found: app_9".into())));
    assert_eq!((tally.succeeded, tally.failed, tally.results.len()), (2, 1, 3));
    assert_eq!(tally.results[0].status, 201);
    assert_eq!(tally.results[1].status, 200);
    assert_eq!(tally.results[2].status, 404);
    assert_eq!(tally.results[2].index, 2);
    let err = tally.results[2].error.as_ref().unwrap();
    assert_eq!((err.code.as_str(), err.message.as_str()), ("not_found", "Application not found: app_9"));
    assert!(tally.results[2].event.is_none());
    for (i, item) in tally.results.iter().enumerate() {
        assert_eq!(item.index, i);
    }
}

#[test]
fn bulk_item_becomes_request() {
    let item = BulkCreateEventItem {
        application_id: "app_1".into(),
        event_type_id: "evt_1".into(),
        schema_version: Some("2".into()),
        payload: payload(JsonKind::Object, "{}"),
        payload_type: PayloadType::Json,
        tags: vec![],
        idempotency_key: Some("k1".into()),
    };
    let (req, key) = EventSvc::bulk_item_request(item);
    assert_eq!(req.application_id, "app_1");
    assert_eq!(req.schema_version.as_deref(), Some("2"));
    assert_eq!(key.as_deref(), Some("k1"));
}

#[test]
fn event_listing_window_and_response() {
    assert_eq!(EventRepository::<()>::list_window(1, 20), (20, 0));
    assert_eq!(EventRepository::<()>::list_window(3, 500), (100, 200));
    assert_eq!(EventRepository::<()>::list_total(Some(42)), 42);
    assert_eq!(EventRepository::<()>::list_total(None), 0);
    let resp = EventSvc::list_response(vec![event_row("ev_1", None), event_row("ev_2", None)], 42, 3, 20);
    assert_eq!((resp.total, resp.page, resp.limit, resp.items.len()), (42, 3, 20, 2));
    assert_eq!(resp.items[1].id, "ev_2");
    assert_eq!(EventService::new(1u8, 2u8, 3u8, 4u8).redis, 4);
    assert_eq!(EventRepository::new(5u8).db, 5);
}

// ── event types ──────────────────────────────────────────────────────────────

#[test]
fn event_type_schema_root_must_be_object() {
    assert!(TypeSvc::validate_schema(&property(FieldType::Object)).is_ok());
    assert_eq!(bad_request(TypeSvc::validate_schema(&property(FieldType::Array))), "event_schema root must be of type 'object'");
    assert_eq!(hookly::features::event_types::models::default_page(), 1);
    assert_eq!(hookly::features::event_types::models::default_limit(), 20);
}

#[test]
fn event_type_refusals() {
    assert_eq!(not_found(TypeSvc::require_event_type::<u8>(None, "et_1")), "EventType not found: et_1");
    assert!(matches!(TypeSvc::update_refusal(true, "et_1"),
        AppError::Conflict(m, errs) if m == "version mismatch \u{2014} fetch the latest version and retry" && errs.is_empty()));
    assert!(matches!(TypeSvc::update_refusal(false, "et_1"), AppError::NotFound(m) if m == "EventType not found: et_1"));
}

#[test]
fn event_type_listing() {
    assert_eq!(EventTypeRepository::<()>::list_offset(1, 20), 0);
    assert_eq!(EventTypeRepository::<()>::list_offset(4, 25), 75);
    assert_eq!(EventTypeRepository::<()>::list_total(Some(3)), 3);
    let resp = TypeSvc::list_response(vec![event_type("et_1"), event_type("et_2")], 2, 1, 20);
    assert_eq!((resp.total, resp.page, resp.limit), (2, 1, 20));
    assert_eq!(resp.items[0].id, "et_1");
    let r = EventTypeResponse::from(event_type("et_3"));
    assert_eq!((r.id.as_str(), r.name.as_str()), ("et_3", "order.created"));
    let s = EventTypeSchemaResponse::from(event_type("et_4"));
    assert_eq!(s.event_schema.field_type, FieldType::Object);
    assert_eq!(event_type_svc(8u8).repo.pool, 8);
    assert_eq!(EventTypeService::new(1u8).repo, 1);
}

// ── endpoints ────────────────────────────────────────────────────────────────

#[test]
fn endpoint_type_and_defaults() {
    assert_eq!(EndpointType::Http.as_str(), "http");
    assert_eq!(HttpConfig::default_method(), "POST");
    assert_eq!(hookly::features::endpoints::models::default_page(), 1);
    assert_eq!(hookly::features::endpoints::models::default_limit(), 20);
    let id = EndpointRow::new_public_id();
    assert!(id.starts_with("ep_"));
    assert_eq!(id.len(), 19);
    let sid = SecretRow::new_public_id();
    assert!(sid.starts_with("sec_"));
    assert_eq!(sid.len(), 20);
}

#[test]
fn http_config_rules() {
    assert!(EpSvc::validate_http_config(&http("https://example.com/hook", "post")).is_ok());
    assert!(EpSvc::validate_http_config(&http("http://example.com", "PUT")).is_ok());
    assert_eq!(bad_request(EpSvc::validate_http_config(&Err("missing field `url`".into()))), "invalid http config: missing field `url`");
    assert_eq!(bad_request(EpSvc::validate_http_config(&http("", "POST"))), "config.url is required");
    let long = format!("https://{}", "a".repeat(2041));
    assert_eq!(bad_request(EpSvc::validate_http_config(&http(&long, "POST"))), "config.url exceeds 2048 chars");
    assert_eq!(bad_request(EpSvc::validate_http_config(&http("ftp://x", "POST"))), "config.url must start with http:// or https://");
    assert_eq!(bad_request(EpSvc::validate_http_config(&http("https://x", "GET"))), "config.method must be POST or PUT");
    let many: Vec<(String, String)> = (0..11).map(|i| (format!("h{}", i), "v".to_string())).collect();
    let cfg = Ok(HttpConfig { url: "https://x".into(), method: "POST".into(), headers: many });
    assert_eq!(bad_request(EpSvc::validate_http_config(&cfg)), "config.headers: max 10 entries");
    let cfg = Ok(HttpConfig { url: "https://x".into(), method: "POST".into(), headers: vec![("k".into(), "v".repeat(1025))] });
    assert_eq!(bad_request(EpSvc::validate_http_config(&cfg)), "config.headers: value exceeds 1024 chars");
    let cfg = Ok(HttpConfig { url: "https://x".into(), method: "POST".into(), headers: vec![("k".repeat(257), "v".into())] });
    assert_eq!(bad_request(EpSvc::validate_http_config(&cfg)), "config.headers: key exceeds 256 chars");
}

#[test]
fn endpoint_field_rules() {
    assert!(EpSvc::validate_event_types(&vec!["evt_0123456789abcdef".into()]).is_ok());
    assert_eq!(bad_request(EpSvc::validate_event_types(&vec!["evt_short".into()])),
        "event_types: invalid id 'evt_short' (expected evt_<16 chars>)");
    assert_eq!(bad_request(EpSvc::validate_event_types(&vec!["xyz_0123456789abcdef".into()])),
        "event_types: invalid id 'xyz_0123456789abcdef' (expected evt_<16 chars>)");
    let many: Vec<String> = (0..101).map(|_| "evt_0123456789abcdef".to_string()).collect();
    assert_eq!(bad_request(EpSvc::validate_event_types(&many)), "event_types: max 100 entries");
    let many_tags: Vec<(String, String)> = (0..21).map(|i| (format!("k{}", i), "v".to_string())).collect();
    assert_eq!(bad_request(EpSvc::validate_tags(&many_tags)), "tags: max 20 entries");
    assert_eq!(bad_request(EpSvc::validate_tags(&vec![("k".repeat(129), "v".into())])), "tags: key exceeds 128 chars");
    assert_eq!(bad_request(EpSvc::validate_tags(&vec![("k".into(), "v".repeat(257))])), "tags: value exceeds 256 chars");
    assert!(EpSvc::validate_rate_limit(1).is_ok());
    assert!(EpSvc::validate_rate_limit(100_000).is_ok());
    assert_eq!(bad_request(EpSvc::validate_rate_limit(0)), "rate_limit_per_minute must be between 1 and 100000");
    assert_eq!(bad_request(EpSvc::validate_rate_limit(100_001)), "rate_limit_per_minute must be between 1 and 100000");
}

#[test]
fn endpoint_create_and_update_check_order() {
    let req = endpoint_request();
    assert!(EpSvc::check_create(&req, &http("https://example.com", "POST")).is_ok());
    let mut bad = endpoint_request();
    bad.event_types = vec!["nope".into()];
    bad.rate_limit_per_minute = Some(0);
    assert_eq!(bad_request(EpSvc::check_create(&bad, &http("https://example.com", "POST"))),
        "event_types: invalid id 'nope' (expected evt_<16 chars>)");
    assert_eq!(bad_request(EpSvc::check_create(&bad, &http("ftp://x", "POST"))), "config.url must start with http:// or https://");
    let update = UpdateEndpointRequest {
        description: None,
        config: None,
        event_types: None,
        rate_limit_per_minute: Some(Some(0)),
        tags: None,
        version: 3,
    };
    assert_eq!(bad_request(EpSvc::check_update(&update, &None)), "rate_limit_per_minute must be between 1 and 100000");
    let clear = UpdateEndpointRequest { description: None, config: None, event_types: None, rate_limit_per_minute: Some(None), tags: None, version: 3 };
    assert!(EpSvc::check_update(&clear, &None).is_ok());
}

#[test]
fn endpoint_update_plan_sets_given_fields() {
    let req = UpdateEndpointRequest {
        description: Some("d".into()),
        config: None,
        event_types: None,
        rate_limit_per_minute: Some(None),
        tags: Some(tags(&[("a", "b")])),
        version: 7,
    };
    let plan = EndpointRepository::<()>::update_plan(req);
    assert!(plan.update_description && !plan.update_config && !plan.update_event_types && plan.update_rate_limit && plan.update_tags);
    assert_eq!(plan.config, "null");
    assert!(plan.event_types.is_empty());
    assert_eq!(plan.rate_limit_per_minute, None);
    assert_eq!(plan.version, 7);
    assert_eq!(EndpointRepository::<()>::list_window(2, 1000), (250, 250));
    assert_eq!(EndpointRepository::<()>::list_total(None), 0);
}

#[test]
fn endpoint_refusals_and_rotation() {
    assert_eq!(not_found(EpSvc::require_endpoint::<u8>(None, "ep_1")), "Endpoint not found: ep_1");
    assert_eq!(not_found(EpSvc::require_application::<u8>(None, "app_1")), "Application not found: app_1");
    assert!(matches!(EpSvc::update_refusal(true, "ep_1"), AppError::Conflict(m, _) if m == "version mismatch \u{2014} fetch the latest version and retry"));
    assert!(matches!(EpSvc::update_refusal(false, "ep_1"), AppError::NotFound(m) if m == "Endpoint not found: ep_1"));
    assert_eq!(EpSvc::rotation_expiry(None).unwrap(), 0);
    assert_eq!(EpSvc::rotation_expiry(Some(86_400)).unwrap(), 86_400);
    assert_eq!(bad_request(EpSvc::rotation_expiry(Some(86_401))), "expiry_seconds must be between 0 and 86400");
}

#[test]
fn endpoint_secrets_roundtrip() {
    let crypto = TenantCrypto::new(MASTER_KEY_B64).unwrap();
    let svc = endpoint_svc(0u8, crypto);
    let (plaintext, envelope) = svc.issue_secret(5).unwrap();
    assert!(plaintext.starts_with("whsec_"));
    let row = SecretRow {
        id: 1,
        public_id: "sec_1".into(),
        endpoint_id: 2,
        tenant_id: 5,
        organization_id: 3,
        secret: envelope,
        is_active: true,
        expires_at: None,
        request_id: 4,
        created_by: 5,
        created_at: 6,
    };
    let revealed = svc.reveal_secret(row).unwrap();
    assert_eq!(revealed.secret, plaintext);
    assert_eq!((revealed.id.as_str(), revealed.created_at), ("sec_1", 6));
}

#[test]
fn endpoint_listing_response() {
    let row = EndpointRow {
        id: 1,
        public_id: "ep_1".into(),
        application_id: 2,
        application_public_id: "app_1".into(),
        tenant_id: 3,
        organization_id: 4,
        description: None,
        endpoint_type: "http".into(),
        config: "{}".into(),
        event_types: vec![],
        status: "active".into(),
        rate_limit_per_minute: None,
        tags: vec![],
        version: 1,
        request_id: 5,
        created_by: 6,
        updated_by: 7,
        created_at: 8,
        updated_at: 9,
    };
    let resp = EpSvc::list_response(vec![row], 1, 1, 20);
    assert_eq!(resp.items[0].application_id, "app_1");
}

// ── delivery, config, email ──────────────────────────────────────────────────

#[test]
fn delivery_decisions() {
    assert!(matches!(retry_refusal(true, "dj_1"), AppError::Conflict(m, errs) if m == "delivery job is not in a retryable state" && errs.is_empty()));
    assert!(matches!(retry_refusal(false, "dj_1"), AppError::NotFound(m) if m == "Delivery job not found: dj_1"));
    assert_eq!(DeliveryRepository::<()>::tier_of(Ok(Some("enterprise".into()))), "enterprise");
    assert_eq!(DeliveryRepository::<()>::tier_of(Ok(None)), "default");
    assert_eq!(DeliveryRepository::<()>::tier_of(Err(AppError::Database("down".into()))), "default");
    let id = DeliveryJobRow::new_public_id();
    assert!(id.starts_with("dj_"));
    assert_eq!(id.len(), 19);
    let row = DeliveryJobRow {
        id: 1,
        public_id: "dj_1".into(),
        event_id: 2,
        endpoint_id: 3,
        organization_id: 4,
        status: "pending".into(),
        attempt: 0,
        enqueued_at: None,
        retry_after: None,
        max_attempts: 5,
        stream_name: "deliveries:default".into(),
        created_at: 9,
    };
    let r = DeliveryJobResponse::from(row);
    assert_eq!((r.id.as_str(), r.max_attempts, r.stream_name.as_str()), ("dj_1", 5, "deliveries:default"));
    assert_eq!(DeliveryRepository::new(2u8).db, 2);
}

#[test]
fn config_and_email() {
    let server = ServerConfig { host: "0.0.0.0".into(), port: 8080 };
    assert_eq!(server.addr_text(), "0.0.0.0:8080");
    let otel = OtelConfig::default();
    assert!(otel.exporter_otlp_endpoint.is_none() && otel.service_name.is_none());
    assert!(NoopEmailService.send_invite_outcome().is_ok());
}

#[test]
fn environment_normalize_trims_unicode_whitespace() {
    let req = env_named("\u{3000}\t Staging\u{a0}\n").normalize();
    assert_eq!(req.name, "staging");
}

#[test]
fn environment_normalize_twice_changes_nothing() {
    let once = env_named(" \u{2003}Prod-EU\t").normalize();
    let twice = env_named(&once.name).normalize();
    assert_eq!(once.name, "prod-eu");
    assert_eq!(twice.name, once.name);
}
