use hookly::common::access_log::{error_kind, handler_label, header_text, query_text, safe_truncate, AccessLogRecord, RequestFacts, ResponseFacts};
use hookly::common::call_counter::{counts, inc_db, inc_redis, scoped};
use hookly::common::crypto::TenantCrypto;
use hookly::common::handler_name::SetHandlerName;
use hookly::common::idempotency::{body_hash_bytes, extract_key, lock_key, lock_outcome, KeyHeader};
use hookly::common::key_provider::EnvKeyProvider;
use hookly::common::nano_id::{NanoId, NanoIdError};
use hookly::common::text::{concat3, decimal_text, signed_decimal_text, uuid_text};
use hookly::common::types::{clamp_limit, extract_backtick, page_window, take_page, total_of_first};
use hookly::common::validators::{validate_future_date, validate_not_blank, validate_slug, validate_tags};
use hookly::error::AppError;

fn tags(pairs: &[(&str, &str)]) -> Vec<(String, String)> {
    pairs.iter().map(|(k, v)| (k.to_string(), v.to_string())).collect()
}

const MASTER_KEY_B64: &str = "AAECAwQFBgcICQoLDA0ODxAREhMUFRYXGBkaGxwdHh8=";

#[test]
fn safe_truncate_keeps_short_text() {
    assert_eq!(safe_truncate("hello", 10), "hello");
    assert_eq!(safe_truncate("hello", 5), "hello");
}

#[test]
fn safe_truncate_cuts_at_char_boundary() {
    // "é" takes two bytes; cutting at 2 bytes would split it.
    assert_eq!(safe_truncate("aé", 2), "a");
    assert_eq!(safe_truncate("aé", 3), "aé");
    assert_eq!(safe_truncate("abcdef", 3), "abc");
}

#[test]
fn error_kind_classifies_statuses() {
    assert_eq!(error_kind(404), Some("client_error"));
    assert_eq!(error_kind(400), Some("client_error"));
    assert_eq!(error_kind(503), Some("server_error"));
    assert_eq!(error_kind(200), None);
    assert_eq!(error_kind(302), None);
}

#[test]
fn access_log_fields_are_bounded() {
    assert_eq!(header_text(None), "");
    let long = "x".repeat(600);
    assert_eq!(header_text(Some(&long)).len(), 64);
    assert_eq!(query_text(Some(&long)).len(), 256);
    assert_eq!(query_text(None), "");
    assert_eq!(query_text(Some("a=1")), "a=1");
    assert_eq!(handler_label(Some("create_event"), Some("/events")), "create_event");
    assert_eq!(handler_label(None, Some("/events")), "/events");
    assert_eq!(handler_label(None, None), "-");
}

#[test]
fn call_counters_count_within_a_scope() {
    let mut scope = scoped();
    inc_db(&mut scope);
    inc_db(&mut scope);
    inc_redis(&mut scope);
    assert_eq!(counts(&scope), (2, 1));
}

#[test]
fn call_counters_outside_a_scope_read_zero() {
    let mut scope = None;
    inc_db(&mut scope);
    inc_redis(&mut scope);
    assert_eq!(counts(&scope), (0, 0));
}

#[test]
fn handler_name_is_last_path_segment() {
    let layer = SetHandlerName::of("hookly::features::events::handlers::create_event");
    assert_eq!(layer.handler_name().0, "create_event");
    let plain = SetHandlerName::of("main");
    assert_eq!(plain.handler_name().0, "main");
}

#[test]
fn nano_id_new_is_valid() {
    let id = NanoId::new();
    assert_eq!(id.as_str().len(), 16);
    assert!(NanoId::validate(id.as_str()).is_ok());
    let text = id.into_inner();
    assert!(text.chars().all(|c| c.is_ascii_alphanumeric()));
}

#[test]
fn nano_id_validate_rejects_bad_input() {
    assert_eq!(NanoId::validate("short"), Err(NanoIdError::InvalidLength));
    assert_eq!(NanoId::validate("abcdefgh-jklmnop"), Err(NanoIdError::InvalidCharacter));
    assert!(NanoId::validate("abcdefghijklmnop").is_ok());
    assert_eq!(NanoIdError::InvalidLength.message(), "nanoid must be 16 characters");
    assert_eq!(NanoIdError::InvalidCharacter.message(), "nanoid must contain only alphanumeric characters");
}

#[test]
fn nano_id_parse_and_try_from() {
    let id = NanoId::parse("ABCdef0123456789").unwrap();
    assert_eq!(id.as_str(), "ABCdef0123456789");
    assert!(NanoId::try_from_string("too-short".to_string()).is_err());
}

#[test]
fn text_helpers_render_numbers_and_uuids() {
    assert_eq!(decimal_text(0), "0");
    assert_eq!(decimal_text(12345), "12345");
    assert_eq!(signed_decimal_text(-42), "-42");
    assert_eq!(signed_decimal_text(7), "7");
    assert_eq!(signed_decimal_text(i64::MIN), i64::MIN.to_string());
    assert_eq!(concat3("a", "b", "c"), "abc");
    let id: u128 = 0x0123_4567_89ab_cdef_0011_2233_4455_6677;
    assert_eq!(uuid_text(id), "01234567-89ab-cdef-0011-223344556677");
    assert_eq!(uuid_text(id), uuid::Uuid::from_u128(id).to_string());
}

#[test]
fn uuid_text_has_fixed_shape() {
    for id in [0u128, 1, u128::MAX, 0xdead_beef] {
        let t = uuid_text(id);
        assert_eq!(t.len(), 36);
        assert_eq!(&t[8..9], "-");
        assert_eq!(&t[13..14], "-");
        assert_eq!(&t[18..19], "-");
        assert_eq!(&t[23..24], "-");
    }
}

#[test]
fn clamp_limit_defaults_and_bounds() {
    assert_eq!(clamp_limit(None), 20);
    assert_eq!(clamp_limit(Some(0)), 1);
    assert_eq!(clamp_limit(Some(-5)), 1);
    assert_eq!(clamp_limit(Some(50)), 50);
    assert_eq!(clamp_limit(Some(500)), 100);
}

#[test]
fn take_page_pops_extra_row() {
    let (items, next) = take_page(vec![1, 2, 3], 2);
    assert_eq!(items, vec![1, 2]);
    assert_eq!(next, Some(3));
    let (items, next) = take_page(vec![1, 2], 2);
    assert_eq!(items, vec![1, 2]);
    assert_eq!(next, None);
    let (items, next) = take_page(Vec::<i32>::new(), 0);
    assert!(items.is_empty());
    assert_eq!(next, None);
}

#[test]
fn page_window_computes_limit_and_offset() {
    assert_eq!(page_window(1, 20, 100), (20, 0));
    assert_eq!(page_window(3, 20, 100), (20, 40));
    assert_eq!(page_window(2, 500, 100), (100, 100));
    assert_eq!(page_window(0, 10, 100), (10, 0));
    assert_eq!(total_of_first(Some(7)), 7);
    assert_eq!(total_of_first(None), 0);
}

#[test]
fn extract_backtick_finds_field() {
    assert_eq!(
        extract_backtick("missing field `name` at line 1", "missing field `"),
        Some("name".to_string())
    );
    assert_eq!(extract_backtick("nothing here", "missing field `"), None);
}

#[test]
fn validators_check_blank_slug_and_future() {
    assert_eq!(validate_not_blank("  ").unwrap_err().code, "required");
    assert!(validate_not_blank(" x ").is_ok());
    assert!(validate_slug("my-slug-1").is_ok());
    assert_eq!(validate_slug("-bad").unwrap_err().code, "invalid_format");
    assert_eq!(validate_slug("Bad").unwrap_err().code, "invalid_format");
    assert!(validate_future_date(10, 5).is_ok());
    assert!(validate_future_date(5, 10).is_err());
}

#[test]
fn validate_tags_rules_in_order() {
    assert!(validate_tags(&tags(&[("env", "prod")])).is_ok());
    let six = tags(&[("a", "1"), ("b", "2"), ("c", "3"), ("d", "4"), ("e", "5"), ("f", "6")]);
    match validate_tags(&six) {
        Err(AppError::BadRequest(m)) => assert_eq!(m, "tags: max 5 entries"),
        other => panic!("unexpected {:?}", other),
    }
    let long_key = "k".repeat(65);
    match validate_tags(&tags(&[(long_key.as_str(), "v")])) {
        Err(AppError::BadRequest(m)) => assert_eq!(m, "tags: key must be 64 characters or fewer"),
        other => panic!("unexpected {:?}", other),
    }
    let long_value = "v".repeat(256);
    match validate_tags(&tags(&[("k", long_value.as_str())])) {
        Err(AppError::BadRequest(m)) => assert_eq!(m, "tags: value must be 255 characters or fewer"),
        other => panic!("unexpected {:?}", other),
    }
}

#[test]
fn idempotency_key_header_rules() {
    assert_eq!(extract_key(KeyHeader::Absent).unwrap(), None);
    assert!(matches!(extract_key(KeyHeader::NotAscii), Err(AppError::BadRequest(m)) if m == "Idempotency-Key must be valid ASCII"));
    assert!(matches!(extract_key(KeyHeader::Text("")), Err(AppError::BadRequest(m)) if m == "Idempotency-Key must not be empty"));
    let long = "k".repeat(65);
    assert!(matches!(extract_key(KeyHeader::Text(&long)), Err(AppError::BadRequest(m)) if m == "Idempotency-Key must be 64 characters or fewer"));
    assert_eq!(extract_key(KeyHeader::Text("abc")).unwrap(), Some("abc".to_string()));
}

#[test]
fn idempotency_lock_key_and_outcome() {
    assert_eq!(lock_key("events", "k1"), "idmp_lock:events:k1");
    assert_eq!(lock_outcome(Some("OK".to_string()), "tok".to_string()).unwrap(), "tok");
    match lock_outcome(None, "tok".to_string()) {
        Err(AppError::Conflict(m, errs)) => {
            assert_eq!(m, "A concurrent request with this idempotency key is already in progress");
            assert!(errs.is_empty());
        }
        other => panic!("unexpected {:?}", other),
    }
}

#[test]
fn body_hash_is_sha256() {
    let h = body_hash_bytes(b"abc");
    assert_eq!(h.len(), 32);
    assert_eq!(h[0], 0xba);
    assert_eq!(h[31], 0xad);
    assert_ne!(body_hash_bytes(b"abd"), h);
}

#[test]
fn key_provider_decodes_32_byte_key() {
    let p = EnvKeyProvider::from_b64(MASTER_KEY_B64).unwrap();
    let key = p.get_encryption_key();
    assert_eq!(key[0], 0);
    assert_eq!(key[31], 31);
    assert_eq!(
        EnvKeyProvider::from_b64("not base64!").err().unwrap(),
        "API_KEY_ENCRYPTION_KEY must be standard base64-encoded"
    );
    assert_eq!(
        EnvKeyProvider::from_b64("AAEC").err().unwrap(),
        "API_KEY_ENCRYPTION_KEY must decode to 32 bytes, got 3"
    );
}

#[test]
fn tenant_crypto_roundtrip() {
    let crypto = TenantCrypto::new(MASTER_KEY_B64).unwrap();
    let envelope = crypto.encrypt(7, "whsec_secret").unwrap();
    assert!(envelope.starts_with("v1$"));
    assert_ne!(envelope, "whsec_secret");
    assert_eq!(crypto.decrypt(7, &envelope).unwrap(), "whsec_secret");
    // Another tenant's key does not open the envelope.
    assert!(crypto.decrypt(8, &envelope).is_err());
}

#[test]
fn tenant_crypto_refuses_malformed_envelopes() {
    let crypto = TenantCrypto::new(MASTER_KEY_B64).unwrap();
    assert!(matches!(crypto.try_decrypt(1, "garbage"), Some(Err(AppError::Internal(_))) | None));
    assert!(TenantCrypto::new("AAEC").is_err());
    let secret = TenantCrypto::generate_webhook_secret();
    assert!(secret.starts_with("whsec_"));
    assert_eq!(secret.len(), 6 + 43);
}

#[test]
fn webhook_secret_has_its_documented_shape() {
    let s = hookly::common::crypto::TenantCrypto::generate_webhook_secret();
    assert_eq!(s.len(), 49);
    assert!(s.starts_with("whsec_"));
    assert!(s[6..].chars().all(|c| c.is_ascii_alphanumeric() || c == '-' || c == '_'));
}

#[test]
fn body_hash_is_32_bytes() {
    assert_eq!(body_hash_bytes(b"{}").len(), 32);
    assert_eq!(body_hash_bytes(b"{}"), body_hash_bytes(b"{}"));
}

#[test]
fn nano_id_clone_keeps_text() {
    let id = NanoId::new();
    let copy = id.clone();
    assert_eq!(copy.as_str(), id.as_str());
    assert_eq!(id.into_inner().len(), 16);
}

#[test]
fn nano_id_converts_into_its_text() {
    let id = NanoId::parse("abcdefgh12345678").unwrap();
    let text = String::from(id);
    assert_eq!(text, "abcdefgh12345678");
}

#[test]
fn nano_id_default_is_a_fresh_identifier() {
    let id = NanoId::default();
    assert_eq!(id.as_str().len(), 16);
    assert!(NanoId::validate(id.as_str()).is_ok());
}

fn bytes_sent_for(content_length: Option<&str>) -> Option<u64> {
    let req = RequestFacts {
        request_id: None,
        method: "GET",
        path: "/v1/events",
        query: None,
        protocol: "HTTP/1.1",
        host: None,
        user_agent: None,
        traceparent: None,
        tenant_id: None,
        organization_id: None,
        handler: None,
        matched_path: None,
        start_time: "2024-01-01T00:00:00Z",
    };
    let resp = ResponseFacts {
        status_code: 200,
        response_duration_ms: 3,
        end_time: "2024-01-01T00:00:01Z",
        content_length,
        connection: None,
    };
    AccessLogRecord::new(&req, &resp).bytes_sent
}

#[test]
fn access_log_reads_content_length_as_a_decimal_u64() {
    assert_eq!(bytes_sent_for(Some("1234")), Some(1234));
    assert_eq!(bytes_sent_for(Some("+7")), Some(7));
    assert_eq!(bytes_sent_for(Some("18446744073709551615")), Some(u64::MAX));
    assert_eq!(bytes_sent_for(Some("18446744073709551616")), None);
    assert_eq!(bytes_sent_for(Some(" 12")), None);
    assert_eq!(bytes_sent_for(Some("+")), None);
    assert_eq!(bytes_sent_for(Some("")), None);
    assert_eq!(bytes_sent_for(None), None);
}
