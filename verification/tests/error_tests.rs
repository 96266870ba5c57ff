use hookly::common::qs_query::query_rejection;
use hookly::common::types::{json_rejection_to_app_error, parse_data_error, JsonRejectionKind};
use hookly::error::{
    conflict_info, parse_conflict_value, remap_validator_code, require_found, to_error_info, AppError, ErrorBody,
    FieldError, ParamValue, ValidatorIssue,
};

fn issue(code: &str, max: Option<u64>, min: Option<u64>, value: ParamValue) -> ValidatorIssue {
    ValidatorIssue { code: code.to_string(), message: None, max, min, value }
}

#[test]
fn error_info_for_each_variant() {
    let cases: Vec<(AppError, u16, &str, &str)> = vec![
        (AppError::NotFound("nf".into()), 404, "not_found", "nf"),
        (AppError::BadRequest("br".into()), 400, "bad_request", "br"),
        (AppError::Validation(vec![]), 422, "validation_error", "Request validation failed"),
        (AppError::Conflict("c".into(), vec![]), 409, "conflict", "c"),
        (AppError::Unauthorized("u".into()), 401, "unauthorized", "u"),
        (AppError::Forbidden("f".into()), 403, "forbidden", "f"),
        (AppError::PayloadTooLarge, 413, "payload_too_large", "Request body exceeds the 256 KB limit"),
        (AppError::UriTooLong, 414, "uri_too_long", "Request URI exceeds the 512 character limit"),
        (AppError::Database("pool timed out".into()), 500, "internal_error", "An internal error occurred"),
        (AppError::Redis("connection refused".into()), 500, "internal_error", "An internal error occurred"),
        (AppError::Internal("boom".into()), 500, "internal_error", "An internal error occurred"),
    ];
    for (e, status, code, message) in cases {
        let (s, c, m) = to_error_info(&e);
        assert_eq!((s, c, m.as_str()), (status, code, message));
        let (s2, c2, m2) = e.to_error_info();
        assert_eq!((s2, c2, m2.as_str()), (status, code, message));
    }
}

#[test]
fn response_parts_list_field_errors() {
    let fe = FieldError::new("name".into(), "required".into(), "name is required".into());
    let (status, code, message, errors) = AppError::Validation(vec![fe]).into_response_parts();
    assert_eq!((status, code, message.as_str()), (422, "validation_error", "Request validation failed"));
    assert_eq!(errors.unwrap()[0].field, "name");
    let (_, _, _, none) = AppError::Conflict("dup".into(), vec![]).into_response_parts();
    assert!(none.is_none());
    let (_, _, _, none) = AppError::NotFound("x".into()).into_response_parts();
    assert!(none.is_none());
}

#[test]
fn error_body_links_documentation() {
    let body = ErrorBody::new("not_found", "missing".into(), "req-1".into(), "2024-01-01T00:00:00Z".into(), "/x".into());
    assert_eq!(body.doc_url, "https://docs.hookly.dev/errors/not_found");
    assert!(body.errors.is_none());
    let fe = FieldError::new("f".into(), "c".into(), "m".into()).with_value("v".into());
    assert_eq!(fe.value.as_deref(), Some("v"));
    let body = body.with_errors(vec![fe]);
    assert_eq!(body.errors.as_ref().unwrap().len(), 1);
    assert_eq!(body.error_code, "not_found");
}

#[test]
fn conflict_value_from_detail() {
    assert_eq!(parse_conflict_value(Some("Key (name)=(prod) already exists.")), Some("prod".to_string()));
    assert_eq!(parse_conflict_value(Some("no value here")), None);
    assert_eq!(parse_conflict_value(None), None);
}

#[test]
fn conflict_info_names_the_field() {
    let (message, errors) = conflict_info(Some("environments_public_name_uq"), Some("environments"), Some("Key (public_name)=(prod) already exists."));
    assert_eq!(message, "A resource with this public name already exists");
    assert_eq!(errors.len(), 1);
    assert_eq!(errors[0].field, "public_name");
    assert_eq!(errors[0].code, "conflict");
    assert_eq!(errors[0].value.as_deref(), Some("prod"));
    let (message, errors) = conflict_info(Some("idx_users_email"), Some("users"), None);
    assert_eq!(message, "A resource with this email already exists");
    assert_eq!(errors[0].value, None);
    let (message, errors) = conflict_info(None, None, None);
    assert_eq!(message, "A resource with this value already exists");
    assert!(errors.is_empty());
}

#[test]
fn database_errors_map_by_sqlstate() {
    match AppError::from_database_error(Some("23505"), Some("tenants_slug_uq"), Some("tenants"), None, "dup".into()) {
        AppError::Conflict(m, errs) => {
            assert_eq!(m, "A resource with this slug already exists");
            assert_eq!(errs[0].field, "slug");
        }
        other => panic!("unexpected {:?}", other),
    }
    assert!(matches!(
        AppError::from_database_error(Some("23503"), None, None, None, "fk".into()),
        AppError::BadRequest(m) if m == "Referenced resource does not exist"
    ));
    assert!(matches!(
        AppError::from_database_error(None, None, None, None, "pool closed".into()),
        AppError::Database(t) if t == "pool closed"
    ));
}

#[test]
fn validator_codes_are_remapped() {
    assert_eq!(remap_validator_code(&issue("email", None, None, ParamValue::Missing)), "invalid_format");
    assert_eq!(remap_validator_code(&issue("length", Some(5), None, ParamValue::Text(9))), "max_length");
    assert_eq!(remap_validator_code(&issue("length", None, Some(1), ParamValue::Text(0))), "required");
    assert_eq!(remap_validator_code(&issue("length", None, Some(1), ParamValue::List(0))), "min_items");
    assert_eq!(remap_validator_code(&issue("length", None, None, ParamValue::Other)), "length");
    assert_eq!(remap_validator_code(&issue("required", None, None, ParamValue::Missing)), "required");
    assert_eq!(remap_validator_code(&issue("range", None, None, ParamValue::Missing)), "validation_error");
}

#[test]
fn validation_issues_become_field_errors() {
    let issues = vec![
        ("email".to_string(), ValidatorIssue { code: "email".into(), message: Some("bad email".into()), max: None, min: None, value: ParamValue::Text(3) }),
        ("name".to_string(), issue("length", Some(3), None, ParamValue::Text(10))),
    ];
    match AppError::from_validation_issues(issues) {
        AppError::Validation(errs) => {
            assert_eq!(errs.len(), 2);
            assert_eq!((errs[0].field.as_str(), errs[0].code.as_str(), errs[0].message.as_str()), ("email", "invalid_format", "bad email"));
            assert_eq!((errs[1].field.as_str(), errs[1].code.as_str(), errs[1].message.as_str()), ("name", "max_length", "length"));
        }
        other => panic!("unexpected {:?}", other),
    }
}

#[test]
fn data_errors_become_structured_errors() {
    match parse_data_error("Failed to deserialize the JSON body into the target type: missing field `name` at line 1 column 2") {
        AppError::Validation(errs) => {
            assert_eq!(errs[0].field, "name");
            assert_eq!(errs[0].code, "required");
            assert_eq!(errs[0].message, "'name' is required");
        }
        other => panic!("unexpected {:?}", other),
    }
    assert!(matches!(parse_data_error("target type: unknown field `colour`, expected one of"), AppError::BadRequest(m) if m == "Unknown field: 'colour'"));
    assert!(matches!(parse_data_error("something else"), AppError::BadRequest(m) if m == "Invalid request body"));
}

#[test]
fn json_rejections_are_reported() {
    assert!(matches!(json_rejection_to_app_error(JsonRejectionKind::SyntaxError), AppError::BadRequest(m) if m == "Malformed JSON: invalid syntax"));
    assert!(matches!(json_rejection_to_app_error(JsonRejectionKind::MissingJsonContentType), AppError::BadRequest(m) if m == "Content-Type must be application/json"));
    assert!(matches!(json_rejection_to_app_error(JsonRejectionKind::BytesRejection), AppError::BadRequest(m) if m == "Failed to read request body"));
    assert!(matches!(json_rejection_to_app_error(JsonRejectionKind::Other), AppError::BadRequest(m) if m == "Invalid request body"));
}

#[test]
fn query_rejection_is_bad_request() {
    assert!(matches!(query_rejection("invalid digit"), AppError::BadRequest(m) if m == "invalid query parameters: invalid digit"));
}

#[test]
fn require_found_names_what_is_missing() {
    assert_eq!(require_found(Some(3), "thing not found: ", "t1").unwrap(), 3);
    assert!(matches!(require_found::<u8>(None, "thing not found: ", "t1"), Err(AppError::NotFound(m)) if m == "thing not found: t1"));
}
