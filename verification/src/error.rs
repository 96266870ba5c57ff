//! The application's error type, how database and validation failures map onto
//! it, and what status, code and body each error is answered with.
use crate::common::text::{
    chars_of, concat2, concat3, ends_with_chars, find, find_chars, find_from, occurs_at, starts_with,
    starts_with_chars, strip_prefix_or_keep, strip_suffix_or_keep, string_from_chars, sub_chars,
};
use vstd::prelude::*;

verus! {

/// One problem with one field of a request.
#[derive(Debug)]
pub struct FieldError {
    pub field: String,
    pub value: Option<String>,
    pub code: String,
    pub message: String,
}

impl FieldError {
    pub fn new(field: String, code: String, message: String) -> (r: Self)
        ensures
            r.field@ == field@,
            r.code@ == code@,
            r.message@ == message@,
            r.value is None,
    {
        FieldError { field, value: None, code, message }
    }

    pub fn with_value(self, value: String) -> (r: Self)
        ensures
            r.field@ == self.field@,
            r.code@ == self.code@,
            r.message@ == self.message@,
            r.value matches Some(v) && v@ == value@,
    {
        FieldError { value: Some(value), ..self }
    }
}

/// Every failure a request can end in. `Database` and `Redis` carry the text of
/// the underlying client error, which is logged and never shown to callers.
#[derive(Debug)]
pub enum AppError {
    Database(String),
    Redis(String),
    NotFound(String),
    BadRequest(String),
    Validation(Vec<FieldError>),
    Conflict(String, Vec<FieldError>),
    Internal(String),
    Unauthorized(String),
    Forbidden(String),
    PayloadTooLarge,
    UriTooLong,
}

/// HTTP status of each error.
pub open spec fn status_of(e: AppError) -> u16 {
    match e {
        AppError::NotFound(_) => 404,
        AppError::BadRequest(_) => 400,
        AppError::Validation(_) => 422,
        AppError::Conflict(_, _) => 409,
        AppError::Unauthorized(_) => 401,
        AppError::Forbidden(_) => 403,
        AppError::PayloadTooLarge => 413,
        AppError::UriTooLong => 414,
        AppError::Database(_) | AppError::Redis(_) | AppError::Internal(_) => 500,
    }
}

/// Machine-readable error code of each error.
pub open spec fn code_of(e: AppError) -> Seq<char> {
    match e {
        AppError::NotFound(_) => "not_found"@,
        AppError::BadRequest(_) => "bad_request"@,
        AppError::Validation(_) => "validation_error"@,
        AppError::Conflict(_, _) => "conflict"@,
        AppError::Unauthorized(_) => "unauthorized"@,
        AppError::Forbidden(_) => "forbidden"@,
        AppError::PayloadTooLarge => "payload_too_large"@,
        AppError::UriTooLong => "uri_too_long"@,
        AppError::Database(_) | AppError::Redis(_) | AppError::Internal(_) => "internal_error"@,
    }
}

/// Message shown to the caller: the error's own message for client errors, a
/// fixed text for the others (internal details never leave the server).
pub open spec fn public_message_of(e: AppError) -> Seq<char> {
    match e {
        AppError::NotFound(m) => m@,
        AppError::BadRequest(m) => m@,
        AppError::Validation(_) => "Request validation failed"@,
        AppError::Conflict(m, _) => m@,
        AppError::Unauthorized(m) => m@,
        AppError::Forbidden(m) => m@,
        AppError::PayloadTooLarge => "Request body exceeds the 256 KB limit"@,
        AppError::UriTooLong => "Request URI exceeds the 512 character limit"@,
        AppError::Database(_) | AppError::Redis(_) | AppError::Internal(_) => "An internal error occurred"@,
    }
}

/// Whether the body lists field errors, and which.
pub open spec fn listed_errors_of(e: AppError) -> Option<Seq<FieldError>> {
    match e {
        AppError::Validation(errs) => Some(errs@),
        AppError::Conflict(_, errs) => if errs@.len() == 0 { None } else { Some(errs@) },
        _ => None,
    }
}

/// The status, code and public message of an error (`to_error_info`).
pub fn to_error_info(e: &AppError) -> (r: (u16, &'static str, String))
    ensures
        r.0 == status_of(*e),
        r.1@ == code_of(*e),
        r.2@ == public_message_of(*e),
{
    match e {
        AppError::NotFound(m) => (404, "not_found", m.clone()),
        AppError::BadRequest(m) => (400, "bad_request", m.clone()),
        AppError::Validation(_) => (422, "validation_error", "Request validation failed".to_string()),
        AppError::Conflict(m, _) => (409, "conflict", m.clone()),
        AppError::Unauthorized(m) => (401, "unauthorized", m.clone()),
        AppError::Forbidden(m) => (403, "forbidden", m.clone()),
        AppError::PayloadTooLarge => (413, "payload_too_large", "Request body exceeds the 256 KB limit".to_string()),
        AppError::UriTooLong => (414, "uri_too_long", "Request URI exceeds the 512 character limit".to_string()),
        AppError::Database(_) | AppError::Redis(_) | AppError::Internal(_) => {
            (500, "internal_error", "An internal error occurred".to_string())
        },
    }
}

impl AppError {
    /// The status, code and public message of this error.
    pub fn to_error_info(&self) -> (r: (u16, &'static str, String))
        ensures
            r.0 == status_of(*self),
            r.1@ == code_of(*self),
            r.2@ == public_message_of(*self),
    {
        to_error_info(self)
    }

    /// What the error is answered with: status, code, public message and the
    /// field errors that the body lists (a conflict lists them only when it has any).
    pub fn into_response_parts(self) -> (r: (u16, &'static str, String, Option<Vec<FieldError>>))
        ensures
            r.0 == status_of(self),
            r.1@ == code_of(self),
            r.2@ == public_message_of(self),
            r.3 is Some == listed_errors_of(self) is Some,
            r.3 matches Some(v) ==> listed_errors_of(self) == Some(v@),
    {
        let (status, code, message) = to_error_info(&self);
        let errors = match self {
            AppError::Validation(errs) => Some(errs),
            AppError::Conflict(_, errs) => if errs.len() == 0 { None } else { Some(errs) },
            _ => None,
        };
        (status, code, message, errors)
    }
}

/// The JSON body of an error response.
pub struct ErrorBody {
    pub error_code: String,
    pub error_message: String,
    pub errors: Option<Vec<FieldError>>,
    pub request_id: String,
    pub doc_url: String,
    pub timestamp: String,
    pub path: String,
}

impl ErrorBody {
    /// A body for `error_code`; `request_id`, `timestamp` and `path` come from the request.
    /// The documentation link is `https://docs.hookly.dev/errors/<error_code>`.
    pub fn new(error_code: &str, error_message: String, request_id: String, timestamp: String, path: String) -> (r: Self)
        ensures
            r.error_code@ == error_code@,
            r.error_message@ == error_message@,
            r.errors is None,
            r.request_id@ == request_id@,
            r.doc_url@ == "https://docs.hookly.dev/errors/"@ + error_code@,
            r.timestamp@ == timestamp@,
            r.path@ == path@,
    {
        ErrorBody {
            error_code: error_code.to_string(),
            error_message,
            errors: None,
            request_id,
            doc_url: concat2("https://docs.hookly.dev/errors/", error_code),
            timestamp,
            path,
        }
    }

    pub fn with_errors(self, errors: Vec<FieldError>) -> (r: Self)
        ensures
            r.error_code == self.error_code,
            r.error_message == self.error_message,
            r.errors == Some(errors),
            r.request_id == self.request_id,
            r.doc_url == self.doc_url,
            r.timestamp == self.timestamp,
            r.path == self.path,
    {
        ErrorBody { errors: Some(errors), ..self }
    }
}

/// `c` with every `_` turned into a space.
pub open spec fn underscores_to_spaces(c: Seq<char>) -> Seq<char> {
    c.map_values(|ch: char| if ch == '_' { ' ' } else { ch })
}

/// The field named by a unique constraint, by the convention `{table}_{field}_uq`
/// or `idx_{table}_{field}`: strip `idx_`, then `_uq`, then `{table}_` when the table is known.
pub open spec fn conflict_field(constraint: Option<Seq<char>>, table: Option<Seq<char>>) -> Option<Seq<char>> {
    match constraint {
        None => None,
        Some(c0) => {
            let c1 = strip_prefix_or_keep(c0, "idx_"@);
            let c2 = strip_suffix_or_keep(c1, "_uq"@);
            let c3 = match table {
                Some(t) => if starts_with(c2, t) && starts_with(c2.subrange(t.len() as int, c2.len() as int), "_"@) {
                    c2.subrange(t.len() as int + 1, c2.len() as int)
                } else {
                    c2
                },
                None => c2,
            };
            if c3.len() == 0 { None } else { Some(c3) }
        },
    }
}

pub open spec fn conflict_message(field: Option<Seq<char>>) -> Seq<char> {
    match field {
        Some(f) => "A resource with this "@ + underscores_to_spaces(f) + " already exists"@,
        None => "A resource with this value already exists"@,
    }
}

/// The conflicting value in a Postgres detail of the form `Key (field)=(value) already exists.`:
/// what stands between the first `=(` and the next `)`.
pub open spec fn conflict_value(detail: Option<Seq<char>>) -> Option<Seq<char>> {
    match detail {
        None => None,
        Some(d) => match find(d, "=("@) {
            None => None,
            Some(k) => {
                let rest = d.subrange(k + 2, d.len() as int);
                match find(rest, ")"@) {
                    None => None,
                    Some(e) => Some(rest.subrange(0, e)),
                }
            },
        },
    }
}

pub open spec fn opt_view(s: Option<&str>) -> Option<Seq<char>> {
    match s {
        Some(x) => Some(x@),
        None => None,
    }
}

fn opt_chars(s: Option<&str>) -> (r: Option<Vec<char>>)
    ensures
        r is Some == s is Some,
        r matches Some(v) ==> s matches Some(x) && v@ == x@,
{
    match s {
        Some(x) => Some(chars_of(x)),
        None => None,
    }
}

fn spaces_for_underscores(f: &Vec<char>) -> (r: Vec<char>)
    ensures
        r@ == underscores_to_spaces(f@),
{
    let mut out: Vec<char> = Vec::new();
    let mut i: usize = 0;
    while i < f.len()
        invariant
            i <= f@.len(),
            out@ == underscores_to_spaces(f@.subrange(0, i as int)),
        decreases f@.len() - i,
    {
        let c = f[i];
        out.push(if c == '_' { ' ' } else { c });
        i = i + 1;
        assert(out@ =~= underscores_to_spaces(f@.subrange(0, i as int)));
    }
    assert(f@.subrange(0, f@.len() as int) =~= f@);
    out
}

fn strip_prefix_chars(s: Vec<char>, p: &str) -> (r: Vec<char>)
    ensures
        r@ == strip_prefix_or_keep(s@, p@),
{
    let pc = chars_of(p);
    if starts_with_chars(&s, &pc) {
        sub_chars(&s, pc.len(), s.len())
    } else {
        s
    }
}

fn strip_suffix_chars(s: Vec<char>, p: &str) -> (r: Vec<char>)
    ensures
        r@ == strip_suffix_or_keep(s@, p@),
{
    let pc = chars_of(p);
    if ends_with_chars(&s, &pc) {
        sub_chars(&s, 0, s.len() - pc.len())
    } else {
        s
    }
}

fn conflict_field_exec(constraint: Option<&str>, table: Option<&str>) -> (r: Option<Vec<char>>)
    ensures
        r is Some == conflict_field(opt_view(constraint), opt_view(table)) is Some,
        r matches Some(v) ==> conflict_field(opt_view(constraint), opt_view(table)) == Some(v@),
{
    match constraint {
        None => None,
        Some(c) => {
            let c0 = chars_of(c);
            let c1 = strip_prefix_chars(c0, "idx_");
            let c2 = strip_suffix_chars(c1, "_uq");
            let c3 = match opt_chars(table) {
                Some(t) => {
                    let underscore = chars_of("_");
                    proof { reveal_strlit("_"); }
                    if starts_with_chars(&c2, &t) {
                        let rest = sub_chars(&c2, t.len(), c2.len());
                        if starts_with_chars(&rest, &underscore) {
                            sub_chars(&c2, t.len() + 1, c2.len())
                        } else {
                            c2
                        }
                    } else {
                        c2
                    }
                },
                None => c2,
            };
            if c3.len() == 0 { None } else { Some(c3) }
        },
    }
}

/// The value that conflicted, read from a Postgres unique-violation detail.
pub fn parse_conflict_value(detail: Option<&str>) -> (r: Option<String>)
    ensures
        r is Some == conflict_value(opt_view(detail)) is Some,
        r matches Some(v) ==> conflict_value(opt_view(detail)) == Some(v@),
{
    let d = match detail {
        Some(d) => chars_of(d),
        None => return None,
    };
    let open = chars_of("=(");
    proof { reveal_strlit("=("); }
    let k = match find_chars(&d, &open) {
        Some(k) => k,
        None => return None,
    };
    proof {
        assert(occurs_at(d@, open@, k as int)) by { lemma_find_from_occurs(d@, open@, 0); }
    }
    assert(d@.len() == d.len());
    let rest = sub_chars(&d, k + 2, d.len());
    let close = chars_of(")");
    let e = match find_chars(&rest, &close) {
        Some(e) => e,
        None => return None,
    };
    proof {
        assert(occurs_at(rest@, close@, e as int)) by { lemma_find_from_occurs(rest@, close@, 0); }
    }
    let v = sub_chars(&rest, 0, e);
    Some(string_from_chars(v.as_slice()))
}

/// What `find_from` returns is an occurrence.
pub proof fn lemma_find_from_occurs(hay: Seq<char>, needle: Seq<char>, from: int)
    ensures
        find_from(hay, needle, from) matches Some(k) ==> occurs_at(hay, needle, k) && from <= k,
    decreases hay.len() + 1 - from,
{
    if from < 0 || from + needle.len() > hay.len() {
    } else if occurs_at(hay, needle, from) {
    } else {
        lemma_find_from_occurs(hay, needle, from + 1);
    }
}

/// The field errors listed for a unique-constraint violation: none when no field
/// can be named, else one `conflict` error for the field, carrying the conflicting value when the detail shows it.
pub open spec fn conflict_errors(constraint: Option<Seq<char>>, table: Option<Seq<char>>, detail: Option<Seq<char>>, errs: Seq<FieldError>) -> bool {
    match conflict_field(constraint, table) {
        None => errs.len() == 0,
        Some(f) => {
            &&& errs.len() == 1
            &&& errs[0].field@ == f
            &&& errs[0].code@ == "conflict"@
            &&& errs[0].message@ == conflict_message(Some(f))
            &&& errs[0].value is Some == conflict_value(detail) is Some
            &&& errs[0].value matches Some(v) ==> conflict_value(detail) == Some(v@)
        },
    }
}

/// The message and field errors of a unique-constraint violation.
pub fn conflict_info(constraint: Option<&str>, table: Option<&str>, detail: Option<&str>) -> (r: (String, Vec<FieldError>))
    ensures
        r.0@ == conflict_message(conflict_field(opt_view(constraint), opt_view(table))),
        conflict_errors(opt_view(constraint), opt_view(table), opt_view(detail), r.1@),
{
    match conflict_field_exec(constraint, table) {
        Some(f) => {
            let spaced = spaces_for_underscores(&f);
            let spaced_text = string_from_chars(spaced.as_slice());
            let message = concat3("A resource with this ", spaced_text.as_str(), " already exists");
            let field_message = concat3("A resource with this ", spaced_text.as_str(), " already exists");
            let fe = FieldError::new(string_from_chars(f.as_slice()), "conflict".to_string(), field_message);
            let fe = match parse_conflict_value(detail) {
                Some(v) => fe.with_value(v),
                None => fe,
            };
            (message, vec![fe])
        },
        None => ("A resource with this value already exists".to_string(), Vec::new()),
    }
}

impl AppError {
    /// Maps a database failure onto an application error. `code` is the SQLSTATE of
    /// a database-reported error (`None` for connection and driver failures),
    /// `text` the client's description of the failure.
    pub fn from_database_error(
        code: Option<&str>,
        constraint: Option<&str>,
        table: Option<&str>,
        detail: Option<&str>,
        text: String,
    ) -> (r: AppError)
        ensures
            opt_view(code) == Some("23505"@) ==> (r matches AppError::Conflict(m, errs)
                && m@ == conflict_message(conflict_field(opt_view(constraint), opt_view(table)))
                && conflict_errors(opt_view(constraint), opt_view(table), opt_view(detail), errs@)),
            opt_view(code) == Some("23503"@) ==> (r matches AppError::BadRequest(m)
                && m@ == "Referenced resource does not exist"@),
            opt_view(code) != Some("23505"@) && opt_view(code) != Some("23503"@) ==> (r matches AppError::Database(t) && t@ == text@),
    {
        proof {
            reveal_strlit("23505");
            reveal_strlit("23503");
            assert("23505"@[4] != "23503"@[4]);
        }
        match code {
            Some(c) => {
                if text_eq(c, "23505") {
                    let (msg, errors) = conflict_info(constraint, table, detail);
                    return AppError::Conflict(msg, errors);
                }
                if text_eq(c, "23503") {
                    return AppError::BadRequest("Referenced resource does not exist".to_string());
                }
                AppError::Database(text)
            },
            None => AppError::Database(text),
        }
    }
}

/// Whether two texts are equal.
pub fn text_eq(a: &str, b: &str) -> (r: bool)
    ensures
        r == (a@ == b@),
{
    let x = a.to_string();
    let y = b.to_string();
    x == y
}

/// The value a validator examined, as far as code remapping needs it.
pub enum ParamValue {
    /// A string value, with its length in bytes.
    Text(u64),
    /// An array value, with its number of items.
    List(u64),
    /// Some other kind of value.
    Other,
    /// No value was recorded.
    Missing,
}

/// One failed check reported by the `validator` crate.
pub struct ValidatorIssue {
    pub code: String,
    pub message: Option<String>,
    pub max: Option<u64>,
    pub min: Option<u64>,
    pub value: ParamValue,
}

/// The public code of a validator failure: `email` becomes `invalid_format`;
/// `length` becomes `max_length` when the value is longer than the maximum,
/// otherwise `min_items` (arrays) or `required` when a minimum is set, else `length`;
/// the library's own codes pass through and anything else is `validation_error`.
pub open spec fn remapped_code(issue: ValidatorIssue) -> Seq<char> {
    if issue.code@ == "email"@ {
        "invalid_format"@
    } else if issue.code@ == "length"@ {
        let actual: Option<u64> = match issue.value {
            ParamValue::Text(n) => Some(n),
            ParamValue::List(n) => Some(n),
            _ => None,
        };
        if issue.max is Some && actual is Some && actual->0 > issue.max->0 {
            "max_length"@
        } else if issue.min is Some {
            if issue.value is List { "min_items"@ } else { "required"@ }
        } else {
            "length"@
        }
    } else if issue.code@ == "required"@ {
        "required"@
    } else if issue.code@ == "invalid_format"@ {
        "invalid_format"@
    } else if issue.code@ == "invalid_value"@ {
        "invalid_value"@
    } else if issue.code@ == "min_items"@ {
        "min_items"@
    } else {
        "validation_error"@
    }
}

pub fn remap_validator_code(e: &ValidatorIssue) -> (r: &'static str)
    ensures
        r@ == remapped_code(*e),
{
    let code = e.code.as_str();
    if text_eq(code, "email") {
        return "invalid_format";
    }
    if text_eq(code, "length") {
        let actual: Option<u64> = match e.value {
            ParamValue::Text(n) => Some(n),
            ParamValue::List(n) => Some(n),
            _ => None,
        };
        if let (Some(mx), Some(len)) = (e.max, actual) {
            if len > mx {
                return "max_length";
            }
        }
        if e.min.is_some() {
            if let ParamValue::List(_) = e.value {
                return "min_items";
            }
            return "required";
        }
        return "length";
    }
    if text_eq(code, "required") {
        "required"
    } else if text_eq(code, "invalid_format") {
        "invalid_format"
    } else if text_eq(code, "invalid_value") {
        "invalid_value"
    } else if text_eq(code, "min_items") {
        "min_items"
    } else {
        "validation_error"
    }
}

/// The field error a validator failure on `field` becomes: remapped code, the
/// validator's message or, when it has none, its code.
pub open spec fn field_error_for_issue(field: Seq<char>, issue: ValidatorIssue, fe: FieldError) -> bool {
    &&& fe.field@ == field
    &&& fe.code@ == remapped_code(issue)
    &&& fe.message@ == (match issue.message { Some(m) => m@, None => issue.code@ })
    &&& fe.value is None
}

impl AppError {
    /// A validation error listing each failure in the order given.
    pub fn from_validation_issues(issues: Vec<(String, ValidatorIssue)>) -> (r: AppError)
        ensures
            (r matches AppError::Validation(errs) && errs@.len() == issues@.len()
                && forall|i: int| 0 <= i < issues@.len() ==>
                    field_error_for_issue(#[trigger] issues@[i].0@, issues@[i].1, errs@[i])),
    {
        let mut errs: Vec<FieldError> = Vec::new();
        let mut i: usize = 0;
        while i < issues.len()
            invariant
                i <= issues@.len(),
                errs@.len() == i,
                forall|j: int| 0 <= j < i ==> field_error_for_issue(#[trigger] issues@[j].0@, issues@[j].1, errs@[j]),
            decreases issues@.len() - i,
        {
            let (field, issue) = &issues[i];
            let code = remap_validator_code(issue);
            let message = match &issue.message {
                Some(m) => m.clone(),
                None => issue.code.clone(),
            };
            errs.push(FieldError::new(field.clone(), code.to_string(), message));
            i = i + 1;
        }
        AppError::Validation(errs)
    }
}


/// What a lookup that may find nothing gives: the value found, or `NotFound`
/// with `prefix` followed by the identifier that was looked up.
pub fn require_found<T>(found: Option<T>, prefix: &str, id: &str) -> (r: Result<T, AppError>)
    ensures
        found matches Some(x) ==> r == Ok::<T, AppError>(x),
        found is None ==> (r matches Err(AppError::NotFound(m)) && m@ == prefix@ + id@),
{
    match found {
        Some(x) => Ok(x),
        None => Err(AppError::NotFound(concat2(prefix, id))),
    }
}

} // verus!
