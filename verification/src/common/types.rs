//! Shared request and response shapes, and how a refused JSON body is reported.
use crate::common::text::{chars_of, concat3, find, find_chars, find_from, occurs_at, string_from_chars, sub_chars};
use crate::error::{lemma_find_from_occurs, AppError, FieldError};
use vstd::prelude::*;

verus! {

/// A page of items with the total count and the page coordinates that produced it.
pub struct PaginatedResponse<T> {
    pub items: Vec<T>,
    pub total: i64,
    pub page: i32,
    pub limit: i32,
}

/// Shared metadata for tracing and audit on write operations. Identifiers are
/// UUIDs given as 128-bit numbers.
#[derive(Debug, Clone, Copy)]
pub struct RequestContext {
    pub request_id: u128,
    pub created_by: u128,
    pub organization_id: u128,
    pub tenant_id: u128,
}

/// A JSON request body that was accepted.
pub struct ValidatedJson<T>(pub T);

/// Why a JSON body was refused before it reached a handler.
pub enum JsonRejectionKind {
    /// The JSON was well formed but did not fit the expected shape; carries the decoder's message.
    DataError(String),
    SyntaxError,
    MissingJsonContentType,
    BytesRejection,
    Other,
}

/// What follows the first occurrence of `prefix` in `s`, up to the next backtick.
pub open spec fn backtick_field(s: Seq<char>, prefix: Seq<char>) -> Option<Seq<char>> {
    match find(s, prefix) {
        None => None,
        Some(k) => {
            let start = k + prefix.len();
            let rest = s.subrange(start, s.len() as int);
            match find(rest, "`"@) {
                None => None,
                Some(e) => Some(rest.subrange(0, e)),
            }
        },
    }
}

/// The text that follows `prefix` up to the next backtick.
pub fn extract_backtick(s: &str, prefix: &str) -> (r: Option<String>)
    ensures
        r is Some == backtick_field(s@, prefix@) is Some,
        r matches Some(f) ==> backtick_field(s@, prefix@) == Some(f@),
{
    let sc = chars_of(s);
    let pc = chars_of(prefix);
    let k = match find_chars(&sc, &pc) {
        Some(k) => k,
        None => return None,
    };
    proof { lemma_find_from_occurs(sc@, pc@, 0); }
    assert(sc@.len() == sc.len());
    let rest = sub_chars(&sc, k + pc.len(), sc.len());
    let tick = chars_of("`");
    let e = match find_chars(&rest, &tick) {
        Some(e) => e,
        None => return None,
    };
    proof {
        lemma_find_from_occurs(rest@, tick@, 0);
        reveal_strlit("`");
    }
    Some(string_from_chars(sub_chars(&rest, 0, e).as_slice()))
}

/// The decoder's own message: what follows `target type: ` when the framework prefixed one.
pub open spec fn data_error_message(raw: Seq<char>) -> Seq<char> {
    match find(raw, "target type: "@) {
        Some(k) => raw.subrange(k + "target type: "@.len(), raw.len() as int),
        None => raw,
    }
}

/// How a body that did not fit its type is reported: a missing field is a
/// `required` validation error, an unknown field a bad request, a field with a
/// wrong type or value an `invalid_value` validation error, anything else a bad request.
pub open spec fn data_error_outcome(raw: Seq<char>, e: AppError) -> bool {
    let msg = data_error_message(raw);
    if backtick_field(msg, "missing field `"@) is Some {
        let f = backtick_field(msg, "missing field `"@)->0;
        e matches AppError::Validation(errs) && errs@.len() == 1 && errs@[0].field@ == f
            && errs@[0].code@ == "required"@ && errs@[0].message@ == "'"@ + f + "' is required"@ && errs@[0].value is None
    } else if backtick_field(msg, "unknown field `"@) is Some {
        let f = backtick_field(msg, "unknown field `"@)->0;
        e matches AppError::BadRequest(m) && m@ == "Unknown field: '"@ + f + "'"@
    } else if backtick_field(msg, "for key `"@) is Some {
        let f = backtick_field(msg, "for key `"@)->0;
        e matches AppError::Validation(errs) && errs@.len() == 1 && errs@[0].field@ == f
            && errs@[0].code@ == "invalid_value"@ && errs@[0].message@ == "'"@ + f + "' has an invalid value"@
            && errs@[0].value is None
    } else {
        e matches AppError::BadRequest(m) && m@ == "Invalid request body"@
    }
}

/// Turns the decoder's message about a body that did not fit its type into a structured error.
pub fn parse_data_error(raw: &str) -> (r: AppError)
    ensures
        data_error_outcome(raw@, r),
{
    let rc = chars_of(raw);
    let marker = chars_of("target type: ");
    let msg_chars = match find_chars(&rc, &marker) {
        Some(k) => {
            proof { lemma_find_from_occurs(rc@, marker@, 0); }
            assert(rc@.len() == rc.len());
            sub_chars(&rc, k + marker.len(), rc.len())
        },
        None => rc,
    };
    let msg = string_from_chars(msg_chars.as_slice());
    assert(msg@ == data_error_message(raw@));
    if let Some(field) = extract_backtick(msg.as_str(), "missing field `") {
        let message = concat3("'", field.as_str(), "' is required");
        return AppError::Validation(vec![FieldError::new(field, "required".to_string(), message)]);
    }
    if let Some(field) = extract_backtick(msg.as_str(), "unknown field `") {
        return AppError::BadRequest(concat3("Unknown field: '", field.as_str(), "'"));
    }
    if let Some(field) = extract_backtick(msg.as_str(), "for key `") {
        let message = concat3("'", field.as_str(), "' has an invalid value");
        return AppError::Validation(vec![FieldError::new(field, "invalid_value".to_string(), message)]);
    }
    AppError::BadRequest("Invalid request body".to_string())
}

/// How a refused JSON body is reported to the caller.
pub open spec fn rejection_outcome(rejection: JsonRejectionKind, e: AppError) -> bool {
    match rejection {
        JsonRejectionKind::DataError(raw) => data_error_outcome(raw@, e),
        JsonRejectionKind::SyntaxError => e matches AppError::BadRequest(m) && m@ == "Malformed JSON: invalid syntax"@,
        JsonRejectionKind::MissingJsonContentType => e matches AppError::BadRequest(m) && m@ == "Content-Type must be application/json"@,
        JsonRejectionKind::BytesRejection => e matches AppError::BadRequest(m) && m@ == "Failed to read request body"@,
        JsonRejectionKind::Other => e matches AppError::BadRequest(m) && m@ == "Invalid request body"@,
    }
}

pub fn json_rejection_to_app_error(rejection: JsonRejectionKind) -> (r: AppError)
    ensures
        rejection_outcome(rejection, r),
{
    match rejection {
        JsonRejectionKind::DataError(raw) => parse_data_error(raw.as_str()),
        JsonRejectionKind::SyntaxError => AppError::BadRequest("Malformed JSON: invalid syntax".to_string()),
        JsonRejectionKind::MissingJsonContentType => AppError::BadRequest("Content-Type must be application/json".to_string()),
        JsonRejectionKind::BytesRejection => AppError::BadRequest("Failed to read request body".to_string()),
        JsonRejectionKind::Other => AppError::BadRequest("Invalid request body".to_string()),
    }
}


/// A page size taken from a query: 20 when none is given, otherwise the value
/// brought into `1..=100`.
pub fn clamp_limit(limit: Option<i64>) -> (r: i64)
    ensures
        limit is None ==> r == 20,
        limit matches Some(l) ==> r == (if l < 1 { 1 } else if l > 100 { 100 } else { l }),
{
    match limit {
        None => 20,
        Some(l) => {
            if l < 1 {
                1
            } else if l > 100 {
                100
            } else {
                l
            }
        },
    }
}

/// The rows a keyset page keeps of those fetched: all but the last when more
/// than `limit` came back.
pub open spec fn kept_rows<T>(rows: Seq<T>, limit: int) -> Seq<T> {
    if rows.len() > limit && rows.len() > 0 {
        rows.drop_last()
    } else {
        rows
    }
}

/// A keyset page fetched with one row more than its limit never shows more than
/// the limit, and shows every fetched row when there was no extra one.
pub proof fn law_page_within_limit<T>(rows: Seq<T>, limit: int)
    requires
        0 <= limit,
        rows.len() <= limit + 1,
    ensures
        kept_rows(rows, limit).len() <= limit,
        rows.len() <= limit ==> kept_rows(rows, limit) == rows,
{
}

/// Splits the rows of a keyset page, fetched with one row more than `limit`:
/// when more than `limit` rows came back the last one is taken off and handed
/// back as the start of the next page.
pub fn take_page<T>(rows: Vec<T>, limit: i64) -> (r: (Vec<T>, Option<T>))
    ensures
        r.0@ == kept_rows(rows@, limit as int),
        rows@.len() > limit && rows@.len() > 0 ==> r.1 == Some(rows@.last()),
        rows@.len() <= limit || rows@.len() == 0 ==> r.1 is None,
{
    let mut rows = rows;
    if limit < 0 || rows.len() as u64 > limit as u64 {
        let last = rows.pop();
        (rows, last)
    } else {
        (rows, None)
    }
}

/// Limit and offset of an offset-paginated listing: the limit capped at `max`,
/// the offset the pages before `page` (numbered from 1, page 0 read as 1).
pub fn page_window(page: u32, limit: u32, max: u32) -> (r: (i64, i64))
    requires
        max <= 0x7fff_ffff,
    ensures
        r.0 == (if limit < max { limit } else { max }),
        r.1 == (if page == 0 { 0 } else { page - 1 }) * r.0,
{
    let lim: u32 = if limit < max { limit } else { max };
    let before: u32 = if page == 0 { 0 } else { page - 1 };
    let b: u64 = before as u64;
    let l: u64 = lim as u64;
    assert(b * l <= 0xffff_ffff * 0x7fff_ffff) by (nonlinear_arith)
        requires
            b <= 0xffff_ffff,
            l <= 0x7fff_ffff,
    ;
    let product: u64 = b * l;
    let offset: i64 = product as i64;
    (lim as i64, offset)
}

/// The total count of a listing whose rows each carry it: that of the first row, 0 when none came back.
pub fn total_of_first(first_count: Option<i64>) -> (r: i64)
    ensures
        r == (match first_count {
            Some(c) => c,
            None => 0,
        }),
{
    match first_count {
        Some(c) => c,
        None => 0,
    }
}

} // verus!
