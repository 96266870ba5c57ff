//! Field checks shared by request types.
use crate::common::codec::{lowercased, trim_text, trimmed};
use crate::common::text::chars_of;
use crate::error::AppError;
use vstd::prelude::*;
use vstd::utf8::encode_utf8;

verus! {

/// A failed field check, named by its code (`required`, `invalid_format`, `invalid_value`).
#[derive(Debug)]
pub struct ValidationError {
    pub code: String,
}

impl ValidationError {
    pub fn new(code: &str) -> (r: Self)
        ensures
            r.code@ == code@,
    {
        ValidationError { code: code.to_string() }
    }
}

/// Refuses a text that is empty once trimmed, with code `required`.
pub fn validate_not_blank(s: &str) -> (r: Result<(), ValidationError>)
    ensures
        r is Err <==> trimmed(s@).len() == 0,
        r matches Err(e) ==> e.code@ == "required"@,
{
    if trim_text(s).is_empty() {
        return Err(ValidationError::new("required"));
    }
    Ok(())
}

pub open spec fn is_slug_char(c: char) -> bool {
    ('a' <= c && c <= 'z') || ('0' <= c && c <= '9') || c == '-'
}

/// A slug holds lowercase ASCII letters, digits and `-`, and neither starts nor ends with `-`.
pub open spec fn is_slug(s: Seq<char>) -> bool {
    &&& forall|i: int| 0 <= i < s.len() ==> is_slug_char(#[trigger] s[i])
    &&& !(s.len() > 0 && s[0] == '-')
    &&& !(s.len() > 0 && s[s.len() - 1] == '-')
}

/// Refuses a text that is not a slug, with code `invalid_format`.
pub fn validate_slug(s: &str) -> (r: Result<(), ValidationError>)
    ensures
        r is Err <==> !is_slug(s@),
        r matches Err(e) ==> e.code@ == "invalid_format"@,
{
    let chars = chars_of(s);
    let mut ok = true;
    let mut i: usize = 0;
    while i < chars.len()
        invariant
            i <= chars@.len(),
            chars@ == s@,
            ok == (forall|k: int| 0 <= k < i ==> is_slug_char(#[trigger] chars@[k])),
        decreases chars@.len() - i,
    {
        let c = chars[i];
        if !(('a' <= c && c <= 'z') || ('0' <= c && c <= '9') || c == '-') {
            ok = false;
        }
        i = i + 1;
    }
    let n = chars.len();
    let edges = !(n > 0 && chars[0] == '-') && !(n > 0 && chars[n - 1] == '-');
    if !ok || !edges {
        return Err(ValidationError::new("invalid_format"));
    }
    Ok(())
}

/// Refuses a time (microseconds since the Unix epoch) that is not after `now`, with code `invalid_value`.
pub fn validate_future_date(dt: i64, now: i64) -> (r: Result<(), ValidationError>)
    ensures
        r is Err <==> dt <= now,
        r matches Err(e) ==> e.code@ == "invalid_value"@,
{
    if dt <= now {
        return Err(ValidationError::new("invalid_value"));
    }
    Ok(())
}

/// Which rule a set of tags breaks first.
#[derive(Debug, PartialEq, Eq, Structural, Clone, Copy)]
pub enum TagProblem {
    TooManyEntries,
    KeyTooLong,
    ValueTooLong,
}

/// The first entry, from index `from` on, whose key (then value) is longer in bytes than allowed.
pub open spec fn first_long_tag(tags: Seq<(String, String)>, max_key: nat, max_value: nat, from: int) -> Option<TagProblem>
    decreases tags.len() - from,
{
    if from < 0 || from >= tags.len() {
        None
    } else if encode_utf8(tags[from].0@).len() > max_key {
        Some(TagProblem::KeyTooLong)
    } else if encode_utf8(tags[from].1@).len() > max_value {
        Some(TagProblem::ValueTooLong)
    } else {
        first_long_tag(tags, max_key, max_value, from + 1)
    }
}

/// The first rule the tags break: the number of entries, then each entry in order.
pub open spec fn tag_problem(tags: Seq<(String, String)>, max_entries: nat, max_key: nat, max_value: nat) -> Option<TagProblem> {
    if tags.len() > max_entries {
        Some(TagProblem::TooManyEntries)
    } else {
        first_long_tag(tags, max_key, max_value, 0)
    }
}

/// The first rule the tags break, for the given limits.
pub fn find_tag_problem(tags: &Vec<(String, String)>, max_entries: usize, max_key: usize, max_value: usize) -> (r: Option<TagProblem>)
    ensures
        r == tag_problem(tags@, max_entries as nat, max_key as nat, max_value as nat),
{
    if tags.len() > max_entries {
        return Some(TagProblem::TooManyEntries);
    }
    let mut i: usize = 0;
    while i < tags.len()
        invariant
            i <= tags@.len(),
            tags@.len() <= max_entries,
            first_long_tag(tags@, max_key as nat, max_value as nat, 0)
                == first_long_tag(tags@, max_key as nat, max_value as nat, i as int),
        decreases tags@.len() - i,
    {
        let entry = &tags[i];
        let kb = entry.0.as_str().as_bytes();
        let vb = entry.1.as_str().as_bytes();
        assert(kb@.len() == encode_utf8(tags@[i as int].0@).len());
        assert(vb@.len() == encode_utf8(tags@[i as int].1@).len());
        if kb.len() > max_key {
            return Some(TagProblem::KeyTooLong);
        }
        if vb.len() > max_value {
            return Some(TagProblem::ValueTooLong);
        }
        i = i + 1;
    }
    None
}

/// The message of each tag problem under the shared limits (5 entries, 64-byte keys, 255-byte values).
pub open spec fn tag_problem_message(p: TagProblem) -> Seq<char> {
    match p {
        TagProblem::TooManyEntries => "tags: max 5 entries"@,
        TagProblem::KeyTooLong => "tags: key must be 64 characters or fewer"@,
        TagProblem::ValueTooLong => "tags: value must be 255 characters or fewer"@,
    }
}

/// Tags map keys to values: no key occurs twice.
pub open spec fn distinct_keys(tags: Seq<(String, String)>) -> bool {
    forall|i: int, j: int| 0 <= i < j < tags.len() ==> tags[i].0@ != tags[j].0@
}

/// Tags may have at most 5 entries, keys of at most 64 bytes and values of at most 255 bytes;
/// the first rule broken, in entry order, is reported as a bad request.
pub fn validate_tags(tags: &Vec<(String, String)>) -> (r: Result<(), AppError>)
    requires
        distinct_keys(tags@),
    ensures
        tag_problem(tags@, 5, 64, 255) is None ==> r is Ok,
        tag_problem(tags@, 5, 64, 255) matches Some(p) ==> (r matches Err(AppError::BadRequest(m)) && m@ == tag_problem_message(p)),
{
    match find_tag_problem(tags, 5, 64, 255) {
        None => Ok(()),
        Some(TagProblem::TooManyEntries) => Err(AppError::BadRequest("tags: max 5 entries".to_string())),
        Some(TagProblem::KeyTooLong) => Err(AppError::BadRequest("tags: key must be 64 characters or fewer".to_string())),
        Some(TagProblem::ValueTooLong) => Err(AppError::BadRequest("tags: value must be 255 characters or fewer".to_string())),
    }
}

} // verus!
