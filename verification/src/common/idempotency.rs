//! Idempotency keys: header validation, the request-body fingerprint and the
//! distributed lock that serialises requests sharing a key.
use crate::common::codec::{sha256, sha256_digest};
use crate::common::text::concat3;
use crate::error::AppError;
use vstd::prelude::*;
use vstd::string::StringSliceAdditionalSpecFns;

verus! {

/// How long a lock is held at most, in milliseconds.
pub const LOCK_TTL_MS: u64 = 60_000;

/// The `Idempotency-Key` header as it arrived.
pub enum KeyHeader<'a> {
    /// No such header.
    Absent,
    /// The header is present but not visible ASCII text.
    NotAscii,
    /// The header's text.
    Text(&'a str),
}

/// Validates the `Idempotency-Key` header: absent is the normal flow (`None`);
/// it must be ASCII, not empty and at most 64 bytes.
pub fn extract_key(header: KeyHeader) -> (r: Result<Option<String>, AppError>)
    ensures
        header is Absent ==> r == Ok::<Option<String>, AppError>(None),
        header is NotAscii ==> (r matches Err(AppError::BadRequest(m)) && m@ == "Idempotency-Key must be valid ASCII"@),
        header matches KeyHeader::Text(s) ==> (s@.len() == 0 ==> (r matches Err(AppError::BadRequest(m))
            && m@ == "Idempotency-Key must not be empty"@)),
        header matches KeyHeader::Text(s) ==> (s@.len() != 0 && s.spec_bytes().len() > 64 ==> (r matches Err(AppError::BadRequest(m))
            && m@ == "Idempotency-Key must be 64 characters or fewer"@)),
        header matches KeyHeader::Text(s) ==> (s@.len() != 0 && s.spec_bytes().len() <= 64 ==> (r matches Ok(Some(k)) && k@ == s@)),
{
    match header {
        KeyHeader::Absent => Ok(None),
        KeyHeader::NotAscii => Err(AppError::BadRequest("Idempotency-Key must be valid ASCII".to_string())),
        KeyHeader::Text(s) => {
            if s.is_empty() {
                return Err(AppError::BadRequest("Idempotency-Key must not be empty".to_string()));
            }
            if s.as_bytes().len() > 64 {
                return Err(AppError::BadRequest("Idempotency-Key must be 64 characters or fewer".to_string()));
            }
            Ok(Some(s.to_string()))
        },
    }
}

/// The SHA-256 of a request body's canonical JSON serialization, for storage and comparison.
pub fn body_hash_bytes(canonical_json: &[u8]) -> (r: Vec<u8>)
    ensures
        r@ == sha256(canonical_json@),
        r@.len() == 32,
{
    sha256_digest(canonical_json)
}

/// The Redis key of the lock for `key` in `namespace`: `idmp_lock:<namespace>:<key>`.
pub fn lock_key(namespace: &str, key: &str) -> (r: String)
    ensures
        r@ == "idmp_lock:"@ + namespace@ + ":"@ + key@,
{
    let mut out = concat3("idmp_lock:", namespace, ":");
    out.append(key);
    out
}

/// The outcome of trying to take the lock: the token when Redis stored it, a
/// conflict when another request holds the lock.
pub fn lock_outcome(acquired: Option<String>, token: String) -> (r: Result<String, AppError>)
    ensures
        acquired is Some ==> r == Ok::<String, AppError>(token),
        acquired is None ==> (r matches Err(AppError::Conflict(m, errs)) && errs@.len() == 0
            && m@ == "A concurrent request with this idempotency key is already in progress"@),
{
    match acquired {
        Some(_) => Ok(token),
        None => Err(AppError::Conflict(
            "A concurrent request with this idempotency key is already in progress".to_string(),
            Vec::new(),
        )),
    }
}

} // verus!
