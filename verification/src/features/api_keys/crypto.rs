//! API key material: generation, the lookup hash and the view-later envelope.
use crate::common::codec::{
    base64_url_encode, encode_base64_url, is_url_safe_base64_text, sha256, sha256_digest, AES_GCM_MAX_PLAINTEXT,
};
use crate::common::crypto::{
    envelope_nonce_fits, envelope_nonce_fits_exec, open_envelope, open_envelope_with,
    seal_envelope_with, sealed_envelope, EnvelopeError,
};
use crate::common::nano_id::{all_alphanumeric, NanoId};
use crate::common::text::{chars_of, concat3, string_from_chars, sub_chars};
use crate::error::AppError;
use vstd::prelude::*;
use vstd::string::StringSliceAdditionalSpecFns;
use vstd::utf8::encode_utf8;

verus! {

/// The display prefix of a key's random part: its first three characters (fewer when it is shorter).
pub open spec fn key_prefix_of(random: Seq<char>) -> Seq<char> {
    if random.len() <= 3 { random } else { random.subrange(0, 3) }
}

/// Generates a new API key `hkly_<env>_<random>` and its display prefix.
/// The random part has `key_length` alphanumeric characters.
pub fn generate_api_key(env_str: &str, key_length: i16) -> (r: (String, String))
    requires
        key_length >= 1,
    ensures
        exists|random: Seq<char>| {
            &&& random.len() == key_length
            &&& all_alphanumeric(random)
            &&& r.0@ == "hkly_"@ + env_str@ + "_"@ + random
            &&& r.1@ == #[trigger] key_prefix_of(random)
        },
{
    let random_part = NanoId::generate(key_length as usize);
    let chars = chars_of(random_part.as_str());
    let take = if chars.len() < 3 { chars.len() } else { 3 };
    let prefix_chars = sub_chars(&chars, 0, take);
    let key_prefix = string_from_chars(prefix_chars.as_slice());
    let mut full_key = concat3("hkly_", env_str, "_");
    full_key.append(random_part.as_str());
    proof {
        assert(prefix_chars@ =~= key_prefix_of(random_part@));
    }
    (full_key, key_prefix)
}

/// The lookup token of a key: SHA-256 of its bytes, encoded as unpadded URL-safe base64.
pub open spec fn key_hash_of(key: Seq<char>) -> Seq<char> {
    base64_url_encode(sha256(encode_utf8(key)))
}

pub fn hash_key(key: &str) -> (r: String)
    ensures
        r@ == key_hash_of(key@),
        r@.len() == 43,
        is_url_safe_base64_text(r@),
{
    let digest = sha256_digest(key.as_bytes());
    encode_base64_url(digest.as_slice())
}

/// The message of the internal error an API key envelope that cannot be opened becomes.
pub open spec fn key_envelope_message(e: EnvelopeError) -> Seq<char> {
    match e {
        EnvelopeError::Format => "invalid api key envelope format"@,
        EnvelopeError::NonceEncoding => "invalid nonce encoding in api key envelope"@,
        EnvelopeError::CiphertextEncoding => "invalid ciphertext encoding in api key envelope"@,
        EnvelopeError::Decryption => "api key decryption failed"@,
        EnvelopeError::Utf8 => "decrypted api key contains invalid UTF-8"@,
    }
}

fn key_envelope_message_exec(e: EnvelopeError) -> (r: String)
    ensures
        r@ == key_envelope_message(e),
{
    match e {
        EnvelopeError::Format => "invalid api key envelope format".to_string(),
        EnvelopeError::NonceEncoding => "invalid nonce encoding in api key envelope".to_string(),
        EnvelopeError::CiphertextEncoding => "invalid ciphertext encoding in api key envelope".to_string(),
        EnvelopeError::Decryption => "api key decryption failed".to_string(),
        EnvelopeError::Utf8 => "decrypted api key contains invalid UTF-8".to_string(),
    }
}

/// AES-256-GCM encrypts `plaintext` with `raw_key` into a `v1$<nonce>$<ciphertext>`
/// envelope that [`decrypt_key`] opens back to `plaintext`.
pub fn encrypt_key(raw_key: [u8; 32], plaintext: &str) -> (r: Result<String, AppError>)
    ensures
        r is Ok <==> plaintext.spec_bytes().len() <= AES_GCM_MAX_PLAINTEXT,
        r matches Err(e) ==> (e matches AppError::Internal(m) && m@ == "api key encryption failed"@),
        r matches Ok(s) ==> exists|nonce: Seq<u8>| nonce.len() == 12
            && s@ == #[trigger] sealed_envelope(raw_key@, nonce, plaintext@),
        r matches Ok(s) ==> open_envelope(raw_key@, encode_utf8(s@)) == Ok::<Seq<char>, EnvelopeError>(plaintext@),
        r matches Ok(s) ==> envelope_nonce_fits(encode_utf8(s@)),
{
    let key: &[u8] = &raw_key;
    assert(key@ == raw_key@);
    match seal_envelope_with(key, plaintext) {
        Some(s) => Ok(s),
        None => Err(AppError::Internal("api key encryption failed".to_string())),
    }
}

/// Decrypts an envelope produced by [`encrypt_key`].
pub fn decrypt_key(raw_key: [u8; 32], envelope: &str) -> (r: Result<String, AppError>)
    requires
        envelope_nonce_fits(envelope.spec_bytes()),
    ensures
        open_envelope(raw_key@, envelope.spec_bytes()) matches Ok(p) ==> (r matches Ok(s) && s@ == p),
        open_envelope(raw_key@, envelope.spec_bytes()) matches Err(e) ==> (r matches Err(AppError::Internal(m))
            && m@ == key_envelope_message(e)),
{
    let key: &[u8] = &raw_key;
    assert(key@ == raw_key@);
    match open_envelope_with(key, envelope) {
        Ok(s) => Ok(s),
        Err(e) => Err(AppError::Internal(key_envelope_message_exec(e))),
    }
}

/// Like [`decrypt_key`], for any stored text: `None` when the envelope's nonce
/// does not have the 12 bytes AES-GCM needs.
pub fn try_decrypt_key(raw_key: [u8; 32], envelope: &str) -> (r: Option<Result<String, AppError>>)
    ensures
        r is None <==> !envelope_nonce_fits(envelope.spec_bytes()),
        r matches Some(x) ==> (open_envelope(raw_key@, envelope.spec_bytes()) matches Ok(p) ==> (x matches Ok(s) && s@ == p)),
        r matches Some(x) ==> (open_envelope(raw_key@, envelope.spec_bytes()) matches Err(e) ==> (x matches Err(AppError::Internal(m))
            && m@ == key_envelope_message(e))),
{
    if envelope_nonce_fits_exec(envelope) {
        Some(decrypt_key(raw_key, envelope))
    } else {
        None
    }
}

} // verus!
