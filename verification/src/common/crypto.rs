//! Versioned secret envelopes (`v1$<nonce>$<ciphertext>`, both parts unpadded
//! URL-safe base64 of AES-256-GCM output) and per-tenant key derivation.
use crate::common::codec::{
    aes_gcm_decrypt, aes_gcm_encrypt, aes_gcm_open, aes_gcm_seal, base64_standard_decode,
    base64_url_decode, base64_url_encode, decode_base64_standard, decode_base64_url,
    encode_base64_url, hmac_sha256, hmac_sha256_tag, is_url_safe_base64_char,
    is_url_safe_base64_text, random_32_bytes, random_gcm_nonce, string_from_utf8, trim_text,
    trimmed, AES_GCM_MAX_PLAINTEXT,
};
use crate::common::text::{concat2, decimal, decimal_text};
use crate::error::AppError;
use vstd::prelude::*;
use vstd::string::StringSliceAdditionalSpecFns;
use vstd::utf8::*;

verus! {

broadcast use vstd::utf8::is_ascii_chars_encode_utf8, vstd::utf8::encode_utf8_valid_utf8,
    vstd::utf8::encode_utf8_decode_utf8;

/// Index of the first `$` byte of `b` at or after `from`.
pub open spec fn dollar_index(b: Seq<u8>, from: int) -> Option<int>
    decreases b.len() + 1 - from,
{
    if from < 0 || from >= b.len() {
        None
    } else if b[from] == 0x24u8 {
        Some(from)
    } else {
        dollar_index(b, from + 1)
    }
}

/// The three fields that `splitn(3, '$')` cuts an envelope into, when it has at least two `$`.
pub open spec fn envelope_fields(b: Seq<u8>) -> Option<(Seq<u8>, Seq<u8>, Seq<u8>)> {
    match dollar_index(b, 0) {
        None => None,
        Some(i) => match dollar_index(b, i + 1) {
            None => None,
            Some(j) => Some((b.subrange(0, i), b.subrange(i + 1, j), b.subrange(j + 1, b.len() as int))),
        },
    }
}

/// The version tag `v1`.
pub open spec fn version_tag() -> Seq<u8> {
    seq![0x76u8, 0x31u8]
}

/// Why an envelope could not be opened.
#[derive(Debug, PartialEq, Eq, Structural, Clone, Copy)]
pub enum EnvelopeError {
    /// Fewer than three `$`-separated fields, or a version other than `v1`.
    Format,
    /// The nonce field is not URL-safe base64.
    NonceEncoding,
    /// The ciphertext field is not URL-safe base64.
    CiphertextEncoding,
    /// Authentication failed.
    Decryption,
    /// The plaintext is not UTF-8.
    Utf8,
}

/// The nonce and ciphertext an envelope carries, when it is well formed and both decode.
pub open spec fn envelope_payload(b: Seq<u8>) -> Option<(Seq<u8>, Seq<u8>)> {
    match envelope_fields(b) {
        Some((v, n, c)) => if v == version_tag() {
            match (base64_url_decode(n), base64_url_decode(c)) {
                (Some(nonce), Some(ct)) => Some((nonce, ct)),
                _ => None,
            }
        } else {
            None
        },
        None => None,
    }
}

/// Opening is defined on the envelope: a nonce that decodes to other than 12
/// bytes cannot be handed to AES-GCM.
pub open spec fn envelope_nonce_fits(b: Seq<u8>) -> bool {
    envelope_payload(b) matches Some((nonce, _)) ==> nonce.len() == 12
}

/// What opening the envelope bytes `b` with `key` gives.
pub open spec fn open_envelope(key: Seq<u8>, b: Seq<u8>) -> Result<Seq<char>, EnvelopeError> {
    match envelope_fields(b) {
        None => Err(EnvelopeError::Format),
        Some((v, n, c)) => if v != version_tag() {
            Err(EnvelopeError::Format)
        } else {
            match base64_url_decode(n) {
                None => Err(EnvelopeError::NonceEncoding),
                Some(nonce) => match base64_url_decode(c) {
                    None => Err(EnvelopeError::CiphertextEncoding),
                    Some(ct) => match aes_gcm_open(key, nonce, ct) {
                        None => Err(EnvelopeError::Decryption),
                        Some(pt) => if valid_utf8(pt) { Ok(decode_utf8(pt)) } else { Err(EnvelopeError::Utf8) },
                    },
                },
            }
        },
    }
}

/// The envelope text for an encoded nonce and an encoded ciphertext.
pub open spec fn envelope_text(nonce_b64: Seq<char>, ct_b64: Seq<char>) -> Seq<char> {
    seq!['v', '1', '$'] + nonce_b64 + seq!['$'] + ct_b64
}

/// The envelope that sealing `plaintext` under `key` with `nonce` produces.
pub open spec fn sealed_envelope(key: Seq<u8>, nonce: Seq<u8>, plaintext: Seq<char>) -> Seq<char> {
    envelope_text(base64_url_encode(nonce), base64_url_encode(aes_gcm_seal(key, nonce, encode_utf8(plaintext))))
}

proof fn lemma_dollar_index_at(b: Seq<u8>, from: int, k: int)
    requires
        0 <= from <= k < b.len(),
        b[k] == 0x24u8,
        forall|i: int| from <= i < k ==> b[i] != 0x24u8,
    ensures
        dollar_index(b, from) == Some(k),
    decreases k - from,
{
    if from < k {
        lemma_dollar_index_at(b, from + 1, k);
    }
}

proof fn lemma_url_safe_not_dollar(c: char)
    requires
        is_url_safe_base64_char(c),
    ensures
        c as u8 != 0x24u8,
        '\0' <= c <= '\u{7f}',
{
}

/// Opening an envelope made of an encoded nonce and an encoded ciphertext gives
/// back what AES-GCM opens the ciphertext to, as text: whenever the encodings
/// decode to the nonce and ciphertext and AES-GCM opens the ciphertext to `pt`,
/// the envelope opens to `pt` (or is refused as not UTF-8).
pub proof fn law_open_sealed_envelope(key: Seq<u8>, nonce: Seq<u8>, e1: Seq<char>, ct: Seq<u8>, e2: Seq<char>, pt: Seq<u8>)
    requires
        is_url_safe_base64_text(e1),
        is_url_safe_base64_text(e2),
        base64_url_decode(encode_utf8(e1)) == Some(nonce),
        base64_url_decode(encode_utf8(e2)) == Some(ct),
        aes_gcm_open(key, nonce, ct) == Some(pt),
    ensures
        envelope_payload(encode_utf8(envelope_text(e1, e2))) == Some((nonce, ct)),
        open_envelope(key, encode_utf8(envelope_text(e1, e2))) == (if valid_utf8(pt) {
            Ok::<Seq<char>, EnvelopeError>(decode_utf8(pt))
        } else {
            Err::<Seq<char>, EnvelopeError>(EnvelopeError::Utf8)
        }),
{
    let t = envelope_text(e1, e2);
    assert forall|i: int| 0 <= i < e1.len() implies '\0' <= #[trigger] e1[i] <= '\u{7f}' && e1[i] as u8 != 0x24u8 by {
        lemma_url_safe_not_dollar(e1[i]);
    }
    assert forall|i: int| 0 <= i < e2.len() implies '\0' <= #[trigger] e2[i] <= '\u{7f}' && e2[i] as u8 != 0x24u8 by {
        lemma_url_safe_not_dollar(e2[i]);
    }
    assert(is_ascii_chars(e1));
    assert(is_ascii_chars(e2));
    assert(is_ascii_chars(t)) by {
        assert forall|i: int| 0 <= i < t.len() implies '\0' <= #[trigger] t[i] <= '\u{7f}' by {
            if i < 3 {
            } else if i < 3 + e1.len() {
                assert(t[i] == e1[i - 3]);
            } else if i == 3 + e1.len() {
            } else {
                assert(t[i] == e2[i - 4 - e1.len()]);
            }
        }
    }
    let b = encode_utf8(t);
    assert(b.len() == t.len());
    assert(forall|i: int| 0 <= i < t.len() ==> t[i] as u8 == #[trigger] b[i]);
    let d1: int = 3 + e1.len() as int;
    assert(b[0] == 0x76u8) by { assert(t[0] == 'v'); }
    assert(b[1] == 0x31u8) by { assert(t[1] == '1'); }
    assert(b[2] == 0x24u8) by { assert(t[2] == '$'); }
    assert(b[d1] == 0x24u8) by { assert(t[d1] == '$'); }
    lemma_dollar_index_at(b, 0, 2);
    assert forall|i: int| 3 <= i < d1 implies b[i] != 0x24u8 by {
        assert(t[i] == e1[i - 3]);
    }
    lemma_dollar_index_at(b, 3, d1);
    let f = envelope_fields(b);
    assert(b.subrange(0, 2) =~= version_tag());
    assert(b.subrange(3, d1) =~= encode_utf8(e1)) by {
        assert forall|i: int| 0 <= i < e1.len() implies b.subrange(3, d1)[i] == encode_utf8(e1)[i] by {
            assert(t[3 + i] == e1[i]);
            assert(e1[i] as u8 == encode_utf8(e1)[i]);
        }
    }
    assert(b.subrange(d1 + 1, b.len() as int) =~= encode_utf8(e2)) by {
        assert forall|i: int| 0 <= i < e2.len() implies b.subrange(d1 + 1, b.len() as int)[i] == encode_utf8(e2)[i] by {
            assert(t[d1 + 1 + i] == e2[i]);
            assert(e2[i] as u8 == encode_utf8(e2)[i]);
        }
    }
}

fn find_dollar(b: &[u8], from: usize) -> (r: Option<usize>)
    ensures
        r matches Some(k) ==> dollar_index(b@, from as int) == Some(k as int),
        r is None ==> dollar_index(b@, from as int) is None,
{
    let mut k = from;
    while k < b.len()
        invariant
            from <= k,
            dollar_index(b@, from as int) == dollar_index(b@, k as int),
        decreases b@.len() - k,
    {
        if b[k] == 0x24u8 {
            return Some(k);
        }
        k = k + 1;
    }
    None
}

fn copy_range(b: &[u8], lo: usize, hi: usize) -> (r: Vec<u8>)
    requires
        lo <= hi <= b@.len(),
    ensures
        r@ == b@.subrange(lo as int, hi as int),
{
    let mut out: Vec<u8> = Vec::new();
    let mut i = lo;
    while i < hi
        invariant
            lo <= i <= hi,
            hi <= b@.len(),
            out@ == b@.subrange(lo as int, i as int),
        decreases hi - i,
    {
        out.push(b[i]);
        i = i + 1;
        assert(out@ =~= b@.subrange(lo as int, i as int));
    }
    out
}

proof fn lemma_dollar_index_range(b: Seq<u8>, from: int)
    ensures
        dollar_index(b, from) matches Some(k) ==> from <= k < b.len() && b[k] == 0x24u8,
    decreases b.len() + 1 - from,
{
    if from < 0 || from >= b.len() {
    } else if b[from] == 0x24u8 {
    } else {
        lemma_dollar_index_range(b, from + 1);
    }
}

/// Cuts an envelope into its three `$`-separated fields.
fn split_envelope(b: &[u8]) -> (r: Option<(Vec<u8>, Vec<u8>, Vec<u8>)>)
    ensures
        r is Some == envelope_fields(b@) is Some,
        r matches Some((v, n, c)) ==> envelope_fields(b@) == Some((v@, n@, c@)),
{
    assert(b@.len() == b.len());
    let i = match find_dollar(b, 0) {
        Some(i) => i,
        None => return None,
    };
    proof { lemma_dollar_index_range(b@, 0); }
    let j = match find_dollar(b, i + 1) {
        Some(j) => j,
        None => return None,
    };
    proof { lemma_dollar_index_range(b@, i + 1); }
    Some((copy_range(b, 0, i), copy_range(b, i + 1, j), copy_range(b, j + 1, b.len())))
}

fn is_version_tag(v: &Vec<u8>) -> (r: bool)
    ensures
        r == (v@ == version_tag()),
{
    if v.len() == 2 && v[0] == 0x76u8 && v[1] == 0x31u8 {
        assert(v@ =~= version_tag());
        true
    } else {
        false
    }
}

/// Decodes the nonce and ciphertext of an envelope, `None` when it is malformed.
fn envelope_parts(b: &[u8]) -> (r: Result<(Vec<u8>, Vec<u8>), EnvelopeError>)
    ensures
        r matches Ok((n, c)) ==> envelope_payload(b@) == Some((n@, c@)),
        r matches Err(e) ==> open_envelope(arbitrary(), b@) == Err::<Seq<char>, EnvelopeError>(e)
            && envelope_payload(b@) is None,
{
    let (v, n, c) = match split_envelope(b) {
        Some(t) => t,
        None => return Err(EnvelopeError::Format),
    };
    if !is_version_tag(&v) {
        return Err(EnvelopeError::Format);
    }
    let nonce = match decode_base64_url(n.as_slice()) {
        Some(x) => x,
        None => return Err(EnvelopeError::NonceEncoding),
    };
    let ct = match decode_base64_url(c.as_slice()) {
        Some(x) => x,
        None => return Err(EnvelopeError::CiphertextEncoding),
    };
    Ok((nonce, ct))
}

/// Whether the nonce of the envelope `text` fits AES-GCM (see [`envelope_nonce_fits`]).
pub fn envelope_nonce_fits_exec(text: &str) -> (r: bool)
    ensures
        r == envelope_nonce_fits(text.spec_bytes()),
{
    match envelope_parts(text.as_bytes()) {
        Ok((nonce, _)) => nonce.len() == 12,
        Err(_) => true,
    }
}

/// Opens the envelope `text` with `key`.
pub fn open_envelope_with(key: &[u8], text: &str) -> (r: Result<String, EnvelopeError>)
    requires
        key@.len() == 32,
        envelope_nonce_fits(text.spec_bytes()),
    ensures
        r matches Ok(s) ==> open_envelope(key@, text.spec_bytes()) == Ok::<Seq<char>, EnvelopeError>(s@),
        r matches Err(e) ==> open_envelope(key@, text.spec_bytes()) == Err::<Seq<char>, EnvelopeError>(e),
{
    let (nonce, ct) = envelope_parts(text.as_bytes())?;
    let pt = match aes_gcm_decrypt(key, nonce.as_slice(), ct.as_slice()) {
        Some(p) => p,
        None => return Err(EnvelopeError::Decryption),
    };
    match string_from_utf8(pt) {
        Some(s) => Ok(s),
        None => Err(EnvelopeError::Utf8),
    }
}

/// Seals `plaintext` under `key` with a fresh random nonce. `None` only when the
/// plaintext is longer than AES-GCM accepts. The envelope opens to the plaintext.
pub fn seal_envelope_with(key: &[u8], plaintext: &str) -> (r: Option<String>)
    requires
        key@.len() == 32,
    ensures
        r is Some <==> plaintext.spec_bytes().len() <= AES_GCM_MAX_PLAINTEXT,
        r matches Some(s) ==> exists|nonce: Seq<u8>| nonce.len() == 12 && s@ == #[trigger] sealed_envelope(key@, nonce, plaintext@),
        r matches Some(s) ==> open_envelope(key@, encode_utf8(s@)) == Ok::<Seq<char>, EnvelopeError>(plaintext@),
        r matches Some(s) ==> envelope_nonce_fits(encode_utf8(s@)),
        r matches Some(s) ==> (envelope_payload(encode_utf8(s@)) matches Some((n, c))
            && n.len() == 12 && c.len() == plaintext.spec_bytes().len() + 16),
{
    let nonce = random_gcm_nonce();
    let ct = match aes_gcm_encrypt(key, nonce.as_slice(), plaintext.as_bytes()) {
        Some(c) => c,
        None => return None,
    };
    let e1 = encode_base64_url(nonce.as_slice());
    let e2 = encode_base64_url(ct.as_slice());
    let mut out = "v1$".to_string();
    out.append(e1.as_str());
    out.append("$");
    out.append(e2.as_str());
    proof {
        reveal_strlit("v1$");
        reveal_strlit("$");
        assert(out@ =~= envelope_text(e1@, e2@));
        assert(out@ == sealed_envelope(key@, nonce@, plaintext@));
        law_open_sealed_envelope(key@, nonce@, e1@, ct@, e2@, plaintext.spec_bytes());
    }
    Some(out)
}

/// The 16 bytes of a UUID given as a 128-bit number, most significant byte first.
pub open spec fn uuid_bytes(u: u128) -> Seq<u8> {
    Seq::new(16, |i: int| ((u >> ((120 - 8 * i) as u32)) & 0xffu128) as u8)
}

pub fn uuid_bytes_exec(u: u128) -> (r: Vec<u8>)
    ensures
        r@ == uuid_bytes(u),
{
    let mut out: Vec<u8> = Vec::new();
    let mut i: u32 = 0;
    while i < 16
        invariant
            i <= 16,
            out@.len() == i,
            forall|k: int| 0 <= k < i ==> out@[k] == ((u >> ((120 - 8 * k) as u32)) & 0xffu128) as u8,
        decreases 16 - i,
    {
        out.push(((u >> (120 - 8 * i)) & 0xffu128) as u8);
        i = i + 1;
    }
    assert(out@ =~= uuid_bytes(u));
    out
}

/// The number that `bytes` write in base 256, most significant byte first.
pub open spec fn big_endian_value(bytes: Seq<u8>) -> nat
    decreases bytes.len(),
{
    if bytes.len() == 0 {
        0
    } else {
        big_endian_value(bytes.drop_last()) * 256 + bytes.last() as nat
    }
}

/// One byte more of a number, read from the most significant end.
proof fn lemma_next_byte(u: u128, s: u32)
    requires
        s <= 112,
    ensures
        (u >> ((s + 8) as u32)) as nat * 256 + (((u >> s) & 0xffu128) as u8) as nat == (u >> s) as nat,
{
    let hi = u >> ((s + 8) as u32);
    let lo = (u >> s) & 0xffu128;
    assert(hi * 256 + lo == u >> s && lo < 256) by (bit_vector)
        requires
            s <= 112,
            hi == u >> ((s + 8) as u32),
            lo == (u >> s) & 0xffu128,
    ;
    assert((lo as u8) as nat == lo as nat);
}

/// The first `k` bytes of a UUID's byte string write its top `8 * k` bits.
proof fn lemma_uuid_bytes_prefix(u: u128, k: int)
    requires
        1 <= k <= 16,
    ensures
        big_endian_value(uuid_bytes(u).take(k)) == (u >> ((128 - 8 * k) as u32)) as nat,
    decreases k,
{
    let b = uuid_bytes(u);
    if k == 1 {
        let top = u >> 120u32;
        assert((top & 0xffu128) == top && top < 256) by (bit_vector)
            requires
                top == u >> 120u32,
        ;
        assert(b.take(1).drop_last() =~= Seq::<u8>::empty());
        assert(big_endian_value(Seq::<u8>::empty()) == 0);
        assert(b.take(1).last() == b[0]);
        assert(b[0] == ((u >> 120u32) & 0xffu128) as u8);
        assert((top as u8) as nat == top as nat);
        assert(big_endian_value(b.take(1)) == b[0] as nat);
    } else {
        lemma_uuid_bytes_prefix(u, k - 1);
        assert(b.take(k).drop_last() =~= b.take(k - 1));
        assert(b.take(k).last() == b[k - 1]);
        let sh = (128 - 8 * k) as u32;
        lemma_next_byte(u, sh);
        assert((sh + 8) as u32 == (128 - 8 * (k - 1)) as u32);
        assert(b[k - 1] == ((u >> sh) & 0xffu128) as u8);
        assert(big_endian_value(b.take(k)) == big_endian_value(b.take(k - 1)) * 256 + b[k - 1] as nat);
    }
}

/// A tenant's key is the HMAC-SHA256, under the master key, of the tenant
/// UUID's 16-byte string in standard (RFC 4122) order: the bytes, read most
/// significant first, write the UUID itself, so byte 0 holds its top 8 bits
/// (the first two hexadecimal digits of its text) and byte 15 its lowest.
pub proof fn law_tenant_key_hashes_uuid_most_significant_first(master: Seq<u8>, tenant_id: u128)
    ensures
        uuid_bytes(tenant_id).len() == 16,
        big_endian_value(uuid_bytes(tenant_id)) == tenant_id as nat,
        uuid_bytes(tenant_id)[0] as nat == tenant_id as nat / 0x1_0000_0000_0000_0000_0000_0000_0000_00,
        tenant_key(master, tenant_id) == hmac_sha256(master, uuid_bytes(tenant_id)),
{
    lemma_uuid_bytes_prefix(tenant_id, 16);
    assert(uuid_bytes(tenant_id).take(16) =~= uuid_bytes(tenant_id));
    assert(tenant_id >> 0u32 == tenant_id) by (bit_vector);
    let top = tenant_id >> 120u32;
    assert((top & 0xffu128) == top && top as nat == tenant_id as nat / 0x1_0000_0000_0000_0000_0000_0000_0000_00)
        by (bit_vector)
        requires
            top == tenant_id >> 120u32,
    ;
}

/// The key of a tenant: HMAC-SHA256 of the tenant id's bytes under the master key.
pub open spec fn tenant_key(master: Seq<u8>, tenant_id: u128) -> Seq<u8> {
    hmac_sha256(master, uuid_bytes(tenant_id))
}

/// What the master key text decodes to: trimmed, then standard base64.
pub open spec fn decoded_master_key(b64: Seq<char>) -> Option<Seq<u8>> {
    base64_standard_decode(encode_utf8(trimmed(b64)))
}

/// Per-tenant encryption of secrets under one 32-byte master key.
pub struct TenantCrypto {
    master_key: Vec<u8>,
}

impl TenantCrypto {
    #[verifier::type_invariant]
    spec fn key_is_32_bytes(self) -> bool {
        self.master_key@.len() == 32
    }

    pub closed spec fn master(self) -> Seq<u8> {
        self.master_key@
    }

    /// `master_key_b64` must be the standard base64 encoding of exactly 32 bytes
    /// (surrounding whitespace is ignored).
    pub fn new(master_key_b64: &str) -> (r: Result<Self, String>)
        ensures
            decoded_master_key(master_key_b64@) is None ==> (r matches Err(m)
                && m@ == "CRYPTO_MASTER_KEY must be standard base64-encoded"@),
            decoded_master_key(master_key_b64@) matches Some(k) ==> (k.len() != 32 ==> (r matches Err(m)
                && m@ == "CRYPTO_MASTER_KEY must decode to 32 bytes, got "@ + decimal(k.len()))),
            decoded_master_key(master_key_b64@) matches Some(k) ==> (k.len() == 32 ==> (r matches Ok(c)
                && c.master() == k)),
    {
        let trimmed_text = trim_text(master_key_b64);
        let key = match decode_base64_standard(trimmed_text.as_bytes()) {
            Some(k) => k,
            None => return Err("CRYPTO_MASTER_KEY must be standard base64-encoded".to_string()),
        };
        if key.len() != 32 {
            let n = decimal_text(key.len() as u64);
            return Err(concat2("CRYPTO_MASTER_KEY must decode to 32 bytes, got ", n.as_str()));
        }
        Ok(TenantCrypto { master_key: key })
    }

    /// Derives a 32-byte per-tenant key via HMAC-SHA256(master_key, tenant_id).
    fn derive_key(&self, tenant_id: u128) -> (r: Vec<u8>)
        ensures
            r@ == tenant_key(self.master(), tenant_id),
            r@.len() == 32,
    {
        let msg = uuid_bytes_exec(tenant_id);
        hmac_sha256_tag(self.master_key.as_slice(), msg.as_slice())
    }

    /// Encrypts `plaintext` for the given tenant into a `v1$<nonce>$<ciphertext>` envelope
    /// that [`TenantCrypto::decrypt`] opens back to `plaintext`.
    pub fn encrypt(&self, tenant_id: u128, plaintext: &str) -> (r: Result<String, AppError>)
        ensures
            r is Ok <==> plaintext.spec_bytes().len() <= AES_GCM_MAX_PLAINTEXT,
            r matches Err(e) ==> (e matches AppError::Internal(m) && m@ == "encryption failed"@),
            r matches Ok(s) ==> exists|nonce: Seq<u8>| nonce.len() == 12
                && s@ == #[trigger] sealed_envelope(tenant_key(self.master(), tenant_id), nonce, plaintext@),
            r matches Ok(s) ==> decryption_result(self.master(), tenant_id, encode_utf8(s@)) == Ok::<Seq<char>, EnvelopeError>(plaintext@),
            r matches Ok(s) ==> envelope_nonce_fits(encode_utf8(s@)),
            r matches Ok(s) ==> (envelope_payload(encode_utf8(s@)) matches Some((n, c))
                && n.len() == 12 && c.len() == plaintext.spec_bytes().len() + 16),
    {
        let key = self.derive_key(tenant_id);
        match seal_envelope_with(key.as_slice(), plaintext) {
            Some(s) => Ok(s),
            None => Err(AppError::Internal("encryption failed".to_string())),
        }
    }

    /// Decrypts an envelope produced by [`TenantCrypto::encrypt`].
    pub fn decrypt(&self, tenant_id: u128, encrypted: &str) -> (r: Result<String, AppError>)
        requires
            envelope_nonce_fits(encrypted.spec_bytes()),
        ensures
            decryption_result(self.master(), tenant_id, encrypted.spec_bytes()) matches Ok(p) ==> (r matches Ok(s) && s@ == p),
            decryption_result(self.master(), tenant_id, encrypted.spec_bytes()) matches Err(e) ==> (r matches Err(AppError::Internal(m))
                && m@ == tenant_envelope_message(e)),
    {
        proof { use_type_invariant(self); }
        let key = self.derive_key(tenant_id);
        match open_envelope_with(key.as_slice(), encrypted) {
            Ok(s) => Ok(s),
            Err(e) => Err(AppError::Internal(tenant_envelope_message_exec(e))),
        }
    }

    /// Like [`TenantCrypto::decrypt`], for any stored text: `None` when the envelope's
    /// nonce does not have the 12 bytes AES-GCM needs.
    pub fn try_decrypt(&self, tenant_id: u128, encrypted: &str) -> (r: Option<Result<String, AppError>>)
        ensures
            r is None <==> !envelope_nonce_fits(encrypted.spec_bytes()),
            r matches Some(x) ==> (decryption_result(self.master(), tenant_id, encrypted.spec_bytes()) matches Ok(p)
                ==> (x matches Ok(s) && s@ == p)),
            r matches Some(x) ==> (decryption_result(self.master(), tenant_id, encrypted.spec_bytes()) matches Err(e)
                ==> (x matches Err(AppError::Internal(m)) && m@ == tenant_envelope_message(e))),
    {
        if envelope_nonce_fits_exec(encrypted) {
            Some(self.decrypt(tenant_id, encrypted))
        } else {
            None
        }
    }

    /// A new `whsec_<base64url(32 random bytes)>` webhook signing secret.
    pub fn generate_webhook_secret() -> (r: String)
        ensures
            exists|bytes: Seq<u8>| bytes.len() == 32 && r@ == "whsec_"@ + #[trigger] base64_url_encode(bytes)
                && base64_url_decode(encode_utf8(base64_url_encode(bytes))) == Some(bytes),
            r@.len() == 49,
            r@.subrange(0, 6) == "whsec_"@,
            is_url_safe_base64_text(r@.subrange(6, 49)),
    {
        let bytes = random_32_bytes();
        let e = encode_base64_url(bytes.as_slice());
        let r = concat2("whsec_", e.as_str());
        proof {
            reveal_strlit("whsec_");
            assert(r@.subrange(0, 6) =~= "whsec_"@);
            assert(r@.subrange(6, 49) =~= e@);
        }
        r
    }
}

impl Clone for TenantCrypto {
    fn clone(&self) -> (r: Self)
        ensures
            r.master() == self.master(),
    {
        proof { use_type_invariant(self); }
        TenantCrypto { master_key: self.master_key.clone() }
    }
}

/// What decrypting an envelope for a tenant gives.
pub open spec fn decryption_result(master: Seq<u8>, tenant_id: u128, envelope: Seq<u8>) -> Result<Seq<char>, EnvelopeError> {
    open_envelope(tenant_key(master, tenant_id), envelope)
}

/// The message of the internal error a tenant secret that cannot be opened becomes.
pub open spec fn tenant_envelope_message(e: EnvelopeError) -> Seq<char> {
    match e {
        EnvelopeError::Format => "invalid encrypted secret format"@,
        EnvelopeError::NonceEncoding => "invalid nonce encoding"@,
        EnvelopeError::CiphertextEncoding => "invalid ciphertext encoding"@,
        EnvelopeError::Decryption => "decryption failed"@,
        EnvelopeError::Utf8 => "invalid UTF-8 in decrypted secret"@,
    }
}

fn tenant_envelope_message_exec(e: EnvelopeError) -> (r: String)
    ensures
        r@ == tenant_envelope_message(e),
{
    match e {
        EnvelopeError::Format => "invalid encrypted secret format".to_string(),
        EnvelopeError::NonceEncoding => "invalid nonce encoding".to_string(),
        EnvelopeError::CiphertextEncoding => "invalid ciphertext encoding".to_string(),
        EnvelopeError::Decryption => "decryption failed".to_string(),
        EnvelopeError::Utf8 => "invalid UTF-8 in decrypted secret".to_string(),
    }
}

} // verus!
