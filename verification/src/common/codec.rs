//! Byte-level building blocks that come from outside crates: base64, SHA-256,
//! HMAC-SHA256, AES-256-GCM, random sources, UTF-8 decoding and a few text
//! transformations of std. Each trusted wrapper here makes exactly one call;
//! everything built on top of them is verified.
use aes_gcm::aead::rand_core::RngCore;
use aes_gcm::aead::{Aead, AeadCore, KeyInit, OsRng};
use aes_gcm::{Aes256Gcm, Key, Nonce};
use base64::engine::general_purpose::{STANDARD, URL_SAFE_NO_PAD};
use base64::Engine;
use hmac::{Hmac, Mac};
use sha2::{Digest, Sha256};
use crate::common::text::chars_of;
use vstd::prelude::*;
use vstd::utf8::*;

verus! {

/// What `base64`'s `STANDARD` engine decodes `input` to (`None` when it rejects the input).
pub uninterp spec fn base64_standard_decode(input: Seq<u8>) -> Option<Seq<u8>>;

/// What `base64`'s `URL_SAFE_NO_PAD` engine encodes `input` to.
pub uninterp spec fn base64_url_encode(input: Seq<u8>) -> Seq<char>;

/// What `base64`'s `URL_SAFE_NO_PAD` engine decodes `input` to (`None` when it rejects the input).
pub uninterp spec fn base64_url_decode(input: Seq<u8>) -> Option<Seq<u8>>;

/// The SHA-256 digest of `data`, as `sha2` computes it.
pub uninterp spec fn sha256(data: Seq<u8>) -> Seq<u8>;

/// HMAC-SHA256 of `msg` under `key`, as `hmac` with `sha2` computes it.
pub uninterp spec fn hmac_sha256(key: Seq<u8>, msg: Seq<u8>) -> Seq<u8>;

/// The AES-256-GCM ciphertext (with its tag) of `plaintext` under `key` and `nonce`, no associated data.
pub uninterp spec fn aes_gcm_seal(key: Seq<u8>, nonce: Seq<u8>, plaintext: Seq<u8>) -> Seq<u8>;

/// What AES-256-GCM decryption of `ciphertext` under `key` and `nonce` gives (`None` when authentication fails).
pub uninterp spec fn aes_gcm_open(key: Seq<u8>, nonce: Seq<u8>, ciphertext: Seq<u8>) -> Option<Seq<u8>>;

/// Whether `c` has the Unicode White_Space property, which is what `str::trim`
/// and `char::is_whitespace` take as whitespace.
pub open spec fn is_white_space(c: char) -> bool {
    ||| '\u{9}' <= c <= '\u{d}'
    ||| c == ' '
    ||| c == '\u{85}'
    ||| c == '\u{a0}'
    ||| c == '\u{1680}'
    ||| '\u{2000}' <= c <= '\u{200a}'
    ||| c == '\u{2028}'
    ||| c == '\u{2029}'
    ||| c == '\u{202f}'
    ||| c == '\u{205f}'
    ||| c == '\u{3000}'
}

/// What is left of `text` without its leading whitespace.
pub open spec fn trimmed_start(text: Seq<char>) -> Seq<char>
    decreases text.len(),
{
    if text.len() > 0 && is_white_space(text[0]) {
        trimmed_start(text.skip(1))
    } else {
        text
    }
}

/// What is left of `text` without its trailing whitespace.
pub open spec fn trimmed_end(text: Seq<char>) -> Seq<char>
    decreases text.len(),
{
    if text.len() > 0 && is_white_space(text.last()) {
        trimmed_end(text.drop_last())
    } else {
        text
    }
}

/// What is left of `text` without its leading and trailing whitespace.
pub open spec fn trimmed(text: Seq<char>) -> Seq<char> {
    trimmed_end(trimmed_start(text))
}

/// Dropping leading whitespace leaves a text that is empty or starts with
/// something else, and is a suffix of the text.
proof fn lemma_trimmed_start_shape(text: Seq<char>)
    ensures
        trimmed_start(text).len() <= text.len(),
        trimmed_start(text) == text.subrange(text.len() - trimmed_start(text).len(), text.len() as int),
        trimmed_start(text).len() > 0 ==> !is_white_space(trimmed_start(text)[0]),
    decreases text.len(),
{
    if text.len() > 0 && is_white_space(text[0]) {
        lemma_trimmed_start_shape(text.skip(1));
        assert(text.skip(1).subrange(text.len() - 1 - trimmed_start(text).len(), text.len() - 1)
            =~= text.subrange(text.len() - trimmed_start(text).len(), text.len() as int));
    } else {
        assert(text.subrange(0, text.len() as int) =~= text);
    }
}

/// Dropping trailing whitespace leaves a prefix of the text that is empty or
/// ends with something else; it keeps a first character that is not whitespace.
proof fn lemma_trimmed_end_shape(text: Seq<char>)
    ensures
        trimmed_end(text).len() <= text.len(),
        trimmed_end(text) == text.subrange(0, trimmed_end(text).len() as int),
        trimmed_end(text).len() > 0 ==> !is_white_space(trimmed_end(text).last()),
        text.len() > 0 && !is_white_space(text[0]) ==> trimmed_end(text).len() > 0,
    decreases text.len(),
{
    if text.len() > 0 && is_white_space(text.last()) {
        lemma_trimmed_end_shape(text.drop_last());
        assert(text.drop_last().subrange(0, trimmed_end(text).len() as int)
            =~= text.subrange(0, trimmed_end(text).len() as int));
        if text.len() > 1 {
            assert(text.drop_last()[0] == text[0]);
        }
    } else {
        assert(text.subrange(0, text.len() as int) =~= text);
    }
}

/// Whether `c` is whitespace, as `char::is_whitespace` tells.
pub fn is_white_space_char(c: char) -> (r: bool)
    ensures
        r == is_white_space(c),
{
    ('\u{9}' <= c && c <= '\u{d}') || c == ' ' || c == '\u{85}' || c == '\u{a0}' || c == '\u{1680}'
        || ('\u{2000}' <= c && c <= '\u{200a}') || c == '\u{2028}' || c == '\u{2029}' || c == '\u{202f}'
        || c == '\u{205f}' || c == '\u{3000}'
}

/// Leading whitespace ends where the first other character stands.
proof fn lemma_trimmed_start_at(text: Seq<char>, k: int)
    requires
        0 <= k <= text.len(),
        forall|j: int| 0 <= j < k ==> is_white_space(#[trigger] text[j]),
        k == text.len() || !is_white_space(text[k]),
    ensures
        trimmed_start(text) == text.subrange(k, text.len() as int),
    decreases text.len(),
{
    if k == 0 {
        assert(text.subrange(0, text.len() as int) =~= text);
    } else {
        let rest = text.skip(1);
        assert(is_white_space(text[0]));
        assert forall|j: int| 0 <= j < k - 1 implies is_white_space(#[trigger] rest[j]) by {
            assert(rest[j] == text[j + 1]);
        }
        if k < text.len() {
            assert(rest[k - 1] == text[k]);
        }
        lemma_trimmed_start_at(rest, k - 1);
        assert(rest.subrange(k - 1, rest.len() as int) =~= text.subrange(k, text.len() as int));
    }
}

/// Trailing whitespace starts after the last other character.
proof fn lemma_trimmed_end_at(text: Seq<char>, e: int)
    requires
        0 <= e <= text.len(),
        forall|j: int| e <= j < text.len() ==> is_white_space(#[trigger] text[j]),
        e == 0 || !is_white_space(text[e - 1]),
    ensures
        trimmed_end(text) == text.subrange(0, e),
    decreases text.len(),
{
    if e == text.len() {
        assert(text.subrange(0, e) =~= text);
    } else {
        let rest = text.drop_last();
        assert(is_white_space(text.last()));
        assert forall|j: int| e <= j < rest.len() implies is_white_space(#[trigger] rest[j]) by {
            assert(rest[j] == text[j]);
        }
        if e > 0 {
            assert(rest[e - 1] == text[e - 1]);
        }
        lemma_trimmed_end_at(rest, e);
        assert(rest.subrange(0, e) =~= text.subrange(0, e));
    }
}

/// Where the leading whitespace of `chars` ends.
fn leading_space_end(chars: &Vec<char>) -> (k: usize)
    ensures
        k <= chars@.len(),
        forall|j: int| 0 <= j < k ==> is_white_space(#[trigger] chars@[j]),
        k == chars@.len() || !is_white_space(chars@[k as int]),
{
    let mut k: usize = 0;
    while k < chars.len() && is_white_space_char(chars[k])
        invariant
            k <= chars@.len(),
            forall|j: int| 0 <= j < k ==> is_white_space(#[trigger] chars@[j]),
        decreases chars@.len() - k,
    {
        k = k + 1;
    }
    k
}

/// `str::trim`: the text without its leading and trailing whitespace (the
/// characters with the Unicode White_Space property).
pub(crate) fn trim_text(text: &str) -> (r: &str)
    ensures
        r@ == trimmed(text@),
{
    let chars = chars_of(text);
    let start = leading_space_end(&chars);
    let mut end: usize = chars.len();
    while end > start && is_white_space_char(chars[end - 1])
        invariant
            start <= end <= chars@.len(),
            forall|j: int| end <= j < chars@.len() ==> is_white_space(#[trigger] chars@[j]),
        decreases end,
    {
        end = end - 1;
    }
    proof {
        lemma_trimmed_start_at(text@, start as int);
        let s = text@.subrange(start as int, text@.len() as int);
        assert forall|j: int| end - start <= j < s.len() implies is_white_space(#[trigger] s[j]) by {
            assert(s[j] == chars@[j + start]);
        }
        if end > start {
            assert(s[end - start - 1] == chars@[end - 1]);
        } else if start < chars@.len() {
            assert(!is_white_space(chars@[start as int]));
        }
        lemma_trimmed_end_at(s, end - start);
        assert(s.subrange(0, end - start) =~= text@.subrange(start as int, end as int));
    }
    text.substring_char(start, end)
}

/// `str::trim_start`: the text without its leading whitespace (the characters
/// with the Unicode White_Space property).
pub(crate) fn trim_start_text(text: &str) -> (r: &str)
    ensures
        r@ == trimmed_start(text@),
{
    let chars = chars_of(text);
    let start = leading_space_end(&chars);
    proof {
        lemma_trimmed_start_at(text@, start as int);
    }
    text.substring_char(start, chars.len())
}

/// Trimming a trimmed text changes nothing.
pub proof fn law_trim_is_idempotent(text: Seq<char>)
    ensures
        trimmed(trimmed(text)) == trimmed(text),
{
    let t = trimmed(text);
    let s = trimmed_start(text);
    lemma_trimmed_start_shape(text);
    lemma_trimmed_end_shape(s);
    if t.len() > 0 {
        assert(t[0] == s[0]);
        assert(trimmed_start(t) == t);
        assert(trimmed_end(t) == t);
    } else {
        assert(trimmed_start(t) == t);
        assert(trimmed_end(t) == t);
    }
}

/// The text `str::to_lowercase` makes of `text`.
pub uninterp spec fn lowercased(text: Seq<char>) -> Seq<char>;

/// The text `str::to_uppercase` makes of `text`.
pub uninterp spec fn uppercased(text: Seq<char>) -> Seq<char>;


/// What checking the JSON document `payload` against the JSON Schema `schema`
/// (both as JSON text) finds with `jsonschema`: none when either text is not
/// JSON or the schema does not compile, otherwise each violation's message and
/// instance location (a JSON pointer), in the order reported.
pub uninterp spec fn json_schema_outcome(schema: Seq<char>, payload: Seq<char>) -> Option<Seq<(Seq<char>, Seq<char>)>>;

/// The text of each pair of a list of violations.
pub open spec fn violations_view(v: Option<Vec<(String, String)>>) -> Option<Seq<(Seq<char>, Seq<char>)>> {
    match v {
        Some(list) => Some(Seq::new(list@.len(), |i: int| (list@[i].0@, list@[i].1@))),
        None => None,
    }
}

/// Largest plaintext, in bytes, that AES-256-GCM (`aes-gcm`'s `P_MAX`) accepts.
pub const AES_GCM_MAX_PLAINTEXT: u64 = 0x10_0000_0000;

/// Characters of the URL-safe base64 alphabet: `A-Z`, `a-z`, `0-9`, `-` and `_`.
pub open spec fn is_url_safe_base64_char(c: char) -> bool {
    ('A' <= c && c <= 'Z') || ('a' <= c && c <= 'z') || ('0' <= c && c <= '9') || c == '-' || c == '_'
}

pub open spec fn is_url_safe_base64_text(s: Seq<char>) -> bool {
    forall|i: int| 0 <= i < s.len() ==> is_url_safe_base64_char(#[trigger] s[i])
}

/// `base64`'s `STANDARD.decode`: `None` when the input is not standard base64.
#[verifier::external_body]
pub(crate) fn decode_base64_standard(input: &[u8]) -> (r: Option<Vec<u8>>)
    ensures
        r matches Some(v) ==> base64_standard_decode(input@) == Some(v@),
        r is None ==> base64_standard_decode(input@) is None,
{
    STANDARD.decode(input).ok()
}

/// `base64`'s `URL_SAFE_NO_PAD.encode`. The output uses only the URL-safe
/// alphabet, has no padding (so four characters for each three bytes, and two or
/// three for a last partial group), and decoding it with the same engine gives `input` back.
#[verifier::external_body]
pub(crate) fn encode_base64_url(input: &[u8]) -> (r: String)
    ensures
        r@ == base64_url_encode(input@),
        r@.len() == (4 * input@.len() + 2) / 3,
        is_url_safe_base64_text(r@),
        base64_url_decode(encode_utf8(r@)) == Some(input@),
{
    URL_SAFE_NO_PAD.encode(input)
}

/// `base64`'s `URL_SAFE_NO_PAD.decode`: `None` when the input is not unpadded URL-safe base64.
#[verifier::external_body]
pub(crate) fn decode_base64_url(input: &[u8]) -> (r: Option<Vec<u8>>)
    ensures
        r matches Some(v) ==> base64_url_decode(input@) == Some(v@),
        r is None ==> base64_url_decode(input@) is None,
{
    URL_SAFE_NO_PAD.decode(input).ok()
}

/// `sha2::Sha256::digest`: a 32-byte digest.
#[verifier::external_body]
pub(crate) fn sha256_digest(data: &[u8]) -> (r: Vec<u8>)
    ensures
        r@ == sha256(data@),
        r@.len() == 32,
{
    Sha256::digest(data).to_vec()
}

/// HMAC-SHA256 (`hmac::Hmac<Sha256>`, which accepts keys of any length): a 32-byte tag.
#[verifier::external_body]
pub(crate) fn hmac_sha256_tag(key: &[u8], msg: &[u8]) -> (r: Vec<u8>)
    ensures
        r@ == hmac_sha256(key@, msg@),
        r@.len() == 32,
{
    let mut mac = <Hmac<Sha256> as Mac>::new_from_slice(key).expect("HMAC accepts any key size");
    mac.update(msg);
    mac.finalize().into_bytes().to_vec()
}

/// `aes_gcm::Aes256Gcm::encrypt` without associated data. It refuses only a plaintext
/// longer than `P_MAX`; what it returns is the ciphertext followed by its 16-byte
/// tag, and decrypts back to the plaintext under the same key and nonce.
#[verifier::external_body]
pub(crate) fn aes_gcm_encrypt(key: &[u8], nonce: &[u8], plaintext: &[u8]) -> (r: Option<Vec<u8>>)
    requires
        key@.len() == 32,
        nonce@.len() == 12,
    ensures
        r is Some <==> plaintext@.len() <= AES_GCM_MAX_PLAINTEXT,
        r matches Some(c) ==> c@ == aes_gcm_seal(key@, nonce@, plaintext@)
            && aes_gcm_open(key@, nonce@, c@) == Some(plaintext@)
            && c@.len() == plaintext@.len() + 16,
{
    let cipher = Aes256Gcm::new(Key::<Aes256Gcm>::from_slice(key));
    cipher.encrypt(Nonce::from_slice(nonce), plaintext).ok()
}

/// `aes_gcm::Aes256Gcm::decrypt` without associated data: `None` when authentication fails.
#[verifier::external_body]
pub(crate) fn aes_gcm_decrypt(key: &[u8], nonce: &[u8], ciphertext: &[u8]) -> (r: Option<Vec<u8>>)
    requires
        key@.len() == 32,
        nonce@.len() == 12,
    ensures
        r matches Some(p) ==> aes_gcm_open(key@, nonce@, ciphertext@) == Some(p@),
        r is None ==> aes_gcm_open(key@, nonce@, ciphertext@) is None,
{
    let cipher = Aes256Gcm::new(Key::<Aes256Gcm>::from_slice(key));
    cipher.decrypt(Nonce::from_slice(nonce), ciphertext).ok()
}

/// `Aes256Gcm::generate_nonce(&mut OsRng)`: 12 random bytes.
#[verifier::external_body]
pub(crate) fn random_gcm_nonce() -> (r: Vec<u8>)
    ensures
        r@.len() == 12,
{
    Aes256Gcm::generate_nonce(&mut OsRng).to_vec()
}

/// `OsRng.fill_bytes` on a 32-byte buffer.
#[verifier::external_body]
pub(crate) fn random_32_bytes() -> (r: Vec<u8>)
    ensures
        r@.len() == 32,
{
    let mut bytes = [0u8; 32];
    OsRng.fill_bytes(&mut bytes);
    bytes.to_vec()
}

/// `String::from_utf8`: `Some` exactly when the bytes are valid UTF-8, holding the text they encode.
#[verifier::external_body]
pub(crate) fn string_from_utf8(bytes: Vec<u8>) -> (r: Option<String>)
    ensures
        r is Some <==> valid_utf8(bytes@),
        r matches Some(s) ==> s@ == decode_utf8(bytes@),
{
    String::from_utf8(bytes).ok()
}

/// Digits and ASCII letters: the alphabet of generated identifiers.
pub open spec fn is_ascii_alphanumeric(c: char) -> bool {
    ('0' <= c && c <= '9') || ('A' <= c && c <= 'Z') || ('a' <= c && c <= 'z')
}

/// `nanoid::format` with the crate's default random source: `size` characters, each
/// drawn from `alphabet`. It needs a non-empty ASCII alphabet of at most 255
/// characters and a positive size (with size 0 it never returns).
#[verifier::external_body]
pub(crate) fn nanoid_format(alphabet: &[char], size: usize) -> (r: String)
    requires
        1 <= alphabet@.len() <= 255,
        forall|i: int| 0 <= i < alphabet@.len() ==> (alphabet@[i] as u32) < 128,
        1 <= size <= usize::MAX / 8,
    ensures
        r@.len() == size,
        forall|i: int| 0 <= i < r@.len() ==> alphabet@.contains(#[trigger] r@[i]),
{
    nanoid::format(nanoid::rngs::default, alphabet, size)
}

/// Whether every character of `s` is a decimal digit.
pub open spec fn all_decimal_digits(s: Seq<char>) -> bool {
    forall|i: int| 0 <= i < s.len() ==> '0' <= #[trigger] s[i] <= '9'
}

/// The number that the decimal digits `digits` write, most significant first.
pub open spec fn decimal_value(digits: Seq<char>) -> int
    decreases digits.len(),
{
    if digits.len() == 0 {
        0
    } else {
        decimal_value(digits.drop_last()) * 10 + (digits.last() as int - '0' as int)
    }
}

/// What `u64::from_str` makes of `text`: an optional `+` followed by one or
/// more decimal digits whose value fits in 64 bits; anything else (a sign
/// alone, whitespace, underscores, other characters, overflow) is refused.
pub open spec fn u64_from_text(text: Seq<char>) -> Option<u64> {
    let digits = if text.len() > 0 && text[0] == '+' { text.skip(1) } else { text };
    if digits.len() > 0 && all_decimal_digits(digits) && decimal_value(digits) <= u64::MAX {
        Some(decimal_value(digits) as u64)
    } else {
        None
    }
}

/// A prefix of a text of digits writes a number no larger than the whole, and
/// no such number is negative.
proof fn lemma_decimal_prefix(digits: Seq<char>, j: int)
    requires
        all_decimal_digits(digits),
        0 <= j <= digits.len(),
    ensures
        0 <= decimal_value(digits.subrange(0, j)) <= decimal_value(digits),
    decreases digits.len(),
{
    if digits.len() > 0 {
        let rest = digits.drop_last();
        assert(all_decimal_digits(rest)) by {
            assert forall|i: int| 0 <= i < rest.len() implies '0' <= #[trigger] rest[i] <= '9' by {
                assert(rest[i] == digits[i]);
            }
        }
        lemma_decimal_prefix(rest, rest.len() as int);
        assert(rest.subrange(0, rest.len() as int) =~= rest);
        assert('0' <= digits.last() <= '9');
        if j < digits.len() {
            lemma_decimal_prefix(rest, j);
            assert(rest.subrange(0, j) =~= digits.subrange(0, j));
        } else {
            assert(digits.subrange(0, j) =~= digits);
        }
    } else {
        assert(digits.subrange(0, j) =~= digits);
    }
}

/// `text.parse::<u64>()`: an optional `+`, then decimal digits read from the
/// most significant on, refusing anything else and any value above `u64::MAX`.
pub(crate) fn parse_u64(text: &str) -> (r: Option<u64>)
    ensures
        r == u64_from_text(text@),
{
    let chars = chars_of(text);
    let n = chars.len();
    let start: usize = if n > 0 && chars[0] == '+' { 1 } else { 0 };
    let ghost digits = if text@.len() > 0 && text@[0] == '+' { text@.skip(1) } else { text@ };
    proof {
        assert(digits =~= chars@.subrange(start as int, n as int));
    }
    if start >= n {
        return None;
    }
    let mut value: u64 = 0;
    let mut i: usize = start;
    while i < n
        invariant
            chars@ == text@,
            n == chars@.len(),
            start < n,
            start <= i <= n,
            digits == chars@.subrange(start as int, n as int),
            digits == (if text@.len() > 0 && text@[0] == '+' { text@.skip(1) } else { text@ }),
            all_decimal_digits(chars@.subrange(start as int, i as int)),
            value == decimal_value(chars@.subrange(start as int, i as int)),
        decreases n - i,
    {
        let c = chars[i];
        if !('0' <= c && c <= '9') {
            proof {
                assert(digits[i - start] == c);
                assert(!all_decimal_digits(digits));
            }
            return None;
        }
        let d: u64 = (c as u32 - '0' as u32) as u64;
        let ghost prefix = chars@.subrange(start as int, i + 1);
        proof {
            assert(prefix.drop_last() =~= chars@.subrange(start as int, i as int));
            assert(prefix.last() == c);
            assert forall|k: int| 0 <= k < prefix.len() implies '0' <= #[trigger] prefix[k] <= '9' by {
                if k < prefix.len() - 1 {
                    assert(prefix[k] == chars@.subrange(start as int, i as int)[k]);
                }
            }
            assert(decimal_value(prefix) == value * 10 + d);
        }
        if value > (u64::MAX - d) / 10 {
            proof {
                assert(value * 10 + d > u64::MAX) by (nonlinear_arith)
                    requires
                        value > (u64::MAX - d) / 10,
                        d <= 9,
                ;
                if all_decimal_digits(digits) {
                    lemma_decimal_prefix(digits, i + 1 - start);
                    assert(digits.subrange(0, i + 1 - start) =~= prefix);
                    assert(decimal_value(digits) > u64::MAX);
                }
            }
            return None;
        }
        proof {
            assert(value * 10 + d <= u64::MAX) by (nonlinear_arith)
                requires
                    value <= (u64::MAX - d) / 10,
                    d <= 9,
            ;
        }
        value = value * 10 + d;
        i = i + 1;
    }
    proof {
        assert(chars@.subrange(start as int, n as int) == digits);
    }
    Some(value)
}

/// The UUID that `uuid::Uuid::parse_str` reads from `text`, as a 128-bit number
/// (`None` when the text is not a UUID in one of the accepted forms).
pub uninterp spec fn uuid_from_text(text: Seq<char>) -> Option<u128>;

/// `uuid::Uuid::parse_str`, giving the UUID's 128-bit value.
#[verifier::external_body]
pub(crate) fn parse_uuid(text: &str) -> (r: Option<u128>)
    ensures
        r == uuid_from_text(text@),
{
    uuid::Uuid::parse_str(text).ok().map(|u| u.as_u128())
}


/// `str::to_lowercase`.
#[verifier::external_body]
pub(crate) fn lowercase_text(text: &str) -> (r: String)
    ensures
        r@ == lowercased(text@),
{
    text.to_lowercase()
}


/// Parses `schema` and `payload` as JSON with `serde_json`, compiles the schema
/// with `jsonschema::validator_for` and lists what `Validator::iter_errors`
/// reports for the payload: each error's message and its instance location.
/// The claim is only that the result is a function of the two texts.
#[verifier::external_body]
pub(crate) fn json_schema_violations(schema: &str, payload: &str) -> (r: Option<Vec<(String, String)>>)
    ensures
        violations_view(r) == json_schema_outcome(schema@, payload@),
{
    let schema: serde_json::Value = serde_json::from_str(schema).ok()?;
    let instance: serde_json::Value = serde_json::from_str(payload).ok()?;
    let validator = jsonschema::validator_for(&schema).ok()?;
    Some(validator.iter_errors(&instance).map(|e| (e.to_string(), e.instance_path().to_string())).collect())
}

/// `str::to_uppercase`.
#[verifier::external_body]
pub(crate) fn uppercase_text(text: &str) -> (r: String)
    ensures
        r@ == uppercased(text@),
{
    text.to_uppercase()
}

} // verus!
