//! Bearer-token authentication decisions: reading the token, telling JWTs from
//! API keys, and judging a key or a JWT against the state of its organization and tenant.
use crate::common::codec::{parse_uuid, uuid_from_text};
use crate::common::text::{chars_of, concat2, starts_with, starts_with_chars, string_from_chars, sub_chars};
use crate::common::types::RequestContext;
use crate::error::{text_eq, AppError};
use jsonwebtoken::DecodingKey;
use vstd::prelude::*;

verus! {

/// Seconds an API key lookup stays cached.
pub const AUTH_CACHE_TTL_SECS: u64 = 60;

/// Seconds a JWT public key stays cached.
pub const JWT_KEY_CACHE_TTL_SECS: u64 = 300;

/// Who a request acts for once authenticated.
#[derive(Debug)]
pub struct ApiKeyPrincipal {
    pub api_key_public_id: String,
    pub organization_id: u128,
    pub tenant_id: u128,
    pub user_id: u128,
}

/// The bearer token an `Authorization` header carries, or the reason it is refused.
pub open spec fn bearer_token(authorization: Option<Seq<char>>) -> Result<Seq<char>, Seq<char>> {
    match authorization {
        None => Err("missing Authorization header"@),
        Some(a) => if !starts_with(a, "Bearer "@) {
            Err("Authorization header must be a Bearer token"@)
        } else if a.len() == "Bearer "@.len() {
            Err("Bearer token must not be empty"@)
        } else {
            Ok(a.subrange("Bearer "@.len() as int, a.len() as int))
        },
    }
}

/// Reads the bearer token from the `Authorization` header (`None` when the header
/// is missing or not text): it must start with `Bearer ` and not be empty after it.
pub fn extract_token(authorization: Option<&str>) -> (r: Result<String, AppError>)
    ensures
        match bearer_token(match authorization {
            Some(a) => Some(a@),
            None => None,
        }) {
            Ok(t) => r matches Ok(s) && s@ == t,
            Err(m) => r matches Err(AppError::Unauthorized(x)) && x@ == m,
        },
        authorization is None ==> (r matches Err(AppError::Unauthorized(m)) && m@ == "missing Authorization header"@),
        authorization matches Some(a) ==> (!starts_with(a@, "Bearer "@) ==> (r matches Err(AppError::Unauthorized(m))
            && m@ == "Authorization header must be a Bearer token"@)),
        authorization matches Some(a) ==> (starts_with(a@, "Bearer "@) && a@.len() == "Bearer "@.len() ==> (
            r matches Err(AppError::Unauthorized(m)) && m@ == "Bearer token must not be empty"@)),
        authorization matches Some(a) ==> (starts_with(a@, "Bearer "@) && a@.len() > "Bearer "@.len() ==> (
            r matches Ok(t) && t@ == a@.subrange("Bearer "@.len() as int, a@.len() as int))),
{
    let a = match authorization {
        Some(a) => a,
        None => return Err(AppError::Unauthorized("missing Authorization header".to_string())),
    };
    let ac = chars_of(a);
    let prefix = chars_of("Bearer ");
    if !starts_with_chars(&ac, &prefix) {
        return Err(AppError::Unauthorized("Authorization header must be a Bearer token".to_string()));
    }
    if ac.len() == prefix.len() {
        return Err(AppError::Unauthorized("Bearer token must not be empty".to_string()));
    }
    let token = sub_chars(&ac, prefix.len(), ac.len());
    Ok(string_from_chars(token.as_slice()))
}

/// Number of times `c` occurs in `s`.
pub open spec fn count_char(s: Seq<char>, c: char) -> nat
    decreases s.len(),
{
    if s.len() == 0 {
        0
    } else {
        count_char(s.drop_last(), c) + if s.last() == c { 1nat } else { 0nat }
    }
}

/// The occurrences of `c` in a concatenation are those of its two parts.
pub(crate) proof fn lemma_count_char_concat(a: Seq<char>, b: Seq<char>, c: char)
    ensures
        count_char(a + b, c) == count_char(a, c) + count_char(b, c),
    decreases b.len(),
{
    if b.len() == 0 {
        assert(a + b =~= a);
    } else {
        lemma_count_char_concat(a, b.drop_last(), c);
        assert((a + b).drop_last() =~= a + b.drop_last());
    }
}

/// A text none of whose characters is `c` holds no `c`.
pub(crate) proof fn lemma_count_char_absent(s: Seq<char>, c: char)
    requires
        forall|i: int| 0 <= i < s.len() ==> s[i] != c,
    ensures
        count_char(s, c) == 0,
    decreases s.len(),
{
    if s.len() > 0 {
        assert forall|i: int| 0 <= i < s.drop_last().len() implies s.drop_last()[i] != c by {
            assert(s.drop_last()[i] == s[i]);
        }
        lemma_count_char_absent(s.drop_last(), c);
    }
}

/// JWTs have exactly three dot-separated segments; API keys never contain dots.
pub fn is_jwt(token: &str) -> (r: bool)
    ensures
        r == (count_char(token@, '.') == 2),
{
    let chars = chars_of(token);
    let mut dots: usize = 0;
    let mut i: usize = 0;
    while i < chars.len()
        invariant
            i <= chars@.len(),
            chars@ == token@,
            dots == count_char(chars@.subrange(0, i as int), '.'),
            dots <= i,
        decreases chars@.len() - i,
    {
        if chars[i] == '.' {
            dots = dots + 1;
        }
        proof {
            assert(chars@.subrange(0, i + 1).drop_last() =~= chars@.subrange(0, i as int));
        }
        i = i + 1;
    }
    assert(chars@.subrange(0, chars@.len() as int) =~= chars@);
    dots == 2
}

/// Everything needed to judge an API key without a database round-trip.
pub struct AuthCacheEntry {
    pub api_key_public_id: String,
    pub organization_id: u128,
    pub tenant_id: u128,
    pub user_id: u128,
    pub expires_at: Option<i64>,
    pub api_key_deleted: bool,
    pub api_key_status: String,
    pub org_status: String,
    pub org_deleted: bool,
    pub tenant_status: String,
    pub tenant_deleted: bool,
}

/// The state of the organization and tenant behind a credential, judged in order:
/// a deleted organization, a suspended one, a deleted tenant, a suspended one.
pub open spec fn owner_outcome(org_deleted: bool, org_status: Seq<char>, tenant_deleted: bool, tenant_status: Seq<char>) -> Option<Seq<char>> {
    if org_deleted {
        Some("Organization has been deactivated"@)
    } else if org_status == "suspended"@ {
        Some("Organization has been suspended"@)
    } else if tenant_deleted {
        Some("Tenant has been deactivated"@)
    } else if tenant_status == "suspended"@ {
        Some("Tenant has been suspended"@)
    } else {
        None
    }
}

/// Refuses a credential whose organization or tenant is deleted or suspended.
pub fn check_owner(org_deleted: bool, org_status: &str, tenant_deleted: bool, tenant_status: &str) -> (r: Result<(), AppError>)
    ensures
        owner_outcome(org_deleted, org_status@, tenant_deleted, tenant_status@) is None ==> r is Ok,
        owner_outcome(org_deleted, org_status@, tenant_deleted, tenant_status@) matches Some(m) ==> (r matches Err(AppError::Forbidden(t)) && t@ == m),
{
    if org_deleted {
        return Err(AppError::Forbidden("Organization has been deactivated".to_string()));
    }
    if text_eq(org_status, "suspended") {
        return Err(AppError::Forbidden("Organization has been suspended".to_string()));
    }
    if tenant_deleted {
        return Err(AppError::Forbidden("Tenant has been deactivated".to_string()));
    }
    if text_eq(tenant_status, "suspended") {
        return Err(AppError::Forbidden("Tenant has been suspended".to_string()));
    }
    Ok(())
}

/// How an API key's cache entry is judged at time `now`: a deleted key is
/// refused, then an expired one, then one whose organization or tenant is
/// inactive; otherwise it authenticates its owner.
pub open spec fn key_judgement(entry: AuthCacheEntry, now: i64, r: Result<ApiKeyPrincipal, AppError>) -> bool {
    if entry.api_key_deleted {
        r matches Err(AppError::Unauthorized(m)) && m@ == "invalid or revoked api key"@
    } else if entry.api_key_status@ == "expired"@ || (entry.expires_at matches Some(t) && t < now) {
        r matches Err(AppError::Unauthorized(m)) && m@ == "api key has expired"@
    } else {
        match owner_outcome(entry.org_deleted, entry.org_status@, entry.tenant_deleted, entry.tenant_status@) {
            Some(m) => r matches Err(AppError::Forbidden(t)) && t@ == m,
            None => r matches Ok(p) && p.api_key_public_id@ == entry.api_key_public_id@
                && p.organization_id == entry.organization_id && p.tenant_id == entry.tenant_id && p.user_id == entry.user_id,
        }
    }
}

/// Judges the cache entry of an API key at time `now` and returns the principal it authenticates.
pub fn validate(entry: &AuthCacheEntry, now: i64) -> (r: Result<ApiKeyPrincipal, AppError>)
    ensures
        key_judgement(*entry, now, r),
        entry.api_key_deleted ==> (r matches Err(AppError::Unauthorized(m)) && m@ == "invalid or revoked api key"@),
        !entry.api_key_deleted && (entry.api_key_status@ == "expired"@ || (entry.expires_at matches Some(t) && t < now)) ==> (
            r matches Err(AppError::Unauthorized(m)) && m@ == "api key has expired"@),
        !entry.api_key_deleted && !(entry.api_key_status@ == "expired"@ || (entry.expires_at matches Some(t) && t < now)) ==> (
            owner_outcome(entry.org_deleted, entry.org_status@, entry.tenant_deleted, entry.tenant_status@) matches Some(m)
                ==> (r matches Err(AppError::Forbidden(t)) && t@ == m)),
        !entry.api_key_deleted && !(entry.api_key_status@ == "expired"@ || (entry.expires_at matches Some(t) && t < now))
            && owner_outcome(entry.org_deleted, entry.org_status@, entry.tenant_deleted, entry.tenant_status@) is None ==> (
            r matches Ok(p) && p.api_key_public_id@ == entry.api_key_public_id@ && p.organization_id == entry.organization_id
                && p.tenant_id == entry.tenant_id && p.user_id == entry.user_id),
{
    if entry.api_key_deleted {
        return Err(AppError::Unauthorized("invalid or revoked api key".to_string()));
    }
    if text_eq(entry.api_key_status.as_str(), "expired") {
        return Err(AppError::Unauthorized("api key has expired".to_string()));
    }
    if let Some(expires_at) = entry.expires_at {
        if expires_at < now {
            return Err(AppError::Unauthorized("api key has expired".to_string()));
        }
    }
    check_owner(entry.org_deleted, entry.org_status.as_str(), entry.tenant_deleted, entry.tenant_status.as_str())?;
    Ok(ApiKeyPrincipal {
        api_key_public_id: entry.api_key_public_id.clone(),
        organization_id: entry.organization_id,
        tenant_id: entry.tenant_id,
        user_id: entry.user_id,
    })
}

/// The request context of an authenticated principal; `request_id` is the
/// request's id (or a fresh one outside a request).
pub fn build_ctx(principal: &ApiKeyPrincipal, request_id: u128) -> (r: RequestContext)
    ensures
        r.request_id == request_id,
        r.created_by == principal.user_id,
        r.organization_id == principal.organization_id,
        r.tenant_id == principal.tenant_id,
{
    RequestContext {
        request_id,
        created_by: principal.user_id,
        organization_id: principal.organization_id,
        tenant_id: principal.tenant_id,
    }
}

/// The cache key of an API key lookup.
pub fn auth_cache_key(key_hash: &str) -> (r: String)
    ensures
        r@ == "auth:"@ + key_hash@,
{
    concat2("auth:", key_hash)
}

/// The cache key of a JWT signing key.
pub fn jwt_key_cache_key(kid: &str) -> (r: String)
    ensures
        r@ == "jwt_pk:"@ + kid@,
{
    concat2("jwt_pk:", kid)
}

// ── JWT path ─────────────────────────────────────────────────────────────────

/// Signature algorithms accepted for service-issued JWTs.
#[derive(Debug, PartialEq, Eq, Structural, Clone, Copy)]
pub enum JwtAlgorithm {
    RS256,
    RS384,
    RS512,
    ES256,
    ES384,
}

pub open spec fn algorithm_named(alg: Seq<char>) -> Option<JwtAlgorithm> {
    if alg == "RS256"@ {
        Some(JwtAlgorithm::RS256)
    } else if alg == "RS384"@ {
        Some(JwtAlgorithm::RS384)
    } else if alg == "RS512"@ {
        Some(JwtAlgorithm::RS512)
    } else if alg == "ES256"@ {
        Some(JwtAlgorithm::ES256)
    } else if alg == "ES384"@ {
        Some(JwtAlgorithm::ES384)
    } else {
        None
    }
}

pub fn parse_jwt_algorithm(alg: &str) -> (r: Result<JwtAlgorithm, AppError>)
    ensures
        algorithm_named(alg@) matches Some(a) ==> r == Ok::<JwtAlgorithm, AppError>(a),
        algorithm_named(alg@) is None ==> (r matches Err(AppError::Unauthorized(m)) && m@ == "unsupported JWT algorithm: "@ + alg@),
{
    if text_eq(alg, "RS256") {
        Ok(JwtAlgorithm::RS256)
    } else if text_eq(alg, "RS384") {
        Ok(JwtAlgorithm::RS384)
    } else if text_eq(alg, "RS512") {
        Ok(JwtAlgorithm::RS512)
    } else if text_eq(alg, "ES256") {
        Ok(JwtAlgorithm::ES256)
    } else if text_eq(alg, "ES384") {
        Ok(JwtAlgorithm::ES384)
    } else {
        Err(AppError::Unauthorized(concat2("unsupported JWT algorithm: ", alg)))
    }
}

#[verifier::external_type_specification]
#[verifier::external_body]
pub struct ExDecodingKey(jsonwebtoken::DecodingKey);

/// Whether `jsonwebtoken::DecodingKey::from_rsa_pem` accepts `pem`.
pub uninterp spec fn rsa_pem_accepted(pem: Seq<u8>) -> bool;

/// Whether `jsonwebtoken::DecodingKey::from_ec_pem` accepts `pem`.
pub uninterp spec fn ec_pem_accepted(pem: Seq<u8>) -> bool;

/// `jsonwebtoken::DecodingKey::from_rsa_pem`.
#[verifier::external_body]
fn rsa_decoding_key(pem: &[u8]) -> (r: Option<DecodingKey>)
    ensures
        r is Some == rsa_pem_accepted(pem@),
{
    DecodingKey::from_rsa_pem(pem).ok()
}

/// `jsonwebtoken::DecodingKey::from_ec_pem`.
#[verifier::external_body]
fn ec_decoding_key(pem: &[u8]) -> (r: Option<DecodingKey>)
    ensures
        r is Some == ec_pem_accepted(pem@),
{
    DecodingKey::from_ec_pem(pem).ok()
}

pub open spec fn is_rsa(alg: JwtAlgorithm) -> bool {
    alg == JwtAlgorithm::RS256 || alg == JwtAlgorithm::RS384 || alg == JwtAlgorithm::RS512
}

/// The verification key for `algorithm` read from a PEM public key: RSA PEM for
/// the RS algorithms, EC PEM for the ES ones.
pub fn make_decoding_key(pem: &str, algorithm: JwtAlgorithm) -> (r: Result<DecodingKey, AppError>)
    ensures
        is_rsa(algorithm) ==> (r is Ok <==> rsa_pem_accepted(vstd::utf8::encode_utf8(pem@))),
        is_rsa(algorithm) && !rsa_pem_accepted(vstd::utf8::encode_utf8(pem@)) ==> (r matches Err(AppError::Internal(m))
            && m@ == "invalid RSA public key in key record"@),
        !is_rsa(algorithm) ==> (r is Ok <==> ec_pem_accepted(vstd::utf8::encode_utf8(pem@))),
        !is_rsa(algorithm) && !ec_pem_accepted(vstd::utf8::encode_utf8(pem@)) ==> (r matches Err(AppError::Internal(m))
            && m@ == "invalid EC public key in key record"@),
{
    match algorithm {
        JwtAlgorithm::RS256 | JwtAlgorithm::RS384 | JwtAlgorithm::RS512 => match rsa_decoding_key(pem.as_bytes()) {
            Some(k) => Ok(k),
            None => Err(AppError::Internal("invalid RSA public key in key record".to_string())),
        },
        JwtAlgorithm::ES256 | JwtAlgorithm::ES384 => match ec_decoding_key(pem.as_bytes()) {
            Some(k) => Ok(k),
            None => Err(AppError::Internal("invalid EC public key in key record".to_string())),
        },
    }
}

/// A JWT signing key as stored, with the state of its tenant and organization.
pub struct JwtKeyRow {
    pub public_key: Option<String>,
    pub algorithm: String,
    pub tenant_id: u128,
    pub organization_id: u128,
    pub org_status: String,
    pub org_deleted: bool,
    pub tenant_status: String,
    pub tenant_deleted: bool,
}

/// A JWT signing key ready to verify tokens (always an asymmetric public key).
pub struct JwtKeyCacheEntry {
    pub public_key_pem: String,
    pub algorithm: String,
    pub tenant_id: u128,
    pub organization_id: u128,
    pub org_status: String,
    pub org_deleted: bool,
    pub tenant_status: String,
    pub tenant_deleted: bool,
}

/// A key without a public part is an HMAC key and cannot authenticate services.
pub fn jwt_key_entry(row: JwtKeyRow) -> (r: Result<JwtKeyCacheEntry, AppError>)
    ensures
        row.public_key is None ==> (r matches Err(AppError::Unauthorized(m))
            && m@ == "HMAC keys cannot be used for service authentication"@),
        row.public_key matches Some(pem) ==> (r matches Ok(e) && e.public_key_pem == pem
            && e.algorithm == row.algorithm && e.tenant_id == row.tenant_id
            && e.organization_id == row.organization_id && e.org_status == row.org_status
            && e.org_deleted == row.org_deleted && e.tenant_status == row.tenant_status
            && e.tenant_deleted == row.tenant_deleted),
{
    match row.public_key {
        Some(public_key_pem) => Ok(JwtKeyCacheEntry {
            public_key_pem,
            algorithm: row.algorithm,
            tenant_id: row.tenant_id,
            organization_id: row.organization_id,
            org_status: row.org_status,
            org_deleted: row.org_deleted,
            tenant_status: row.tenant_status,
            tenant_deleted: row.tenant_deleted,
        }),
        None => Err(AppError::Unauthorized("HMAC keys cannot be used for service authentication".to_string())),
    }
}

/// What `jsonwebtoken::decode_header` finds in a token: none when the header
/// does not decode, otherwise the key id it names, if any.
pub uninterp spec fn jwt_header_kid(token: Seq<char>) -> Option<Option<Seq<char>>>;

/// The text of an optional text.
pub open spec fn opt_text_view(v: Option<String>) -> Option<Seq<char>> {
    match v {
        Some(s) => Some(s@),
        None => None,
    }
}

/// `jsonwebtoken::decode_header`, keeping the header's `kid`.
#[verifier::external_body]
fn decode_header_kid(token: &str) -> (r: Option<Option<String>>)
    ensures
        match r {
            Some(k) => jwt_header_kid(token@) == Some(opt_text_view(k)),
            None => jwt_header_kid(token@) is None,
        },
{
    match jsonwebtoken::decode_header(token) {
        Ok(header) => Some(header.kid),
        Err(_) => None,
    }
}

/// The key id a JWT names in its header: a header that does not decode, or
/// that names no key, is refused.
pub fn jwt_kid(token: &str) -> (r: Result<String, AppError>)
    ensures
        jwt_header_kid(token@) is None ==> (r matches Err(AppError::Unauthorized(m)) && m@ == "invalid JWT header"@),
        jwt_header_kid(token@) == Some(None::<Seq<char>>) ==> (r matches Err(AppError::Unauthorized(m))
            && m@ == "JWT missing kid header"@),
        jwt_header_kid(token@) matches Some(Some(k)) ==> (r matches Ok(s) && s@ == k),
{
    match decode_header_kid(token) {
        None => Err(AppError::Unauthorized("invalid JWT header".to_string())),
        Some(kid) => require_kid(kid),
    }
}

/// The stored key a hashed API key names; an unknown hash is refused.
pub fn require_key_row<T>(found: Option<T>) -> (r: Result<T, AppError>)
    ensures
        found matches Some(x) ==> r == Ok::<T, AppError>(x),
        found is None ==> (r matches Err(AppError::Unauthorized(m)) && m@ == "invalid or revoked api key"@),
{
    match found {
        Some(x) => Ok(x),
        None => Err(AppError::Unauthorized("invalid or revoked api key".to_string())),
    }
}

/// The signing key a JWT names; an unknown or inactive key is refused.
pub fn require_jwt_key_row(found: Option<JwtKeyRow>) -> (r: Result<JwtKeyRow, AppError>)
    ensures
        found matches Some(x) ==> r == Ok::<JwtKeyRow, AppError>(x),
        found is None ==> (r matches Err(AppError::Unauthorized(m)) && m@ == "unknown or inactive JWT signing key"@),
{
    match found {
        Some(x) => Ok(x),
        None => Err(AppError::Unauthorized("unknown or inactive JWT signing key".to_string())),
    }
}

/// The key id a JWT header names; a header without one is refused.
pub fn require_kid(kid: Option<String>) -> (r: Result<String, AppError>)
    ensures
        kid matches Some(k) ==> r == Ok::<String, AppError>(k),
        kid is None ==> (r matches Err(AppError::Unauthorized(m)) && m@ == "JWT missing kid header"@),
{
    match kid {
        Some(k) => Ok(k),
        None => Err(AppError::Unauthorized("JWT missing kid header".to_string())),
    }
}

/// The error a JWT that fails signature or claim checks becomes.
pub fn jwt_decode_error(expired: bool) -> (r: AppError)
    ensures
        expired ==> (r matches AppError::Unauthorized(m) && m@ == "JWT has expired"@),
        !expired ==> (r matches AppError::Unauthorized(m) && m@ == "invalid JWT signature or claims"@),
{
    if expired {
        AppError::Unauthorized("JWT has expired".to_string())
    } else {
        AppError::Unauthorized("invalid JWT signature or claims".to_string())
    }
}

/// The claims of a verified service JWT.
pub struct JwtClaims {
    pub sub: String,
    pub org_id: u128,
    pub tenant_id: u128,
}

/// How verified claims are judged against the key that signed them.
pub open spec fn claims_judgement(kid: String, entry: JwtKeyCacheEntry, claims: JwtClaims, r: Result<ApiKeyPrincipal, AppError>) -> bool {
    if claims.tenant_id != entry.tenant_id {
        r matches Err(AppError::Unauthorized(m)) && m@ == "JWT tenant_id does not match key ownership"@
    } else if claims.org_id != entry.organization_id {
        r matches Err(AppError::Unauthorized(m)) && m@ == "JWT org_id does not match key ownership"@
    } else if uuid_from_text(claims.sub@) is None {
        r matches Err(AppError::Unauthorized(m)) && m@ == "JWT sub is not a valid UUID"@
    } else {
        match owner_outcome(entry.org_deleted, entry.org_status@, entry.tenant_deleted, entry.tenant_status@) {
            Some(m) => r matches Err(AppError::Forbidden(t)) && t@ == m,
            None => r matches Ok(p) && p.api_key_public_id == kid && p.organization_id == entry.organization_id
                && p.tenant_id == entry.tenant_id && Some(p.user_id) == uuid_from_text(claims.sub@),
        }
    }
}

/// Judges verified claims against the key that signed them: the token's tenant
/// and organization must be the key's (no cross-tenant reuse), `sub` must be a
/// UUID, and the organization and tenant must be active.
pub fn check_jwt_claims(kid: String, entry: &JwtKeyCacheEntry, claims: &JwtClaims) -> (r: Result<ApiKeyPrincipal, AppError>)
    ensures
        claims_judgement(kid, *entry, *claims, r),
        claims.tenant_id != entry.tenant_id ==> (r matches Err(AppError::Unauthorized(m))
            && m@ == "JWT tenant_id does not match key ownership"@),
        claims.tenant_id == entry.tenant_id && claims.org_id != entry.organization_id ==> (
            r matches Err(AppError::Unauthorized(m)) && m@ == "JWT org_id does not match key ownership"@),
        claims.tenant_id == entry.tenant_id && claims.org_id == entry.organization_id
            && uuid_from_text(claims.sub@) is None ==> (r matches Err(AppError::Unauthorized(m))
            && m@ == "JWT sub is not a valid UUID"@),
        claims.tenant_id == entry.tenant_id && claims.org_id == entry.organization_id
            && uuid_from_text(claims.sub@) is Some ==> (
            owner_outcome(entry.org_deleted, entry.org_status@, entry.tenant_deleted, entry.tenant_status@) matches Some(m)
                ==> (r matches Err(AppError::Forbidden(t)) && t@ == m)),
        claims.tenant_id == entry.tenant_id && claims.org_id == entry.organization_id
            && uuid_from_text(claims.sub@) is Some
            && owner_outcome(entry.org_deleted, entry.org_status@, entry.tenant_deleted, entry.tenant_status@) is None ==> (
            r matches Ok(p) && p.api_key_public_id == kid && p.organization_id == entry.organization_id
                && p.tenant_id == entry.tenant_id && Some(p.user_id) == uuid_from_text(claims.sub@)),
{
    if claims.tenant_id != entry.tenant_id {
        return Err(AppError::Unauthorized("JWT tenant_id does not match key ownership".to_string()));
    }
    if claims.org_id != entry.organization_id {
        return Err(AppError::Unauthorized("JWT org_id does not match key ownership".to_string()));
    }
    let user_id = match parse_uuid(claims.sub.as_str()) {
        Some(u) => u,
        None => return Err(AppError::Unauthorized("JWT sub is not a valid UUID".to_string())),
    };
    check_owner(entry.org_deleted, entry.org_status.as_str(), entry.tenant_deleted, entry.tenant_status.as_str())?;
    Ok(ApiKeyPrincipal {
        api_key_public_id: kid,
        organization_id: entry.organization_id,
        tenant_id: entry.tenant_id,
        user_id,
    })
}

} // verus!
