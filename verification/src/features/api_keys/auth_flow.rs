//! The steps of authenticating a request, as a state machine: the bearer token
//! is read, told apart as a JWT or an API key, and judged against cached or
//! stored state. The caller performs the actions (cache reads and writes, store
//! lookups, the JWT signature check) and feeds their results back; cache
//! failures are reported as misses.
use crate::common::codec::uuid_from_text;
use crate::common::types::RequestContext;
use crate::error::AppError;
use crate::common::codec::is_ascii_alphanumeric;
use crate::common::nano_id::all_alphanumeric;
use crate::features::api_keys::auth::{
    algorithm_named, auth_cache_key, bearer_token, build_ctx, check_jwt_claims, claims_judgement, count_char,
    lemma_count_char_absent, lemma_count_char_concat,
    ec_pem_accepted, extract_token, is_jwt, is_rsa, rsa_pem_accepted, jwt_decode_error, jwt_header_kid, jwt_key_cache_key, jwt_key_entry, jwt_kid,
    key_judgement, make_decoding_key, parse_jwt_algorithm, validate, ApiKeyPrincipal, AuthCacheEntry, JwtAlgorithm,
    JwtClaims, JwtKeyCacheEntry, JwtKeyRow, AUTH_CACHE_TTL_SECS, JWT_KEY_CACHE_TTL_SECS,
};
use crate::features::api_keys::crypto::{hash_key, key_hash_of, key_prefix_of};
use crate::features::api_keys::service::{full_key_text, issued, IssuedKey, KeyPolicy};
use vstd::prelude::*;
use vstd::utf8::encode_utf8;

verus! {

/// Where an authentication stands.
pub enum AuthStep {
    Begin,
    AwaitKeyCache { key_hash: String },
    AwaitKeyRow { key_hash: String },
    AwaitKeyCacheWrite { entry: AuthCacheEntry },
    AwaitTouch { principal: ApiKeyPrincipal },
    AwaitJwtKeyCache { token: String, kid: String },
    AwaitJwtKeyRow { token: String, kid: String },
    AwaitJwtKeyCacheWrite { token: String, kid: String, entry: JwtKeyCacheEntry },
    AwaitClaims { kid: String, entry: JwtKeyCacheEntry },
    Done,
}

/// What the last action brought back.
pub enum AuthInput {
    Start,
    /// The cached entry of an API key hash; `None` on a miss or a cache failure.
    KeyCache(Option<AuthCacheEntry>),
    /// The stored state of an API key hash.
    KeyRow(Result<Option<AuthCacheEntry>, AppError>),
    /// A cache write finished (its failure is ignored).
    CacheWritten,
    /// The last-use update was handed off.
    Touched,
    /// The cached signing key of a key id; `None` on a miss or a cache failure.
    JwtKeyCache(Option<JwtKeyCacheEntry>),
    /// The stored signing key of a key id.
    JwtKeyRow(Result<Option<JwtKeyRow>, AppError>),
    /// The token's verified claims, or whether its failure was an expiry.
    Claims(Result<JwtClaims, bool>),
}

/// What the caller is to do next.
pub enum AuthAction {
    ReadKeyCache { cache_key: String },
    FetchKeyRow { key_hash: String },
    WriteKeyCache { cache_key: String, entry: AuthCacheEntry, ttl_secs: u64 },
    /// Record, without waiting, that the key was used now.
    TouchLastUsed { api_key_public_id: String },
    ReadJwtKeyCache { cache_key: String },
    FetchJwtKeyRow { kid: String },
    WriteJwtKeyCache { cache_key: String, entry: JwtKeyCacheEntry, ttl_secs: u64 },
    /// Check the token's signature and standard claims (no audience) under
    /// `algorithm`, with the key that [`make_decoding_key`] reads from `public_key_pem`.
    VerifyToken { token: String, public_key_pem: String, algorithm: JwtAlgorithm },
    /// Answer: the principal and its request context, or the error.
    Respond(Result<(ApiKeyPrincipal, RequestContext), AppError>),
}

/// One authentication: the `Authorization` header (if any, as text), the
/// request's id, the time and where it stands.
pub struct AuthFlow {
    pub authorization: Option<String>,
    pub request_id: u128,
    pub now: i64,
    pub step: AuthStep,
}

/// Whether `input` is what `step` waits for.
pub open spec fn expects(step: AuthStep, input: AuthInput) -> bool {
    match step {
        AuthStep::Begin => input is Start,
        AuthStep::AwaitKeyCache { .. } => input is KeyCache,
        AuthStep::AwaitKeyRow { .. } => input is KeyRow,
        AuthStep::AwaitKeyCacheWrite { .. } => input is CacheWritten,
        AuthStep::AwaitTouch { .. } => input is Touched,
        AuthStep::AwaitJwtKeyCache { .. } => input is JwtKeyCache,
        AuthStep::AwaitJwtKeyRow { .. } => input is JwtKeyRow,
        AuthStep::AwaitJwtKeyCacheWrite { .. } => input is CacheWritten,
        AuthStep::AwaitClaims { .. } => input is Claims,
        AuthStep::Done => false,
    }
}

/// How many steps at most remain before the flow answers.
pub open spec fn rank(step: AuthStep) -> nat {
    match step {
        AuthStep::Begin => 5,
        AuthStep::AwaitKeyCache { .. } => 4,
        AuthStep::AwaitKeyRow { .. } => 3,
        AuthStep::AwaitKeyCacheWrite { .. } => 2,
        AuthStep::AwaitTouch { .. } => 1,
        AuthStep::AwaitJwtKeyCache { .. } => 4,
        AuthStep::AwaitJwtKeyRow { .. } => 3,
        AuthStep::AwaitJwtKeyCacheWrite { .. } => 2,
        AuthStep::AwaitClaims { .. } => 1,
        AuthStep::Done => 0,
    }
}

/// The request context of a principal.
pub open spec fn ctx_of(p: ApiKeyPrincipal, request_id: u128) -> RequestContext {
    RequestContext { request_id, created_by: p.user_id, organization_id: p.organization_id, tenant_id: p.tenant_id }
}

/// An answer that ends the flow.
pub open spec fn answers_with(step: AuthStep, action: AuthAction, r: Result<(ApiKeyPrincipal, RequestContext), AppError>) -> bool {
    step is Done && action == AuthAction::Respond(r)
}

/// An answer with an unauthorized error carrying `m`.
pub open spec fn refuses(step: AuthStep, action: AuthAction, m: Seq<char>) -> bool {
    step is Done && (action matches AuthAction::Respond(Err(AppError::Unauthorized(x))) && x@ == m)
}

/// An answer with what judging gave: the error, or the principal with its context.
pub open spec fn answers_judged(step: AuthStep, action: AuthAction, j: Result<ApiKeyPrincipal, AppError>, request_id: u128) -> bool {
    match j {
        Err(e) => answers_with(step, action, Err(e)),
        Ok(p) => answers_with(step, action, Ok((p, ctx_of(p, request_id)))),
    }
}

/// Whether the PEM text is a public key of the kind `alg` needs.
pub open spec fn pem_accepted(alg: JwtAlgorithm, pem: Seq<char>) -> bool {
    if is_rsa(alg) {
        rsa_pem_accepted(encode_utf8(pem))
    } else {
        ec_pem_accepted(encode_utf8(pem))
    }
}

/// Where a known signing key leads: the token is checked with a key read from
/// its PEM for its algorithm, unless the algorithm is unsupported or the PEM unreadable.
pub open spec fn verifies_with(token: String, kid: String, entry: JwtKeyCacheEntry, step: AuthStep, action: AuthAction) -> bool {
    match algorithm_named(entry.algorithm@) {
        None => refuses(step, action, "unsupported JWT algorithm: "@ + entry.algorithm@),
        Some(alg) => if pem_accepted(alg, entry.public_key_pem@) {
            step == (AuthStep::AwaitClaims { kid, entry })
                && (action matches AuthAction::VerifyToken { token: t, public_key_pem, algorithm }
                    && t == token && public_key_pem@ == entry.public_key_pem@ && algorithm == alg)
        } else {
            step is Done && (action matches AuthAction::Respond(Err(AppError::Internal(m)))
                && m@ == (if is_rsa(alg) { "invalid RSA public key in key record"@ } else { "invalid EC public key in key record"@ }))
        },
    }
}

/// The transition of a flow at `old` on `input` to `step` with `action`.
pub open spec fn transition(old: AuthFlow, input: AuthInput, step: AuthStep, action: AuthAction) -> bool {
    match old.step {
        AuthStep::Begin => match bearer_token(match old.authorization {
            Some(a) => Some(a@),
            None => None,
        }) {
            Err(m) => refuses(step, action, m),
            Ok(t) => if count_char(t, '.') == 2 {
                match jwt_header_kid(t) {
                    None => refuses(step, action, "invalid JWT header"@),
                    Some(None) => refuses(step, action, "JWT missing kid header"@),
                    Some(Some(k)) => (step matches AuthStep::AwaitJwtKeyCache { token, kid } && token@ == t && kid@ == k)
                        && (action matches AuthAction::ReadJwtKeyCache { cache_key } && cache_key@ == "jwt_pk:"@ + k),
                }
            } else {
                (step matches AuthStep::AwaitKeyCache { key_hash } && key_hash@ == key_hash_of(t))
                    && (action matches AuthAction::ReadKeyCache { cache_key } && cache_key@ == "auth:"@ + key_hash_of(t))
            },
        },
        AuthStep::AwaitKeyCache { key_hash } => match input {
            AuthInput::KeyCache(Some(entry)) => exists|j: Result<ApiKeyPrincipal, AppError>| key_judgement(entry, old.now, j)
                && #[trigger] answers_judged(step, action, j, old.request_id),
            AuthInput::KeyCache(None) => step == (AuthStep::AwaitKeyRow { key_hash })
                && action == (AuthAction::FetchKeyRow { key_hash }),
            _ => false,
        },
        AuthStep::AwaitKeyRow { key_hash } => match input {
            AuthInput::KeyRow(Err(e)) => answers_with(step, action, Err(e)),
            AuthInput::KeyRow(Ok(None)) => refuses(step, action, "invalid or revoked api key"@),
            AuthInput::KeyRow(Ok(Some(entry))) => step == (AuthStep::AwaitKeyCacheWrite { entry })
                && (action matches AuthAction::WriteKeyCache { cache_key, entry: written, ttl_secs }
                    && cache_key@ == "auth:"@ + key_hash@ && written == entry && ttl_secs == AUTH_CACHE_TTL_SECS),
            _ => false,
        },
        AuthStep::AwaitKeyCacheWrite { entry } => exists|j: Result<ApiKeyPrincipal, AppError>| #[trigger] key_judgement(entry, old.now, j)
            && match j {
                Err(e) => answers_with(step, action, Err(e)),
                Ok(p) => step == (AuthStep::AwaitTouch { principal: p })
                    && action == (AuthAction::TouchLastUsed { api_key_public_id: p.api_key_public_id }),
            },
        AuthStep::AwaitTouch { principal } => answers_with(step, action, Ok((principal, ctx_of(principal, old.request_id)))),
        AuthStep::AwaitJwtKeyCache { token, kid } => match input {
            AuthInput::JwtKeyCache(Some(entry)) => verifies_with(token, kid, entry, step, action),
            AuthInput::JwtKeyCache(None) => step == (AuthStep::AwaitJwtKeyRow { token, kid })
                && action == (AuthAction::FetchJwtKeyRow { kid }),
            _ => false,
        },
        AuthStep::AwaitJwtKeyRow { token, kid } => match input {
            AuthInput::JwtKeyRow(Err(e)) => answers_with(step, action, Err(e)),
            AuthInput::JwtKeyRow(Ok(None)) => refuses(step, action, "unknown or inactive JWT signing key"@),
            AuthInput::JwtKeyRow(Ok(Some(row))) => match row.public_key {
                None => refuses(step, action, "HMAC keys cannot be used for service authentication"@),
                Some(pem) => {
                    let entry = JwtKeyCacheEntry {
                        public_key_pem: pem,
                        algorithm: row.algorithm,
                        tenant_id: row.tenant_id,
                        organization_id: row.organization_id,
                        org_status: row.org_status,
                        org_deleted: row.org_deleted,
                        tenant_status: row.tenant_status,
                        tenant_deleted: row.tenant_deleted,
                    };
                    step == (AuthStep::AwaitJwtKeyCacheWrite { token, kid, entry })
                        && (action matches AuthAction::WriteJwtKeyCache { cache_key, entry: written, ttl_secs }
                            && cache_key@ == "jwt_pk:"@ + kid@ && written == entry && ttl_secs == JWT_KEY_CACHE_TTL_SECS)
                },
            },
            _ => false,
        },
        AuthStep::AwaitJwtKeyCacheWrite { token, kid, entry } => verifies_with(token, kid, entry, step, action),
        AuthStep::AwaitClaims { kid, entry } => match input {
            AuthInput::Claims(Err(expired)) => refuses(step, action,
                if expired { "JWT has expired"@ } else { "invalid JWT signature or claims"@ }),
            AuthInput::Claims(Ok(claims)) => exists|j: Result<ApiKeyPrincipal, AppError>| claims_judgement(kid, entry, claims, j)
                && #[trigger] answers_judged(step, action, j, old.request_id),
            _ => false,
        },
        AuthStep::Done => false,
    }
}

/// A copy of an API key's cache entry.
fn copy_key_entry(e: &AuthCacheEntry) -> (r: AuthCacheEntry)
    ensures
        r == *e,
{
    AuthCacheEntry {
        api_key_public_id: e.api_key_public_id.clone(),
        organization_id: e.organization_id,
        tenant_id: e.tenant_id,
        user_id: e.user_id,
        expires_at: e.expires_at,
        api_key_deleted: e.api_key_deleted,
        api_key_status: e.api_key_status.clone(),
        org_status: e.org_status.clone(),
        org_deleted: e.org_deleted,
        tenant_status: e.tenant_status.clone(),
        tenant_deleted: e.tenant_deleted,
    }
}

/// A copy of a signing key's cache entry.
fn copy_jwt_entry(e: &JwtKeyCacheEntry) -> (r: JwtKeyCacheEntry)
    ensures
        r == *e,
{
    JwtKeyCacheEntry {
        public_key_pem: e.public_key_pem.clone(),
        algorithm: e.algorithm.clone(),
        tenant_id: e.tenant_id,
        organization_id: e.organization_id,
        org_status: e.org_status.clone(),
        org_deleted: e.org_deleted,
        tenant_status: e.tenant_status.clone(),
        tenant_deleted: e.tenant_deleted,
    }
}

impl AuthFlow {
    /// An authentication of a request with the given `Authorization` header
    /// (`None` when absent or not text), request id and time (microseconds since the epoch).
    pub fn new(authorization: Option<String>, request_id: u128, now: i64) -> (r: Self)
        ensures
            r.authorization == authorization,
            r.request_id == request_id,
            r.now == now,
            r.step is Begin,
    {
        AuthFlow { authorization, request_id, now, step: AuthStep::Begin }
    }

    /// Takes what the last action brought back and gives the next action. The
    /// flow answers after at most five steps, and only when it answers is it done.
    pub fn advance(&mut self, input: AuthInput) -> (action: AuthAction)
        requires
            expects(old(self).step, input),
        ensures
            final(self).authorization == old(self).authorization,
            final(self).request_id == old(self).request_id,
            final(self).now == old(self).now,
            transition(*old(self), input, final(self).step, action),
            rank(final(self).step) < rank(old(self).step),
            action is Respond <==> final(self).step is Done,
    {
        let mut step = AuthStep::Done;
        std::mem::swap(&mut step, &mut self.step);
        match step {
            AuthStep::Begin => {
                let header = match &self.authorization {
                    Some(a) => Some(a.as_str()),
                    None => None,
                };
                let token = match extract_token(header) {
                    Err(e) => return AuthAction::Respond(Err(e)),
                    Ok(t) => t,
                };
                if is_jwt(token.as_str()) {
                    match jwt_kid(token.as_str()) {
                        Err(e) => AuthAction::Respond(Err(e)),
                        Ok(kid) => {
                            let cache_key = jwt_key_cache_key(kid.as_str());
                            self.step = AuthStep::AwaitJwtKeyCache { token, kid };
                            AuthAction::ReadJwtKeyCache { cache_key }
                        },
                    }
                } else {
                    let key_hash = hash_key(token.as_str());
                    let cache_key = auth_cache_key(key_hash.as_str());
                    self.step = AuthStep::AwaitKeyCache { key_hash };
                    AuthAction::ReadKeyCache { cache_key }
                }
            },
            AuthStep::AwaitKeyCache { key_hash } => match input {
                AuthInput::KeyCache(Some(entry)) => self.judged(validate(&entry, self.now)),
                AuthInput::KeyCache(None) => {
                    let action = AuthAction::FetchKeyRow { key_hash: key_hash.clone() };
                    self.step = AuthStep::AwaitKeyRow { key_hash };
                    action
                },
                _ => {
                    proof {
                        assert(false);
                    }
                    AuthAction::Respond(Err(AppError::Internal(String::new())))
                },
            },
            AuthStep::AwaitKeyRow { key_hash } => match input {
                AuthInput::KeyRow(Err(e)) => AuthAction::Respond(Err(e)),
                AuthInput::KeyRow(Ok(None)) => AuthAction::Respond(Err(AppError::Unauthorized("invalid or revoked api key".to_string()))),
                AuthInput::KeyRow(Ok(Some(entry))) => {
                    let written = copy_key_entry(&entry);
                    let cache_key = auth_cache_key(key_hash.as_str());
                    self.step = AuthStep::AwaitKeyCacheWrite { entry };
                    AuthAction::WriteKeyCache { cache_key, entry: written, ttl_secs: AUTH_CACHE_TTL_SECS }
                },
                _ => {
                    proof {
                        assert(false);
                    }
                    AuthAction::Respond(Err(AppError::Internal(String::new())))
                },
            },
            AuthStep::AwaitKeyCacheWrite { entry } => match validate(&entry, self.now) {
                Err(e) => AuthAction::Respond(Err(e)),
                Ok(p) => {
                    let action = AuthAction::TouchLastUsed { api_key_public_id: p.api_key_public_id.clone() };
                    self.step = AuthStep::AwaitTouch { principal: p };
                    action
                },
            },
            AuthStep::AwaitTouch { principal } => {
                let ctx = build_ctx(&principal, self.request_id);
                AuthAction::Respond(Ok((principal, ctx)))
            },
            AuthStep::AwaitJwtKeyCache { token, kid } => match input {
                AuthInput::JwtKeyCache(Some(entry)) => self.verify(token, kid, entry),
                AuthInput::JwtKeyCache(None) => {
                    let action = AuthAction::FetchJwtKeyRow { kid: kid.clone() };
                    self.step = AuthStep::AwaitJwtKeyRow { token, kid };
                    action
                },
                _ => {
                    proof {
                        assert(false);
                    }
                    AuthAction::Respond(Err(AppError::Internal(String::new())))
                },
            },
            AuthStep::AwaitJwtKeyRow { token, kid } => match input {
                AuthInput::JwtKeyRow(Err(e)) => AuthAction::Respond(Err(e)),
                AuthInput::JwtKeyRow(Ok(None)) => AuthAction::Respond(Err(AppError::Unauthorized(
                    "unknown or inactive JWT signing key".to_string(),
                ))),
                AuthInput::JwtKeyRow(Ok(Some(row))) => match jwt_key_entry(row) {
                    Err(e) => AuthAction::Respond(Err(e)),
                    Ok(entry) => {
                        let written = copy_jwt_entry(&entry);
                        let cache_key = jwt_key_cache_key(kid.as_str());
                        self.step = AuthStep::AwaitJwtKeyCacheWrite { token, kid, entry };
                        AuthAction::WriteJwtKeyCache { cache_key, entry: written, ttl_secs: JWT_KEY_CACHE_TTL_SECS }
                    },
                },
                _ => {
                    proof {
                        assert(false);
                    }
                    AuthAction::Respond(Err(AppError::Internal(String::new())))
                },
            },
            AuthStep::AwaitJwtKeyCacheWrite { token, kid, entry } => self.verify(token, kid, entry),
            AuthStep::AwaitClaims { kid, entry } => match input {
                AuthInput::Claims(Err(expired)) => AuthAction::Respond(Err(jwt_decode_error(expired))),
                AuthInput::Claims(Ok(claims)) => self.judged(check_jwt_claims(kid, &entry, &claims)),
                _ => {
                    proof {
                        assert(false);
                    }
                    AuthAction::Respond(Err(AppError::Internal(String::new())))
                },
            },
            AuthStep::Done => {
                proof {
                    assert(false);
                }
                AuthAction::Respond(Err(AppError::Internal(String::new())))
            },
        }
    }

    /// Answers with a judgement.
    fn judged(&mut self, j: Result<ApiKeyPrincipal, AppError>) -> (action: AuthAction)
        ensures
            final(self).authorization == old(self).authorization,
            final(self).request_id == old(self).request_id,
            final(self).now == old(self).now,
            answers_judged(final(self).step, action, j, old(self).request_id),
    {
        self.step = AuthStep::Done;
        match j {
            Err(e) => AuthAction::Respond(Err(e)),
            Ok(p) => {
                let ctx = build_ctx(&p, self.request_id);
                AuthAction::Respond(Ok((p, ctx)))
            },
        }
    }

    /// Prepares the signature check of `token` with the signing key `entry`.
    fn verify(&mut self, token: String, kid: String, entry: JwtKeyCacheEntry) -> (action: AuthAction)
        ensures
            final(self).authorization == old(self).authorization,
            final(self).request_id == old(self).request_id,
            final(self).now == old(self).now,
            verifies_with(token, kid, entry, final(self).step, action),
            action is Respond <==> final(self).step is Done,
            rank(final(self).step) <= 1,
    {
        let algorithm = match parse_jwt_algorithm(entry.algorithm.as_str()) {
            Err(e) => {
                self.step = AuthStep::Done;
                return AuthAction::Respond(Err(e));
            },
            Ok(a) => a,
        };
        match make_decoding_key(entry.public_key_pem.as_str(), algorithm) {
            Err(e) => {
                self.step = AuthStep::Done;
                AuthAction::Respond(Err(e))
            },
            Ok(_) => {
                let public_key_pem = entry.public_key_pem.clone();
                self.step = AuthStep::AwaitClaims { kid, entry };
                AuthAction::VerifyToken { token, public_key_pem, algorithm }
            },
        }
    }
}

/// A key as it is issued authenticates as an API key under the hash stored with
/// it: presented as `Bearer <key>`, it is not taken for a JWT (a key holds no dot
/// when its environment's name holds none), and the first step reads the cache
/// entry `auth:` followed by that hash.
pub proof fn law_issued_key_is_looked_up_by_its_hash(
    env_name: Seq<char>,
    policy: KeyPolicy,
    raw_key: Option<[u8; 32]>,
    k: IssuedKey,
    flow: AuthFlow,
    step: AuthStep,
    action: AuthAction,
)
    requires
        issued(env_name, policy, raw_key, k),
        count_char(env_name, '.') == 0,
        flow.step is Begin,
        flow.authorization matches Some(a) && a@ == "Bearer "@ + k.full_key@,
        transition(flow, AuthInput::Start, step, action),
    ensures
        step matches AuthStep::AwaitKeyCache { key_hash } && key_hash@ == k.key_hash@,
        action matches AuthAction::ReadKeyCache { cache_key } && cache_key@ == "auth:"@ + k.key_hash@,
{
    let random = choose|random: Seq<char>| {
        &&& random.len() == policy.key_length
        &&& all_alphanumeric(random)
        &&& k.full_key@ == full_key_text(env_name, random)
        &&& k.key_prefix@ == #[trigger] key_prefix_of(random)
    };
    reveal_strlit("hkly_");
    reveal_strlit("_");
    reveal_strlit("Bearer ");
    lemma_count_char_absent("hkly_"@, '.');
    lemma_count_char_absent("_"@, '.');
    assert forall|i: int| 0 <= i < random.len() implies random[i] != '.' by {
        assert(is_ascii_alphanumeric(random[i]));
    }
    lemma_count_char_absent(random, '.');
    lemma_count_char_concat("hkly_"@, env_name, '.');
    lemma_count_char_concat("hkly_"@ + env_name, "_"@, '.');
    lemma_count_char_concat("hkly_"@ + env_name + "_"@, random, '.');
    let a = flow.authorization.unwrap()@;
    assert(a.subrange(0, "Bearer "@.len() as int) =~= "Bearer "@);
    assert(a.subrange("Bearer "@.len() as int, a.len() as int) =~= k.full_key@);
}

} // verus!
