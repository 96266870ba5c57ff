//! The steps of issuing an API key, as a state machine: each call takes what the
//! last action brought back and gives the next action, until the flow answers
//! with the stored key and its plaintext. The caller performs the actions (the
//! lookups, the key count, fetching the view-later key, the insert and the
//! audit record) and feeds their results back.
use crate::common::types::RequestContext;
use crate::error::AppError;
use crate::features::api_keys::models::{ApiKey, ApiKeySettings, AuditAction, CreateApiKeyRequest, InsertAuditParams};
use crate::features::api_keys::service::{
    audit_of, environment_outcome, expiry_of, issued, policy_of, quota_message, ApiKeyService, IssuedKey, KeyPolicy,
    too_long_to_seal, MICROS_PER_SECOND,
};
use crate::features::environments::models::Environment;
use vstd::prelude::*;

verus! {

/// What the store is asked to insert for a new key.
pub struct NewApiKey {
    pub organization_id: u128,
    pub tenant_id: u128,
    pub user_id: u128,
    pub name: String,
    pub description: Option<String>,
    pub key_hash: String,
    pub key_encrypted: Option<String>,
    pub key_prefix: String,
    pub environment_id: String,
    pub expires_at: Option<i64>,
    pub ctx: RequestContext,
}

/// Where an issue stands.
pub enum CreateKeyStep {
    Begin,
    AwaitEnvironment,
    AwaitSettings { env: Environment },
    AwaitCount { env: Environment, policy: KeyPolicy, max: i32 },
    AwaitEncryptionKey { env: Environment, policy: KeyPolicy },
    AwaitInsert { full_key: String },
    AwaitAudit { key: ApiKey, full_key: String },
    Done,
}

/// What the last action brought back.
pub enum CreateKeyInput {
    Start,
    Environment(Result<Option<Environment>, AppError>),
    Settings(Result<Option<ApiKeySettings>, AppError>),
    Count(Result<i64, AppError>),
    EncryptionKey(Result<[u8; 32], AppError>),
    Inserted(Result<ApiKey, AppError>),
    AuditWritten,
}

/// What the caller is to do next.
pub enum CreateKeyAction {
    /// Look up the environment with this public id.
    FetchEnvironment { environment_id: String },
    /// Look up the tenant's key settings.
    FetchSettings { tenant_id: u128 },
    /// Count the user's active keys in the tenant.
    CountActive { tenant_id: u128, user_id: u128 },
    /// Fetch the view-later encryption key.
    FetchEncryptionKey,
    /// Insert the key.
    Insert(NewApiKey),
    /// Write the audit record (its failure is only logged).
    WriteAudit(InsertAuditParams),
    /// Answer: the stored key with its plaintext, or the error.
    Respond(Result<(ApiKey, String), AppError>),
}

/// One issue: the request, the caller, the time it started and where it stands.
pub struct CreateKeyFlow {
    pub req: CreateApiKeyRequest,
    pub ctx: RequestContext,
    pub now: i64,
    pub step: CreateKeyStep,
}

/// Whether `input` is what `step` waits for; stored settings give keys of at least one character.
pub open spec fn expects(step: CreateKeyStep, input: CreateKeyInput) -> bool {
    match step {
        CreateKeyStep::Begin => input is Start,
        CreateKeyStep::AwaitEnvironment => input is Environment,
        CreateKeyStep::AwaitSettings { .. } => input matches CreateKeyInput::Settings(r)
            && policy_of(match r { Ok(s) => s, Err(_) => None }).key_length >= 1,
        CreateKeyStep::AwaitCount { .. } => input is Count,
        CreateKeyStep::AwaitEncryptionKey { .. } => input is EncryptionKey,
        CreateKeyStep::AwaitInsert { .. } => input is Inserted,
        CreateKeyStep::AwaitAudit { .. } => input is AuditWritten,
        CreateKeyStep::Done => false,
    }
}

/// How many steps at most remain before the flow answers.
pub open spec fn rank(step: CreateKeyStep) -> nat {
    match step {
        CreateKeyStep::Begin => 7,
        CreateKeyStep::AwaitEnvironment => 6,
        CreateKeyStep::AwaitSettings { .. } => 5,
        CreateKeyStep::AwaitCount { .. } => 4,
        CreateKeyStep::AwaitEncryptionKey { .. } => 3,
        CreateKeyStep::AwaitInsert { .. } => 2,
        CreateKeyStep::AwaitAudit { .. } => 1,
        CreateKeyStep::Done => 0,
    }
}

/// The insert a request becomes with the issued key material `k` and expiry `expires_at`.
pub open spec fn new_key_of(req: CreateApiKeyRequest, ctx: RequestContext, k: IssuedKey, expires_at: Option<int>, n: NewApiKey) -> bool {
    &&& n.organization_id == req.organization_id
    &&& n.tenant_id == req.tenant_id
    &&& n.user_id == req.user_id
    &&& n.name@ == req.name@
    &&& n.description == req.description
    &&& n.key_hash == k.key_hash
    &&& n.key_encrypted == k.key_encrypted
    &&& n.key_prefix == k.key_prefix
    &&& n.environment_id@ == req.environment_id@
    &&& (match n.expires_at {
        Some(t) => expires_at == Some(t as int),
        None => expires_at is None,
    })
    &&& n.ctx == ctx
}

/// After the quota: the view-later key is fetched when the policy needs one;
/// otherwise the key is issued and inserted.
pub open spec fn proceeds(flow: CreateKeyFlow, env: Environment, policy: KeyPolicy, step: CreateKeyStep, action: CreateKeyAction) -> bool {
    if policy.allow_view_later {
        step == (CreateKeyStep::AwaitEncryptionKey { env, policy }) && action is FetchEncryptionKey
    } else {
        inserts(flow, env, policy, None, step, action)
    }
}

/// The key is issued under `raw_key` and inserted, remembering its plaintext.
pub open spec fn inserts(
    flow: CreateKeyFlow,
    env: Environment,
    policy: KeyPolicy,
    raw_key: Option<[u8; 32]>,
    step: CreateKeyStep,
    action: CreateKeyAction,
) -> bool {
    exists|k: IssuedKey| #[trigger] issued(env.name@, policy, raw_key, k)
        && (action matches CreateKeyAction::Insert(n) && new_key_of(flow.req, flow.ctx, k,
            expiry_of(flow.req.expires_at, policy.default_ttl_seconds, flow.now), n))
        && step == (CreateKeyStep::AwaitInsert { full_key: k.full_key })
}

/// An answer that ends the flow.
pub open spec fn answers_with(step: CreateKeyStep, action: CreateKeyAction, r: Result<(ApiKey, String), AppError>) -> bool {
    step is Done && action == CreateKeyAction::Respond(r)
}

/// The transition of a flow at `old` on `input` to `step` with `action`.
pub open spec fn transition(old: CreateKeyFlow, input: CreateKeyInput, step: CreateKeyStep, action: CreateKeyAction) -> bool {
    let req = old.req;
    match old.step {
        CreateKeyStep::Begin => step is AwaitEnvironment
            && action == (CreateKeyAction::FetchEnvironment { environment_id: req.environment_id }),
        CreateKeyStep::AwaitEnvironment => match input {
            CreateKeyInput::Environment(Err(e)) => answers_with(step, action, Err(e)),
            CreateKeyInput::Environment(Ok(found)) => {
                ||| exists|e: AppError| environment_outcome(found, req.tenant_id, req.environment_id@, Err(e))
                    && #[trigger] answers_with(step, action, Err(e))
                ||| exists|env: Environment| environment_outcome(found, req.tenant_id, req.environment_id@, Ok(env))
                    && step == (CreateKeyStep::AwaitSettings { env })
                    && action == (CreateKeyAction::FetchSettings { tenant_id: req.tenant_id })
            },
            _ => false,
        },
        CreateKeyStep::AwaitSettings { env } => match input {
            CreateKeyInput::Settings(Err(e)) => answers_with(step, action, Err(e)),
            CreateKeyInput::Settings(Ok(s)) => {
                let policy = policy_of(s);
                match policy.max_keys_per_user {
                    Some(max) => step == (CreateKeyStep::AwaitCount { env, policy, max })
                        && action == (CreateKeyAction::CountActive { tenant_id: req.tenant_id, user_id: req.user_id }),
                    None => proceeds(old, env, policy, step, action),
                }
            },
            _ => false,
        },
        CreateKeyStep::AwaitCount { env, policy, max } => match input {
            CreateKeyInput::Count(Err(e)) => answers_with(step, action, Err(e)),
            CreateKeyInput::Count(Ok(count)) => if count >= max {
                step is Done && (action matches CreateKeyAction::Respond(Err(AppError::Conflict(m, errs)))
                    && m@ == quota_message(max) && errs@.len() == 0)
            } else {
                proceeds(old, env, policy, step, action)
            },
            _ => false,
        },
        CreateKeyStep::AwaitEncryptionKey { env, policy } => match input {
            CreateKeyInput::EncryptionKey(Err(e)) => answers_with(step, action, Err(e)),
            CreateKeyInput::EncryptionKey(Ok(raw)) => {
                ||| inserts(old, env, policy, Some(raw), step, action)
                ||| (too_long_to_seal(env.name@, policy.key_length as int)
                    && step is Done && (action matches CreateKeyAction::Respond(Err(AppError::Internal(m)))
                    && m@ == "api key encryption failed"@))
            },
            _ => false,
        },
        CreateKeyStep::AwaitInsert { full_key } => match input {
            CreateKeyInput::Inserted(Err(e)) => answers_with(step, action, Err(e)),
            CreateKeyInput::Inserted(Ok(key)) => step == (CreateKeyStep::AwaitAudit { key, full_key })
                && (action matches CreateKeyAction::WriteAudit(a) && audit_of(key, AuditAction::Created, None, old.ctx, a)),
            _ => false,
        },
        CreateKeyStep::AwaitAudit { key, full_key } => answers_with(step, action, Ok((key, full_key))),
        CreateKeyStep::Done => false,
    }
}

impl CreateKeyFlow {
    /// An issue of a key for `req` by the caller of `ctx`, started at `now`
    /// (microseconds since the epoch, far enough from the ends of the range for
    /// any default lifetime to be added).
    pub fn new(req: CreateApiKeyRequest, ctx: RequestContext, now: i64) -> (r: Self)
        requires
            i64::MIN + 0x8000_0000 * MICROS_PER_SECOND <= now <= i64::MAX - 0x7fff_ffff * MICROS_PER_SECOND,
        ensures
            r.req == req,
            r.ctx == ctx,
            r.now == now,
            r.step is Begin,
    {
        CreateKeyFlow { req, ctx, now, step: CreateKeyStep::Begin }
    }

    /// The bounds on `now` that `new` was given, and a policy held while waiting
    /// gives keys of at least one character.
    pub open spec fn wf(&self) -> bool {
        &&& i64::MIN + 0x8000_0000 * MICROS_PER_SECOND <= self.now <= i64::MAX - 0x7fff_ffff * MICROS_PER_SECOND
        &&& match self.step {
            CreateKeyStep::AwaitCount { policy, .. } => policy.key_length >= 1,
            CreateKeyStep::AwaitEncryptionKey { policy, .. } => policy.key_length >= 1 && policy.allow_view_later,
            _ => true,
        }
    }

    /// Takes what the last action brought back and gives the next action. The
    /// flow answers after at most seven steps, and only when it answers is it done.
    pub fn advance(&mut self, input: CreateKeyInput) -> (action: CreateKeyAction)
        requires
            old(self).wf(),
            expects(old(self).step, input),
        ensures
            final(self).wf(),
            final(self).req == old(self).req,
            final(self).ctx == old(self).ctx,
            final(self).now == old(self).now,
            transition(*old(self), input, final(self).step, action),
            rank(final(self).step) < rank(old(self).step),
            action is Respond <==> final(self).step is Done,
    {
        let ghost before = *self;
        let mut step = CreateKeyStep::Done;
        std::mem::swap(&mut step, &mut self.step);
        assert(step == before.step);
        match step {
            CreateKeyStep::Begin => {
                self.step = CreateKeyStep::AwaitEnvironment;
                CreateKeyAction::FetchEnvironment { environment_id: self.req.environment_id.clone() }
            },
            CreateKeyStep::AwaitEnvironment => match input {
                CreateKeyInput::Environment(Err(e)) => CreateKeyAction::Respond(Err(e)),
                CreateKeyInput::Environment(Ok(found)) => {
                    let ghost f = found;
                    match ApiKeyService::<(), (), ()>::check_environment(found, &self.req) {
                        Err(e) => {
                            assert(answers_with(CreateKeyStep::Done, CreateKeyAction::Respond(Err(e)), Err(e)));
                            CreateKeyAction::Respond(Err(e))
                        },
                        Ok(env) => {
                            assert(environment_outcome(f, self.req.tenant_id, self.req.environment_id@, Ok(env)));
                            self.step = CreateKeyStep::AwaitSettings { env };
                            CreateKeyAction::FetchSettings { tenant_id: self.req.tenant_id }
                        },
                    }
                },
                _ => {
                    proof {
                        assert(false);
                    }
                    CreateKeyAction::Respond(Err(AppError::Internal(String::new())))
                },
            },
            CreateKeyStep::AwaitSettings { env } => match input {
                CreateKeyInput::Settings(Err(e)) => CreateKeyAction::Respond(Err(e)),
                CreateKeyInput::Settings(Ok(s)) => {
                    let policy = ApiKeyService::<(), (), ()>::policy(&s);
                    match policy.max_keys_per_user {
                        Some(max) => {
                            self.step = CreateKeyStep::AwaitCount { env, policy, max };
                            CreateKeyAction::CountActive { tenant_id: self.req.tenant_id, user_id: self.req.user_id }
                        },
                        None => self.proceed(env, policy),
                    }
                },
                _ => {
                    proof {
                        assert(false);
                    }
                    CreateKeyAction::Respond(Err(AppError::Internal(String::new())))
                },
            },
            CreateKeyStep::AwaitCount { env, policy, max } => match input {
                CreateKeyInput::Count(Err(e)) => CreateKeyAction::Respond(Err(e)),
                CreateKeyInput::Count(Ok(count)) => match ApiKeyService::<(), (), ()>::check_quota(max, count) {
                    Err(e) => CreateKeyAction::Respond(Err(e)),
                    Ok(()) => self.proceed(env, policy),
                },
                _ => {
                    proof {
                        assert(false);
                    }
                    CreateKeyAction::Respond(Err(AppError::Internal(String::new())))
                },
            },
            CreateKeyStep::AwaitEncryptionKey { env, policy } => match input {
                CreateKeyInput::EncryptionKey(Err(e)) => CreateKeyAction::Respond(Err(e)),
                CreateKeyInput::EncryptionKey(Ok(raw)) => self.insert(env, policy, Some(raw)),
                _ => {
                    proof {
                        assert(false);
                    }
                    CreateKeyAction::Respond(Err(AppError::Internal(String::new())))
                },
            },
            CreateKeyStep::AwaitInsert { full_key } => match input {
                CreateKeyInput::Inserted(Err(e)) => CreateKeyAction::Respond(Err(e)),
                CreateKeyInput::Inserted(Ok(key)) => {
                    let audit = ApiKeyService::<(), (), ()>::audit_record(&key, AuditAction::Created, None, self.ctx);
                    self.step = CreateKeyStep::AwaitAudit { key, full_key };
                    CreateKeyAction::WriteAudit(audit)
                },
                _ => {
                    proof {
                        assert(false);
                    }
                    CreateKeyAction::Respond(Err(AppError::Internal(String::new())))
                },
            },
            CreateKeyStep::AwaitAudit { key, full_key } => CreateKeyAction::Respond(Ok((key, full_key))),
            CreateKeyStep::Done => {
                proof {
                    assert(false);
                }
                CreateKeyAction::Respond(Err(AppError::Internal(String::new())))
            },
        }
    }

    /// The step after the quota.
    fn proceed(&mut self, env: Environment, policy: KeyPolicy) -> (action: CreateKeyAction)
        requires
            old(self).wf(),
            policy.key_length >= 1,
        ensures
            final(self).wf(),
            final(self).req == old(self).req,
            final(self).ctx == old(self).ctx,
            final(self).now == old(self).now,
            proceeds(*old(self), env, policy, final(self).step, action),
            !(action is Respond),
            rank(final(self).step) <= 3,
    {
        if policy.allow_view_later {
            self.step = CreateKeyStep::AwaitEncryptionKey { env, policy };
            CreateKeyAction::FetchEncryptionKey
        } else {
            self.insert(env, policy, None)
        }
    }

    /// Issues the key under `raw_key` and asks for its insert.
    fn insert(&mut self, env: Environment, policy: KeyPolicy, raw_key: Option<[u8; 32]>) -> (action: CreateKeyAction)
        requires
            old(self).wf(),
            policy.key_length >= 1,
            policy.allow_view_later ==> raw_key is Some,
        ensures
            final(self).wf(),
            final(self).req == old(self).req,
            final(self).ctx == old(self).ctx,
            final(self).now == old(self).now,
            inserts(*old(self), env, policy, raw_key, final(self).step, action)
                || (too_long_to_seal(env.name@, policy.key_length as int)
                && final(self).step is Done && (action matches CreateKeyAction::Respond(Err(AppError::Internal(m)))
                && m@ == "api key encryption failed"@)),
            !policy.allow_view_later ==> inserts(*old(self), env, policy, raw_key, final(self).step, action),
            action is Respond <==> final(self).step is Done,
            rank(final(self).step) <= 2,
    {
        let ghost before = *self;
        match ApiKeyService::<(), (), ()>::issue_key(env.name.as_str(), &policy, raw_key) {
            Err(e) => {
                self.step = CreateKeyStep::Done;
                CreateKeyAction::Respond(Err(e))
            },
            Ok(k) => {
                let ghost issued_key = k;
                let expires_at = ApiKeyService::<(), (), ()>::expiry(self.req.expires_at, policy.default_ttl_seconds, self.now);
                let n = NewApiKey {
                    organization_id: self.req.organization_id,
                    tenant_id: self.req.tenant_id,
                    user_id: self.req.user_id,
                    name: self.req.name.clone(),
                    description: copy_opt_text(&self.req.description),
                    key_hash: k.key_hash,
                    key_encrypted: k.key_encrypted,
                    key_prefix: k.key_prefix,
                    environment_id: self.req.environment_id.clone(),
                    expires_at,
                    ctx: self.ctx,
                };
                self.step = CreateKeyStep::AwaitInsert { full_key: k.full_key };
                let action = CreateKeyAction::Insert(n);
                assert(new_key_of(before.req, before.ctx, issued_key,
                    expiry_of(before.req.expires_at, policy.default_ttl_seconds, before.now), n));
                assert(issued(env.name@, policy, raw_key, issued_key));
                action
            },
        }
    }
}

/// A copy of an optional text.
fn copy_opt_text(v: &Option<String>) -> (r: Option<String>)
    ensures
        r == *v,
{
    match v {
        Some(s) => Some(s.clone()),
        None => None,
    }
}

} // verus!
