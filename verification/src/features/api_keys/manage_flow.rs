//! The steps of revealing, changing and deleting a stored API key, as state
//! machines: each call takes what the last action brought back and gives the
//! next action, until the flow answers. Every successful change is followed by
//! its audit record before the answer; a failed audit write is only logged.
use crate::common::crypto::{envelope_nonce_fits, open_envelope};
use crate::common::text::concat2;
use crate::common::types::RequestContext;
use crate::error::AppError;
use crate::features::api_keys::crypto::key_envelope_message;
use crate::features::api_keys::models::{
    ApiKey, ApiKeyChanges, ApiKeySettings, AuditAction, InsertAuditParams, RevealApiKeyResponse, UpdateApiKeyRequest,
};
use crate::features::api_keys::create_flow::{transition, CreateKeyAction, CreateKeyFlow, CreateKeyInput, CreateKeyStep};
use crate::features::api_keys::service::{audit_of, issued, policy_of, reveal_gate, ApiKeyService, IssuedKey};
use vstd::prelude::*;
use vstd::utf8::encode_utf8;

verus! {

type Svc = ApiKeyService<(), (), ()>;

/// An answer with `NotFound` naming the key.
pub open spec fn key_not_found<A>(public_id: Seq<char>, r: Result<A, AppError>) -> bool {
    r matches Err(AppError::NotFound(m)) && m@ == "api key not found: "@ + public_id
}

// ── reveal ───────────────────────────────────────────────────────────────────

/// Where a reveal stands.
pub enum RevealStep {
    Begin,
    AwaitKey,
    AwaitSettings { key: ApiKey },
    AwaitEncryptionKey { key: ApiKey, envelope: String },
    AwaitAudit { response: RevealApiKeyResponse },
    Done,
}

/// What the last action of a reveal brought back.
pub enum RevealInput {
    Start,
    Key(Result<Option<ApiKey>, AppError>),
    Settings(Result<Option<ApiKeySettings>, AppError>),
    EncryptionKey(Result<[u8; 32], AppError>),
    AuditWritten,
}

/// What the caller of a reveal is to do next.
pub enum RevealAction {
    FetchKey { public_id: String },
    FetchSettings { tenant_id: u128 },
    FetchEncryptionKey,
    WriteAudit(InsertAuditParams),
    Respond(Result<RevealApiKeyResponse, AppError>),
}

/// One reveal of the key with public id `public_id` by the caller of `ctx`.
pub struct RevealFlow {
    pub public_id: String,
    pub ctx: RequestContext,
    pub step: RevealStep,
}

/// Whether `input` is what `step` waits for; an encryption key comes only for an
/// envelope whose nonce has the right size.
pub open spec fn reveal_expects(step: RevealStep, input: RevealInput) -> bool {
    match step {
        RevealStep::Begin => input is Start,
        RevealStep::AwaitKey => input is Key,
        RevealStep::AwaitSettings { .. } => input is Settings,
        RevealStep::AwaitEncryptionKey { envelope, .. } => input matches RevealInput::EncryptionKey(r)
            && (r is Ok ==> envelope_nonce_fits(encode_utf8(envelope@))),
        RevealStep::AwaitAudit { .. } => input is AuditWritten,
        RevealStep::Done => false,
    }
}


pub open spec fn reveal_rank(step: RevealStep) -> nat {
    match step {
        RevealStep::Begin => 5,
        RevealStep::AwaitKey => 4,
        RevealStep::AwaitSettings { .. } => 3,
        RevealStep::AwaitEncryptionKey { .. } => 2,
        RevealStep::AwaitAudit { .. } => 1,
        RevealStep::Done => 0,
    }
}

/// The transition of a reveal at `old` on `input` to `step` with `action`.
pub open spec fn reveal_transition(old: RevealFlow, input: RevealInput, step: RevealStep, action: RevealAction) -> bool {
    match old.step {
        RevealStep::Begin => step is AwaitKey && action == (RevealAction::FetchKey { public_id: old.public_id }),
        RevealStep::AwaitKey => match input {
            RevealInput::Key(Err(e)) => step is Done && action == RevealAction::Respond(Err(e)),
            RevealInput::Key(Ok(None)) => step is Done && (action matches RevealAction::Respond(r) && key_not_found(old.public_id@, r)),
            RevealInput::Key(Ok(Some(key))) => step == (RevealStep::AwaitSettings { key })
                && action == (RevealAction::FetchSettings { tenant_id: key.tenant_id }),
            _ => false,
        },
        RevealStep::AwaitSettings { key } => match input {
            RevealInput::Settings(Err(e)) => step is Done && action == RevealAction::Respond(Err(e)),
            RevealInput::Settings(Ok(s)) => exists|gate: Result<String, AppError>| #[trigger] reveal_gate(s, key.key_encrypted, gate)
                && match gate {
                    Err(e) => step is Done && action == RevealAction::Respond(Err(e)),
                    Ok(envelope) => step == (RevealStep::AwaitEncryptionKey { key, envelope }) && action is FetchEncryptionKey,
                },
            _ => false,
        },
        RevealStep::AwaitEncryptionKey { key, envelope } => match input {
            RevealInput::EncryptionKey(Err(e)) => step is Done && action == RevealAction::Respond(Err(e)),
            RevealInput::EncryptionKey(Ok(raw)) => match open_envelope(raw@, encode_utf8(envelope@)) {
                Err(e) => step is Done && (action matches RevealAction::Respond(Err(AppError::Internal(m)))
                    && m@ == key_envelope_message(e)),
                Ok(p) => (step matches RevealStep::AwaitAudit { response } && response.id == key.public_id && response.key@ == p)
                    && (action matches RevealAction::WriteAudit(a) && audit_of(key, AuditAction::Revealed, None, old.ctx, a)),
            },
            _ => false,
        },
        RevealStep::AwaitAudit { response } => step is Done && action == RevealAction::Respond(Ok(response)),
        RevealStep::Done => false,
    }
}

impl RevealFlow {
    pub fn new(public_id: String, ctx: RequestContext) -> (r: Self)
        ensures
            r.public_id == public_id,
            r.ctx == ctx,
            r.step is Begin,
    {
        RevealFlow { public_id, ctx, step: RevealStep::Begin }
    }

    /// Takes what the last action brought back and gives the next action; the
    /// plaintext is answered only after the reveal is audited.
    pub fn advance(&mut self, input: RevealInput) -> (action: RevealAction)
        requires
            reveal_expects(old(self).step, input),
        ensures
            final(self).public_id == old(self).public_id,
            final(self).ctx == old(self).ctx,
            reveal_transition(*old(self), input, final(self).step, action),
            reveal_rank(final(self).step) < reveal_rank(old(self).step),
            action is Respond <==> final(self).step is Done,
            action matches RevealAction::Respond(Ok(_)) ==> old(self).step is AwaitAudit,
    {
        let mut step = RevealStep::Done;
        std::mem::swap(&mut step, &mut self.step);
        match step {
            RevealStep::Begin => {
                self.step = RevealStep::AwaitKey;
                RevealAction::FetchKey { public_id: self.public_id.clone() }
            },
            RevealStep::AwaitKey => match input {
                RevealInput::Key(Err(e)) => RevealAction::Respond(Err(e)),
                RevealInput::Key(Ok(None)) => RevealAction::Respond(Err(AppError::NotFound(
                    concat2("api key not found: ", self.public_id.as_str()),
                ))),
                RevealInput::Key(Ok(Some(key))) => {
                    let tenant_id = key.tenant_id;
                    self.step = RevealStep::AwaitSettings { key };
                    RevealAction::FetchSettings { tenant_id }
                },
                _ => {
                    proof {
                        assert(false);
                    }
                    RevealAction::Respond(Err(AppError::Internal(String::new())))
                },
            },
            RevealStep::AwaitSettings { key } => match input {
                RevealInput::Settings(Err(e)) => RevealAction::Respond(Err(e)),
                RevealInput::Settings(Ok(s)) => match Svc::reveal_envelope(&s, &key) {
                    Err(e) => RevealAction::Respond(Err(e)),
                    Ok(envelope) => {
                        self.step = RevealStep::AwaitEncryptionKey { key, envelope };
                        RevealAction::FetchEncryptionKey
                    },
                },
                _ => {
                    proof {
                        assert(false);
                    }
                    RevealAction::Respond(Err(AppError::Internal(String::new())))
                },
            },
            RevealStep::AwaitEncryptionKey { key, envelope } => match input {
                RevealInput::EncryptionKey(Err(e)) => RevealAction::Respond(Err(e)),
                RevealInput::EncryptionKey(Ok(raw)) => {
                    let audit = Svc::audit_record(&key, AuditAction::Revealed, None, self.ctx);
                    match Svc::reveal_key(raw, key, envelope.as_str()) {
                        Err(e) => RevealAction::Respond(Err(e)),
                        Ok(response) => {
                            self.step = RevealStep::AwaitAudit { response };
                            RevealAction::WriteAudit(audit)
                        },
                    }
                },
                _ => {
                    proof {
                        assert(false);
                    }
                    RevealAction::Respond(Err(AppError::Internal(String::new())))
                },
            },
            RevealStep::AwaitAudit { response } => RevealAction::Respond(Ok(response)),
            RevealStep::Done => {
                proof {
                    assert(false);
                }
                RevealAction::Respond(Err(AppError::Internal(String::new())))
            },
        }
    }
}

// ── update ───────────────────────────────────────────────────────────────────

/// Where a change of a key stands.
pub enum UpdateStep {
    Begin,
    AwaitExisting,
    AwaitUpdate { changes: Option<ApiKeyChanges> },
    AwaitAudit { updated: ApiKey },
    Done,
}

/// What the last action of a change brought back.
pub enum UpdateInput {
    Start,
    Existing(Result<Option<ApiKey>, AppError>),
    Updated(Result<Option<ApiKey>, AppError>),
    AuditWritten,
}

/// What the caller of a change is to do next.
pub enum UpdateAction {
    FetchKey { public_id: String },
    /// Set the given fields of the live key, keeping the others.
    Update { public_id: String, description: Option<String>, expires_at: Option<i64> },
    WriteAudit(InsertAuditParams),
    Respond(Result<ApiKey, AppError>),
}

/// One change of the key with public id `public_id` by the caller of `ctx`.
pub struct UpdateFlow {
    pub public_id: String,
    pub req: UpdateApiKeyRequest,
    pub ctx: RequestContext,
    pub step: UpdateStep,
}

pub open spec fn update_expects(step: UpdateStep, input: UpdateInput) -> bool {
    match step {
        UpdateStep::Begin => input is Start,
        UpdateStep::AwaitExisting => input is Existing,
        UpdateStep::AwaitUpdate { .. } => input is Updated,
        UpdateStep::AwaitAudit { .. } => input is AuditWritten,
        UpdateStep::Done => false,
    }
}

pub open spec fn update_rank(step: UpdateStep) -> nat {
    match step {
        UpdateStep::Begin => 4,
        UpdateStep::AwaitExisting => 3,
        UpdateStep::AwaitUpdate { .. } => 2,
        UpdateStep::AwaitAudit { .. } => 1,
        UpdateStep::Done => 0,
    }
}

/// What an update records as changed on `existing`: each field the request gives, before and after.
pub open spec fn changes_of(existing: ApiKey, req: UpdateApiKeyRequest, c: Option<ApiKeyChanges>) -> bool {
    &&& (req.description is None && req.expires_at is None) <==> c is None
    &&& c matches Some(ch) ==> (match req.description {
        Some(d) => ch.description == Some((existing.description, d)),
        None => ch.description is None,
    })
    &&& c matches Some(ch) ==> (match req.expires_at {
        Some(t) => ch.expires_at == Some((existing.expires_at, t)),
        None => ch.expires_at is None,
    })
}

/// The transition of a change at `old` on `input` to `step` with `action`.
pub open spec fn update_transition(old: UpdateFlow, input: UpdateInput, step: UpdateStep, action: UpdateAction) -> bool {
    match old.step {
        UpdateStep::Begin => step is AwaitExisting && action == (UpdateAction::FetchKey { public_id: old.public_id }),
        UpdateStep::AwaitExisting => match input {
            UpdateInput::Existing(Err(e)) => step is Done && action == UpdateAction::Respond(Err(e)),
            UpdateInput::Existing(Ok(None)) => step is Done && (action matches UpdateAction::Respond(r) && key_not_found(old.public_id@, r)),
            UpdateInput::Existing(Ok(Some(existing))) => (step matches UpdateStep::AwaitUpdate { changes }
                && changes_of(existing, old.req, changes))
                && action == (UpdateAction::Update {
                    public_id: old.public_id,
                    description: old.req.description,
                    expires_at: old.req.expires_at,
                }),
            _ => false,
        },
        UpdateStep::AwaitUpdate { changes } => match input {
            UpdateInput::Updated(Err(e)) => step is Done && action == UpdateAction::Respond(Err(e)),
            UpdateInput::Updated(Ok(None)) => step is Done && (action matches UpdateAction::Respond(r) && key_not_found(old.public_id@, r)),
            UpdateInput::Updated(Ok(Some(updated))) => step == (UpdateStep::AwaitAudit { updated })
                && (action matches UpdateAction::WriteAudit(a) && audit_of(updated, AuditAction::Updated, changes, old.ctx, a)),
            _ => false,
        },
        UpdateStep::AwaitAudit { updated } => step is Done && action == UpdateAction::Respond(Ok(updated)),
        UpdateStep::Done => false,
    }
}

fn copy_opt_text(v: &Option<String>) -> (r: Option<String>)
    ensures
        r == *v,
{
    match v {
        Some(s) => Some(s.clone()),
        None => None,
    }
}

impl UpdateFlow {
    pub fn new(public_id: String, req: UpdateApiKeyRequest, ctx: RequestContext) -> (r: Self)
        ensures
            r.public_id == public_id,
            r.req == req,
            r.ctx == ctx,
            r.step is Begin,
    {
        UpdateFlow { public_id, req, ctx, step: UpdateStep::Begin }
    }

    /// Takes what the last action brought back and gives the next action; the
    /// changed key is answered only after the change is audited.
    pub fn advance(&mut self, input: UpdateInput) -> (action: UpdateAction)
        requires
            update_expects(old(self).step, input),
        ensures
            final(self).public_id == old(self).public_id,
            final(self).req == old(self).req,
            final(self).ctx == old(self).ctx,
            update_transition(*old(self), input, final(self).step, action),
            update_rank(final(self).step) < update_rank(old(self).step),
            action is Respond <==> final(self).step is Done,
    {
        let mut step = UpdateStep::Done;
        std::mem::swap(&mut step, &mut self.step);
        match step {
            UpdateStep::Begin => {
                self.step = UpdateStep::AwaitExisting;
                UpdateAction::FetchKey { public_id: self.public_id.clone() }
            },
            UpdateStep::AwaitExisting => match input {
                UpdateInput::Existing(Err(e)) => UpdateAction::Respond(Err(e)),
                UpdateInput::Existing(Ok(None)) => UpdateAction::Respond(Svc::require_key::<ApiKey>(None, self.public_id.as_str())),
                UpdateInput::Existing(Ok(Some(existing))) => {
                    let changes = Svc::update_changes(&existing, &self.req);
                    self.step = UpdateStep::AwaitUpdate { changes };
                    UpdateAction::Update {
                        public_id: self.public_id.clone(),
                        description: copy_opt_text(&self.req.description),
                        expires_at: self.req.expires_at,
                    }
                },
                _ => {
                    proof {
                        assert(false);
                    }
                    UpdateAction::Respond(Err(AppError::Internal(String::new())))
                },
            },
            UpdateStep::AwaitUpdate { changes } => match input {
                UpdateInput::Updated(Err(e)) => UpdateAction::Respond(Err(e)),
                UpdateInput::Updated(Ok(None)) => UpdateAction::Respond(Svc::require_key::<ApiKey>(None, self.public_id.as_str())),
                UpdateInput::Updated(Ok(Some(updated))) => {
                    let audit = Svc::audit_record(&updated, AuditAction::Updated, changes, self.ctx);
                    self.step = UpdateStep::AwaitAudit { updated };
                    UpdateAction::WriteAudit(audit)
                },
                _ => {
                    proof {
                        assert(false);
                    }
                    UpdateAction::Respond(Err(AppError::Internal(String::new())))
                },
            },
            UpdateStep::AwaitAudit { updated } => UpdateAction::Respond(Ok(updated)),
            UpdateStep::Done => {
                proof {
                    assert(false);
                }
                UpdateAction::Respond(Err(AppError::Internal(String::new())))
            },
        }
    }
}

// ── delete ───────────────────────────────────────────────────────────────────

/// Where a deletion stands.
pub enum DeleteStep {
    Begin,
    AwaitExisting,
    AwaitDelete { existing: ApiKey },
    AwaitAudit,
    Done,
}

/// What the last action of a deletion brought back.
pub enum DeleteInput {
    Start,
    Existing(Result<Option<ApiKey>, AppError>),
    /// Whether the soft delete changed a row.
    Deleted(Result<bool, AppError>),
    AuditWritten,
}

/// What the caller of a deletion is to do next.
pub enum DeleteAction {
    FetchKey { public_id: String },
    SoftDelete { public_id: String },
    WriteAudit(InsertAuditParams),
    Respond(Result<(), AppError>),
}

/// One deletion of the key with public id `public_id` by the caller of `ctx`.
pub struct DeleteFlow {
    pub public_id: String,
    pub ctx: RequestContext,
    pub step: DeleteStep,
}

pub open spec fn delete_expects(step: DeleteStep, input: DeleteInput) -> bool {
    match step {
        DeleteStep::Begin => input is Start,
        DeleteStep::AwaitExisting => input is Existing,
        DeleteStep::AwaitDelete { .. } => input is Deleted,
        DeleteStep::AwaitAudit => input is AuditWritten,
        DeleteStep::Done => false,
    }
}

pub open spec fn delete_rank(step: DeleteStep) -> nat {
    match step {
        DeleteStep::Begin => 4,
        DeleteStep::AwaitExisting => 3,
        DeleteStep::AwaitDelete { .. } => 2,
        DeleteStep::AwaitAudit => 1,
        DeleteStep::Done => 0,
    }
}

/// The transition of a deletion at `old` on `input` to `step` with `action`.
pub open spec fn delete_transition(old: DeleteFlow, input: DeleteInput, step: DeleteStep, action: DeleteAction) -> bool {
    match old.step {
        DeleteStep::Begin => step is AwaitExisting && action == (DeleteAction::FetchKey { public_id: old.public_id }),
        DeleteStep::AwaitExisting => match input {
            DeleteInput::Existing(Err(e)) => step is Done && action == DeleteAction::Respond(Err(e)),
            DeleteInput::Existing(Ok(None)) => step is Done && (action matches DeleteAction::Respond(r) && key_not_found(old.public_id@, r)),
            DeleteInput::Existing(Ok(Some(existing))) => step == (DeleteStep::AwaitDelete { existing })
                && action == (DeleteAction::SoftDelete { public_id: old.public_id }),
            _ => false,
        },
        DeleteStep::AwaitDelete { existing } => match input {
            DeleteInput::Deleted(Err(e)) => step is Done && action == DeleteAction::Respond(Err(e)),
            DeleteInput::Deleted(Ok(false)) => step is Done && (action matches DeleteAction::Respond(r) && key_not_found(old.public_id@, r)),
            DeleteInput::Deleted(Ok(true)) => step is AwaitAudit
                && (action matches DeleteAction::WriteAudit(a) && audit_of(existing, AuditAction::Deleted, None, old.ctx, a)),
            _ => false,
        },
        DeleteStep::AwaitAudit => step is Done && action == DeleteAction::Respond(Ok(())),
        DeleteStep::Done => false,
    }
}

impl DeleteFlow {
    pub fn new(public_id: String, ctx: RequestContext) -> (r: Self)
        ensures
            r.public_id == public_id,
            r.ctx == ctx,
            r.step is Begin,
    {
        DeleteFlow { public_id, ctx, step: DeleteStep::Begin }
    }

    /// Takes what the last action brought back and gives the next action; a
    /// deletion is answered as done only after it is audited.
    pub fn advance(&mut self, input: DeleteInput) -> (action: DeleteAction)
        requires
            delete_expects(old(self).step, input),
        ensures
            final(self).public_id == old(self).public_id,
            final(self).ctx == old(self).ctx,
            delete_transition(*old(self), input, final(self).step, action),
            delete_rank(final(self).step) < delete_rank(old(self).step),
            action is Respond <==> final(self).step is Done,
    {
        let mut step = DeleteStep::Done;
        std::mem::swap(&mut step, &mut self.step);
        match step {
            DeleteStep::Begin => {
                self.step = DeleteStep::AwaitExisting;
                DeleteAction::FetchKey { public_id: self.public_id.clone() }
            },
            DeleteStep::AwaitExisting => match input {
                DeleteInput::Existing(Err(e)) => DeleteAction::Respond(Err(e)),
                DeleteInput::Existing(Ok(None)) => DeleteAction::Respond(Svc::check_deleted(false, self.public_id.as_str())),
                DeleteInput::Existing(Ok(Some(existing))) => {
                    self.step = DeleteStep::AwaitDelete { existing };
                    DeleteAction::SoftDelete { public_id: self.public_id.clone() }
                },
                _ => {
                    proof {
                        assert(false);
                    }
                    DeleteAction::Respond(Err(AppError::Internal(String::new())))
                },
            },
            DeleteStep::AwaitDelete { existing } => match input {
                DeleteInput::Deleted(Err(e)) => DeleteAction::Respond(Err(e)),
                DeleteInput::Deleted(Ok(deleted)) => match Svc::check_deleted(deleted, self.public_id.as_str()) {
                    Err(e) => DeleteAction::Respond(Err(e)),
                    Ok(()) => {
                        let audit = Svc::audit_record(&existing, AuditAction::Deleted, None, self.ctx);
                        self.step = DeleteStep::AwaitAudit;
                        DeleteAction::WriteAudit(audit)
                    },
                },
                _ => {
                    proof {
                        assert(false);
                    }
                    DeleteAction::Respond(Err(AppError::Internal(String::new())))
                },
            },
            DeleteStep::AwaitAudit => DeleteAction::Respond(Ok(())),
            DeleteStep::Done => {
                proof {
                    assert(false);
                }
                DeleteAction::Respond(Err(AppError::Internal(String::new())))
            },
        }
    }
}

/// A key created with view-later reveals back to itself. Take an issue that,
/// once the view-later key `raw` arrived, asked to insert a key and kept its
/// plaintext; let the store keep the envelope of that insert in the row `stored`;
/// a reveal of that row whose tenant allows view-later goes on to decrypt, and
/// decrypting under the same `raw` answers with exactly the plaintext the issue
/// handed out, for the row's public id.
pub proof fn law_created_key_reveals_to_itself(
    create: CreateKeyFlow,
    raw: [u8; 32],
    step1: CreateKeyStep,
    action1: CreateKeyAction,
    stored: ApiKey,
    reveal: RevealFlow,
    settings: Option<ApiKeySettings>,
    step2: RevealStep,
    action2: RevealAction,
    reveal2: RevealFlow,
    step3: RevealStep,
    action3: RevealAction,
)
    requires
        create.wf(),
        create.step is AwaitEncryptionKey,
        transition(create, CreateKeyInput::EncryptionKey(Ok(raw)), step1, action1),
        action1 matches CreateKeyAction::Insert(n) && stored.key_encrypted == n.key_encrypted,
        reveal.step == (RevealStep::AwaitSettings { key: stored }),
        reveal_transition(reveal, RevealInput::Settings(Ok(settings)), step2, action2),
        policy_of(settings).allow_view_later,
        reveal2.step == step2,
        reveal_transition(reveal2, RevealInput::EncryptionKey(Ok(raw)), step3, action3),
    ensures
        step1 matches CreateKeyStep::AwaitInsert { full_key } && (step3 matches RevealStep::AwaitAudit { response }
            && response.key@ == full_key@ && response.id == stored.public_id),
{
    let (env, policy) = match create.step {
        CreateKeyStep::AwaitEncryptionKey { env, policy } => (env, policy),
        _ => arbitrary(),
    };
    let n = match action1 {
        CreateKeyAction::Insert(n) => n,
        _ => arbitrary(),
    };
    let k = choose|k: IssuedKey| #[trigger] issued(env.name@, policy, Some(raw), k)
        && (action1 matches CreateKeyAction::Insert(n) && crate::features::api_keys::create_flow::new_key_of(create.req, create.ctx, k,
            crate::features::api_keys::service::expiry_of(create.req.expires_at, policy.default_ttl_seconds, create.now), n))
        && step1 == (CreateKeyStep::AwaitInsert { full_key: k.full_key });
    let e = k.key_encrypted.unwrap();
    assert(reveal_gate(settings, stored.key_encrypted, Ok::<String, AppError>(e)));
}

} // verus!
