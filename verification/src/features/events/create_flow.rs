//! The steps of publishing one event, as a state machine: each call takes what
//! the last action brought back and gives the next action, until the flow
//! answers. The caller performs the actions (store lookups, the idempotency
//! lock, the insert, the delivery fan-out) and feeds their results back.
use crate::common::codec::sha256;
use crate::common::idempotency::body_hash_bytes;
use crate::common::validators::distinct_keys;
use crate::common::text::concat2;
use crate::error::AppError;
use crate::features::events::models::{
    event_response_of, CreateEventRequest, EventResponse, EventRow, JsonPayload, PayloadType, SchemaError,
};
use crate::features::events::repository::{ApplicationRef, EventTypeRef};
use crate::features::events::service::{replay_of, request_check_of, schema_check_of, EventService};
use vstd::prelude::*;

verus! {

/// What the store is asked to insert for a new event.
pub struct NewEvent {
    pub application: ApplicationRef,
    pub event_type_id: u128,
    pub payload: JsonPayload,
    pub payload_type: PayloadType,
    pub tags: Vec<(String, String)>,
    pub idempotency_key: Option<String>,
    pub body_hash: Option<Vec<u8>>,
    pub schema_valid: bool,
    pub schema_errors: Vec<SchemaError>,
}

/// An idempotency lock that is held: the key and the token it was taken with.
pub struct HeldLock {
    pub key: String,
    pub token: String,
}

/// Where a publication stands.
pub enum CreateEventStep {
    Begin,
    AwaitApplication,
    AwaitEventType { application: ApplicationRef },
    AwaitLock { event: NewEvent, key: String },
    AwaitExisting { event: NewEvent, lock: HeldLock },
    AwaitInsert { event_type_id: u128, application: ApplicationRef, lock: Option<HeldLock> },
    AwaitEnqueue { response: EventResponse, lock: Option<HeldLock> },
    AwaitRelease { outcome: Result<(EventResponse, bool), AppError> },
    Done,
}

/// What the last action brought back.
pub enum CreateEventInput {
    Start,
    Application(Result<Option<ApplicationRef>, AppError>),
    EventType(Result<Option<EventTypeRef>, AppError>),
    Locked(Result<String, AppError>),
    Existing(Result<Option<EventRow>, AppError>),
    Inserted(Result<EventRow, AppError>),
    Enqueued,
    Released,
}

/// What the caller is to do next.
pub enum CreateEventAction {
    /// Look up the live application with this public id.
    FetchApplication { application_id: String },
    /// Look up the live event type version named by the request in the tenant.
    FetchEventType { event_type_id: String, tenant_id: u128, schema_version: Option<String> },
    /// Take the idempotency lock on the key in the `events` namespace.
    AcquireLock { key: String },
    /// Look up an event of the application stored under the key within its lifetime.
    FindExisting { application_id: u128, key: String },
    /// Insert the event.
    Insert(NewEvent),
    /// Queue deliveries of the event to the endpoints subscribed to its type.
    EnqueueDeliveries { event_id: u128, event_type_id: u128, application_id: u128, organization_id: u128 },
    /// Release the idempotency lock.
    ReleaseLock { key: String, token: String },
    /// Answer: the event and whether it was newly created, or the error.
    Respond(Result<(EventResponse, bool), AppError>),
}

/// One publication: the request, its idempotency key, the hash of its body and where it stands.
pub struct CreateEventFlow {
    pub req: CreateEventRequest,
    pub idempotency_key: Option<String>,
    pub body_hash: Vec<u8>,
    pub step: CreateEventStep,
}

/// Whether `input` is what `step` waits for.
pub open spec fn expects(step: CreateEventStep, input: CreateEventInput) -> bool {
    match step {
        CreateEventStep::Begin => input is Start,
        CreateEventStep::AwaitApplication => input is Application,
        CreateEventStep::AwaitEventType { .. } => input is EventType,
        CreateEventStep::AwaitLock { .. } => input is Locked,
        CreateEventStep::AwaitExisting { .. } => input is Existing,
        CreateEventStep::AwaitInsert { .. } => input is Inserted,
        CreateEventStep::AwaitEnqueue { .. } => input is Enqueued,
        CreateEventStep::AwaitRelease { .. } => input is Released,
        CreateEventStep::Done => false,
    }
}

/// Whether the idempotency lock is held at `step`.
pub open spec fn holds_lock(step: CreateEventStep) -> bool {
    match step {
        CreateEventStep::AwaitExisting { .. } => true,
        CreateEventStep::AwaitInsert { lock, .. } => lock is Some,
        CreateEventStep::AwaitEnqueue { lock, .. } => lock is Some,
        _ => false,
    }
}

/// The lock held at `step`, if any.
pub open spec fn held_lock(step: CreateEventStep) -> Option<HeldLock> {
    match step {
        CreateEventStep::AwaitExisting { lock, .. } => Some(lock),
        CreateEventStep::AwaitInsert { lock, .. } => lock,
        CreateEventStep::AwaitEnqueue { lock, .. } => lock,
        _ => None,
    }
}

/// How many steps at most remain before the flow answers.
pub open spec fn rank(step: CreateEventStep) -> nat {
    match step {
        CreateEventStep::Begin => 8,
        CreateEventStep::AwaitApplication => 7,
        CreateEventStep::AwaitEventType { .. } => 6,
        CreateEventStep::AwaitLock { .. } => 5,
        CreateEventStep::AwaitExisting { .. } => 4,
        CreateEventStep::AwaitInsert { .. } => 3,
        CreateEventStep::AwaitEnqueue { .. } => 2,
        CreateEventStep::AwaitRelease { .. } => 1,
        CreateEventStep::Done => 0,
    }
}

/// The event a request becomes once its application and event type are known,
/// with the outcome `schema` of its schema check.
pub open spec fn new_event_of(
    req: CreateEventRequest,
    key: Option<String>,
    hash: Seq<u8>,
    application: ApplicationRef,
    et: EventTypeRef,
    e: NewEvent,
) -> bool {
    &&& e.application == application
    &&& e.event_type_id == et.id
    &&& e.payload == req.payload
    &&& e.payload_type == req.payload_type
    &&& e.tags@ == req.tags@
    &&& e.idempotency_key == key
    &&& (key is Some ==> (e.body_hash matches Some(h) && h@ == hash))
    &&& (key is None ==> e.body_hash is None)
    &&& schema_check_of(req.payload_type, et.schema_json@, req.payload, (e.schema_valid, e.schema_errors))
}

/// An answer that ends the flow: the step is done and `action` responds with `r`.
pub open spec fn answers_with(step: CreateEventStep, action: CreateEventAction, r: Result<(EventResponse, bool), AppError>) -> bool {
    step is Done && action == CreateEventAction::Respond(r)
}

/// A lock release that leaves `outcome` to answer with.
pub open spec fn releases_then(
    lock: HeldLock,
    outcome: Result<(EventResponse, bool), AppError>,
    step: CreateEventStep,
    action: CreateEventAction,
) -> bool {
    &&& action == (CreateEventAction::ReleaseLock { key: lock.key, token: lock.token })
    &&& step == (CreateEventStep::AwaitRelease { outcome })
}

/// The transition of a flow at `old` on `input` to `step` with `action`.
pub open spec fn transition(old: CreateEventFlow, input: CreateEventInput, step: CreateEventStep, action: CreateEventAction) -> bool {
    let req = old.req;
    match old.step {
        CreateEventStep::Begin => {
            ||| exists|e: AppError| request_check_of(req, Err(e)) && #[trigger] answers_with(step, action, Err(e))
            ||| (request_check_of(req, Ok(())) && step is AwaitApplication
                && action == (CreateEventAction::FetchApplication { application_id: req.application_id }))
        },
        CreateEventStep::AwaitApplication => match input {
            CreateEventInput::Application(Err(e)) => answers_with(step, action, Err(e)),
            CreateEventInput::Application(Ok(None)) => step is Done && (action matches CreateEventAction::Respond(Err(AppError::NotFound(m)))
                && m@ == "Application not found: "@ + req.application_id@),
            CreateEventInput::Application(Ok(Some(app))) => {
                &&& step == (CreateEventStep::AwaitEventType { application: app })
                &&& action == (CreateEventAction::FetchEventType {
                    event_type_id: req.event_type_id,
                    tenant_id: app.tenant_id,
                    schema_version: req.schema_version,
                })
            },
            _ => false,
        },
        CreateEventStep::AwaitEventType { application } => match input {
            CreateEventInput::EventType(Err(e)) => answers_with(step, action, Err(e)),
            CreateEventInput::EventType(Ok(None)) => step is Done && (action matches CreateEventAction::Respond(Err(AppError::NotFound(m)))
                && m@ == "Event type not found or archived: "@ + req.event_type_id@),
            CreateEventInput::EventType(Ok(Some(et))) => match old.idempotency_key {
                Some(k) => step matches CreateEventStep::AwaitLock { event, key } && key == k
                    && new_event_of(req, old.idempotency_key, sha256_of(old), application, et, event)
                    && action == (CreateEventAction::AcquireLock { key: k }),
                None => action matches CreateEventAction::Insert(event)
                    && new_event_of(req, None, sha256_of(old), application, et, event)
                    && step == (CreateEventStep::AwaitInsert { event_type_id: et.id, application, lock: None }),
            },
            _ => false,
        },
        CreateEventStep::AwaitLock { event, key } => match input {
            CreateEventInput::Locked(Err(e)) => answers_with(step, action, Err(e)),
            CreateEventInput::Locked(Ok(token)) => {
                &&& step == (CreateEventStep::AwaitExisting { event, lock: HeldLock { key, token } })
                &&& action == (CreateEventAction::FindExisting { application_id: event.application.id, key })
            },
            _ => false,
        },
        CreateEventStep::AwaitExisting { event, lock } => match input {
            CreateEventInput::Existing(Err(e)) => releases_then(lock, Err(e), step, action),
            CreateEventInput::Existing(Ok(Some(row))) => {
                exists|outcome: Result<(EventResponse, bool), AppError>| releases_then(lock, outcome, step, action)
                    && #[trigger] replay_outcome(row, sha256_of(old), outcome)
            },
            CreateEventInput::Existing(Ok(None)) => {
                &&& step == (CreateEventStep::AwaitInsert {
                    event_type_id: event.event_type_id,
                    application: event.application,
                    lock: Some(lock),
                })
                &&& action == CreateEventAction::Insert(event)
            },
            _ => false,
        },
        CreateEventStep::AwaitInsert { event_type_id, application, lock } => match input {
            CreateEventInput::Inserted(Err(e)) => match lock {
                Some(l) => releases_then(l, Err(e), step, action),
                None => answers_with(step, action, Err(e)),
            },
            CreateEventInput::Inserted(Ok(row)) => {
                &&& step == (CreateEventStep::AwaitEnqueue { response: event_response_of(row), lock })
                &&& action == (CreateEventAction::EnqueueDeliveries {
                    event_id: row.id,
                    event_type_id,
                    application_id: application.id,
                    organization_id: row.organization_id,
                })
            },
            _ => false,
        },
        CreateEventStep::AwaitEnqueue { response, lock } => match lock {
            Some(l) => releases_then(l, Ok((response, true)), step, action),
            None => answers_with(step, action, Ok((response, true))),
        },
        CreateEventStep::AwaitRelease { outcome } => answers_with(step, action, outcome),
        CreateEventStep::Done => false,
    }
}

/// The body hash the flow compares and stores.
pub open spec fn sha256_of(flow: CreateEventFlow) -> Seq<u8> {
    flow.body_hash@
}

/// The outcome of finding `row` under the key: a replay of it (not newly
/// created) when the body hashes match, a conflict otherwise.
pub open spec fn replay_outcome(row: EventRow, hash: Seq<u8>, outcome: Result<(EventResponse, bool), AppError>) -> bool {
    if row.body_hash matches Some(h) && h@ == hash {
        outcome == Ok::<(EventResponse, bool), AppError>((event_response_of(row), false))
    } else {
        outcome matches Err(AppError::Conflict(m, errs)) && m@ == "Idempotency key already used with a different request body"@
            && errs@.len() == 0
    }
}

impl CreateEventFlow {
    /// A publication of `req`, with its idempotency key and the canonical JSON of its body.
    pub fn new(req: CreateEventRequest, idempotency_key: Option<String>, request_json: &[u8]) -> (r: Self)
        ensures
            r.req == req,
            r.idempotency_key == idempotency_key,
            r.body_hash@ == sha256(request_json@),
            r.step is Begin,
    {
        CreateEventFlow { req, idempotency_key, body_hash: body_hash_bytes(request_json), step: CreateEventStep::Begin }
    }

    /// Takes what the last action brought back and gives the next action.
    /// The flow answers after at most eight steps; a lock it took is released
    /// before it answers, and only when it answers is the flow done.
    pub fn advance(&mut self, input: CreateEventInput) -> (action: CreateEventAction)
        requires
            expects(old(self).step, input),
            distinct_keys(old(self).req.tags@),
        ensures
            final(self).req == old(self).req,
            final(self).idempotency_key == old(self).idempotency_key,
            final(self).body_hash == old(self).body_hash,
            transition(*old(self), input, final(self).step, action),
            rank(final(self).step) < rank(old(self).step),
            action is Respond <==> final(self).step is Done,
            action is Respond ==> !holds_lock(old(self).step),
            holds_lock(old(self).step) && !holds_lock(final(self).step) ==> (action matches CreateEventAction::ReleaseLock { key, token }
                && held_lock(old(self).step) == Some(HeldLock { key, token })),
            !holds_lock(old(self).step) && holds_lock(final(self).step) ==> (old(self).step is AwaitLock && input matches CreateEventInput::Locked(Ok(_))),
    {
        let ghost before = *self;
        let mut step = CreateEventStep::Done;
        std::mem::swap(&mut step, &mut self.step);
        assert(step == before.step);
        match step {
            CreateEventStep::Begin => {
                match EventService::<(), (), (), ()>::check_request(&self.req) {
                    Err(e) => {
                        assert(answers_with(CreateEventStep::Done, CreateEventAction::Respond(Err(e)), Err(e)));
                        CreateEventAction::Respond(Err(e))
                    },
                    Ok(()) => {
                        self.step = CreateEventStep::AwaitApplication;
                        CreateEventAction::FetchApplication { application_id: self.req.application_id.clone() }
                    },
                }
            },
            CreateEventStep::AwaitApplication => match input {
                CreateEventInput::Application(Err(e)) => CreateEventAction::Respond(Err(e)),
                CreateEventInput::Application(Ok(None)) => CreateEventAction::Respond(Err(AppError::NotFound(
                    concat2("Application not found: ", self.req.application_id.as_str()),
                ))),
                CreateEventInput::Application(Ok(Some(app))) => {
                    self.step = CreateEventStep::AwaitEventType { application: app };
                    CreateEventAction::FetchEventType {
                        event_type_id: self.req.event_type_id.clone(),
                        tenant_id: app.tenant_id,
                        schema_version: self.req.schema_version.clone(),
                    }
                },
                _ => {
                    proof {
                        assert(false);
                    }
                    CreateEventAction::Respond(Err(AppError::Internal(String::new())))
                },
            },
            CreateEventStep::AwaitEventType { application } => match input {
                CreateEventInput::EventType(Err(e)) => CreateEventAction::Respond(Err(e)),
                CreateEventInput::EventType(Ok(None)) => CreateEventAction::Respond(Err(AppError::NotFound(
                    concat2("Event type not found or archived: ", self.req.event_type_id.as_str()),
                ))),
                CreateEventInput::EventType(Ok(Some(et))) => {
                    let (schema_valid, schema_errors) = EventService::<(), (), (), ()>::schema_check(
                        &self.req.payload_type,
                        et.schema_json.as_str(),
                        &self.req.payload,
                    );
                    let (key, hash) = match &self.idempotency_key {
                        Some(k) => (Some(k.clone()), Some(copy_bytes(&self.body_hash))),
                        None => (None, None),
                    };
                    let event = NewEvent {
                        application,
                        event_type_id: et.id,
                        payload: self.req.payload.duplicate(),
                        payload_type: self.req.payload_type,
                        tags: copy_pairs(&self.req.tags),
                        idempotency_key: key,
                        body_hash: hash,
                        schema_valid,
                        schema_errors,
                    };
                    match &self.idempotency_key {
                        Some(k) => {
                            self.step = CreateEventStep::AwaitLock { event, key: k.clone() };
                            CreateEventAction::AcquireLock { key: k.clone() }
                        },
                        None => {
                            self.step = CreateEventStep::AwaitInsert { event_type_id: et.id, application, lock: None };
                            CreateEventAction::Insert(event)
                        },
                    }
                },
                _ => {
                    proof {
                        assert(false);
                    }
                    CreateEventAction::Respond(Err(AppError::Internal(String::new())))
                },
            },
            CreateEventStep::AwaitLock { event, key } => match input {
                CreateEventInput::Locked(Err(e)) => CreateEventAction::Respond(Err(e)),
                CreateEventInput::Locked(Ok(token)) => {
                    let application_id = event.application.id;
                    let action = CreateEventAction::FindExisting { application_id, key: key.clone() };
                    self.step = CreateEventStep::AwaitExisting { event, lock: HeldLock { key, token } };
                    action
                },
                _ => {
                    proof {
                        assert(false);
                    }
                    CreateEventAction::Respond(Err(AppError::Internal(String::new())))
                },
            },
            CreateEventStep::AwaitExisting { event, lock } => match input {
                CreateEventInput::Existing(Err(e)) => {
                    let action = CreateEventAction::ReleaseLock { key: lock.key, token: lock.token };
                    self.step = CreateEventStep::AwaitRelease { outcome: Err(e) };
                    action
                },
                CreateEventInput::Existing(Ok(Some(row))) => {
                    let ghost found = row;
                    let outcome = match EventService::<(), (), (), ()>::replay_decision(Some(row), self.body_hash.as_slice()) {
                        Ok(Some(resp)) => Ok((resp, false)),
                        Ok(None) => {
                            proof {
                                assert(false);
                            }
                            Err(AppError::Internal(String::new()))
                        },
                        Err(e) => Err(e),
                    };
                    assert(replay_outcome(found, sha256_of(before), outcome));
                    let action = CreateEventAction::ReleaseLock { key: lock.key, token: lock.token };
                    self.step = CreateEventStep::AwaitRelease { outcome };
                    action
                },
                CreateEventInput::Existing(Ok(None)) => {
                    self.step = CreateEventStep::AwaitInsert {
                        event_type_id: event.event_type_id,
                        application: event.application,
                        lock: Some(lock),
                    };
                    CreateEventAction::Insert(event)
                },
                _ => {
                    proof {
                        assert(false);
                    }
                    CreateEventAction::Respond(Err(AppError::Internal(String::new())))
                },
            },
            CreateEventStep::AwaitInsert { event_type_id, application, lock } => match input {
                CreateEventInput::Inserted(Err(e)) => match lock {
                    Some(l) => {
                        let action = CreateEventAction::ReleaseLock { key: l.key, token: l.token };
                        self.step = CreateEventStep::AwaitRelease { outcome: Err(e) };
                        action
                    },
                    None => CreateEventAction::Respond(Err(e)),
                },
                CreateEventInput::Inserted(Ok(row)) => {
                    let action = CreateEventAction::EnqueueDeliveries {
                        event_id: row.id,
                        event_type_id,
                        application_id: application.id,
                        organization_id: row.organization_id,
                    };
                    self.step = CreateEventStep::AwaitEnqueue { response: EventResponse::from(row), lock };
                    action
                },
                _ => {
                    proof {
                        assert(false);
                    }
                    CreateEventAction::Respond(Err(AppError::Internal(String::new())))
                },
            },
            CreateEventStep::AwaitEnqueue { response, lock } => match lock {
                Some(l) => {
                    let action = CreateEventAction::ReleaseLock { key: l.key, token: l.token };
                    self.step = CreateEventStep::AwaitRelease { outcome: Ok((response, true)) };
                    action
                },
                None => CreateEventAction::Respond(Ok((response, true))),
            },
            CreateEventStep::AwaitRelease { outcome } => CreateEventAction::Respond(outcome),
            CreateEventStep::Done => {
                proof {
                    assert(false);
                }
                CreateEventAction::Respond(Err(AppError::Internal(String::new())))
            },
        }
    }
}

/// A copy of a byte string.
fn copy_bytes(v: &Vec<u8>) -> (r: Vec<u8>)
    ensures
        r@ == v@,
{
    let mut out: Vec<u8> = Vec::new();
    let mut i: usize = 0;
    while i < v.len()
        invariant
            i <= v@.len(),
            out@ == v@.subrange(0, i as int),
        decreases v@.len() - i,
    {
        out.push(v[i]);
        i = i + 1;
        assert(out@ =~= v@.subrange(0, i as int));
    }
    assert(v@.subrange(0, v@.len() as int) =~= v@);
    out
}

/// A copy of a list of key-value pairs.
pub(crate) fn copy_pairs(v: &Vec<(String, String)>) -> (r: Vec<(String, String)>)
    ensures
        r@ == v@,
{
    let mut out: Vec<(String, String)> = Vec::new();
    let mut i: usize = 0;
    while i < v.len()
        invariant
            i <= v@.len(),
            out@ == v@.subrange(0, i as int),
        decreases v@.len() - i,
    {
        let pair = (v[i].0.clone(), v[i].1.clone());
        out.push(pair);
        i = i + 1;
        assert(out@ =~= v@.subrange(0, i as int));
    }
    assert(v@.subrange(0, v@.len() as int) =~= v@);
    out
}

} // verus!
