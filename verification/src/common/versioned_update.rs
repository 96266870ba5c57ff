//! Updating a versioned record, as a state machine: the request's own checks
//! come first, then the update guarded by the version; when it changed no row,
//! a lookup tells a stale version (a conflict) from a missing record.
use crate::error::AppError;
use crate::features::endpoints::service::EndpointService;
use crate::features::event_types::service::EventTypeService;
use vstd::prelude::*;

verus! {

/// The kind of record being updated.
#[derive(Debug, PartialEq, Eq, Structural, Clone, Copy)]
pub enum UpdatedResource {
    Endpoint,
    EventType,
}

/// Where an update stands.
#[derive(Debug, PartialEq, Eq, Structural, Clone, Copy)]
pub enum UpdateStep {
    Begin,
    AwaitUpdate,
    AwaitLookup,
    Done,
}

/// What the last action brought back.
pub enum VersionedUpdateInput<T> {
    /// The outcome of the request's own checks.
    Checked(Result<(), AppError>),
    /// The updated record, or none when no row matched the id and version.
    Updated(Result<Option<T>, AppError>),
    /// Whether a live record with the id exists.
    Found(Result<bool, AppError>),
}

/// What the caller is to do next.
pub enum VersionedUpdateAction<T> {
    /// Run the update guarded by the version.
    Update,
    /// Look up whether the record exists.
    Lookup,
    /// Answer.
    Respond(Result<T, AppError>),
}

/// One update of the record `public_id`.
pub struct VersionedUpdateFlow {
    pub resource: UpdatedResource,
    pub public_id: String,
    pub step: UpdateStep,
}

/// The message of a record that does not exist starts with this.
pub open spec fn not_found_prefix(resource: UpdatedResource) -> Seq<char> {
    match resource {
        UpdatedResource::Endpoint => "Endpoint not found: "@,
        UpdatedResource::EventType => "EventType not found: "@,
    }
}

/// What an update that changed no row answers: a version conflict when the
/// record still exists, `NotFound` when it does not.
pub open spec fn refusal_of(resource: UpdatedResource, still_exists: bool, public_id: Seq<char>, e: AppError) -> bool {
    if still_exists {
        e matches AppError::Conflict(m, errs) && m@ == "version mismatch \u{2014} fetch the latest version and retry"@
            && errs@.len() == 0
    } else {
        e matches AppError::NotFound(m) && m@ == not_found_prefix(resource) + public_id
    }
}

/// Whether `input` is what `step` waits for.
pub open spec fn update_expects<T>(step: UpdateStep, input: VersionedUpdateInput<T>) -> bool {
    match step {
        UpdateStep::Begin => input is Checked,
        UpdateStep::AwaitUpdate => input is Updated,
        UpdateStep::AwaitLookup => input is Found,
        UpdateStep::Done => false,
    }
}

/// The step of the update of `flow` on `input` to `step` with `action`.
pub open spec fn update_transition<T>(
    flow: VersionedUpdateFlow,
    input: VersionedUpdateInput<T>,
    step: UpdateStep,
    action: VersionedUpdateAction<T>,
) -> bool {
    match input {
        VersionedUpdateInput::Checked(Err(e)) => step == UpdateStep::Done && action == VersionedUpdateAction::<T>::Respond(Err(e)),
        VersionedUpdateInput::Checked(Ok(())) => step == UpdateStep::AwaitUpdate && action is Update,
        VersionedUpdateInput::Updated(Err(e)) => step == UpdateStep::Done && action == VersionedUpdateAction::<T>::Respond(Err(e)),
        VersionedUpdateInput::Updated(Ok(Some(row))) => step == UpdateStep::Done
            && action == VersionedUpdateAction::<T>::Respond(Ok(row)),
        VersionedUpdateInput::Updated(Ok(None)) => step == UpdateStep::AwaitLookup && action is Lookup,
        VersionedUpdateInput::Found(Err(e)) => step == UpdateStep::Done && action == VersionedUpdateAction::<T>::Respond(Err(e)),
        VersionedUpdateInput::Found(Ok(exists)) => {
            &&& step == UpdateStep::Done
            &&& action matches VersionedUpdateAction::Respond(Err(e)) && refusal_of(flow.resource, exists, flow.public_id@, e)
        },
    }
}

impl VersionedUpdateFlow {
    /// An update of the `resource` record `public_id`, before its checks.
    pub fn new(resource: UpdatedResource, public_id: String) -> (r: Self)
        ensures
            r.resource == resource,
            r.public_id == public_id,
            r.step == UpdateStep::Begin,
    {
        VersionedUpdateFlow { resource, public_id, step: UpdateStep::Begin }
    }

    /// Takes what the last action brought back and gives the next action; the
    /// flow answers after at most three steps.
    pub fn advance<T>(&mut self, input: VersionedUpdateInput<T>) -> (action: VersionedUpdateAction<T>)
        requires
            update_expects(old(self).step, input),
        ensures
            final(self).resource == old(self).resource,
            final(self).public_id == old(self).public_id,
            update_transition(*old(self), input, final(self).step, action),
            action is Respond <==> final(self).step == UpdateStep::Done,
    {
        match input {
            VersionedUpdateInput::Checked(Err(e)) => {
                self.step = UpdateStep::Done;
                VersionedUpdateAction::Respond(Err(e))
            },
            VersionedUpdateInput::Checked(Ok(())) => {
                self.step = UpdateStep::AwaitUpdate;
                VersionedUpdateAction::Update
            },
            VersionedUpdateInput::Updated(Err(e)) => {
                self.step = UpdateStep::Done;
                VersionedUpdateAction::Respond(Err(e))
            },
            VersionedUpdateInput::Updated(Ok(Some(row))) => {
                self.step = UpdateStep::Done;
                VersionedUpdateAction::Respond(Ok(row))
            },
            VersionedUpdateInput::Updated(Ok(None)) => {
                self.step = UpdateStep::AwaitLookup;
                VersionedUpdateAction::Lookup
            },
            VersionedUpdateInput::Found(Err(e)) => {
                self.step = UpdateStep::Done;
                VersionedUpdateAction::Respond(Err(e))
            },
            VersionedUpdateInput::Found(Ok(exists)) => {
                self.step = UpdateStep::Done;
                let e = match self.resource {
                    UpdatedResource::Endpoint => EndpointService::<()>::update_refusal(exists, self.public_id.as_str()),
                    UpdatedResource::EventType => EventTypeService::<()>::update_refusal(exists, self.public_id.as_str()),
                };
                VersionedUpdateAction::Respond(Err(e))
            },
        }
    }
}

} // verus!
