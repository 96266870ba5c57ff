//! The decisions of the event type service: the shape a schema's root must
//! have, what a missing event type answers, what a refused update answers and
//! how a listing is shaped.
use crate::common::text::concat2;
use crate::common::types::PaginatedResponse;
use crate::error::{require_found, AppError};
use crate::features::event_types::models::{EventType, EventTypeResponse, FieldType, PropertyDef};
use crate::features::event_types::repository::EventTypeRepository;
use vstd::prelude::*;

verus! {

/// The event type service, over a store `R`.
pub struct EventTypeService<R> {
    pub repo: R,
}

/// The event type service over a store on the database handle `db`.
pub fn svc<P>(db: P) -> (r: EventTypeService<EventTypeRepository<P>>)
    ensures
        r.repo.pool == db,
{
    EventTypeService::new(EventTypeRepository::new(db))
}

impl<R> EventTypeService<R> {
    pub fn new(repo: R) -> (r: Self)
        ensures
            r.repo == repo,
    {
        EventTypeService { repo }
    }

    /// An event schema's root must be an object.
    pub fn validate_schema(req_schema: &PropertyDef) -> (r: Result<(), AppError>)
        ensures
            req_schema.field_type == FieldType::Object ==> r is Ok,
            req_schema.field_type != FieldType::Object ==> (r matches Err(AppError::BadRequest(m))
                && m@ == "event_schema root must be of type 'object'"@),
    {
        if req_schema.field_type != FieldType::Object {
            return Err(AppError::BadRequest("event_schema root must be of type 'object'".to_string()));
        }
        Ok(())
    }

    /// A fetched, versioned, archived or restored event type, or `NotFound` naming it.
    pub fn require_event_type<T>(found: Option<T>, public_id: &str) -> (r: Result<T, AppError>)
        ensures
            found matches Some(x) ==> r == Ok::<T, AppError>(x),
            found is None ==> (r matches Err(AppError::NotFound(m)) && m@ == "EventType not found: "@ + public_id@),
    {
        require_found(found, "EventType not found: ", public_id)
    }

    /// What an update that changed no row answers: a version conflict when the
    /// event type still exists, `NotFound` when it does not.
    pub fn update_refusal(still_exists: bool, public_id: &str) -> (r: AppError)
        ensures
            still_exists ==> (r matches AppError::Conflict(m, errs)
                && m@ == "version mismatch \u{2014} fetch the latest version and retry"@ && errs@.len() == 0),
            !still_exists ==> (r matches AppError::NotFound(m) && m@ == "EventType not found: "@ + public_id@),
    {
        if still_exists {
            AppError::Conflict("version mismatch \u{2014} fetch the latest version and retry".to_string(), Vec::new())
        } else {
            AppError::NotFound(concat2("EventType not found: ", public_id))
        }
    }

    /// A page of event types in their response shape, with the page coordinates as asked.
    pub fn list_response(rows: Vec<EventType>, total: i64, page: i64, limit: i64) -> (r: PaginatedResponse<EventTypeResponse>)
        ensures
            r.items@.len() == rows@.len(),
            forall|i: int| 0 <= i < rows@.len() ==> (#[trigger] r.items@[i]).id == rows@[i].public_id,
            r.total == total,
            r.page == page as i32,
            r.limit == limit as i32,
    {
        let items = Self::responses(rows);
        PaginatedResponse { items, total, page: #[verifier::truncate] (page as i32), limit: #[verifier::truncate] (limit as i32) }
    }

    /// Event types in their response shape, in order.
    pub fn responses(rows: Vec<EventType>) -> (r: Vec<EventTypeResponse>)
        ensures
            r@.len() == rows@.len(),
            forall|i: int| 0 <= i < rows@.len() ==> (#[trigger] r@[i]).id == rows@[i].public_id,
    {
        let mut items: Vec<EventTypeResponse> = Vec::new();
        let mut rest = rows;
        let ghost given = rest@;
        while rest.len() > 0
            invariant
                items@.len() + rest@.len() == given.len(),
                rest@ == given.subrange(items@.len() as int, given.len() as int),
                forall|i: int| 0 <= i < items@.len() ==> (#[trigger] items@[i]).id == given[i].public_id,
            decreases rest@.len(),
        {
            let row = rest.remove(0);
            proof {
                assert(row == given[items@.len() as int]);
            }
            items.push(EventTypeResponse::from(row));
        }
        items
    }
}

} // verus!
