//! Delivery jobs: the stored row, what a worker reads for one attempt, the
//! response shape, the identifiers of new jobs and what a refused retry answers.
use crate::common::nano_id::{all_alphanumeric, NanoId};
use crate::common::text::concat2;
use crate::error::AppError;
use crate::features::events::models::JsonPayload;
use vstd::prelude::*;

verus! {

/// A stored delivery job. Identifiers are UUIDs as 128-bit numbers, times are
/// microseconds since the epoch.
pub struct DeliveryJobRow {
    pub id: u128,
    pub public_id: String,
    pub event_id: u128,
    pub endpoint_id: u128,
    pub organization_id: u128,
    pub status: String,
    pub attempt: i32,
    pub enqueued_at: Option<i64>,
    pub retry_after: Option<i64>,
    pub max_attempts: i32,
    pub stream_name: String,
    pub created_at: i64,
}

/// What a worker reads for one delivery attempt; the endpoint configuration is JSON text.
pub struct WorkerJob {
    pub job_id: u128,
    pub job_public_id: String,
    pub event_id: u128,
    pub endpoint_id: u128,
    pub organization_id: u128,
    pub attempt: i32,
    pub max_attempts: i32,
    pub event_public_id: String,
    pub payload: JsonPayload,
    pub tenant_id: u128,
    pub endpoint_config: String,
    pub encrypted_secret: String,
    pub rate_limit_per_minute: Option<i32>,
}

/// A delivery job as returned to callers.
pub struct DeliveryJobResponse {
    pub id: String,
    pub event_id: u128,
    pub endpoint_id: u128,
    pub organization_id: u128,
    pub status: String,
    pub attempt: i32,
    pub max_attempts: i32,
    pub retry_after: Option<i64>,
    pub enqueued_at: Option<i64>,
    pub stream_name: String,
    pub created_at: i64,
}

impl DeliveryJobResponse {
    pub fn from(r: DeliveryJobRow) -> (out: Self)
        ensures
            out.id == r.public_id,
            out.event_id == r.event_id,
            out.endpoint_id == r.endpoint_id,
            out.organization_id == r.organization_id,
            out.status == r.status,
            out.attempt == r.attempt,
            out.max_attempts == r.max_attempts,
            out.retry_after == r.retry_after,
            out.enqueued_at == r.enqueued_at,
            out.stream_name == r.stream_name,
            out.created_at == r.created_at,
    {
        DeliveryJobResponse {
            id: r.public_id,
            event_id: r.event_id,
            endpoint_id: r.endpoint_id,
            organization_id: r.organization_id,
            status: r.status,
            attempt: r.attempt,
            max_attempts: r.max_attempts,
            retry_after: r.retry_after,
            enqueued_at: r.enqueued_at,
            stream_name: r.stream_name,
            created_at: r.created_at,
        }
    }
}

/// A job the outbox poller must (re-)enqueue.
pub struct UnqueuedJob {
    pub id: u128,
    pub public_id: String,
    pub stream_name: String,
}

impl DeliveryJobRow {
    /// A fresh public id for a job: `dj_` and a 16-character alphanumeric nano id.
    pub fn new_public_id() -> (r: String)
        ensures
            exists|id: Seq<char>| id.len() == 16 && all_alphanumeric(id) && r@ == "dj_"@ + id,
    {
        let id = NanoId::new();
        let r = concat2("dj_", id.as_str());
        r
    }
}

/// What a retry of a job that could not be reset answers: a conflict when the
/// job exists (it is not failed), `NotFound` otherwise.
pub fn retry_refusal(exists: bool, public_id: &str) -> (r: AppError)
    ensures
        exists ==> (r matches AppError::Conflict(m, errs) && m@ == "delivery job is not in a retryable state"@ && errs@.len() == 0),
        !exists ==> (r matches AppError::NotFound(m) && m@ == "Delivery job not found: "@ + public_id@),
{
    if exists {
        AppError::Conflict("delivery job is not in a retryable state".to_string(), Vec::new())
    } else {
        AppError::NotFound(concat2("Delivery job not found: ", public_id))
    }
}

} // verus!
