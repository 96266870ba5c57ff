//! The decisions of the environment service: which tags are checked and stored,
//! how listings are bounded and what a missing environment or tenant answers.
use crate::common::types::clamp_limit;
use crate::common::validators::{distinct_keys, tag_problem, tag_problem_message, validate_tags};
use crate::error::{require_found, AppError};
use crate::features::environments::repository::EnvironmentRepository;
use crate::features::environments::models::{EnvironmentResponse, Environment, ListEnvironmentsResponse};
use vstd::prelude::*;

verus! {

/// The environment service, over a store `R`.
pub struct EnvironmentService<R> {
    pub repo: R,
}

/// What checking optional tags answers: nothing to check when there are none,
/// otherwise what `validate_tags` answers.
pub open spec fn optional_tags_outcome(tags: Option<Vec<(String, String)>>, r: Result<(), AppError>) -> bool {
    match tags {
        None => r is Ok,
        Some(t) => {
            &&& tag_problem(t@, 5, 64, 255) is None ==> r is Ok
            &&& tag_problem(t@, 5, 64, 255) matches Some(p) ==> (r matches Err(AppError::BadRequest(m)) && m@ == tag_problem_message(p))
        },
    }
}

/// Tags given as a filter: kept only when there is at least one.
pub open spec fn tag_filter(tags: Option<Vec<(String, String)>>) -> Option<Vec<(String, String)>> {
    match tags {
        Some(t) => if t@.len() > 0 { Some(t) } else { None },
        None => None,
    }
}

/// The environment service over a store on the database handle `db`.
pub fn make_svc<P>(db: P) -> (r: EnvironmentService<EnvironmentRepository<P>>)
    ensures
        r.repo.pool == db,
{
    EnvironmentService::new(EnvironmentRepository::new(db))
}

impl<R> EnvironmentService<R> {
    pub fn new(repo: R) -> (r: Self)
        ensures
            r.repo == repo,
    {
        EnvironmentService { repo }
    }

    /// The internal id of the tenant an environment is created in, or `NotFound` naming it.
    pub fn require_tenant(found: Option<u128>, tenant_id: &str) -> (r: Result<u128, AppError>)
        ensures
            found matches Some(id) ==> r == Ok::<u128, AppError>(id),
            found is None ==> (r matches Err(AppError::NotFound(m)) && m@ == "Tenant not found: "@ + tenant_id@),
    {
        require_found(found, "Tenant not found: ", tenant_id)
    }

    /// A fetched, updated, enabled or disabled environment, or `NotFound` naming it.
    pub fn require_environment<T>(found: Option<T>, public_id: &str) -> (r: Result<T, AppError>)
        ensures
            found matches Some(x) ==> r == Ok::<T, AppError>(x),
            found is None ==> (r matches Err(AppError::NotFound(m)) && m@ == "environment not found: "@ + public_id@),
    {
        require_found(found, "environment not found: ", public_id)
    }

    /// Tags, when a request carries them, must pass the shared tag rules.
    pub fn check_tags(tags: &Option<Vec<(String, String)>>) -> (r: Result<(), AppError>)
        requires
            tags matches Some(t) ==> distinct_keys(t@),
        ensures
            optional_tags_outcome(*tags, r),
    {
        match tags {
            Some(t) => validate_tags(t),
            None => Ok(()),
        }
    }

    /// The tags that are stored: those given, or none.
    pub fn stored_tags(tags: Option<Vec<(String, String)>>) -> (r: Vec<(String, String)>)
        ensures
            tags matches Some(t) ==> r == t,
            tags is None ==> r@.len() == 0,
    {
        match tags {
            Some(t) => t,
            None => Vec::new(),
        }
    }

    /// The tag filter of a listing: none when the given tags are absent or empty.
    pub fn list_tags(tags: Option<Vec<(String, String)>>) -> (r: Option<Vec<(String, String)>>)
        ensures
            r == tag_filter(tags),
    {
        match tags {
            Some(t) => if t.len() > 0 { Some(t) } else { None },
            None => None,
        }
    }

    /// The page size of a listing: 20 by default, otherwise within `1..=100`.
    pub fn list_limit(limit: Option<i64>) -> (r: i64)
        ensures
            limit is None ==> r == 20,
            limit matches Some(l) ==> r == (if l < 1 { 1 } else if l > 100 { 100 } else { l }),
    {
        clamp_limit(limit)
    }

    /// The response of a listing: each environment in its response shape, in order.
    pub fn list_response(envs: Vec<Environment>, next_cursor: Option<String>, limit: i64) -> (r: ListEnvironmentsResponse)
        ensures
            r.items@.len() == envs@.len(),
            forall|i: int| 0 <= i < envs@.len() ==> r.items@[i].id == #[trigger] envs@[i].public_id,
            r.next_cursor == next_cursor,
            r.limit == limit,
    {
        let mut items: Vec<EnvironmentResponse> = Vec::new();
        let mut rest = envs;
        let ghost given = rest@;
        while rest.len() > 0
            invariant
                items@.len() + rest@.len() == given.len(),
                rest@ == given.subrange(items@.len() as int, given.len() as int),
                forall|i: int| 0 <= i < items@.len() ==> items@[i].id == #[trigger] given[i].public_id,
            decreases rest@.len(),
        {
            let e = rest.remove(0);
            proof {
                assert(e == given[items@.len() as int]);
            }
            items.push(EnvironmentResponse::from(e));
        }
        ListEnvironmentsResponse { items, next_cursor, limit }
    }
}

} // verus!
