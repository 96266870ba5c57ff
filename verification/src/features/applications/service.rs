//! The decisions of the application service: the checks a creation request
//! faces and what a missing environment or application answers.
use crate::common::validators::{distinct_keys, tag_problem, tag_problem_message, validate_tags};
use crate::error::{require_found, AppError};
use crate::features::applications::models::CreateApplicationRequest;
use vstd::prelude::*;

verus! {

/// The application service, over a store `R`.
pub struct ApplicationService<R> {
    pub repo: R,
}

impl<R> ApplicationService<R> {
    pub fn new(repo: R) -> (r: Self)
        ensures
            r.repo == repo,
    {
        ApplicationService { repo }
    }

    /// A creation request's tags must pass the shared tag rules.
    pub fn check_create(req: &CreateApplicationRequest) -> (r: Result<(), AppError>)
        requires
            distinct_keys(req.tags@),
        ensures
            tag_problem(req.tags@, 5, 64, 255) is None ==> r is Ok,
            tag_problem(req.tags@, 5, 64, 255) matches Some(p) ==> (r matches Err(AppError::BadRequest(m))
                && m@ == tag_problem_message(p)),
    {
        validate_tags(&req.tags)
    }

    /// The internal id of the request's environment, or `NotFound` naming it.
    pub fn require_environment(found: Option<u128>, environment_id: &str) -> (r: Result<u128, AppError>)
        ensures
            found matches Some(id) ==> r == Ok::<u128, AppError>(id),
            found is None ==> (r matches Err(AppError::NotFound(m)) && m@ == "Environment not found: "@ + environment_id@),
    {
        require_found(found, "Environment not found: ", environment_id)
    }

    /// A fetched or restored application, or `NotFound` naming it.
    pub fn require_application<T>(found: Option<T>, public_id: &str) -> (r: Result<T, AppError>)
        ensures
            found matches Some(x) ==> r == Ok::<T, AppError>(x),
            found is None ==> (r matches Err(AppError::NotFound(m)) && m@ == "Application not found: "@ + public_id@),
    {
        require_found(found, "Application not found: ", public_id)
    }
}

} // verus!
