//! Invitation e-mail delivery; the default sender delivers nothing.
use vstd::prelude::*;

verus! {

/// A sender that skips delivery and reports success.
pub struct NoopEmailService;

impl NoopEmailService {
    /// What sending an invitation answers: always success.
    pub fn send_invite_outcome(&self) -> (r: Result<(), crate::error::AppError>)
        ensures
            r is Ok,
    {
        Ok(())
    }
}

} // verus!
