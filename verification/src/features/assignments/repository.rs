//! The assignment store's handle.
use vstd::prelude::*;

verus! {

/// The assignment store, over a database handle `P`. Its bulk inserts record
/// each item's outcome with [`crate::features::assignments::models::BulkAssignResponse::record`].
pub struct AssignmentRepository<P> {
    pub pool: P,
}

impl<P> AssignmentRepository<P> {
    pub fn new(pool: P) -> (r: Self)
        ensures
            r.pool == pool,
    {
        AssignmentRepository { pool }
    }
}

} // verus!
