//! The application store's handle.
use vstd::prelude::*;

verus! {

/// The application store, over a database handle `P`.
pub struct ApplicationRepository<P> {
    pub pool: P,
}

impl<P> ApplicationRepository<P> {
    pub fn new(pool: P) -> (r: Self)
        ensures
            r.pool == pool,
    {
        ApplicationRepository { pool }
    }
}

} // verus!
