//! The event type store's handle and what its listing decides around the query.
use crate::common::types::total_of_first;
use vstd::prelude::*;

verus! {

/// The event type store, over a database handle `P`.
pub struct EventTypeRepository<P> {
    pub pool: P,
}

impl<P> EventTypeRepository<P> {
    pub fn new(pool: P) -> (r: Self)
        ensures
            r.pool == pool,
    {
        EventTypeRepository { pool }
    }

    /// The offset of a listing page: the rows of the pages before `page` (numbered from 1).
    pub fn list_offset(page: i64, limit: i64) -> (r: i64)
        requires
            i64::MIN <= (page - 1) * limit <= i64::MAX,
        ensures
            r == (page - 1) * limit,
    {
        let before: i128 = page as i128 - 1;
        let product: i128 = before * (limit as i128);
        product as i64
    }

    /// The total of a listing: the count carried by its first row, 0 when there is none.
    pub fn list_total(first_count: Option<i64>) -> (r: i64)
        ensures
            r == (match first_count {
                Some(c) => c,
                None => 0,
            }),
    {
        total_of_first(first_count)
    }
}

} // verus!
