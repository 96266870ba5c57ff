//! The event store's handle and what its listing decides around the query:
//! the window of rows it reads and the total it reports.
use crate::common::types::{page_window, total_of_first};
use vstd::prelude::*;

verus! {

/// The identity of an event's application, as the store resolves it.
#[derive(Debug, Clone, Copy)]
pub struct ApplicationRef {
    pub id: u128,
    pub tenant_id: u128,
    pub organization_id: u128,
}

/// The event type version an event is checked against: its id, its schema as
/// JSON Schema text and its version label.
pub struct EventTypeRef {
    pub id: u128,
    pub schema_json: String,
    pub schema_version: String,
}

/// The event store, over a database handle `P`.
pub struct EventRepository<P> {
    pub db: P,
}

impl<P> EventRepository<P> {
    pub fn new(db: P) -> (r: Self)
        ensures
            r.db == db,
    {
        EventRepository { db }
    }

    /// Limit and offset of a listing page: at most 100 rows, after the rows of the earlier pages.
    pub fn list_window(page: u32, limit: u32) -> (r: (i64, i64))
        ensures
            r.0 == (if limit < 100 { limit } else { 100 }),
            r.1 == (if page == 0 { 0 } else { page - 1 }) * r.0,
    {
        page_window(page, limit, 100)
    }

    /// The total of a listing: the count carried by its first row, 0 when there is none.
    pub fn list_total(first_count: Option<i64>) -> (r: i64)
        ensures
            r == (match first_count {
                Some(c) => c,
                None => 0,
            }),
    {
        total_of_first(first_count)
    }
}

} // verus!
