//! The environment store's handle and what its listing decides before and after
//! the query: the filter it runs with and how the fetched rows become a page.
use crate::common::types::{kept_rows, take_page};
use crate::features::environments::models::{Environment, EnvironmentStatus};
use vstd::prelude::*;

verus! {

/// The environment store, over a database handle `P`.
pub struct EnvironmentRepository<P> {
    pub pool: P,
}

/// The filter an environment listing runs with: rows of the tenant, optionally of
/// one status and containing the given tags, with public ids after the cursor,
/// in public id order, at most `fetch_limit` of them.
pub struct EnvironmentListFilter {
    pub tenant_id: u128,
    pub status: Option<EnvironmentStatus>,
    pub tags: Option<Vec<(String, String)>>,
    pub cursor: Option<String>,
    pub fetch_limit: i64,
}

impl<P> EnvironmentRepository<P> {
    pub fn new(pool: P) -> (r: Self)
        ensures
            r.pool == pool,
    {
        EnvironmentRepository { pool }
    }

    /// The filter of a listing of at most `limit` rows: one row more is fetched
    /// so that a further page can be told apart.
    pub fn list_filter(
        tenant_id: u128,
        status: Option<EnvironmentStatus>,
        limit: i64,
        cursor: Option<String>,
        tags: Option<Vec<(String, String)>>,
    ) -> (r: EnvironmentListFilter)
        requires
            limit < i64::MAX,
        ensures
            r.tenant_id == tenant_id,
            r.status == status,
            r.tags == tags,
            r.cursor == cursor,
            r.fetch_limit == limit + 1,
    {
        EnvironmentListFilter { tenant_id, status, tags, cursor, fetch_limit: limit + 1 }
    }

    /// The page made of the fetched rows: when more than `limit` came back the
    /// last is dropped, and the next page starts after the last row kept.
    pub fn finish_page(rows: Vec<Environment>, limit: i64) -> (r: (Vec<Environment>, Option<String>))
        ensures
            r.0@ == kept_rows(rows@, limit as int),
            rows@.len() > limit && rows@.len() > 1 ==> (r.1 matches Some(c) && c@ == rows@[rows@.len() - 2].public_id@),
            !(rows@.len() > limit && rows@.len() > 1) ==> r.1 is None,
    {
        let (items, extra) = take_page(rows, limit);
        let next = if extra.is_some() && items.len() > 0 {
            Some(items[items.len() - 1].public_id.clone())
        } else {
            None
        };
        (items, next)
    }
}

} // verus!
