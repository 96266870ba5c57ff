//! The endpoint store's handle and what it decides around its queries: the
//! window of a listing, the total it reports and the plan of a partial update.
use crate::common::types::{page_window, total_of_first};
use crate::features::endpoints::models::UpdateEndpointRequest;
use vstd::prelude::*;

verus! {

/// The identity of an endpoint's application, as the store resolves it.
#[derive(Debug, Clone, Copy)]
pub struct ApplicationRef {
    pub id: u128,
    pub tenant_id: u128,
    pub organization_id: u128,
}

/// The identity of an endpoint, for operations on its secrets.
#[derive(Debug, Clone, Copy)]
pub struct EndpointMeta {
    pub id: u128,
    pub tenant_id: u128,
    pub organization_id: u128,
}

/// The endpoint store, over a database handle `P`.
pub struct EndpointRepository<P> {
    pub db: P,
}

/// A partial update as the store runs it: for each field whether to set it,
/// and the value to set (the JSON text `null` or nothing where none is given).
pub struct EndpointUpdatePlan {
    pub update_description: bool,
    pub description: Option<String>,
    pub update_config: bool,
    pub config: String,
    pub update_event_types: bool,
    pub event_types: Vec<String>,
    pub update_rate_limit: bool,
    pub rate_limit_per_minute: Option<i32>,
    pub update_tags: bool,
    pub tags: Vec<(String, String)>,
    pub version: i32,
}

impl<P> EndpointRepository<P> {
    pub fn new(db: P) -> (r: Self)
        ensures
            r.db == db,
    {
        EndpointRepository { db }
    }

    /// Limit and offset of a listing page: at most 250 rows, after the rows of the earlier pages.
    pub fn list_window(page: u32, limit: u32) -> (r: (i64, i64))
        ensures
            r.0 == (if limit < 250 { limit } else { 250 }),
            r.1 == (if page == 0 { 0 } else { page - 1 }) * r.0,
    {
        page_window(page, limit, 250)
    }

    /// The total of a listing: the count carried by its first row, 0 when there is none.
    pub fn list_total(first_count: Option<i64>) -> (r: i64)
        ensures
            r == (match first_count {
                Some(c) => c,
                None => 0,
            }),
    {
        total_of_first(first_count)
    }

    /// The plan of a partial update: a field is set exactly when the request gives it.
    pub fn update_plan(req: UpdateEndpointRequest) -> (r: EndpointUpdatePlan)
        ensures
            r.update_description == req.description is Some,
            r.description == req.description,
            r.update_config == req.config is Some,
            req.config matches Some(c) ==> r.config == c,
            req.config is None ==> r.config@ == "null"@,
            r.update_event_types == req.event_types is Some,
            req.event_types matches Some(e) ==> r.event_types == e,
            req.event_types is None ==> r.event_types@.len() == 0,
            r.update_rate_limit == req.rate_limit_per_minute is Some,
            r.rate_limit_per_minute == (match req.rate_limit_per_minute {
                Some(Some(x)) => Some(x),
                _ => None,
            }),
            r.update_tags == req.tags is Some,
            req.tags matches Some(t) ==> r.tags == t,
            req.tags is None ==> r.tags@.len() == 0,
            r.version == req.version,
    {
        let update_description = req.description.is_some();
        let update_config = req.config.is_some();
        let config = match req.config {
            Some(c) => c,
            None => "null".to_string(),
        };
        let update_event_types = req.event_types.is_some();
        let event_types = match req.event_types {
            Some(e) => e,
            None => Vec::new(),
        };
        let update_rate_limit = req.rate_limit_per_minute.is_some();
        let rate_limit_per_minute = match req.rate_limit_per_minute {
            Some(Some(x)) => Some(x),
            _ => None,
        };
        let update_tags = req.tags.is_some();
        let tags = match req.tags {
            Some(t) => t,
            None => Vec::new(),
        };
        EndpointUpdatePlan {
            update_description,
            description: req.description,
            update_config,
            config,
            update_event_types,
            event_types,
            update_rate_limit,
            rate_limit_per_minute,
            update_tags,
            tags,
            version: req.version,
        }
    }
}

} // verus!
