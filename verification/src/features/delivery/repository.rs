//! The delivery store's handle and the tier a lookup of an organization gives.
use crate::error::AppError;
use vstd::prelude::*;

verus! {

/// The delivery store, over a database handle `P`.
pub struct DeliveryRepository<P> {
    pub db: P,
}

impl<P> DeliveryRepository<P> {
    pub fn new(db: P) -> (r: Self)
        ensures
            r.db == db,
    {
        DeliveryRepository { db }
    }

    /// An organization's delivery tier from its lookup: the stored tier, or
    /// "default" when it has none or the lookup failed.
    pub fn tier_of(lookup: Result<Option<String>, AppError>) -> (r: String)
        ensures
            lookup matches Ok(Some(t)) ==> r == t,
            !(lookup matches Ok(Some(_))) ==> r@ == "default"@,
    {
        match lookup {
            Ok(Some(t)) => t,
            _ => "default".to_string(),
        }
    }
}

} // verus!
