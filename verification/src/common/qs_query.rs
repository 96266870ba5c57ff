//! Query strings decoded into typed parameters.
use crate::common::text::concat2;
use crate::error::AppError;
use vstd::prelude::*;

verus! {

/// Query parameters decoded from the query string.
pub struct QsQuery<T>(pub T);

/// A query string that did not decode is a bad request naming the decoder's complaint.
pub fn query_rejection(decoder_message: &str) -> (r: AppError)
    ensures
        r matches AppError::BadRequest(m) && m@ == "invalid query parameters: "@ + decoder_message@,
{
    AppError::BadRequest(concat2("invalid query parameters: ", decoder_message))
}

} // verus!
