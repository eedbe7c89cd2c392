//! Data shared by several endpoints.

use vstd::prelude::*;

verus! {

/// Token accounting attached to a response.
#[derive(Debug)]
pub struct Usage {
    pub prompt_tokens: i32,
    pub completion_tokens: i32,
    pub total_tokens: i32,
}

/// The outcome of a deletion call.
#[derive(Debug)]
pub struct DeletionStatus {
    pub id: String,
    pub object: String,
    pub deleted: bool,
}

/// A request that carries no body fields.
#[derive(Debug)]
pub struct EmptyRequestBody {}

} // verus!
