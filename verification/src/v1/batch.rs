//! Data types of the batch endpoint.

use vstd::prelude::*;

verus! {

/// A request to start a batch over an uploaded input file.
#[derive(Debug)]
pub struct CreateBatchRequest {
    pub input_file_id: String,
    pub endpoint: String,
    pub completion_window: String,
    pub metadata: Option<Metadata>,
}

impl CreateBatchRequest {
    /// A request carrying exactly the given fields, without metadata.
    pub fn new(input_file_id: String, endpoint: String, completion_window: String) -> (r: Self)
        ensures
            r.input_file_id == input_file_id,
            r.endpoint == endpoint,
            r.completion_window == completion_window,
            r.metadata is None,
    {
        Self { input_file_id, endpoint, completion_window, metadata: None }
    }
}

/// Caller-supplied labels on a batch.
#[derive(Debug)]
pub struct Metadata {
    pub customer_id: String,
    pub batch_description: String,
}

/// Progress counters of a batch.
#[derive(Debug)]
pub struct RequestCounts {
    pub total: u32,
    pub completed: u32,
    pub failed: u32,
}

/// One error recorded while processing a batch.
#[derive(Debug)]
pub struct BatchError {
    pub code: String,
    pub line: Option<u32>,
    pub message: String,
    pub param: Option<String>,
}

/// The errors recorded while processing a batch.
#[derive(Debug)]
pub struct BatchErrors {
    pub object: String,
    pub data: Vec<BatchError>,
}

/// The state of one batch.
#[derive(Debug)]
pub struct BatchResponse {
    pub cancelled_at: Option<u64>,
    pub cancelling_at: Option<u64>,
    pub completed_at: Option<u64>,
    pub completion_window: String,
    pub created_at: u64,
    pub endpoint: String,
    pub error_file_id: Option<String>,
    pub errors: Option<BatchErrors>,
    pub expired_at: Option<u64>,
    pub expires_at: Option<u64>,
    pub failed_at: Option<u64>,
    pub finalizing_at: Option<u64>,
    pub id: String,
    pub in_progress_at: Option<u64>,
    pub input_file_id: String,
    pub metadata: Option<Metadata>,
    pub object: String,
    pub output_file_id: Option<String>,
    pub request_counts: RequestCounts,
    pub status: String,
}

/// A page of batches.
#[derive(Debug)]
pub struct ListBatchResponse {
    pub object: String,
    pub data: Vec<BatchResponse>,
    pub first_id: String,
    pub last_id: String,
    pub has_more: bool,
}

} // verus!
