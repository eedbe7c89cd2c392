//! Data types of the legacy fine-tunes endpoint.

use vstd::prelude::*;

verus! {

/// One event in a fine-tune's history.
#[derive(Debug)]
pub struct FineTuneEvent {
    pub object: String,
    pub created_at: i64,
    pub level: String,
    pub message: String,
}

/// A model produced by a fine-tune.
#[derive(Debug)]
pub struct FineTunedModel {
    pub id: String,
    pub object: String,
    pub model_details: ModelDetails,
}

/// Details of a fine-tuned model.
#[derive(Debug)]
pub struct ModelDetails {
    pub architecture: String,
    pub created_at: i64,
    pub id: String,
    pub object: String,
    pub prompt: String,
    pub samples_seen: i64,
}

/// A result file of a fine-tune.
#[derive(Debug)]
pub struct ResultFile {
    pub id: String,
    pub object: String,
    pub bytes: i64,
    pub created_at: i64,
    pub filename: String,
    pub purpose: String,
}

/// A validation file of a fine-tune.
#[derive(Debug)]
pub struct ValidationFile {
    pub id: String,
    pub object: String,
    pub bytes: i64,
    pub created_at: i64,
    pub filename: String,
    pub purpose: String,
}

/// A training file of a fine-tune.
#[derive(Debug)]
pub struct TrainingFile {
    pub id: String,
    pub object: String,
    pub bytes: i64,
    pub created_at: i64,
    pub filename: String,
    pub purpose: String,
}

/// A request to retrieve one fine-tune.
#[derive(Debug)]
pub struct RetrieveFineTuneRequest {
    pub fine_tune_id: String,
}

impl RetrieveFineTuneRequest {
    /// A request for the given fine-tune.
    pub fn new(fine_tune_id: String) -> (r: Self)
        ensures
            r.fine_tune_id == fine_tune_id,
    {
        Self { fine_tune_id }
    }
}

/// A request to cancel one fine-tune.
#[derive(Debug)]
pub struct CancelFineTuneRequest {
    pub fine_tune_id: String,
}

impl CancelFineTuneRequest {
    /// A request for the given fine-tune.
    pub fn new(fine_tune_id: String) -> (r: Self)
        ensures
            r.fine_tune_id == fine_tune_id,
    {
        Self { fine_tune_id }
    }
}

/// A request to list one fine-tune's events.
#[derive(Debug)]
pub struct ListFineTuneEventsRequest {
    pub fine_tune_id: String,
}

impl ListFineTuneEventsRequest {
    /// A request for the given fine-tune.
    pub fn new(fine_tune_id: String) -> (r: Self)
        ensures
            r.fine_tune_id == fine_tune_id,
    {
        Self { fine_tune_id }
    }
}

/// A page of fine-tune events.
#[derive(Debug)]
pub struct ListFineTuneEventsResponse {
    pub object: String,
    pub data: Vec<FineTuneEvent>,
}

/// A request to delete a fine-tuned model.
#[derive(Debug)]
pub struct DeleteFineTuneModelRequest {
    pub model_id: String,
}

impl DeleteFineTuneModelRequest {
    /// A request for the given model.
    pub fn new(model_id: String) -> (r: Self)
        ensures
            r.model_id == model_id,
    {
        Self { model_id }
    }
}

/// The outcome of deleting a fine-tuned model.
#[derive(Debug)]
pub struct DeleteFineTuneModelResponse {
    pub id: String,
    pub object: String,
    pub deleted: bool,
}

} // verus!
