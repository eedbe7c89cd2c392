//! Data types of the fine-tuning jobs endpoint.

use std::collections::HashMap;
use vstd::prelude::*;

verus! {

/// A request to start a fine-tuning job.
#[derive(Debug, Clone)]
pub struct CreateFineTuningJobRequest {
    pub model: String,
    pub training_file: String,
    pub hyperparameters: Option<HyperParameters>,
    pub suffix: Option<String>,
    pub validation_file: Option<String>,
}

impl CreateFineTuningJobRequest {
    /// A request for the given model and training file with every optional
    /// field unset.
    pub fn new(model: String, training_file: String) -> (r: Self)
        ensures
            r.model == model,
            r.training_file == training_file,
            r.hyperparameters is None,
            r.suffix is None,
            r.validation_file is None,
    {
        Self { model, training_file, hyperparameters: None, suffix: None, validation_file: None }
    }
}

impl CreateFineTuningJobRequest {
    /// The same request with `hyperparameters` set.
    pub fn hyperparameters(self, hyperparameters: HyperParameters) -> (r: Self)
        ensures
            r == (Self { hyperparameters: Some(hyperparameters), ..self }),
    {
        Self { hyperparameters: Some(hyperparameters), ..self }
    }

    /// The same request with `suffix` set.
    pub fn suffix(self, suffix: String) -> (r: Self)
        ensures
            r == (Self { suffix: Some(suffix), ..self }),
    {
        Self { suffix: Some(suffix), ..self }
    }

    /// The same request with `validation_file` set.
    pub fn validation_file(self, validation_file: String) -> (r: Self)
        ensures
            r == (Self { validation_file: Some(validation_file), ..self }),
    {
        Self { validation_file: Some(validation_file), ..self }
    }
}

/// A request to list fine-tuning jobs.
#[derive(Debug)]
pub struct ListFineTuningJobsRequest {
    pub after: Option<String>,
    pub limit: Option<i64>,
}

impl ListFineTuningJobsRequest {
    /// A request with no paging set; the argument is accepted for signature
    /// compatibility and plays no part.
    pub fn new(_fine_tune_id: String) -> (r: Self)
        ensures
            r.after is None,
            r.limit is None,
    {
        Self { after: None, limit: None }
    }
}

/// A request to list one job's events.
#[derive(Debug)]
pub struct ListFineTuningJobEventsRequest {
    pub fine_tuning_job_id: String,
    pub after: Option<String>,
    pub limit: Option<i64>,
}

impl ListFineTuningJobEventsRequest {
    /// A request for the given job with no paging set.
    pub fn new(fine_tuning_job_id: String) -> (r: Self)
        ensures
            r.fine_tuning_job_id == fine_tuning_job_id,
            r.after is None,
            r.limit is None,
    {
        Self { fine_tuning_job_id, after: None, limit: None }
    }
}

/// A request to retrieve one job.
#[derive(Debug)]
pub struct RetrieveFineTuningJobRequest {
    pub fine_tuning_job_id: String,
}

impl RetrieveFineTuningJobRequest {
    /// A request for the given job.
    pub fn new(fine_tuning_job_id: String) -> (r: Self)
        ensures
            r.fine_tuning_job_id == fine_tuning_job_id,
    {
        Self { fine_tuning_job_id }
    }
}

/// A request to cancel one job.
#[derive(Debug)]
pub struct CancelFineTuningJobRequest {
    pub fine_tuning_job_id: String,
}

impl CancelFineTuningJobRequest {
    /// A request for the given job.
    pub fn new(fine_tuning_job_id: String) -> (r: Self)
        ensures
            r.fine_tuning_job_id == fine_tuning_job_id,
    {
        Self { fine_tuning_job_id }
    }
}

/// A page of fine-tuning objects.
#[derive(Debug)]
pub struct FineTuningPagination<T> {
    pub object: String,
    pub data: Vec<T>,
    pub has_more: bool,
    pub headers: Option<HashMap<String, String>>,
}

/// The state of one fine-tuning job.
#[derive(Debug)]
pub struct FineTuningJobObject {
    pub id: String,
    pub created_at: i64,
    pub error: Option<FineTuningJobError>,
    pub fine_tuned_model: Option<String>,
    pub finished_at: Option<String>,
    pub hyperparameters: HyperParameters,
    pub model: String,
    pub object: String,
    pub organization_id: String,
    pub result_files: Vec<String>,
    pub status: String,
    pub trained_tokens: Option<i64>,
    pub training_file: String,
    pub validation_file: Option<String>,
    pub headers: Option<HashMap<String, String>>,
}

/// The error that failed a job.
#[derive(Debug)]
pub struct FineTuningJobError {
    pub code: String,
    pub message: String,
    pub param: Option<String>,
}

/// One event in a job's history.
#[derive(Debug)]
pub struct FineTuningJobEvent {
    pub id: String,
    pub created_at: i64,
    pub level: String,
    pub message: String,
    pub object: String,
}

/// Training hyperparameters, each either a number rendered as text or
/// `"auto"`.
#[derive(Clone, Debug)]
pub struct HyperParameters {
    pub batch_size: Option<String>,
    pub learning_rate_multiplier: Option<String>,
    pub n_epochs: Option<String>,
}

} // verus!
