//! Data types of the runs endpoint.

use crate::v1::thread::CreateThreadRequest;
use std::collections::HashMap;
use vstd::prelude::*;

verus! {

/// A request to modify a run's metadata.
#[derive(Debug, Clone)]
pub struct ModifyRunRequest {
    pub metadata: Option<HashMap<String, String>>,
}

impl ModifyRunRequest {
    /// A request with no metadata set.
    pub fn new() -> (r: Self)
        ensures
            r.metadata is None,
    {
        Self { metadata: None }
    }
}

impl Default for ModifyRunRequest {
    /// The same as `new`.
    fn default() -> (r: Self)
        ensures
            r.metadata is None,
    {
        Self::new()
    }
}

impl ModifyRunRequest {
    /// The same request with `metadata` set.
    pub fn metadata(self, metadata: HashMap<String, String>) -> (r: Self)
        ensures
            r == (Self { metadata: Some(metadata), ..self }),
    {
        Self { metadata: Some(metadata), ..self }
    }
}

/// The error that ended a run.
#[derive(Debug, Clone)]
pub struct LastError {
    pub code: String,
    pub message: String,
}

/// The state of one run.
#[derive(Debug)]
pub struct RunObject {
    pub id: String,
    pub object: String,
    pub created_at: i64,
    pub thread_id: String,
    pub assistant_id: String,
    pub status: String,
    pub required_action: Option<HashMap<String, String>>,
    pub last_error: Option<LastError>,
    pub expires_at: Option<i64>,
    pub started_at: Option<i64>,
    pub cancelled_at: Option<i64>,
    pub failed_at: Option<i64>,
    pub completed_at: Option<i64>,
    pub model: String,
    pub instructions: Option<String>,
    pub tools: Vec<HashMap<String, String>>,
    pub metadata: HashMap<String, String>,
    pub headers: Option<HashMap<String, String>>,
}

/// A page of runs.
#[derive(Debug)]
pub struct ListRun {
    pub object: String,
    pub data: Vec<RunObject>,
    pub first_id: String,
    pub last_id: String,
    pub has_more: bool,
    pub headers: Option<HashMap<String, String>>,
}

/// A request to create a thread and immediately run it.
#[derive(Debug, Clone)]
pub struct CreateThreadAndRunRequest {
    pub assistant_id: String,
    pub thread: Option<CreateThreadRequest>,
    pub model: Option<String>,
    pub instructions: Option<String>,
    pub tools: Option<Vec<HashMap<String, String>>>,
    pub metadata: Option<HashMap<String, String>>,
}

/// The state of one run step. The `run_step_type` field is the wire field
/// `type`.
#[derive(Debug, Clone)]
pub struct RunStepObject {
    pub id: String,
    pub object: String,
    pub created_at: i64,
    pub assistant_id: String,
    pub thread_id: String,
    pub run_id: String,
    pub run_step_type: String,
    pub status: String,
    pub step_details: HashMap<String, String>,
    pub last_error: Option<LastError>,
    pub expires_at: Option<i64>,
    pub started_at: Option<i64>,
    pub cancelled_at: Option<i64>,
    pub failed_at: Option<i64>,
    pub completed_at: Option<i64>,
    pub metadata: HashMap<String, String>,
    pub headers: Option<HashMap<String, String>>,
}

/// A page of run steps.
#[derive(Debug, Clone)]
pub struct ListRunStep {
    pub object: String,
    pub data: Vec<RunStepObject>,
    pub first_id: String,
    pub last_id: String,
    pub has_more: bool,
    pub headers: Option<HashMap<String, String>>,
}

} // verus!
