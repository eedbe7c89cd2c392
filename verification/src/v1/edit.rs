//! Data types of the edits endpoint.

use crate::v1::common;
use std::collections::HashMap;
use vstd::prelude::*;

verus! {

/// One returned edit.
#[derive(Debug)]
pub struct EditChoice {
    pub text: String,
    pub index: i32,
}

/// A full edits response.
#[derive(Debug)]
pub struct EditResponse {
    pub object: String,
    pub created: i64,
    pub usage: common::Usage,
    pub choices: Vec<EditChoice>,
    pub headers: Option<HashMap<String, String>>,
}

} // verus!
