//! Data types of the models endpoint.

use vstd::prelude::*;

verus! {

/// A model's input and output shape.
#[derive(Debug)]
pub struct Architecture {
    pub input_modalities: Option<Vec<String>>,
    pub output_modalities: Option<Vec<String>>,
    pub tokenizer: Option<String>,
    pub instruct_type: Option<String>,
}

/// Limits of a model's primary provider.
#[derive(Debug)]
pub struct TopProvider {
    pub is_moderated: Option<bool>,
    pub context_length: Option<i64>,
    pub max_completion_tokens: Option<i64>,
}

/// A model's price list, each entry a decimal rendered as text.
#[derive(Debug)]
pub struct Pricing {
    pub prompt: Option<String>,
    pub completion: Option<String>,
    pub image: Option<String>,
    pub request: Option<String>,
    pub web_search: Option<String>,
    pub internal_reasoning: Option<String>,
    pub input_cache_read: Option<String>,
    pub input_cache_write: Option<String>,
}

} // verus!
