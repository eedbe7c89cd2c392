//! Data types of the embeddings endpoint.

use vstd::prelude::*;

verus! {

/// How returned embeddings are encoded.
#[derive(Debug, Clone)]
pub enum EncodingFormat {
    Float,
    Base64,
}

/// A request to embed a list of inputs.
#[derive(Debug, Clone)]
pub struct EmbeddingRequest {
    pub model: String,
    pub input: Vec<String>,
    pub encoding_format: Option<EncodingFormat>,
    pub dimensions: Option<i32>,
    pub user: Option<String>,
}

impl EmbeddingRequest {
    /// A request for the given model and inputs with every optional field
    /// unset.
    pub fn new(model: String, input: Vec<String>) -> (r: Self)
        ensures
            r.model == model,
            r.input == input,
            r.encoding_format is None,
            r.dimensions is None,
            r.user is None,
    {
        Self { model, input, encoding_format: None, dimensions: None, user: None }
    }
}

impl EmbeddingRequest {
    /// The same request with `user` set.
    pub fn user(self, user: String) -> (r: Self)
        ensures
            r == (Self { user: Some(user), ..self }),
    {
        Self { user: Some(user), ..self }
    }
}

/// Token accounting attached to an embeddings response.
#[derive(Debug)]
pub struct Usage {
    pub prompt_tokens: i32,
    pub total_tokens: i32,
}

} // verus!
