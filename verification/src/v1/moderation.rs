//! Data types of the moderations endpoint.

use vstd::prelude::*;

verus! {

/// A request to classify one input.
#[derive(Debug, Clone)]
pub struct CreateModerationRequest {
    pub input: String,
    pub model: Option<String>,
}

impl CreateModerationRequest {
    /// A request for the given input with no model chosen.
    pub fn new(input: String) -> (r: Self)
        ensures
            r.input == input,
            r.model is None,
    {
        Self { input, model: None }
    }
}

impl CreateModerationRequest {
    /// The same request with `model` set.
    pub fn model(self, model: String) -> (r: Self)
        ensures
            r == (Self { model: Some(model), ..self }),
    {
        Self { model: Some(model), ..self }
    }
}

/// The per-category verdicts of a moderation.
#[derive(Debug)]
pub struct ModerationCategories {
    pub is_hate: bool,
    pub is_hate_threatening: bool,
    pub is_self_harm: bool,
    pub sexual: bool,
    pub is_sexual_minors: bool,
    pub violence: bool,
    pub is_violence_graphic: bool,
}

} // verus!
