//! Data types of the image endpoints.

use vstd::prelude::*;

verus! {

/// One generated image, by URL.
#[derive(Debug)]
pub struct ImageData {
    pub url: String,
}

/// A request to generate images from a prompt.
#[derive(Debug, Clone)]
pub struct ImageGenerationRequest {
    pub prompt: String,
    pub model: Option<String>,
    pub n: Option<i32>,
    pub size: Option<String>,
    pub response_format: Option<String>,
    pub user: Option<String>,
}

impl ImageGenerationRequest {
    /// A request for the given prompt with every optional field unset.
    pub fn new(prompt: String) -> (r: Self)
        ensures
            r.prompt == prompt,
            r.model is None,
            r.n is None,
            r.size is None,
            r.response_format is None,
            r.user is None,
    {
        Self { prompt, model: None, n: None, size: None, response_format: None, user: None }
    }
}

impl ImageGenerationRequest {
    /// The same request with `model` set.
    pub fn model(self, model: String) -> (r: Self)
        ensures
            r == (Self { model: Some(model), ..self }),
    {
        Self { model: Some(model), ..self }
    }

    /// The same request with `n` set.
    pub fn n(self, n: i32) -> (r: Self)
        ensures
            r == (Self { n: Some(n), ..self }),
    {
        Self { n: Some(n), ..self }
    }

    /// The same request with `size` set.
    pub fn size(self, size: String) -> (r: Self)
        ensures
            r == (Self { size: Some(size), ..self }),
    {
        Self { size: Some(size), ..self }
    }

    /// The same request with `response_format` set.
    pub fn response_format(self, response_format: String) -> (r: Self)
        ensures
            r == (Self { response_format: Some(response_format), ..self }),
    {
        Self { response_format: Some(response_format), ..self }
    }

    /// The same request with `user` set.
    pub fn user(self, user: String) -> (r: Self)
        ensures
            r == (Self { user: Some(user), ..self }),
    {
        Self { user: Some(user), ..self }
    }
}

/// The images a generation produced.
#[derive(Debug)]
pub struct ImageGenerationResponse {
    pub created: i64,
    pub data: Vec<ImageData>,
}

/// A request to edit an image under a prompt.
#[derive(Debug, Clone)]
pub struct ImageEditRequest {
    pub image: String,
    pub mask: Option<String>,
    pub prompt: String,
    pub model: Option<String>,
    pub n: Option<i32>,
    pub size: Option<String>,
    pub response_format: Option<String>,
    pub user: Option<String>,
}

impl ImageEditRequest {
    /// A request for the given image and prompt with every optional field
    /// unset.
    pub fn new(image: String, prompt: String) -> (r: Self)
        ensures
            r.image == image,
            r.prompt == prompt,
            r.mask is None,
            r.model is None,
            r.n is None,
            r.size is None,
            r.response_format is None,
            r.user is None,
    {
        Self {
            image,
            prompt,
            mask: None,
            model: None,
            n: None,
            size: None,
            response_format: None,
            user: None,
        }
    }
}

impl ImageEditRequest {
    /// The same request with `mask` set.
    pub fn mask(self, mask: String) -> (r: Self)
        ensures
            r == (Self { mask: Some(mask), ..self }),
    {
        Self { mask: Some(mask), ..self }
    }

    /// The same request with `model` set.
    pub fn model(self, model: String) -> (r: Self)
        ensures
            r == (Self { model: Some(model), ..self }),
    {
        Self { model: Some(model), ..self }
    }

    /// The same request with `n` set.
    pub fn n(self, n: i32) -> (r: Self)
        ensures
            r == (Self { n: Some(n), ..self }),
    {
        Self { n: Some(n), ..self }
    }

    /// The same request with `size` set.
    pub fn size(self, size: String) -> (r: Self)
        ensures
            r == (Self { size: Some(size), ..self }),
    {
        Self { size: Some(size), ..self }
    }

    /// The same request with `response_format` set.
    pub fn response_format(self, response_format: String) -> (r: Self)
        ensures
            r == (Self { response_format: Some(response_format), ..self }),
    {
        Self { response_format: Some(response_format), ..self }
    }

    /// The same request with `user` set.
    pub fn user(self, user: String) -> (r: Self)
        ensures
            r == (Self { user: Some(user), ..self }),
    {
        Self { user: Some(user), ..self }
    }
}

/// The images an edit produced.
#[derive(Debug)]
pub struct ImageEditResponse {
    pub created: i64,
    pub data: Vec<ImageData>,
}

/// A request for variations of an image.
#[derive(Debug, Clone)]
pub struct ImageVariationRequest {
    pub image: String,
    pub n: Option<i32>,
    pub model: Option<String>,
    pub size: Option<String>,
    pub response_format: Option<String>,
    pub user: Option<String>,
}

impl ImageVariationRequest {
    /// A request for the given image with every optional field unset.
    pub fn new(image: String) -> (r: Self)
        ensures
            r.image == image,
            r.model is None,
            r.n is None,
            r.size is None,
            r.response_format is None,
            r.user is None,
    {
        Self { image, model: None, n: None, size: None, response_format: None, user: None }
    }
}

impl ImageVariationRequest {
    /// The same request with `model` set.
    pub fn model(self, model: String) -> (r: Self)
        ensures
            r == (Self { model: Some(model), ..self }),
    {
        Self { model: Some(model), ..self }
    }

    /// The same request with `n` set.
    pub fn n(self, n: i32) -> (r: Self)
        ensures
            r == (Self { n: Some(n), ..self }),
    {
        Self { n: Some(n), ..self }
    }

    /// The same request with `size` set.
    pub fn size(self, size: String) -> (r: Self)
        ensures
            r == (Self { size: Some(size), ..self }),
    {
        Self { size: Some(size), ..self }
    }

    /// The same request with `response_format` set.
    pub fn response_format(self, response_format: String) -> (r: Self)
        ensures
            r == (Self { response_format: Some(response_format), ..self }),
    {
        Self { response_format: Some(response_format), ..self }
    }

    /// The same request with `user` set.
    pub fn user(self, user: String) -> (r: Self)
        ensures
            r == (Self { user: Some(user), ..self }),
    {
        Self { user: Some(user), ..self }
    }
}

/// The images a variation call produced.
#[derive(Debug)]
pub struct ImageVariationResponse {
    pub created: i64,
    pub data: Vec<ImageData>,
}

} // verus!
