//! Data types of the audio endpoints, and the rules on their response
//! formats.

use crate::sse::str_eq;
use std::collections::HashMap;
use vstd::prelude::*;

verus! {

/// Whether a transcription response format yields structured JSON. Only such
/// a format may be asked for by the structured transcription call; an unset
/// format counts, as the service then picks the structured default.
pub open spec fn spec_structured_transcription_format(format: Option<Seq<char>>) -> bool {
    match format {
        Some(f) => f == "json"@ || f == "verbose_json"@,
        None => true,
    }
}

/// Whether a transcription response format is acceptable to the raw
/// transcription call: unset, or one of the plain-text formats.
pub open spec fn spec_raw_transcription_format(format: Option<Seq<char>>) -> bool {
    match format {
        Some(f) => f == "text"@ || f == "srt"@ || f == "vtt"@,
        None => true,
    }
}

/// Whether the requested response format is accepted by the structured
/// transcription call: unset, `json`, or `verbose_json`.
pub fn structured_transcription_format_ok(format: &Option<String>) -> (r: bool)
    ensures
        r == spec_structured_transcription_format(format.deep_view()),
{
    match format {
        Some(f) => str_eq(f.as_str(), "json") || str_eq(f.as_str(), "verbose_json"),
        None => true,
    }
}

/// Whether the requested response format is accepted by the raw
/// transcription call: unset, `text`, `srt`, or `vtt`.
pub fn raw_transcription_format_ok(format: &Option<String>) -> (r: bool)
    ensures
        r == spec_raw_transcription_format(format.deep_view()),
{
    match format {
        Some(f) => str_eq(f.as_str(), "text") || str_eq(f.as_str(), "srt") || str_eq(
            f.as_str(),
            "vtt",
        ),
        None => true,
    }
}

/// The text of a completed audio translation.
#[derive(Debug)]
pub struct AudioTranslationResponse {
    pub text: String,
    pub headers: Option<HashMap<String, String>>,
}

/// A request to synthesize speech: the model, the input text, the voice, and
/// the path the audio is written to.
#[derive(Debug, Clone)]
pub struct AudioSpeechRequest {
    pub model: String,
    pub input: String,
    pub voice: String,
    pub output: String,
}

impl AudioSpeechRequest {
    /// A request carrying exactly the given fields.
    pub fn new(model: String, input: String, voice: String, output: String) -> (r: Self)
        ensures
            r.model == model,
            r.input == input,
            r.voice == voice,
            r.output == output,
    {
        Self { model, input, voice, output }
    }
}

/// The granularity of transcription timestamps.
#[derive(Debug, Clone)]
pub enum TimestampGranularity {
    Word,
    Segment,
}

} // verus!
