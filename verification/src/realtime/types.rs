//! Data types of realtime sessions.

use vstd::prelude::*;

verus! {

/// The models a realtime session can run.
#[derive(Debug, Clone)]
pub enum RealtimeModel {
    GptRealtime,
    Gpt4oRealtimePreview,
    Gpt4oMiniRealtimePreview,
    GptRealtime20250828,
    Gpt4oRealtimePreview20241217,
    Gpt4oRealtimePreview20241001,
    Gpt4oMiniRealtimePreview20241217,
}

/// Extra output a session can be asked for.
#[derive(Debug, Clone)]
pub enum AdditionalServerOutput {
    Logprobs,
}

/// What the model answers with.
#[derive(Debug, Clone)]
pub enum OutputModality {
    Audio,
    Text,
}

/// The only session kind an accepted call can carry.
#[derive(Debug, Clone)]
pub enum RealtimeCallSessionType {
    Realtime,
}

/// The voices the model can speak with.
#[derive(Debug, Clone)]
pub enum RealtimeVoice {
    Alloy,
    Ash,
    Ballad,
    Cedar,
    Coral,
    Echo,
    Marin,
    Sage,
    Shimmer,
    Verse,
}

/// Settings for transcribing the caller's audio.
#[derive(Debug, Clone)]
pub struct TranscriptionConfig {
    pub language: Option<String>,
    pub model: TranscriptionModel,
    pub prompt: Option<String>,
}

/// The models that transcribe input audio.
#[derive(Debug, Clone)]
pub enum TranscriptionModel {
    Whisper1,
    Gpt4oTranscribeLatest,
    Gpt4oMiniTranscribe,
    Gpt4oTranscribe,
}

/// Voice-activity detection, by mode.
#[derive(Debug, Clone)]
pub enum VadMode {
    SemanticVad(SemanticVadConfig),
}

/// Settings of semantic voice-activity detection.
#[derive(Debug, Clone)]
pub struct SemanticVadConfig {
    pub create_response: bool,
    pub eagerness: SemanticVadEagerness,
    pub interrupt_response: bool,
}

/// How quickly semantic detection hands the turn to the model.
#[derive(Debug, Clone)]
pub enum SemanticVadEagerness {
    Auto,
    Low,
    Medium,
    High,
}

/// Input-audio noise reduction. The `reduction_type` field is the wire field
/// `type`.
#[derive(Debug, Clone)]
pub struct NoiseReduction {
    pub reduction_type: NoiseReductionType,
}

/// The microphone situation noise reduction is tuned for.
#[derive(Debug, Clone)]
pub enum NoiseReductionType {
    NearField,
    FarField,
}

/// An audio format: raw PCM carries a sample rate, the others do not.
#[derive(Debug, Clone)]
pub enum AudioFormat {
    Pcm(AudioFormatDefinitionWithSampleRate),
    Other(AudioFormatDefinition),
}

/// The raw-PCM format definition. The `audio_type` field is the wire field
/// `type`.
#[derive(Debug, Clone)]
pub struct AudioFormatDefinitionWithSampleRate {
    pub rate: i32,
    pub audio_type: AudioFormatIdentifier,
}

/// A format definition without parameters. The `audio_type` field is the
/// wire field `type`.
#[derive(Debug, Clone)]
pub struct AudioFormatDefinition {
    pub audio_type: AudioFormatIdentifier,
}

/// The supported audio encodings.
#[derive(Debug, Clone)]
pub enum AudioFormatIdentifier {
    Pcm,
    G711ULAW,
    G711ALAW,
}

/// Free-form transcription settings.
#[derive(Debug, Clone)]
pub struct AudioTranscription {
    pub language: Option<String>,
    pub model: Option<String>,
    pub prompt: Option<String>,
}

/// How the model may choose among the offered tools. `NoneChoice` is the
/// wire value `none`; `Function` names one tool it must call, with `kind`
/// the wire field `type`.
#[derive(Debug, Clone)]
pub enum ToolChoice {
    Auto,
    NoneChoice,
    Required,
    Function { kind: FunctionType, name: String },
}

/// The kind of a named tool.
#[derive(Debug, Clone)]
pub enum FunctionType {
    Function,
}

/// A cap on output tokens: a number, or none at all.
#[derive(Debug, Clone)]
pub enum MaxOutputTokens {
    Inf,
    Num(u16),
}

/// The kind of a conversation item. Carried on the wire as `type`.
#[derive(Debug, Clone, PartialEq, Eq)]
pub enum ItemType {
    Message,
    FunctionCall,
    FunctionCallOutput,
}

/// The lifecycle state of a conversation item.
#[derive(Debug, Clone, PartialEq, Eq)]
pub enum ItemStatus {
    Completed,
    InProgress,
    Incomplete,
}

/// The author role of a conversation item.
#[derive(Debug, Clone, PartialEq, Eq)]
pub enum ItemRole {
    User,
    Assistant,
    System,
}

/// The kind of one content part of an item.
#[derive(Debug, Clone, PartialEq, Eq)]
pub enum ItemContentType {
    InputText,
    InputAudio,
    Text,
    Audio,
}

/// One content part of a conversation item. The `kind` field is the wire
/// field `type`.
#[derive(Debug, Clone)]
pub struct ItemContent {
    pub kind: ItemContentType,
    pub text: Option<String>,
    pub audio: Option<String>,
    pub transcript: Option<String>,
}

/// One conversation item: a message, a function call, or a function-call
/// output. The `kind` field is the wire field `type`.
#[derive(Debug, Clone)]
pub struct Item {
    pub id: Option<String>,
    pub kind: Option<ItemType>,
    pub status: Option<ItemStatus>,
    pub role: Option<ItemRole>,
    pub content: Option<Vec<ItemContent>>,
    pub call_id: Option<String>,
    pub name: Option<String>,
    pub arguments: Option<String>,
    pub output: Option<String>,
}

/// A conversation's identity.
#[derive(Debug, Clone)]
pub struct Conversation {
    pub id: String,
    pub object: String,
}

/// One model response within a session.
#[derive(Debug, Clone)]
pub struct Response {
    pub id: String,
    pub object: String,
    pub status: ResponseStatus,
    pub status_details: Option<ResponseStatusDetail>,
    pub output: Vec<Item>,
    pub usage: Option<Usage>,
}

/// Token accounting of one response.
#[derive(Debug, Clone)]
pub struct Usage {
    pub total_tokens: u32,
    pub input_tokens: u32,
    pub output_tokens: u32,
}

/// The lifecycle state of a response.
#[derive(Debug, Clone)]
pub enum ResponseStatus {
    InProgress,
    Completed,
    Cancelled,
    Failed,
    Incomplete,
}

/// Why a response ended in its state.
#[derive(Debug, Clone)]
pub enum ResponseStatusDetail {
    Cancelled { reason: CancelledReason },
    Incomplete { reason: IncompleteReason },
    Failed { error: Option<FailedError> },
}

/// The error behind a failed response. The `kind` field is the wire field
/// `type`.
#[derive(Debug, Clone)]
pub struct FailedError {
    pub code: Option<String>,
    pub message: Option<String>,
    pub kind: Option<String>,
}

/// Why a response was cancelled.
#[derive(Debug, Clone)]
pub enum CancelledReason {
    TurnDetected,
    ClientCancelled,
}

/// Why a response stayed incomplete.
#[derive(Debug, Clone)]
pub enum IncompleteReason {
    Interruption,
    MaxOutputTokens,
    ContentFilter,
}

/// One part of a response's content: text, or audio with its transcript.
#[derive(Debug, Clone)]
pub enum ContentPart {
    Text { text: String },
    Audio { audio: Option<String>, transcript: String },
}

} // verus!
