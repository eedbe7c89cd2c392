//! Events a realtime session's server sends.

use crate::realtime::types::{ContentPart, Conversation, Item, Response};
use vstd::prelude::*;

verus! {

/// A conversation was created.
#[derive(Debug, Clone)]
pub struct ConversationCreated {
    pub event_id: String,
    pub conversation: Conversation,
}

/// The input audio buffer was committed as an item.
#[derive(Debug, Clone)]
pub struct InputAudioBufferCommited {
    pub event_id: String,
    pub previous_item_id: Option<String>,
    pub item_id: String,
}

/// The input audio buffer was cleared.
#[derive(Debug, Clone)]
pub struct InputAudioBufferCleared {
    pub event_id: String,
}

/// Speech was detected in the input audio.
#[derive(Debug, Clone)]
pub struct InputAudioBufferSpeechStarted {
    pub event_id: String,
    pub audio_start_ms: u32,
    pub item_id: String,
}

/// Detected speech ended.
#[derive(Debug, Clone)]
pub struct InputAudioBufferSpeechStopped {
    pub event_id: String,
    pub audio_end_ms: u32,
    pub item_id: String,
}

/// An item was added to the conversation.
#[derive(Debug, Clone)]
pub struct ConversationItemAdded {
    pub event_id: String,
    pub previous_item_id: Option<String>,
    pub item: Item,
}

/// An item reached its final state.
#[derive(Debug, Clone)]
pub struct ConversationItemDone {
    pub event_id: String,
    pub previous_item_id: Option<String>,
    pub item: Item,
}

/// Transcription of an input item finished.
#[derive(Debug, Clone)]
pub struct ConversationItemInputAudioTranscriptionCompleted {
    pub event_id: String,
    pub item_id: String,
    pub content_index: u32,
    pub transcript: String,
}

/// A fragment of an input item's transcription.
#[derive(Debug, Clone)]
pub struct ConversationItemInputAudioTranscriptionDelta {
    pub event_id: String,
    pub item_id: String,
    pub content_index: u32,
    pub delta: String,
}

/// An item's audio was truncated.
#[derive(Debug, Clone)]
pub struct ConversationItemTruncated {
    pub event_id: String,
    pub item_id: String,
    pub content_index: u32,
    pub audio_end_ms: u32,
}

/// An item was deleted from the conversation.
#[derive(Debug, Clone)]
pub struct ConversationItemDeleted {
    pub event_id: String,
    pub item_id: String,
}

/// The output audio buffer started playing.
#[derive(Debug, Clone)]
pub struct OutputAudioBufferStarted {
    pub event_id: String,
    pub response_id: String,
}

/// The output audio buffer stopped playing.
#[derive(Debug, Clone)]
pub struct OutputAudioBufferStopped {
    pub event_id: String,
    pub response_id: String,
}

/// The output audio buffer was cleared.
#[derive(Debug, Clone)]
pub struct OutputAudioBufferCleared {
    pub event_id: String,
    pub response_id: String,
}

/// A response began.
#[derive(Debug, Clone)]
pub struct ResponseCreated {
    pub event_id: String,
    pub response: Response,
}

/// A response reached its final state.
#[derive(Debug, Clone)]
pub struct ResponseDone {
    pub event_id: String,
    pub response: Response,
}

/// An output item was added to a response.
#[derive(Debug, Clone)]
pub struct ResponseOutputItemAdded {
    pub event_id: String,
    pub response_id: String,
    pub output_index: u32,
    pub item: Item,
}

/// An output item reached its final state.
#[derive(Debug, Clone)]
pub struct ResponseOutputItemDone {
    pub event_id: String,
    pub response_id: String,
    pub output_index: u32,
    pub item: Item,
}

/// A content part was added to an output item.
#[derive(Debug, Clone)]
pub struct ResponseContentPartAdded {
    pub event_id: String,
    pub response_id: String,
    pub item_id: String,
    pub output_index: u32,
    pub content_index: u32,
    pub part: ContentPart,
}

/// A content part reached its final state.
#[derive(Debug, Clone)]
pub struct ResponseContentPartDone {
    pub event_id: String,
    pub response_id: String,
    pub item_id: String,
    pub output_index: u32,
    pub content_index: u32,
    pub part: ContentPart,
}

/// A fragment of a text part.
#[derive(Debug, Clone)]
pub struct ResponseTextDelta {
    pub event_id: String,
    pub response_id: String,
    pub item_id: String,
    pub output_index: u32,
    pub content_index: u32,
    pub delta: String,
}

/// A text part's final text.
#[derive(Debug, Clone)]
pub struct ResponseTextDone {
    pub event_id: String,
    pub response_id: String,
    pub item_id: String,
    pub output_index: u32,
    pub content_index: u32,
    pub text: String,
}

/// A fragment of an audio part's transcript.
#[derive(Debug, Clone)]
pub struct ResponseOutputAudioTranscriptDelta {
    pub event_id: String,
    pub response_id: String,
    pub item_id: String,
    pub output_index: u32,
    pub content_index: u32,
    pub delta: String,
}

/// An audio part's final transcript.
#[derive(Debug, Clone)]
pub struct ResponseOutputAudioTranscriptDone {
    pub event_id: String,
    pub response_id: String,
    pub item_id: String,
    pub output_index: u32,
    pub content_index: u32,
    pub transcript: String,
}

/// A fragment of an audio part's sound data.
#[derive(Debug, Clone)]
pub struct ResponseOutputAudioDelta {
    pub event_id: String,
    pub response_id: String,
    pub item_id: String,
    pub output_index: u32,
    pub content_index: u32,
    pub delta: String,
}

/// An audio part's sound data ended.
#[derive(Debug, Clone)]
pub struct ResponseOutputAudioDone {
    pub event_id: String,
    pub response_id: String,
    pub item_id: String,
    pub output_index: u32,
    pub content_index: u32,
}

/// A fragment of a function call's arguments.
#[derive(Debug, Clone)]
pub struct ResponseFunctionCallArgumentsDelta {
    pub event_id: String,
    pub response_id: String,
    pub item_id: String,
    pub output_index: u32,
    pub call_id: String,
    pub delta: String,
}

/// A function call's final arguments.
#[derive(Debug, Clone)]
pub struct ResponseFunctionCallArgumentsDone {
    pub event_id: String,
    pub response_id: String,
    pub item_id: String,
    pub output_index: u32,
    pub call_id: String,
    pub arguments: String,
}

/// A fragment of a tool-server call's arguments.
#[derive(Debug, Clone)]
pub struct ResponseMcpCallArgumentsDelta {
    pub event_id: String,
    pub item_id: String,
    pub obfuscation: Option<String>,
    pub output_index: u32,
    pub response_id: String,
    pub delta: String,
}

/// A tool-server call's final arguments.
#[derive(Debug, Clone)]
pub struct ResponseMcpCallArgumentsDone {
    pub event_id: String,
    pub item_id: String,
    pub output_index: u32,
    pub response_id: String,
    pub arguments: String,
}

/// A tool-server call is running.
#[derive(Debug, Clone)]
pub struct ResponseMcpCallInProgress {
    pub event_id: String,
    pub item_id: String,
    pub output_index: u32,
}

/// A tool-server call finished.
#[derive(Debug, Clone)]
pub struct ResponseMcpCallCompleted {
    pub event_id: String,
    pub item_id: String,
    pub output_index: u32,
}

/// A tool-server call failed.
#[derive(Debug, Clone)]
pub struct ResponseMcpCallFailed {
    pub event_id: String,
    pub item_id: String,
    pub output_index: u32,
}

/// A tool-server listing is running.
#[derive(Debug, Clone)]
pub struct McpListToolsInProgress {
    pub event_id: String,
    pub item_id: String,
    pub output_index: u32,
}

/// A tool-server listing finished.
#[derive(Debug, Clone)]
pub struct McpListToolsCompleted {
    pub event_id: String,
    pub item_id: String,
    pub output_index: u32,
}

/// A tool-server listing failed.
#[derive(Debug, Clone)]
pub struct McpListToolsFailed {
    pub event_id: String,
    pub item_id: String,
    pub output_index: u32,
}

} // verus!
