//! Data types of the chat-completion endpoint.

use crate::v1::common;
use crate::v1::types;
use vstd::prelude::*;

verus! {

/// How the model may choose among the offered tools. `NoneChoice` is the
/// wire value `none`.
#[derive(Debug, PartialEq, Eq)]
pub enum ToolChoiceType {
    NoneChoice,
    Auto,
    Required,
    ToolChoice { tool: Tool },
}

/// How much reasoning effort the model should spend.
#[derive(Debug, Clone, PartialEq, Eq)]
pub enum ReasoningEffort {
    Low,
    Medium,
    High,
}

/// A reasoning budget, by effort class or by token count.
#[derive(Debug, Clone)]
pub enum ReasoningMode {
    Effort { effort: ReasoningEffort },
    MaxTokens { max_tokens: i64 },
}

/// Reasoning configuration of a request.
#[derive(Debug, Clone)]
pub struct Reasoning {
    pub mode: Option<ReasoningMode>,
    pub exclude: Option<bool>,
    pub enabled: Option<bool>,
}

/// The author role of a chat message.
#[derive(Debug, Clone, PartialEq, Eq)]
#[allow(non_camel_case_types)]
pub enum MessageRole {
    user,
    system,
    assistant,
    function,
    tool,
}

/// A message body: plain text, or a list of text and image parts.
#[derive(Debug, Clone, PartialEq, Eq)]
pub enum Content {
    Text(String),
    ImageUrl(Vec<ImageUrl>),
}

/// The kind of one message part.
#[derive(Debug, Clone, PartialEq, Eq)]
#[allow(non_camel_case_types)]
pub enum ContentType {
    text,
    image_url,
}

/// The target of an image part.
#[derive(Debug, Clone, PartialEq, Eq)]
pub struct ImageUrlType {
    pub url: String,
}

/// One part of a mixed message: text or an image reference. The `kind` field
/// is the wire field `type`.
#[derive(Debug, Clone, PartialEq, Eq)]
pub struct ImageUrl {
    pub kind: ContentType,
    pub text: Option<String>,
    pub image_url: Option<ImageUrlType>,
}

/// One message of a chat conversation, as sent in a request.
#[derive(Debug, Clone)]
pub struct ChatCompletionMessage {
    pub role: MessageRole,
    pub content: Content,
    pub name: Option<String>,
    pub tool_calls: Option<Vec<ToolCall>>,
    pub tool_call_id: Option<String>,
}

/// One message of a chat conversation, as returned in a response.
#[derive(Debug, Clone)]
pub struct ChatCompletionMessageForResponse {
    pub role: MessageRole,
    pub content: Option<String>,
    pub reasoning_content: Option<String>,
    pub name: Option<String>,
    pub tool_calls: Option<Vec<ToolCall>>,
}

/// One returned completion choice.
#[derive(Debug)]
pub struct ChatCompletionChoice {
    pub index: i64,
    pub message: ChatCompletionMessageForResponse,
    pub finish_reason: Option<FinishReason>,
    pub finish_details: Option<FinishDetails>,
}

/// A full, non-streamed chat-completion response.
#[derive(Debug)]
pub struct ChatCompletionResponse {
    pub id: Option<String>,
    pub object: String,
    pub created: i64,
    pub model: String,
    pub choices: Vec<ChatCompletionChoice>,
    pub usage: common::Usage,
    pub system_fingerprint: Option<String>,
}

/// Why the model stopped generating.
#[derive(Debug, PartialEq, Eq)]
#[allow(non_camel_case_types)]
pub enum FinishReason {
    stop,
    length,
    content_filter,
    tool_calls,
    null,
}

/// Details attached to the finish reason. The `kind` field is the wire field
/// `type`.
#[derive(Debug)]
pub struct FinishDetails {
    pub kind: FinishReason,
    pub stop: String,
}

/// A tool offered to the model. The `kind` field is the wire field `type`.
#[derive(Debug, PartialEq, Eq)]
pub struct Tool {
    pub kind: ToolType,
    pub function: types::Function,
}

/// The kind of an offered tool.
#[derive(Debug, Copy, Clone, PartialEq, Eq)]
pub enum ToolType {
    Function,
}

/// The function part of one streamed tool-call fragment: both fields arrive
/// incrementally and may be absent in any one fragment.
#[derive(Debug, Clone)]
pub struct ToolCallFunction {
    pub name: Option<String>,
    pub arguments: Option<String>,
}

/// Mathematical model of a tool-call function fragment.
pub struct ToolCallFunctionView {
    pub name: Option<Seq<char>>,
    pub arguments: Option<Seq<char>>,
}

impl View for ToolCallFunction {
    type V = ToolCallFunctionView;

    open spec fn view(&self) -> ToolCallFunctionView {
        ToolCallFunctionView { name: self.name.deep_view(), arguments: self.arguments.deep_view() }
    }
}

/// One streamed tool-call fragment: a call id, the call's kind (the wire
/// field `type`, in practice `"function"`), and the function fragment.
#[derive(Debug, Clone)]
pub struct ToolCall {
    pub id: String,
    pub kind: String,
    pub function: ToolCallFunction,
}

/// Mathematical model of a tool-call fragment.
pub struct ToolCallView {
    pub id: Seq<char>,
    pub kind: Seq<char>,
    pub function: ToolCallFunctionView,
}

impl View for ToolCall {
    type V = ToolCallView;

    open spec fn view(&self) -> ToolCallView {
        ToolCallView { id: self.id@, kind: self.kind@, function: self.function@ }
    }
}

} // verus!
