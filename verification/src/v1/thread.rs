//! Data types of the threads endpoint.

use std::collections::HashMap;
use vstd::prelude::*;

verus! {

/// A request to create a thread.
#[derive(Debug, Clone)]
pub struct CreateThreadRequest {
    pub messages: Option<Vec<Message>>,
    pub tool_resources: Option<ToolResource>,
    pub metadata: Option<HashMap<String, String>>,
}

impl CreateThreadRequest {
    /// A request with every optional field unset.
    pub fn new() -> (r: Self)
        ensures
            r.messages is None,
            r.tool_resources is None,
            r.metadata is None,
    {
        Self { messages: None, tool_resources: None, metadata: None }
    }
}

impl Default for CreateThreadRequest {
    /// The same as `new`.
    fn default() -> (r: Self)
        ensures
            r.messages is None,
            r.tool_resources is None,
            r.metadata is None,
    {
        Self::new()
    }
}

impl CreateThreadRequest {
    /// The same request with `messages` set.
    pub fn messages(self, messages: Vec<Message>) -> (r: Self)
        ensures
            r == (Self { messages: Some(messages), ..self }),
    {
        Self { messages: Some(messages), ..self }
    }

    /// The same request with `tool_resources` set.
    pub fn tool_resources(self, tool_resources: ToolResource) -> (r: Self)
        ensures
            r == (Self { tool_resources: Some(tool_resources), ..self }),
    {
        Self { tool_resources: Some(tool_resources), ..self }
    }
}

/// Resources made available to a thread's tools.
#[derive(Debug, Clone)]
pub struct ToolResource {
    pub code_interpreter: Option<CodeInterpreter>,
    pub file_search: Option<FileSearch>,
}

/// Files available to the code-interpreter tool.
#[derive(Debug, Clone)]
pub struct CodeInterpreter {
    pub file_ids: Option<Vec<String>>,
}

/// Vector stores available to the file-search tool.
#[derive(Debug, Clone)]
pub struct FileSearch {
    pub vector_store_ids: Option<Vec<String>>,
    pub vector_stores: Option<VectorStores>,
}

/// A vector store to create for the file-search tool.
#[derive(Debug, Clone)]
pub struct VectorStores {
    pub file_ids: Option<Vec<String>>,
    pub chunking_strategy: Option<String>,
    pub metadata: Option<HashMap<String, String>>,
}

/// The state of one thread.
#[derive(Debug)]
pub struct ThreadObject {
    pub id: String,
    pub object: String,
    pub created_at: i64,
    pub metadata: HashMap<String, String>,
    pub tool_resources: Option<ToolResource>,
}

/// One message carried by a thread.
#[derive(Debug, Clone)]
pub struct Message {
    pub id: String,
    pub object: String,
    pub created_at: i64,
    pub thread_id: String,
    pub role: MessageRole,
    pub content: Vec<Content>,
    pub assistant_id: Option<String>,
    pub run_id: Option<String>,
    pub attachments: Option<Vec<Attachment>>,
    pub metadata: Option<HashMap<String, String>>,
}

/// One content part of a thread message.
#[derive(Debug, Clone)]
pub struct Content {
    pub content_type: String,
    pub text: ContentText,
}

/// The text of a content part.
#[derive(Debug, Clone)]
pub struct ContentText {
    pub value: String,
    pub annotations: Vec<String>,
}

/// A file attached to a thread message.
#[derive(Debug, Clone)]
pub struct Attachment {
    pub file_id: String,
    pub tools: Vec<Tool>,
}

/// A tool an attachment is made available to. The `kind` field is the wire
/// field `type`.
#[derive(Debug, Clone)]
pub struct Tool {
    pub kind: String,
}

impl ModifyThreadRequest {
    /// The same request with `metadata` set.
    pub fn metadata(self, metadata: HashMap<String, String>) -> (r: Self)
        ensures
            r == (Self { metadata: Some(metadata), ..self }),
    {
        Self { metadata: Some(metadata), ..self }
    }
}

/// The author role of a thread message.
#[derive(Debug, Clone, PartialEq, Eq)]
#[allow(non_camel_case_types)]
pub enum MessageRole {
    user,
    system,
    assistant,
    function,
}

/// A request to modify a thread's metadata.
#[derive(Debug, Clone)]
pub struct ModifyThreadRequest {
    pub metadata: Option<HashMap<String, String>>,
}

impl ModifyThreadRequest {
    /// A request with no metadata set.
    pub fn new() -> (r: Self)
        ensures
            r.metadata is None,
    {
        Self { metadata: None }
    }
}

impl Default for ModifyThreadRequest {
    /// The same as `new`.
    fn default() -> (r: Self)
        ensures
            r.metadata is None,
    {
        Self::new()
    }
}

} // verus!
