//! Data types of the thread-messages endpoint.

use std::collections::HashMap;
use vstd::prelude::*;

verus! {

/// A request to add a message to a thread.
#[derive(Debug, Clone)]
pub struct CreateMessageRequest {
    pub role: MessageRole,
    pub content: String,
    pub attachments: Option<Vec<Attachment>>,
    pub metadata: Option<HashMap<String, String>>,
}

impl CreateMessageRequest {
    /// A request with the given role and content and every optional field
    /// unset.
    pub fn new(role: MessageRole, content: String) -> (r: Self)
        ensures
            r.role == role,
            r.content == content,
            r.attachments is None,
            r.metadata is None,
    {
        Self { role, content, attachments: None, metadata: None }
    }
}

impl CreateMessageRequest {
    /// The same request with `attachments` set.
    pub fn attachments(self, attachments: Vec<Attachment>) -> (r: Self)
        ensures
            r == (Self { attachments: Some(attachments), ..self }),
    {
        Self { attachments: Some(attachments), ..self }
    }

    /// The same request with `metadata` set.
    pub fn metadata(self, metadata: HashMap<String, String>) -> (r: Self)
        ensures
            r == (Self { metadata: Some(metadata), ..self }),
    {
        Self { metadata: Some(metadata), ..self }
    }
}

/// A request to modify a message's metadata.
#[derive(Debug, Clone)]
pub struct ModifyMessageRequest {
    pub metadata: Option<HashMap<String, String>>,
}

impl ModifyMessageRequest {
    /// A request with no metadata set.
    pub fn new() -> (r: Self)
        ensures
            r.metadata is None,
    {
        Self { metadata: None }
    }
}

impl Default for ModifyMessageRequest {
    /// The same as `new`.
    fn default() -> (r: Self)
        ensures
            r.metadata is None,
    {
        Self::new()
    }
}

impl ModifyMessageRequest {
    /// The same request with `metadata` set.
    pub fn metadata(self, metadata: HashMap<String, String>) -> (r: Self)
        ensures
            r == (Self { metadata: Some(metadata), ..self }),
    {
        Self { metadata: Some(metadata), ..self }
    }
}

/// One message of a thread.
#[derive(Debug)]
pub struct MessageObject {
    pub id: String,
    pub object: String,
    pub created_at: i64,
    pub thread_id: String,
    pub role: MessageRole,
    pub content: Vec<Content>,
    pub assistant_id: Option<String>,
    pub run_id: Option<String>,
    pub attachments: Option<Vec<Attachment>>,
    pub metadata: Option<HashMap<String, String>>,
}

/// A file attached to a message.
#[derive(Debug, Clone)]
pub struct Attachment {
    pub file_id: Option<String>,
    pub tools: Vec<Tool>,
}

/// A tool an attachment is made available to. The `kind` field is the wire
/// field `type`.
#[derive(Debug, Clone)]
pub struct Tool {
    pub kind: String,
}

/// The author role of a thread message.
#[derive(Debug, Clone, PartialEq, Eq)]
#[allow(non_camel_case_types)]
pub enum MessageRole {
    user,
    system,
    assistant,
    function,
}

/// One content part of a message.
#[derive(Debug)]
pub struct Content {
    pub content_type: String,
    pub text: ContentText,
}

/// The text of a content part, with its annotations.
#[derive(Debug)]
pub struct ContentText {
    pub value: String,
    pub annotations: Vec<ContentTextAnnotations>,
}

/// A page of thread messages.
#[derive(Debug)]
pub struct ListMessage {
    pub object: String,
    pub data: Vec<MessageObject>,
    pub first_id: String,
    pub last_id: String,
    pub has_more: bool,
}

/// A file attached to a message, as stored.
#[derive(Debug)]
pub struct MessageFileObject {
    pub id: String,
    pub object: String,
    pub created_at: i64,
    pub message_id: String,
}

/// A page of message files.
#[derive(Debug)]
pub struct ListMessageFile {
    pub object: String,
    pub data: Vec<MessageFileObject>,
    pub first_id: String,
    pub last_id: String,
    pub has_more: bool,
}

/// One annotation on a content part.
#[derive(Debug)]
pub enum ContentTextAnnotations {
    FileCitation(ContentTextAnnotationsFileCitationObject),
    FilePath(ContentTextAnnotationsFilePathObject),
}

/// A citation pointing into a file.
#[derive(Debug)]
pub struct ContentTextAnnotationsFileCitationObject {
    pub text: String,
    pub file_citation: FileCitation,
    pub start_index: u32,
    pub end_index: u32,
}

/// The file and quote a citation points at.
#[derive(Debug)]
pub struct FileCitation {
    pub file_id: String,
    pub quote: Option<String>,
}

/// An annotation pointing at a generated file.
#[derive(Debug)]
pub struct ContentTextAnnotationsFilePathObject {
    pub text: String,
    pub file_path: FilePath,
    pub start_index: u32,
    pub end_index: u32,
}

/// The file a path annotation points at.
#[derive(Debug)]
pub struct FilePath {
    pub file_id: String,
}

} // verus!
