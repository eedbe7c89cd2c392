//! Data types of the assistants endpoint.

use crate::v1::types;
use std::collections::HashMap;
use vstd::prelude::*;

verus! {

/// A request to create or modify an assistant.
#[derive(Debug, Clone)]
pub struct AssistantRequest {
    pub model: String,
    pub name: Option<String>,
    pub description: Option<String>,
    pub instructions: Option<String>,
    pub tools: Option<Vec<HashMap<String, String>>>,
    pub tool_resources: Option<ToolResource>,
    pub metadata: Option<HashMap<String, String>>,
}

impl AssistantRequest {
    /// A request for the given model with every optional field unset.
    pub fn new(model: String) -> (r: Self)
        ensures
            r.model == model,
            r.name is None,
            r.description is None,
            r.instructions is None,
            r.tools is None,
            r.tool_resources is None,
            r.metadata is None,
    {
        Self {
            model,
            name: None,
            description: None,
            instructions: None,
            tools: None,
            tool_resources: None,
            metadata: None,
        }
    }
}

impl AssistantRequest {
    /// The same request with `name` set.
    pub fn name(self, name: String) -> (r: Self)
        ensures
            r == (Self { name: Some(name), ..self }),
    {
        Self { name: Some(name), ..self }
    }

    /// The same request with `description` set.
    pub fn description(self, description: String) -> (r: Self)
        ensures
            r == (Self { description: Some(description), ..self }),
    {
        Self { description: Some(description), ..self }
    }

    /// The same request with `instructions` set.
    pub fn instructions(self, instructions: String) -> (r: Self)
        ensures
            r == (Self { instructions: Some(instructions), ..self }),
    {
        Self { instructions: Some(instructions), ..self }
    }

    /// The same request with `tools` set.
    pub fn tools(self, tools: Vec<HashMap<String, String>>) -> (r: Self)
        ensures
            r == (Self { tools: Some(tools), ..self }),
    {
        Self { tools: Some(tools), ..self }
    }

    /// The same request with `tool_resources` set.
    pub fn tool_resources(self, tool_resources: ToolResource) -> (r: Self)
        ensures
            r == (Self { tool_resources: Some(tool_resources), ..self }),
    {
        Self { tool_resources: Some(tool_resources), ..self }
    }

    /// The same request with `metadata` set.
    pub fn metadata(self, metadata: HashMap<String, String>) -> (r: Self)
        ensures
            r == (Self { metadata: Some(metadata), ..self }),
    {
        Self { metadata: Some(metadata), ..self }
    }
}

/// Resources made available to an assistant's tools.
#[derive(Debug, Clone)]
pub struct ToolResource {
    pub code_interpreter: Option<CodeInterpreter>,
    pub file_search: Option<FileSearch>,
}

/// Files available to the code-interpreter tool.
#[derive(Debug, Clone)]
pub struct CodeInterpreter {
    pub file_ids: Option<Vec<String>>,
}

/// Vector stores available to the file-search tool.
#[derive(Debug, Clone)]
pub struct FileSearch {
    pub vector_store_ids: Option<Vec<String>>,
    pub vector_stores: Option<VectorStores>,
}

/// A vector store to create for the file-search tool.
#[derive(Debug, Clone)]
pub struct VectorStores {
    pub file_ids: Option<Vec<String>>,
    pub chunking_strategy: Option<String>,
    pub metadata: Option<HashMap<String, String>>,
}

/// The state of one assistant.
#[derive(Debug)]
pub struct AssistantObject {
    pub id: String,
    pub object: String,
    pub created_at: i64,
    pub name: Option<String>,
    pub description: Option<String>,
    pub model: String,
    pub instructions: Option<String>,
    pub tools: Vec<types::Tools>,
    pub tool_resources: Option<ToolResource>,
    pub metadata: Option<HashMap<String, String>>,
}

/// A page of assistants.
#[derive(Debug)]
pub struct ListAssistant {
    pub object: String,
    pub data: Vec<AssistantObject>,
}

/// The outcome of deleting an assistant.
#[derive(Debug)]
pub struct DeletionStatus {
    pub id: String,
    pub object: String,
    pub deleted: bool,
}

/// A request to attach a file to an assistant.
#[derive(Debug, Clone)]
pub struct AssistantFileRequest {
    pub file_id: String,
}

/// A file attached to an assistant.
#[derive(Debug)]
pub struct AssistantFileObject {
    pub id: String,
    pub object: String,
    pub created_at: i64,
    pub assistant_id: String,
}

/// A page of files attached to an assistant.
#[derive(Debug)]
pub struct ListAssistantFile {
    pub object: String,
    pub data: Vec<AssistantFileObject>,
}

} // verus!
