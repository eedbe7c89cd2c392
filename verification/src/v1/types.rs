//! Function and schema data used by tool definitions.

use std::collections::HashMap;
use vstd::prelude::*;

verus! {

/// A callable function offered to the model.
#[derive(Debug, PartialEq, Eq)]
pub struct Function {
    pub name: String,
    pub description: Option<String>,
    pub parameters: FunctionParameters,
}

/// The JSON-schema type of a parameter.
#[derive(Debug, PartialEq, Eq)]
pub enum JSONSchemaType {
    Object,
    Number,
    String,
    Array,
    Null,
    Boolean,
}

/// One JSON-schema property definition.
#[derive(Debug, PartialEq, Eq)]
pub struct JSONSchemaDefine {
    pub schema_type: Option<JSONSchemaType>,
    pub description: Option<String>,
    pub enum_values: Option<Vec<String>>,
    pub properties: Option<HashMap<String, Box<JSONSchemaDefine>>>,
    pub required: Option<Vec<String>>,
    pub items: Option<Box<JSONSchemaDefine>>,
}

/// The schema of a function's parameters.
#[derive(Debug, PartialEq, Eq)]
pub struct FunctionParameters {
    pub schema_type: JSONSchemaType,
    pub properties: Option<HashMap<String, Box<JSONSchemaDefine>>>,
    pub required: Option<Vec<String>>,
}

/// A tool attached to an assistant: the code interpreter, file search, or a
/// function.
#[derive(Debug)]
pub enum Tools {
    CodeInterpreter,
    FileSearch(ToolsFileSearch),
    Function(ToolsFunction),
}

/// The file-search tool with its optional settings.
#[derive(Debug)]
pub struct ToolsFileSearch {
    pub file_search: Option<ToolsFileSearchObject>,
}

/// Settings of the file-search tool. The wire object can also carry a
/// floating-point `score_threshold` inside its ranking options; verified
/// code holds no floats, so the ranking options here carry the ranker alone.
#[derive(Debug)]
pub struct ToolsFileSearchObject {
    pub max_num_results: Option<u8>,
    pub ranking_options: Option<FileSearchRankingOptions>,
}

/// The ranking options of the file-search tool, less the floating-point
/// score threshold.
#[derive(Debug)]
pub struct FileSearchRankingOptions {
    pub ranker: Option<FileSearchRanker>,
}

/// A function offered as a tool.
#[derive(Debug)]
pub struct ToolsFunction {
    pub function: Function,
}

/// The ranker a file-search tool uses.
#[derive(Debug, Clone)]
pub enum FileSearchRanker {
    Auto,
    Default2024_08_21,
}

} // verus!
