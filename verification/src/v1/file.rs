//! Data types of the files endpoint.

use vstd::prelude::*;

verus! {

/// One stored file.
#[derive(Debug)]
pub struct FileData {
    pub id: String,
    pub object: String,
    pub bytes: i32,
    pub created_at: i64,
    pub filename: String,
    pub purpose: String,
}

/// A page of stored files.
#[derive(Debug)]
pub struct FileListResponse {
    pub object: String,
    pub data: Vec<FileData>,
}

/// A request to upload the file at a path, for a purpose.
#[derive(Debug)]
pub struct FileUploadRequest {
    pub file: String,
    pub purpose: String,
}

impl FileUploadRequest {
    /// A request carrying exactly the given fields.
    pub fn new(file: String, purpose: String) -> (r: Self)
        ensures
            r.file == file,
            r.purpose == purpose,
    {
        Self { file, purpose }
    }
}

/// The stored file an upload produced.
#[derive(Debug)]
pub struct FileUploadResponse {
    pub id: String,
    pub object: String,
    pub bytes: i32,
    pub created_at: i64,
    pub filename: String,
    pub purpose: String,
}

/// A request to delete a stored file.
#[derive(Debug)]
pub struct FileDeleteRequest {
    pub file_id: String,
}

impl FileDeleteRequest {
    /// A request for the given file.
    pub fn new(file_id: String) -> (r: Self)
        ensures
            r.file_id == file_id,
    {
        Self { file_id }
    }
}

/// The outcome of deleting a stored file.
#[derive(Debug)]
pub struct FileDeleteResponse {
    pub id: String,
    pub object: String,
    pub delete: bool,
}

/// The metadata of one stored file.
#[derive(Debug)]
pub struct FileRetrieveResponse {
    pub id: String,
    pub object: String,
    pub bytes: i32,
    pub created_at: i64,
    pub filename: String,
    pub purpose: String,
}

} // verus!
