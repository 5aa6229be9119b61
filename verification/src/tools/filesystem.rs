//! File-system tool requests and responses.

use crate::documents::{json_array, json_number, json_object, json_string, json_view, no_entries, no_items, push_entry, push_item, JsonValue, JsonView};
use vstd::prelude::*;

verus! {

/// Whether an entry is a file or a directory.
#[derive(Debug, Clone, Copy, PartialEq, Eq, Structural)]
pub enum FileType {
    File,
    Directory,
}

/// An entry of a file listing.
#[derive(Debug, Clone, PartialEq)]
pub struct FileInfo {
    pub name: String,
    /// Path relative to the project root.
    pub path: String,
    /// Absolute path.
    pub absolute: String,
    pub file_type: FileType,
    /// Whether the entry is ignored by `.gitignore`.
    pub ignored: bool,
    /// Computed from `file_type`.
    pub is_directory: bool,
    /// Size in bytes; `None` for directories.
    pub size: Option<u64>,
    /// ISO 8601 modification time; `None` for directories.
    pub modified_at: Option<String>,
}

/// Request to list the files of a project directory.
#[derive(Debug)]
pub struct FileListRequest {
    pub project_id: Option<i64>,
    /// Relative path within the project; the root when absent.
    pub path: Option<String>,
    /// Git branch or worktree; the current branch when absent.
    pub git_branch: Option<String>,
}

/// A file listing.
#[derive(Debug)]
pub struct FileListResponse {
    pub files: Vec<FileInfo>,
    pub current_path: String,
    pub total_files: u32,
    /// Whether the listing was cut at the limit.
    pub truncated: bool,
    pub limit: u32,
}

/// Request to create a file or a directory.
#[derive(Debug)]
pub struct FileCreateRequest {
    pub project_id: i64,
    pub path: String,
    /// `None` for directories.
    pub content: Option<String>,
    pub is_directory: bool,
}

/// Request to replace a file's content.
#[derive(Debug)]
pub struct FileUpdateRequest {
    pub project_id: i64,
    pub content: String,
}

/// The content of a file.
#[derive(Debug)]
pub struct FileContentResponse {
    pub path: String,
    pub content: String,
    pub modified_at: Option<i64>,
}

/// A single file entry.
#[derive(Debug)]
pub struct FileResponse {
    pub file: FileInfo,
}

/// List files and directories in a given path.
#[derive(Debug, Clone)]
pub struct ListFilesRequest {
    pub path: String,
    pub recursive: Option<bool>,
    pub include_hidden: Option<bool>,
    pub max_files: Option<u32>,
}

/// Read the contents of a file.
#[derive(Debug, Clone)]
pub struct ReadFileRequest {
    pub path: String,
    pub max_size: Option<u64>,
}

/// Write or modify a file: either a full write with `content`, or a search
/// and replace with `search` and `replace`.
#[derive(Debug, Clone)]
pub struct WriteFileRequest {
    /// The file path to write to.
    pub path: String,
    /// Full content to write (for a full write).
    pub content: Option<String>,
    /// Whether to create parent directories that do not exist.
    pub create_dirs: Option<bool>,
    /// Whether to append to the file instead of overwriting it.
    pub append: Option<bool>,
    /// Text to search for (for search and replace).
    pub search: Option<String>,
    /// Text to replace the search text with.
    pub replace: Option<String>,
    /// Whether to create the file if it does not exist.
    pub create_if_not_exists: Option<bool>,
}

/// The message for a request with neither content nor a search and replace pair.
pub open spec fn missing_content_message() -> Seq<char> {
    "Either 'content' must be provided, or both 'search' and 'replace' must be provided"@
}

/// The message for a request with only one of search and replace.
pub open spec fn unpaired_search_message() -> Seq<char> {
    "Both 'search' and 'replace' must be provided together"@
}

impl WriteFileRequest {
    /// A request is well formed when it carries content or a search and
    /// replace pair, and never only one of search and replace.
    pub open spec fn is_well_formed(&self) -> bool {
        &&& (self.content is Some || (self.search is Some && self.replace is Some))
        &&& (self.search is Some == self.replace is Some)
    }

    /// Validates the request parameters.
    pub fn validate(&self) -> (res: Result<(), String>)
        ensures
            res is Ok <==> self.is_well_formed(),
            self.content is None && (self.search is None || self.replace is None) ==> (res matches Err(
                e,
            ) && e@ == missing_content_message()),
            !(self.content is None && (self.search is None || self.replace is None)) && (
            self.search is Some != self.replace is Some) ==> (res matches Err(e) && e@
                == unpaired_search_message()),
    {
        if self.content.is_none() && (self.search.is_none() || self.replace.is_none()) {
            return Err(
                String::from_str(
                    "Either 'content' must be provided, or both 'search' and 'replace' must be provided",
                ),
            );
        }
        if self.search.is_some() != self.replace.is_some() {
            return Err(String::from_str("Both 'search' and 'replace' must be provided together"));
        }
        Ok(())
    }
}

/// Apply a patch that creates, modifies, deletes or moves files.
///
/// The patch text has the form
/// `*** Begin Patch` … `*** End Patch`, with `*** Add File:`,
/// `*** Update File:` (optionally followed by `*** Move to:`) and
/// `*** Delete File:` sections; all paths are relative to the project root.
#[derive(Debug, Clone)]
pub struct ApplyPatchRequest {
    pub patch: String,
}

/// One file changed by a patch.
#[derive(Debug, Clone)]
pub struct ApplyPatchFileChange {
    pub path: String,
    /// "add", "update", "delete" or "move".
    pub operation: String,
    /// Destination of a move.
    pub new_path: Option<String>,
    /// Diff of an update.
    pub unified_diff: Option<String>,
}

/// Result of applying a patch.
#[derive(Debug, Clone)]
pub struct ApplyPatchResponse {
    pub success: bool,
    pub files_changed: Vec<ApplyPatchFileChange>,
    pub total_additions: usize,
    pub total_deletions: usize,
    pub message: String,
}

/// Result of the list-files tool.
#[derive(Debug, Clone)]
pub struct ListFilesResponse {
    pub current_path: String,
    /// Plain-text tree.
    pub files: String,
    pub total_files: u32,
    pub truncated: bool,
    pub limit: u32,
}

/// Result of the read-file tool.
#[derive(Debug, Clone)]
pub struct ReadFileResponse {
    pub path: String,
    pub content: String,
    pub size: u64,
    pub truncated: bool,
}

/// Result of the write-file tool.
#[derive(Debug, Clone)]
pub struct WriteFileResponse {
    pub path: String,
    pub success: bool,
    pub bytes_written: u64,
    pub created: bool,
    pub modified: bool,
}

/// An example JSON schema of a `ListFilesRequest`.
pub open spec fn list_files_schema() -> JsonView {
    JsonView::Object(
        Seq::empty()
        .push(("properties"@, JsonView::Object(
            Seq::empty()
            .push(("include_hidden"@, JsonView::Object(
                Seq::empty()
                .push(("default"@, JsonView::Bool(false)))
                .push(("description"@, JsonView::String("Whether to include hidden files"@)))
                .push(("type"@, JsonView::String("boolean"@))),
            )))
            .push(("max_files"@, JsonView::Object(
                Seq::empty()
                .push(("default"@, JsonView::Number("1000"@)))
                .push(("description"@, JsonView::String("Maximum number of files to return (default: 1000)"@)))
                .push(("type"@, JsonView::String("number"@))),
            )))
            .push(("path"@, JsonView::Object(
                Seq::empty()
                .push(("description"@, JsonView::String("The directory path to list files from"@)))
                .push(("type"@, JsonView::String("string"@))),
            )))
            .push(("recursive"@, JsonView::Object(
                Seq::empty()
                .push(("default"@, JsonView::Bool(false)))
                .push(("description"@, JsonView::String("Whether to list files recursively"@)))
                .push(("type"@, JsonView::String("boolean"@))),
            ))),
        )))
        .push(("required"@, JsonView::Array(
            Seq::empty()
            .push(JsonView::String("path"@)),
        )))
        .push(("type"@, JsonView::String("object"@))),
    )
}

impl ListFilesRequest {
    /// An example JSON schema of the request.
    pub fn example_schema() -> (schema: JsonValue)
        ensures
            json_view(schema) == list_files_schema(),
    {
        {
            let mut v1 = no_entries();
            push_entry(&mut v1, "properties", {
                let mut v2 = no_entries();
                push_entry(&mut v2, "include_hidden", {
                    let mut v3 = no_entries();
                    push_entry(&mut v3, "default", JsonValue::Bool(false));
                    push_entry(&mut v3, "description", json_string("Whether to include hidden files"));
                    push_entry(&mut v3, "type", json_string("boolean"));
                    json_object(v3)
                });
                push_entry(&mut v2, "max_files", {
                    let mut v4 = no_entries();
                    push_entry(&mut v4, "default", json_number("1000"));
                    push_entry(&mut v4, "description", json_string("Maximum number of files to return (default: 1000)"));
                    push_entry(&mut v4, "type", json_string("number"));
                    json_object(v4)
                });
                push_entry(&mut v2, "path", {
                    let mut v5 = no_entries();
                    push_entry(&mut v5, "description", json_string("The directory path to list files from"));
                    push_entry(&mut v5, "type", json_string("string"));
                    json_object(v5)
                });
                push_entry(&mut v2, "recursive", {
                    let mut v6 = no_entries();
                    push_entry(&mut v6, "default", JsonValue::Bool(false));
                    push_entry(&mut v6, "description", json_string("Whether to list files recursively"));
                    push_entry(&mut v6, "type", json_string("boolean"));
                    json_object(v6)
                });
                json_object(v2)
            });
            push_entry(&mut v1, "required", {
                let mut v7 = no_items();
                push_item(&mut v7, json_string("path"));
                json_array(v7)
            });
            push_entry(&mut v1, "type", json_string("object"));
            json_object(v1)
        }
    }
}

/// An example JSON schema of a `ReadFileRequest`.
pub open spec fn read_file_schema() -> JsonView {
    JsonView::Object(
        Seq::empty()
        .push(("properties"@, JsonView::Object(
            Seq::empty()
            .push(("max_size"@, JsonView::Object(
                Seq::empty()
                .push(("default"@, JsonView::Number("10000"@)))
                .push(("description"@, JsonView::String("Maximum number of bytes to read"@)))
                .push(("type"@, JsonView::String("number"@))),
            )))
            .push(("path"@, JsonView::Object(
                Seq::empty()
                .push(("description"@, JsonView::String("The file path to read"@)))
                .push(("type"@, JsonView::String("string"@))),
            ))),
        )))
        .push(("required"@, JsonView::Array(
            Seq::empty()
            .push(JsonView::String("path"@)),
        )))
        .push(("type"@, JsonView::String("object"@))),
    )
}

impl ReadFileRequest {
    /// An example JSON schema of the request.
    pub fn example_schema() -> (schema: JsonValue)
        ensures
            json_view(schema) == read_file_schema(),
    {
        {
            let mut v1 = no_entries();
            push_entry(&mut v1, "properties", {
                let mut v2 = no_entries();
                push_entry(&mut v2, "max_size", {
                    let mut v3 = no_entries();
                    push_entry(&mut v3, "default", json_number("10000"));
                    push_entry(&mut v3, "description", json_string("Maximum number of bytes to read"));
                    push_entry(&mut v3, "type", json_string("number"));
                    json_object(v3)
                });
                push_entry(&mut v2, "path", {
                    let mut v4 = no_entries();
                    push_entry(&mut v4, "description", json_string("The file path to read"));
                    push_entry(&mut v4, "type", json_string("string"));
                    json_object(v4)
                });
                json_object(v2)
            });
            push_entry(&mut v1, "required", {
                let mut v5 = no_items();
                push_item(&mut v5, json_string("path"));
                json_array(v5)
            });
            push_entry(&mut v1, "type", json_string("object"));
            json_object(v1)
        }
    }
}

/// An example JSON schema of a `WriteFileRequest`.
pub open spec fn write_file_schema() -> JsonView {
    JsonView::Object(
        Seq::empty()
        .push(("properties"@, JsonView::Object(
            Seq::empty()
            .push(("append"@, JsonView::Object(
                Seq::empty()
                .push(("default"@, JsonView::Bool(false)))
                .push(("description"@, JsonView::String("Whether to append to file instead of overwriting"@)))
                .push(("type"@, JsonView::String("boolean"@))),
            )))
            .push(("content"@, JsonView::Object(
                Seq::empty()
                .push(("description"@, JsonView::String("The content to write to file"@)))
                .push(("type"@, JsonView::String("string"@))),
            )))
            .push(("create_dirs"@, JsonView::Object(
                Seq::empty()
                .push(("default"@, JsonView::Bool(false)))
                .push(("description"@, JsonView::String("Whether to create parent directories if they don't exist"@)))
                .push(("type"@, JsonView::String("boolean"@))),
            )))
            .push(("create_if_not_exists"@, JsonView::Object(
                Seq::empty()
                .push(("default"@, JsonView::Bool(false)))
                .push(("description"@, JsonView::String("Whether to create file if it doesn't exist"@)))
                .push(("type"@, JsonView::String("boolean"@))),
            )))
            .push(("path"@, JsonView::Object(
                Seq::empty()
                .push(("description"@, JsonView::String("The file path to write to"@)))
                .push(("type"@, JsonView::String("string"@))),
            )))
            .push(("replace"@, JsonView::Object(
                Seq::empty()
                .push(("description"@, JsonView::String("Text to replace to search text with"@)))
                .push(("type"@, JsonView::String("string"@))),
            )))
            .push(("search"@, JsonView::Object(
                Seq::empty()
                .push(("description"@, JsonView::String("Text to search for (for search and replace operations)"@)))
                .push(("type"@, JsonView::String("string"@))),
            ))),
        )))
        .push(("required"@, JsonView::Array(
            Seq::empty()
            .push(JsonView::String("path"@)),
        )))
        .push(("type"@, JsonView::String("object"@))),
    )
}

impl WriteFileRequest {
    /// An example JSON schema of the request.
    pub fn example_schema() -> (schema: JsonValue)
        ensures
            json_view(schema) == write_file_schema(),
    {
        {
            let mut v1 = no_entries();
            push_entry(&mut v1, "properties", {
                let mut v2 = no_entries();
                push_entry(&mut v2, "append", {
                    let mut v3 = no_entries();
                    push_entry(&mut v3, "default", JsonValue::Bool(false));
                    push_entry(&mut v3, "description", json_string("Whether to append to file instead of overwriting"));
                    push_entry(&mut v3, "type", json_string("boolean"));
                    json_object(v3)
                });
                push_entry(&mut v2, "content", {
                    let mut v4 = no_entries();
                    push_entry(&mut v4, "description", json_string("The content to write to file"));
                    push_entry(&mut v4, "type", json_string("string"));
                    json_object(v4)
                });
                push_entry(&mut v2, "create_dirs", {
                    let mut v5 = no_entries();
                    push_entry(&mut v5, "default", JsonValue::Bool(false));
                    push_entry(&mut v5, "description", json_string("Whether to create parent directories if they don't exist"));
                    push_entry(&mut v5, "type", json_string("boolean"));
                    json_object(v5)
                });
                push_entry(&mut v2, "create_if_not_exists", {
                    let mut v6 = no_entries();
                    push_entry(&mut v6, "default", JsonValue::Bool(false));
                    push_entry(&mut v6, "description", json_string("Whether to create file if it doesn't exist"));
                    push_entry(&mut v6, "type", json_string("boolean"));
                    json_object(v6)
                });
                push_entry(&mut v2, "path", {
                    let mut v7 = no_entries();
                    push_entry(&mut v7, "description", json_string("The file path to write to"));
                    push_entry(&mut v7, "type", json_string("string"));
                    json_object(v7)
                });
                push_entry(&mut v2, "replace", {
                    let mut v8 = no_entries();
                    push_entry(&mut v8, "description", json_string("Text to replace to search text with"));
                    push_entry(&mut v8, "type", json_string("string"));
                    json_object(v8)
                });
                push_entry(&mut v2, "search", {
                    let mut v9 = no_entries();
                    push_entry(&mut v9, "description", json_string("Text to search for (for search and replace operations)"));
                    push_entry(&mut v9, "type", json_string("string"));
                    json_object(v9)
                });
                json_object(v2)
            });
            push_entry(&mut v1, "required", {
                let mut v10 = no_items();
                push_item(&mut v10, json_string("path"));
                json_array(v10)
            });
            push_entry(&mut v1, "type", json_string("object"));
            json_object(v1)
        }
    }
}

} // verus!
