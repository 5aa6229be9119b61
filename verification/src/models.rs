//! Data shared by the manager, the command-line client and the desktop client:
//! projects, works and their messages, AI and agent sessions, tool requests,
//! users, teams and settings.

use crate::clock::current_timestamp;
use crate::documents::{json_array, json_number, json_object, json_string, json_view, no_entries, no_items, push_entry, push_item, JsonValue, JsonView};
use vstd::prelude::*;

verus! {

#[derive(Debug, Clone)]
pub struct Project {
    pub id: i64,
    pub name: String,
    pub path: String,
    pub description: Option<String>,
    pub parent_id: Option<i64>,
    pub created_at: i64,
    pub updated_at: i64,
}

impl Project {
    /// A project not yet stored: no ID, description or parent, created and
    /// updated at `now`.
    pub fn new_at(name: String, path: String, now: i64) -> (p: Self)
        ensures
            p.id == 0,
            p.name == name,
            p.path == path,
            p.description is None,
            p.parent_id is None,
            p.created_at == now,
            p.updated_at == now,
    {
        Project { id: 0, name, path, description: None, parent_id: None, created_at: now, updated_at: now }
    }

    /// A project not yet stored, created and updated now.
    pub fn new(name: String, path: String) -> (p: Self)
        ensures
            p.id == 0,
            p.name == name,
            p.path == path,
            p.description is None,
            p.parent_id is None,
            p.created_at == p.updated_at,
    {
        Self::new_at(name, path, current_timestamp())
    }

    /// Sets the update time to `now`, leaving the rest unchanged.
    pub fn update_timestamp_at(&mut self, now: i64)
        ensures
            *final(self) == (Project { updated_at: now, ..*old(self) }),
    {
        self.updated_at = now;
    }

    /// Sets the update time to the current time, leaving the rest unchanged.
    pub fn update_timestamp(&mut self)
        ensures
            *final(self) == (Project { updated_at: final(self).updated_at, ..*old(self) }),
    {
        self.update_timestamp_at(current_timestamp());
    }
}


/// Component app within a project (e.g., backend API, web frontend, mobile app)
#[derive(Debug, Clone)]
pub struct ProjectComponent {
    pub id: i64,
    pub project_id: i64,
    pub name: String,
    /// Path relative to project root
    pub path: String,
    pub language: String,
    pub framework: Option<String>,
    pub created_at: i64,
}

impl ProjectComponent {
    /// A component not yet stored, created at `now`.
    pub fn new_at(
        project_id: i64,
        name: String,
        path: String,
        language: String,
        framework: Option<String>,
        now: i64,
    ) -> (c: Self)
        ensures
            c == (ProjectComponent { id: 0, project_id, name, path, language, framework, created_at: now }),
    {
        ProjectComponent { id: 0, project_id, name, path, language, framework, created_at: now }
    }

    /// A component not yet stored, created now.
    pub fn new(
        project_id: i64,
        name: String,
        path: String,
        language: String,
        framework: Option<String>,
    ) -> (c: Self)
        ensures
            c == (ProjectComponent { id: 0, project_id, name, path, language, framework, created_at: c.created_at }),
    {
        Self::new_at(project_id, name, path, language, framework, current_timestamp())
    }
}


#[derive(Debug, Clone)]
pub struct ProjectDetectionResult {
    pub primary_language: String,
    pub build_tools: Vec<String>,
    pub package_managers: Vec<String>,
    pub deployment_configs: Vec<String>,
}

#[derive(Debug)]
pub struct CreateProjectRequest {
    pub name: String,
    pub path: Option<String>,
    pub language: Option<String>,
    pub framework: Option<String>,
    pub template: Option<String>,
}

#[derive(Debug)]
pub struct ProjectResponse {
    pub project: Project,
}

#[derive(Debug)]
pub struct ProjectListResponse {
    pub projects: Vec<Project>,
}

#[derive(Debug)]
pub struct ProjectDetailsResponse {
    pub project: Project,
    pub components: Vec<ProjectComponent>,
}

#[derive(Debug)]
pub struct ServerStatus {
    pub status: String,
    pub version: String,
    pub uptime: u64,
}

#[derive(Debug, Clone)]
pub struct AiSession {
    pub id: i64,
    pub work_id: i64,
    pub message_id: i64,
    pub tool_name: String,
    pub status: String,
    pub project_context: Option<String>,
    pub started_at: i64,
    pub ended_at: Option<i64>,
}

impl AiSession {
    /// A session not yet stored, in status "started" since `now`.
    pub fn new_at(
        work_id: i64,
        message_id: i64,
        tool_name: String,
        project_context: Option<String>,
        now: i64,
    ) -> (s: Self)
        ensures
            s.id == 0,
            s.work_id == work_id,
            s.message_id == message_id,
            s.tool_name == tool_name,
            s.status@ == "started"@,
            s.project_context == project_context,
            s.started_at == now,
            s.ended_at is None,
    {
        AiSession {
            id: 0,
            work_id,
            message_id,
            tool_name,
            status: String::from_str("started"),
            project_context,
            started_at: now,
            ended_at: None,
        }
    }

    /// A session not yet stored, in status "started" since now.
    pub fn new(work_id: i64, message_id: i64, tool_name: String, project_context: Option<String>) -> (s: Self)
        ensures
            s.id == 0,
            s.work_id == work_id,
            s.message_id == message_id,
            s.tool_name == tool_name,
            s.status@ == "started"@,
            s.project_context == project_context,
            s.ended_at is None,
    {
        Self::new_at(work_id, message_id, tool_name, project_context, current_timestamp())
    }

    /// Marks the session "completed", ended at `now`.
    pub fn complete_at(&mut self, now: i64)
        ensures
            final(self).status@ == "completed"@,
            final(self).ended_at == Some(now),
            *final(self) == (AiSession { status: final(self).status, ended_at: Some(now), ..*old(self) }),
    {
        self.status = String::from_str("completed");
        self.ended_at = Some(now);
    }

    /// Marks the session "completed", ended now.
    pub fn complete(&mut self)
        ensures
            final(self).status@ == "completed"@,
            final(self).ended_at is Some,
            *final(self) == (AiSession { status: final(self).status, ended_at: final(self).ended_at, ..*old(self) }),
    {
        self.complete_at(current_timestamp());
    }

    /// Marks the session "failed", ended at `now`.
    pub fn fail_at(&mut self, now: i64)
        ensures
            final(self).status@ == "failed"@,
            final(self).ended_at == Some(now),
            *final(self) == (AiSession { status: final(self).status, ended_at: Some(now), ..*old(self) }),
    {
        self.status = String::from_str("failed");
        self.ended_at = Some(now);
    }

    /// Marks the session "failed", ended now.
    pub fn fail(&mut self)
        ensures
            final(self).status@ == "failed"@,
            final(self).ended_at is Some,
            *final(self) == (AiSession { status: final(self).status, ended_at: final(self).ended_at, ..*old(self) }),
    {
        self.fail_at(current_timestamp());
    }
}


#[derive(Debug)]
pub struct CreateAiSessionRequest {
    pub message_id: String,
    pub tool_name: String,
}

#[derive(Debug)]
pub struct AiSessionResponse {
    pub session: AiSession,
}

#[derive(Debug)]
pub struct AiSessionListResponse {
    pub sessions: Vec<AiSession>,
}

#[derive(Debug, Clone)]
pub struct AiSessionOutput {
    pub id: i64,
    pub session_id: i64,
    pub content: String,
    pub created_at: i64,
    /// Role of the message author: "assistant" for LLM responses, "tool" for tool responses
    pub role: Option<String>,
    /// Model name/ID used for this message (only for assistant messages)
    pub model: Option<String>,
}

/// Represents an AI session result that stores the response in a WorkMessage
#[derive(Debug, Clone)]
pub struct AiSessionResult {
    pub id: i64,
    pub session_id: i64,
    pub response_message_id: i64,
    pub status: String,
    pub created_at: i64,
    pub completed_at: Option<i64>,
}

impl AiSessionResult {
    /// A result not yet stored, "processing" since `now`.
    pub fn new_at(session_id: i64, response_message_id: i64, now: i64) -> (r: Self)
        ensures
            r.id == 0,
            r.session_id == session_id,
            r.response_message_id == response_message_id,
            r.status@ == "processing"@,
            r.created_at == now,
            r.completed_at is None,
    {
        AiSessionResult {
            id: 0,
            session_id,
            response_message_id,
            status: String::from_str("processing"),
            created_at: now,
            completed_at: None,
        }
    }

    /// A result not yet stored, "processing" since now.
    pub fn new(session_id: i64, response_message_id: i64) -> (r: Self)
        ensures
            r.id == 0,
            r.session_id == session_id,
            r.response_message_id == response_message_id,
            r.status@ == "processing"@,
            r.completed_at is None,
    {
        Self::new_at(session_id, response_message_id, current_timestamp())
    }

    /// Marks the result "completed" at `now`.
    pub fn complete_at(&mut self, now: i64)
        ensures
            final(self).status@ == "completed"@,
            *final(self) == (AiSessionResult { status: final(self).status, completed_at: Some(now), ..*old(self) }),
    {
        self.status = String::from_str("completed");
        self.completed_at = Some(now);
    }

    /// Marks the result "completed" now.
    pub fn complete(&mut self)
        ensures
            final(self).status@ == "completed"@,
            final(self).completed_at is Some,
            *final(self) == (AiSessionResult { status: final(self).status, completed_at: final(self).completed_at, ..*old(self) }),
    {
        self.complete_at(current_timestamp());
    }

    /// Marks the result "failed" at `now`.
    pub fn fail_at(&mut self, now: i64)
        ensures
            final(self).status@ == "failed"@,
            *final(self) == (AiSessionResult { status: final(self).status, completed_at: Some(now), ..*old(self) }),
    {
        self.status = String::from_str("failed");
        self.completed_at = Some(now);
    }

    /// Marks the result "failed" now.
    pub fn fail(&mut self)
        ensures
            final(self).status@ == "failed"@,
            final(self).completed_at is Some,
            *final(self) == (AiSessionResult { status: final(self).status, completed_at: final(self).completed_at, ..*old(self) }),
    {
        self.fail_at(current_timestamp());
    }
}


#[derive(Debug)]
pub struct AiSessionOutputListResponse {
    pub outputs: Vec<AiSessionOutput>,
}

#[derive(Debug)]
pub struct LlmAgentToolCallListResponse {
    pub tool_calls: Vec<LlmAgentToolCall>,
}

#[derive(Debug)]
pub struct AddExistingProjectRequest {
    pub name: String,
    pub path: String, // Required - must be existing directory
    pub language: Option<String>,
    pub framework: Option<String>,
}

// File operation models
#[derive(Debug, Clone, Copy, PartialEq, Eq, Structural)]
pub enum FileType {
    File,
    Directory,
}

#[derive(Debug, Clone, PartialEq)]
pub struct FileInfo {
    pub name: String,
    pub path: String,                // relative path
    pub absolute: String,            // absolute path
    pub file_type: FileType,         // enum: File, Directory
    pub ignored: bool,               // whether file is ignored by .gitignore
    pub is_directory: bool,          // computed from file_type
    pub size: Option<u64>,           // file size in bytes, None for directories
    pub modified_at: Option<String>, // ISO 8601 timestamp, None for directories
}

#[derive(Debug)]
pub struct FileListRequest {
    pub project_id: Option<i64>,
    pub path: Option<String>, // Relative path within project, defaults to root
    pub git_branch: Option<String>, // Git branch/worktree to use, defaults to current branch
}

#[derive(Debug)]
pub struct FileListResponse {
    pub files: Vec<FileInfo>, // List of files and directories
    pub current_path: String, // Current directory being listed
    pub total_files: u32,     // Total number of files found
    pub truncated: bool,      // Whether results were limited to 100
    pub limit: u32,           // Maximum files returned (100)
}

#[derive(Debug)]
pub struct FileCreateRequest {
    pub project_id: i64,
    pub path: String,            // Relative path within project
    pub content: Option<String>, // None for directories
    pub is_directory: bool,
}

#[derive(Debug)]
pub struct FileUpdateRequest {
    pub project_id: i64,
    pub content: String,
}

#[derive(Debug)]
pub struct FileContentResponse {
    pub path: String,
    pub content: String,
    pub modified_at: Option<i64>,
}

#[derive(Debug)]
pub struct FileResponse {
    pub file: FileInfo,
}

// Work history models
#[derive(Debug, Clone)]
pub enum MessageContentType {
    Text,
    Markdown,
    Json,
    Code { language: String },
}

#[derive(Debug, Clone, Copy, PartialEq, Eq, Structural)]
pub enum MessageAuthorType {
    User,
    Ai,
}

#[derive(Debug, Clone)]
pub struct WorkMessage {
    pub id: i64,
    pub work_id: i64,
    pub content: String,
    pub content_type: MessageContentType,
    pub author_type: MessageAuthorType,
    pub author_id: Option<String>,
    pub sequence_order: i32,
    pub created_at: i64,
}

#[derive(Debug, Clone)]
pub struct Work {
    pub id: i64,
    pub title: String,
    pub project_id: Option<i64>,
    pub model: Option<String>, // Model ID for the work
    pub status: String,
    pub created_at: i64,
    pub updated_at: i64,
    pub git_branch: Option<String>, // Git branch for worktree support
    pub working_directory: Option<String>, // Absolute path to working directory (set at creation)
}

#[derive(Debug)]
pub struct WorkWithHistory {
    pub work: Work,
    pub messages: Vec<WorkMessage>,
    pub total_messages: i32,
}

#[derive(Debug)]
pub struct AddMessageRequest {
    pub content: String,
    pub content_type: MessageContentType,
    pub author_type: MessageAuthorType,
    pub author_id: Option<String>,
}

#[derive(Debug)]
pub struct CreateWorkRequest {
    pub title: String,
    pub project_id: Option<i64>,
    pub model: Option<String>, // Model ID for the work
    pub auto_start: bool, // Whether to automatically start LLM agent session (default: true)
    pub tool_name: Option<String>, // Tool to use for auto-started session (default: "llm-agent")
    pub git_branch: Option<String>, // Git branch for worktree support
}

/// Whether a work starts its agent session on creation when the request does
/// not say: it does.
pub fn default_auto_start() -> (b: bool)
    ensures
        b,
{
    true
}


#[derive(Debug)]
pub struct WorkResponse {
    pub work: Work,
}

#[derive(Debug)]
pub struct WorkListResponse {
    pub works: Vec<Work>,
}

#[derive(Debug)]
pub struct WorkMessageResponse {
    pub message: WorkMessage,
}

#[derive(Debug)]
pub struct WorkMessageListResponse {
    pub messages: Vec<WorkMessage>,
}

// LLM Agent Types for Issue 99

/// Tool request from LLM (typed JSON)
#[derive(Debug, Clone)]
pub enum ToolRequest {
    ListFiles(ListFilesRequest),
    ReadFile(ReadFileRequest),
    WriteFile(WriteFileRequest),
    Grep(GrepRequest),
    Bash(BashRequest),
}

/// List files tool request
#[derive(Debug, Clone)]
pub struct ListFilesRequest {
    pub path: String,
    pub recursive: Option<bool>,
    pub include_hidden: Option<bool>,
    pub max_files: Option<u32>,
}


/// Read file tool request
#[derive(Debug, Clone)]
pub struct ReadFileRequest {
    pub path: String,
    pub max_size: Option<u64>,
}


/// Write file tool request
#[derive(Debug, Clone)]
pub struct WriteFileRequest {
    pub path: String,
    pub content: String,
    pub create_dirs: Option<bool>,
    pub append: Option<bool>,
    pub search: Option<String>,
    pub replace: Option<String>,
    pub create_if_not_exists: Option<bool>,
}


/// Grep search tool request
#[derive(Debug, Clone)]
pub struct GrepRequest {
    pub pattern: String,
    pub path: Option<String>,
    pub include_pattern: Option<String>,
    pub exclude_pattern: Option<String>,
    pub recursive: Option<bool>,
    pub case_sensitive: Option<bool>,
    pub include_line_numbers: Option<bool>,
    pub max_results: Option<u32>,
}


/// Bash command execution tool request
#[derive(Debug, Clone)]
pub struct BashRequest {
    pub command: String,
    pub working_dir: Option<String>,
    pub timeout_secs: Option<u64>,
    pub description: Option<String>,
}


/// Tool response to LLM (typed JSON)
#[derive(Debug, Clone)]
pub enum ToolResponse {
    ListFiles(ListFilesResponse),
    ReadFile(ReadFileResponse),
    WriteFile(WriteFileResponse),
    Grep(GrepResponse),
    Bash(BashResponse),
    Error(ToolErrorResponse),
}

/// List files tool response
#[derive(Debug, Clone)]
pub struct ListFilesResponse {
    pub current_path: String,
    pub files: String, // Plain text tree representation
    pub total_files: u32,
    pub truncated: bool,
    pub limit: u32,
}

/// Read file tool response
#[derive(Debug, Clone)]
pub struct ReadFileResponse {
    pub path: String,
    pub content: String,
    pub size: u64,
    pub truncated: bool,
}

/// Write file tool response
#[derive(Debug, Clone)]
pub struct WriteFileResponse {
    pub path: String,
    pub success: bool,
    pub bytes_written: u64,
    pub created: bool,
    pub modified: bool,
}

/// Grep match result
#[derive(Debug, Clone)]
pub struct GrepMatch {
    pub file_path: String,
    pub line_number: Option<u32>,
    pub line_content: String,
    pub match_start: u32,
    pub match_end: u32,
    pub matched_text: String,
}

/// Grep search tool response
#[derive(Debug, Clone)]
pub struct GrepResponse {
    pub pattern: String,
    pub matches: Vec<GrepMatch>,
    pub total_matches: u32,
    pub files_searched: u32,
    pub truncated: bool,
}

/// Bash command execution tool response
#[derive(Debug, Clone)]
pub struct BashResponse {
    pub command: String,
    pub working_dir: Option<String>,
    pub stdout: String,
    pub stderr: String,
    pub exit_code: i32,
    pub timed_out: bool,
    /// Bit pattern of the IEEE-754 execution time in seconds.
    pub execution_time_secs_bits: u64,
}

/// Tool error response
#[derive(Debug, Clone)]
pub struct ToolErrorResponse {
    pub tool: String,
    pub error: String,
    pub message: String,
}

/// LLM provider configuration
#[derive(Debug, Clone)]
pub struct LlmProviderConfig {
    pub provider: String,
    pub model: String,
    pub api_key: String,
    pub base_url: Option<String>,
    pub max_tokens: Option<u32>,
    /// Bit pattern of the IEEE-754 single-precision temperature.
    pub temperature_bits: Option<u32>,
}

/// LLM agent session
#[derive(Debug, Clone)]
pub struct LlmAgentSession {
    pub id: i64,
    pub work_id: i64,
    pub provider: String,
    pub model: String,
    pub status: String,
    pub system_prompt: Option<String>,
    pub started_at: i64,
    pub ended_at: Option<i64>,
}

impl LlmAgentSession {
    /// A session not yet stored, "running" since `now`, without a system prompt.
    pub fn new_at(work_id: i64, provider: String, model: String, now: i64) -> (s: Self)
        ensures
            s.id == 0,
            s.work_id == work_id,
            s.provider == provider,
            s.model == model,
            s.status@ == "running"@,
            s.system_prompt is None,
            s.started_at == now,
            s.ended_at is None,
    {
        LlmAgentSession {
            id: 0,
            work_id,
            provider,
            model,
            status: String::from_str("running"),
            system_prompt: None,
            started_at: now,
            ended_at: None,
        }
    }

    /// A session not yet stored, "running" since now.
    pub fn new(work_id: i64, provider: String, model: String) -> (s: Self)
        ensures
            s.id == 0,
            s.work_id == work_id,
            s.provider == provider,
            s.model == model,
            s.status@ == "running"@,
            s.system_prompt is None,
            s.ended_at is None,
    {
        Self::new_at(work_id, provider, model, current_timestamp())
    }

    /// Marks the session "failed", ended at `now`.
    pub fn fail_at(&mut self, now: i64)
        ensures
            final(self).status@ == "failed"@,
            *final(self) == (LlmAgentSession { status: final(self).status, ended_at: Some(now), ..*old(self) }),
    {
        self.status = String::from_str("failed");
        self.ended_at = Some(now);
    }

    /// Marks the session "failed", ended now.
    pub fn fail(&mut self)
        ensures
            final(self).status@ == "failed"@,
            final(self).ended_at is Some,
            *final(self) == (LlmAgentSession { status: final(self).status, ended_at: final(self).ended_at, ..*old(self) }),
    {
        self.fail_at(current_timestamp());
    }
}


/// Create LLM agent session request
#[derive(Debug)]
pub struct CreateLlmAgentSessionRequest {
    pub provider: String,
    pub model: String,
    pub system_prompt: Option<String>,
}

/// LLM agent message
#[derive(Debug, Clone)]
pub struct LlmAgentMessage {
    pub id: i64,
    pub session_id: i64,
    pub role: String, // "user" | "assistant" | "system"
    pub content: String,
    pub created_at: i64,
}

/// LLM agent tool call
#[derive(Debug)]
pub struct LlmAgentToolCall {
    pub id: i64,
    pub session_id: i64,
    pub message_id: Option<i64>,
    pub tool_name: String,
    pub request: JsonValue,
    pub response: Option<JsonValue>,
    pub status: String, // "pending" | "executing" | "completed" | "failed"
    pub created_at: i64,
    pub completed_at: Option<i64>,
    pub execution_time_ms: Option<i64>,
    pub progress_updates: Option<String>, // JSON array of progress updates
    pub error_details: Option<String>,
}

/// Whether `v` is the JSON object `{"error": error}`.
pub open spec fn is_error_object(v: JsonValue, error: Seq<char>) -> bool {
    &&& v matches JsonValue::Object(entries)
    &&& entries@.len() == 1
    &&& entries@[0].0@ == "error"@
    &&& entries@[0].1 matches JsonValue::String(s)
    &&& s@ == error
}

/// The JSON object `{"error": error}`.
fn error_object(error: String) -> (v: JsonValue)
    ensures
        is_error_object(v, error@),
{
    let mut entries: Vec<(String, JsonValue)> = Vec::new();
    entries.push((String::from_str("error"), JsonValue::String(error)));
    proof {
        reveal_strlit("error");
    }
    JsonValue::Object(entries)
}

impl LlmAgentToolCall {
    /// A "pending" call created at `now`, whose ID is that time.
    pub fn new_at(session_id: i64, tool_name: String, request: JsonValue, now: i64) -> (c: Self)
        ensures
            c.id == now,
            c.session_id == session_id,
            c.message_id is None,
            c.tool_name == tool_name,
            c.request == request,
            c.response is None,
            c.status@ == "pending"@,
            c.created_at == now,
            c.completed_at is None,
            c.execution_time_ms is None,
            c.progress_updates is None,
            c.error_details is None,
    {
        LlmAgentToolCall {
            id: now,
            session_id,
            message_id: None,
            tool_name,
            request,
            response: None,
            status: String::from_str("pending"),
            created_at: now,
            completed_at: None,
            execution_time_ms: None,
            progress_updates: None,
            error_details: None,
        }
    }

    /// A "pending" call created now, whose ID is its creation time.
    pub fn new(session_id: i64, tool_name: String, request: JsonValue) -> (c: Self)
        ensures
            c.id == c.created_at,
            c.session_id == session_id,
            c.message_id is None,
            c.tool_name == tool_name,
            c.request == request,
            c.response is None,
            c.status@ == "pending"@,
            c.completed_at is None,
            c.execution_time_ms is None,
            c.progress_updates is None,
            c.error_details is None,
    {
        Self::new_at(session_id, tool_name, request, current_timestamp())
    }

    /// Records the response and marks the call "completed" at `now`.
    pub fn complete_at(&mut self, response: JsonValue, now: i64)
        ensures
            final(self).status@ == "completed"@,
            *final(self) == (LlmAgentToolCall {
                response: Some(response),
                status: final(self).status,
                completed_at: Some(now),
                ..*old(self)
            }),
    {
        self.response = Some(response);
        self.status = String::from_str("completed");
        self.completed_at = Some(now);
    }

    /// Records the response and marks the call "completed" now.
    pub fn complete(&mut self, response: JsonValue)
        ensures
            final(self).status@ == "completed"@,
            final(self).completed_at is Some,
            *final(self) == (LlmAgentToolCall {
                response: Some(response),
                status: final(self).status,
                completed_at: final(self).completed_at,
                ..*old(self)
            }),
    {
        self.complete_at(response, current_timestamp());
    }

    /// Records `{"error": error}` as the response and marks the call "failed" at `now`.
    pub fn fail_at(&mut self, error: String, now: i64)
        ensures
            final(self).status@ == "failed"@,
            final(self).response matches Some(r) && is_error_object(r, error@),
            *final(self) == (LlmAgentToolCall {
                response: final(self).response,
                status: final(self).status,
                completed_at: Some(now),
                ..*old(self)
            }),
    {
        self.response = Some(error_object(error));
        self.status = String::from_str("failed");
        self.completed_at = Some(now);
    }

    /// Records `{"error": error}` as the response and marks the call "failed" now.
    pub fn fail(&mut self, error: String)
        ensures
            final(self).status@ == "failed"@,
            final(self).response matches Some(r) && is_error_object(r, error@),
            final(self).completed_at is Some,
            *final(self) == (LlmAgentToolCall {
                response: final(self).response,
                status: final(self).status,
                completed_at: final(self).completed_at,
                ..*old(self)
            }),
    {
        self.fail_at(error, current_timestamp());
    }
}


/// API key configuration for the settings page
#[derive(Debug, Clone)]
pub struct ApiKeyConfig {
    pub name: String,
    pub key: Option<String>, // Will be masked for security
    pub is_configured: bool,
}

/// Settings response containing API keys and configuration info
#[derive(Debug, Clone)]
pub struct SettingsResponse {
    pub config_file_path: String,
    pub api_keys: Vec<ApiKeyConfig>,
    pub projects_default_path: Option<String>,
}

/// Supported model information
#[derive(Debug, Clone)]
pub struct SupportedModel {
    pub provider: String,
    pub model_id: String,
    pub name: String,
    pub context_length: u32,
    pub supports_streaming: bool,
    pub supports_tool_calling: bool,
    pub supports_vision: bool,
    pub supports_reasoning: bool,
    /// Bit pattern of the IEEE-754 input cost per token.
    pub input_cost_per_token_bits: Option<u64>,
    /// Bit pattern of the IEEE-754 output cost per token.
    pub output_cost_per_token_bits: Option<u64>,
    /// Bit pattern of the IEEE-754 single-precision default temperature.
    pub default_temperature_bits: Option<u32>,
    pub default_max_tokens: Option<u32>,
}

/// Response containing list of supported models
#[derive(Debug, Clone)]
pub struct SupportedModelsResponse {
    pub models: Vec<SupportedModel>,
}

/// Request for updating API keys
#[derive(Debug, Clone)]
pub struct UpdateApiKeysRequest {
    pub xai_api_key: Option<String>,
    pub openai_api_key: Option<String>,
    pub anthropic_api_key: Option<String>,
    pub zai_api_key: Option<String>,
    pub zai_coding_plan: Option<bool>,
}

// ============ Authentication & User Management ============

/// Login request with username, password, and SSH fingerprint
#[derive(Debug, Clone)]
pub struct LoginRequest {
    pub username: String,
    pub password: String,
    pub ssh_fingerprint: String, // SHA256 fingerprint from client
}

/// Login response with JWT token and user info
#[derive(Debug, Clone)]
pub struct LoginResponse {
    pub token: String,
    pub user: UserInfo,
}

/// User information returned after login
#[derive(Debug, Clone)]
pub struct UserInfo {
    pub id: i64,
    pub username: String,
    pub email: String,
}

/// Request to create a new user (registration)
#[derive(Debug, Clone)]
pub struct CreateUserRequest {
    pub username: String,
    pub email: Option<String>,
    pub password: String,
    pub ssh_public_key: String,
    pub ssh_fingerprint: String,
}

/// Response after user creation/registration
#[derive(Debug, Clone)]
pub struct UserResponse {
    pub user: User,
}

/// User model (full details, including password hash - only for internal use)
#[derive(Debug, Clone)]
pub struct User {
    pub id: i64,
    pub name: String,
    pub email: String,
    pub role: Option<String>, // Never send password hash to client
    pub password_hash: String,
    pub is_active: bool,
    pub created_at: i64,
    pub updated_at: i64,
    pub last_login_at: Option<i64>,
}

#[derive(Clone)]
pub struct UserWithTeams {
    pub user: User,
    pub teams: Vec<Team>,
}


pub struct UserDetailResponse {
    pub user: User,
    pub teams: Vec<Team>,
}


pub struct UpdateUserRequest {
    pub name: Option<String>,
    pub email: Option<String>,
    pub team_ids: Option<Vec<i64>>, // Update team memberships
}


pub struct SearchQuery {
    pub q: String,
}

#[derive(Clone)]
pub struct Team {
    pub id: i64,
    pub name: String,
    pub description: Option<String>,
    pub created_at: i64,
    pub updated_at: i64,
    pub created_by: i64,
}


pub struct TeamListResponse {
    pub teams: Vec<TeamListItem>,
}

// Clean models specifically for user list display
#[derive(Debug, Clone)]
pub struct UserListItem {
    pub id: i64,
    pub name: String,
    pub email: String,
    pub teams: Vec<TeamItem>,
}

#[derive(Debug, Clone)]
pub struct TeamItem {
    pub id: i64,
    pub name: String,
}


pub struct UserListResponse {
    pub users: Vec<UserListItem>,
}

// Clean models specifically for team list display
#[derive(Debug, Clone)]
pub struct TeamListItem {
    pub id: i64,
    pub name: String,
    pub description: Option<String>,
    pub permissions: Vec<PermissionItem>,
}

#[derive(Debug, Clone)]
pub struct PermissionItem {
    pub id: i64,
    pub resource_type: String,
    pub resource_id: Option<i64>,
    pub action: String,
}

// Permission model for full permission details
#[derive(Debug, Clone)]
pub struct Permission {
    pub id: i64,
    pub team_id: i64,
    pub resource_type: String,
    pub resource_id: Option<i64>,
    pub action: String,
    pub granted_by: Option<i64>,
    pub granted_at: i64,
}

// Request model for updating teams
#[derive(Debug, Clone)]
pub struct UpdateTeamRequest {
    pub name: Option<String>,
    pub description: Option<String>,
}

/// Git branch information for worktree support
#[derive(Debug, Clone)]
pub struct GitBranch {
    pub name: String,
    pub is_worktree: bool,
    pub path: Option<String>, // Path for worktree branches
}

/// Response containing list of git branches with worktree information
#[derive(Debug, Clone)]
pub struct GitBranchListResponse {
    pub branches: Vec<GitBranch>,
}

/// Request to add an authorized SSH key to the server
#[derive(Debug, Clone)]
pub struct AddAuthorizedSshKeyRequest {
    pub public_key: String,
}

/// Response for adding an authorized SSH key
#[derive(Debug, Clone)]
pub struct AddAuthorizedSshKeyResponse {
    pub success: bool,
    pub message: String,
}

/// Response containing user's teams (for current user)
#[derive(Debug, Clone)]
pub struct CurrentUserTeamsResponse {
    pub teams: Vec<TeamItem>,
}

/// An example JSON schema of a `ListFilesRequest`.
pub open spec fn list_files_schema() -> JsonView {
    JsonView::Object(
        Seq::empty()
        .push(("properties"@, JsonView::Object(
            Seq::empty()
            .push(("include_hidden"@, JsonView::Object(
                Seq::empty()
                .push(("default"@, JsonView::Bool(false)))
                .push(("description"@, JsonView::String("Whether to include hidden files"@)))
                .push(("type"@, JsonView::String("boolean"@))),
            )))
            .push(("max_files"@, JsonView::Object(
                Seq::empty()
                .push(("default"@, JsonView::Number("1000"@)))
                .push(("description"@, JsonView::String("Maximum number of files to return (default: 1000)"@)))
                .push(("type"@, JsonView::String("number"@))),
            )))
            .push(("path"@, JsonView::Object(
                Seq::empty()
                .push(("description"@, JsonView::String("The directory path to list files from"@)))
                .push(("type"@, JsonView::String("string"@))),
            )))
            .push(("recursive"@, JsonView::Object(
                Seq::empty()
                .push(("default"@, JsonView::Bool(false)))
                .push(("description"@, JsonView::String("Whether to list files recursively"@)))
                .push(("type"@, JsonView::String("boolean"@))),
            ))),
        )))
        .push(("required"@, JsonView::Array(
            Seq::empty()
            .push(JsonView::String("path"@)),
        )))
        .push(("type"@, JsonView::String("object"@))),
    )
}

impl ListFilesRequest {
    /// An example JSON schema of the request.
    pub fn example_schema() -> (schema: JsonValue)
        ensures
            json_view(schema) == list_files_schema(),
    {
        {
            let mut v1 = no_entries();
            push_entry(&mut v1, "properties", {
                let mut v2 = no_entries();
                push_entry(&mut v2, "include_hidden", {
                    let mut v3 = no_entries();
                    push_entry(&mut v3, "default", JsonValue::Bool(false));
                    push_entry(&mut v3, "description", json_string("Whether to include hidden files"));
                    push_entry(&mut v3, "type", json_string("boolean"));
                    json_object(v3)
                });
                push_entry(&mut v2, "max_files", {
                    let mut v4 = no_entries();
                    push_entry(&mut v4, "default", json_number("1000"));
                    push_entry(&mut v4, "description", json_string("Maximum number of files to return (default: 1000)"));
                    push_entry(&mut v4, "type", json_string("number"));
                    json_object(v4)
                });
                push_entry(&mut v2, "path", {
                    let mut v5 = no_entries();
                    push_entry(&mut v5, "description", json_string("The directory path to list files from"));
                    push_entry(&mut v5, "type", json_string("string"));
                    json_object(v5)
                });
                push_entry(&mut v2, "recursive", {
                    let mut v6 = no_entries();
                    push_entry(&mut v6, "default", JsonValue::Bool(false));
                    push_entry(&mut v6, "description", json_string("Whether to list files recursively"));
                    push_entry(&mut v6, "type", json_string("boolean"));
                    json_object(v6)
                });
                json_object(v2)
            });
            push_entry(&mut v1, "required", {
                let mut v7 = no_items();
                push_item(&mut v7, json_string("path"));
                json_array(v7)
            });
            push_entry(&mut v1, "type", json_string("object"));
            json_object(v1)
        }
    }
}

/// An example JSON schema of a `ReadFileRequest`.
pub open spec fn read_file_schema() -> JsonView {
    JsonView::Object(
        Seq::empty()
        .push(("properties"@, JsonView::Object(
            Seq::empty()
            .push(("max_size"@, JsonView::Object(
                Seq::empty()
                .push(("default"@, JsonView::Number("10000"@)))
                .push(("description"@, JsonView::String("Maximum number of bytes to read"@)))
                .push(("type"@, JsonView::String("number"@))),
            )))
            .push(("path"@, JsonView::Object(
                Seq::empty()
                .push(("description"@, JsonView::String("The file path to read"@)))
                .push(("type"@, JsonView::String("string"@))),
            ))),
        )))
        .push(("required"@, JsonView::Array(
            Seq::empty()
            .push(JsonView::String("path"@)),
        )))
        .push(("type"@, JsonView::String("object"@))),
    )
}

impl ReadFileRequest {
    /// An example JSON schema of the request.
    pub fn example_schema() -> (schema: JsonValue)
        ensures
            json_view(schema) == read_file_schema(),
    {
        {
            let mut v1 = no_entries();
            push_entry(&mut v1, "properties", {
                let mut v2 = no_entries();
                push_entry(&mut v2, "max_size", {
                    let mut v3 = no_entries();
                    push_entry(&mut v3, "default", json_number("10000"));
                    push_entry(&mut v3, "description", json_string("Maximum number of bytes to read"));
                    push_entry(&mut v3, "type", json_string("number"));
                    json_object(v3)
                });
                push_entry(&mut v2, "path", {
                    let mut v4 = no_entries();
                    push_entry(&mut v4, "description", json_string("The file path to read"));
                    push_entry(&mut v4, "type", json_string("string"));
                    json_object(v4)
                });
                json_object(v2)
            });
            push_entry(&mut v1, "required", {
                let mut v5 = no_items();
                push_item(&mut v5, json_string("path"));
                json_array(v5)
            });
            push_entry(&mut v1, "type", json_string("object"));
            json_object(v1)
        }
    }
}

/// An example JSON schema of a `WriteFileRequest`.
pub open spec fn write_file_schema() -> JsonView {
    JsonView::Object(
        Seq::empty()
        .push(("properties"@, JsonView::Object(
            Seq::empty()
            .push(("append"@, JsonView::Object(
                Seq::empty()
                .push(("default"@, JsonView::Bool(false)))
                .push(("description"@, JsonView::String("Whether to append to the file instead of overwriting"@)))
                .push(("type"@, JsonView::String("boolean"@))),
            )))
            .push(("content"@, JsonView::Object(
                Seq::empty()
                .push(("description"@, JsonView::String("The content to write to the file"@)))
                .push(("type"@, JsonView::String("string"@))),
            )))
            .push(("create_dirs"@, JsonView::Object(
                Seq::empty()
                .push(("default"@, JsonView::Bool(false)))
                .push(("description"@, JsonView::String("Whether to create parent directories if they don't exist"@)))
                .push(("type"@, JsonView::String("boolean"@))),
            )))
            .push(("create_if_not_exists"@, JsonView::Object(
                Seq::empty()
                .push(("default"@, JsonView::Bool(false)))
                .push(("description"@, JsonView::String("Whether to create the file if it doesn't exist"@)))
                .push(("type"@, JsonView::String("boolean"@))),
            )))
            .push(("path"@, JsonView::Object(
                Seq::empty()
                .push(("description"@, JsonView::String("The file path to write to"@)))
                .push(("type"@, JsonView::String("string"@))),
            )))
            .push(("replace"@, JsonView::Object(
                Seq::empty()
                .push(("description"@, JsonView::String("Text to replace the search text with"@)))
                .push(("type"@, JsonView::String("string"@))),
            )))
            .push(("search"@, JsonView::Object(
                Seq::empty()
                .push(("description"@, JsonView::String("Text to search for (for search and replace operations)"@)))
                .push(("type"@, JsonView::String("string"@))),
            ))),
        )))
        .push(("required"@, JsonView::Array(
            Seq::empty()
            .push(JsonView::String("path"@))
            .push(JsonView::String("content"@)),
        )))
        .push(("type"@, JsonView::String("object"@))),
    )
}

impl WriteFileRequest {
    /// An example JSON schema of the request.
    pub fn example_schema() -> (schema: JsonValue)
        ensures
            json_view(schema) == write_file_schema(),
    {
        {
            let mut v1 = no_entries();
            push_entry(&mut v1, "properties", {
                let mut v2 = no_entries();
                push_entry(&mut v2, "append", {
                    let mut v3 = no_entries();
                    push_entry(&mut v3, "default", JsonValue::Bool(false));
                    push_entry(&mut v3, "description", json_string("Whether to append to the file instead of overwriting"));
                    push_entry(&mut v3, "type", json_string("boolean"));
                    json_object(v3)
                });
                push_entry(&mut v2, "content", {
                    let mut v4 = no_entries();
                    push_entry(&mut v4, "description", json_string("The content to write to the file"));
                    push_entry(&mut v4, "type", json_string("string"));
                    json_object(v4)
                });
                push_entry(&mut v2, "create_dirs", {
                    let mut v5 = no_entries();
                    push_entry(&mut v5, "default", JsonValue::Bool(false));
                    push_entry(&mut v5, "description", json_string("Whether to create parent directories if they don't exist"));
                    push_entry(&mut v5, "type", json_string("boolean"));
                    json_object(v5)
                });
                push_entry(&mut v2, "create_if_not_exists", {
                    let mut v6 = no_entries();
                    push_entry(&mut v6, "default", JsonValue::Bool(false));
                    push_entry(&mut v6, "description", json_string("Whether to create the file if it doesn't exist"));
                    push_entry(&mut v6, "type", json_string("boolean"));
                    json_object(v6)
                });
                push_entry(&mut v2, "path", {
                    let mut v7 = no_entries();
                    push_entry(&mut v7, "description", json_string("The file path to write to"));
                    push_entry(&mut v7, "type", json_string("string"));
                    json_object(v7)
                });
                push_entry(&mut v2, "replace", {
                    let mut v8 = no_entries();
                    push_entry(&mut v8, "description", json_string("Text to replace the search text with"));
                    push_entry(&mut v8, "type", json_string("string"));
                    json_object(v8)
                });
                push_entry(&mut v2, "search", {
                    let mut v9 = no_entries();
                    push_entry(&mut v9, "description", json_string("Text to search for (for search and replace operations)"));
                    push_entry(&mut v9, "type", json_string("string"));
                    json_object(v9)
                });
                json_object(v2)
            });
            push_entry(&mut v1, "required", {
                let mut v10 = no_items();
                push_item(&mut v10, json_string("path"));
                push_item(&mut v10, json_string("content"));
                json_array(v10)
            });
            push_entry(&mut v1, "type", json_string("object"));
            json_object(v1)
        }
    }
}

/// An example JSON schema of a `GrepRequest`.
pub open spec fn grep_schema() -> JsonView {
    JsonView::Object(
        Seq::empty()
        .push(("properties"@, JsonView::Object(
            Seq::empty()
            .push(("case_sensitive"@, JsonView::Object(
                Seq::empty()
                .push(("default"@, JsonView::Bool(false)))
                .push(("description"@, JsonView::String("Whether the search is case sensitive"@)))
                .push(("type"@, JsonView::String("boolean"@))),
            )))
            .push(("exclude_pattern"@, JsonView::Object(
                Seq::empty()
                .push(("description"@, JsonView::String("File pattern to exclude from search"@)))
                .push(("type"@, JsonView::String("string"@))),
            )))
            .push(("include_line_numbers"@, JsonView::Object(
                Seq::empty()
                .push(("default"@, JsonView::Bool(true)))
                .push(("description"@, JsonView::String("Whether to include line numbers in results"@)))
                .push(("type"@, JsonView::String("boolean"@))),
            )))
            .push(("include_pattern"@, JsonView::Object(
                Seq::empty()
                .push(("description"@, JsonView::String("File pattern to include in search (e.g., '*.rs')"@)))
                .push(("type"@, JsonView::String("string"@))),
            )))
            .push(("max_results"@, JsonView::Object(
                Seq::empty()
                .push(("default"@, JsonView::Number("100"@)))
                .push(("description"@, JsonView::String("Maximum number of results to return"@)))
                .push(("type"@, JsonView::String("number"@))),
            )))
            .push(("path"@, JsonView::Object(
                Seq::empty()
                .push(("default"@, JsonView::String("."@)))
                .push(("description"@, JsonView::String("The directory path to search in"@)))
                .push(("type"@, JsonView::String("string"@))),
            )))
            .push(("pattern"@, JsonView::Object(
                Seq::empty()
                .push(("description"@, JsonView::String("The regex pattern to search for"@)))
                .push(("type"@, JsonView::String("string"@))),
            )))
            .push(("recursive"@, JsonView::Object(
                Seq::empty()
                .push(("default"@, JsonView::Bool(true)))
                .push(("description"@, JsonView::String("Whether to search recursively"@)))
                .push(("type"@, JsonView::String("boolean"@))),
            ))),
        )))
        .push(("required"@, JsonView::Array(
            Seq::empty()
            .push(JsonView::String("pattern"@)),
        )))
        .push(("type"@, JsonView::String("object"@))),
    )
}

impl GrepRequest {
    /// An example JSON schema of the request.
    pub fn example_schema() -> (schema: JsonValue)
        ensures
            json_view(schema) == grep_schema(),
    {
        {
            let mut v1 = no_entries();
            push_entry(&mut v1, "properties", {
                let mut v2 = no_entries();
                push_entry(&mut v2, "case_sensitive", {
                    let mut v3 = no_entries();
                    push_entry(&mut v3, "default", JsonValue::Bool(false));
                    push_entry(&mut v3, "description", json_string("Whether the search is case sensitive"));
                    push_entry(&mut v3, "type", json_string("boolean"));
                    json_object(v3)
                });
                push_entry(&mut v2, "exclude_pattern", {
                    let mut v4 = no_entries();
                    push_entry(&mut v4, "description", json_string("File pattern to exclude from search"));
                    push_entry(&mut v4, "type", json_string("string"));
                    json_object(v4)
                });
                push_entry(&mut v2, "include_line_numbers", {
                    let mut v5 = no_entries();
                    push_entry(&mut v5, "default", JsonValue::Bool(true));
                    push_entry(&mut v5, "description", json_string("Whether to include line numbers in results"));
                    push_entry(&mut v5, "type", json_string("boolean"));
                    json_object(v5)
                });
                push_entry(&mut v2, "include_pattern", {
                    let mut v6 = no_entries();
                    push_entry(&mut v6, "description", json_string("File pattern to include in search (e.g., '*.rs')"));
                    push_entry(&mut v6, "type", json_string("string"));
                    json_object(v6)
                });
                push_entry(&mut v2, "max_results", {
                    let mut v7 = no_entries();
                    push_entry(&mut v7, "default", json_number("100"));
                    push_entry(&mut v7, "description", json_string("Maximum number of results to return"));
                    push_entry(&mut v7, "type", json_string("number"));
                    json_object(v7)
                });
                push_entry(&mut v2, "path", {
                    let mut v8 = no_entries();
                    push_entry(&mut v8, "default", json_string("."));
                    push_entry(&mut v8, "description", json_string("The directory path to search in"));
                    push_entry(&mut v8, "type", json_string("string"));
                    json_object(v8)
                });
                push_entry(&mut v2, "pattern", {
                    let mut v9 = no_entries();
                    push_entry(&mut v9, "description", json_string("The regex pattern to search for"));
                    push_entry(&mut v9, "type", json_string("string"));
                    json_object(v9)
                });
                push_entry(&mut v2, "recursive", {
                    let mut v10 = no_entries();
                    push_entry(&mut v10, "default", JsonValue::Bool(true));
                    push_entry(&mut v10, "description", json_string("Whether to search recursively"));
                    push_entry(&mut v10, "type", json_string("boolean"));
                    json_object(v10)
                });
                json_object(v2)
            });
            push_entry(&mut v1, "required", {
                let mut v11 = no_items();
                push_item(&mut v11, json_string("pattern"));
                json_array(v11)
            });
            push_entry(&mut v1, "type", json_string("object"));
            json_object(v1)
        }
    }
}

/// An example JSON schema of a `BashRequest`.
pub open spec fn bash_schema() -> JsonView {
    JsonView::Object(
        Seq::empty()
        .push(("properties"@, JsonView::Object(
            Seq::empty()
            .push(("command"@, JsonView::Object(
                Seq::empty()
                .push(("description"@, JsonView::String("The bash command to execute"@)))
                .push(("type"@, JsonView::String("string"@))),
            )))
            .push(("description"@, JsonView::Object(
                Seq::empty()
                .push(("description"@, JsonView::String("Optional description of what the command does"@)))
                .push(("type"@, JsonView::String("string"@))),
            )))
            .push(("timeout_secs"@, JsonView::Object(
                Seq::empty()
                .push(("default"@, JsonView::Number("120"@)))
                .push(("description"@, JsonView::String("Timeout in seconds (default: 120)"@)))
                .push(("type"@, JsonView::String("number"@))),
            )))
            .push(("working_dir"@, JsonView::Object(
                Seq::empty()
                .push(("description"@, JsonView::String("Working directory for command execution"@)))
                .push(("type"@, JsonView::String("string"@))),
            ))),
        )))
        .push(("required"@, JsonView::Array(
            Seq::empty()
            .push(JsonView::String("command"@)),
        )))
        .push(("type"@, JsonView::String("object"@))),
    )
}

impl BashRequest {
    /// An example JSON schema of the request.
    pub fn example_schema() -> (schema: JsonValue)
        ensures
            json_view(schema) == bash_schema(),
    {
        {
            let mut v1 = no_entries();
            push_entry(&mut v1, "properties", {
                let mut v2 = no_entries();
                push_entry(&mut v2, "command", {
                    let mut v3 = no_entries();
                    push_entry(&mut v3, "description", json_string("The bash command to execute"));
                    push_entry(&mut v3, "type", json_string("string"));
                    json_object(v3)
                });
                push_entry(&mut v2, "description", {
                    let mut v4 = no_entries();
                    push_entry(&mut v4, "description", json_string("Optional description of what the command does"));
                    push_entry(&mut v4, "type", json_string("string"));
                    json_object(v4)
                });
                push_entry(&mut v2, "timeout_secs", {
                    let mut v5 = no_entries();
                    push_entry(&mut v5, "default", json_number("120"));
                    push_entry(&mut v5, "description", json_string("Timeout in seconds (default: 120)"));
                    push_entry(&mut v5, "type", json_string("number"));
                    json_object(v5)
                });
                push_entry(&mut v2, "working_dir", {
                    let mut v6 = no_entries();
                    push_entry(&mut v6, "description", json_string("Working directory for command execution"));
                    push_entry(&mut v6, "type", json_string("string"));
                    json_object(v6)
                });
                json_object(v2)
            });
            push_entry(&mut v1, "required", {
                let mut v7 = no_items();
                push_item(&mut v7, json_string("command"));
                json_array(v7)
            });
            push_entry(&mut v1, "type", json_string("object"));
            json_object(v1)
        }
    }
}

} // verus!
