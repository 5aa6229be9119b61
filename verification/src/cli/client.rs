//! Messages exchanged with the manager daemon, and how its replies are read.

use crate::cli::error::CliError;
use crate::text::owned;
use vstd::prelude::*;

verus! {

#[verifier::external_type_specification]
#[verifier::external_body]
pub struct ExJsonValue(serde_json::Value);

/// A request sent over the manager's socket.
#[derive(Debug)]
pub enum SocketRequest {
    CreateAiSession(CreateAiSessionRequest),
    GetProjectContext { project_path: String },
    GetProjectByPath { project_path: String },
    CompleteAiSession { session_id: String },
    FailAiSession { session_id: String },
    /// Records one-shot AI output for a session.
    RecordAiOutput { session_id: String, output: String },
}

/// A reply of the manager's socket.
#[derive(Debug)]
pub enum SocketResponse {
    Success { data: serde_json::Value },
    Error { message: String },
}

#[derive(Debug)]
pub struct CreateAiSessionRequest {
    pub project_id: Option<String>,
    pub tool_name: String,
    pub prompt: String,
}

#[derive(Debug)]
pub struct AiSession {
    pub id: String,
    pub project_id: Option<String>,
    pub tool_name: String,
    pub status: String,
    pub prompt: String,
    pub project_context: Option<String>,
    pub started_at: i64,
    pub ended_at: Option<i64>,
}

#[derive(Debug)]
pub struct CreateProjectRequest {
    pub name: String,
    pub path: Option<String>,
    pub language: Option<String>,
    pub framework: Option<String>,
    pub template: Option<String>,
}

#[derive(Debug)]
pub struct AddExistingProjectRequest {
    pub name: String,
    /// An existing directory.
    pub path: String,
    pub language: Option<String>,
    pub framework: Option<String>,
}

#[derive(Debug)]
pub struct Project {
    pub id: String,
    pub name: String,
    pub path: String,
    pub language: Option<String>,
    pub framework: Option<String>,
    pub status: String,
    pub created_at: i64,
    pub updated_at: i64,
}

#[derive(Debug)]
pub struct ProjectResponse {
    pub project: Project,
}

#[derive(Debug)]
pub struct ProjectTemplate {
    pub name: String,
    pub description: String,
    pub language: String,
    pub framework: Option<String>,
    pub files: Vec<TemplateFile>,
}

#[derive(Debug)]
pub struct TemplateFile {
    pub path: String,
    pub content: String,
    pub executable: bool,
}

/// The manager's HTTP address: the one given, else the local default.
pub fn manager_url_or_default(manager_url: Option<String>) -> (url: String)
    ensures
        url@ == match manager_url {
            Some(u) => u@,
            None => "http://localhost:8081"@,
        },
{
    match manager_url {
        Some(u) => u,
        None => owned("http://localhost:8081"),
    }
}

/// The error that a message of the manager becomes.
pub fn manager_error(message: &str) -> (e: CliError)
    ensures
        e matches CliError::Communication(m) && m@ == "Manager error: "@ + message@,
{
    let mut m = owned("Manager error: ");
    m.append(message);
    CliError::Communication(m)
}

/// The data of a successful reply; an error reply becomes a communication
/// error carrying the manager's message.
pub fn response_data(response: SocketResponse) -> (r: Result<serde_json::Value, CliError>)
    ensures
        match response {
            SocketResponse::Success { data } => r == Ok::<serde_json::Value, CliError>(data),
            SocketResponse::Error { message } => r matches Err(CliError::Communication(m)) && m@
                == "Manager error: "@ + message@,
        },
{
    match response {
        SocketResponse::Success { data } => Ok(data),
        SocketResponse::Error { message } => Err(manager_error(message.as_str())),
    }
}

/// The address of an endpoint of the manager's HTTP API.
pub fn manager_endpoint(manager_url: &str, path: &str) -> (url: String)
    ensures
        url@ == manager_url@ + path@,
{
    let mut url = owned(manager_url);
    url.append(path);
    url
}

/// The error when an HTTP request could not be made.
pub fn http_request_failed(reason: &str) -> (e: CliError)
    ensures
        e matches CliError::Communication(m) && m@ == "HTTP request failed: "@ + reason@,
{
    let mut m = owned("HTTP request failed: ");
    m.append(reason);
    CliError::Communication(m)
}

/// The error for a reply that is not a success: its status and its body,
/// or "Unknown error" when the body could not be read.
pub fn http_status_error(status: &str, body: Option<String>) -> (e: CliError)
    ensures
        e matches CliError::Communication(m) && m@ == "HTTP "@ + status@ + " error: "@ + match body {
            Some(b) => b@,
            None => "Unknown error"@,
        },
{
    let mut m = owned("HTTP ");
    m.append(status);
    m.append(" error: ");
    match body {
        Some(b) => m.append(b.as_str()),
        None => m.append("Unknown error"),
    }
    CliError::Communication(m)
}

/// The error when a reply could not be read.
pub fn response_parse_failed(reason: &str) -> (e: CliError)
    ensures
        e matches CliError::Communication(m) && m@ == "Failed to parse response: "@ + reason@,
{
    let mut m = owned("Failed to parse response: ");
    m.append(reason);
    CliError::Communication(m)
}

/// Whether the manager answered its health check: only a success (2xx)
/// counts; a failed request means it is not running.
pub fn manager_is_up(status: Option<u16>) -> (up: bool)
    ensures
        up == (status matches Some(s) && 200 <= s <= 299),
{
    match status {
        Some(s) => 200 <= s && s <= 299,
        None => false,
    }
}

} // verus!
