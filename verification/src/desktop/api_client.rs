//! The addresses of the manager's HTTP API and how its replies are judged.

use crate::text::{decimal_int, i64_to_decimal, owned};
use vstd::prelude::*;

verus! {

/// The characters that percent-encoding leaves as they are: ASCII letters,
/// digits and `-`, `_`, `.`, `~`.
pub open spec fn is_unreserved(c: char) -> bool {
    ('a' <= c <= 'z') || ('A' <= c <= 'Z') || ('0' <= c <= '9') || c == '-' || c == '_' || c == '.' || c == '~'
}

/// What `urlencoding::encode` gives for a text.
pub uninterp spec fn url_encoding(text: Seq<char>) -> Seq<char>;

/// Calls `urlencoding::encode`, which percent-encodes every byte of the
/// text's UTF-8 form except ASCII letters, digits and `-`, `_`, `.`, `~`.
/// The result is named `url_encoding`; stated of it: a text made only of
/// characters kept as they are comes back unchanged, and every character
/// of the result is such a character or `%`.
#[verifier::external_body]
fn url_encode(text: &str) -> (r: String)
    ensures
        r@ == url_encoding(text@),
        (forall|i: int| 0 <= i < text@.len() ==> is_unreserved(#[trigger] text@[i])) ==> r@ == text@,
        forall|i: int| 0 <= i < r@.len() ==> is_unreserved(#[trigger] r@[i]) || r@[i] == '%',
{
    urlencoding::encode(text).into_owned()
}

/// A client of the manager's HTTP API at a base URL.
#[derive(Debug, Clone)]
pub struct ApiClient {
    base_url: String,
}

/// Why a request to the API failed.
#[derive(Debug)]
pub enum ApiError {
    RequestFailed(String),
    /// The HTTP status code of a reply that was not a success.
    HttpStatus(u16),
    ParseFailed(String),
}

/// The error for a reply's status: none for a success (2xx).
pub fn status_error(status: u16) -> (e: Option<ApiError>)
    ensures
        match e {
            None => 200 <= status <= 299,
            Some(ApiError::HttpStatus(s)) => s == status && !(200 <= status <= 299),
            Some(_) => false,
        },
{
    if 200 <= status && status <= 299 {
        None
    } else {
        Some(ApiError::HttpStatus(status))
    }
}

impl ApiClient {
    /// A client of the API at `base_url`.
    pub fn new(base_url: String) -> (c: Self)
        ensures
            c.base_url() == base_url@,
    {
        ApiClient { base_url }
    }

    /// The base URL of the API.
    pub closed spec fn base_url(&self) -> Seq<char> {
        self.base_url@
    }

    /// The URL of an endpoint.
    pub fn endpoint(&self, path: &str) -> (url: String)
        ensures
            url@ == self.base_url() + path@,
    {
        let mut url = crate::documents::copy_string(&self.base_url);
        url.append(path);
        url
    }

    /// The URL of an endpoint about one item: `prefix`, its ID, `suffix`.
    pub fn item_endpoint(&self, prefix: &str, id: i64, suffix: &str) -> (url: String)
        ensures
            url@ == self.base_url() + prefix@ + decimal_int(id as int) + suffix@,
    {
        let mut url = self.endpoint(prefix);
        let digits = i64_to_decimal(id);
        url.append(digits.as_str());
        url.append(suffix);
        url
    }

    /// The list of projects.
    pub fn projects_url(&self) -> (url: String)
        ensures
            url@ == self.base_url() + "/api/projects"@,
    {
        self.endpoint("/api/projects")
    }

    /// The details of a project.
    pub fn project_details_url(&self, project_id: i64) -> (url: String)
        ensures
            url@ == self.base_url() + "/api/projects/"@ + decimal_int(project_id as int) + "/details"@,
    {
        self.item_endpoint("/api/projects/", project_id, "/details")
    }

    /// The list of works, and where a work is created.
    pub fn works_url(&self) -> (url: String)
        ensures
            url@ == self.base_url() + "/api/work"@,
    {
        self.endpoint("/api/work")
    }

    /// The messages of a work.
    pub fn work_messages_url(&self, work_id: i64) -> (url: String)
        ensures
            url@ == self.base_url() + "/api/work/"@ + decimal_int(work_id as int) + "/messages"@,
    {
        self.item_endpoint("/api/work/", work_id, "/messages")
    }

    /// The AI session outputs of a work.
    pub fn work_outputs_url(&self, work_id: i64) -> (url: String)
        ensures
            url@ == self.base_url() + "/api/work/"@ + decimal_int(work_id as int) + "/outputs"@,
    {
        self.item_endpoint("/api/work/", work_id, "/outputs")
    }

    /// The tool calls of a work.
    pub fn work_tool_calls_url(&self, work_id: i64) -> (url: String)
        ensures
            url@ == self.base_url() + "/api/work/"@ + decimal_int(work_id as int) + "/tool-calls"@,
    {
        self.item_endpoint("/api/work/", work_id, "/tool-calls")
    }

    /// The supported models.
    pub fn models_url(&self) -> (url: String)
        ensures
            url@ == self.base_url() + "/api/models"@,
    {
        self.endpoint("/api/models")
    }

    /// The settings.
    pub fn settings_url(&self) -> (url: String)
        ensures
            url@ == self.base_url() + "/api/settings"@,
    {
        self.endpoint("/api/settings")
    }

    /// Where the default projects path is set.
    pub fn projects_path_url(&self) -> (url: String)
        ensures
            url@ == self.base_url() + "/api/settings/projects-path"@,
    {
        self.endpoint("/api/settings/projects-path")
    }

    /// Where a scan of the projects path is started.
    pub fn scan_projects_url(&self) -> (url: String)
        ensures
            url@ == self.base_url() + "/api/projects/scan"@,
    {
        self.endpoint("/api/projects/scan")
    }

    /// Where the API keys are updated.
    pub fn api_keys_url(&self) -> (url: String)
        ensures
            url@ == self.base_url() + "/api/settings/api-keys"@,
    {
        self.endpoint("/api/settings/api-keys")
    }

    /// The files of a project, in a directory when one is given.
    pub fn files_url(&self, project_id: i64, path: Option<&str>) -> (url: String)
        ensures
            url@ == self.base_url() + "/api/files?project_id="@ + decimal_int(project_id as int) + match path {
                Some(p) => "&path="@ + url_encoding(p@),
                None => seq![],
            },
    {
        let mut url = self.item_endpoint("/api/files?project_id=", project_id, "");
        proof {
            reveal_strlit("");
        }
        if let Some(p) = path {
            let encoded = url_encode(p);
            url.append("&path=");
            url.append(encoded.as_str());
        }
        url
    }

    /// The content of a file of a project.
    pub fn file_content_url(&self, project_id: i64, path: &str) -> (url: String)
        ensures
            url@ == self.base_url() + "/api/files/"@ + url_encoding(path@) + "?project_id="@ + decimal_int(
                project_id as int,
            ),
    {
        let encoded = url_encode(path);
        let mut url = self.endpoint("/api/files/");
        url.append(encoded.as_str());
        url.append("?project_id=");
        let digits = i64_to_decimal(project_id);
        url.append(digits.as_str());
        url
    }
}

/// The base URL of a manager reached on a local port.
pub fn local_base_url(port: u16) -> (url: String)
    ensures
        url@ == "http://localhost:"@ + decimal_int(port as int),
{
    let mut url = owned("http://localhost:");
    let digits = i64_to_decimal(port as i64);
    url.append(digits.as_str());
    url
}

} // verus!
