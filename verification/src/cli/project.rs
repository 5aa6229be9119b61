//! `project add` and `init`: naming a project, detecting its framework and
//! building the requests sent to the manager.

use crate::cli::analyze::ProjectAnalysis;
use crate::cli::client::{AddExistingProjectRequest, CreateProjectRequest};
use crate::cli::error::CliError;
use crate::documents::copy_string;
use crate::text::{opt_str, owned, strings_contain, strs};
use vstd::prelude::*;

verus! {

/// What `std::path::Path::file_name` gives for a path, as text: the last
/// component unless it is `..`.
pub uninterp spec fn path_file_name(path: Seq<char>) -> Option<Seq<char>>;

/// Calls `std::path::Path::file_name` on `path`; the result is named
/// `path_file_name`, a function of the path alone. A `&str` holds UTF-8, so
/// the name is always readable as text.
#[verifier::external_body]
pub(crate) fn file_name_of(path: &str) -> (r: Option<String>)
    ensures
        opt_str(r) == path_file_name(path@),
{
    match std::path::Path::new(path).file_name() {
        Some(n) => match n.to_str() {
            Some(s) => Some(s.to_string()),
            None => None,
        },
        None => None,
    }
}

/// The name a package manifest gives, else the directory name.
pub open spec fn node_or_directory_name(a: ProjectAnalysis, dir_name: Option<Seq<char>>) -> Option<Seq<char>> {
    match a.node_info {
        Some(n) => match n.package_name {
            Some(name) => Some(name@),
            None => dir_name,
        },
        None => dir_name,
    }
}

/// The project name: the Rust package name, then the Node package name,
/// then the directory name.
pub open spec fn chosen_project_name(a: ProjectAnalysis, dir_name: Option<Seq<char>>) -> Option<Seq<char>> {
    match a.rust_info {
        Some(r) => match r.package_name {
            Some(name) => Some(name@),
            None => node_or_directory_name(a, dir_name),
        },
        None => node_or_directory_name(a, dir_name),
    }
}

/// The result of naming a project: the chosen name, or the analysis error
/// when there is none.
pub open spec fn project_name_result(res: Result<String, CliError>, chosen: Option<Seq<char>>) -> bool {
    match chosen {
        Some(n) => res matches Ok(s) && s@ == n,
        None => res matches Err(CliError::Analysis(m)) && m@ == "Could not determine project name from path"@,
    }
}

/// Names the project from its analysis, falling back on `dir_name`, the
/// last component of its path.
pub fn project_name_from(analysis: &ProjectAnalysis, dir_name: Option<String>) -> (res: Result<String, CliError>)
    ensures
        project_name_result(res, chosen_project_name(*analysis, opt_str(dir_name))),
{
    if let Some(rust_info) = &analysis.rust_info {
        if let Some(package_name) = &rust_info.package_name {
            return Ok(copy_string(package_name));
        }
    }
    if let Some(node_info) = &analysis.node_info {
        if let Some(package_name) = &node_info.package_name {
            return Ok(copy_string(package_name));
        }
    }
    match dir_name {
        Some(name) => Ok(name),
        None => Err(CliError::Analysis(owned("Could not determine project name from path"))),
    }
}

/// Names the project at `path` from its analysis: the Rust package name,
/// then the Node package name, then the directory name.
pub fn extract_project_name(path: &str, analysis: &ProjectAnalysis) -> (res: Result<String, CliError>)
    ensures
        project_name_result(res, chosen_project_name(*analysis, path_file_name(path@))),
{
    let dir_name = file_name_of(path);
    project_name_from(analysis, dir_name)
}

/// The framework that the dependencies of a package manifest show, checked
/// in a fixed order.
pub open spec fn framework_of_dependencies(deps: Seq<Seq<char>>) -> Option<Seq<char>> {
    if deps.contains("express"@) {
        Some("express"@)
    } else if deps.contains("react"@) {
        Some("react"@)
    } else if deps.contains("vue"@) {
        Some("vue"@)
    } else if deps.contains("angular"@) {
        Some("angular"@)
    } else if deps.contains("next"@) {
        Some("nextjs"@)
    } else {
        None
    }
}

/// The framework of an analyzed project: none is claimed for a Rust
/// project; a Node project's comes from its dependencies.
pub open spec fn framework_of(a: ProjectAnalysis) -> Option<Seq<char>> {
    match a.rust_info {
        Some(_) => None,
        None => match a.node_info {
            Some(n) => framework_of_dependencies(strs(n.dependencies@)),
            None => None,
        },
    }
}

/// The framework of an analyzed project.
pub fn detect_framework(analysis: &ProjectAnalysis) -> (r: Option<String>)
    ensures
        opt_str(r) == framework_of(*analysis),
{
    if analysis.rust_info.is_some() {
        return None;
    }
    if let Some(node_info) = &analysis.node_info {
        let deps = &node_info.dependencies;
        if strings_contain(deps, "express") {
            return Some(owned("express"));
        }
        if strings_contain(deps, "react") {
            return Some(owned("react"));
        }
        if strings_contain(deps, "vue") {
            return Some(owned("vue"));
        }
        if strings_contain(deps, "angular") {
            return Some(owned("angular"));
        }
        if strings_contain(deps, "next") {
            return Some(owned("nextjs"));
        }
    }
    None
}

/// The primary language of an analysis, when one was detected.
pub open spec fn language_of(a: ProjectAnalysis) -> Option<Seq<char>> {
    if a.primary_language@.len() == 0 {
        None
    } else {
        Some(a.primary_language@)
    }
}

/// The request that registers the analyzed project at `path` under `name`.
pub fn existing_project_request(analysis: &ProjectAnalysis, name: String, path: String) -> (req:
    AddExistingProjectRequest)
    ensures
        req.name@ == name@,
        req.path@ == path@,
        opt_str(req.language) == language_of(*analysis),
        opt_str(req.framework) == framework_of(*analysis),
{
    let language = if analysis.primary_language.as_str().is_empty() {
        None
    } else {
        Some(copy_string(&analysis.primary_language))
    };
    let framework = detect_framework(analysis);
    AddExistingProjectRequest { name, path, language, framework }
}

/// The name `init` gives a project: its directory name, else
/// "unnamed-project".
pub open spec fn init_name(dir_name: Option<Seq<char>>) -> Seq<char> {
    match dir_name {
        Some(n) => n,
        None => "unnamed-project"@,
    }
}

/// The name `init` gives a project whose directory name is `dir_name`.
pub fn init_project_name_from(dir_name: Option<String>) -> (name: String)
    ensures
        name@ == init_name(opt_str(dir_name)),
{
    match dir_name {
        Some(n) => n,
        None => owned("unnamed-project"),
    }
}

/// The name `init` gives the project at `path`.
pub fn init_project_name(path: &str) -> (name: String)
    ensures
        name@ == init_name(path_file_name(path@)),
{
    init_project_name_from(file_name_of(path))
}

/// The request that creates a project named after the last component of
/// `path`, with the template chosen, if any.
pub fn init_project_request(path: &str, template: Option<String>) -> (req: CreateProjectRequest)
    ensures
        req.name@ == init_name(path_file_name(path@)),
        opt_str(req.path) == Some(path@),
        req.language is None,
        req.framework is None,
        opt_str(req.template) == opt_str(template),
{
    let name = init_project_name(path);
    CreateProjectRequest { name, path: Some(owned(path)), language: None, framework: None, template }
}

/// The next steps shown after creating a project from a known template.
pub open spec fn next_steps_of(template: Seq<char>) -> Seq<Seq<char>> {
    if template == "rust-web-api"@ {
        seq![
            "\n🦀 Rust Web API next steps:"@,
            "   • cargo run - Start the development server"@,
            "   • cargo watch -x run - Auto-reload on changes"@,
            "   • Visit http://localhost:8080 to test"@,
        ]
    } else if template == "node-web-app"@ {
        seq![
            "\n🟢 Node.js Web App next steps:"@,
            "   • npm install - Install dependencies"@,
            "   • npm run dev - Start development server"@,
            "   • Visit http://localhost:3000 to test"@,
        ]
    } else if template == "static-site"@ {
        seq![
            "\n🌐 Static Site next steps:"@,
            "   • Open index.html in your browser"@,
            "   • python -m http.server 8000 - Local server"@,
            "   • Visit http://localhost:8000 to test"@,
        ]
    } else {
        seq![]
    }
}

fn four_lines(a: &str, b: &str, c: &str, d: &str) -> (v: Vec<String>)
    ensures
        strs(v@) == seq![a@, b@, c@, d@],
{
    let mut v: Vec<String> = Vec::new();
    v.push(owned(a));
    v.push(owned(b));
    v.push(owned(c));
    v.push(owned(d));
    assert(strs(v@) =~= seq![a@, b@, c@, d@]);
    v
}

/// The lines shown as next steps for a template; none for other names.
pub fn template_next_steps(template: &str) -> (lines: Vec<String>)
    ensures
        strs(lines@) == next_steps_of(template@),
{
    if crate::text::str_eq(template, "rust-web-api") {
        four_lines(
            "\n🦀 Rust Web API next steps:",
            "   • cargo run - Start the development server",
            "   • cargo watch -x run - Auto-reload on changes",
            "   • Visit http://localhost:8080 to test",
        )
    } else if crate::text::str_eq(template, "node-web-app") {
        four_lines(
            "\n🟢 Node.js Web App next steps:",
            "   • npm install - Install dependencies",
            "   • npm run dev - Start development server",
            "   • Visit http://localhost:3000 to test",
        )
    } else if crate::text::str_eq(template, "static-site") {
        four_lines(
            "\n🌐 Static Site next steps:",
            "   • Open index.html in your browser",
            "   • python -m http.server 8000 - Local server",
            "   • Visit http://localhost:8000 to test",
        )
    } else {
        let v: Vec<String> = Vec::new();
        assert(strs(v@) =~= seq![]);
        v
    }
}

} // verus!
