use nocodo::cli::analyze::{
    NodeProjectInfo, PackageManager, ProjectAnalysis, ProjectType, RustProjectInfo,
};
use nocodo::cli::error::CliError;
use nocodo::cli::project::{
    detect_framework, existing_project_request, extract_project_name, init_project_name,
    init_project_request, project_name_from, template_next_steps,
};

fn rust_info(name: Option<&str>) -> RustProjectInfo {
    RustProjectInfo {
        cargo_toml_path: "/tmp/project/Cargo.toml".to_string(),
        is_workspace: false,
        workspace_members: vec![],
        package_name: name.map(|n| n.to_string()),
        dependencies: vec![],
        dev_dependencies: vec![],
        bin_targets: vec![],
        lib_target: false,
    }
}

fn node_info(name: Option<&str>, dependencies: &[&str]) -> NodeProjectInfo {
    NodeProjectInfo {
        package_json_path: "/tmp/project/package.json".to_string(),
        package_manager: PackageManager::Npm,
        package_name: name.map(|n| n.to_string()),
        version: Some("1.0.0".to_string()),
        dependencies: dependencies.iter().map(|d| d.to_string()).collect(),
        dev_dependencies: vec![],
        scripts: vec![],
        main_entry: Some("index.js".to_string()),
        has_typescript: false,
    }
}

fn analysis(
    project_type: ProjectType,
    rust: Option<RustProjectInfo>,
    node: Option<NodeProjectInfo>,
    file_count: usize,
    total_lines: usize,
    language: &str,
) -> ProjectAnalysis {
    ProjectAnalysis {
        project_path: "/tmp/project".to_string(),
        project_type,
        rust_info: rust,
        node_info: node,
        file_count,
        total_lines,
        primary_language: language.to_string(),
        languages: vec![],
        recommendations: vec![],
    }
}

#[test]
fn test_extract_project_name_from_rust_project() {
    let a = analysis(
        ProjectType::RustApplication,
        Some(rust_info(Some("my-rust-app"))),
        None,
        5,
        100,
        "rust",
    );
    let name = extract_project_name("/tmp/project", &a).unwrap();
    assert_eq!(name, "my-rust-app");
}

#[test]
fn test_extract_project_name_from_node_project() {
    let a = analysis(
        ProjectType::NodeApplication,
        None,
        Some(node_info(Some("my-node-app"), &[])),
        5,
        100,
        "javascript",
    );
    let name = extract_project_name("/tmp/project", &a).unwrap();
    assert_eq!(name, "my-node-app");
}

#[test]
fn test_extract_project_name_fallback_to_directory_name() {
    let a = analysis(ProjectType::Unknown, None, None, 1, 10, "");
    let name = extract_project_name("/tmp/workspace/my-project", &a).unwrap();
    assert_eq!(name, "my-project");
}

#[test]
fn test_detect_framework_express() {
    let a = analysis(
        ProjectType::NodeApplication,
        None,
        Some(node_info(Some("my-express-app"), &["express"])),
        5,
        100,
        "javascript",
    );
    assert_eq!(detect_framework(&a), Some("express".to_string()));
}

#[test]
fn test_detect_framework_react() {
    let a = analysis(
        ProjectType::NodeApplication,
        None,
        Some(node_info(Some("my-react-app"), &["react"])),
        5,
        100,
        "javascript",
    );
    assert_eq!(detect_framework(&a), Some("react".to_string()));
}

#[test]
fn rust_name_wins_over_node_name() {
    let a = analysis(
        ProjectType::RustApplication,
        Some(rust_info(Some("backend"))),
        Some(node_info(Some("frontend"), &[])),
        1,
        1,
        "rust",
    );
    assert_eq!(extract_project_name("/tmp/x", &a).unwrap(), "backend");
}

#[test]
fn unnamed_rust_package_falls_back_to_node_name() {
    let a = analysis(
        ProjectType::RustWorkspace,
        Some(rust_info(None)),
        Some(node_info(Some("frontend"), &[])),
        1,
        1,
        "rust",
    );
    assert_eq!(extract_project_name("/tmp/x", &a).unwrap(), "frontend");
}

#[test]
fn no_directory_name_is_an_analysis_error() {
    let a = analysis(ProjectType::Unknown, None, None, 0, 0, "");
    match extract_project_name("/", &a) {
        Err(CliError::Analysis(m)) => {
            assert_eq!(m, "Could not determine project name from path")
        }
        other => panic!("unexpected {:?}", other),
    }
    match project_name_from(&a, None) {
        Err(CliError::Analysis(m)) => {
            assert_eq!(m, "Could not determine project name from path")
        }
        other => panic!("unexpected {:?}", other),
    }
    assert_eq!(project_name_from(&a, Some("dir".to_string())).unwrap(), "dir");
}

#[test]
fn framework_order_and_names() {
    let with = |deps: &[&str]| {
        detect_framework(&analysis(
            ProjectType::NodeLibrary,
            None,
            Some(node_info(None, deps)),
            1,
            1,
            "javascript",
        ))
    };
    assert_eq!(with(&["vue"]), Some("vue".to_string()));
    assert_eq!(with(&["angular"]), Some("angular".to_string()));
    assert_eq!(with(&["next"]), Some("nextjs".to_string()));
    assert_eq!(with(&["next", "react"]), Some("react".to_string()));
    assert_eq!(with(&["lodash"]), None);
    let rust_and_node = analysis(
        ProjectType::RustApplication,
        Some(rust_info(Some("a"))),
        Some(node_info(None, &["express"])),
        1,
        1,
        "rust",
    );
    assert_eq!(detect_framework(&rust_and_node), None);
}

#[test]
fn existing_project_request_carries_language_and_framework() {
    let a = analysis(
        ProjectType::NodeApplication,
        None,
        Some(node_info(Some("web"), &["express"])),
        1,
        1,
        "javascript",
    );
    let req = existing_project_request(&a, "web".to_string(), "/srv/web".to_string());
    assert_eq!(req.name, "web");
    assert_eq!(req.path, "/srv/web");
    assert_eq!(req.language, Some("javascript".to_string()));
    assert_eq!(req.framework, Some("express".to_string()));
    let unknown = analysis(ProjectType::Unknown, None, None, 0, 0, "");
    let req = existing_project_request(&unknown, "x".to_string(), "/x".to_string());
    assert_eq!(req.language, None);
    assert_eq!(req.framework, None);
}

#[test]
fn init_names_project_after_directory() {
    assert_eq!(init_project_name("/home/me/new-app"), "new-app");
    assert_eq!(init_project_name("/"), "unnamed-project");
    let req = init_project_request("/home/me/new-app", Some("static-site".to_string()));
    assert_eq!(req.name, "new-app");
    assert_eq!(req.path, Some("/home/me/new-app".to_string()));
    assert_eq!(req.language, None);
    assert_eq!(req.framework, None);
    assert_eq!(req.template, Some("static-site".to_string()));
}

#[test]
fn next_steps_of_templates() {
    let rust = template_next_steps("rust-web-api");
    assert_eq!(rust.len(), 4);
    assert_eq!(rust[0], "\n🦀 Rust Web API next steps:");
    assert_eq!(rust[3], "   • Visit http://localhost:8080 to test");
    let node = template_next_steps("node-web-app");
    assert_eq!(node[2], "   • npm run dev - Start development server");
    let site = template_next_steps("static-site");
    assert_eq!(site[2], "   • python -m http.server 8000 - Local server");
    assert!(template_next_steps("other").is_empty());
}
