use nocodo::cli::analyze::{
    language_for_extension, should_count_file, NodeProjectInfo, PackageManager, ProjectAnalysis,
    ProjectAnalyzer, ProjectType, RustProjectInfo, ScannedFile,
};
use nocodo::cli::error::CliError;

fn file(name: &str, parent: &str, lines: Option<usize>) -> ScannedFile {
    let extension = name.rsplit_once('.').map(|(_, e)| e.to_string());
    ScannedFile {
        file_name: Some(name.to_string()),
        parent_name: Some(parent.to_string()),
        line_count: lines,
        extension,
    }
}

fn analyze(
    path: &str,
    cargo: Option<(&str, bool, bool)>,
    package: Option<(&str, bool, bool, bool, bool)>,
    files: Vec<ScannedFile>,
) -> ProjectAnalysis {
    let analyzer = ProjectAnalyzer::new();
    let rust = cargo.map(|(content, has_lib, has_main)| {
        analyzer
            .analyze_rust_manifest(content, format!("{}/Cargo.toml", path), has_lib, has_main)
            .unwrap()
    });
    let node = package.map(|(content, pnpm, yarn, npm, ts)| {
        analyzer
            .analyze_node_manifest(content, format!("{}/package.json", path), pnpm, yarn, npm, ts)
            .unwrap()
    });
    analyzer.analyze_scan(path.to_string(), rust, node, &files)
}

fn cargo_toml(name: &str, lib: bool, dependencies: &[&str]) -> String {
    let deps = if dependencies.is_empty() {
        String::new()
    } else {
        format!(
            "\n[dependencies]\n{}",
            dependencies
                .iter()
                .map(|d| format!("{} = \"1.0\"", d))
                .collect::<Vec<_>>()
                .join("\n")
        )
    };
    let lib_section = if lib { "\n[lib]\nname = \"test_lib\"\n" } else { "" };
    format!(
        "[package]\nname = \"{}\"\nversion = \"0.1.0\"\nedition = \"2021\"{}{}",
        name, lib_section, deps
    )
}

#[test]
fn test_rust_application_analysis() {
    let content = cargo_toml("test-app", false, &["serde", "tokio", "clap"]);
    let analysis = analyze(
        "/tmp/app",
        Some((&content, false, true)),
        None,
        vec![file("Cargo.toml", "app", Some(8)), file("main.rs", "src", Some(11))],
    );

    assert_eq!(analysis.project_type, ProjectType::RustApplication);
    assert!(analysis.rust_info.is_some());
    assert!(analysis.node_info.is_none());
    assert_eq!(analysis.primary_language, "rust");

    let rust_info = analysis.rust_info.as_ref().unwrap();
    assert_eq!(rust_info.package_name, Some("test-app".to_string()));
    assert!(!rust_info.is_workspace);
    assert!(rust_info.lib_target == false);
    assert!(rust_info.bin_targets.contains(&"test-app".to_string()));
    assert_eq!(rust_info.dependencies.len(), 3);
    assert!(rust_info.dependencies.contains(&"serde".to_string()));
    assert!(rust_info.dependencies.contains(&"tokio".to_string()));
    assert!(rust_info.dependencies.contains(&"clap".to_string()));
}

#[test]
fn test_rust_library_analysis() {
    let content = cargo_toml("test-lib", true, &["serde"]);
    let analysis = analyze(
        "/tmp/lib",
        Some((&content, true, false)),
        None,
        vec![file("Cargo.toml", "lib", Some(9)), file("lib.rs", "src", Some(16))],
    );

    assert_eq!(analysis.project_type, ProjectType::RustLibrary);

    let rust_info = analysis.rust_info.as_ref().unwrap();
    assert_eq!(rust_info.package_name, Some("test-lib".to_string()));
    assert!(!rust_info.is_workspace);
    assert!(rust_info.lib_target);
    assert_eq!(rust_info.dependencies.len(), 1);
    assert!(rust_info.dependencies.contains(&"serde".to_string()));
}

#[test]
fn test_rust_workspace_analysis() {
    let content = "[workspace]\nresolver = \"2\"\nmembers = [\n    \"api\",\n    \"web\",\n    \"shared\"\n]\nexclude = []\n\n[workspace.dependencies]\nserde = { version = \"1.0\", features = [\"derive\"] }\ntokio = { version = \"1.0\", features = [\"full\"] }\n";
    let analysis = analyze("/tmp/ws", Some((content, false, false)), None, vec![]);

    assert_eq!(analysis.project_type, ProjectType::RustWorkspace);

    let rust_info = analysis.rust_info.as_ref().unwrap();
    assert!(rust_info.is_workspace);
    assert_eq!(rust_info.workspace_members, vec!["api", "web", "shared"]);
    assert!(rust_info.package_name.is_none());
}

#[test]
fn test_node_app_npm_analysis() {
    let content = r#"{
  "name": "test-node-app",
  "version": "1.0.0",
  "main": "index.js",
  "dependencies": {
    "dotenv": "^1.0.0",
    "express": "^1.0.0"
  },
  "scripts": {
    "test": "npm test",
    "start": "node index.js"
  }
}"#;
    let analysis = analyze(
        "/tmp/node",
        None,
        Some((content, false, false, true, false)),
        vec![
            file("package.json", "node", Some(12)),
            file("package-lock.json", "node", Some(7)),
            file("index.js", "node", Some(11)),
        ],
    );

    assert_eq!(analysis.project_type, ProjectType::NodeApplication);
    assert!(analysis.node_info.is_some());
    assert!(analysis.rust_info.is_none());

    let node_info = analysis.node_info.as_ref().unwrap();
    assert_eq!(node_info.package_name, Some("test-node-app".to_string()));
    assert_eq!(node_info.package_manager, PackageManager::Npm);
    assert_eq!(node_info.main_entry, Some("index.js".to_string()));
    assert_eq!(node_info.dependencies.len(), 2);
    assert!(node_info.dependencies.contains(&"express".to_string()));
    assert!(node_info.dependencies.contains(&"dotenv".to_string()));
    let start = node_info.scripts.iter().find(|(k, _)| k == "start").map(|(_, v)| v);
    assert_eq!(start, Some(&"node index.js".to_string()));
    assert!(!node_info.has_typescript);
}

#[test]
fn test_unknown_project_analysis() {
    let analysis = analyze(
        "/tmp/unknown",
        None,
        None,
        vec![file("README.md", "unknown", Some(1)), file("random.txt", "unknown", Some(1))],
    );

    assert_eq!(analysis.project_type, ProjectType::Unknown);
    assert!(analysis.rust_info.is_none());
    assert!(analysis.node_info.is_none());
    assert!(analysis.primary_language.is_empty());
}

#[test]
fn counts_files_lines_and_languages() {
    let analysis = analyze(
        "/tmp/mixed",
        None,
        None,
        vec![
            file("a.rs", "src", Some(10)),
            file("b.rs", "src", Some(5)),
            file("c.ts", "web", Some(7)),
            file(".hidden.rs", "src", Some(100)),
            file("out.js", "dist", Some(100)),
            file("binary.png", "assets", None),
            file("Makefile", "mixed", Some(3)),
        ],
    );
    assert_eq!(analysis.file_count, 5);
    assert_eq!(analysis.total_lines, 25);
    let lines = |lang: &str| {
        analysis
            .languages
            .iter()
            .find(|(l, _)| l == lang)
            .map(|(_, n)| *n)
    };
    assert_eq!(lines("rust"), Some(15));
    assert_eq!(lines("typescript"), Some(7));
    assert_eq!(lines("javascript"), None);
    assert_eq!(lines("other"), None);
    assert_eq!(analysis.languages.len(), 2);
}

#[test]
fn recommendations_follow_the_findings() {
    let content = "[package]\nname = \"bare\"\n";
    let analysis = analyze("/tmp/bare", Some((content, false, false)), None, vec![]);
    assert_eq!(
        analysis.recommendations,
        vec![
            "Consider adding dependencies to enhance functionality".to_string(),
            "No library or binary targets found - consider adding src/main.rs or src/lib.rs"
                .to_string(),
            "No source files found - ensure you're in the correct project directory".to_string(),
        ]
    );

    let ws = "[workspace]\nmembers = []\n";
    let analysis = analyze("/tmp/ws", Some((ws, false, false)), None, vec![file("x.rs", "src", Some(20000))]);
    assert_eq!(
        analysis.recommendations,
        vec![
            "No library or binary targets found - consider adding src/main.rs or src/lib.rs"
                .to_string(),
            "Workspace detected but no members found - check workspace.members in Cargo.toml"
                .to_string(),
            "Large codebase detected - consider code documentation and testing strategies"
                .to_string(),
        ]
    );

    let pkg = r#"{"name": "ts-lib", "devDependencies": {"typescript": "5"}}"#;
    let analysis = analyze("/tmp/ts", None, Some((pkg, false, false, false, false)), vec![]);
    assert_eq!(analysis.project_type, ProjectType::NodeLibrary);
    assert!(analysis.node_info.as_ref().unwrap().has_typescript);
    assert_eq!(
        analysis.recommendations,
        vec![
            "No lock file detected - consider using npm, yarn, or pnpm for dependency management"
                .to_string(),
            "No npm scripts found - consider adding build, test, or start scripts".to_string(),
            "TypeScript detected but @types/node not found - consider adding it for better type support"
                .to_string(),
            "No source files found - ensure you're in the correct project directory".to_string(),
        ]
    );
}

#[test]
fn large_projects_are_noted() {
    let files: Vec<ScannedFile> = (0..1001).map(|i| file(&format!("f{}.md", i), "docs", Some(1))).collect();
    let analysis = analyze("/tmp/big", None, None, files);
    assert_eq!(analysis.file_count, 1001);
    assert_eq!(
        analysis.recommendations,
        vec!["Large project detected - consider organizing code into modules or workspaces".to_string()]
    );
}

#[test]
fn package_managers_by_lock_file() {
    let analyzer = ProjectAnalyzer::new();
    assert_eq!(analyzer.detect_package_manager(true, true, true), PackageManager::Pnpm);
    assert_eq!(analyzer.detect_package_manager(false, true, true), PackageManager::Yarn);
    assert_eq!(analyzer.detect_package_manager(false, false, true), PackageManager::Npm);
    assert_eq!(analyzer.detect_package_manager(false, false, false), PackageManager::Unknown);
}

#[test]
fn manifest_errors_are_analysis_errors() {
    let analyzer = ProjectAnalyzer::new();
    match analyzer.analyze_rust_manifest("[package", "Cargo.toml".to_string(), false, false) {
        Err(CliError::Analysis(m)) => assert!(m.starts_with("Failed to parse Cargo.toml: ")),
        other => panic!("unexpected {:?}", other),
    }
    match analyzer.analyze_node_manifest("{", "package.json".to_string(), false, false, false, false) {
        Err(CliError::Analysis(m)) => assert!(m.starts_with("Failed to parse package.json: ")),
        other => panic!("unexpected {:?}", other),
    }
}

#[test]
fn explicit_bins_and_dev_dependencies() {
    let content = "[package]\nname = \"tool\"\n[[bin]]\nname = \"first\"\n[[bin]]\nname = \"second\"\n[dev-dependencies]\ntempfile = \"3\"\n";
    let analyzer = ProjectAnalyzer::new();
    let info: RustProjectInfo = analyzer
        .analyze_rust_manifest(content, "Cargo.toml".to_string(), false, true)
        .unwrap();
    assert_eq!(info.bin_targets, vec!["first", "second"]);
    assert_eq!(info.dev_dependencies, vec!["tempfile"]);
    let unnamed = "[dependencies]\nserde = \"1\"\n";
    let info = analyzer
        .analyze_rust_manifest(unnamed, "Cargo.toml".to_string(), false, true)
        .unwrap();
    assert_eq!(info.bin_targets, vec!["main"]);
}

#[test]
fn node_manifest_details() {
    let content = r#"{"name": "app", "version": "2.0.0", "dependencies": {"typescript": "5"}, "scripts": {"build": "tsc", "n": 1}}"#;
    let analyzer = ProjectAnalyzer::new();
    let info: NodeProjectInfo = analyzer
        .analyze_node_manifest(content, "package.json".to_string(), false, true, true, false)
        .unwrap();
    assert_eq!(info.package_manager, PackageManager::Yarn);
    assert_eq!(info.version, Some("2.0.0".to_string()));
    assert_eq!(info.main_entry, None);
    assert!(info.has_typescript);
    assert_eq!(info.scripts, vec![("build".to_string(), "tsc".to_string())]);
}

#[test]
fn languages_of_extensions() {
    assert_eq!(language_for_extension("rs"), "rust");
    assert_eq!(language_for_extension("mjs"), "javascript");
    assert_eq!(language_for_extension("cts"), "typescript");
    assert_eq!(language_for_extension("yml"), "yaml");
    assert_eq!(language_for_extension("md"), "markdown");
    assert_eq!(language_for_extension("cxx"), "cpp");
    assert_eq!(language_for_extension("hpp"), "header");
    assert_eq!(language_for_extension("txt"), "other");
}

#[test]
fn which_files_count() {
    assert!(should_count_file(Some("main.rs"), Some("src")));
    assert!(!should_count_file(Some(".env"), Some("src")));
    assert!(!should_count_file(Some("lib.rs"), Some("target")));
    assert!(!should_count_file(Some("index.js"), Some("node_modules")));
    assert!(!should_count_file(Some("HEAD"), Some(".git")));
    assert!(should_count_file(None, None));
}

#[test]
fn text_report_of_an_analysis() {
    let content = cargo_toml("tool", false, &["serde"]);
    let analysis = analyze(
        "/tmp/tool",
        Some((&content, false, true)),
        None,
        vec![file("main.rs", "src", Some(3))],
    );
    let lines = nocodo::cli::report::analysis_report(&analysis);
    assert_eq!(
        lines,
        vec![
            "\n🔍 Project Analysis Report".to_string(),
            "═".repeat(50),
            "📁 Path: /tmp/tool".to_string(),
            "🏷️  Type: RustApplication".to_string(),
            "📄 Files: 1 (3 total lines)".to_string(),
            "🌐 Primary Language: rust".to_string(),
            "\n📊 Languages Detected:".to_string(),
            "   rust: 3 lines".to_string(),
            "\n🦀 Rust Project Information:".to_string(),
            "   Package: tool".to_string(),
            "   Workspace: No".to_string(),
            "   Dependencies: 1".to_string(),
            "   Binaries: tool".to_string(),
            String::new(),
        ]
    );
}
