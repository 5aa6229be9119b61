use nocodo::cli::analyze::ProjectAnalyzer;
use nocodo::desktop::api_client::ApiError;
use nocodo::desktop::components::{format_last_executed, AuthDialog, ConnectionDialog, FingerprintSource};
use nocodo::desktop::connection::{ConnectionError, ConnectionManager, ConnectionType};
use nocodo::desktop::pages::FileBrowser;
use nocodo::desktop::renderers::{MarkdownRenderer, RenderedMarkdown};
use nocodo::desktop::services::{api_key_configured, key_status_label, ApiService};
use nocodo::desktop::session::SessionState;
use nocodo::desktop::ssh::{connect_key_path, default_key_path, SshError};
use nocodo::desktop::state::{
    load_favorites_for_current_server, toggle_project_favorite, ConnectionState, Favorites,
};
use nocodo::documents::JsonValue;
use nocodo::models::{ApiKeyConfig, LlmAgentToolCall};

fn filled_dialog(email: &str) -> AuthDialog {
    let mut d = AuthDialog::new();
    d.set_fields("alice".to_string(), "secret".to_string(), email.to_string());
    d
}

#[test]
fn failed_tool_call_records_the_error() {
    let mut call = LlmAgentToolCall::new_at(3, "grep".to_string(), JsonValue::Null, 10);
    call.fail_at("boom".to_string(), 20);
    assert_eq!(call.status, "failed");
    assert_eq!(call.completed_at, Some(20));
    match call.response {
        Some(JsonValue::Object(entries)) => {
            assert_eq!(entries.len(), 1);
            assert_eq!(entries[0].0, "error");
            match &entries[0].1 {
                JsonValue::String(s) => assert_eq!(s, "boom"),
                other => panic!("unexpected {:?}", other),
            }
        }
        other => panic!("unexpected {:?}", other),
    }
}

#[test]
fn login_with_blank_fields_is_refused() {
    let mut d = filled_dialog("");
    d.set_fields("  ".to_string(), "secret".to_string(), String::new());
    let mut s = SessionState::new();
    assert!(d.submit_login(&mut s, Ok("fp".to_string())).is_none());
    assert_eq!(d.error().map(|m| m.as_str()), Some("Username and password are required"));
    assert!(!s.should_navigate_after_auth);
}

#[test]
fn login_closes_the_dialog_and_asks_for_navigation() {
    let mut d = filled_dialog("");
    let mut s = SessionState::new();
    s.show_auth_dialog = true;
    let req = d.submit_login(&mut s, Ok("SHA256:abc".to_string())).unwrap();
    assert_eq!(req.username, "alice");
    assert_eq!(req.password, "secret");
    assert_eq!(req.ssh_fingerprint, "SHA256:abc");
    assert!(!s.show_auth_dialog);
    assert!(s.should_navigate_after_auth);
}

#[test]
fn login_reports_a_failed_fingerprint() {
    let mut d = filled_dialog("");
    let mut s = SessionState::new();
    s.connected_host = Some("localhost".to_string());
    s.show_auth_dialog = true;
    assert!(d.submit_login(&mut s, Err("no id".to_string())).is_none());
    assert_eq!(d.error().map(|m| m.as_str()), Some("Failed to generate machine fingerprint: no id"));
    assert!(s.show_auth_dialog);
    s.connected_host = Some("srv".to_string());
    assert!(d.submit_login(&mut s, Err("no key".to_string())).is_none());
    assert_eq!(d.error().map(|m| m.as_str()), Some("Failed to calculate SSH fingerprint: no key"));
}

#[test]
fn registration_decisions() {
    let mut s = SessionState::new();
    s.connected_host = Some("localhost".to_string());
    let mut d = filled_dialog("   ");
    let req = d.submit_registration(&mut s, Ok("machine".to_string()), Err("unused".to_string())).unwrap();
    assert_eq!(req.email, None);
    assert_eq!(req.ssh_public_key, "machine");
    assert_eq!(req.ssh_fingerprint, "machine");
    assert!(s.should_navigate_after_auth);

    let mut s = SessionState::new();
    s.connected_host = Some("srv".to_string());
    let mut d = filled_dialog("a@b.c");
    assert!(d.submit_registration(&mut s, Ok("fp".to_string()), Err("gone".to_string())).is_none());
    assert_eq!(d.error().map(|m| m.as_str()), Some("Failed to read SSH public key: gone"));
    assert!(!s.should_navigate_after_auth);
    let req = d.submit_registration(&mut s, Ok("fp".to_string()), Ok("ssh-ed25519 AAA".to_string())).unwrap();
    assert_eq!(req.email, Some("a@b.c".to_string()));
    assert_eq!(req.ssh_public_key, "ssh-ed25519 AAA");
}

#[test]
fn fingerprint_source_follows_the_host() {
    let mut s = SessionState::new();
    s.connected_host = Some("localhost".to_string());
    assert!(matches!(AuthDialog::fingerprint_source(&s, "~/.ssh/id"), FingerprintSource::Machine));
    s.connected_host = Some("srv".to_string());
    assert!(matches!(AuthDialog::fingerprint_source(&s, ""), FingerprintSource::SshKey(None)));
    match AuthDialog::fingerprint_source(&s, "/k") {
        FingerprintSource::SshKey(Some(p)) => assert_eq!(p, "/k"),
        other => panic!("unexpected {:?}", other),
    }
}

#[test]
fn connecting_starts_with_no_error() {
    let mut s = SessionState::new();
    s.connection_error = Some("old".to_string());
    let mut key = "~/.ssh/id_rsa".to_string();
    let arg = ConnectionDialog::new().start_connect(&mut s, &mut key, "/home/u");
    assert!(matches!(s.connection_state, ConnectionState::Connecting));
    assert_eq!(s.connection_error, None);
    assert_eq!(arg, Some("/home/u/.ssh/id_rsa".to_string()));
    assert_eq!(key, "/home/u/.ssh/id_rsa");
    let mut blank = String::new();
    assert_eq!(connect_key_path(&mut blank, "/home/u"), None);
    assert_eq!(blank, "");
}

#[test]
fn default_key_path_is_under_ssh() {
    assert_eq!(default_key_path("/home/u", false, true, true), "/home/u/.ssh/id_rsa");
    assert_eq!(default_key_path("/home/u", true, true, false), "/home/u/.ssh/id_ed25519");
    assert_eq!(default_key_path("/home/u", false, false, true), "/home/u/.ssh/id_ecdsa");
    assert_eq!(default_key_path("/home/u", false, false, false), "/home/u/.ssh/id_rsa");
}

#[test]
fn connection_manager_keeps_the_token() {
    let mut m = ConnectionManager::new();
    assert!(matches!(m.reconnect(), Err(ConnectionError::NoConnectionInfo)));
    assert!(m.connect_local(8081, Err(ApiError::HttpStatus(500))).is_err());
    assert!(!m.connected);
    assert!(m.connect_local(8081, Ok(())).is_ok());
    assert!(m.connected);
    assert_eq!(m.client_port, Some(8081));
    assert_eq!(m.get_connection_info(), Some("localhost".to_string()));
    m.on_login("tok".to_string());
    match m.reconnect() {
        Ok(ConnectionType::Local { port }) => assert_eq!(port, 8081),
        other => panic!("unexpected {:?}", other),
    }
    assert!(!m.connected);
    assert_eq!(m.client_port, None);
    assert!(m.connection_type.is_none());
    assert_eq!(m.jwt_token, Some("tok".to_string()));
    assert!(m
        .connect_ssh("srv".to_string(), "u".to_string(), None, 22, 8081, Err(SshError::Ssh("down".to_string())))
        .is_err());
    assert_eq!(m.get_connection_info(), Some("srv".to_string()));
    m.disconnect();
    assert_eq!(m.get_connection_info(), None);
    assert_eq!(m.jwt_token, Some("tok".to_string()));
}

#[test]
fn empty_markdown_shows_a_notice() {
    match MarkdownRenderer::render("") {
        RenderedMarkdown::Notice(t) => assert_eq!(t, "No content to display"),
        _ => panic!("expected the notice"),
    }
    match MarkdownRenderer::render("# Title") {
        RenderedMarkdown::Blocks(b) => assert_eq!(b.len(), 1),
        _ => panic!("expected blocks"),
    }
}

#[test]
fn favourites_need_a_server() {
    let mut f = Favorites::new();
    let none: Option<(String, String, u16)> = None;
    assert_eq!(toggle_project_favorite(&mut f, &none, 4), None);
    assert_eq!(f.len(), 0);
    let server = Some(("h".to_string(), "u".to_string(), 22u16));
    assert_eq!(toggle_project_favorite(&mut f, &server, 4), Some(true));
    let rows = vec![("project".to_string(), 7i64), ("team".to_string(), 8i64)];
    load_favorites_for_current_server(&mut f, &none, Some(&rows));
    assert!(f.contains("h", "u", 22, 4));
    load_favorites_for_current_server(&mut f, &server, None);
    assert!(f.contains("h", "u", 22, 4));
    load_favorites_for_current_server(&mut f, &server, Some(&rows));
    assert!(!f.contains("h", "u", 22, 4));
    assert!(f.contains("h", "u", 22, 7));
    assert_eq!(f.len(), 1);
    assert_eq!(toggle_project_favorite(&mut f, &server, 7), Some(false));
    assert_eq!(f.len(), 0);
}

#[test]
fn directory_moves_request_listings_only_while_connected() {
    let mut b = FileBrowser::new();
    b.enter_project(5);
    assert!(b.go_up_directory(5, true).is_none());
    let req = b.navigate_into_directory(5, "src/utils", true).unwrap();
    assert_eq!(req.project_id, 5);
    assert_eq!(req.path, Some("src/utils".to_string()));
    assert!(b.loading_file_list);
    let req = b.go_up_directory(5, true).unwrap();
    assert_eq!(req.path, Some("src".to_string()));
    let mut b2 = FileBrowser::new();
    b2.navigate_into("src");
    assert!(b2.go_up_directory(5, false).is_none());
    assert_eq!(b2.current_directory_path, None);
    assert!(!b2.loading_file_list);
    assert!(b2.file_list_result.is_none());
}

#[test]
fn last_executed_text() {
    let now = 1_000_000;
    assert_eq!(format_last_executed(now, now - 59), "just now");
    assert_eq!(format_last_executed(now, now + 5), "just now");
    assert_eq!(format_last_executed(now, now - 60), "1m ago");
    assert_eq!(format_last_executed(now, now - 3599), "59m ago");
    assert_eq!(format_last_executed(now, now - 3600), "1h ago");
    assert_eq!(format_last_executed(now, now - 86399), "23h ago");
    assert_eq!(format_last_executed(now, now - 86400), "1d ago");
    assert_eq!(format_last_executed(now, now - 604799), "6d ago");
    assert_eq!(format_last_executed(604800, 0), "Jan 01, 1970");
}

#[test]
fn settings_show_configured_keys() {
    let keys = vec![
        ApiKeyConfig { name: "OpenAI API Key".to_string(), key: None, is_configured: false },
        ApiKeyConfig { name: "Grok API Key".to_string(), key: None, is_configured: true },
    ];
    assert!(api_key_configured(&keys, "Grok API Key"));
    assert!(!api_key_configured(&keys, "OpenAI API Key"));
    assert!(!api_key_configured(&keys, "Anthropic API Key"));
    assert_eq!(key_status_label(true), "✅ Configured");
    assert_eq!(key_status_label(false), "❌ Not configured");
}

#[test]
fn projects_refresh_only_while_connected() {
    let api = ApiService::new();
    let mut loading = false;
    assert!(!api.refresh_projects(&ConnectionState::Disconnected, &mut loading));
    assert!(!loading);
    assert!(api.refresh_projects(&ConnectionState::Connected, &mut loading));
    assert!(loading);
}

#[test]
fn analyzers_agree() {
    let files = Vec::new();
    let a = ProjectAnalyzer::new().analyze_scan("/p".to_string(), None, None, &files);
    let b = ProjectAnalyzer::new().analyze_scan("/p".to_string(), None, None, &files);
    assert_eq!(a.project_path, b.project_path);
    assert_eq!(a.file_count, b.file_count);
    assert_eq!(a.recommendations, b.recommendations);
}

fn file(name: &str, dir: bool) -> nocodo::models::FileInfo {
    nocodo::models::FileInfo {
        name: name.to_string(),
        path: name.to_string(),
        absolute: format!("/p/{}", name),
        file_type: if dir { nocodo::models::FileType::Directory } else { nocodo::models::FileType::File },
        ignored: false,
        is_directory: dir,
        size: None,
        modified_at: None,
    }
}

#[test]
fn file_tree_lists_directories_first_by_name() {
    let files = vec![
        file("zeta.rs", false),
        file("src", true),
        file("Cargo.toml", false),
        file("docs", true),
        file("README.md", false),
        file("app", true),
    ];
    let order = nocodo::desktop::pages::file_tree_order(&files);
    let names: Vec<&str> = order.iter().map(|&i| files[i].name.as_str()).collect();
    assert_eq!(names, vec!["app", "docs", "src", "Cargo.toml", "README.md", "zeta.rs"]);
    assert!(nocodo::order::chars_before(&['a', 'b'], &['a', 'b', 'c']));
    assert!(!nocodo::order::chars_before(&['b'], &['a', 'z']));
}

#[test]
fn command_panel_resets_on_another_project() {
    let mut p: nocodo::desktop::pages::CommandPanel<u8, u8, u8> = nocodo::desktop::pages::CommandPanel::new();
    p.saved_commands.push(1);
    p.commands_fetch_attempted = true;
    p.selected_command_id = Some("c1".to_string());
    assert!(!p.update_for_project(Some(4), 4));
    assert_eq!(p.saved_commands, vec![1]);
    assert!(p.update_for_project(Some(3), 4));
    assert!(p.saved_commands.is_empty());
    assert_eq!(p.selected_command_id, None);
}

#[test]
fn file_tree_rows_show_go_up_and_icons() {
    let files = vec![file("main.rs", false), file("src", true), file("docs", true)];
    let page = nocodo::desktop::pages::ProjectDetailPage::new(1);
    let expanded = vec!["src".to_string()];
    let rows = page.file_tree_rows(&files, &Some("x".to_string()), &expanded);
    assert_eq!(rows.len(), 4);
    assert!(matches!(rows[0], nocodo::desktop::pages::FileTreeRow::GoUp));
    match &rows[1] {
        nocodo::desktop::pages::FileTreeRow::Directory { index, label, expanded } => {
            assert_eq!(*index, 2);
            assert_eq!(label, "📁 docs");
            assert!(!expanded);
        }
        _ => panic!("expected a directory"),
    }
    match &rows[2] {
        nocodo::desktop::pages::FileTreeRow::Directory { index, label, expanded } => {
            assert_eq!(*index, 1);
            assert_eq!(label, "📂 src");
            assert!(*expanded);
        }
        _ => panic!("expected a directory"),
    }
    match &rows[3] {
        nocodo::desktop::pages::FileTreeRow::File { index, label } => {
            assert_eq!(*index, 0);
            assert_eq!(label, "🦀 main.rs");
        }
        _ => panic!("expected a file"),
    }
    let at_root = page.file_tree_rows(&files, &None, &expanded);
    assert_eq!(at_root.len(), 3);
    assert!(!matches!(at_root[0], nocodo::desktop::pages::FileTreeRow::GoUp));
}

#[test]
fn registration_is_followed_by_login() {
    let mut s = SessionState::new();
    s.connected_host = Some("localhost".to_string());
    let mut d = filled_dialog("");
    let reg = d.submit_registration(&mut s, Ok("machine".to_string()), Err("unused".to_string())).unwrap();
    let login = AuthDialog::login_after_registration(&reg, true).unwrap();
    assert_eq!(login.username, "alice");
    assert_eq!(login.password, "secret");
    assert_eq!(login.ssh_fingerprint, "machine");
    assert!(AuthDialog::login_after_registration(&reg, false).is_none());
}

#[test]
fn create_work_starts_the_agent() {
    let api = ApiService::new();
    let mut creating = false;
    assert!(api
        .create_work(&ConnectionState::Disconnected, &mut creating, "t".to_string(), None, None, None)
        .is_none());
    assert!(!creating);
    let req = api
        .create_work(&ConnectionState::Connected, &mut creating, "Fix".to_string(), Some(2), Some("m".to_string()), None)
        .unwrap();
    assert!(creating);
    assert_eq!(req.title, "Fix");
    assert_eq!(req.project_id, Some(2));
    assert!(req.auto_start);
    assert_eq!(req.tool_name, Some("llm-agent".to_string()));
}

fn listing(path: &str) -> nocodo::tools::filesystem::ListFilesRequest {
    nocodo::tools::filesystem::ListFilesRequest { path: path.to_string(), recursive: None, include_hidden: None, max_files: None }
}

#[test]
fn list_files_requests_fall_back_to_the_reply() {
    let r = nocodo::desktop::board::list_files_requests(Some("assistant"), vec![None, Some(listing("a")), Some(listing("b"))], Some(listing("c")))
        .unwrap();
    let paths: Vec<&str> = r.iter().map(|x| x.path.as_str()).collect();
    assert_eq!(paths, vec!["a", "b"]);
    let r = nocodo::desktop::board::list_files_requests(Some("assistant"), vec![None], Some(listing("c"))).unwrap();
    assert_eq!(r.len(), 1);
    assert_eq!(r[0].path, "c");
    assert!(nocodo::desktop::board::list_files_requests(Some("assistant"), vec![], None).is_none());
    assert!(nocodo::desktop::board::list_files_requests(Some("user"), vec![Some(listing("a"))], None).is_none());
    assert!(nocodo::desktop::board::list_files_requests(None, vec![Some(listing("a"))], None).is_none());
}

#[test]
fn package_scripts_have_distinct_names() {
    let info = ProjectAnalyzer::new()
        .analyze_node_manifest(r#"{"scripts":{"build":"a","build":"b","test":"t"}}"#, "package.json".to_string(), false, false, true, false)
        .unwrap();
    let names: Vec<&str> = info.scripts.iter().map(|s| s.0.as_str()).collect();
    assert_eq!(names, vec!["build", "test"]);
}
