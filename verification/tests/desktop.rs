use nocodo::desktop::api_client::{local_base_url, status_error, ApiClient, ApiError};
use nocodo::desktop::components::{
    format_elapsed, AuthDialog, ProjectCard,
    ProjectsView, Sidebar,
};
use nocodo::desktop::config::{config_path_in, DesktopConfig};
use nocodo::desktop::renderers::{AiMessageRenderer, MarkdownRenderer, MessageContainer, TextStyles, UserMessageRenderer};
use nocodo::desktop::pages::{
    readme_or_placeholder, Page, ProjectDetailPage, UiReferencePage,
    UiTwoColumnMainContentPage, WorkPage, MentionsPage, ProjectsPage, ServersPage, SettingsPage,
    TeamsPage, UsersPage,
};
use nocodo::desktop::services::{filter_teams, filter_users, ApiService, BackgroundTasks};
use nocodo::desktop::ssh::{
    candidate_key_paths, default_key_name, public_key_path, ssh_fingerprint, trimmed_public_key,
};
use nocodo::desktop::state::{
    default_ssh_port, is_authenticated, is_project_favorite, AuthState, ConnectionState,
    Favorites, Page as PageId,
};
use nocodo::models::{Project, TeamItem, TeamListItem, UserListItem};
use std::sync::Arc;

fn logged_in() -> AuthState {
    AuthState {
        jwt_token: Some("token".to_string()),
        user_id: Some(1),
        username: Some("ann".to_string()),
        is_first_user: false,
    }
}

#[test]
fn authentication_needs_connection_and_token() {
    assert!(is_authenticated(&ConnectionState::Connected, &logged_in()));
    assert!(!is_authenticated(&ConnectionState::Connecting, &logged_in()));
    assert!(!is_authenticated(&ConnectionState::Error("x".to_string()), &logged_in()));
    assert!(!is_authenticated(&ConnectionState::Connected, &AuthState::default()));
    assert!(matches!(ConnectionState::default(), ConnectionState::Disconnected));
    assert_eq!(PageId::default(), PageId::Servers);
    assert_eq!(default_ssh_port(), 22);
}

#[test]
fn toggling_a_favorite_twice_restores_it() {
    let mut favorites = Favorites::new();
    assert_eq!(favorites.len(), 0);
    assert!(favorites.toggle("host", "me", 22, 5));
    assert!(favorites.contains("host", "me", 22, 5));
    assert!(!favorites.contains("host", "me", 2222, 5));
    assert!(favorites.toggle("other", "me", 22, 5));
    assert_eq!(favorites.len(), 2);
    assert!(!favorites.toggle("host", "me", 22, 5));
    assert!(!favorites.contains("host", "me", 22, 5));
    assert!(favorites.contains("other", "me", 22, 5));
    assert_eq!(favorites.len(), 1);
    let server = Some(("other".to_string(), "me".to_string(), 22u16));
    assert!(is_project_favorite(&server, &favorites, 5));
    assert!(!is_project_favorite(&None, &favorites, 5));
    favorites.clear();
    assert_eq!(favorites.len(), 0);
}

fn project(id: i64, name: &str) -> Project {
    Project {
        id,
        name: name.to_string(),
        path: format!("/srv/{}", name),
        description: None,
        parent_id: None,
        created_at: 0,
        updated_at: 0,
    }
}

#[test]
fn sidebar_lists_favorites_of_current_server() {
    let mut favorites = Favorites::new();
    favorites.toggle("h", "u", 22, 3);
    favorites.toggle("h", "u", 22, 1);
    favorites.toggle("elsewhere", "u", 22, 2);
    let projects = vec![project(1, "a"), project(2, "b"), project(3, "c")];
    let server = Some(("h".to_string(), "u".to_string(), 22u16));
    let sidebar = Sidebar::new();
    let ids = sidebar.favorite_project_ids(&projects, &favorites, &server, &ConnectionState::Connected, &logged_in());
    assert_eq!(ids, vec![1, 3]);
    let ids = sidebar.favorite_project_ids(&projects, &favorites, &server, &ConnectionState::Disconnected, &logged_in());
    assert!(ids.is_empty());
    let ids = sidebar.favorite_project_ids(&projects, &favorites, &None, &ConnectionState::Connected, &logged_in());
    assert!(ids.is_empty());
    assert!(sidebar.link_enabled(true, &ConnectionState::Disconnected, &AuthState::default()));
    assert!(!sidebar.link_enabled(false, &ConnectionState::Disconnected, &AuthState::default()));
}

#[test]
fn default_config_and_its_path() {
    let c = DesktopConfig::default();
    assert_eq!(c.ssh.server, "dev-server.example.com");
    assert_eq!(c.ssh.username, "nocodo");
    assert_eq!(c.ssh.ssh_key_path, "~/.ssh/id_ed25519");
    assert_eq!(c.ssh.remote_port, 8081);
    assert_eq!(config_path_in(Some("/home/ann".to_string())), "/home/ann/.config/nocodo/desktop.toml");
    assert_eq!(config_path_in(None), "./nocodo-desktop.toml");
}

#[test]
fn page_names() {
    assert_eq!(WorkPage::new().name(), "Board");
    assert_eq!(MentionsPage::new().name(), "Mentions");
    assert_eq!(ProjectsPage::new().name(), "Projects");
    assert_eq!(ServersPage::new().name(), "Servers");
    assert_eq!(SettingsPage::new().name(), "Settings");
    assert_eq!(TeamsPage::new().name(), "Teams");
    assert_eq!(UsersPage::new().name(), "Users");
    assert_eq!(UiReferencePage::new().name(), "UI Reference");
    assert_eq!(ProjectDetailPage::new(3).name(), "Project Details");
    let two = UiTwoColumnMainContentPage::new("# Hi".to_string());
    assert_eq!(two.name(), "2 Column Main Content");
    assert_eq!(two.ui_reference_readme_content, "# Hi");
    assert_eq!(two.ui_reference_card_titles.len(), 20);
}

#[test]
fn reference_page_cards() {
    let page = UiReferencePage::new();
    assert_eq!(page.ui_reference_card_titles.len(), 20);
    assert_eq!(page.ui_reference_card_titles[0], "Project Alpha");
    assert_eq!(page.ui_reference_card_titles[19], "Project Upsilon");
    assert!(page.ui_reference_form_text.is_empty());
    assert!(page.ui_reference_form_dropdown.is_none());
    assert_eq!(
        readme_or_placeholder(None),
        "# README.md not found\n\nCould not locate README.md file in the project directory."
    );
    assert_eq!(readme_or_placeholder(Some("x".to_string())), "x");
}

#[test]
fn project_page_file_browser() {
    let page = ProjectDetailPage::new(9);
    assert_eq!(page.id(), 9);
    assert_eq!(page.page_id(), PageId::ProjectDetail(9));
    assert_eq!(page.get_file_icon("main.rs"), "🦀");
    assert_eq!(page.get_file_icon("app.ts"), "📜");
    assert_eq!(page.get_file_icon("package.json"), "📋");
    assert_eq!(page.get_file_icon("README.md"), "📝");
    assert_eq!(page.get_file_icon("ci.yaml"), "⚙️");
    assert_eq!(page.get_file_icon("Cargo.toml"), "🔧");
    assert_eq!(page.get_file_icon("LICENSE"), "📄");
    assert_eq!(page.go_up_directory("src/components"), Some("src".to_string()));
    assert_eq!(page.go_up_directory("src"), None);
    assert_eq!(page.file_heading(Some("a.rs")), "File: a.rs");
    assert_eq!(page.file_heading(None), "Select a file to view");
    assert!(page.is_markdown_file("docs/x.md"));
    assert!(!page.is_markdown_file("docs/x.mdx"));
}

#[test]
fn auth_dialog_validation() {
    let mut dialog = AuthDialog::new();
    assert_eq!(dialog.title(), "Login");
    assert!(dialog.error().is_none());
    dialog.set_fields("  ".to_string(), "secret".to_string(), String::new());
    assert!(!dialog.validate_credentials());
    assert_eq!(dialog.error().unwrap(), "Username and password are required");
    dialog.toggle_mode();
    assert_eq!(dialog.title(), "Register");
    assert!(dialog.error().is_none());
    dialog.set_fields("ann".to_string(), "secret".to_string(), "a@b.c".to_string());
    assert!(dialog.validate_credentials());
    assert!(dialog.error().is_none());
}

#[test]
fn cards_and_views_keep_callbacks() {
    let p = project(1, "a");
    let card = ProjectCard::new(&p);
    assert!(card.click_handler().is_none());
    let card = card.on_click(|| ());
    assert!(card.click_handler().is_some());
    assert_eq!(card.project_ref().name, "a");

    let mut view = ProjectsView::new(vec![project(1, "a"), project(2, "b")]);
    assert!(view.click_handler().is_none());
    view.set_on_project_click(|_id: i64| ());
    assert!(view.click_handler().is_some());
    assert_eq!(view.project_list().len(), 2);
}

#[test]
fn message_labels_and_elapsed_time() {
    assert_eq!(AiMessageRenderer::text_sender(Some("grok")), "AI - grok");
    assert_eq!(AiMessageRenderer::text_sender(None), "AI");
    assert_eq!(AiMessageRenderer::response_sender("tool", Some("grok")), "nocodo");
    assert_eq!(AiMessageRenderer::response_sender("assistant", Some("grok")), "AI - grok");
    assert_eq!(AiMessageRenderer::response_sender("assistant", None), "AI");
    assert_eq!(AiMessageRenderer::response_sender("user", Some("grok")), "AI");
    assert_eq!(UserMessageRenderer::sender(), "User");
    assert_eq!(MessageContainer::timestamp_text(0), "1970-01-01 00:00:00");
    assert_eq!(MessageContainer::timestamp_text(1700000000), "2023-11-14 22:13:20");
    assert_eq!(MessageContainer::timestamp_text(i64::MAX), "Unknown");
    assert_eq!(TextStyles::bullet("x"), "• x");
    assert_eq!(TextStyles::code_inline("x"), "`x`");
    assert_eq!(TextStyles::quote("x"), "  x");
    assert_eq!(MarkdownRenderer::empty_notice(), "No content to display");
    assert_eq!(format_elapsed(1000, 990, "d"), "just now");
    assert_eq!(format_elapsed(1000, 800, "d"), "3m ago");
    assert_eq!(format_elapsed(10000, 0, "d"), "2h ago");
    assert_eq!(format_elapsed(200000, 0, "d"), "2d ago");
    assert_eq!(format_elapsed(700000, 0, "Jan 01, 1970"), "Jan 01, 1970");
}

#[test]
fn api_addresses() {
    let client = ApiClient::new("http://localhost:8081".to_string());
    assert_eq!(client.projects_url(), "http://localhost:8081/api/projects");
    assert_eq!(client.project_details_url(4), "http://localhost:8081/api/projects/4/details");
    assert_eq!(client.works_url(), "http://localhost:8081/api/work");
    assert_eq!(client.work_messages_url(2), "http://localhost:8081/api/work/2/messages");
    assert_eq!(client.work_outputs_url(2), "http://localhost:8081/api/work/2/outputs");
    assert_eq!(client.work_tool_calls_url(2), "http://localhost:8081/api/work/2/tool-calls");
    assert_eq!(client.models_url(), "http://localhost:8081/api/models");
    assert_eq!(client.settings_url(), "http://localhost:8081/api/settings");
    assert_eq!(client.projects_path_url(), "http://localhost:8081/api/settings/projects-path");
    assert_eq!(client.scan_projects_url(), "http://localhost:8081/api/projects/scan");
    assert_eq!(client.api_keys_url(), "http://localhost:8081/api/settings/api-keys");
    assert_eq!(client.files_url(3, None), "http://localhost:8081/api/files?project_id=3");
    assert_eq!(
        client.files_url(3, Some("src/main rs")),
        "http://localhost:8081/api/files?project_id=3&path=src%2Fmain%20rs"
    );
    assert_eq!(
        client.file_content_url(3, "a/b.rs"),
        "http://localhost:8081/api/files/a%2Fb.rs?project_id=3"
    );
    assert_eq!(local_base_url(8081), "http://localhost:8081");
    assert!(status_error(204).is_none());
    assert!(matches!(status_error(401), Some(ApiError::HttpStatus(401))));
}

fn user(id: i64, name: &str, email: &str) -> UserListItem {
    UserListItem {
        id,
        name: name.to_string(),
        email: email.to_string(),
        teams: vec![TeamItem { id: 1, name: "core".to_string() }],
    }
}

#[test]
fn user_and_team_search() {
    let users = vec![user(1, "Alice", "alice@x.io"), user(2, "Bob", "bob@ALI.io"), user(3, "Carol", "c@y.io")];
    let shown: Vec<i64> = filter_users(&users, "ALI").iter().map(|u| u.id).collect();
    assert_eq!(shown, vec![1, 2]);
    assert_eq!(filter_users(&users, "").len(), 3);
    assert!(filter_users(&users, "zzz").is_empty());
    assert_eq!(filter_users(&users, "carol")[0].teams[0].name, "core");

    let teams = vec![
        TeamListItem { id: 1, name: "Core".to_string(), description: None, permissions: vec![] },
        TeamListItem {
            id: 2,
            name: "Ops".to_string(),
            description: Some("Runs the CORE servers".to_string()),
            permissions: vec![],
        },
        TeamListItem { id: 3, name: "Web".to_string(), description: None, permissions: vec![] },
    ];
    let shown: Vec<i64> = filter_teams(&teams, "core").iter().map(|t| t.id).collect();
    assert_eq!(shown, vec![1, 2]);
    assert_eq!(filter_teams(&teams, "").len(), 3);
    let _tasks = BackgroundTasks::new(Arc::new(ApiService::new()));
}

#[test]
fn ssh_keys_and_fingerprints() {
    assert_eq!(candidate_key_paths(Some("/k/id"), "/home/ann"), vec!["/k/id"]);
    assert_eq!(
        candidate_key_paths(None, "/home/ann"),
        vec!["/home/ann/.ssh/id_rsa", "/home/ann/.ssh/id_ed25519", "/home/ann/.ssh/id_ecdsa"]
    );
    assert_eq!(public_key_path("/k/id"), "/k/id.pub");
    assert_eq!(default_key_name(true, true, true), "id_ed25519");
    assert_eq!(default_key_name(false, false, true), "id_ecdsa");
    assert_eq!(default_key_name(false, false, false), "id_rsa");
    assert_eq!(trimmed_public_key("  ssh-ed25519 AAAA me@host\n"), "ssh-ed25519 AAAA me@host");
    assert_eq!(ssh_fingerprint(b""), "SHA256:47DEQpj8HBSa+/TImW+5JCeuQeRkm5NMpJWZG3hSuFU=");
    assert_eq!(ssh_fingerprint(b"abc"), "SHA256:ungWv48Bz+pBQUDeXa4iI7ADYaOWF3qctBD/YfIAFa0=");
}
