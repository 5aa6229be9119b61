use nocodo::documents::JsonValue;
use nocodo::desktop::connection::{connection_info, ConnectionType, HealthAction, HealthEvent, HealthMonitor};
use nocodo::cli::client::{http_request_failed, http_status_error, manager_endpoint, manager_is_up, response_parse_failed};
use nocodo::cli::error::CliError;
use nocodo::desktop::board::{
    linked_project_name, list_files_arguments, list_files_description, model_display_name,
    timeline, works_newest_first, TimelineItem,
};
use nocodo::desktop::pages::FileBrowser;
use nocodo::desktop::services::{
    api_keys_request, description_text, permissions_text, team_position, teams_text,
    user_for_editing,
};
use nocodo::desktop::session::{LoginInfo, SessionState};
use nocodo::desktop::ssh::expand_key_path;
use nocodo::desktop::state::{ConnectionState, Favorites, Page};
use nocodo::models::{
    AiSessionOutput, MessageAuthorType, MessageContentType, PermissionItem, Project,
    SupportedModel, Team, TeamItem, UserListItem, Work, WorkMessage,
};
use nocodo::order::stable_order;
use nocodo::tools::filesystem::ListFilesRequest;

#[test]
fn stable_order_keeps_ties() {
    assert_eq!(stable_order(&vec![3, 1, 2, 1], false), vec![1, 3, 2, 0]);
    assert_eq!(stable_order(&vec![3, 1, 2, 1], true), vec![0, 2, 1, 3]);
    assert!(stable_order(&vec![], true).is_empty());
}

fn work(id: i64, created_at: i64) -> Work {
    Work {
        id,
        title: format!("w{}", id),
        project_id: None,
        model: None,
        status: "active".to_string(),
        created_at,
        updated_at: created_at,
        git_branch: None,
        working_directory: None,
    }
}

#[test]
fn works_are_listed_newest_first() {
    let works = vec![work(1, 10), work(2, 30), work(3, 20), work(4, 30)];
    assert_eq!(works_newest_first(&works), vec![1, 3, 2, 0]);
}

fn message(id: i64, at: i64) -> WorkMessage {
    WorkMessage {
        id,
        work_id: 1,
        content: "m".to_string(),
        content_type: MessageContentType::Text,
        author_type: MessageAuthorType::User,
        author_id: None,
        sequence_order: 0,
        created_at: at,
    }
}

fn output(id: i64, at: i64) -> AiSessionOutput {
    AiSessionOutput {
        id,
        session_id: 1,
        content: "o".to_string(),
        created_at: at,
        role: Some("assistant".to_string()),
        model: None,
    }
}

#[test]
fn timeline_interleaves_by_time() {
    let messages = vec![message(1, 5), message(2, 20)];
    let outputs = vec![output(1, 10), output(2, 5), output(3, 30)];
    assert_eq!(
        timeline(&messages, &outputs),
        vec![
            TimelineItem::Message(0),
            TimelineItem::Output(1),
            TimelineItem::Output(0),
            TimelineItem::Message(1),
            TimelineItem::Output(2),
        ]
    );
}

#[test]
fn names_of_models_and_projects() {
    let models = vec![SupportedModel {
        provider: "x".to_string(),
        model_id: "grok-4".to_string(),
        name: "Grok 4".to_string(),
        context_length: 1,
        supports_streaming: true,
        supports_tool_calling: true,
        supports_vision: false,
        supports_reasoning: false,
        input_cost_per_token_bits: None,
        output_cost_per_token_bits: None,
        default_temperature_bits: None,
        default_max_tokens: None,
    }];
    assert_eq!(model_display_name("grok-4", &models), "Grok 4");
    assert_eq!(model_display_name("other", &models), "other");
    let projects = vec![Project {
        id: 4,
        name: "site".to_string(),
        path: "/s".to_string(),
        description: None,
        parent_id: None,
        created_at: 0,
        updated_at: 0,
    }];
    assert_eq!(linked_project_name(4, &projects), Some("site".to_string()));
    assert_eq!(linked_project_name(5, &projects), None);
}

#[test]
fn listing_descriptions() {
    let plain = ListFilesRequest { path: "src".to_string(), recursive: None, include_hidden: None, max_files: None };
    assert_eq!(list_files_description(&plain), "List files: src");
    let full = ListFilesRequest {
        path: ".".to_string(),
        recursive: Some(true),
        include_hidden: Some(true),
        max_files: Some(50),
    };
    assert_eq!(list_files_description(&full), "List files: . (recursive, include hidden, max: 50)");
    let some = ListFilesRequest { path: "a".to_string(), recursive: Some(false), include_hidden: None, max_files: Some(7) };
    assert_eq!(list_files_description(&some), "List files: a (max: 7)");
}

#[test]
fn list_files_calls_in_replies() {
    let reply = r#"{"tool_calls": [
        {"function": {"name": "list_files", "arguments": "{\"path\": \"src\"}"}},
        {"function": {"name": "read_file", "arguments": "{\"path\": \"a\"}"}},
        {"function": {"name": "list_files", "arguments": "{\"path\": \".\"}"}}
    ]}"#;
    assert_eq!(list_files_arguments(reply), vec!["{\"path\": \"src\"}", "{\"path\": \".\"}"]);
    assert!(list_files_arguments("not json").is_empty());
    assert!(list_files_arguments("{\"content\": \"hi\"}").is_empty());
}

#[test]
fn connecting_then_logging_in() {
    let mut s = SessionState::new();
    assert_eq!(s.current_page, Page::Servers);
    s.on_connection_result(Err("refused".to_string()));
    assert!(matches!(&s.connection_state, ConnectionState::Error(e) if e == "refused"));
    assert_eq!(s.connection_error, Some("refused".to_string()));
    s.on_connection_result(Ok(("h".to_string(), "u".to_string(), 22)));
    assert!(matches!(s.connection_state, ConnectionState::Connected));
    assert_eq!(s.connection_error, None);
    assert!(s.show_auth_dialog);
    assert_eq!(s.current_server_info, Some(("h".to_string(), "u".to_string(), 22)));
    assert!(!s.on_login_result(Err("bad password".to_string())));
    assert_eq!(s.connection_error, Some("Login failed: bad password".to_string()));
    let refresh = s.on_login_result(Ok(LoginInfo { token: "t".to_string(), user_id: 3, username: "ann".to_string() }));
    assert!(refresh);
    assert_eq!(s.auth_state.jwt_token, Some("t".to_string()));
    s.should_navigate_after_auth = true;
    s.on_projects_result(false, Ok(2));
    assert_eq!(s.current_page, Page::Work);
    assert!(s.pending_works_refresh);
    assert!(!s.should_navigate_after_auth);
    s.on_projects_result(true, Err("timeout".to_string()));
    assert_eq!(s.connection_error, Some("Failed to load projects: timeout".to_string()));
}

#[test]
fn favorites_loaded_for_a_server() {
    let mut f = Favorites::new();
    f.toggle("old", "u", 1, 9);
    let rows = vec![("project".to_string(), 1), ("work".to_string(), 2), ("project".to_string(), 3), ("project".to_string(), 1)];
    f.load_for_server(&rows, "h", "u", 22);
    assert_eq!(f.len(), 2);
    assert!(f.contains("h", "u", 22, 1));
    assert!(f.contains("h", "u", 22, 3));
    assert!(!f.contains("h", "u", 22, 2));
    assert!(!f.contains("old", "u", 1, 9));
}

#[test]
fn file_browser_resets_on_project_switch() {
    let mut b = FileBrowser::new();
    assert!(b.enter_project(1));
    b.navigate_into("src/ui");
    b.select_file("src/ui/a.rs");
    assert!(!b.enter_project(1));
    assert_eq!(b.current_directory_path, Some("src/ui".to_string()));
    assert!(b.go_up());
    assert_eq!(b.current_directory_path, Some("src".to_string()));
    assert!(b.go_up());
    assert_eq!(b.current_directory_path, None);
    assert!(!b.go_up());
    assert!(b.enter_project(2));
    assert_eq!(b.selected_file_path, None);
}

#[test]
fn table_texts_and_editing() {
    assert_eq!(teams_text(&vec![]), "No teams");
    assert_eq!(
        teams_text(&vec![TeamItem { id: 1, name: "core".to_string() }, TeamItem { id: 2, name: "web".to_string() }]),
        "core, web"
    );
    assert_eq!(permissions_text(&vec![]), "No permissions");
    let perms = vec![
        PermissionItem { id: 1, resource_type: "project".to_string(), resource_id: None, action: "read".to_string() },
        PermissionItem { id: 2, resource_type: "work".to_string(), resource_id: Some(3), action: "write".to_string() },
    ];
    assert_eq!(permissions_text(&perms), "project:read, work:write");
    assert_eq!(description_text(&None), "-");
    assert_eq!(description_text(&Some("d".to_string())), "d");
    let item = UserListItem { id: 5, name: "Ann".to_string(), email: "a@x".to_string(), teams: vec![] };
    let u = user_for_editing(&item);
    assert_eq!((u.id, u.name.as_str(), u.email.as_str(), u.is_active), (5, "Ann", "a@x", true));
    assert!(u.password_hash.is_empty());
    let teams = vec![
        Team { id: 1, name: "a".to_string(), description: None, created_at: 0, updated_at: 0, created_by: 1 },
        Team { id: 7, name: "b".to_string(), description: None, created_at: 0, updated_at: 0, created_by: 1 },
    ];
    assert_eq!(team_position(&teams, 7), Some(1));
    assert_eq!(team_position(&teams, 8), None);
}

#[test]
fn settings_and_keys() {
    let r = api_keys_request("x-key", "", "an-key");
    assert_eq!(r.xai_api_key, Some("x-key".to_string()));
    assert_eq!(r.openai_api_key, None);
    assert_eq!(r.anthropic_api_key, Some("an-key".to_string()));
    assert_eq!(r.zai_api_key, None);
    assert_eq!(expand_key_path("~/.ssh/id_rsa", "/home/ann"), Some("/home/ann/.ssh/id_rsa".to_string()));
    assert_eq!(expand_key_path("/k/id", "/home/ann"), Some("/k/id".to_string()));
    assert_eq!(expand_key_path("", "/home/ann"), None);
}

#[test]
fn manager_http_errors() {
    assert_eq!(manager_endpoint("http://localhost:8081", "/api/health"), "http://localhost:8081/api/health");
    match http_status_error("404 Not Found", None) {
        CliError::Communication(m) => assert_eq!(m, "HTTP 404 Not Found error: Unknown error"),
        other => panic!("unexpected {:?}", other),
    }
    match http_status_error("500 Internal Server Error", Some("boom".to_string())) {
        CliError::Communication(m) => assert_eq!(m, "HTTP 500 Internal Server Error error: boom"),
        other => panic!("unexpected {:?}", other),
    }
    match http_request_failed("refused") {
        CliError::Communication(m) => assert_eq!(m, "HTTP request failed: refused"),
        other => panic!("unexpected {:?}", other),
    }
    match response_parse_failed("eof") {
        CliError::Communication(m) => assert_eq!(m, "Failed to parse response: eof"),
        other => panic!("unexpected {:?}", other),
    }
    assert!(manager_is_up(Some(200)));
    assert!(!manager_is_up(Some(503)));
    assert!(!manager_is_up(None));
}

fn to_serde(v: &JsonValue) -> serde_json::Value {
    match v {
        JsonValue::Null => serde_json::Value::Null,
        JsonValue::Bool(b) => serde_json::Value::Bool(*b),
        JsonValue::Number(n) => serde_json::from_str(n).unwrap(),
        JsonValue::String(s) => serde_json::Value::String(s.clone()),
        JsonValue::Array(items) => serde_json::Value::Array(items.iter().map(to_serde).collect()),
        JsonValue::Object(entries) => {
            let mut m = serde_json::Map::new();
            for (k, x) in entries {
                m.insert(k.clone(), to_serde(x));
            }
            serde_json::Value::Object(m)
        }
    }
}

#[test]
fn example_schemas_are_json_objects() {
    for schema in [
        nocodo::tools::filesystem::ListFilesRequest::example_schema(),
        nocodo::tools::filesystem::ReadFileRequest::example_schema(),
        nocodo::tools::filesystem::WriteFileRequest::example_schema(),
        nocodo::tools::user_interaction::AskUserRequest::example_schema(),
        nocodo::models::ListFilesRequest::example_schema(),
        nocodo::models::ReadFileRequest::example_schema(),
        nocodo::models::WriteFileRequest::example_schema(),
        nocodo::models::GrepRequest::example_schema(),
        nocodo::models::BashRequest::example_schema(),
    ] {
        let v = to_serde(&schema);
        assert_eq!(v["type"], serde_json::Value::String("object".to_string()));
        assert!(v["required"].is_array());
        assert!(v["properties"].is_object());
    }
}

#[test]
fn read_file_schema_is_exact() {
    let expected: serde_json::Value = serde_json::from_str(
        r#"{"properties":{"max_size":{"default":10000,"description":"Maximum number of bytes to read","type":"number"},
        "path":{"description":"The file path to read","type":"string"}},"required":["path"],"type":"object"}"#,
    )
    .unwrap();
    assert_eq!(to_serde(&nocodo::models::ReadFileRequest::example_schema()), expected);
    assert_eq!(to_serde(&nocodo::tools::filesystem::ReadFileRequest::example_schema()), expected);
}

#[test]
fn bash_schema_is_exact() {
    let expected: serde_json::Value = serde_json::from_str(
        r#"{"properties":{"command":{"description":"The bash command to execute","type":"string"},
        "description":{"description":"Optional description of what the command does","type":"string"},
        "timeout_secs":{"default":120,"description":"Timeout in seconds (default: 120)","type":"number"},
        "working_dir":{"description":"Working directory for command execution","type":"string"}},
        "required":["command"],"type":"object"}"#,
    )
    .unwrap();
    assert_eq!(to_serde(&nocodo::models::BashRequest::example_schema()), expected);
}

#[test]
fn health_checks_decide_reconnection() {
    let mut m = HealthMonitor::new();
    assert_eq!(m.on_check(HealthEvent::Failed), HealthAction::Nothing);
    assert_eq!(m.on_check(HealthEvent::Failed), HealthAction::Reconnect);
    assert!(!m.should_check());
    m.on_reconnect(false);
    assert_eq!(m.consecutive_failures, 2);
    assert!(!m.should_check());
    assert_eq!(m.on_check(HealthEvent::Failed), HealthAction::Nothing);
    assert_eq!(m.consecutive_failures, 2);
    m.on_reconnect(true);
    assert!(m.should_check());
    assert_eq!(m.consecutive_failures, 0);
    assert_eq!(m.on_check(HealthEvent::TimedOut), HealthAction::Nothing);
    assert_eq!(m.on_check(HealthEvent::TimedOut), HealthAction::Nothing);
    assert_eq!(m.consecutive_failures, 2);
    assert_eq!(m.on_check(HealthEvent::Failed), HealthAction::Reconnect);
    m.on_reconnect(true);
    assert_eq!(m.on_check(HealthEvent::Unauthorized), HealthAction::RequireLogin);
    assert_eq!(m.consecutive_failures, 0);
    assert_eq!(m.on_check(HealthEvent::Healthy), HealthAction::Nothing);
    let ssh = Some(ConnectionType::Ssh {
        server: "srv".to_string(),
        username: "u".to_string(),
        key_path: None,
        port: 22,
        remote_port: 8081,
    });
    assert_eq!(connection_info(&ssh), Some("srv".to_string()));
    assert_eq!(connection_info(&Some(ConnectionType::Local { port: 8081 })), Some("localhost".to_string()));
    assert_eq!(connection_info(&None), None);
}
