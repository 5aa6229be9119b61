use nocodo::cli::args::{analysis_format, default_log_level, OutputFormat as AnalyzeFormat};
use nocodo::cli::client::{manager_error, manager_url_or_default, response_data, SocketResponse};
use nocodo::cli::error::CliError;
use nocodo::cli::session::{
    ai_tool_arguments, ai_tool_command, enhanced_prompt, fallback_context, prompt_file_name,
    tool_not_found, tool_outcome,
};
use nocodo::cli::work::{
    content_type_from, content_type_label, history_format, history_markdown_lines,
    history_text_lines, OutputFormat,
};
use nocodo::models::{MessageAuthorType, MessageContentType, Work, WorkMessage, WorkWithHistory};

#[test]
fn tool_commands_ignore_case() {
    assert_eq!(ai_tool_command("GEMINI-CLI"), "gemini");
    assert_eq!(ai_tool_command("openai"), "openai");
    assert_eq!(ai_tool_command("Aider"), "Aider");
}

#[test]
fn tool_arguments_by_family() {
    assert_eq!(ai_tool_arguments("gemini", "/tmp/p.txt", "do it"), vec!["--input", "/tmp/p.txt"]);
    assert_eq!(ai_tool_arguments("openai", "/tmp/p.txt", "do it"), vec!["do it"]);
    assert_eq!(ai_tool_arguments("aider", "/tmp/p.txt", "do it"), vec!["do it"]);
}

#[test]
fn prompt_carries_context_and_request() {
    assert_eq!(
        enhanced_prompt("ctx", "add tests"),
        "Project Context:\nctx\n\nUser Request:\nadd tests\n\nInstructions: Use the `nocodo` command to get additional context about the project structure and to validate your changes."
    );
    assert_eq!(fallback_context("/src/app"), "Working directory: /src/app");
    assert_eq!(prompt_file_name(4321), "nocodo_prompt_4321.txt");
}

#[test]
fn tool_outcomes() {
    assert!(tool_outcome("gemini", true, Some(0)).is_ok());
    match tool_outcome("openai", false, Some(2)) {
        Err(CliError::Command(m)) => assert_eq!(m, "AI tool 'openai' failed with exit code: 2"),
        other => panic!("unexpected {:?}", other),
    }
    match tool_outcome("gemini", false, None) {
        Err(CliError::Command(m)) => assert_eq!(m, "AI tool 'gemini' failed with exit code: -1"),
        other => panic!("unexpected {:?}", other),
    }
    match tool_not_found("foo") {
        CliError::Command(m) => assert_eq!(
            m,
            "AI tool 'foo' not found. Please ensure it's installed and in your PATH."
        ),
        other => panic!("unexpected {:?}", other),
    }
}

#[test]
fn manager_replies() {
    assert_eq!(manager_url_or_default(None), "http://localhost:8081");
    assert_eq!(manager_url_or_default(Some("http://h:1".to_string())), "http://h:1");
    match response_data(SocketResponse::Error { message: "boom".to_string() }) {
        Err(CliError::Communication(m)) => assert_eq!(m, "Manager error: boom"),
        other => panic!("unexpected {:?}", other),
    }
    let data = response_data(SocketResponse::Success { data: serde_json::Value::Bool(true) }).unwrap();
    assert_eq!(data, serde_json::Value::Bool(true));
    assert_eq!(manager_error("x").exit_code(), 7);
}

#[test]
fn formats_default_to_text() {
    assert_eq!(analysis_format(None), AnalyzeFormat::Text);
    assert_eq!(analysis_format(Some(AnalyzeFormat::Yaml)), AnalyzeFormat::Yaml);
    assert_eq!(history_format(None), OutputFormat::Text);
    assert_eq!(history_format(Some(OutputFormat::Markdown)), OutputFormat::Markdown);
    assert_eq!(default_log_level(true), "debug");
    assert_eq!(default_log_level(false), "info");
}

#[test]
fn content_types_from_the_command_line() {
    assert!(matches!(content_type_from("markdown", None), MessageContentType::Markdown));
    assert!(matches!(content_type_from("json", None), MessageContentType::Json));
    assert!(matches!(content_type_from("text", None), MessageContentType::Text));
    assert!(matches!(content_type_from("weird", None), MessageContentType::Text));
    match content_type_from("code", Some("rust".to_string())) {
        MessageContentType::Code { language } => assert_eq!(language, "rust"),
        _ => panic!("expected code"),
    }
    match content_type_from("code", None) {
        MessageContentType::Code { language } => assert_eq!(language, ""),
        _ => panic!("expected code"),
    }
    assert_eq!(content_type_label(&MessageContentType::Code { language: String::new() }), "code");
    assert_eq!(content_type_label(&MessageContentType::Code { language: "go".to_string() }), "go");
    assert_eq!(content_type_label(&MessageContentType::Json), "json");
}

fn sample_history() -> WorkWithHistory {
    WorkWithHistory {
        work: Work {
            id: 7,
            title: "Fix bug".to_string(),
            project_id: None,
            model: None,
            status: "active".to_string(),
            created_at: 1700000000,
            updated_at: 1700000000,
            git_branch: None,
            working_directory: None,
        },
        messages: vec![
            WorkMessage {
                id: 1,
                work_id: 7,
                content: "hello".to_string(),
                content_type: MessageContentType::Text,
                author_type: MessageAuthorType::User,
                author_id: None,
                sequence_order: 0,
                created_at: 1700000001,
            },
            WorkMessage {
                id: 2,
                work_id: 7,
                content: "fn main() {}".to_string(),
                content_type: MessageContentType::Code { language: "rust".to_string() },
                author_type: MessageAuthorType::Ai,
                author_id: None,
                sequence_order: 1,
                created_at: 1700000002,
            },
        ],
        total_messages: 2,
    }
}

#[test]
fn history_as_text() {
    let lines = history_text_lines(&sample_history());
    assert_eq!(
        lines,
        vec![
            "Work: Fix bug (7)",
            "Status: active",
            "Created: 1700000000",
            "\nMessages (2 total):",
            "\n[0] User (text):",
            "hello",
            "\n[1] AI (rust):",
            "fn main() {}",
        ]
    );
}

#[test]
fn history_as_markdown() {
    let lines = history_markdown_lines(&sample_history());
    assert_eq!(
        lines,
        vec![
            "# Work: Fix bug (7)",
            "**Status**: active",
            "**Created**: 1700000000",
            "\n## Messages (2 total)",
            "\n### Message 0 - User (text)",
            "hello",
            "\n### Message 1 - AI (rust)",
            "```rust",
            "fn main() {}",
            "```",
        ]
    );
}
