use nocodo::cli::error::CliError;
use nocodo::desktop::markdown::{parse_markdown, InlineSpan, MarkdownBlock};
use nocodo::models::{default_auto_start, AiSession, Project};
use nocodo::tools::filesystem::WriteFileRequest;
use nocodo::tools::user_interaction::{AskUserRequest, QuestionType, UserQuestion};

fn write_request(content: Option<&str>, search: Option<&str>, replace: Option<&str>) -> WriteFileRequest {
    WriteFileRequest {
        path: "a.txt".to_string(),
        content: content.map(|c| c.to_string()),
        create_dirs: None,
        append: None,
        search: search.map(|s| s.to_string()),
        replace: replace.map(|s| s.to_string()),
        create_if_not_exists: None,
    }
}

#[test]
fn write_requests_need_content_or_a_pair() {
    assert!(write_request(Some("x"), None, None).validate().is_ok());
    assert!(write_request(None, Some("a"), Some("b")).validate().is_ok());
    assert_eq!(
        write_request(None, Some("a"), None).validate(),
        Err("Either 'content' must be provided, or both 'search' and 'replace' must be provided".to_string())
    );
    assert_eq!(
        write_request(Some("x"), Some("a"), None).validate(),
        Err("Both 'search' and 'replace' must be provided together".to_string())
    );
}

fn question(id: &str, text: &str, kind: QuestionType, options: Option<Vec<&str>>) -> UserQuestion {
    UserQuestion {
        id: id.to_string(),
        question: text.to_string(),
        response_type: kind,
        default: None,
        options: options.map(|o| o.iter().map(|s| s.to_string()).collect()),
        description: None,
        validation: None,
    }
}

fn ask(questions: Vec<UserQuestion>) -> AskUserRequest {
    AskUserRequest { prompt: "p".to_string(), questions, required: None, timeout_secs: None }
}

#[test]
fn questions_are_checked_in_order() {
    assert_eq!(ask(vec![]).validate(), Err("At least one question must be provided".to_string()));
    assert!(ask(vec![question("a", "A?", QuestionType::Text, None)]).validate().is_ok());
    assert_eq!(
        ask(vec![question("", "A?", QuestionType::Text, None)]).validate(),
        Err("Question at index 0 has empty ID".to_string())
    );
    assert_eq!(
        ask(vec![question("a", "A?", QuestionType::Text, None), question("b", "", QuestionType::Text, None)]).validate(),
        Err("Question 'b' at index 1 has empty text".to_string())
    );
    assert_eq!(
        ask(vec![question("a", "A?", QuestionType::Text, None), question("a", "B?", QuestionType::Text, None)]).validate(),
        Err("Duplicate question ID: a".to_string())
    );
    assert_eq!(
        ask(vec![question("c", "Pick", QuestionType::Select, Some(vec![]))]).validate(),
        Err("Question 'c' of type Select requires at least one option".to_string())
    );
    assert!(ask(vec![question("c", "Pick", QuestionType::Multiselect, Some(vec!["x"]))]).validate().is_ok());
}

#[test]
fn exit_codes_and_messages() {
    assert_eq!(CliError::Config("c".to_string()).exit_code(), 2);
    assert_eq!(CliError::Analysis("a".to_string()).exit_code(), 4);
    assert_eq!(CliError::Command("c".to_string()).exit_code(), 5);
    assert_eq!(CliError::Communication("c".to_string()).exit_code(), 7);
    assert_eq!(CliError::Other(anyhow::Error::msg("x")).exit_code(), 1);
    let io = CliError::Io(std::io::Error::new(std::io::ErrorKind::Other, "disk"));
    assert_eq!(io.exit_code(), 3);
    assert_eq!(io.message(), "I/O error: disk");
    assert_eq!(CliError::Analysis("bad".to_string()).message(), "Analysis error: bad");
}

#[test]
fn new_records_start_now() {
    let p = Project::new("n".to_string(), "/p".to_string());
    assert_eq!(p.id, 0);
    assert_eq!(p.created_at, p.updated_at);
    assert!(p.created_at > 1_600_000_000);
    let s = AiSession::new(1, 2, "gemini".to_string(), None);
    assert_eq!(s.status, "started");
    assert!(default_auto_start());
}

#[test]
fn markdown_blocks() {
    let blocks = parse_markdown("# Title\n\n- item\n```\ncode\n```\nSee **bold** and [link](u) `x`");
    assert!(matches!(&blocks[0], MarkdownBlock::Heading1(t) if t == "Title"));
    assert!(matches!(&blocks[1], MarkdownBlock::Space));
    assert!(matches!(&blocks[2], MarkdownBlock::Bullet(0, t) if t == "item"));
    assert!(matches!(&blocks[3], MarkdownBlock::CodeBlock(c) if c == "code\n"));
    match &blocks[4] {
        MarkdownBlock::Paragraph(spans) => {
            assert!(matches!(&spans[0], InlineSpan::Plain(t) if t == "See "));
            assert!(matches!(&spans[1], InlineSpan::Bold(t) if t == "bold"));
            assert!(matches!(&spans[2], InlineSpan::Plain(t) if t == " and "));
            assert!(matches!(&spans[3], InlineSpan::Link(t) if t == "link"));
            assert!(matches!(&spans[4], InlineSpan::Plain(t) if t == " "));
            assert!(matches!(&spans[5], InlineSpan::Code(t) if t == "x"));
        }
        _ => panic!("expected a paragraph"),
    }
    assert_eq!(blocks.len(), 5);
}
