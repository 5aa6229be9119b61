//! `work`: its subcommands, the content type a message is sent with, and
//! the text and Markdown renderings of a work's history.

use crate::models::{MessageAuthorType, MessageContentType, WorkMessage, WorkWithHistory};
use crate::text::{decimal_int, i64_to_decimal, owned, str_eq, strs};
use crate::documents::copy_string;
use vstd::prelude::*;

verus! {

/// Work management commands.
#[derive(Debug)]
pub enum WorkCommands {
    /// List all works
    List,
    /// Create new work
    Create { title: String, project_id: Option<String> },
    /// Show work history
    History { work_id: String, format: Option<OutputFormat> },
    /// Add message to work
    AddMessage {
        work_id: String,
        content: String,
        /// text, markdown, json or code
        content_type: String,
        /// Only for code
        language: Option<String>,
    },
}

/// How a work's history is shown.
#[derive(Debug, Clone, Copy, PartialEq, Eq, Structural)]
pub enum OutputFormat {
    Text,
    Json,
    Markdown,
}

/// The format a history is shown in: the one asked for, else text.
pub fn history_format(format: Option<OutputFormat>) -> (f: OutputFormat)
    ensures
        f == match format {
            Some(f) => f,
            None => OutputFormat::Text,
        },
{
    match format {
        Some(f) => f,
        None => OutputFormat::Text,
    }
}

/// The view of a content type.
pub open spec fn content_type_view(c: MessageContentType) -> (int, Seq<char>) {
    match c {
        MessageContentType::Text => (0, seq![]),
        MessageContentType::Markdown => (1, seq![]),
        MessageContentType::Json => (2, seq![]),
        MessageContentType::Code { language } => (3, language@),
    }
}

/// The content type named on the command line: "text", "markdown", "json"
/// or "code" (with the language given, or none); anything else is text.
pub open spec fn content_type_named(name: Seq<char>, language: Option<Seq<char>>) -> (int, Seq<char>) {
    if name == "markdown"@ {
        (1, seq![])
    } else if name == "json"@ {
        (2, seq![])
    } else if name == "code"@ {
        (
            3,
            match language {
                Some(l) => l,
                None => seq![],
            },
        )
    } else {
        (0, seq![])
    }
}

/// The content type a message is sent with.
pub fn content_type_from(content_type: &str, language: Option<String>) -> (c: MessageContentType)
    ensures
        content_type_view(c) == content_type_named(
            content_type@,
            match language {
                Some(l) => Some(l@),
                None => None,
            },
        ),
{
    if str_eq(content_type, "text") {
        proof {
            reveal_strlit("text");
            reveal_strlit("markdown");
            reveal_strlit("json");
            reveal_strlit("code");
            assert("text"@.len() != "markdown"@.len());
            assert("text"@[0] != "json"@[0]);
        }
        MessageContentType::Text
    } else if str_eq(content_type, "markdown") {
        MessageContentType::Markdown
    } else if str_eq(content_type, "json") {
        MessageContentType::Json
    } else if str_eq(content_type, "code") {
        let language = match language {
            Some(l) => l,
            None => String::new(),
        };
        MessageContentType::Code { language }
    } else {
        MessageContentType::Text
    }
}

/// The label of a content type: code is labelled by its language when it
/// has one.
pub open spec fn content_label(c: MessageContentType) -> Seq<char> {
    match c {
        MessageContentType::Text => "text"@,
        MessageContentType::Markdown => "markdown"@,
        MessageContentType::Json => "json"@,
        MessageContentType::Code { language } => if language@.len() == 0 {
            "code"@
        } else {
            language@
        },
    }
}

/// The label of a content type other than code with a language names that
/// type: read back as a content type name, it gives the same type.
pub proof fn lemma_content_label_names_type(c: MessageContentType)
    requires
        c matches MessageContentType::Code { language } ==> language@.len() == 0,
    ensures
        content_type_named(content_label(c), None) == content_type_view(c),
{
    reveal_strlit("text");
    reveal_strlit("markdown");
    reveal_strlit("json");
    reveal_strlit("code");
    assert("text"@ != "markdown"@ && "text"@ != "json"@ && "text"@ != "code"@) by {
        assert("text"@[0] != "markdown"@[0] && "text"@[0] != "json"@[0] && "text"@[0] != "code"@[0]);
    }
    assert("markdown"@ != "json"@ && "markdown"@ != "code"@) by {
        assert("markdown"@[0] != "json"@[0] && "markdown"@[0] != "code"@[0]);
    }
    assert("json"@ != "code"@) by {
        assert("json"@[0] != "code"@[0]);
    }
}

/// Different content types other than code with a language have different
/// labels.
pub proof fn lemma_content_labels_distinct(a: MessageContentType, b: MessageContentType)
    requires
        a matches MessageContentType::Code { language } ==> language@.len() == 0,
        b matches MessageContentType::Code { language } ==> language@.len() == 0,
        content_label(a) == content_label(b),
    ensures
        content_type_view(a) == content_type_view(b),
{
    lemma_content_label_names_type(a);
    lemma_content_label_names_type(b);
}

/// The label of a content type.
pub fn content_type_label(c: &MessageContentType) -> (l: String)
    ensures
        l@ == content_label(*c),
{
    match c {
        MessageContentType::Text => owned("text"),
        MessageContentType::Markdown => owned("markdown"),
        MessageContentType::Json => owned("json"),
        MessageContentType::Code { language } => if language.as_str().is_empty() {
            owned("code")
        } else {
            copy_string(language)
        },
    }
}

/// The label of an author.
pub open spec fn author_label_of(a: MessageAuthorType) -> Seq<char> {
    match a {
        MessageAuthorType::User => "User"@,
        MessageAuthorType::Ai => "AI"@,
    }
}

/// The label of an author.
pub fn author_label(a: MessageAuthorType) -> (l: String)
    ensures
        l@ == author_label_of(a),
{
    match a {
        MessageAuthorType::User => owned("User"),
        MessageAuthorType::Ai => owned("AI"),
    }
}

/// The lines of one message in the text rendering.
pub open spec fn message_text(m: WorkMessage) -> Seq<Seq<char>> {
    seq![
        "\n["@ + decimal_int(m.sequence_order as int) + "] "@ + author_label_of(m.author_type) + " ("@
            + content_label(m.content_type) + "):"@,
        m.content@,
    ]
}

/// The lines of the messages in the text rendering, in order.
pub open spec fn messages_text(ms: Seq<WorkMessage>) -> Seq<Seq<char>>
    decreases ms.len(),
{
    if ms.len() == 0 {
        seq![]
    } else {
        messages_text(ms.drop_last()) + message_text(ms.last())
    }
}

/// The text rendering of a work's history, one line per element.
pub open spec fn history_text(h: WorkWithHistory) -> Seq<Seq<char>> {
    seq![
        "Work: "@ + h.work.title@ + " ("@ + decimal_int(h.work.id as int) + ")"@,
        "Status: "@ + h.work.status@,
        "Created: "@ + decimal_int(h.work.created_at as int),
        "\nMessages ("@ + decimal_int(h.total_messages as int) + " total):"@,
    ] + messages_text(h.messages@)
}

/// The lines of one message in the Markdown rendering: code goes in a
/// fence tagged with its label.
pub open spec fn message_markdown(m: WorkMessage) -> Seq<Seq<char>> {
    seq![
        "\n### Message "@ + decimal_int(m.sequence_order as int) + " - "@ + author_label_of(m.author_type)
            + " ("@ + content_label(m.content_type) + ")"@,
    ] + match m.content_type {
        MessageContentType::Code { .. } => seq!["```"@ + content_label(m.content_type), m.content@, "```"@],
        _ => seq![m.content@],
    }
}

/// The lines of the messages in the Markdown rendering, in order.
pub open spec fn messages_markdown(ms: Seq<WorkMessage>) -> Seq<Seq<char>>
    decreases ms.len(),
{
    if ms.len() == 0 {
        seq![]
    } else {
        messages_markdown(ms.drop_last()) + message_markdown(ms.last())
    }
}

/// The Markdown rendering of a work's history, one line per element.
pub open spec fn history_markdown(h: WorkWithHistory) -> Seq<Seq<char>> {
    seq![
        "# Work: "@ + h.work.title@ + " ("@ + decimal_int(h.work.id as int) + ")"@,
        "**Status**: "@ + h.work.status@,
        "**Created**: "@ + decimal_int(h.work.created_at as int),
        "\n## Messages ("@ + decimal_int(h.total_messages as int) + " total)"@,
    ] + messages_markdown(h.messages@)
}

fn join5(a: &str, b: &str, c: &str, d: &str, e: &str) -> (s: String)
    ensures
        s@ == a@ + b@ + c@ + d@ + e@,
{
    let mut s = owned(a);
    s.append(b);
    s.append(c);
    s.append(d);
    s.append(e);
    s
}

fn join7(a: &str, b: &str, c: &str, d: &str, e: &str, f: &str, g: &str) -> (s: String)
    ensures
        s@ == a@ + b@ + c@ + d@ + e@ + f@ + g@,
{
    let mut s = join5(a, b, c, d, e);
    s.append(f);
    s.append(g);
    s
}

fn join2(a: &str, b: &str) -> (s: String)
    ensures
        s@ == a@ + b@,
{
    let mut s = owned(a);
    s.append(b);
    s
}

fn push_message_text(lines: &mut Vec<String>, m: &WorkMessage)
    ensures
        strs(final(lines)@) == strs(old(lines)@) + message_text(*m),
{
    let order = i64_to_decimal(m.sequence_order as i64);
    let author = author_label(m.author_type);
    let label = content_type_label(&m.content_type);
    lines.push(join7("\n[", order.as_str(), "] ", author.as_str(), " (", label.as_str(), "):"));
    lines.push(copy_string(&m.content));
    assert(strs(lines@) =~= strs(old(lines)@) + message_text(*m));
}

fn push_message_markdown(lines: &mut Vec<String>, m: &WorkMessage)
    ensures
        strs(final(lines)@) == strs(old(lines)@) + message_markdown(*m),
{
    let order = i64_to_decimal(m.sequence_order as i64);
    let author = author_label(m.author_type);
    let label = content_type_label(&m.content_type);
    lines.push(join7("\n### Message ", order.as_str(), " - ", author.as_str(), " (", label.as_str(), ")"));
    match &m.content_type {
        MessageContentType::Code { .. } => {
            lines.push(join2("```", label.as_str()));
            lines.push(copy_string(&m.content));
            lines.push(owned("```"));
        },
        _ => {
            lines.push(copy_string(&m.content));
        },
    }
    assert(strs(lines@) =~= strs(old(lines)@) + message_markdown(*m));
}

/// The text rendering of a work's history, one printed line per element.
pub fn history_text_lines(h: &WorkWithHistory) -> (lines: Vec<String>)
    ensures
        strs(lines@) == history_text(*h),
{
    let id = i64_to_decimal(h.work.id);
    let created = i64_to_decimal(h.work.created_at);
    let total = i64_to_decimal(h.total_messages as i64);
    let mut lines: Vec<String> = Vec::new();
    lines.push(join5("Work: ", h.work.title.as_str(), " (", id.as_str(), ")"));
    lines.push(join2("Status: ", h.work.status.as_str()));
    lines.push(join2("Created: ", created.as_str()));
    lines.push(join5("\nMessages (", total.as_str(), " total):", "", ""));
    proof {
        reveal_strlit("");
        assert(""@ =~= Seq::<char>::empty());
    }
    let ghost head = strs(lines@);
    assert(head =~= history_text(*h).subrange(0, 4));
    let mut i: usize = 0;
    while i < h.messages.len()
        invariant
            i <= h.messages@.len(),
            strs(lines@) == head + messages_text(h.messages@.take(i as int)),
        decreases h.messages@.len() - i,
    {
        proof {
            assert(h.messages@.take(i + 1).drop_last() =~= h.messages@.take(i as int));
            assert(head + messages_text(h.messages@.take(i as int)) + message_text(h.messages@[i as int])
                =~= head + messages_text(h.messages@.take(i + 1)));
        }
        push_message_text(&mut lines, &h.messages[i]);
        i = i + 1;
    }
    assert(h.messages@.take(h.messages@.len() as int) =~= h.messages@);
    assert(strs(lines@) =~= history_text(*h));
    lines
}

/// The Markdown rendering of a work's history, one printed line per
/// element.
pub fn history_markdown_lines(h: &WorkWithHistory) -> (lines: Vec<String>)
    ensures
        strs(lines@) == history_markdown(*h),
{
    let id = i64_to_decimal(h.work.id);
    let created = i64_to_decimal(h.work.created_at);
    let total = i64_to_decimal(h.total_messages as i64);
    let mut lines: Vec<String> = Vec::new();
    lines.push(join5("# Work: ", h.work.title.as_str(), " (", id.as_str(), ")"));
    lines.push(join2("**Status**: ", h.work.status.as_str()));
    lines.push(join2("**Created**: ", created.as_str()));
    lines.push(join5("\n## Messages (", total.as_str(), " total)", "", ""));
    proof {
        reveal_strlit("");
        assert(""@ =~= Seq::<char>::empty());
    }
    let ghost head = strs(lines@);
    assert(head =~= history_markdown(*h).subrange(0, 4));
    let mut i: usize = 0;
    while i < h.messages.len()
        invariant
            i <= h.messages@.len(),
            strs(lines@) == head + messages_markdown(h.messages@.take(i as int)),
        decreases h.messages@.len() - i,
    {
        proof {
            assert(h.messages@.take(i + 1).drop_last() =~= h.messages@.take(i as int));
            assert(head + messages_markdown(h.messages@.take(i as int)) + message_markdown(h.messages@[i as int])
                =~= head + messages_markdown(h.messages@.take(i + 1)));
        }
        push_message_markdown(&mut lines, &h.messages[i]);
        i = i + 1;
    }
    assert(h.messages@.take(h.messages@.len() as int) =~= h.messages@);
    assert(strs(lines@) =~= history_markdown(*h));
    lines
}

} // verus!
