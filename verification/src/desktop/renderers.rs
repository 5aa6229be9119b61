//! What the desktop client's renderers of messages and Markdown show, as
//! text: senders, times and the blocks of a document.

use crate::desktop::markdown::{blocks_view, markdown_blocks, parse_markdown, MarkdownBlock};
use crate::text::{owned, str_eq};
use vstd::prelude::*;

verus! {

/// The sender shown on an AI message: the model, when known.
pub open spec fn ai_label_of(model: Option<Seq<char>>) -> Seq<char> {
    match model {
        Some(m) => "AI - "@ + m,
        None => "AI"@,
    }
}

/// The sender shown on a response: tool output is nocodo's; an
/// assistant's names its model when known.
pub open spec fn response_label_of(role: Seq<char>, model: Option<Seq<char>>) -> Seq<char> {
    if role == "tool"@ {
        "nocodo"@
    } else if role == "assistant"@ && model is Some {
        "AI - "@ + model->0
    } else {
        "AI"@
    }
}

/// The frame and header shared by messages.
pub struct MessageContainer;

/// How a UTC time, in seconds since the Unix epoch, is written as
/// "%Y-%m-%d %H:%M:%S"; none when chrono cannot represent it.
pub uninterp spec fn utc_datetime_text(timestamp: i64) -> Option<Seq<char>>;

/// Calls `chrono::DateTime::from_timestamp` and formats the result with
/// "%Y-%m-%d %H:%M:%S"; the result is named `utc_datetime_text`, a function
/// of the time alone (it is in UTC).
#[verifier::external_body]
fn datetime_text(timestamp: i64) -> (t: Option<String>)
    ensures
        crate::text::opt_str(t) == utc_datetime_text(timestamp),
{
    match chrono::DateTime::from_timestamp(timestamp, 0) {
        Some(dt) => Some(dt.format("%Y-%m-%d %H:%M:%S").to_string()),
        None => None,
    }
}

impl MessageContainer {
    /// The time shown in a message's header: its date and time in UTC, or
    /// "Unknown".
    pub fn timestamp_text(timestamp: i64) -> (t: String)
        ensures
            t@ == match utc_datetime_text(timestamp) {
                Some(d) => d,
                None => "Unknown"@,
            },
    {
        match datetime_text(timestamp) {
            Some(d) => d,
            None => owned("Unknown"),
        }
    }
}

/// Renders the user's messages.
pub struct UserMessageRenderer;

impl UserMessageRenderer {
    /// The sender shown on the user's messages.
    pub fn sender() -> (s: &'static str)
        ensures
            s@ == "User"@,
    {
        "User"
    }
}

/// Renders the AI's messages.
pub struct AiMessageRenderer;

impl AiMessageRenderer {
    /// The sender shown on an AI message.
    pub fn text_sender(model: Option<&str>) -> (l: String)
        ensures
            l@ == ai_label_of(
                match model {
                    Some(m) => Some(m@),
                    None => None,
                },
            ),
    {
        match model {
            Some(m) => {
                let mut l = owned("AI - ");
                l.append(m);
                l
            },
            None => owned("AI"),
        }
    }

    /// The sender shown on a response.
    pub fn response_sender(role: &str, model: Option<&str>) -> (l: String)
        ensures
            l@ == response_label_of(
                role@,
                match model {
                    Some(m) => Some(m@),
                    None => None,
                },
            ),
    {
        if str_eq(role, "tool") {
            owned("nocodo")
        } else if str_eq(role, "assistant") && model.is_some() {
            AiMessageRenderer::text_sender(model)
        } else {
            owned("AI")
        }
    }
}

/// The styles of the Markdown renderer, as the text they show.
pub struct TextStyles;

impl TextStyles {
    /// The text of a bullet item.
    pub fn bullet(text: &str) -> (t: String)
        ensures
            t@ == "• "@ + text@,
    {
        let mut t = owned("• ");
        t.append(text);
        t
    }

    /// The text of inline code.
    pub fn code_inline(text: &str) -> (t: String)
        ensures
            t@ == "`"@ + text@ + "`"@,
    {
        let mut t = owned("`");
        t.append(text);
        t.append("`");
        t
    }

    /// The text of a quote.
    pub fn quote(text: &str) -> (t: String)
        ensures
            t@ == "  "@ + text@,
    {
        let mut t = owned("  ");
        t.append(text);
        t
    }
}

/// Renders Markdown documents.
pub struct MarkdownRenderer;

impl MarkdownRenderer {
    /// The notice shown for an empty document.
    pub fn empty_notice() -> (t: &'static str)
        ensures
            t@ == "No content to display"@,
    {
        "No content to display"
    }

    /// What a document is displayed as: the notice when it is empty, else
    /// its blocks.
    pub fn render(content: &str) -> (r: RenderedMarkdown)
        ensures
            content@.len() == 0 ==> (r matches RenderedMarkdown::Notice(t) && t@ == "No content to display"@),
            content@.len() > 0 ==> (r matches RenderedMarkdown::Blocks(b) && blocks_view(b@) == markdown_blocks(content@)),
    {
        if content.is_empty() {
            RenderedMarkdown::Notice(owned(Self::empty_notice()))
        } else {
            RenderedMarkdown::Blocks(parse_markdown(content))
        }
    }
}

/// A document as displayed.
pub enum RenderedMarkdown {
    /// A notice shown in place of an empty document.
    Notice(String),
    Blocks(Vec<MarkdownBlock>),
}

} // verus!
