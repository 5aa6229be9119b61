//! The ask-user tool: questions put to the user and the answers.

use crate::documents::{json_array, json_number, json_object, json_string, json_view, no_entries, no_items, push_entry, push_item, JsonValue, JsonView};
use crate::text::{decimal_int, u64_to_decimal, str_eq};
use vstd::prelude::*;

verus! {

/// Ask the user a list of questions to gather information or confirm actions.
#[derive(Debug, Clone)]
pub struct AskUserRequest {
    /// The main prompt or context for the questions.
    pub prompt: String,
    /// The questions to ask.
    pub questions: Vec<UserQuestion>,
    /// Whether answers are required.
    pub required: Option<bool>,
    /// Optional timeout in seconds for the answers.
    pub timeout_secs: Option<u64>,
}

/// A question to ask the user.
#[derive(Debug, Clone)]
pub struct UserQuestion {
    /// Unique identifier of the question.
    pub id: String,
    /// The question text.
    pub question: String,
    /// Type of the expected answer.
    pub response_type: QuestionType,
    /// Default answer.
    pub default: Option<String>,
    /// Choices for select and multiselect questions.
    pub options: Option<Vec<String>>,
    /// Help text.
    pub description: Option<String>,
    /// Rules for the answer.
    pub validation: Option<QuestionValidation>,
}

/// Type of question and expected answer format.
#[derive(Debug, Clone, Copy, PartialEq, Eq, Structural)]
pub enum QuestionType {
    /// Simple text input
    Text,
    /// Numeric input
    Number,
    /// Yes/no question
    Boolean,
    /// Single choice among the options
    Select,
    /// Several choices among the options
    Multiselect,
    /// Masked password input
    Password,
    /// File path input
    FilePath,
    /// Email address input
    Email,
    /// URL input
    Url,
}

/// Rules for an answer. The numeric bounds are IEEE-754 double-precision
/// values held as their bit patterns.
#[derive(Debug, Clone)]
pub struct QuestionValidation {
    /// Minimum length of a text answer.
    pub min_length: Option<usize>,
    /// Maximum length of a text answer.
    pub max_length: Option<usize>,
    /// Bit pattern of the minimum numeric value.
    pub min_value_bits: Option<u64>,
    /// Bit pattern of the maximum numeric value.
    pub max_value_bits: Option<u64>,
    /// Regular expression for text answers.
    pub pattern: Option<String>,
    /// Custom error message.
    pub error_message: Option<String>,
}

impl Default for QuestionValidation {
    fn default() -> (v: Self)
        ensures
            v.min_length is None,
            v.max_length is None,
            v.min_value_bits is None,
            v.max_value_bits is None,
            v.pattern is None,
            v.error_message is None,
    {
        QuestionValidation {
            min_length: None,
            max_length: None,
            min_value_bits: None,
            max_value_bits: None,
            pattern: None,
            error_message: None,
        }
    }
}

/// The answers of the user. The response time is the bit pattern of an
/// IEEE-754 double-precision number of seconds.
#[derive(Debug, Clone)]
pub struct AskUserResponse {
    /// Whether all required questions were answered.
    pub completed: bool,
    /// One answer per question.
    pub responses: Vec<UserQuestionResponse>,
    /// Error or status message.
    pub message: String,
    /// Bit pattern of the response time in seconds.
    pub response_time_secs_bits: Option<u64>,
}

/// The user's answer to one question.
#[derive(Debug, Clone)]
pub struct UserQuestionResponse {
    /// ID of the question answered.
    pub question_id: String,
    /// The answer.
    pub answer: String,
    /// Whether the answer passes the question's rules.
    pub valid: bool,
    /// Why the answer does not pass.
    pub validation_error: Option<String>,
}

/// The name under which a question type is printed in messages.
pub open spec fn question_type_name(t: QuestionType) -> Seq<char> {
    match t {
        QuestionType::Text => "Text"@,
        QuestionType::Number => "Number"@,
        QuestionType::Boolean => "Boolean"@,
        QuestionType::Select => "Select"@,
        QuestionType::Multiselect => "Multiselect"@,
        QuestionType::Password => "Password"@,
        QuestionType::FilePath => "FilePath"@,
        QuestionType::Email => "Email"@,
        QuestionType::Url => "Url"@,
    }
}

/// Select and multiselect questions need options.
pub open spec fn needs_options(t: QuestionType) -> bool {
    t == QuestionType::Select || t == QuestionType::Multiselect
}

/// The question offers at least one option.
pub open spec fn has_options(q: UserQuestion) -> bool {
    q.options matches Some(o) && o@.len() > 0
}

/// Some question before position `index` has the given ID.
pub open spec fn id_taken_before(qs: Seq<UserQuestion>, index: int, id: Seq<char>) -> bool {
    exists|j: int| 0 <= j < index && (#[trigger] qs[j]).id@ == id
}

/// The message for the first rule that the question at `index` breaks, if any.
pub open spec fn question_error(qs: Seq<UserQuestion>, index: int) -> Option<Seq<char>> {
    let q = qs[index];
    if q.id@.len() == 0 {
        Some("Question at index "@ + decimal_int(index) + " has empty ID"@)
    } else if q.question@.len() == 0 {
        Some("Question '"@ + q.id@ + "' at index "@ + decimal_int(index) + " has empty text"@)
    } else if id_taken_before(qs, index, q.id@) {
        Some("Duplicate question ID: "@ + q.id@)
    } else if needs_options(q.response_type) && !has_options(q) {
        Some(
            "Question '"@ + q.id@ + "' of type "@ + question_type_name(q.response_type)
                + " requires at least one option"@,
        )
    } else {
        None
    }
}

/// The message for the first rule broken by a question at or after `index`.
pub open spec fn first_question_error(qs: Seq<UserQuestion>, index: int) -> Option<Seq<char>>
    decreases qs.len() - index,
{
    if index < 0 || index >= qs.len() {
        None
    } else {
        match question_error(qs, index) {
            Some(m) => Some(m),
            None => first_question_error(qs, index + 1),
        }
    }
}

/// The message for an empty question list.
pub open spec fn no_questions_message() -> Seq<char> {
    "At least one question must be provided"@
}

/// Every question has a non-empty ID and text, choice questions offer
/// options, and no two questions share an ID.
pub open spec fn questions_valid(qs: Seq<UserQuestion>) -> bool {
    &&& qs.len() > 0
    &&& forall|i: int| 0 <= i < qs.len() ==> (#[trigger] qs[i]).id@.len() > 0
    &&& forall|i: int| 0 <= i < qs.len() ==> (#[trigger] qs[i]).question@.len() > 0
    &&& forall|i: int|
        0 <= i < qs.len() ==> (needs_options((#[trigger] qs[i]).response_type) ==> has_options(
            qs[i],
        ))
    &&& forall|i: int, j: int| 0 <= i < j < qs.len() ==> (#[trigger] qs[i]).id@ != (#[trigger] qs[j]).id@
}

/// No question at or after `index` breaks a rule exactly when each of them
/// has an ID, a text, its options, and an ID unused by every earlier question.
proof fn lemma_first_question_error(qs: Seq<UserQuestion>, index: int)
    requires
        0 <= index <= qs.len(),
    ensures
        first_question_error(qs, index) is None <==> forall|k: int|
            index <= k < qs.len() ==> #[trigger] question_error(qs, k) is None,
    decreases qs.len() - index,
{
    if index < qs.len() {
        lemma_first_question_error(qs, index + 1);
        if first_question_error(qs, index) is None {
            assert forall|k: int| index <= k < qs.len() implies #[trigger] question_error(qs, k) is None by {
                if k > index {
                }
            }
        }
    }
}

/// Each question passing its own check is the same as the whole list being valid.
proof fn lemma_questions_valid(qs: Seq<UserQuestion>)
    requires
        qs.len() > 0,
    ensures
        (forall|k: int| 0 <= k < qs.len() ==> #[trigger] question_error(qs, k) is None)
            <==> questions_valid(qs),
{
    if forall|k: int| 0 <= k < qs.len() ==> #[trigger] question_error(qs, k) is None {
        assert forall|i: int, j: int| 0 <= i < j < qs.len() implies (#[trigger] qs[i]).id@
            != (#[trigger] qs[j]).id@ by {
            assert(question_error(qs, j) is None);
            if qs[i].id@ == qs[j].id@ {
                assert(id_taken_before(qs, j, qs[j].id@));
            }
        }
        assert forall|i: int| 0 <= i < qs.len() implies (#[trigger] qs[i]).id@.len() > 0 by {
            assert(question_error(qs, i) is None);
        }
        assert forall|i: int| 0 <= i < qs.len() implies (#[trigger] qs[i]).question@.len() > 0 by {
            assert(question_error(qs, i) is None);
        }
        assert forall|i: int| 0 <= i < qs.len() && needs_options((#[trigger] qs[i]).response_type)
            implies has_options(qs[i]) by {
            assert(question_error(qs, i) is None);
        }
    }
    if questions_valid(qs) {
        assert forall|k: int| 0 <= k < qs.len() implies #[trigger] question_error(qs, k) is None by {
            if id_taken_before(qs, k, qs[k].id@) {
                let j = choose|j: int| 0 <= j < k && (#[trigger] qs[j]).id@ == qs[k].id@;
                assert(qs[j].id@ != qs[k].id@);
            }
        }
    }
}

fn index_message(prefix: &str, index: usize, suffix: &str) -> (s: String)
    ensures
        s@ == prefix@ + decimal_int(index as int) + suffix@,
{
    let mut s = String::from_str(prefix);
    let digits = u64_to_decimal(index as u64);
    s.append(digits.as_str());
    s.append(suffix);
    s
}

fn question_type_text(t: QuestionType) -> (s: &'static str)
    ensures
        s@ == question_type_name(t),
{
    match t {
        QuestionType::Text => "Text",
        QuestionType::Number => "Number",
        QuestionType::Boolean => "Boolean",
        QuestionType::Select => "Select",
        QuestionType::Multiselect => "Multiselect",
        QuestionType::Password => "Password",
        QuestionType::FilePath => "FilePath",
        QuestionType::Email => "Email",
        QuestionType::Url => "Url",
    }
}

/// Whether a question before position `index` has the ID of the question at `index`.
fn id_used_before(qs: &Vec<UserQuestion>, index: usize) -> (b: bool)
    requires
        index < qs@.len(),
    ensures
        b == id_taken_before(qs@, index as int, qs@[index as int].id@),
{
    let mut j: usize = 0;
    while j < index
        invariant
            j <= index < qs@.len(),
            forall|k: int| 0 <= k < j ==> (#[trigger] qs@[k]).id@ != qs@[index as int].id@,
        decreases index - j,
    {
        if str_eq(qs[j].id.as_str(), qs[index].id.as_str()) {
            assert(qs@[j as int].id@ == qs@[index as int].id@);
            return true;
        }
        j = j + 1;
    }
    false
}

impl AskUserRequest {
    /// Validates the request: at least one question, every question with an
    /// ID and a text, no two questions with the same ID, and options for
    /// every select and multiselect question. The error names the first
    /// rule broken, question by question in order.
    pub fn validate(&self) -> (res: Result<(), String>)
        ensures
            res is Ok <==> questions_valid(self.questions@),
            self.questions@.len() == 0 ==> (res matches Err(e) && e@ == no_questions_message()),
            self.questions@.len() > 0 ==> match first_question_error(self.questions@, 0) {
                Some(m) => res matches Err(e) && e@ == m,
                None => res is Ok,
            },
    {
        let ghost qs = self.questions@;
        if self.questions.len() == 0 {
            return Err(String::from_str("At least one question must be provided"));
        }
        proof {
            lemma_first_question_error(qs, 0);
            lemma_questions_valid(qs);
        }
        let n = self.questions.len();
        let mut index: usize = 0;
        while index < n
            invariant
                n == qs.len(),
                qs == self.questions@,
                index <= n,
                forall|k: int| 0 <= k < index ==> #[trigger] question_error(qs, k) is None,
                first_question_error(qs, 0) is None <==> forall|k: int|
                    0 <= k < qs.len() ==> #[trigger] question_error(qs, k) is None,
                (forall|k: int| 0 <= k < qs.len() ==> #[trigger] question_error(qs, k) is None)
                    <==> questions_valid(qs),
                forall|k: int| 0 <= k <= index ==> #[trigger] first_question_error(qs, k)
                    == first_question_error(qs, 0),
            decreases n - index,
        {
            let q = &self.questions[index];
            proof {
                assert(first_question_error(qs, index as int) == match question_error(qs, index as int) {
                    Some(m) => Some(m),
                    None => first_question_error(qs, index + 1),
                });
            }
            if q.id.as_str().is_empty() {
                return Err(index_message("Question at index ", index, " has empty ID"));
            }
            if q.question.as_str().is_empty() {
                let mut m = String::from_str("Question '");
                m.append(q.id.as_str());
                let rest = index_message("' at index ", index, " has empty text");
                m.append(rest.as_str());
                assert(m@ =~= "Question '"@ + q.id@ + "' at index "@ + decimal_int(index as int)
                    + " has empty text"@);
                return Err(m);
            }
            if id_used_before(&self.questions, index) {
                let mut m = String::from_str("Duplicate question ID: ");
                m.append(q.id.as_str());
                return Err(m);
            }
            assert(!id_taken_before(qs, index as int, q.id@));
            let needs = match q.response_type {
                QuestionType::Select | QuestionType::Multiselect => true,
                _ => false,
            };
            if needs {
                let missing = match &q.options {
                    Some(opts) => opts.len() == 0,
                    None => true,
                };
                if missing {
                    let mut m = String::from_str("Question '");
                    m.append(q.id.as_str());
                    m.append("' of type ");
                    m.append(question_type_text(q.response_type));
                    m.append(" requires at least one option");
                    return Err(m);
                }
            }
            assert(question_error(qs, index as int) is None);
            index = index + 1;
        }
        Ok(())
    }
}

/// An example JSON schema of a `AskUserRequest`.
pub open spec fn ask_user_schema() -> JsonView {
    JsonView::Object(
        Seq::empty()
        .push(("properties"@, JsonView::Object(
            Seq::empty()
            .push(("prompt"@, JsonView::Object(
                Seq::empty()
                .push(("description"@, JsonView::String("The main prompt or context for the questions"@)))
                .push(("type"@, JsonView::String("string"@))),
            )))
            .push(("questions"@, JsonView::Object(
                Seq::empty()
                .push(("description"@, JsonView::String("List of questions to ask the user"@)))
                .push(("items"@, JsonView::Object(
                    Seq::empty()
                    .push(("properties"@, JsonView::Object(
                        Seq::empty()
                        .push(("default"@, JsonView::Object(
                            Seq::empty()
                            .push(("description"@, JsonView::String("Default value if user doesn't provide one"@)))
                            .push(("type"@, JsonView::String("string"@))),
                        )))
                        .push(("description"@, JsonView::Object(
                            Seq::empty()
                            .push(("description"@, JsonView::String("Additional description or help text for the question"@)))
                            .push(("type"@, JsonView::String("string"@))),
                        )))
                        .push(("id"@, JsonView::Object(
                            Seq::empty()
                            .push(("description"@, JsonView::String("Unique identifier for this question"@)))
                            .push(("type"@, JsonView::String("string"@))),
                        )))
                        .push(("options"@, JsonView::Object(
                            Seq::empty()
                            .push(("description"@, JsonView::String("List of possible options for multiple choice questions"@)))
                            .push(("items"@, JsonView::Object(
                                Seq::empty()
                                .push(("type"@, JsonView::String("string"@))),
                            )))
                            .push(("type"@, JsonView::String("array"@))),
                        )))
                        .push(("question"@, JsonView::Object(
                            Seq::empty()
                            .push(("description"@, JsonView::String("The question text to display to the user"@)))
                            .push(("type"@, JsonView::String("string"@))),
                        )))
                        .push(("type"@, JsonView::Object(
                            Seq::empty()
                            .push(("description"@, JsonView::String("Type of response expected"@)))
                            .push(("enum"@, JsonView::Array(
                                Seq::empty()
                                .push(JsonView::String("text"@))
                                .push(JsonView::String("number"@))
                                .push(JsonView::String("boolean"@))
                                .push(JsonView::String("select"@))
                                .push(JsonView::String("multiselect"@))
                                .push(JsonView::String("password"@))
                                .push(JsonView::String("file_path"@))
                                .push(JsonView::String("email"@))
                                .push(JsonView::String("url"@)),
                            )))
                            .push(("type"@, JsonView::String("string"@))),
                        )))
                        .push(("validation"@, JsonView::Object(
                            Seq::empty()
                            .push(("description"@, JsonView::String("Validation rules for the response"@)))
                            .push(("properties"@, JsonView::Object(
                                Seq::empty()
                                .push(("error_message"@, JsonView::Object(
                                    Seq::empty()
                                    .push(("description"@, JsonView::String("Custom validation error message"@)))
                                    .push(("type"@, JsonView::String("string"@))),
                                )))
                                .push(("max_length"@, JsonView::Object(
                                    Seq::empty()
                                    .push(("description"@, JsonView::String("Maximum length for text responses"@)))
                                    .push(("type"@, JsonView::String("number"@))),
                                )))
                                .push(("max_value"@, JsonView::Object(
                                    Seq::empty()
                                    .push(("description"@, JsonView::String("Maximum value for numeric responses"@)))
                                    .push(("type"@, JsonView::String("number"@))),
                                )))
                                .push(("min_length"@, JsonView::Object(
                                    Seq::empty()
                                    .push(("description"@, JsonView::String("Minimum length for text responses"@)))
                                    .push(("type"@, JsonView::String("number"@))),
                                )))
                                .push(("min_value"@, JsonView::Object(
                                    Seq::empty()
                                    .push(("description"@, JsonView::String("Minimum value for numeric responses"@)))
                                    .push(("type"@, JsonView::String("number"@))),
                                )))
                                .push(("pattern"@, JsonView::Object(
                                    Seq::empty()
                                    .push(("description"@, JsonView::String("Regular expression pattern for text validation"@)))
                                    .push(("type"@, JsonView::String("string"@))),
                                ))),
                            )))
                            .push(("type"@, JsonView::String("object"@))),
                        ))),
                    )))
                    .push(("required"@, JsonView::Array(
                        Seq::empty()
                        .push(JsonView::String("id"@))
                        .push(JsonView::String("question"@))
                        .push(JsonView::String("type"@)),
                    )))
                    .push(("type"@, JsonView::String("object"@))),
                )))
                .push(("type"@, JsonView::String("array"@))),
            )))
            .push(("required"@, JsonView::Object(
                Seq::empty()
                .push(("default"@, JsonView::Bool(true)))
                .push(("description"@, JsonView::String("Whether the user responses are required"@)))
                .push(("type"@, JsonView::String("boolean"@))),
            )))
            .push(("timeout_secs"@, JsonView::Object(
                Seq::empty()
                .push(("description"@, JsonView::String("Optional timeout in seconds for user response"@)))
                .push(("type"@, JsonView::String("number"@))),
            ))),
        )))
        .push(("required"@, JsonView::Array(
            Seq::empty()
            .push(JsonView::String("prompt"@))
            .push(JsonView::String("questions"@)),
        )))
        .push(("type"@, JsonView::String("object"@))),
    )
}

impl AskUserRequest {
    /// An example JSON schema of the request.
    pub fn example_schema() -> (schema: JsonValue)
        ensures
            json_view(schema) == ask_user_schema(),
    {
        {
            let mut v1 = no_entries();
            push_entry(&mut v1, "properties", {
                let mut v2 = no_entries();
                push_entry(&mut v2, "prompt", {
                    let mut v3 = no_entries();
                    push_entry(&mut v3, "description", json_string("The main prompt or context for the questions"));
                    push_entry(&mut v3, "type", json_string("string"));
                    json_object(v3)
                });
                push_entry(&mut v2, "questions", {
                    let mut v4 = no_entries();
                    push_entry(&mut v4, "description", json_string("List of questions to ask the user"));
                    push_entry(&mut v4, "items", {
                        let mut v5 = no_entries();
                        push_entry(&mut v5, "properties", {
                            let mut v6 = no_entries();
                            push_entry(&mut v6, "default", {
                                let mut v7 = no_entries();
                                push_entry(&mut v7, "description", json_string("Default value if user doesn't provide one"));
                                push_entry(&mut v7, "type", json_string("string"));
                                json_object(v7)
                            });
                            push_entry(&mut v6, "description", {
                                let mut v8 = no_entries();
                                push_entry(&mut v8, "description", json_string("Additional description or help text for the question"));
                                push_entry(&mut v8, "type", json_string("string"));
                                json_object(v8)
                            });
                            push_entry(&mut v6, "id", {
                                let mut v9 = no_entries();
                                push_entry(&mut v9, "description", json_string("Unique identifier for this question"));
                                push_entry(&mut v9, "type", json_string("string"));
                                json_object(v9)
                            });
                            push_entry(&mut v6, "options", {
                                let mut v10 = no_entries();
                                push_entry(&mut v10, "description", json_string("List of possible options for multiple choice questions"));
                                push_entry(&mut v10, "items", {
                                    let mut v11 = no_entries();
                                    push_entry(&mut v11, "type", json_string("string"));
                                    json_object(v11)
                                });
                                push_entry(&mut v10, "type", json_string("array"));
                                json_object(v10)
                            });
                            push_entry(&mut v6, "question", {
                                let mut v12 = no_entries();
                                push_entry(&mut v12, "description", json_string("The question text to display to the user"));
                                push_entry(&mut v12, "type", json_string("string"));
                                json_object(v12)
                            });
                            push_entry(&mut v6, "type", {
                                let mut v13 = no_entries();
                                push_entry(&mut v13, "description", json_string("Type of response expected"));
                                push_entry(&mut v13, "enum", {
                                    let mut v14 = no_items();
                                    push_item(&mut v14, json_string("text"));
                                    push_item(&mut v14, json_string("number"));
                                    push_item(&mut v14, json_string("boolean"));
                                    push_item(&mut v14, json_string("select"));
                                    push_item(&mut v14, json_string("multiselect"));
                                    push_item(&mut v14, json_string("password"));
                                    push_item(&mut v14, json_string("file_path"));
                                    push_item(&mut v14, json_string("email"));
                                    push_item(&mut v14, json_string("url"));
                                    json_array(v14)
                                });
                                push_entry(&mut v13, "type", json_string("string"));
                                json_object(v13)
                            });
                            push_entry(&mut v6, "validation", {
                                let mut v15 = no_entries();
                                push_entry(&mut v15, "description", json_string("Validation rules for the response"));
                                push_entry(&mut v15, "properties", {
                                    let mut v16 = no_entries();
                                    push_entry(&mut v16, "error_message", {
                                        let mut v17 = no_entries();
                                        push_entry(&mut v17, "description", json_string("Custom validation error message"));
                                        push_entry(&mut v17, "type", json_string("string"));
                                        json_object(v17)
                                    });
                                    push_entry(&mut v16, "max_length", {
                                        let mut v18 = no_entries();
                                        push_entry(&mut v18, "description", json_string("Maximum length for text responses"));
                                        push_entry(&mut v18, "type", json_string("number"));
                                        json_object(v18)
                                    });
                                    push_entry(&mut v16, "max_value", {
                                        let mut v19 = no_entries();
                                        push_entry(&mut v19, "description", json_string("Maximum value for numeric responses"));
                                        push_entry(&mut v19, "type", json_string("number"));
                                        json_object(v19)
                                    });
                                    push_entry(&mut v16, "min_length", {
                                        let mut v20 = no_entries();
                                        push_entry(&mut v20, "description", json_string("Minimum length for text responses"));
                                        push_entry(&mut v20, "type", json_string("number"));
                                        json_object(v20)
                                    });
                                    push_entry(&mut v16, "min_value", {
                                        let mut v21 = no_entries();
                                        push_entry(&mut v21, "description", json_string("Minimum value for numeric responses"));
                                        push_entry(&mut v21, "type", json_string("number"));
                                        json_object(v21)
                                    });
                                    push_entry(&mut v16, "pattern", {
                                        let mut v22 = no_entries();
                                        push_entry(&mut v22, "description", json_string("Regular expression pattern for text validation"));
                                        push_entry(&mut v22, "type", json_string("string"));
                                        json_object(v22)
                                    });
                                    json_object(v16)
                                });
                                push_entry(&mut v15, "type", json_string("object"));
                                json_object(v15)
                            });
                            json_object(v6)
                        });
                        push_entry(&mut v5, "required", {
                            let mut v23 = no_items();
                            push_item(&mut v23, json_string("id"));
                            push_item(&mut v23, json_string("question"));
                            push_item(&mut v23, json_string("type"));
                            json_array(v23)
                        });
                        push_entry(&mut v5, "type", json_string("object"));
                        json_object(v5)
                    });
                    push_entry(&mut v4, "type", json_string("array"));
                    json_object(v4)
                });
                push_entry(&mut v2, "required", {
                    let mut v24 = no_entries();
                    push_entry(&mut v24, "default", JsonValue::Bool(true));
                    push_entry(&mut v24, "description", json_string("Whether the user responses are required"));
                    push_entry(&mut v24, "type", json_string("boolean"));
                    json_object(v24)
                });
                push_entry(&mut v2, "timeout_secs", {
                    let mut v25 = no_entries();
                    push_entry(&mut v25, "description", json_string("Optional timeout in seconds for user response"));
                    push_entry(&mut v25, "type", json_string("number"));
                    json_object(v25)
                });
                json_object(v2)
            });
            push_entry(&mut v1, "required", {
                let mut v26 = no_items();
                push_item(&mut v26, json_string("prompt"));
                push_item(&mut v26, json_string("questions"));
                json_array(v26)
            });
            push_entry(&mut v1, "type", json_string("object"));
            json_object(v1)
        }
    }
}

} // verus!
