//! `session`: which AI tool to run, with which arguments, the prompt it is
//! given and how its exit is reported.

use crate::cli::error::CliError;
use crate::text::{decimal_int, decimal_nat, i64_to_decimal, lowercase, owned, str_eq, strs, to_lowercase, u64_to_decimal};
use vstd::prelude::*;

verus! {

/// The known tool families, by the tool name given in lower case.
pub enum ToolFamily {
    Gemini,
    OpenAi,
    Other,
}

/// The family of a lower-cased tool name.
pub open spec fn family_of(lower: Seq<char>) -> ToolFamily {
    if lower == "gemini"@ || lower == "gemini-cli"@ {
        ToolFamily::Gemini
    } else if lower == "openai"@ || lower == "openai-cli"@ {
        ToolFamily::OpenAi
    } else {
        ToolFamily::Other
    }
}

/// The family of a tool, by its name in lower case.
pub fn tool_family(tool: &str) -> (f: ToolFamily)
    ensures
        f == family_of(lowercase(tool@)),
{
    let lower = to_lowercase(tool);
    let l = lower.as_str();
    if str_eq(l, "gemini") || str_eq(l, "gemini-cli") {
        ToolFamily::Gemini
    } else if str_eq(l, "openai") || str_eq(l, "openai-cli") {
        ToolFamily::OpenAi
    } else {
        ToolFamily::Other
    }
}

/// The command that runs a tool: the family's command, else the tool name
/// as given.
pub open spec fn command_of(tool: Seq<char>) -> Seq<char> {
    match family_of(lowercase(tool)) {
        ToolFamily::Gemini => "gemini"@,
        ToolFamily::OpenAi => "openai"@,
        ToolFamily::Other => tool,
    }
}

/// The command that runs the AI tool named `tool`.
pub fn ai_tool_command(tool: &str) -> (cmd: String)
    ensures
        cmd@ == command_of(tool@),
{
    match tool_family(tool) {
        ToolFamily::Gemini => owned("gemini"),
        ToolFamily::OpenAi => owned("openai"),
        ToolFamily::Other => owned(tool),
    }
}

/// `lower` is one of the names, in lower case, that `alias` and `alias-cli`
/// give.
pub open spec fn names_tool(lower: Seq<char>, alias: Seq<char>) -> bool {
    lower == alias || lower == alias + "-cli"@
}

/// Each of the two tools runs under both of its names, written in any case:
/// "openai" and "openai-cli" run the command "openai", "gemini" and
/// "gemini-cli" run "gemini"; any other tool runs under its own name. Only
/// Gemini reads the prompt from the file after `--input`; every other tool
/// is given the prompt itself.
pub proof fn lemma_tool_aliases(tool: Seq<char>, prompt_file: Seq<char>, prompt: Seq<char>)
    ensures
        names_tool(lowercase(tool), "gemini"@) ==> arguments_of(tool, prompt_file, prompt) == seq![
            "--input"@,
            prompt_file,
        ],
        !names_tool(lowercase(tool), "gemini"@) ==> arguments_of(tool, prompt_file, prompt) == seq![prompt],
        names_tool(lowercase(tool), "openai"@) ==> command_of(tool) == "openai"@,
        names_tool(lowercase(tool), "gemini"@) ==> command_of(tool) == "gemini"@,
        !names_tool(lowercase(tool), "openai"@) && !names_tool(lowercase(tool), "gemini"@) ==> command_of(tool)
            == tool,
{
    reveal_strlit("openai");
    reveal_strlit("openai-cli");
    reveal_strlit("gemini");
    reveal_strlit("gemini-cli");
    reveal_strlit("-cli");
    assert("openai"@ + "-cli"@ =~= "openai-cli"@);
    assert("gemini"@ + "-cli"@ =~= "gemini-cli"@);
    assert("openai"@ != "gemini"@ && "openai"@ != "gemini-cli"@) by {
        assert("openai"@[0] != "gemini"@[0]);
        assert("openai"@[0] != "gemini-cli"@[0]);
    }
    assert("openai-cli"@ != "gemini"@ && "openai-cli"@ != "gemini-cli"@) by {
        assert("openai-cli"@[0] != "gemini"@[0]);
        assert("openai-cli"@[0] != "gemini-cli"@[0]);
    }
}

/// Two names of the same tool, whatever their case, run the same command.
pub proof fn lemma_alias_names_agree(a: Seq<char>, b: Seq<char>, alias: Seq<char>)
    requires
        alias == "openai"@ || alias == "gemini"@,
        names_tool(lowercase(a), alias),
        names_tool(lowercase(b), alias),
    ensures
        command_of(a) == command_of(b),
        command_of(a) == alias,
{
    lemma_tool_aliases(a, seq![], seq![]);
    lemma_tool_aliases(b, seq![], seq![]);
}

/// The arguments a tool is run with: Gemini reads the prompt file after
/// `--input`, any other tool gets the prompt itself.
pub open spec fn arguments_of(tool: Seq<char>, prompt_file: Seq<char>, prompt: Seq<char>) -> Seq<Seq<char>> {
    match family_of(lowercase(tool)) {
        ToolFamily::Gemini => seq!["--input"@, prompt_file],
        _ => seq![prompt],
    }
}

/// The arguments the AI tool named `tool` is run with.
pub fn ai_tool_arguments(tool: &str, prompt_file: &str, prompt: &str) -> (args: Vec<String>)
    ensures
        strs(args@) == arguments_of(tool@, prompt_file@, prompt@),
{
    let mut args: Vec<String> = Vec::new();
    match tool_family(tool) {
        ToolFamily::Gemini => {
            args.push(owned("--input"));
            args.push(owned(prompt_file));
        },
        _ => {
            args.push(owned(prompt));
        },
    }
    assert(strs(args@) =~= arguments_of(tool@, prompt_file@, prompt@));
    args
}

/// The prompt handed to the tool: the project context, the request, and
/// the instruction to use `nocodo`.
pub open spec fn enhanced_prompt_of(context: Seq<char>, prompt: Seq<char>) -> Seq<char> {
    "Project Context:\n"@ + context + "\n\nUser Request:\n"@ + prompt
        + "\n\nInstructions: Use the `nocodo` command to get additional context about the project structure and to validate your changes."@
}

/// The prompt handed to the tool for a request made in a given context.
pub fn enhanced_prompt(context: &str, prompt: &str) -> (p: String)
    ensures
        p@ == enhanced_prompt_of(context@, prompt@),
{
    let mut p = owned("Project Context:\n");
    p.append(context);
    p.append("\n\nUser Request:\n");
    p.append(prompt);
    p.append(
        "\n\nInstructions: Use the `nocodo` command to get additional context about the project structure and to validate your changes.",
    );
    p
}

/// The context used when the manager gives none: the working directory.
pub fn fallback_context(project_path: &str) -> (c: String)
    ensures
        c@ == "Working directory: "@ + project_path@,
{
    let mut c = owned("Working directory: ");
    c.append(project_path);
    c
}

/// The name of the temporary prompt file of the process `pid`.
pub fn prompt_file_name(pid: u32) -> (name: String)
    ensures
        name@ == "nocodo_prompt_"@ + decimal_nat(pid as nat) + ".txt"@,
{
    let mut name = owned("nocodo_prompt_");
    let digits = u64_to_decimal(pid as u64);
    name.append(digits.as_str());
    name.append(".txt");
    name
}

/// The error when the tool's command cannot be found.
pub fn tool_not_found(command: &str) -> (e: CliError)
    ensures
        e matches CliError::Command(m) && m@ == "AI tool '"@ + command@
            + "' not found. Please ensure it's installed and in your PATH."@,
{
    let mut m = owned("AI tool '");
    m.append(command);
    m.append("' not found. Please ensure it's installed and in your PATH.");
    CliError::Command(m)
}

/// What a finished run of the tool gives: success, or a command error
/// with its exit code (-1 when it was ended by a signal).
pub fn tool_outcome(command: &str, success: bool, exit_code: Option<i32>) -> (r: Result<(), CliError>)
    ensures
        success ==> r is Ok,
        !success ==> (r matches Err(CliError::Command(m)) && m@ == "AI tool '"@ + command@
            + "' failed with exit code: "@ + decimal_int(
            match exit_code {
                Some(c) => c as int,
                None => -1,
            },
        )),
{
    if success {
        Ok(())
    } else {
        let code: i32 = match exit_code {
            Some(c) => c,
            None => -1,
        };
        let mut m = owned("AI tool '");
        m.append(command);
        m.append("' failed with exit code: ");
        let digits = i64_to_decimal(code as i64);
        m.append(digits.as_str());
        Err(CliError::Command(m))
    }
}

} // verus!
