//! Errors of the command-line client and the exit code of each.

use vstd::prelude::*;

verus! {

#[verifier::external_type_specification]
#[verifier::external_body]
pub struct ExIoError(std::io::Error);

#[verifier::external_type_specification]
#[verifier::external_body]
pub struct ExAnyhowError(anyhow::Error);

#[verifier::external_type_specification]
#[verifier::external_body]
pub struct ExJsonError(serde_json::Error);

#[verifier::external_type_specification]
#[verifier::external_body]
pub struct ExYamlError(serde_yaml::Error);

/// Main error type of the command-line client.
#[derive(Debug)]
pub enum CliError {
    /// Configuration errors
    Config(String),
    /// File I/O errors
    Io(std::io::Error),
    /// Project analysis errors
    Analysis(String),
    /// Command execution errors
    Command(String),
    /// Errors talking to the manager daemon
    Communication(String),
    /// Other errors
    Other(anyhow::Error),
}

/// The exit code of each kind of error.
pub open spec fn exit_code_of(e: CliError) -> i32 {
    match e {
        CliError::Config(_) => 2,
        CliError::Io(_) => 3,
        CliError::Analysis(_) => 4,
        CliError::Command(_) => 5,
        CliError::Communication(_) => 7,
        CliError::Other(_) => 1,
    }
}

/// Calls `std::io::Error`'s `Display`; nothing is claimed of the text.
#[verifier::external_body]
fn io_error_text(e: &std::io::Error) -> String {
    format!("{}", e)
}

/// Calls `anyhow::Error`'s `Display`; nothing is claimed of the text.
#[verifier::external_body]
fn anyhow_error_text(e: &anyhow::Error) -> String {
    format!("{}", e)
}

/// Calls `anyhow::Error::from` on a `serde_json::Error`; the result is opaque.
#[verifier::external_body]
fn anyhow_from_json(e: serde_json::Error) -> anyhow::Error {
    anyhow::Error::from(e)
}

/// Calls `anyhow::Error::from` on a `serde_yaml::Error`; the result is opaque.
#[verifier::external_body]
fn anyhow_from_yaml(e: serde_yaml::Error) -> anyhow::Error {
    anyhow::Error::from(e)
}

impl CliError {
    /// The exit code for this error: 2 for configuration, 3 for I/O, 4 for
    /// analysis, 5 for command, 7 for communication and 1 for other errors.
    pub fn exit_code(&self) -> (code: i32)
        ensures
            code == exit_code_of(*self),
    {
        match self {
            CliError::Config(_) => 2,
            CliError::Io(_) => 3,
            CliError::Analysis(_) => 4,
            CliError::Command(_) => 5,
            CliError::Communication(_) => 7,
            CliError::Other(_) => 1,
        }
    }

    /// The message shown for this error: a prefix naming its kind, then its text.
    pub fn message(&self) -> (m: String)
        ensures
            self matches CliError::Config(s) ==> m@ == "Configuration error: "@ + s@,
            self matches CliError::Analysis(s) ==> m@ == "Analysis error: "@ + s@,
            self matches CliError::Command(s) ==> m@ == "Command error: "@ + s@,
            self matches CliError::Communication(s) ==> m@ == "Communication error: "@ + s@,
            self is Io ==> has_prefix_io(m@),
            self is Other ==> has_prefix_other(m@),
    {
        match self {
            CliError::Config(s) => {
                let mut m = String::from_str("Configuration error: ");
                m.append(s.as_str());
                m
            },
            CliError::Io(e) => {
                let mut m = String::from_str("I/O error: ");
                let t = io_error_text(e);
                m.append(t.as_str());
                assert(m@.subrange(0, "I/O error: "@.len() as int) =~= "I/O error: "@);
                m
            },
            CliError::Analysis(s) => {
                let mut m = String::from_str("Analysis error: ");
                m.append(s.as_str());
                m
            },
            CliError::Command(s) => {
                let mut m = String::from_str("Command error: ");
                m.append(s.as_str());
                m
            },
            CliError::Communication(s) => {
                let mut m = String::from_str("Communication error: ");
                m.append(s.as_str());
                m
            },
            CliError::Other(e) => {
                let mut m = String::from_str("Error: ");
                let t = anyhow_error_text(e);
                m.append(t.as_str());
                assert(m@.subrange(0, "Error: "@.len() as int) =~= "Error: "@);
                m
            },
        }
    }
}

/// The message starts with the I/O prefix.
pub open spec fn has_prefix_io(m: Seq<char>) -> bool {
    crate::text::has_prefix(m, "I/O error: "@)
}

/// The message starts with the generic prefix.
pub open spec fn has_prefix_other(m: Seq<char>) -> bool {
    crate::text::has_prefix(m, "Error: "@)
}

impl vstd::std_specs::convert::FromSpecImpl<std::io::Error> for CliError {
    open spec fn obeys_from_spec() -> bool {
        true
    }

    open spec fn from_spec(v: std::io::Error) -> Self {
        CliError::Io(v)
    }
}

impl vstd::std_specs::convert::FromSpecImpl<anyhow::Error> for CliError {
    open spec fn obeys_from_spec() -> bool {
        true
    }

    open spec fn from_spec(v: anyhow::Error) -> Self {
        CliError::Other(v)
    }
}

impl vstd::std_specs::convert::FromSpecImpl<serde_json::Error> for CliError {
    open spec fn obeys_from_spec() -> bool {
        false
    }

    open spec fn from_spec(v: serde_json::Error) -> Self {
        arbitrary()
    }
}

impl vstd::std_specs::convert::FromSpecImpl<serde_yaml::Error> for CliError {
    open spec fn obeys_from_spec() -> bool {
        false
    }

    open spec fn from_spec(v: serde_yaml::Error) -> Self {
        arbitrary()
    }
}

impl From<std::io::Error> for CliError {
    fn from(err: std::io::Error) -> (e: Self)
        ensures
            e == CliError::Io(err),
    {
        CliError::Io(err)
    }
}

impl From<anyhow::Error> for CliError {
    fn from(err: anyhow::Error) -> (e: Self)
        ensures
            e == CliError::Other(err),
    {
        CliError::Other(err)
    }
}

impl From<serde_json::Error> for CliError {
    fn from(err: serde_json::Error) -> (e: Self)
        ensures
            e is Other,
    {
        CliError::Other(anyhow_from_json(err))
    }
}

impl From<serde_yaml::Error> for CliError {
    fn from(err: serde_yaml::Error) -> (e: Self)
        ensures
            e is Other,
    {
        CliError::Other(anyhow_from_yaml(err))
    }
}

} // verus!
