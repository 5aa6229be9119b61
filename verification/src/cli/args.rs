//! The command line of the client, as plain values.

use vstd::prelude::*;

verus! {

/// The parsed command line.
#[derive(Debug)]
pub struct Cli {
    /// Enable verbose logging
    pub verbose: bool,
    /// Configuration file path
    pub config: Option<String>,
    /// Project path to work with
    pub project_path: Option<String>,
    /// Subcommands
    pub command: Option<Commands>,
}

/// The subcommands.
#[derive(Debug)]
pub enum Commands {
    /// Analyze project structure and provide recommendations
    Analyze { path: Option<String>, format: Option<OutputFormat> },
    /// Generate context-aware prompt for AI tools
    Prompt { intent: String, template: Option<String> },
    /// Validate code against project guardrails
    Validate { file: String, language: Option<String> },
    /// Initialize new project with nocodo support
    Init { template: Option<String>, path: String },
    /// Project structure operations
    Structure { action: StructureCommands },
    /// Configuration management
    Config { action: ConfigCommands },
    /// Execute AI coding session with enhanced context
    Session { tool: String, prompt: String },
    /// Show version information
    Version,
}

/// Project structure operations.
#[derive(Debug)]
pub enum StructureCommands {
    /// Display project tree
    Tree { depth: Option<usize> },
    /// List project files
    List { pattern: Option<String> },
}

/// Configuration management operations.
#[derive(Debug)]
pub enum ConfigCommands {
    /// Show current configuration
    Show,
    /// Set configuration value
    SetValue { key: String, value: String },
    /// Get configuration value
    Get { key: String },
    /// Initialize default configuration
    Init,
}

/// Output format of `analyze`.
#[derive(Debug, Clone, Copy, PartialEq, Eq, Structural)]
pub enum OutputFormat {
    Json,
    Yaml,
    Text,
}

/// The format `analyze` prints in: the one asked for, else text.
pub fn analysis_format(format: Option<OutputFormat>) -> (f: OutputFormat)
    ensures
        f == match format {
            Some(f) => f,
            None => OutputFormat::Text,
        },
{
    match format {
        Some(f) => f,
        None => OutputFormat::Text,
    }
}

/// The level logging starts at: debug when verbose, else info.
pub fn default_log_level(verbose: bool) -> (level: &'static str)
    ensures
        level@ == if verbose {
            "debug"@
        } else {
            "info"@
        },
{
    if verbose {
        "debug"
    } else {
        "info"
    }
}

} // verus!
