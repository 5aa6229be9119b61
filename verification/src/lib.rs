//! Verified core of the nocodo tools: shared data models, project analysis,
//! request validation, and the text processing used by the CLI and desktop client.

pub mod text;
pub mod tools;
pub mod models;
pub mod clock;
pub mod desktop;
pub mod cli;
pub mod documents;
pub mod order;
