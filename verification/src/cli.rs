//! The command-line client: its commands, its errors, the project analysis
//! behind `analyze` and `project add`, and the requests sent to the manager.

pub mod error;
pub mod analyze;
pub mod client;
pub mod project;
pub mod session;
pub mod work;
pub mod args;
pub mod report;
