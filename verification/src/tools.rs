//! Requests and responses of the agent's tools.

pub mod filesystem;
pub mod user_interaction;
