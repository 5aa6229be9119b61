//! The desktop client: its state, settings, pages and the text processing
//! behind its views.

pub mod markdown;
pub mod state;
pub mod config;
pub mod pages;
pub mod components;
pub mod api_client;
pub mod services;
pub mod ssh;
pub mod board;
pub mod session;
pub mod connection;
pub mod renderers;
