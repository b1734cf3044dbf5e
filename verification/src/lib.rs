//! Tracking of a user's GitHub pull requests and their CI status.
pub mod cli;
pub mod config;
pub mod github;
pub mod local;
pub mod mcp_client;
pub mod output;
pub mod status;
pub mod text;
