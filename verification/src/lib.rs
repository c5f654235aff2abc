//! Verified core of the `partiri` command-line tool.
pub mod auth;
pub mod cli;
pub mod client;
pub mod common;
pub mod config;
pub mod databases;
pub mod error;
pub mod json;
pub mod jsonc;
pub mod init;
pub mod jobs;
pub mod laws;
pub mod listings;
pub mod llm;
pub mod lsp;
pub mod mcp;
pub mod output;
pub mod projects;
pub mod random;
pub mod schema;
pub mod secret;
pub mod seqs;
pub mod service;
pub mod storage;
pub mod text;
pub mod validate;
