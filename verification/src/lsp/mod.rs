//! The language server for `.partiri.jsonc`.
pub mod actions;
pub mod completion;
pub mod context_cache;
pub mod diagnostics;
pub mod documents;
pub mod hover;
pub mod locate;
pub mod server;
