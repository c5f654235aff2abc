//! What the operations promise, each stated of their results.
pub mod bodies;
pub mod validation;
pub mod editor;
pub mod definition;
pub mod resources;
pub mod rules;
pub mod agents;
pub mod requests;
pub mod assistance;
pub mod file;
pub mod sessions;
pub mod commands;
pub mod details;
pub mod contracts;
pub mod outcomes;
pub mod replies;
pub mod texts;
pub mod offers;
