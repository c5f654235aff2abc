//! The `partiri service` commands.
pub mod create;
pub mod env;
pub mod link;
pub mod pull;
pub mod push;
pub mod run;
pub mod token;
