//! Polls a remote configuration source for changes and, only on change, runs
//! an ordered list of user-declared hooks against the new payload.
//!
//! The crate is organised around three verified cores:
//! - a configuration factory that parses a declarative document into exactly
//!   one provider and an ordered list of hooks,
//! - the provider contract for idempotent change detection against a durable
//!   cached snapshot,
//! - the hook pipeline with its strict in-order, abort-on-first-failure
//!   execution semantics.

pub mod config;
pub mod document;
pub mod errors;
pub mod hooks;
pub mod pipeline;
pub mod providers;
pub mod store;
pub mod text;
