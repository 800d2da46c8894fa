//! Vocabulary library and session orchestration for a typing-practice game.
//!
//! The crate loads vocabulary dictionaries from raw text bodies, tracks
//! malformed lines, builds typing queries from a user's dictionary selection,
//! and drives a typing session's lifecycle while aggregating results across
//! completed sessions. The character-matching engine itself is an external
//! collaborator: this crate only sequences calls to it.

pub mod dictionary;
pub mod engine;
pub mod errors;
pub mod library;
pub mod parser;
pub mod query;
pub mod results;
pub mod session;
