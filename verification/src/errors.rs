//! Error taxonomy of the library-facing and session-facing operations.
//!
//! Per-dictionary fetch failures are not here: they are settled values
//! (`FetchFailure` in the dictionary module) that materialization isolates
//! and skips rather than surfaces.

use vstd::prelude::*;

verus! {

/// Why a library or session operation failed.
#[derive(Debug)]
pub enum CoreError {
    /// The selection references an (origin, name) pair absent from the
    /// requested bucket.
    DictionaryNotFound,
    /// The query's entry set is empty: the engine draws at least one entry
    /// eagerly, so it cannot accept such a query.
    EmptyQuery,
    /// Some entry of the query has an empty reading, so the engine cannot
    /// derive key strokes from it.
    UntypableEntry,
    /// The stroked key is not exactly one character, or not a character
    /// the engine can accept as a key stroke.
    InvalidKeyStroke,
    /// The stroke's elapsed time lies before an already accepted stroke's:
    /// session time is measured from the session's start and cannot run
    /// backwards, and the engine would abort on such a stroke.
    InvalidElapsedTime,
    /// An opaque failure surfaced by the external engine, passed through
    /// unmodified.
    EngineError(typing_engine::TypingEngineError),
    /// A result was requested before any session completed.
    AggregateNotInitialized,
    /// An operation was invoked from the wrong session state.
    SessionStateError,
}

} // verus!
