//! Error taxonomy of the deck builder.
//!
//! Per-word and per-card failures are recoverable and are aggregated into
//! counters by the pipeline; only connectivity failures toward the card sink
//! halt a run. Cache trouble is always recoverable: the caches are an
//! optimization, never a correctness requirement.

use vstd::prelude::*;

verus! {

/// Everything that can go wrong while building a deck. Failures that start
/// outside the library (HTTP, disk, JSON) arrive here as plain text.
#[derive(Debug, Clone)]
pub enum AnkiDeckBuilderError {
    /// The card sink cannot be reached at all: fatal for the whole run.
    AnkiConnectNotRunning { url: String },
    /// The card sink answered but rejected the request: counted, not fatal.
    AnkiConnectError(String),
    /// A single word could not be translated: skipped, the run continues.
    TranslationError(String),
    /// Neither a fresh cache snapshot nor a fetch produced frequency data.
    FrequencyDataNotFound(String),
    /// The requested language is not in the registry.
    UnsupportedLanguage(String),
    /// Deck creation reported a name that is already taken.
    DeckAlreadyExists(String),
    /// The configuration handed to the library is unusable.
    ConfigurationError(String),
    /// An HTTP transport failure, reported by the caller.
    HttpError(String),
    /// A cache file could not be read or written, reported by the caller.
    IoError(String),
    /// A cache snapshot could not be decoded, reported by the caller.
    JsonError(String),
}

pub type Result<T> = core::result::Result<T, AnkiDeckBuilderError>;

impl AnkiDeckBuilderError {
    /// Only a sink connectivity failure aborts a pipeline run; every other
    /// failure is isolated to the word or card it concerns.
    pub fn is_fatal_for_run(&self) -> (r: bool)
        ensures
            r == (self is AnkiConnectNotRunning),
    {
        match self {
            AnkiDeckBuilderError::AnkiConnectNotRunning { .. } => true,
            _ => false,
        }
    }
}

} // verus!
