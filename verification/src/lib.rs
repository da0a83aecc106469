//! Core of a flashcard deck builder for language learners: picks the most
//! frequent words of a target language, classifies them by part of speech,
//! translates them into a base language, and turns the results into ordered
//! bidirectional card pairs.
//!
//! Everything here is pure logic with verified contracts. Network access,
//! the file system and the interactive prompts live outside the library and
//! hand plain values in and out.

pub mod ankiweb;
pub mod classifier;
pub mod cli;
pub mod config;
pub mod error;
pub mod frequency;
pub mod frequency_loader;
pub mod frequency_source;
pub mod languages;
pub mod pipeline;
pub mod strutil;
pub mod translation_cache;
pub mod translator;

pub use ankiweb::{Note, NoteField};
pub use config::Config;
pub use error::{AnkiDeckBuilderError, Result};
pub use frequency::{FrequencyData, PartOfSpeech, Word};
pub use frequency_loader::load_frequency_data;
pub use languages::{get_language, get_prioritized_languages, is_supported, Language};
pub use translator::Translator;
