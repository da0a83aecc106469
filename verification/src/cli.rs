//! The command surface, as plain data. Argument parsing and the interactive
//! prompts live outside the library and hand over one of these commands.

use vstd::prelude::*;

verus! {

/// A parsed invocation.
#[derive(Debug)]
pub struct Cli {
    pub command: Commands,
}

/// The commands the tool knows.
#[derive(Debug)]
pub enum Commands {
    /// Probe the card sink connection.
    Test,
    /// Build a language learning deck.
    Create {
        target_language: Option<String>,
        base_language: Option<String>,
        words_per_pos: usize,
        deck_name: Option<String>,
        dry_run: bool,
        bidirectional: bool,
    },
    /// Show or point at the card sink configuration.
    Config { ankiconnect_url: Option<String>, show: bool },
}

} // verus!
