//! The command-line surface as plain data: the binary's argument parser
//! builds these values and hands them in.

use vstd::prelude::*;

verus! {

/// The parsed invocation: at most one subcommand.
#[derive(Debug)]
pub struct JournalArgs {
    pub journal_command: Option<JournalCommand>,
}

/// The three subcommands of the journal.
#[derive(Debug)]
pub enum JournalCommand {
    /// Bootstrap or overwrite the config.
    Init,
    /// Create today's entry.
    New,
    /// Locate and show a past entry.
    Open(OpenArgs),
}

/// The `open` subcommand's arguments.
#[derive(Debug)]
pub struct OpenArgs {
    /// The entry date, `YYYY-MM-DD`; today when absent.
    pub date: Option<String>,
}

} // verus!
