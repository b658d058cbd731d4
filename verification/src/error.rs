//! The library's error taxonomy.  Each component reports through this one
//! tagged union; the binary turns lower-level transport and I/O failures into
//! the matching variant before calling in, and renders `message` on the way
//! out.

use vstd::prelude::*;
use vstd::string::StringExecFns;

verus! {

/// Everything that can go wrong in the journal's core flows.
#[derive(Debug)]
pub enum JournalError {
    /// A filesystem or network transport failure, with its description.
    Io(String),
    /// A malformed date, number or similar input, with its description.
    Parse(String),
    /// The geocoding search returned no results.
    NotFound,
    /// A disambiguation choice outside `[1, N]`.
    ChoiceOutOfRange,
    /// The disambiguation retry budget ran out.
    ExhaustedAttempts,
    /// A command ran before `init` created the config file.
    ConfigMissing,
    /// The config file lacks one of its five fields, or holds a non-string.
    ConfigParse,
    /// The editor subprocess exited with a non-success status.
    EditorExit,
    /// The forecast response did not have the expected shape.
    SnapshotParse,
    /// A string that is not an IANA timezone name.
    TimezoneParse,
}

impl JournalError {
    /// The human-readable message the binary prints for this error.
    pub fn message(&self) -> (r: String)
        ensures
            self matches JournalError::Io(m) ==> r@ == m@,
            self matches JournalError::Parse(m) ==> r@ == m@,
            self is NotFound ==> r@ == "There are no locations in the database with that name."@,
            self is ChoiceOutOfRange ==> r@ == "That doesn't seem to be one of the choices."@,
            self is ExhaustedAttempts ==> r@ == "Too many failed attempts."@,
            self is ConfigMissing ==> r@
                == "Oops!  Looks like you haven't initialised your journal yet.  Try running `journal init` first."@,
            self is ConfigParse ==> r@ == "The config file could not be read."@,
            self is EditorExit ==> r@ == "The editor did not exit successfully."@,
            self is SnapshotParse ==> r@ == "The weather response did not have the expected shape."@,
            self is TimezoneParse ==> r@ == "That is not a valid IANA timezone name."@,
    {
        match self {
            JournalError::Io(m) => m.clone(),
            JournalError::Parse(m) => m.clone(),
            JournalError::NotFound => String::from_str(
                "There are no locations in the database with that name.",
            ),
            JournalError::ChoiceOutOfRange => String::from_str(
                "That doesn't seem to be one of the choices.",
            ),
            JournalError::ExhaustedAttempts => String::from_str("Too many failed attempts."),
            JournalError::ConfigMissing => String::from_str(
                "Oops!  Looks like you haven't initialised your journal yet.  Try running `journal init` first.",
            ),
            JournalError::ConfigParse => String::from_str("The config file could not be read."),
            JournalError::EditorExit => String::from_str("The editor did not exit successfully."),
            JournalError::SnapshotParse => String::from_str(
                "The weather response did not have the expected shape.",
            ),
            JournalError::TimezoneParse => String::from_str(
                "That is not a valid IANA timezone name.",
            ),
        }
    }
}

} // verus!
