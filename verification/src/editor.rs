//! The editor round-trip decision: once the editor subprocess has exited and
//! the draft has been read back, what happens to the entry.

use vstd::prelude::*;
use vstd::string::StringExecFns;

verus! {

/// How an editing session ends.
pub enum EditorOutcome {
    /// The editor exited with a non-success status: nothing is persisted and
    /// the draft is left in place for inspection.
    Failure,
    /// The draft came back byte-identical to the preamble: a no-op, and no
    /// dated entry is created.
    Unchanged,
    /// The draft changed: the carried content is written to the dated entry
    /// path, and the draft is deleted.
    Committed(String),
}

/// Decides the round-trip's outcome from the preamble that was written, the
/// draft that was read back, and the editor's exit status.  The content is
/// committed exactly when the editor succeeded and the draft differs from the
/// preamble.
pub fn conclude_editing(preamble: &str, edited: String, editor_succeeded: bool) -> (r:
    EditorOutcome)
    ensures
        !editor_succeeded ==> r is Failure,
        editor_succeeded && edited@ == preamble@ ==> r is Unchanged,
        editor_succeeded && edited@ != preamble@ ==> (r matches EditorOutcome::Committed(c) && c@
            == edited@),
{
    if !editor_succeeded {
        return EditorOutcome::Failure;
    }
    let original = String::from_str(preamble);
    if edited == original {
        EditorOutcome::Unchanged
    } else {
        EditorOutcome::Committed(edited)
    }
}

} // verus!
