//! Disambiguation of a candidate list: no candidate fails, one candidate
//! resolves silently, several take a prompted 1-based index with a bounded
//! retry budget.

use vstd::prelude::*;

use crate::error::JournalError;
use crate::strutil::trim_str;
use crate::strutil::trimmed;
use crate::strutil::parse_usize;
use crate::strutil::usize_accepts;
use crate::strutil::usize_read;

verus! {

/// How many invalid answers a prompt forgives before giving up.
pub const CHOICE_RETRY_BUDGET: u32 = 5;

/// An open prompt over a candidate list of two or more.
pub struct ChoicePrompt {
    pub n_choices: usize,
    pub chances: u32,
}

impl ChoicePrompt {
    /// An open prompt always has something to choose and a chance left.
    pub open spec fn wf(self) -> bool {
        self.n_choices >= 2 && self.chances >= 1
    }
}

/// Where a disambiguation stands: settled on a 0-based index, failed, or
/// waiting for an answer.
pub enum ChoiceStep {
    Resolved(usize),
    Failed(JournalError),
    Pending(ChoicePrompt),
}

/// Whether `input`, trimmed and read as a number, picks a candidate out of
/// `n`: the choice must lie in `[1, n]`.
pub open spec fn picks_candidate(input: Seq<char>, n: usize) -> bool {
    usize_accepts(trimmed(input)) && 1 <= usize_read(trimmed(input)) <= n
}

/// The 0-based index a valid answer picks.
pub open spec fn picked_index(input: Seq<char>) -> int {
    usize_read(trimmed(input)) - 1
}

/// Opens the disambiguation of `n` candidates.  No candidate fails with the
/// not-found error; exactly one resolves to it at once, with no prompt; more
/// leave a prompt with the full retry budget.
pub fn begin_choice(n: usize) -> (r: ChoiceStep)
    ensures
        n == 0 ==> (r matches ChoiceStep::Failed(e) && e is NotFound),
        n == 1 ==> r matches ChoiceStep::Resolved(0usize),
        n >= 2 ==> (r matches ChoiceStep::Pending(p) && p.n_choices == n && p.chances
            == CHOICE_RETRY_BUDGET && p.wf()),
{
    if n == 0 {
        ChoiceStep::Failed(JournalError::NotFound)
    } else if n == 1 {
        ChoiceStep::Resolved(0)
    } else {
        ChoiceStep::Pending(ChoicePrompt { n_choices: n, chances: CHOICE_RETRY_BUDGET })
    }
}

impl ChoicePrompt {
    /// Takes one answer.  An index in `[1, n]` resolves to the candidate it
    /// names; anything else is rejected, burning one chance, and the last
    /// burnt chance fails with the exhausted-attempts error.
    pub fn answer(self, input: &str) -> (r: ChoiceStep)
        requires
            self.wf(),
        ensures
            picks_candidate(input@, self.n_choices) ==> (r matches ChoiceStep::Resolved(i) && i
                == picked_index(input@)),
            !picks_candidate(input@, self.n_choices) && self.chances == 1 ==> (r
                matches ChoiceStep::Failed(e) && e is ExhaustedAttempts),
            !picks_candidate(input@, self.n_choices) && self.chances > 1 ==> (r
                matches ChoiceStep::Pending(p) && p.n_choices == self.n_choices && p.chances
                == self.chances - 1 && p.wf()),
    {
        let t = trim_str(input);
        match parse_usize(t) {
            Some(v) => {
                if 1 <= v && v <= self.n_choices {
                    return ChoiceStep::Resolved(v - 1);
                }
                self.reject()
            },
            None => self.reject(),
        }
    }

    /// Burns one chance after an invalid answer.
    fn reject(self) -> (r: ChoiceStep)
        requires
            self.wf(),
        ensures
            self.chances == 1 ==> (r matches ChoiceStep::Failed(e) && e is ExhaustedAttempts),
            self.chances > 1 ==> (r matches ChoiceStep::Pending(p) && p.n_choices
                == self.n_choices && p.chances == self.chances - 1 && p.wf()),
    {
        if self.chances == 1 {
            ChoiceStep::Failed(JournalError::ExhaustedAttempts)
        } else {
            ChoiceStep::Pending(
                ChoicePrompt { n_choices: self.n_choices, chances: self.chances - 1 },
            )
        }
    }
}

} // verus!
