//! The timezone confirmation dialogue: an explicit two-state machine around
//! a proposed IANA name, with a configurable bound on the number of
//! re-proposals.

use vstd::prelude::*;
use vstd::string::StringExecFns;

use crate::error::JournalError;

verus! {

/// Whether the name stands in the IANA timezone table.
pub uninterp spec fn iana_timezone(name: Seq<char>) -> bool;

/// Relies on `chrono_tz::Tz::from_str`: it succeeds exactly on the names in
/// the crate's prebuilt IANA table.
#[verifier::external_body]
pub fn is_valid_timezone(name: &str) -> (r: bool)
    ensures
        r == iana_timezone(name@),
{
    <chrono_tz::Tz as core::str::FromStr>::from_str(name).is_ok()
}

/// A proposal waiting for the user's yes or no.
pub struct TzDialogue {
    /// The IANA name on the table.
    pub candidate: String,
    /// How many re-proposals are left; `None` leaves the dialogue unbounded,
    /// as the reference behaviour is.
    pub remaining: Option<u32>,
}

/// Where the confirmation dialogue stands.
pub enum TzStep {
    /// The user accepted the shown time: the dialogue ends on this name.
    Confirmed(String),
    /// An invalid name or an exhausted budget ended the dialogue.
    Failed(JournalError),
    /// The dialogue proposes `TzDialogue::candidate` and waits.
    Pending(TzDialogue),
}

/// Opens the dialogue on a candidate name.  A name outside the IANA table
/// fails at once with the timezone parse error, with no prompt.
pub fn begin_timezone_dialogue(candidate: String, max_rounds: Option<u32>) -> (r: TzStep)
    ensures
        !iana_timezone(candidate@) ==> (r matches TzStep::Failed(e) && e is TimezoneParse),
        iana_timezone(candidate@) ==> (r matches TzStep::Pending(d) && d.candidate@ == candidate@
            && d.remaining == max_rounds),
{
    if is_valid_timezone(candidate.as_str()) {
        TzStep::Pending(TzDialogue { candidate, remaining: max_rounds })
    } else {
        TzStep::Failed(JournalError::TimezoneParse)
    }
}

impl TzDialogue {
    /// Takes the user's answer to the shown time.  Acceptance confirms the
    /// candidate; a rejection re-enters the dialogue on the replacement name,
    /// spending one round of the budget where one is set.  An invalid
    /// replacement fails at once rather than re-prompting.
    pub fn answer(self, accepted: bool, replacement: &str) -> (r: TzStep)
        ensures
            accepted ==> (r matches TzStep::Confirmed(tz) && tz@ == self.candidate@),
            !accepted && !iana_timezone(replacement@) ==> (r matches TzStep::Failed(e) && e
                is TimezoneParse),
            !accepted && iana_timezone(replacement@) ==> (match self.remaining {
                Some(k) => if k == 0 {
                    r matches TzStep::Failed(e) && e is ExhaustedAttempts
                } else {
                    r matches TzStep::Pending(d) && d.candidate@ == replacement@ && d.remaining
                        == Some((k - 1) as u32)
                },
                None => r matches TzStep::Pending(d) && d.candidate@ == replacement@
                    && d.remaining is None,
            }),
    {
        if accepted {
            return TzStep::Confirmed(self.candidate);
        }
        if !is_valid_timezone(replacement) {
            return TzStep::Failed(JournalError::TimezoneParse);
        }
        match self.remaining {
            Some(k) => {
                if k == 0 {
                    TzStep::Failed(JournalError::ExhaustedAttempts)
                } else {
                    TzStep::Pending(
                        TzDialogue {
                            candidate: String::from_str(replacement),
                            remaining: Some(k - 1),
                        },
                    )
                }
            },
            None => TzStep::Pending(
                TzDialogue { candidate: String::from_str(replacement), remaining: None },
            ),
        }
    }
}

} // verus!
