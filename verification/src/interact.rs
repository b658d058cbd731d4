//! Interpretation of free-form prompt answers: yes/no answers and the editor
//! menu.

use vstd::prelude::*;
use vstd::string::StrSliceExecFns;
use vstd::string::StringExecFns;

use crate::strutil::push_char;
use crate::strutil::trim_str;
use crate::strutil::trimmed;

verus! {

/// An upper-case ASCII letter folded to lower case; anything else unchanged.
pub open spec fn ascii_lower(c: char) -> char {
    if 'A' <= c && c <= 'Z' {
        ((c as u8) + 32) as char
    } else {
        c
    }
}

pub open spec fn lowered(s: Seq<char>) -> Seq<char> {
    s.map_values(|c: char| ascii_lower(c))
}

/// Whether an answer, trimmed and folded to lower case, affirms the question.
pub open spec fn is_affirmative_answer(s: Seq<char>) -> bool {
    lowered(trimmed(s)) == "yes"@ || lowered(trimmed(s)) == "y"@ || lowered(trimmed(s)) == "yeah"@
}

fn char_ascii_lower(c: char) -> (r: char)
    ensures
        r == ascii_lower(c),
{
    if 'A' <= c && c <= 'Z' {
        ((c as u8) + 32) as char
    } else {
        c
    }
}

/// Reads a yes/no answer: `yes`, `y` and `yeah` affirm, in any letter case
/// and with surrounding white space; everything else declines.
pub fn is_affirmative(answer: &str) -> (r: bool)
    ensures
        r == is_affirmative_answer(answer@),
{
    let t = trim_str(answer);
    let n: usize = t.unicode_len();
    let mut low = String::new();
    let mut i: usize = 0;
    while i < n
        invariant
            0 <= i <= n,
            n == t@.len(),
            low@ == lowered(t@.subrange(0, i as int)),
        decreases n - i,
    {
        push_char(&mut low, char_ascii_lower(t.get_char(i)));
        proof {
            assert(lowered(t@.subrange(0, i + 1int)) =~= lowered(t@.subrange(0, i as int))
                + seq![ascii_lower(t@[i as int])]);
        }
        i = i + 1;
    }
    proof {
        assert(t@.subrange(0, n as int) =~= t@);
    }
    let yes = String::from_str("yes");
    let y = String::from_str("y");
    let yeah = String::from_str("yeah");
    low == yes || low == y || low == yeah
}

/// What the editor menu choice asks for next.
pub enum EditorSelection {
    /// A known editor's command.
    Chosen(String),
    /// The last menu slot: the user supplies a custom command.
    NeedsCustom,
    /// A number outside the menu.
    Invalid,
}

/// Maps the editor menu's 1-based choice to its command: the four named
/// editors, then the custom slot; anything else is invalid.
pub fn editor_command_for_choice(choice: usize) -> (r: EditorSelection)
    ensures
        choice == 1 ==> (r matches EditorSelection::Chosen(c) && c@ == "vim"@),
        choice == 2 ==> (r matches EditorSelection::Chosen(c) && c@ == "emacs"@),
        choice == 3 ==> (r matches EditorSelection::Chosen(c) && c@ == "nano"@),
        choice == 4 ==> (r matches EditorSelection::Chosen(c) && c@ == "pico"@),
        choice == 5 ==> r is NeedsCustom,
        choice == 0 || choice > 5 ==> r is Invalid,
{
    match choice {
        1 => EditorSelection::Chosen(String::from_str("vim")),
        2 => EditorSelection::Chosen(String::from_str("emacs")),
        3 => EditorSelection::Chosen(String::from_str("nano")),
        4 => EditorSelection::Chosen(String::from_str("pico")),
        5 => EditorSelection::NeedsCustom,
        _ => EditorSelection::Invalid,
    }
}

} // verus!
