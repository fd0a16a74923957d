//! Validation of one line of console input as a guess.
//!
//! The console runner reads whole lines; a line offers a guess when,
//! after the trailing line break is removed, it is exactly one ASCII
//! letter. Unlike the engine's own validation this reports an
//! over-long line before an empty one, and hands back the offending
//! character of an invalid one, so the prompt can explain itself.

use vstd::prelude::*;
use vstd::string::StrSliceExecFns;

use crate::game::words::is_line_break;
use crate::{is_ascii_letter, is_ascii_letter_char};

verus! {

/// Why a line of console input does not amount to a guess.
#[derive(Clone, Copy, Debug, PartialEq, Eq, Structural)]
pub enum GuessError {
    Unknown,
    Empty,
    TooLong,
    Invalid(char),
}

/// Declares std's `std::io::Error` so a failed read can be handed in
/// and folded into [`GuessError::Unknown`]; none of its methods are
/// relied on.
#[verifier::external_type_specification]
#[verifier::external_body]
pub struct ExIoError(std::io::Error);

impl GuessError {
    /// Every I/O failure while reading a guess is the same unknown
    /// error; nothing of its cause is kept.
    pub fn from_error(_error: std::io::Error) -> (r: GuessError)
        ensures
            r == GuessError::Unknown,
    {
        GuessError::Unknown
    }
}

/// The line with its trailing line breaks removed.
pub open spec fn trim_line_breaks(s: Seq<char>) -> Seq<char>
    decreases s.len(),
{
    if s.len() > 0 && is_line_break(s.last()) {
        trim_line_breaks(s.drop_last())
    } else {
        s
    }
}

/// What a line of input offers as a guess, checks in order: more than
/// one character is too long, none is empty, one character that is no
/// ASCII letter is invalid, and an ASCII letter is the guess, as typed.
pub open spec fn guess_of_line(line: Seq<char>) -> Result<char, GuessError> {
    let t = trim_line_breaks(line);
    if t.len() > 1 {
        Err(GuessError::TooLong)
    } else if t.len() == 0 {
        Err(GuessError::Empty)
    } else if !is_ascii_letter(t[0]) {
        Err(GuessError::Invalid(t[0]))
    } else {
        Ok(t[0])
    }
}

/// Removing the longest line-break suffix is what [`trim_line_breaks`]
/// does.
proof fn lemma_trim_line_breaks_take(s: Seq<char>, e: int)
    requires
        0 <= e <= s.len(),
        forall|j: int| e <= j < s.len() ==> is_line_break(#[trigger] s[j]),
        e > 0 ==> !is_line_break(s[e - 1]),
    ensures
        trim_line_breaks(s) == s.take(e),
    decreases s.len() - e,
{
    if e == s.len() {
        assert(s.take(e) =~= s);
    } else {
        assert(is_line_break(s.last()));
        lemma_trim_line_breaks_take(s.drop_last(), e);
        assert(s.drop_last() =~= s.take(s.len() - 1));
        assert(s.take(s.len() - 1).take(e) =~= s.take(e));
    }
}

/// Executable check for a line break, matching [`is_line_break`].
fn is_line_break_char(c: char) -> (r: bool)
    ensures
        r == is_line_break(c),
{
    c == '\r' || c == '\n'
}

/// Reads one line of input as a guess, as [`guess_of_line`] says.
pub fn ask_for_guess(line: &str) -> (r: Result<char, GuessError>)
    ensures
        r == guess_of_line(line@),
{
    let n = line.unicode_len();
    let mut end = n;
    while end > 0 && is_line_break_char(line.get_char(end - 1))
        invariant
            end <= n,
            n == line@.len(),
            forall|j: int| end <= j < n ==> is_line_break(#[trigger] line@[j]),
        decreases end,
    {
        end = end - 1;
    }
    proof {
        lemma_trim_line_breaks_take(line@, end as int);
    }
    if end > 1 {
        return Err(GuessError::TooLong);
    }
    if end == 0 {
        return Err(GuessError::Empty);
    }
    let character = line.get_char(0);
    proof {
        assert(trim_line_breaks(line@)[0] == line@[0]);
    }
    if !is_ascii_letter_char(character) {
        return Err(GuessError::Invalid(character));
    }
    Ok(character)
}

} // verus!
