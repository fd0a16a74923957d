//! The console runner's decisions and formatting: what the read-eval
//! loop around this library computes, without the I/O itself.

use colored::Colorize;
use vstd::prelude::*;
use vstd::string::StrSliceExecFns;

use crate::{char_to_string, push_char, to_upper_char, upper_char};

verus! {

/// The color class of the remaining-lives display.
#[derive(Clone, Copy, Debug, PartialEq, Eq, Structural)]
pub enum LivesColor {
    Red,
    Yellow,
    Green,
}

/// The digit character for a value below ten.
pub open spec fn digit_char(d: nat) -> char {
    ((d + 48) as char)
}

/// The decimal digits of `n`, most significant first.
pub open spec fn decimal_digits(n: nat) -> Seq<char>
    decreases n,
{
    if n < 10 {
        seq![digit_char(n)]
    } else {
        decimal_digits(n / 10).push(digit_char(n % 10))
    }
}

/// The color class of a lives count: one to three is pressing red,
/// four to six warning yellow, everything else green.
pub open spec fn spec_lives_color(lives_remaining: nat) -> LivesColor {
    if 1 <= lives_remaining && lives_remaining <= 3 {
        LivesColor::Red
    } else if 4 <= lives_remaining && lives_remaining <= 6 {
        LivesColor::Yellow
    } else {
        LivesColor::Green
    }
}

/// The digit character of a value below ten, matching [`digit_char`].
fn digit_of(d: usize) -> (c: char)
    requires
        d < 10,
    ensures
        c == digit_char(d as nat),
{
    ((d as u8) + 48) as char
}

/// The decimal numeral of a count, as [`decimal_digits`] says.
pub fn format_usize(n: usize) -> (s: String)
    ensures
        s@ == decimal_digits(n as nat),
    decreases n,
{
    if n < 10 {
        char_to_string(digit_of(n))
    } else {
        let mut s = format_usize(n / 10);
        push_char(&mut s, digit_of(n % 10));
        s
    }
}

/// Relies on colored's `Colorize::red`, `bold` and the display of its
/// `ColoredString`: the result always contains the input, with escape
/// codes around it only when the terminal takes color, so no more than
/// a length bound is promised.
#[verifier::external_body]
fn paint_red_bold(s: &str) -> (r: String)
    ensures
        r@.len() >= s@.len(),
{
    s.red().bold().to_string()
}

/// Relies on colored's `Colorize::yellow`, `bold` and the display of
/// its `ColoredString`, exactly as the red painter does.
#[verifier::external_body]
fn paint_yellow_bold(s: &str) -> (r: String)
    ensures
        r@.len() >= s@.len(),
{
    s.yellow().bold().to_string()
}

/// Relies on colored's `Colorize::green`, `bold` and the display of
/// its `ColoredString`, exactly as the red painter does.
#[verifier::external_body]
fn paint_green_bold(s: &str) -> (r: String)
    ensures
        r@.len() >= s@.len(),
{
    s.green().bold().to_string()
}

/// What a yes/no answer at the play-again prompt means: one character
/// that uppercases to `Y` is yes, to `N` no, anything else no answer.
pub open spec fn spec_parse_play_again(line: Seq<char>) -> Option<bool> {
    if line.len() != 1 {
        None
    } else if upper_char(line[0]) == 'Y' {
        Some(true)
    } else if upper_char(line[0]) == 'N' {
        Some(false)
    } else {
        None
    }
}

/// The console front end's computations; reading and printing stay
/// with the binary that drives the loop.
pub struct StdIOGameRunner;

impl StdIOGameRunner {
    /// The color class of a lives count, as [`spec_lives_color`] says.
    pub fn lives_color(lives_remaining: usize) -> (r: LivesColor)
        ensures
            r == spec_lives_color(lives_remaining as nat),
    {
        if 1 <= lives_remaining && lives_remaining <= 3 {
            LivesColor::Red
        } else if 4 <= lives_remaining && lives_remaining <= 6 {
            LivesColor::Yellow
        } else {
            LivesColor::Green
        }
    }

    /// The lives count as a decimal numeral painted in its color
    /// class. The painting is colored's and bends to the terminal, so
    /// only the numeral's presence in length is promised; the choice
    /// of class is [`spec_lives_color`]'s.
    pub fn format_lives_remaining(lives_remaining: usize) -> (r: String)
        ensures
            r@.len() >= decimal_digits(lives_remaining as nat).len(),
    {
        let numeral = format_usize(lives_remaining);
        match Self::lives_color(lives_remaining) {
            LivesColor::Red => paint_red_bold(numeral.as_str()),
            LivesColor::Yellow => paint_yellow_bold(numeral.as_str()),
            LivesColor::Green => paint_green_bold(numeral.as_str()),
        }
    }

    /// Reads a line at the play-again prompt as a yes/no answer, as
    /// [`spec_parse_play_again`] says.
    pub fn parse_play_again(line: &str) -> (r: Option<bool>)
        ensures
            r == spec_parse_play_again(line@),
    {
        if line.unicode_len() != 1 {
            return None;
        }
        let c = to_upper_char(line.get_char(0));
        if c == 'Y' {
            Some(true)
        } else if c == 'N' {
            Some(false)
        } else {
            None
        }
    }
}

} // verus!
