//! A single-player letter-guessing word game.
//!
//! The crate is organised around three pieces: the game engine
//! ([`game::Game`]), which owns one round's state and enforces guess
//! validation, scoring and win/loss determination; the word source
//! ([`game::words`]), which parses and filters a word list and draws a
//! random word from it; and the terminal front ends, whose decision
//! logic (the reducer in [`ratatui_game_runner::update`] and the view
//! state in [`ratatui_game_runner::app`]) lives here while the actual
//! terminal I/O stays outside the verified library.

pub mod game;
pub mod ratatui_game_runner;
pub mod stdio_game_runner;

use vstd::prelude::*;

verus! {

/// A letter the game accepts once normalized: an uppercase ASCII letter.
pub open spec fn is_upper_letter(c: char) -> bool {
    'A' <= c && c <= 'Z'
}

/// A letter as the player may type it: an ASCII letter of either case.
pub open spec fn is_ascii_letter(c: char) -> bool {
    ('A' <= c && c <= 'Z') || ('a' <= c && c <= 'z')
}

/// ASCII uppercasing of a single character; anything but a lowercase
/// ASCII letter is left as it is.
pub open spec fn upper_char(c: char) -> char {
    if 'a' <= c && c <= 'z' {
        ((c as u32 - 32) as char)
    } else {
        c
    }
}

/// A whole word uppercased character by character.
pub open spec fn upper_seq(s: Seq<char>) -> Seq<char> {
    s.map_values(|c: char| upper_char(c))
}

/// Executable ASCII uppercasing, matching [`upper_char`].
pub fn to_upper_char(c: char) -> (r: char)
    ensures
        r == upper_char(c),
{
    let u = c as u32;
    if 97 <= u && u <= 122 {
        ((u - 32) as u8) as char
    } else {
        c
    }
}

/// Executable check for an ASCII letter, matching [`is_ascii_letter`].
pub fn is_ascii_letter_char(c: char) -> (r: bool)
    ensures
        r == is_ascii_letter(c),
{
    let u = c as u32;
    (65 <= u && u <= 90) || (97 <= u && u <= 122)
}

/// Executable check for an uppercase ASCII letter, matching
/// [`is_upper_letter`].
pub fn is_upper_letter_char(c: char) -> (r: bool)
    ensures
        r == is_upper_letter(c),
{
    let u = c as u32;
    65 <= u && u <= 90
}

/// Relies on std's `String::push`: appends exactly the one character at
/// the end of the string.
#[verifier::external_body]
pub(crate) fn push_char(s: &mut String, c: char)
    ensures
        final(s)@ == old(s)@.push(c),
{
    s.push(c)
}

/// A freshly allocated string of exactly one character.
pub fn char_to_string(c: char) -> (s: String)
    ensures
        s@ == seq![c],
{
    let mut s = String::new();
    push_char(&mut s, c);
    proof {
        assert(s@ =~= seq![c]);
    }
    s
}

} // verus!
