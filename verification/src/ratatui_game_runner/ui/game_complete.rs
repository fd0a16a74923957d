//! What the end-of-round dialog says: its title and color class per
//! outcome. Composing the widgets is the binary's work.

use vstd::prelude::*;
use vstd::string::StringExecFns;

use crate::game::CompleteGameStatus;

verus! {

/// The dialog's color class: green frames a win, red a loss.
#[derive(Clone, Copy, Debug, PartialEq, Eq, Structural)]
pub enum DialogColor {
    Green,
    Red,
}

/// The dialog's title and color for a finished round.
pub fn dialog_title(outcome: CompleteGameStatus) -> (r: (String, DialogColor))
    ensures
        outcome == CompleteGameStatus::Won ==> r.0@ == "You Won!"@ && r.1 == DialogColor::Green,
        outcome == CompleteGameStatus::Lost ==> r.0@ == "You Lost..."@ && r.1 == DialogColor::Red,
{
    match outcome {
        CompleteGameStatus::Won => (String::from_str("You Won!"), DialogColor::Green),
        CompleteGameStatus::Lost => (String::from_str("You Lost..."), DialogColor::Red),
    }
}

} // verus!
