//! The reducer: the one place the session state changes, one event at
//! a time.

use vstd::prelude::*;

use crate::char_to_string;
use crate::ratatui_game_runner::app::{
    fresh_round, guess_step, quit_of, App, CurrentView, GameCompleteState, PlayAgain,
};

verus! {

/// A key as the reducer reads it: the keys it acts on, printable
/// characters, and everything else folded into `Other`.
#[derive(Clone, Copy, Debug, PartialEq, Eq, Structural)]
pub enum KeyCode {
    Esc,
    Enter,
    Left,
    Right,
    Char(char),
    Other,
}

/// One key press, together with whether Control was held.
#[derive(Clone, Copy, Debug, PartialEq, Eq, Structural)]
pub struct KeyEvent {
    pub code: KeyCode,
    pub ctrl: bool,
}

/// One event of the session's stream: the timer tick, a key press, a
/// mouse event (accepted, unused) or a resize (likewise).
#[derive(Clone, Copy, Debug, PartialEq, Eq, Structural)]
pub enum Event {
    Tick,
    Key(KeyEvent),
    Mouse,
    Resize(u16, u16),
}

/// Whether the key quits the session from any view: Escape, or Control
/// held with `c`.
pub open spec fn is_quit_key(k: KeyEvent) -> bool {
    k.code == KeyCode::Esc || ((k.code == KeyCode::Char('c') || k.code == KeyCode::Char('C'))
        && k.ctrl)
}

/// The other selectable choice of the end-of-round dialog.
pub open spec fn toggled(p: PlayAgain) -> PlayAgain {
    match p {
        PlayAgain::Yes => PlayAgain::No,
        PlayAgain::No => PlayAgain::Yes,
    }
}

/// The session with only its view replaced.
pub open spec fn with_view(o: App, view: CurrentView) -> App {
    App {
        current_view: view,
        lives: o.lives,
        words: o.words,
        current_game: o.current_game,
        last_guess_result: o.last_guess_result,
        games_played: o.games_played,
        games_won: o.games_won,
        games_lost: o.games_lost,
        should_quit: o.should_quit,
    }
}

/// A fresh round has replaced the finished one: back to the playing
/// view with a new word from the same list, everything else kept.
pub open spec fn new_round_step(o: App, n: App) -> bool {
    &&& n.current_view == CurrentView::GameInProgress
    &&& fresh_round(n.current_game@, o.lives, o.words@)
    &&& n.lives == o.lives
    &&& n.words == o.words
    &&& n.last_guess_result == o.last_guess_result
    &&& n.games_played == o.games_played
    &&& n.games_won == o.games_won
    &&& n.games_lost == o.games_lost
    &&& n.should_quit == o.should_quit
}

/// The whole reducer as a relation between the session before and after
/// one event. A quit key quits from any view. While a round runs, a
/// printable character is forwarded verbatim as a guess and every other
/// key does nothing. In the end-of-round dialog the arrow keys toggle
/// the choice and Enter either quits (`No`) or starts a fresh round
/// (`Yes`). Ticks, mouse and resize events change nothing.
pub open spec fn update_step(o: App, n: App, event: Event) -> bool {
    match event {
        Event::Key(k) => {
            if is_quit_key(k) {
                n == quit_of(o)
            } else {
                match o.current_view {
                    CurrentView::GameInProgress => match k.code {
                        KeyCode::Char(c) => guess_step(o, n, seq![c]),
                        _ => n == o,
                    },
                    CurrentView::GameComplete(st) => match k.code {
                        KeyCode::Left | KeyCode::Right => n == with_view(
                            o,
                            CurrentView::GameComplete(
                                GameCompleteState {
                                    currently_selected: toggled(st.currently_selected),
                                },
                            ),
                        ),
                        KeyCode::Enter => if st.currently_selected == PlayAgain::No {
                            n == quit_of(o)
                        } else {
                            new_round_step(o, n)
                        },
                        _ => n == o,
                    },
                }
            }
        },
        _ => n == o,
    }
}

/// Applies one event to the session, as [`update_step`] says.
pub fn update(app: &mut App, event: Event)
    requires
        old(app).wf(),
        old(app).games_played < u16::MAX,
    ensures
        final(app).wf(),
        update_step(*old(app), *final(app), event),
{
    match event {
        Event::Tick => {},
        Event::Key(key) => update_key(app, key),
        Event::Mouse => {},
        Event::Resize(_, _) => {},
    }
}

/// Applies one key press: quit keys first, then the active view's own
/// handling.
fn update_key(app: &mut App, key_event: KeyEvent)
    requires
        old(app).wf(),
        old(app).games_played < u16::MAX,
    ensures
        final(app).wf(),
        update_step(*old(app), *final(app), Event::Key(key_event)),
{
    let handled = handle_quit_keys(app, key_event);
    if handled {
        return;
    }
    match app.current_view {
        CurrentView::GameInProgress => {
            match key_event.code {
                KeyCode::Char(c) => {
                    let guess = char_to_string(c);
                    app.make_guess(guess.as_str());
                },
                _ => {},
            }
        },
        CurrentView::GameComplete(game_complete_state) => {
            match key_event.code {
                KeyCode::Left | KeyCode::Right => {
                    let currently_selected = match game_complete_state.currently_selected {
                        PlayAgain::Yes => PlayAgain::No,
                        PlayAgain::No => PlayAgain::Yes,
                    };
                    app.current_view = CurrentView::GameComplete(
                        GameCompleteState { currently_selected },
                    );
                },
                KeyCode::Enter => {
                    if matches!(game_complete_state.currently_selected, PlayAgain::No) {
                        app.quit();
                    } else {
                        app.start_new_game();
                    }
                },
                _ => {},
            }
        },
    }
}

/// Handles the keys that quit from any view and says whether it did.
fn handle_quit_keys(app: &mut App, key_event: KeyEvent) -> (handled: bool)
    requires
        old(app).wf(),
    ensures
        final(app).wf(),
        handled == is_quit_key(key_event),
        handled ==> *final(app) == quit_of(*old(app)),
        !handled ==> *final(app) == *old(app),
{
    match key_event.code {
        KeyCode::Esc => {
            app.quit();
            true
        },
        KeyCode::Char(c) => {
            if (c == 'c' || c == 'C') && key_event.ctrl {
                app.quit();
                true
            } else {
                false
            }
        },
        _ => false,
    }
}

} // verus!
