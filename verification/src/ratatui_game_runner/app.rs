//! The session state: which view is shown, the running round, the
//! feedback of the last guess, and the tallies across rounds.

use vstd::prelude::*;

use crate::game::words::valid_word_list;
use crate::game::{CompleteGameStatus, Game, GameStatus, GameView, MakeGuessResult};

verus! {

/// The choice offered when a round has ended.
#[derive(Clone, Copy, Debug, PartialEq, Eq, Structural)]
pub enum PlayAgain {
    Yes,
    No,
}

/// The state of the end-of-round dialog: which choice is highlighted.
#[derive(Clone, Copy, Debug, PartialEq, Eq, Structural)]
pub struct GameCompleteState {
    pub currently_selected: PlayAgain,
}

/// Which view the session shows; exactly one is active.
#[derive(Clone, Copy, Debug, PartialEq, Eq, Structural)]
pub enum CurrentView {
    GameInProgress,
    GameComplete(GameCompleteState),
}

/// The whole state of one interactive session.
pub struct App {
    pub current_view: CurrentView,
    pub lives: usize,
    pub words: Vec<String>,
    pub current_game: Game,
    pub last_guess_result: Option<MakeGuessResult>,
    pub games_played: u16,
    pub games_won: u16,
    pub games_lost: u16,
    pub should_quit: bool,
}

/// A round as a fresh start leaves it: well-formed, no guesses yet,
/// the full count of lives, in progress, and its word one of the
/// list's entries.
pub open spec fn fresh_round(v: GameView, lives: usize, words: Seq<String>) -> bool {
    &&& v.wf()
    &&& v.guesses.len() == 0
    &&& v.lives == lives as nat
    &&& v.status == GameStatus::InProgress
    &&& exists|i: int| 0 <= i < words.len() && v.word == (#[trigger] words[i])@
}

/// The session with the quit flag set and nothing else changed.
pub open spec fn quit_of(o: App) -> App {
    App {
        current_view: o.current_view,
        lives: o.lives,
        words: o.words,
        current_game: o.current_game,
        last_guess_result: o.last_guess_result,
        games_played: o.games_played,
        games_won: o.games_won,
        games_lost: o.games_lost,
        should_quit: true,
    }
}

/// How one forwarded guess changes the session: nothing at all when the
/// round was already complete; otherwise the round steps by the guess
/// and the feedback holds its outcome, and when the round just ended
/// the view switches to the dialog with `Yes` selected while the
/// tallies count the finished round.
pub open spec fn guess_step(o: App, n: App, guess: Seq<char>) -> bool {
    if o.current_game@.status is Complete {
        n == o
    } else {
        let v = o.current_game@.next_after(guess);
        &&& n.current_game@ == v
        &&& n.last_guess_result == Some(o.current_game@.outcome_of(guess))
        &&& n.lives == o.lives
        &&& n.words == o.words
        &&& n.should_quit == o.should_quit
        &&& (v.status is InProgress ==> n.current_view == o.current_view && n.games_played
            == o.games_played && n.games_won == o.games_won && n.games_lost == o.games_lost)
        &&& (v.status is Complete ==> n.current_view == CurrentView::GameComplete(
            GameCompleteState { currently_selected: PlayAgain::Yes },
        ) && n.games_played == o.games_played + 1)
        &&& (v.status == GameStatus::Complete(CompleteGameStatus::Won) ==> n.games_won
            == o.games_won + 1 && n.games_lost == o.games_lost)
        &&& (v.status == GameStatus::Complete(CompleteGameStatus::Lost) ==> n.games_lost
            == o.games_lost + 1 && n.games_won == o.games_won)
    }
}

impl App {
    /// The session invariant: a playable word list, at least one life
    /// per round, a well-formed round never holding more lives than a
    /// round starts with, the dialog shown exactly when the round is
    /// complete, and tallies that add up.
    pub open spec fn wf(&self) -> bool {
        &&& self.lives >= 1
        &&& self.words@.len() > 0
        &&& valid_word_list(self.words@)
        &&& self.current_game.wf()
        &&& self.current_game@.lives <= self.lives
        &&& (self.current_view is GameComplete <==> self.current_game@.status is Complete)
        &&& self.games_played == self.games_won + self.games_lost
    }

    /// A fresh session: the playing view, a fresh round, no feedback
    /// yet, zero tallies and the quit flag clear.
    pub fn new(lives: usize, words: Vec<String>) -> (app: App)
        requires
            lives >= 1,
            words@.len() > 0,
            valid_word_list(words@),
        ensures
            app.wf(),
            app.current_view == CurrentView::GameInProgress,
            app.lives == lives,
            app.words == words,
            fresh_round(app.current_game@, lives, words@),
            app.last_guess_result is None,
            app.games_played == 0 && app.games_won == 0 && app.games_lost == 0,
            !app.should_quit,
    {
        let current_game = Game::new(lives, &words);
        App {
            current_view: CurrentView::GameInProgress,
            lives,
            words,
            current_game,
            last_guess_result: None,
            games_played: 0,
            games_won: 0,
            games_lost: 0,
            should_quit: false,
        }
    }

    /// Replaces the round with a fresh one and returns to the playing
    /// view; everything else, the tallies included, stays.
    pub fn start_new_game(&mut self)
        requires
            old(self).wf(),
        ensures
            final(self).wf(),
            fresh_round(final(self).current_game@, old(self).lives, old(self).words@),
            final(self).current_view == CurrentView::GameInProgress,
            final(self).lives == old(self).lives,
            final(self).words == old(self).words,
            final(self).last_guess_result == old(self).last_guess_result,
            final(self).games_played == old(self).games_played,
            final(self).games_won == old(self).games_won,
            final(self).games_lost == old(self).games_lost,
            final(self).should_quit == old(self).should_quit,
    {
        self.current_game = Game::new(self.lives, &self.words);
        self.current_view = CurrentView::GameInProgress;
    }

    /// Forwards a guess to the round, as [`guess_step`] says: a round
    /// already complete is left alone; otherwise the outcome is kept
    /// for display, and a round that just ended flips the view to the
    /// dialog and counts itself in the tallies.
    pub fn make_guess(&mut self, guess: &str)
        requires
            old(self).wf(),
            old(self).games_played < u16::MAX,
        ensures
            final(self).wf(),
            guess_step(*old(self), *final(self), guess@),
    {
        if matches!(self.current_game.status(), GameStatus::Complete(_)) {
            return;
        }
        let result = self.current_game.make_guess(guess);
        self.last_guess_result = Some(result);
        match self.current_game.status() {
            GameStatus::Complete(complete_game_status) => {
                self.games_played = self.games_played + 1;
                self.current_view = CurrentView::GameComplete(
                    GameCompleteState { currently_selected: PlayAgain::Yes },
                );
                match complete_game_status {
                    CompleteGameStatus::Won => {
                        self.games_won = self.games_won + 1;
                    },
                    CompleteGameStatus::Lost => {
                        self.games_lost = self.games_lost + 1;
                    },
                }
            },
            GameStatus::InProgress => {},
        }
    }

    /// Sets the quit flag; the runtime loop ends before its next poll.
    pub fn quit(&mut self)
        requires
            old(self).wf(),
        ensures
            final(self).wf(),
            *final(self) == quit_of(*old(self)),
    {
        self.should_quit = true;
    }
}

} // verus!
