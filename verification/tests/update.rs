use hangman::game::{CompleteGameStatus, GameStatus, MakeGuessError, MakeGuessSuccess};
use hangman::ratatui_game_runner::app::{App, CurrentView, GameCompleteState, PlayAgain};
use hangman::ratatui_game_runner::update::{update, Event, KeyCode, KeyEvent};

fn one_word_app(word: &str, lives: usize) -> App {
    App::new(lives, vec![String::from(word)])
}

fn key(code: KeyCode) -> Event {
    Event::Key(KeyEvent { code, ctrl: false })
}

#[test]
fn a_new_app_starts_in_progress_with_zero_tallies() {
    let app = one_word_app("AB", 3);
    assert_eq!(app.current_view, CurrentView::GameInProgress);
    assert_eq!(app.games_played, 0);
    assert_eq!(app.games_won, 0);
    assert_eq!(app.games_lost, 0);
    assert!(!app.should_quit);
    assert!(app.last_guess_result.is_none());
}

#[test]
fn tick_mouse_and_resize_change_nothing() {
    let mut app = one_word_app("AB", 3);
    update(&mut app, Event::Tick);
    update(&mut app, Event::Mouse);
    update(&mut app, Event::Resize(80, 24));
    assert_eq!(app.current_view, CurrentView::GameInProgress);
    assert_eq!(app.games_played, 0);
    assert!(!app.should_quit);
}

#[test]
fn escape_quits_from_the_playing_view() {
    let mut app = one_word_app("AB", 3);
    update(&mut app, key(KeyCode::Esc));
    assert!(app.should_quit);
}

#[test]
fn control_c_quits_but_a_plain_c_is_a_guess() {
    let mut app = one_word_app("CAB", 3);
    update(&mut app, key(KeyCode::Char('c')));
    assert!(!app.should_quit);
    assert_eq!(
        app.last_guess_result,
        Some(Ok(MakeGuessSuccess::Correct))
    );

    update(
        &mut app,
        Event::Key(KeyEvent { code: KeyCode::Char('c'), ctrl: true }),
    );
    assert!(app.should_quit);
}

#[test]
fn a_character_key_is_forwarded_as_a_guess() {
    let mut app = one_word_app("AB", 3);
    update(&mut app, key(KeyCode::Char('z')));
    assert_eq!(
        app.last_guess_result,
        Some(Ok(MakeGuessSuccess::Incorrect))
    );
    assert_eq!(app.current_game.lives_remaining(), 2);

    update(&mut app, key(KeyCode::Char('z')));
    assert_eq!(
        app.last_guess_result,
        Some(Err(MakeGuessError::AlreadyGuessed))
    );
    assert_eq!(app.current_game.lives_remaining(), 2);
}

#[test]
fn a_lost_round_flips_to_the_dialog_and_counts_itself() {
    let mut app = one_word_app("AB", 1);
    update(&mut app, key(KeyCode::Char('z')));
    assert_eq!(
        app.current_game.status(),
        GameStatus::Complete(CompleteGameStatus::Lost)
    );
    assert_eq!(
        app.current_view,
        CurrentView::GameComplete(GameCompleteState {
            currently_selected: PlayAgain::Yes
        })
    );
    assert_eq!(app.games_played, 1);
    assert_eq!(app.games_lost, 1);
    assert_eq!(app.games_won, 0);
}

#[test]
fn a_won_round_flips_to_the_dialog_and_counts_itself() {
    let mut app = one_word_app("A", 3);
    update(&mut app, key(KeyCode::Char('a')));
    assert_eq!(
        app.current_game.status(),
        GameStatus::Complete(CompleteGameStatus::Won)
    );
    assert_eq!(
        app.current_view,
        CurrentView::GameComplete(GameCompleteState {
            currently_selected: PlayAgain::Yes
        })
    );
    assert_eq!(app.games_played, 1);
    assert_eq!(app.games_won, 1);
    assert_eq!(app.games_lost, 0);
}

#[test]
fn arrow_keys_toggle_the_dialog_choice() {
    let mut app = one_word_app("A", 3);
    update(&mut app, key(KeyCode::Char('a')));
    update(&mut app, key(KeyCode::Left));
    assert_eq!(
        app.current_view,
        CurrentView::GameComplete(GameCompleteState {
            currently_selected: PlayAgain::No
        })
    );
    update(&mut app, key(KeyCode::Right));
    assert_eq!(
        app.current_view,
        CurrentView::GameComplete(GameCompleteState {
            currently_selected: PlayAgain::Yes
        })
    );
}

#[test]
fn enter_on_no_quits() {
    let mut app = one_word_app("A", 3);
    update(&mut app, key(KeyCode::Char('a')));
    update(&mut app, key(KeyCode::Left));
    update(&mut app, key(KeyCode::Enter));
    assert!(app.should_quit);
}

#[test]
fn enter_on_yes_starts_a_fresh_round_with_the_tally_kept() {
    let mut app = one_word_app("A", 3);
    update(&mut app, key(KeyCode::Char('a')));
    assert_eq!(app.games_played, 1);

    update(&mut app, key(KeyCode::Enter));
    assert_eq!(app.current_view, CurrentView::GameInProgress);
    assert_eq!(app.current_game.status(), GameStatus::InProgress);
    assert_eq!(app.current_game.lives_remaining(), 3);
    assert!(app.current_game.guesses().is_empty());
    assert_eq!(app.games_played, 1);
    assert!(!app.should_quit);
}

#[test]
fn other_keys_do_nothing_in_either_view() {
    let mut app = one_word_app("A", 3);
    update(&mut app, key(KeyCode::Other));
    assert_eq!(app.current_view, CurrentView::GameInProgress);
    update(&mut app, key(KeyCode::Char('a')));
    update(&mut app, key(KeyCode::Other));
    assert_eq!(
        app.current_view,
        CurrentView::GameComplete(GameCompleteState {
            currently_selected: PlayAgain::Yes
        })
    );
    assert!(!app.should_quit);
}

#[test]
fn a_guess_on_a_complete_round_changes_nothing_in_the_app() {
    let mut app = one_word_app("A", 3);
    update(&mut app, key(KeyCode::Char('a')));
    let played = app.games_played;
    app.make_guess("b");
    assert_eq!(app.games_played, played);
    assert!(app.current_game.guesses().len() == 1);
}
