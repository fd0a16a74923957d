use hangman::game::CompleteGameStatus;
use hangman::game::Game;
use hangman::game::GameStatus;
use hangman::game::GuessStatus;
use hangman::game::MakeGuessError::{AlreadyGuessed, Empty, GameComplete, Invalid, TooLong};
use hangman::game::MakeGuessSuccess::{Correct, Incorrect};

fn create_game(word: String) -> Game {
    Game::with_word(&word, 10)
}

fn create_single_life_game(word: String) -> Game {
    Game::with_word(&word, 1)
}

#[test]
fn when_starting_the_game_the_status_is_in_progress() {
    let words = vec![String::from("A")];
    let game = Game::new(1, &words);

    assert_eq!(game.status(), GameStatus::InProgress);
}

#[test]
fn when_guessing_a_valid_and_correct_letter_then_a_correct_result_is_returned_and_a_guess_is_added_and_no_life_is_lost(
) {
    let mut game = create_game(String::from("test"));

    let initial_lives_remaining = game.lives_remaining();

    let result = game.make_guess(&String::from("t"));

    assert_eq!(result, Ok(Correct));
    assert_eq!(
        game.guesses(),
        vec![(String::from("T"), GuessStatus::Correct)]
    );
    assert_eq!(game.lives_remaining(), initial_lives_remaining);
}

#[test]
fn when_guessing_a_valid_but_incorrect_letter_then_an_incorrect_result_is_returned_and_a_guess_is_added_and_a_life_is_lost(
) {
    let mut game = create_single_life_game(String::from("test"));

    let result = game.make_guess(&String::from("a"));

    assert_eq!(result, Ok(Incorrect));
    assert_eq!(game.lives_remaining(), 0);
    assert_eq!(
        game.status(),
        GameStatus::Complete(CompleteGameStatus::Lost)
    );
}

#[test]
fn when_guessing_the_final_letter_then_a_correct_result_is_returned_and_the_game_is_completed_as_a_win(
) {
    let mut game = create_game(String::from("win"));

    let initial_lives_remaining = game.lives_remaining();

    let _ = game.make_guess(&String::from("w"));
    let _ = game.make_guess(&String::from("i"));

    let result = game.make_guess(&String::from("n"));

    assert_eq!(result, Ok(Correct));
    assert_eq!(game.lives_remaining(), initial_lives_remaining);
    assert_eq!(game.status(), GameStatus::Complete(CompleteGameStatus::Won))
}

#[test]
fn when_guessing_a_valid_but_incorrect_letter_with_one_life_left_then_an_incorrect_result_is_returned_and_the_game_is_completed_as_a_loss(
) {
    let mut game = create_game(String::from("test"));

    let initial_lives_remaining = game.lives_remaining();

    let result = game.make_guess(&String::from("a"));

    assert_eq!(result, Ok(Incorrect));
    assert_eq!(
        game.guesses(),
        vec![(String::from("A"), GuessStatus::Incorrect)]
    );
    assert_eq!(game.lives_remaining(), initial_lives_remaining - 1);
}

#[test]
fn when_guessing_a_valid_and_correct_duplicate_letter_then_an_error_result_is_returned_and_a_life_is_not_lost_and_a_guess_is_not_added(
) {
    let mut game = create_game(String::from("test"));

    let initial_lives_remaining = game.lives_remaining();

    let _ = game.make_guess(&String::from("t"));
    let result = game.make_guess(&String::from("t"));

    assert_eq!(result, Err(AlreadyGuessed));
    assert_eq!(
        game.guesses(),
        vec![(String::from("T"), GuessStatus::Correct)]
    );
    assert_eq!(game.lives_remaining(), initial_lives_remaining);
}

#[test]
fn when_guessing_a_valid_but_incorrect_duplicate_letter_then_an_error_result_is_returned_and_a_life_is_not_lost_and_a_guess_is_not_added(
) {
    let mut game = create_game(String::from("test"));

    let initial_lives_remaining = game.lives_remaining();

    let _ = game.make_guess(&String::from("a"));
    let result = game.make_guess(&String::from("a"));

    assert_eq!(result, Err(AlreadyGuessed));
    assert_eq!(
        game.guesses(),
        vec![(String::from("A"), GuessStatus::Incorrect)]
    );
    assert_eq!(game.lives_remaining(), initial_lives_remaining - 1);
}

#[test]
fn when_guessing_an_empty_string_then_an_error_result_is_returned_and_a_life_is_not_lost_and_a_guess_is_not_added(
) {
    let mut game = create_game(String::from("test"));

    let initial_lives_remaining = game.lives_remaining();

    let result = game.make_guess(&String::from(""));

    assert_eq!(result, Err(Empty));
    assert_eq!(game.guesses(), vec![]);
    assert_eq!(game.lives_remaining(), initial_lives_remaining);
}

#[test]
fn when_guessing_a_string_longer_than_one_letter_then_an_error_result_is_returned_and_a_life_is_not_lost_and_a_guess_is_not_added(
) {
    let mut game = create_game(String::from("test"));

    let initial_lives_remaining = game.lives_remaining();

    let result = game.make_guess(&String::from("aa"));

    assert_eq!(result, Err(TooLong));
    assert_eq!(game.guesses(), vec![]);
    assert_eq!(game.lives_remaining(), initial_lives_remaining);
}

#[test]
fn when_guessing_an_invalid_character_then_an_error_result_is_returned_and_a_life_is_not_lost_and_a_guess_is_not_added(
) {
    let mut game = create_game(String::from("test"));

    let initial_lives_remaining = game.lives_remaining();

    let result = game.make_guess(&String::from("1"));

    assert_eq!(result, Err(Invalid));
    assert_eq!(game.guesses(), vec![]);
    assert_eq!(game.lives_remaining(), initial_lives_remaining);
}

#[test]
fn when_guessing_a_valid_letter_when_the_game_is_complete_then_an_error_result_is_returned_and_a_life_is_not_lost_and_a_guess_is_not_added(
) {
    let mut game = create_single_life_game(String::from("test"));

    let _ = game.make_guess(&String::from("a"));
    let result = game.make_guess(&String::from("b"));

    assert_eq!(result, Err(GameComplete));
    assert_eq!(
        game.guesses(),
        vec![(String::from("A"), GuessStatus::Incorrect)]
    );
    assert_eq!(game.lives_remaining(), 0);
}

#[test]
fn letters_and_blanked_out_letters_reveal_exactly_the_guessed_positions() {
    let mut game = create_game(String::from("test"));

    let _ = game.make_guess(&String::from("t"));

    assert_eq!(game.letters(), vec!["T", "E", "S", "T"]);
    assert_eq!(game.blanked_out_letters(), vec!["T", "_", "_", "T"]);
    assert_eq!(game.blanked_out_letters().len(), game.letters().len());
}

#[test]
fn guess_letters_keeps_the_guess_order() {
    let mut game = create_game(String::from("test"));

    let _ = game.make_guess(&String::from("s"));
    let _ = game.make_guess(&String::from("z"));
    let _ = game.make_guess(&String::from("e"));

    assert_eq!(game.guess_letters(), vec!["S", "Z", "E"]);
}

#[test]
fn unguessed_alphabet_drops_the_guessed_letters() {
    let mut game = create_game(String::from("test"));

    let _ = game.make_guess(&String::from("a"));
    let _ = game.make_guess(&String::from("z"));

    let remaining = game.unguessed_alphabet();
    assert_eq!(remaining.len(), 24);
    assert!(!remaining.contains(&String::from("A")));
    assert!(!remaining.contains(&String::from("Z")));
    assert_eq!(remaining[0], "B");
    assert_eq!(remaining[23], "Y");
}

#[test]
fn an_uppercase_guess_matches_a_lowercase_word() {
    let mut game = create_game(String::from("test"));

    let result = game.make_guess(&String::from("T"));

    assert_eq!(result, Ok(Correct));
    assert_eq!(
        game.guesses(),
        vec![(String::from("T"), GuessStatus::Correct)]
    );
}

#[test]
fn a_won_game_rejects_further_guesses_without_change() {
    let mut game = create_game(String::from("win"));

    let _ = game.make_guess(&String::from("w"));
    let _ = game.make_guess(&String::from("i"));
    let _ = game.make_guess(&String::from("n"));

    assert_eq!(game.status(), GameStatus::Complete(CompleteGameStatus::Won));

    let result = game.make_guess(&String::from("a"));

    assert_eq!(result, Err(GameComplete));
    assert_eq!(game.guess_letters(), vec!["W", "I", "N"]);
    assert_eq!(game.lives_remaining(), 10);
}
