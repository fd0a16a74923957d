use hangman::char_to_string;
use hangman::game::CompleteGameStatus;
use hangman::ratatui_game_runner::ui::game_complete::{dialog_title, DialogColor};
use hangman::ratatui_game_runner::ui::shared::{centered_rect, intersperse, pad, Rect};
use hangman::to_upper_char;

#[test]
fn centered_rect_centers_with_margins_rounded_down() {
    let frame = Rect { x: 0, y: 0, width: 100, height: 30 };
    let dialog = centered_rect(50, 9, frame);
    assert_eq!(dialog, Rect { x: 25, y: 10, width: 50, height: 9 });
}

#[test]
fn centered_rect_keeps_the_enclosing_offset() {
    let frame = Rect { x: 10, y: 5, width: 21, height: 10 };
    let dialog = centered_rect(7, 4, frame);
    assert_eq!(dialog, Rect { x: 17, y: 8, width: 7, height: 4 });
}

#[test]
fn intersperse_separates_every_two_neighbours() {
    assert_eq!(intersperse(vec![1, 2, 3], 0), vec![1, 0, 2, 0, 3]);
    assert_eq!(intersperse(vec![7], 0), vec![7]);
    assert_eq!(intersperse(Vec::<u8>::new(), 0), Vec::<u8>::new());
}

#[test]
fn pad_adds_one_blank_on_each_side() {
    assert_eq!(pad(String::from("hi")), " hi ");
    assert_eq!(pad(String::new()), "  ");
}

#[test]
fn the_dialog_announces_the_outcome() {
    let (title, color) = dialog_title(CompleteGameStatus::Won);
    assert_eq!(title, "You Won!");
    assert_eq!(color, DialogColor::Green);
    let (title, color) = dialog_title(CompleteGameStatus::Lost);
    assert_eq!(title, "You Lost...");
    assert_eq!(color, DialogColor::Red);
}

#[test]
fn char_helpers_round_single_characters() {
    assert_eq!(char_to_string('x'), "x");
    assert_eq!(to_upper_char('q'), 'Q');
    assert_eq!(to_upper_char('Q'), 'Q');
    assert_eq!(to_upper_char('1'), '1');
}
