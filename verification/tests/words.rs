use hangman::game::words::{random_word, read_words};

#[test]
fn getting_a_random_word_returns_a_word() {
    let words = read_words("apple\nbanana\ncherry\norange\n", 4);
    assert!(!random_word(&words).is_empty());
}

#[test]
fn a_random_word_is_one_of_the_list() {
    let words = read_words("apple\nbanana\ncherry\norange\n", 4);
    let word = random_word(&words);
    assert!(words.contains(&word));
}

#[test]
fn read_words_uppercases_trims_and_filters() {
    let words = read_words("cat\r\nDoG\n  bird  \nx1y\nhi\n", 3);
    assert_eq!(words, vec!["CAT", "DOG", "BIRD"]);
}

#[test]
fn read_words_measures_an_entry_after_trimming() {
    let words = read_words(" cat \nlion\n", 4);
    assert_eq!(words, vec!["LION"]);
}

#[test]
fn read_words_drops_blank_and_short_lines() {
    let words = read_words("\n\n  \na\nok\n", 1);
    assert_eq!(words, vec!["A", "OK"]);
}

#[test]
fn read_words_of_an_empty_text_is_empty() {
    let words = read_words("", 1);
    assert_eq!(words, Vec::<String>::new());
}

#[test]
fn read_words_takes_a_text_without_a_final_break() {
    let words = read_words("alpha\nbeta", 4);
    assert_eq!(words, vec!["ALPHA", "BETA"]);
}

#[test]
fn read_words_drops_entries_with_inner_blanks() {
    let words = read_words("big cat\nwolf\n", 4);
    assert_eq!(words, vec!["WOLF"]);
}
