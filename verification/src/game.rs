//! The game engine: one round's state and the guess contract.
//!
//! A round owns a fixed secret word, an append-only guess history, a
//! count of lives and a completion status. The status is always the one
//! derived from the other three fields: won when every letter of the
//! word has been guessed, lost when the lives are gone, in progress
//! otherwise.

pub mod guesses;
pub mod words;

use vstd::prelude::*;
use vstd::string::{StrSliceExecFns, StringExecFns};

use crate::game::words::{random_word, valid_word, valid_word_list};
use crate::{char_to_string, is_ascii_letter, is_ascii_letter_char, is_upper_letter, to_upper_char,
    upper_char, upper_seq};

verus! {

/// Whether a round is still being played or has ended, and how it ended.
#[derive(Clone, Copy, Debug, PartialEq, Eq, Structural)]
pub enum GameStatus {
    InProgress,
    Complete(CompleteGameStatus),
}

/// How a finished round ended.
#[derive(Clone, Copy, Debug, PartialEq, Eq, Structural)]
pub enum CompleteGameStatus {
    Won,
    Lost,
}

/// Whether a recorded guess hit a letter of the secret word.
#[derive(Clone, Copy, Debug, PartialEq, Eq, Structural)]
pub enum GuessStatus {
    Correct,
    Incorrect,
}

/// The outcome of an accepted guess.
#[derive(Clone, Copy, Debug, PartialEq, Eq, Structural)]
pub enum MakeGuessSuccess {
    Correct,
    Incorrect,
}

/// Why a guess was rejected; rejection leaves the round unchanged.
#[derive(Clone, Copy, Debug, PartialEq, Eq, Structural)]
pub enum MakeGuessError {
    Empty,
    TooLong,
    Invalid,
    AlreadyGuessed,
    GameComplete,
}

/// What one call to [`Game::make_guess`] hands back.
pub type MakeGuessResult = Result<MakeGuessSuccess, MakeGuessError>;

/// The mathematical state of a round: the secret word, the guess
/// history in order, the lives left and the status.
#[verifier::ext_equal]
pub struct GameView {
    pub word: Seq<char>,
    pub guesses: Seq<(char, GuessStatus)>,
    pub lives: nat,
    pub status: GameStatus,
}

/// The letters of a guess history, in guess order.
pub open spec fn letters_of(guesses: Seq<(char, GuessStatus)>) -> Seq<char> {
    guesses.map_values(|g: (char, GuessStatus)| g.0)
}

/// The uppercase alphabet `A` to `Z`, in order.
pub open spec fn alphabet() -> Seq<char> {
    Seq::new(26, |i: int| ((65 + i) as char))
}

/// How many letters of `word` are missing from `guessed`.
pub open spec fn count_unguessed(word: Seq<char>, guessed: Seq<char>) -> nat
    decreases word.len(),
{
    if word.len() == 0 {
        0
    } else {
        count_unguessed(word.drop_last(), guessed) + if guessed.contains(word.last()) {
            0nat
        } else {
            1nat
        }
    }
}

/// The count of unguessed letters is zero exactly when every letter of
/// the word was guessed.
pub proof fn lemma_count_unguessed_zero(word: Seq<char>, guessed: Seq<char>)
    ensures
        (count_unguessed(word, guessed) == 0) <==> (forall|i: int|
            0 <= i < word.len() ==> guessed.contains(#[trigger] word[i])),
    decreases word.len(),
{
    if word.len() > 0 {
        lemma_count_unguessed_zero(word.drop_last(), guessed);
        assert(forall|i: int|
            0 <= i < word.len() - 1 ==> (#[trigger] word[i]) == word.drop_last()[i]);
        assert(word.last() == word[word.len() - 1]);
    }
}

impl GameView {
    /// The guessed letters in guess order.
    pub open spec fn guessed(self) -> Seq<char> {
        letters_of(self.guesses)
    }

    /// Whether `c` has already been guessed this round.
    pub open spec fn has_guessed(self, c: char) -> bool {
        self.guessed().contains(c)
    }

    /// Whether every letter of the secret word has been guessed.
    pub open spec fn all_letters_guessed(self) -> bool {
        forall|i: int| 0 <= i < self.word.len() ==> self.has_guessed(#[trigger] self.word[i])
    }

    /// The status a round with this word, history and lives must have.
    pub open spec fn derived_status(self) -> GameStatus {
        if self.all_letters_guessed() {
            GameStatus::Complete(CompleteGameStatus::Won)
        } else if self.lives == 0 {
            GameStatus::Complete(CompleteGameStatus::Lost)
        } else {
            GameStatus::InProgress
        }
    }

    /// Well-formedness of everything but the status: the word is a
    /// non-empty run of uppercase letters; every recorded guess is an
    /// uppercase letter, marked correct exactly when it occurs in the
    /// word, and no letter is recorded twice.
    pub open spec fn fields_ok(self) -> bool {
        &&& self.word.len() > 0
        &&& forall|i: int| 0 <= i < self.word.len() ==> is_upper_letter(#[trigger] self.word[i])
        &&& forall|i: int|
            0 <= i < self.guesses.len() ==> is_upper_letter(#[trigger] self.guesses[i].0)
        &&& forall|i: int|
            0 <= i < self.guesses.len() ==> ((#[trigger] self.guesses[i].1) == GuessStatus::Correct
                <==> self.word.contains(self.guesses[i].0))
        &&& forall|i: int, j: int|
            0 <= i < j < self.guesses.len() ==> (#[trigger] self.guesses[i].0) != (
            #[trigger] self.guesses[j].0)
    }

    /// The round invariant: well-formed fields and the derived status.
    pub open spec fn wf(self) -> bool {
        self.fields_ok() && self.status == self.derived_status()
    }

    /// What `make_guess` returns on this round for the given input,
    /// with the checks in their fixed order: completion first, then
    /// format, then duplication, then the outcome itself.
    pub open spec fn outcome_of(self, guess: Seq<char>) -> MakeGuessResult {
        if !(self.status is InProgress) {
            Err(MakeGuessError::GameComplete)
        } else if guess.len() == 0 {
            Err(MakeGuessError::Empty)
        } else if guess.len() > 1 {
            Err(MakeGuessError::TooLong)
        } else if !is_ascii_letter(guess[0]) {
            Err(MakeGuessError::Invalid)
        } else if self.has_guessed(upper_char(guess[0])) {
            Err(MakeGuessError::AlreadyGuessed)
        } else if self.word.contains(upper_char(guess[0])) {
            Ok(MakeGuessSuccess::Correct)
        } else {
            Ok(MakeGuessSuccess::Incorrect)
        }
    }

    /// The round state after `make_guess`: unchanged on a rejected
    /// guess; on an accepted one the letter is appended with its mark,
    /// a life is spent when it missed, and the status is re-derived.
    pub open spec fn next_after(self, guess: Seq<char>) -> GameView {
        if self.outcome_of(guess) is Err {
            self
        } else {
            let c = upper_char(guess[0]);
            let correct = self.word.contains(c);
            let stepped = GameView {
                word: self.word,
                guesses: self.guesses.push(
                    (c, if correct {
                        GuessStatus::Correct
                    } else {
                        GuessStatus::Incorrect
                    }),
                ),
                lives: if correct {
                    self.lives
                } else {
                    (self.lives - 1) as nat
                },
                status: self.status,
            };
            GameView {
                status: stepped.derived_status(),
                ..stepped
            }
        }
    }
}

/// One round of the game. See [`GameView`] for the abstract state.
pub struct Game {
    status: GameStatus,
    word: Vec<char>,
    guesses: Vec<(char, GuessStatus)>,
    lives_remaining: usize,
}

impl View for Game {
    type V = GameView;

    closed spec fn view(&self) -> GameView {
        GameView {
            word: self.word@,
            guesses: self.guesses@,
            lives: self.lives_remaining as nat,
            status: self.status,
        }
    }
}

impl Game {
    /// The round invariant, over the abstract state.
    pub open spec fn wf(&self) -> bool {
        self@.wf()
    }

    /// Starts a round on a word supplied by the caller, normalized to
    /// uppercase. This is the deterministic entry, independent of any
    /// word list; [`Game::new`] draws the word at random instead.
    pub fn with_word(word: &str, lives: usize) -> (g: Game)
        requires
            lives >= 1,
            word@.len() > 0,
            forall|i: int| 0 <= i < word@.len() ==> is_ascii_letter(#[trigger] word@[i]),
        ensures
            g.wf(),
            g@.word == upper_seq(word@),
            g@.guesses == Seq::<(char, GuessStatus)>::empty(),
            g@.lives == lives as nat,
            g@.status == GameStatus::InProgress,
    {
        let n = word.unicode_len();
        let mut letters: Vec<char> = Vec::new();
        let mut i: usize = 0;
        while i < n
            invariant
                i <= n,
                n == word@.len(),
                forall|k: int| 0 <= k < word@.len() ==> is_ascii_letter(#[trigger] word@[k]),
                letters@ == upper_seq(word@).take(i as int),
            decreases n - i,
        {
            let c = to_upper_char(word.get_char(i));
            letters.push(c);
            proof {
                assert(letters@ =~= upper_seq(word@).take(i + 1 as int));
            }
            i = i + 1;
        }
        proof {
            assert(upper_seq(word@).take(n as int) =~= upper_seq(word@));
        }
        let g = Game {
            status: GameStatus::InProgress,
            word: letters,
            guesses: Vec::new(),
            lives_remaining: lives,
        };
        proof {
            assert(forall|k: int|
                0 <= k < g@.word.len() ==> is_upper_letter(#[trigger] g@.word[k]));
            assert(!g@.all_letters_guessed()) by {
                assert(!g@.has_guessed(g@.word[0]));
            }
        }
        g
    }

    /// Starts a round on a word drawn at random from the list.
    pub fn new(lives: usize, words: &Vec<String>) -> (g: Game)
        requires
            lives >= 1,
            words@.len() > 0,
            valid_word_list(words@),
        ensures
            g.wf(),
            g@.guesses == Seq::<(char, GuessStatus)>::empty(),
            g@.lives == lives as nat,
            g@.status == GameStatus::InProgress,
            exists|i: int| 0 <= i < words@.len() && g@.word == (#[trigger] words@[i])@,
    {
        let w = random_word(words);
        proof {
            let i = choose|i: int| 0 <= i < words@.len() && w == words@[i];
            assert(valid_word(words@[i]@));
            assert(valid_word(w@));
        }
        let g = Game::with_word(w.as_str(), lives);
        proof {
            assert forall|k: int| 0 <= k < w@.len() implies #[trigger] upper_seq(w@)[k]
                == w@[k] by {
                assert(is_upper_letter(w@[k]));
            };
            assert(upper_seq(w@) =~= w@);
        }
        g
    }

    /// The current status.
    pub fn status(&self) -> (r: GameStatus)
        ensures
            r == self@.status,
    {
        self.status
    }

    /// The lives still available.
    pub fn lives_remaining(&self) -> (r: usize)
        ensures
            r as nat == self@.lives,
    {
        self.lives_remaining
    }

    /// The guess history in order, each letter as a one-character
    /// string with its mark.
    pub fn guesses(&self) -> (r: Vec<(String, GuessStatus)>)
        ensures
            r@.len() == self@.guesses.len(),
            forall|i: int|
                0 <= i < r@.len() ==> (#[trigger] r@[i]).0@ == seq![self@.guesses[i].0] && r@[i].1
                    == self@.guesses[i].1,
    {
        let mut r: Vec<(String, GuessStatus)> = Vec::new();
        let mut i: usize = 0;
        while i < self.guesses.len()
            invariant
                i <= self@.guesses.len(),
                r@.len() == i,
                forall|k: int|
                    0 <= k < i ==> (#[trigger] r@[k]).0@ == seq![self@.guesses[k].0] && r@[k].1
                        == self@.guesses[k].1,
            decreases self@.guesses.len() - i,
        {
            let (c, st) = self.guesses[i];
            r.push((char_to_string(c), st));
            i = i + 1;
        }
        r
    }

    /// The guessed letters only, in guess order, each as a
    /// one-character string.
    pub fn guess_letters(&self) -> (r: Vec<String>)
        ensures
            r@.len() == self@.guesses.len(),
            forall|i: int| 0 <= i < r@.len() ==> (#[trigger] r@[i])@ == seq![self@.guessed()[i]],
    {
        let mut r: Vec<String> = Vec::new();
        let mut i: usize = 0;
        while i < self.guesses.len()
            invariant
                i <= self@.guesses.len(),
                r@.len() == i,
                forall|k: int| 0 <= k < i ==> (#[trigger] r@[k])@ == seq![self@.guessed()[k]],
            decreases self@.guesses.len() - i,
        {
            let (c, _) = self.guesses[i];
            r.push(char_to_string(c));
            i = i + 1;
        }
        r
    }

    /// How many letters of the secret word have not been guessed yet.
    pub fn unknown_letters_count(&self) -> (r: usize)
        ensures
            r as nat == count_unguessed(self@.word, self@.guessed()),
    {
        let ghost guessed = self@.guessed();
        let mut count: usize = 0;
        let mut i: usize = 0;
        while i < self.word.len()
            invariant
                i <= self@.word.len(),
                count as nat == count_unguessed(self@.word.take(i as int), self@.guessed()),
                count <= i,
            decreases self@.word.len() - i,
        {
            if !self.is_already_guessed(self.word[i]) {
                count = count + 1;
            }
            proof {
                assert(self@.word.take(i + 1 as int).drop_last() =~= self@.word.take(i as int));
                assert(self@.word.take(i + 1 as int).last() == self@.word[i as int]);
            }
            i = i + 1;
        }
        proof {
            assert(self@.word.take(self@.word.len() as int) =~= self@.word);
        }
        count
    }

    /// Whether the letter was guessed before.
    pub fn is_already_guessed(&self, letter: char) -> (r: bool)
        ensures
            r == self@.has_guessed(letter),
    {
        let mut i: usize = 0;
        while i < self.guesses.len()
            invariant
                i <= self@.guesses.len(),
                forall|k: int| 0 <= k < i ==> (#[trigger] self@.guesses[k]).0 != letter,
            decreases self@.guesses.len() - i,
        {
            if self.guesses[i].0 == letter {
                proof {
                    assert(self@.guessed()[i as int] == letter);
                }
                return true;
            }
            i = i + 1;
        }
        proof {
            assert(forall|k: int|
                0 <= k < self@.guessed().len() ==> (#[trigger] self@.guessed()[k]) != letter);
        }
        false
    }

    /// Whether the letter occurs in the secret word.
    pub fn is_letter_in_word(&self, letter: char) -> (r: bool)
        ensures
            r == self@.word.contains(letter),
    {
        let mut i: usize = 0;
        while i < self.word.len()
            invariant
                i <= self@.word.len(),
                forall|k: int| 0 <= k < i ==> (#[trigger] self@.word[k]) != letter,
            decreases self@.word.len() - i,
        {
            if self.word[i] == letter {
                return true;
            }
            i = i + 1;
        }
        false
    }

    /// Recomputes the status from the word, the history and the lives.
    pub fn update_status(&mut self)
        requires
            old(self)@.fields_ok(),
        ensures
            final(self)@.word == old(self)@.word,
            final(self)@.guesses == old(self)@.guesses,
            final(self)@.lives == old(self)@.lives,
            final(self)@.status == old(self)@.derived_status(),
            final(self).wf(),
    {
        proof {
            lemma_count_unguessed_zero(self@.word, self@.guessed());
        }
        self.status = if self.unknown_letters_count() == 0 {
            GameStatus::Complete(CompleteGameStatus::Won)
        } else if self.lives_remaining == 0 {
            GameStatus::Complete(CompleteGameStatus::Lost)
        } else {
            GameStatus::InProgress
        };
    }

    /// Checks the shape of the input alone: rejects an empty input, one
    /// of more than one character, and one character that is no ASCII
    /// letter, in that order.
    pub fn validate_guess(&self, guess: &str) -> (r: Result<(), MakeGuessError>)
        ensures
            guess@.len() == 0 ==> r == Err::<(), MakeGuessError>(MakeGuessError::Empty),
            guess@.len() > 1 ==> r == Err::<(), MakeGuessError>(MakeGuessError::TooLong),
            guess@.len() == 1 && !is_ascii_letter(guess@[0]) ==> r == Err::<(), MakeGuessError>(
                MakeGuessError::Invalid,
            ),
            guess@.len() == 1 && is_ascii_letter(guess@[0]) ==> r == Ok::<(), MakeGuessError>(()),
    {
        let n = guess.unicode_len();
        if n == 0 {
            Err(MakeGuessError::Empty)
        } else if n > 1 {
            Err(MakeGuessError::TooLong)
        } else if !is_ascii_letter_char(guess.get_char(0)) {
            Err(MakeGuessError::Invalid)
        } else {
            Ok(())
        }
    }

    /// Plays one guess. The checks run in a fixed order — completion,
    /// empty, too long, invalid character, duplicate — and a rejected
    /// guess leaves the round exactly as it was. An accepted letter is
    /// appended to the history once, a life is spent exactly when it
    /// misses, the lives never grow, and the status is re-derived.
    pub fn make_guess(&mut self, guess: &str) -> (r: MakeGuessResult)
        requires
            old(self).wf(),
        ensures
            final(self).wf(),
            r == old(self)@.outcome_of(guess@),
            final(self)@ == old(self)@.next_after(guess@),
            final(self)@.word == old(self)@.word,
            final(self)@.lives <= old(self)@.lives,
            r is Err ==> final(self)@ == old(self)@,
            old(self)@.status is Complete ==> r == Err::<MakeGuessSuccess, MakeGuessError>(
                MakeGuessError::GameComplete,
            ),
            r is Ok ==> final(self)@.guesses.len() == old(self)@.guesses.len() + 1,
    {
        if !(matches!(self.status, GameStatus::InProgress)) {
            return Err(MakeGuessError::GameComplete);
        }
        if let Err(e) = self.validate_guess(guess) {
            return Err(e);
        }
        let c = to_upper_char(guess.get_char(0));
        if self.is_already_guessed(c) {
            return Err(MakeGuessError::AlreadyGuessed);
        }
        let is_correct = self.is_letter_in_word(c);
        self.guesses.push(
            (c, if is_correct {
                GuessStatus::Correct
            } else {
                GuessStatus::Incorrect
            }),
        );
        if !is_correct {
            self.lives_remaining = self.lives_remaining - 1;
        }
        proof {
            let v = old(self)@;
            let w = self@;
            let cg = upper_char(guess@[0]);
            let st = if v.word.contains(cg) {
                GuessStatus::Correct
            } else {
                GuessStatus::Incorrect
            };
            assert(is_upper_letter(cg));
            assert(w.guesses.len() == v.guesses.len() + 1);
            assert(w.guesses[v.guesses.len() as int] == (cg, st));
            assert(forall|k: int|
                0 <= k < v.guesses.len() ==> (#[trigger] w.guesses[k]) == v.guesses[k]);
            assert forall|k: int| 0 <= k < v.guesses.len() implies (#[trigger] v.guesses[k]).0
                != cg by {
                if v.guesses[k].0 == cg {
                    assert(v.guessed()[k] == cg);
                    assert(v.guessed().contains(cg));
                }
            };
            assert(w.fields_ok());
        }
        self.update_status();
        let r = if is_correct {
            Ok(MakeGuessSuccess::Correct)
        } else {
            Ok(MakeGuessSuccess::Incorrect)
        };
        proof {
            assert(self@ =~= old(self)@.next_after(guess@));
        }
        r
    }

    /// The secret word split into its letters, each as a one-character
    /// string.
    pub fn letters(&self) -> (r: Vec<String>)
        ensures
            r@.len() == self@.word.len(),
            forall|i: int| 0 <= i < r@.len() ==> (#[trigger] r@[i])@ == seq![self@.word[i]],
    {
        let mut r: Vec<String> = Vec::new();
        let mut i: usize = 0;
        while i < self.word.len()
            invariant
                i <= self@.word.len(),
                r@.len() == i,
                forall|k: int| 0 <= k < i ==> (#[trigger] r@[k])@ == seq![self@.word[k]],
            decreases self@.word.len() - i,
        {
            r.push(char_to_string(self.word[i]));
            i = i + 1;
        }
        r
    }

    /// The letters of the alphabet not guessed yet, in alphabetical
    /// order, each as a one-character string; the alphabet pane of the
    /// interactive view shows these.
    pub fn unguessed_alphabet(&self) -> (r: Vec<String>)
        ensures
            r@.map_values(|s: String| s@) == alphabet().filter(
                |c: char| !self@.has_guessed(c),
            ).map_values(|c: char| seq![c]),
    {
        let ghost pred = |c: char| !self@.has_guessed(c);
        let ghost single = |c: char| seq![c];
        let mut r: Vec<String> = Vec::new();
        proof {
            assert(alphabet().take(0) =~= Seq::<char>::empty());
            assert(r@.map_values(|s: String| s@) =~= alphabet().take(0).filter(pred).map_values(
                single,
            )) by {
                reveal(Seq::filter);
            }
        }
        let mut i: u8 = 0;
        while i < 26
            invariant
                i <= 26,
                pred == (|c: char| !self@.has_guessed(c)),
                single == (|c: char| seq![c]),
                r@.map_values(|s: String| s@) == alphabet().take(i as int).filter(pred).map_values(
                    single,
                ),
            decreases 26 - i,
        {
            let c = ((65 + i) as u8) as char;
            proof {
                assert(alphabet()[i as int] == c);
                assert(alphabet().take(i + 1).drop_last() =~= alphabet().take(i as int));
                assert(alphabet().take(i + 1).last() == c);
                reveal(Seq::filter);
                if pred(c) {
                    assert(alphabet().take(i + 1).filter(pred) == alphabet().take(
                        i as int,
                    ).filter(pred).push(c));
                } else {
                    assert(alphabet().take(i + 1).filter(pred) == alphabet().take(
                        i as int,
                    ).filter(pred));
                }
            }
            if !self.is_already_guessed(c) {
                let ghost prior = r@;
                r.push(char_to_string(c));
                proof {
                    assert(r@ =~= prior.push(r@[prior.len() as int]));
                    assert(r@.map_values(|s: String| s@) =~= prior.map_values(
                        |s: String| s@,
                    ).push(seq![c]));
                    assert(r@.map_values(|s: String| s@) =~= alphabet().take(i + 1).filter(
                        pred,
                    ).map_values(single));
                }
            } else {
                proof {
                    assert(r@.map_values(|s: String| s@) =~= alphabet().take(i + 1).filter(
                        pred,
                    ).map_values(single));
                }
            }
            i = i + 1;
        }
        proof {
            assert(alphabet().take(26) =~= alphabet());
        }
        r
    }

    /// The secret word with every unguessed letter replaced by the
    /// placeholder `"_"`; position by position the true letter shows
    /// exactly where it has been guessed.
    pub fn blanked_out_letters(&self) -> (r: Vec<String>)
        ensures
            r@.len() == self@.word.len(),
            forall|i: int|
                0 <= i < r@.len() ==> (#[trigger] r@[i])@ == (if self@.has_guessed(self@.word[i]) {
                    seq![self@.word[i]]
                } else {
                    seq!['_']
                }),
    {
        let mut r: Vec<String> = Vec::new();
        let mut i: usize = 0;
        while i < self.word.len()
            invariant
                i <= self@.word.len(),
                r@.len() == i,
                forall|k: int|
                    0 <= k < i ==> (#[trigger] r@[k])@ == (if self@.has_guessed(self@.word[k]) {
                        seq![self@.word[k]]
                    } else {
                        seq!['_']
                    }),
            decreases self@.word.len() - i,
        {
            let c = self.word[i];
            if self.is_already_guessed(c) {
                r.push(char_to_string(c));
            } else {
                let underscore = String::from_str("_");
                proof {
                    reveal_strlit("_");
                    assert(underscore@ =~= seq!['_']);
                }
                r.push(underscore);
            }
            i = i + 1;
        }
        r
    }
}

/// How often a letter occurs in a sequence.
pub open spec fn count_occurrences(s: Seq<char>, c: char) -> nat
    decreases s.len(),
{
    if s.len() == 0 {
        0
    } else {
        count_occurrences(s.drop_last(), c) + if s.last() == c {
            1nat
        } else {
            0nat
        }
    }
}

/// A letter that never occurs is counted zero times.
proof fn lemma_count_occurrences_zero(s: Seq<char>, c: char)
    requires
        !s.contains(c),
    ensures
        count_occurrences(s, c) == 0,
    decreases s.len(),
{
    if s.len() > 0 {
        assert(!s.drop_last().contains(c)) by {
            if s.drop_last().contains(c) {
                let i = choose|i: int| 0 <= i < s.drop_last().len() && s.drop_last()[i] == c;
                assert(s[i] == c);
            }
        }
        lemma_count_occurrences_zero(s.drop_last(), c);
    }
}

/// A letter that occurs, but never at two positions, is counted exactly
/// once.
proof fn lemma_count_occurrences_unique(s: Seq<char>, c: char)
    requires
        s.contains(c),
        forall|i: int, j: int| 0 <= i < j < s.len() ==> !(s[i] == c && s[j] == c),
    ensures
        count_occurrences(s, c) == 1,
    decreases s.len(),
{
    if s.last() == c {
        assert(!s.drop_last().contains(c)) by {
            if s.drop_last().contains(c) {
                let i = choose|i: int| 0 <= i < s.drop_last().len() && s.drop_last()[i] == c;
                assert(s[i] == c && s[s.len() - 1] == c);
            }
        }
        lemma_count_occurrences_zero(s.drop_last(), c);
    } else {
        let i = choose|i: int| 0 <= i < s.len() && s[i] == c;
        assert(s.drop_last()[i] == c);
        assert(forall|i: int, j: int|
            0 <= i < j < s.drop_last().len() ==> !((#[trigger] s.drop_last()[i]) == c && (
            #[trigger] s.drop_last()[j]) == c));
        lemma_count_occurrences_unique(s.drop_last(), c);
    }
}

/// Once a letter has been accepted it stands in the history exactly
/// once: guessing it again is rejected rather than recorded twice.
pub proof fn lemma_guessed_letter_appears_once(g: GameView, c: char)
    requires
        g.wf(),
        g.has_guessed(c),
    ensures
        count_occurrences(g.guessed(), c) == 1,
{
    let guessed = g.guessed();
    assert(forall|k: int| 0 <= k < guessed.len() ==> (#[trigger] guessed[k]) == g.guesses[k].0);
    assert(forall|i: int, j: int|
        0 <= i < j < guessed.len() ==> !((#[trigger] guessed[i]) == c && (#[trigger] guessed[j])
            == c));
    lemma_count_occurrences_unique(guessed, c);
}

/// Lives never grow, and as a natural number they never go below zero:
/// one guess leaves the lives in `[0, lives]`.
pub proof fn lemma_lives_monotonic(g: GameView, guess: Seq<char>)
    requires
        g.wf(),
    ensures
        g.next_after(guess).lives <= g.lives,
{
}

/// A complete round is frozen: every further guess is rejected with
/// `GameComplete` and nothing about the round changes.
pub proof fn lemma_complete_round_is_frozen(g: GameView, guess: Seq<char>)
    requires
        g.status is Complete,
    ensures
        g.outcome_of(guess) == Err::<MakeGuessSuccess, MakeGuessError>(MakeGuessError::GameComplete),
        g.next_after(guess) == g,
{
}

/// Win and loss determination: a well-formed round is won exactly when
/// every letter of the word has been guessed, lost exactly when the
/// lives ran out before that happened, and in progress otherwise.
pub proof fn lemma_status_determination(g: GameView)
    requires
        g.wf(),
    ensures
        (g.status == GameStatus::Complete(CompleteGameStatus::Won)) <==> g.all_letters_guessed(),
        (g.status == GameStatus::Complete(CompleteGameStatus::Lost)) <==> (
        !g.all_letters_guessed() && g.lives == 0),
        (g.status == GameStatus::InProgress) <==> (!g.all_letters_guessed() && g.lives > 0),
{
}

} // verus!

