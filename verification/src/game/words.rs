//! The word source: parsing and filtering a word list, and drawing a
//! random word from it.
//!
//! A word list arrives as plain text, one entry per line. An entry is
//! kept for play when, trimmed of surrounding blanks and uppercased, it
//! is long enough and consists of uppercase ASCII letters only.

use rand::Rng;
use vstd::prelude::*;
use vstd::string::StrSliceExecFns;

use crate::{is_upper_letter, to_upper_char, upper_char, upper_seq};

verus! {

/// A character that ends a line of the word list.
pub open spec fn is_line_break(c: char) -> bool {
    c == '\r' || c == '\n'
}

/// A blank trimmed from the ends of an entry.
pub open spec fn is_blank(c: char) -> bool {
    c == ' ' || c == '\t'
}

/// The text split at line breaks; neighbouring breaks and the text's
/// ends yield empty segments, so there is always at least one segment.
pub open spec fn split_lines(s: Seq<char>) -> Seq<Seq<char>>
    decreases s.len(),
{
    if s.len() == 0 {
        seq![Seq::<char>::empty()]
    } else if is_line_break(s.last()) {
        split_lines(s.drop_last()).push(Seq::<char>::empty())
    } else {
        let r = split_lines(s.drop_last());
        r.update(r.len() - 1, r.last().push(s.last()))
    }
}

/// Leading blanks removed.
pub open spec fn trim_start_spec(s: Seq<char>) -> Seq<char>
    decreases s.len(),
{
    if s.len() > 0 && is_blank(s.first()) {
        trim_start_spec(s.drop_first())
    } else {
        s
    }
}

/// Trailing blanks removed.
pub open spec fn trim_end_spec(s: Seq<char>) -> Seq<char>
    decreases s.len(),
{
    if s.len() > 0 && is_blank(s.last()) {
        trim_end_spec(s.drop_last())
    } else {
        s
    }
}

/// Surrounding blanks removed.
pub open spec fn trim_spec(s: Seq<char>) -> Seq<char> {
    trim_end_spec(trim_start_spec(s))
}

/// The candidate a line of the list offers: the line trimmed of blanks
/// and uppercased.
pub open spec fn candidate_of(line: Seq<char>) -> Seq<char> {
    upper_seq(trim_spec(line))
}

/// A word fit for a round: non-empty and all uppercase ASCII letters.
pub open spec fn valid_word(w: Seq<char>) -> bool {
    w.len() > 0 && forall|i: int| 0 <= i < w.len() ==> is_upper_letter(#[trigger] w[i])
}

/// A list every entry of which is fit for a round.
pub open spec fn valid_word_list(ws: Seq<String>) -> bool {
    forall|i: int| 0 <= i < ws.len() ==> valid_word((#[trigger] ws[i])@)
}

/// Whether a line's candidate is kept for play: long enough and made of
/// uppercase ASCII letters only.
pub open spec fn keeps(line: Seq<char>, min: nat) -> bool {
    let w = candidate_of(line);
    w.len() >= min && forall|i: int| 0 <= i < w.len() ==> is_upper_letter(#[trigger] w[i])
}

/// The playable words a text offers, in the order of their lines.
pub open spec fn words_of(text: Seq<char>, min: nat) -> Seq<Seq<char>> {
    kept_candidates(split_lines(text), min)
}

/// The kept candidates of a sequence of lines, in order.
pub open spec fn kept_candidates(lines: Seq<Seq<char>>, min: nat) -> Seq<Seq<char>> {
    lines.filter(|l: Seq<char>| keeps(l, min)).map_values(|l: Seq<char>| candidate_of(l))
}

/// Executable check for a blank, matching [`is_blank`].
fn is_blank_char(c: char) -> (r: bool)
    ensures
        r == is_blank(c),
{
    c == ' ' || c == '\t'
}

/// Removing the longest blank prefix is what [`trim_start_spec`] does.
proof fn lemma_trim_start_skip(s: Seq<char>, k: int)
    requires
        0 <= k <= s.len(),
        forall|j: int| 0 <= j < k ==> is_blank(#[trigger] s[j]),
        k < s.len() ==> !is_blank(s[k]),
    ensures
        trim_start_spec(s) == s.skip(k),
    decreases k,
{
    if k == 0 {
        assert(s.skip(0) =~= s);
    } else {
        assert(is_blank(s.first()));
        lemma_trim_start_skip(s.drop_first(), k - 1);
        assert(s.drop_first() =~= s.skip(1));
        assert(s.skip(1).skip(k - 1) =~= s.skip(k));
    }
}

/// Removing the longest blank suffix is what [`trim_end_spec`] does.
proof fn lemma_trim_end_take(s: Seq<char>, e: int)
    requires
        0 <= e <= s.len(),
        forall|j: int| e <= j < s.len() ==> is_blank(#[trigger] s[j]),
        e > 0 ==> !is_blank(s[e - 1]),
    ensures
        trim_end_spec(s) == s.take(e),
    decreases s.len() - e,
{
    if e == s.len() {
        assert(s.take(e) =~= s);
    } else {
        assert(is_blank(s.last()));
        lemma_trim_end_take(s.drop_last(), e);
        assert(s.drop_last() =~= s.take(s.len() - 1));
        assert(s.take(s.len() - 1).take(e) =~= s.take(e));
    }
}

/// The candidate a finished line offers, when it is kept: `Some` with
/// the trimmed, uppercased word exactly when the line passes the
/// length and letter filters.
fn playable_candidate(line: &Vec<char>, minimum_word_length: usize) -> (r: Option<String>)
    ensures
        r is Some <==> keeps(line@, minimum_word_length as nat),
        r is Some ==> r->0@ == candidate_of(line@),
{
    let n = line.len();
    let mut start: usize = 0;
    while start < n && is_blank_char(line[start])
        invariant
            start <= n,
            n == line@.len(),
            forall|j: int| 0 <= j < start ==> is_blank(#[trigger] line@[j]),
        decreases n - start,
    {
        start = start + 1;
    }
    let mut end: usize = n;
    while end > start && is_blank_char(line[end - 1])
        invariant
            start <= end <= n,
            n == line@.len(),
            forall|j: int| end <= j < n ==> is_blank(#[trigger] line@[j]),
        decreases end,
    {
        end = end - 1;
    }
    proof {
        lemma_trim_start_skip(line@, start as int);
        lemma_trim_end_take(line@.skip(start as int), end - start as int);
        assert(line@.skip(start as int).take(end - start as int) =~= line@.subrange(
            start as int,
            end as int,
        ));
        assert(trim_spec(line@) == line@.subrange(start as int, end as int));
    }
    let ghost cand = candidate_of(line@);
    proof {
        assert(cand.len() == end - start as int);
    }
    if end - start < minimum_word_length {
        return None;
    }
    let mut w = String::new();
    let mut j = start;
    while j < end
        invariant
            start <= j <= end <= n,
            n == line@.len(),
            cand == candidate_of(line@),
            cand.len() == end - start as int,
            trim_spec(line@) == line@.subrange(start as int, end as int),
            w@ == cand.take(j - start as int),
            forall|k: int| 0 <= k < j - start ==> is_upper_letter(#[trigger] cand[k]),
        decreases end - j,
    {
        let u = to_upper_char(line[j]);
        proof {
            assert(cand[j - start as int] == upper_char(line@.subrange(start as int, end as int)[j
                - start as int]));
            assert(cand[j - start as int] == u);
        }
        if !crate::is_upper_letter_char(u) {
            return None;
        }
        crate::push_char(&mut w, u);
        proof {
            assert(w@ =~= cand.take(j + 1 - start as int));
        }
        j = j + 1;
    }
    proof {
        assert(w@ =~= cand);
    }
    Some(w)
}

/// Closing one more line either appends its candidate or leaves the
/// kept words as they were.
proof fn lemma_kept_candidates_push(lines: Seq<Seq<char>>, x: Seq<char>, min: nat)
    ensures
        keeps(x, min) ==> kept_candidates(lines.push(x), min) == kept_candidates(
            lines,
            min,
        ).push(candidate_of(x)),
        !keeps(x, min) ==> kept_candidates(lines.push(x), min) == kept_candidates(lines, min),
{
    reveal(Seq::filter);
    let pred = |l: Seq<char>| keeps(l, min);
    assert(lines.push(x).drop_last() =~= lines);
    assert(lines.push(x).last() == x);
    if keeps(x, min) {
        assert(lines.push(x).filter(pred) == lines.filter(pred).push(x));
        assert(kept_candidates(lines.push(x), min) =~= kept_candidates(lines, min).push(
            candidate_of(x),
        ));
    }
}

/// Parses a word list: one entry per line, each trimmed of surrounding
/// blanks and uppercased, kept exactly when it reaches the minimum
/// length and consists of uppercase ASCII letters only.
pub fn read_words(text: &str, minimum_word_length: usize) -> (r: Vec<String>)
    requires
        minimum_word_length >= 1,
    ensures
        r@.map_values(|w: String| w@) == words_of(text@, minimum_word_length as nat),
        valid_word_list(r@),
        forall|i: int| 0 <= i < r@.len() ==> (#[trigger] r@[i])@.len() >= minimum_word_length,
{
    let ghost min = minimum_word_length as nat;
    let n = text.unicode_len();
    let mut words: Vec<String> = Vec::new();
    let mut line: Vec<char> = Vec::new();
    let ghost mut done: Seq<Seq<char>> = Seq::empty();
    proof {
        assert(text@.take(0) =~= Seq::<char>::empty());
        assert(done.push(line@) =~= seq![Seq::<char>::empty()]);
        assert(kept_candidates(done, min) =~= words@.map_values(|w: String| w@)) by {
            reveal(Seq::filter);
        }
    }
    let mut i: usize = 0;
    while i < n
        invariant
            i <= n,
            n == text@.len(),
            minimum_word_length >= 1,
            min == minimum_word_length as nat,
            split_lines(text@.take(i as int)) == done.push(line@),
            words@.map_values(|w: String| w@) == kept_candidates(done, min),
            valid_word_list(words@),
            forall|k: int| 0 <= k < words@.len() ==> (#[trigger] words@[k])@.len()
                >= minimum_word_length,
        decreases n - i,
    {
        let c = text.get_char(i);
        proof {
            assert(text@.take(i + 1).drop_last() =~= text@.take(i as int));
            assert(text@.take(i + 1).last() == text@[i as int]);
        }
        if c == '\r' || c == '\n' {
            proof {
                lemma_kept_candidates_push(done, line@, min);
            }
            if let Some(w) = playable_candidate(&line, minimum_word_length) {
                proof {
                    assert(valid_word(w@));
                }
                words.push(w);
            }
            proof {
                done = done.push(line@);
            }
            line = Vec::new();
            proof {
                assert(split_lines(text@.take(i + 1)) == done.push(line@));
                assert(words@.map_values(|w: String| w@) =~= kept_candidates(done, min));
            }
        } else {
            let ghost prior = split_lines(text@.take(i as int));
            line.push(c);
            proof {
                assert(split_lines(text@.take(i + 1)) == prior.update(
                    prior.len() - 1,
                    prior.last().push(c),
                ));
                assert(prior.update(prior.len() - 1, prior.last().push(c)) =~= done.push(line@));
            }
        }
        i = i + 1;
    }
    proof {
        assert(text@.take(n as int) =~= text@);
        lemma_kept_candidates_push(done, line@, min);
    }
    if let Some(w) = playable_candidate(&line, minimum_word_length) {
        proof {
            assert(valid_word(w@));
        }
        words.push(w);
    }
    proof {
        assert(words@.map_values(|w: String| w@) =~= words_of(text@, min));
    }
    words
}

/// Relies on rand's `thread_rng` and `Rng::sample` over a
/// `Uniform::new(0, bound)` distribution: the drawn value lies in
/// `[0, bound)`. `Uniform::new` panics on an empty range, so the bound
/// must be positive.
#[verifier::external_body]
fn random_index(bound: usize) -> (r: usize)
    requires
        bound > 0,
    ensures
        r < bound,
{
    rand::thread_rng().sample(rand::distributions::Uniform::new(0usize, bound))
}

/// A word drawn from the list at random; nothing more is promised than
/// that it is one of the list's entries.
pub fn random_word(words: &Vec<String>) -> (r: String)
    requires
        words@.len() > 0,
    ensures
        exists|i: int| 0 <= i < words@.len() && r == words@[i],
{
    let index = random_index(words.len());
    let w = words[index].clone();
    proof {
        assert(w == words@[index as int]);
    }
    w
}

} // verus!
