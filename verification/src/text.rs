//! What the library needs to say about text: where a pattern first occurs,
//! how a line falls apart into words, how a number reads in decimal.
//!
//! Splitting, upper case and the `Debug` form of a list are the standard
//! library's work: the functions that call it state what it does, and that
//! statement is taken on trust.

use vstd::prelude::*;
use vstd::string::*;

verus! {

/// `pattern` stands in `text` at index `at`.
pub open spec fn occurs_at(text: Seq<char>, pattern: Seq<char>, at: int) -> bool {
    0 <= at && at + pattern.len() <= text.len() && text.subrange(at, at + pattern.len())
        == pattern
}

/// `pattern` stands somewhere in `text`.
pub open spec fn contains(text: Seq<char>, pattern: Seq<char>) -> bool {
    exists|at: int| occurs_at(text, pattern, at)
}

/// `pattern` stands in `text` at index `at` and nowhere before.
pub open spec fn is_first_occurrence(text: Seq<char>, pattern: Seq<char>, at: int) -> bool {
    occurs_at(text, pattern, at) && forall|before: int|
        0 <= before < at ==> !occurs_at(text, pattern, before)
}

/// The index at which `pattern` first stands in `text`; meaningful where
/// `contains(text, pattern)`.
pub open spec fn first_occurrence(text: Seq<char>, pattern: Seq<char>) -> int {
    choose|at: int| is_first_occurrence(text, pattern, at)
}

/// The part of `text` behind the first occurrence of `pattern`.
pub open spec fn after_first(text: Seq<char>, pattern: Seq<char>) -> Seq<char> {
    text.subrange(first_occurrence(text, pattern) + pattern.len(), text.len() as int)
}

proof fn lemma_least_occurrence(text: Seq<char>, pattern: Seq<char>, at: int)
    requires
        occurs_at(text, pattern, at),
    ensures
        exists|first: int| is_first_occurrence(text, pattern, first),
    decreases at,
{
    if exists|before: int| 0 <= before < at && occurs_at(text, pattern, before) {
        let before = choose|before: int| 0 <= before < at && occurs_at(text, pattern, before);
        lemma_least_occurrence(text, pattern, before);
    } else {
        assert(is_first_occurrence(text, pattern, at));
    }
}

/// A pattern that occurs has a first occurrence, and `first_occurrence` is it.
pub proof fn lemma_first_occurrence(text: Seq<char>, pattern: Seq<char>)
    requires
        contains(text, pattern),
    ensures
        is_first_occurrence(text, pattern, first_occurrence(text, pattern)),
{
    let at = choose|at: int| occurs_at(text, pattern, at);
    lemma_least_occurrence(text, pattern, at);
}

/// There is only one first occurrence.
pub proof fn lemma_first_occurrence_unique(text: Seq<char>, pattern: Seq<char>, at: int)
    requires
        is_first_occurrence(text, pattern, at),
    ensures
        first_occurrence(text, pattern) == at,
{
    let chosen = first_occurrence(text, pattern);
    assert(is_first_occurrence(text, pattern, chosen));
    if chosen < at {
        assert(!occurs_at(text, pattern, chosen));
    } else if at < chosen {
        assert(!occurs_at(text, pattern, at));
    }
}

/// The characters with the Unicode property `White_Space`.
pub open spec fn white_space(c: char) -> bool {
    ||| '\u{9}' <= c <= '\u{d}'
    ||| c == ' '
    ||| c == '\u{85}'
    ||| c == '\u{a0}'
    ||| c == '\u{1680}'
    ||| '\u{2000}' <= c <= '\u{200a}'
    ||| c == '\u{2028}'
    ||| c == '\u{2029}'
    ||| c == '\u{202f}'
    ||| c == '\u{205f}'
    ||| c == '\u{3000}'
}

/// No character of `text` is white space.
pub open spec fn solid(text: Seq<char>) -> bool {
    forall|i: int| 0 <= i < text.len() ==> !white_space(#[trigger] text[i])
}

/// The number of characters at the head of `text` before the first white
/// space, or its end.
pub open spec fn word_length(text: Seq<char>) -> nat
    decreases text.len(),
{
    if text.len() == 0 || white_space(text[0]) {
        0
    } else {
        1 + word_length(text.drop_first())
    }
}

/// The words of `text`: its longest runs of characters that are not white
/// space, in order.
pub open spec fn words(text: Seq<char>) -> Seq<Seq<char>>
    decreases text.len(),
    via words_terminates
{
    if text.len() == 0 {
        Seq::empty()
    } else if white_space(text[0]) {
        words(text.drop_first())
    } else {
        let length = word_length(text) as int;
        seq![text.take(length)] + words(text.skip(length))
    }
}

#[via_fn]
proof fn words_terminates(text: Seq<char>) {
    lemma_word_length_bounds(text);
}

/// A word is no longer than the text it heads, and not empty where the text
/// begins with something other than white space.
pub proof fn lemma_word_length_bounds(text: Seq<char>)
    ensures
        word_length(text) <= text.len(),
        text.len() > 0 && !white_space(text[0]) ==> word_length(text) >= 1,
    decreases text.len(),
{
    if text.len() > 0 && !white_space(text[0]) {
        lemma_word_length_bounds(text.drop_first());
    }
}

/// A run without white space that ends the text, or is followed by white
/// space, is a word of its own length.
pub proof fn lemma_word_length_of_run(word: Seq<char>, rest: Seq<char>)
    requires
        solid(word),
        rest.len() == 0 || white_space(rest[0]),
    ensures
        word_length(word + rest) == word.len(),
    decreases word.len(),
{
    let text = word + rest;
    if word.len() == 0 {
        assert(text =~= rest);
    } else {
        assert(text[0] == word[0]);
        assert(text.drop_first() =~= word.drop_first() + rest);
        assert forall|i: int| 0 <= i < word.drop_first().len() implies !white_space(
            #[trigger] word.drop_first()[i],
        ) by {
            assert(word.drop_first()[i] == word[i + 1]);
        }
        lemma_word_length_of_run(word.drop_first(), rest);
    }
}

/// A text that begins with a word and one white space falls apart into that
/// word and the words of what follows.
pub proof fn lemma_words_after_word(word: Seq<char>, gap: char, rest: Seq<char>)
    requires
        word.len() > 0,
        solid(word),
        white_space(gap),
    ensures
        words(word + seq![gap] + rest) == seq![word] + words(rest),
{
    let tail = seq![gap] + rest;
    let text = word + seq![gap] + rest;
    let length = word.len() as int;
    assert(text =~= word + tail);
    lemma_word_length_of_run(word, tail);
    assert(text[0] == word[0]);
    assert(!white_space(text[0]));
    assert(text.take(length) =~= word);
    assert(text.skip(length) =~= tail);
    assert(words(text) == seq![text.take(length)] + words(text.skip(length)));
    assert(tail[0] == gap);
    assert(tail.drop_first() =~= rest);
    assert(words(tail) == words(rest));
}

/// The ten decimal digits.
pub open spec fn digit(value: nat) -> char {
    seq!['0', '1', '2', '3', '4', '5', '6', '7', '8', '9'][value as int]
}

/// `n` written in decimal, without sign or leading zeros.
pub open spec fn decimal(n: nat) -> Seq<char>
    decreases n,
{
    if n < 10 {
        seq![digit(n)]
    } else {
        decimal(n / 10).push(digit(n % 10))
    }
}

/// The upper-case form of a text, as `str::to_uppercase` of the standard
/// library gives it.
pub uninterp spec fn uppercase(text: Seq<char>) -> Seq<char>;

/// A list of texts in the standard library's `Debug` form: in square
/// brackets, each item quoted and escaped, separated by a comma and a space.
pub uninterp spec fn debug_list(items: Seq<Seq<char>>) -> Seq<char>;

/// Calls `str::to_uppercase`. Trusted: the result is the upper-case form of
/// the whole text, which `uppercase` names.
#[verifier::external_body]
pub(crate) fn to_uppercase(text: &str) -> (upper: String)
    ensures
        upper@ == uppercase(text@),
{
    text.to_uppercase()
}

/// Calls `str::split_once`. Trusted: the text is split at the first
/// occurrence of the delimiter, which belongs to neither part; without an
/// occurrence there is no split.
#[verifier::external_body]
pub(crate) fn split_once<'a>(text: &'a str, delimiter: &str) -> (parts: Option<(&'a str, &'a str)>)
    ensures
        parts is Some <==> contains(text@, delimiter@),
        parts matches Some((head, tail)) ==> exists|at: int|
            {
                &&& is_first_occurrence(text@, delimiter@, at)
                &&& head@ == text@.subrange(0, at)
                &&& tail@ == text@.subrange(at + delimiter@.len(), text@.len() as int)
            },
{
    text.split_once(delimiter)
}

/// Calls `str::split_whitespace`. Trusted: the items are the longest runs of
/// characters without the property `White_Space`, in the order of the text.
#[verifier::external_body]
pub(crate) fn split_whitespace(text: &str) -> (list: Vec<String>)
    ensures
        list.deep_view() == words(text@),
{
    text.split_whitespace().map(String::from).collect()
}

fn digit_text(value: usize) -> (text: &'static str)
    requires
        value < 10,
    ensures
        text@ == seq![digit(value as nat)],
{
    proof {
        reveal_strlit("0");
        reveal_strlit("1");
        reveal_strlit("2");
        reveal_strlit("3");
        reveal_strlit("4");
        reveal_strlit("5");
        reveal_strlit("6");
        reveal_strlit("7");
        reveal_strlit("8");
        reveal_strlit("9");
    }
    let text = match value {
        0 => "0",
        1 => "1",
        2 => "2",
        3 => "3",
        4 => "4",
        5 => "5",
        6 => "6",
        7 => "7",
        8 => "8",
        _ => "9",
    };
    assert(text@ =~= seq![digit(value as nat)]);
    text
}

/// Writes `n` in decimal.
pub fn to_decimal(n: usize) -> (text: String)
    ensures
        text@ == decimal(n as nat),
    decreases n,
{
    if n < 10 {
        String::from_str(digit_text(n))
    } else {
        let mut text = to_decimal(n / 10);
        text.append(digit_text(n % 10));
        assert(text@ =~= decimal(n as nat));
        text
    }
}

/// Formats a list of texts with `{:?}`. Trusted: the result depends on the
/// items alone; `debug_list` names it.
#[verifier::external_body]
pub(crate) fn format_debug_list(items: &Vec<String>) -> (text: String)
    ensures
        text@ == debug_list(items.deep_view()),
{
    format!("{:?}", items)
}

} // verus!
