//! Text as the protocol sees it: white space, the words of a line, the
//! upper-case form of a word, what a line holds without its terminator, and
//! the bytes that carry a line.

use vstd::prelude::*;
use vstd::utf8::{
    decode_utf8, encode_utf8, encode_utf8_decode_utf8, encode_utf8_valid_utf8, is_ascii_chars,
    is_ascii_chars_encode_utf8, valid_utf8,
};

verus! {

/// Whether `c` is white space: a character with the Unicode property
/// `White_Space`.
pub open spec fn is_space(c: char) -> bool {
    let code = c as u32;
    ||| 0x09 <= code <= 0x0D
    ||| code == 0x20
    ||| code == 0x85
    ||| code == 0xA0
    ||| code == 0x1680
    ||| 0x2000 <= code <= 0x200A
    ||| code == 0x2028
    ||| code == 0x2029
    ||| code == 0x202F
    ||| code == 0x205F
    ||| code == 0x3000
}

/// Whether no character of `text` is white space.
pub open spec fn is_solid(text: Seq<char>) -> bool {
    forall|i: int| 0 <= i < text.len() ==> !is_space(#[trigger] text[i])
}

/// The number of characters before the first white space of `text`, or the
/// length of `text` if it holds none.
pub open spec fn word_len(text: Seq<char>) -> nat
    decreases text.len(),
{
    if text.len() == 0 || is_space(text[0]) {
        0
    } else {
        1 + word_len(text.skip(1))
    }
}

/// The words of `text`: its maximal runs of characters that are not white
/// space, from left to right.
pub open spec fn words(text: Seq<char>) -> Seq<Seq<char>>
    decreases text.len(),
    via words_decreases
{
    if text.len() == 0 {
        Seq::empty()
    } else if is_space(text[0]) {
        words(text.skip(1))
    } else {
        seq![text.take(word_len(text) as int)] + words(text.skip(word_len(text) as int))
    }
}

#[via_fn]
proof fn words_decreases(text: Seq<char>) {
    lemma_word_len_bound(text);
}

/// Tells whether `c` is white space.
pub fn is_white_space(c: char) -> (white: bool)
    ensures
        white == is_space(c),
{
    let code = c as u32;
    (0x09 <= code && code <= 0x0D) || code == 0x20 || code == 0x85 || code == 0xA0 || code
        == 0x1680 || (0x2000 <= code && code <= 0x200A) || code == 0x2028 || code == 0x2029
        || code == 0x202F || code == 0x205F || code == 0x3000
}

/// The upper-case form of `text`, as `str::to_uppercase` gives it.
pub uninterp spec fn uppercase(text: Seq<char>) -> Seq<char>;

/// `str::to_uppercase`, which maps each character to its Unicode upper-case
/// form. The result depends on the text alone; `uppercase` is the name of it.
pub assume_specification[ str::to_uppercase ](text: &str) -> (upper: String)
    ensures
        upper@ == uppercase(text@),
;

/// `PartialEq::eq` of `str`, the `==` of string slices, which holds when both
/// hold the same characters.
pub assume_specification[ <str as PartialEq>::eq ](first: &str, second: &str) -> (same: bool)
    ensures
        same == (first@ == second@),
;

/// `String::push`, which appends one character to the end of a string.
pub assume_specification[ String::push ](text: &mut String, c: char)
    ensures
        final(text)@ == old(text)@.push(c),
;

/// A word never runs past the end of the text.
pub proof fn lemma_word_len_bound(text: Seq<char>)
    ensures
        word_len(text) <= text.len(),
    decreases text.len(),
{
    if text.len() > 0 && !is_space(text[0]) {
        lemma_word_len_bound(text.skip(1));
    }
}

/// A run of characters without white space, followed by nothing or by white
/// space, is one word.
proof fn lemma_word_len_of_run(run: Seq<char>, rest: Seq<char>)
    requires
        is_solid(run),
        rest.len() == 0 || is_space(rest[0]),
    ensures
        word_len(run + rest) == run.len(),
    decreases run.len(),
{
    if run.len() > 0 {
        assert((run + rest).skip(1) =~= run.skip(1) + rest);
        assert(is_solid(run.skip(1)));
        lemma_word_len_of_run(run.skip(1), rest);
    }
}

/// The words of a text that starts with a run of characters without white
/// space, followed by nothing or by white space: the run, then the words of
/// what follows.
proof fn lemma_words_after_run(run: Seq<char>, rest: Seq<char>)
    requires
        run.len() > 0,
        is_solid(run),
        rest.len() == 0 || is_space(rest[0]),
    ensures
        words(run + rest) == seq![run] + words(rest),
{
    lemma_word_len_of_run(run, rest);
    assert((run + rest).take(run.len() as int) =~= run);
    assert((run + rest).skip(run.len() as int) =~= rest);
}

/// Whether every character of `text` is white space.
pub open spec fn is_blank(text: Seq<char>) -> bool {
    forall|i: int| 0 <= i < text.len() ==> is_space(#[trigger] text[i])
}

/// A text has no words exactly if it is empty or all white space.
pub proof fn lemma_no_words_iff_blank(text: Seq<char>)
    ensures
        words(text).len() == 0 <==> is_blank(text),
    decreases text.len(),
{
    if text.len() > 0 && is_space(text[0]) {
        let rest = text.skip(1);
        lemma_no_words_iff_blank(rest);
        if is_blank(rest) {
            assert forall|i: int| 0 <= i < text.len() implies is_space(#[trigger] text[i]) by {
                if i > 0 {
                    assert(text[i] == rest[i - 1]);
                }
            }
        }
        if is_blank(text) {
            assert forall|i: int| 0 <= i < rest.len() implies is_space(#[trigger] rest[i]) by {
                assert(rest[i] == text[i + 1]);
            }
        }
    }
}

/// The first word of a text that does not start with white space holds no
/// white space, and at least one character.
proof fn lemma_first_word_is_solid(text: Seq<char>)
    requires
        text.len() > 0,
        !is_space(text[0]),
    ensures
        1 <= word_len(text) <= text.len(),
        is_solid(text.take(word_len(text) as int)),
    decreases text.len(),
{
    let rest = text.skip(1);
    lemma_word_len_bound(rest);
    if rest.len() > 0 && !is_space(rest[0]) {
        lemma_first_word_is_solid(rest);
        let word = text.take(word_len(text) as int);
        assert forall|i: int| 0 <= i < word.len() implies !is_space(#[trigger] word[i]) by {
            if i > 0 {
                assert(word[i] == rest.take(word_len(rest) as int)[i - 1]);
            }
        }
    }
}

/// Every word holds at least one character and no white space.
pub proof fn lemma_words_are_solid(text: Seq<char>)
    ensures
        forall|i: int|
            0 <= i < words(text).len() ==> (#[trigger] words(text)[i]).len() > 0 && is_solid(
                words(text)[i],
            ),
    decreases text.len(),
{
    if text.len() > 0 {
        if is_space(text[0]) {
            lemma_words_are_solid(text.skip(1));
            assert(words(text) == words(text.skip(1)));
        } else {
            let first = text.take(word_len(text) as int);
            let others = words(text.skip(word_len(text) as int));
            lemma_first_word_is_solid(text);
            lemma_words_are_solid(text.skip(word_len(text) as int));
            assert forall|i: int| 0 <= i < words(text).len() implies (#[trigger] words(
                text,
            )[i]).len() > 0 && is_solid(words(text)[i]) by {
                if i == 0 {
                    assert(words(text)[0] == first);
                } else {
                    assert(words(text)[i] == others[i - 1]);
                }
            }
        }
    }
}

/// The test that a character passes if it is not white space.
pub open spec fn not_space() -> spec_fn(char) -> bool {
    |c: char| !is_space(c)
}

/// A text without white space keeps all its characters when the white space
/// is taken out of it.
proof fn lemma_solid_text_is_kept(text: Seq<char>)
    requires
        is_solid(text),
    ensures
        text.filter(not_space()) == text,
    decreases text.len(),
{
    reveal(Seq::filter);
    if text.len() > 0 {
        lemma_solid_text_is_kept(text.drop_last());
        assert(text.drop_last().push(text.last()) =~= text);
    }
}

/// The words hold the characters of the text that are not white space, all
/// of them and in the order of the text.
pub proof fn lemma_words_keep_the_characters(text: Seq<char>)
    ensures
        words(text).flatten() == text.filter(not_space()),
    decreases text.len(),
{
    if text.len() == 0 {
        reveal(Seq::filter);
    } else if is_space(text[0]) {
        let head = seq![text[0]];
        lemma_words_keep_the_characters(text.skip(1));
        assert(text =~= head + text.skip(1));
        Seq::filter_distributes_over_add(head, text.skip(1), not_space());
        assert(head.filter(not_space()) =~= Seq::<char>::empty()) by {
            reveal_with_fuel(Seq::filter, 2);
        }
    } else {
        let word = text.take(word_len(text) as int);
        let rest = text.skip(word_len(text) as int);
        lemma_first_word_is_solid(text);
        lemma_words_keep_the_characters(rest);
        lemma_solid_text_is_kept(word);
        assert(text =~= word + rest);
        Seq::filter_distributes_over_add(word, rest, not_space());
        vstd::seq_lib::lemma_flatten_concat(seq![word], words(rest));
        seq![word].lemma_flatten_one_element();
    }
}

/// Splits a line into its words.
pub fn split_words(line: &str) -> (found: Vec<String>)
    ensures
        found.deep_view() == words(line@),
{
    let mut found: Vec<String> = Vec::new();
    let mut current = String::new();
    assert(current@ + line@.skip(0) =~= line@);
    for c in it: line.chars()
        invariant
            it.seq() == line@,
            is_solid(current@),
            words(line@) == found.deep_view() + words(current@ + line@.skip(it.index() as int)),
    {
        let ghost rest = line@.skip(it.index() as int);
        let ghost tail = line@.skip(it.index() + 1);
        assert(rest =~= seq![c] + tail);
        assert(rest.skip(1) =~= tail);
        if is_white_space(c) {
            if !current.as_str().is_empty() {
                proof {
                    lemma_words_after_run(current@, rest);
                }
                found.push(current);
                current = String::new();
            }
            assert(current@ + tail =~= tail);
        } else {
            let ghost before = current@;
            current.push(c);
            assert(current@ + tail =~= before + rest);
        }
    }
    if !current.as_str().is_empty() {
        proof {
            lemma_words_after_run(current@, Seq::<char>::empty());
        }
        found.push(current);
    }
    found
}

/// What a line holds: the line without the line feed at its end, and without
/// a carriage return before that line feed. A line that does not end in a
/// line feed holds all of itself.
pub open spec fn content(line: Seq<char>) -> Seq<char> {
    if line.len() > 0 && line.last() == '\n' {
        let rest = line.drop_last();
        if rest.len() > 0 && rest.last() == '\r' {
            rest.drop_last()
        } else {
            rest
        }
    } else {
        line
    }
}

/// A text that is ended by a line feed, or by a carriage return and a line
/// feed, is what the line holds, unless the text itself ends in a carriage
/// return, which then belongs to the terminator.
pub proof fn lemma_content_of_terminated_line(text: Seq<char>)
    ensures
        content(text.push('\r').push('\n')) == text,
        text.len() == 0 || text.last() != '\r' ==> content(text.push('\n')) == text,
{
    assert(text.push('\r').push('\n').drop_last() =~= text.push('\r'));
    assert(text.push('\r').drop_last() =~= text);
    assert(text.push('\n').drop_last() =~= text);
}

/// Gives what a line holds: the line without its terminator.
pub fn trim_line_end(line: &str) -> (text: &str)
    ensures
        text@ == content(line@),
{
    let length = line.unicode_len();
    if length > 0 && line.get_char(length - 1) == '\n' {
        if length > 1 && line.get_char(length - 2) == '\r' {
            line.substring_char(0, length - 2)
        } else {
            line.substring_char(0, length - 1)
        }
    } else {
        line
    }
}

/// The bytes that carry `text` as one line: its UTF-8 form, then a line feed.
pub open spec fn line_bytes(text: Seq<char>) -> Seq<u8> {
    encode_utf8(text) + seq![0x0Au8]
}

/// The UTF-8 form of two texts, one after the other, is the UTF-8 form of the
/// first followed by that of the second.
proof fn lemma_encode_utf8_of_both(first: Seq<char>, second: Seq<char>)
    ensures
        encode_utf8(first + second) == encode_utf8(first) + encode_utf8(second),
    decreases first.len(),
{
    if first.len() == 0 {
        assert(first + second =~= second);
    } else {
        lemma_encode_utf8_of_both(first.drop_first(), second);
        assert((first + second).drop_first() =~= first.drop_first() + second);
    }
}

/// The bytes that carry a text as one line are valid UTF-8, and stand for the
/// text with a line feed after it.
pub proof fn lemma_line_bytes_decode(text: Seq<char>)
    ensures
        valid_utf8(line_bytes(text)),
        decode_utf8(line_bytes(text)) == text.push('\n'),
{
    let feed = seq!['\n'];
    assert(is_ascii_chars(feed));
    is_ascii_chars_encode_utf8(feed);
    assert(encode_utf8(feed) =~= seq![0x0Au8]);
    lemma_encode_utf8_of_both(text, feed);
    assert(text + feed =~= text.push('\n'));
    encode_utf8_valid_utf8(text.push('\n'));
    encode_utf8_decode_utf8(text.push('\n'));
}

/// Makes the bytes that carry `text` as one line.
pub fn frame(text: &str) -> (bytes: Vec<u8>)
    ensures
        bytes@ == line_bytes(text@),
{
    let mut bytes = text.as_bytes_vec();
    bytes.push(0x0Au8);
    bytes
}

} // verus!
