//! The command line as typed: the kind of command and its argument.
//!
//! A line is read as words separated by white space. The first word names
//! the kind of command; the words after it, each followed by a line feed,
//! make up the argument.

use vstd::prelude::*;
use crate::error::{ConvertError, ParseError};
use crate::input::{kind_named, InputType};

verus! {

/// `String::push`: the character is appended to the string.
pub assume_specification[ String::push ](text: &mut String, ch: char)
    ensures
        final(text)@ == old(text)@.push(ch),
;

/// Whether `c` is white space: a character with the Unicode property
/// `White_Space`.
pub open spec fn is_space(c: char) -> bool {
    let code = c as u32;
    ||| 0x09 <= code <= 0x0d
    ||| code == 0x20
    ||| code == 0x85
    ||| code == 0xa0
    ||| code == 0x1680
    ||| 0x2000 <= code <= 0x200a
    ||| code == 0x2028
    ||| code == 0x2029
    ||| code == 0x202f
    ||| code == 0x205f
    ||| code == 0x3000
}

/// The first position at or after `from` that holds no white space, or the
/// end of the line.
pub open spec fn spaces_end(line: Seq<char>, from: int) -> int
    decreases line.len() - from,
{
    if 0 <= from < line.len() && is_space(line[from]) {
        spaces_end(line, from + 1)
    } else {
        from
    }
}

/// The first position at or after `from` that holds white space, or the end
/// of the line.
pub open spec fn word_end(line: Seq<char>, from: int) -> int
    decreases line.len() - from,
{
    if 0 <= from < line.len() && !is_space(line[from]) {
        word_end(line, from + 1)
    } else {
        from
    }
}

/// The words of the line that start at or after `from`, in their order.
pub open spec fn words_from(line: Seq<char>, from: int) -> Seq<Seq<char>>
    decreases line.len() - from,
{
    let start = spaces_end(line, from);
    let end = word_end(line, start);
    if from <= start < end <= line.len() {
        seq![line.subrange(start, end)] + words_from(line, end)
    } else {
        Seq::empty()
    }
}

/// The words of a line: its longest runs of characters that are not white
/// space.
pub open spec fn words(line: Seq<char>) -> Seq<Seq<char>> {
    words_from(line, 0)
}

/// The words one after another, each followed by a line feed.
pub open spec fn joined(words: Seq<Seq<char>>) -> Seq<char>
    decreases words.len(),
{
    if words.len() == 0 {
        Seq::empty()
    } else {
        words.first() + seq!['\n'] + joined(words.drop_first())
    }
}

/// The kind of command that a line asks for, where its first word names one.
pub open spec fn command_kind(line: Seq<char>) -> Option<InputType> {
    if words(line).len() == 0 {
        None
    } else {
        kind_named(words(line).first())
    }
}

/// The argument of the command that a line asks for.
pub open spec fn command_args(line: Seq<char>) -> Seq<char> {
    joined(words(line).drop_first())
}

/// What is wrong with a line that asks for no command.
pub open spec fn command_fault(line: Seq<char>) -> Seq<char> {
    if words(line).len() == 0 {
        "Missing kind"@
    } else {
        "Not a valid command: "@ + words(line).first()
    }
}

/// Whether `c` is white space.
pub fn is_whitespace(c: char) -> (space: bool)
    ensures
        space == is_space(c),
{
    let code = c as u32;
    (0x09 <= code && code <= 0x0d) || code == 0x20 || code == 0x85 || code == 0xa0 || code
        == 0x1680 || (0x2000 <= code && code <= 0x200a) || code == 0x2028 || code == 0x2029
        || code == 0x202f || code == 0x205f || code == 0x3000
}

/// The characters of `text`, one by one.
pub fn chars_of(text: &str) -> (chars: Vec<char>)
    ensures
        chars@ == text@,
{
    let mut chars: Vec<char> = Vec::new();
    for c in it: text.chars()
        invariant
            it.seq() == text@,
            chars@ == text@.take(it.index() as int),
    {
        chars.push(c);
        proof {
            assert(text@.take(it.index() + 1) =~= text@.take(it.index() as int).push(c));
        }
    }
    proof {
        assert(text@.take(text@.len() as int) =~= text@);
    }
    chars
}

/// The first position at or after `from` that holds no white space.
fn skip_spaces(line: &Vec<char>, from: usize) -> (at: usize)
    requires
        from <= line.len(),
    ensures
        at == spaces_end(line@, from as int),
        from <= at <= line.len(),
{
    let mut at = from;
    while at < line.len() && is_whitespace(line[at])
        invariant
            from <= at <= line.len(),
            spaces_end(line@, at as int) == spaces_end(line@, from as int),
        decreases line.len() - at,
    {
        at = at + 1;
    }
    at
}

/// The first position at or after `from` that holds white space.
fn skip_word(line: &Vec<char>, from: usize) -> (at: usize)
    requires
        from <= line.len(),
    ensures
        at == word_end(line@, from as int),
        from <= at <= line.len(),
{
    let mut at = from;
    while at < line.len() && !is_whitespace(line[at])
        invariant
            from <= at <= line.len(),
            word_end(line@, at as int) == word_end(line@, from as int),
        decreases line.len() - at,
    {
        at = at + 1;
    }
    at
}

/// Appends the characters of `line` from `start` up to `end` to `text`.
fn push_range(text: &mut String, line: &Vec<char>, start: usize, end: usize)
    requires
        start <= end <= line.len(),
    ensures
        final(text)@ == old(text)@ + line@.subrange(start as int, end as int),
{
    let mut at = start;
    while at < end
        invariant
            start <= at <= end <= line.len(),
            text@ == old(text)@ + line@.subrange(start as int, at as int),
        decreases end - at,
    {
        text.push(line[at]);
        at = at + 1;
        proof {
            assert(line@.subrange(start as int, at as int) =~= line@.subrange(
                start as int,
                at - 1,
            ).push(line@[at - 1]));
        }
    }
}

/// Reads a command line: the kind that its first word names, and the words
/// after it, each followed by a line feed. A line without a word has no
/// kind; a first word that is neither `exec` nor `query` is unknown.
pub fn parse_command(input: &str) -> (command: Result<(InputType, String), ParseError>)
    ensures
        match command {
            Ok((kind, args)) => command_kind(input@) == Some(kind) && args@ == command_args(input@),
            Err(error) => command_kind(input@) is None && error.text() == command_fault(input@),
        },
        command is Ok <==> command_kind(input@) is Some,
        match command {
            Ok((kind, args)) => {
                &&& words(input@).len() > 0
                &&& kind_named(words(input@).first()) == Some(kind)
                &&& args@ == joined(words(input@).drop_first())
            },
            Err(ParseError::MissingKind) => words(input@).len() == 0,
            Err(ParseError::UnknownKind(word)) => {
                &&& words(input@).len() > 0
                &&& kind_named(words(input@).first()) is None
                &&& word@ == words(input@).first()
            },
        },
{
    let line = chars_of(input);
    let start = skip_spaces(&line, 0);
    let end = skip_word(&line, start);
    if start == end {
        return Err(ParseError::MissingKind);
    }
    let mut word = String::new();
    push_range(&mut word, &line, start, end);
    proof {
        assert(words(line@).drop_first() =~= words_from(line@, end as int));
    }
    let kind = match InputType::try_from(word.as_str()) {
        Ok(kind) => kind,
        Err(ConvertError::InputTypeError(word)) => {
            return Err(ParseError::UnknownKind(word));
        },
        Err(ConvertError::ConvertError) => {
            return Err(ParseError::UnknownKind(word));
        },
    };
    let mut args = String::new();
    let mut at = end;
    loop
        invariant
            at <= line.len(),
            args@ + joined(words_from(line@, at as int)) == joined(words_from(line@, end as int)),
        ensures
            args@ == joined(words_from(line@, end as int)),
        decreases line.len() - at,
    {
        let from = skip_spaces(&line, at);
        let to = skip_word(&line, from);
        if from == to {
            break ;
        }
        proof {
            let rest = words_from(line@, at as int);
            assert(rest.drop_first() =~= words_from(line@, to as int));
            assert(args@ + (rest.first() + seq!['\n'] + joined(rest.drop_first())) =~= args@
                + rest.first() + seq!['\n'] + joined(rest.drop_first()));
        }
        push_range(&mut args, &line, from, to);
        args.push('\n');
        at = to;
    }
    Ok((kind, args))
}

/// A word runs from its start up to the next white space or the end of the
/// line, and holds no white space.
pub proof fn lemma_word_end(line: Seq<char>, from: int)
    requires
        0 <= from <= line.len(),
    ensures
        from <= word_end(line, from) <= line.len(),
        forall|k: int| from <= k < word_end(line, from) ==> !is_space(#[trigger] line[k]),
        word_end(line, from) < line.len() ==> is_space(line[word_end(line, from)]),
    decreases line.len() - from,
{
    if from < line.len() && !is_space(line[from]) {
        lemma_word_end(line, from + 1);
    }
}

/// White space is skipped up to the next character that is none, or to the
/// end of the line.
pub proof fn lemma_spaces_end(line: Seq<char>, from: int)
    requires
        0 <= from <= line.len(),
    ensures
        from <= spaces_end(line, from) <= line.len(),
        forall|k: int| from <= k < spaces_end(line, from) ==> is_space(#[trigger] line[k]),
        spaces_end(line, from) < line.len() ==> !is_space(line[spaces_end(line, from)]),
    decreases line.len() - from,
{
    if from < line.len() && is_space(line[from]) {
        lemma_spaces_end(line, from + 1);
    }
}

/// Every word of a line holds at least one character and no white space.
pub proof fn lemma_words_hold_no_space(line: Seq<char>, from: int)
    requires
        0 <= from <= line.len(),
    ensures
        forall|i: int|
            0 <= i < words_from(line, from).len() ==> (#[trigger] words_from(line, from)[i]).len()
                > 0,
        forall|i: int, j: int|
            0 <= i < words_from(line, from).len() && 0 <= j < words_from(line, from)[i].len()
                ==> !is_space(#[trigger] words_from(line, from)[i][j]),
    decreases line.len() - from,
{
    lemma_spaces_end(line, from);
    let start = spaces_end(line, from);
    lemma_word_end(line, start);
    let end = word_end(line, start);
    if start < end {
        lemma_words_hold_no_space(line, end);
        let rest = words_from(line, end);
        let all = words_from(line, from);
        assert(all == seq![line.subrange(start, end)] + rest);
        assert forall|i: int| 0 <= i < all.len() implies (#[trigger] all[i]).len() > 0 by {
            if i > 0 {
                assert(all[i] == rest[i - 1]);
            }
        }
        assert forall|i: int, j: int|
            0 <= i < all.len() && 0 <= j < all[i].len() implies !is_space(
            #[trigger] all[i][j],
        ) by {
            if i > 0 {
                assert(all[i] == rest[i - 1]);
            } else {
                assert(all[0][j] == line[start + j]);
            }
        }
    }
}

/// A line that holds white space only has no words, and a line without
/// white space is its own single word.
pub proof fn lemma_words_of_plain_lines(line: Seq<char>)
    ensures
        (forall|k: int| 0 <= k < line.len() ==> is_space(#[trigger] line[k])) ==> words(line).len()
            == 0,
        line.len() > 0 && (forall|k: int| 0 <= k < line.len() ==> !is_space(#[trigger] line[k]))
            ==> words(line) == seq![line],
{
    lemma_spaces_end(line, 0);
    let start = spaces_end(line, 0);
    lemma_word_end(line, start);
    let end = word_end(line, start);
    if line.len() > 0 && (forall|k: int| 0 <= k < line.len() ==> !is_space(#[trigger] line[k])) {
        assert(start == 0);
        assert(end == line.len());
        lemma_spaces_end(line, end);
        lemma_word_end(line, end);
        assert(words_from(line, end) =~= Seq::<Seq<char>>::empty());
        assert(line.subrange(0, end) =~= line);
        assert(words(line) =~= seq![line]);
    }
}

} // verus!
