//! The part of YAML in which the import document is written.
//!
//! A document is a block mapping, a block sequence or a scalar. The value of a mapping's key stands
//! behind it, or is a sequence in the lines below it. The entries of a sequence are set in by two
//! columns. Scalars are plain ones on a single line, and the one flow sequence is the empty one.

use vstd::prelude::*;

verus! {

/// What a document says.
pub enum Yaml {
    /// A plain scalar, by its content. Which type the content stands for is left to the reader.
    Scalar(Seq<char>),
    /// A sequence.
    List(Seq<Yaml>),
    /// A mapping, with its keys in the order in which they stand.
    Mapping(Seq<(Seq<char>, Yaml)>),
}

/// Whether a character separates the parts of a line.
pub open spec fn is_blank(c: char) -> bool {
    c == ' ' || c == '\t'
}

/// Whether a character may stand within a line.
pub open spec fn is_in_line(c: char) -> bool {
    ||| c == '\t'
    ||| ' ' <= c <= '~'
    ||| '\u{a0}' <= c <= '\u{fffd}' && c != '\u{2028}' && c != '\u{2029}' && c != '\u{feff}'
    ||| '\u{10000}' <= c
}

/// Whether a character begins something else than a plain scalar, whatever follows it.
pub open spec fn is_indicator(c: char) -> bool {
    ||| c == ',' || c == '[' || c == ']' || c == '{' || c == '}'
    ||| c == '#' || c == '&' || c == '*' || c == '!' || c == '|' || c == '>'
    ||| c == '\'' || c == '"' || c == '%' || c == '@' || c == '`'
}

/// Whether a colon at this place ends a key: nothing or a blank follows it.
pub open spec fn ends_key(text: Seq<char>, i: int) -> bool {
    text[i] == ':' && (i + 1 == text.len() || is_blank(text[i + 1]))
}

/// Whether a comment begins at this place.
pub open spec fn begins_comment(text: Seq<char>, i: int) -> bool {
    text[i] == '#' && i > 0 && is_blank(text[i - 1])
}

/// Whether a text is a plain scalar on a single line.
pub open spec fn is_plain(text: Seq<char>) -> bool {
    &&& text.len() > 0
    &&& !is_blank(text[0]) && !is_blank(text.last())
    &&& !is_indicator(text[0])
    &&& text[0] == '-' || text[0] == '?' || text[0] == ':' ==> text.len() > 1 && !is_blank(text[1])
    &&& forall|i: int| 0 <= i < text.len() ==> is_in_line(#[trigger] text[i])
    &&& forall|i: int| 0 <= i < text.len() ==> !#[trigger] ends_key(text, i)
    &&& forall|i: int| 0 <= i < text.len() ==> !#[trigger] begins_comment(text, i)
}

/// Where the first line of a text ends.
pub open spec fn line_end(text: Seq<char>) -> nat
    decreases text.len(),
{
    if text.len() == 0 || text[0] == '\n' {
        0
    } else {
        1 + line_end(text.drop_first())
    }
}

/// The lines of a text. A line break ends a line.
pub open spec fn lines(text: Seq<char>) -> Seq<Seq<char>>
    decreases text.len(),
{
    let end = line_end(text) as int;
    if text.len() == 0 {
        seq![]
    } else if end >= text.len() {
        seq![text]
    } else {
        seq![text.take(end)] + lines(text.skip(end + 1))
    }
}

/// Where the key of a line ends. In a line without a key that is its end.
pub open spec fn key_end(line: Seq<char>) -> nat
    decreases line.len(),
{
    if line.len() == 0 || ends_key(line, 0) {
        0
    } else {
        1 + key_end(line.drop_first())
    }
}

/// A text without the blanks that it begins with.
pub open spec fn without_blanks(text: Seq<char>) -> Seq<char>
    decreases text.len(),
{
    if text.len() > 0 && is_blank(text[0]) {
        without_blanks(text.drop_first())
    } else {
        text
    }
}

/// Whether a line begins an entry of a sequence.
pub open spec fn begins_entry(line: Seq<char>) -> bool {
    line.len() >= 2 && line[0] == '-' && line[1] == ' '
}

/// Whether a line is set in by two columns.
pub open spec fn is_set_in(line: Seq<char>) -> bool {
    line.len() >= 2 && line[0] == ' ' && line[1] == ' '
}

/// How many of the first lines are set in.
pub open spec fn set_in(lines: Seq<Seq<char>>) -> nat
    decreases lines.len(),
{
    if lines.len() > 0 && is_set_in(lines[0]) {
        1 + set_in(lines.drop_first())
    } else {
        0
    }
}

/// How many of the first lines belong to a sequence.
pub open spec fn in_sequence(lines: Seq<Seq<char>>) -> nat
    decreases lines.len(),
{
    if lines.len() > 0 && (begins_entry(lines[0]) || is_set_in(lines[0])) {
        1 + in_sequence(lines.drop_first())
    } else {
        0
    }
}

/// No more lines are set in than there are.
pub proof fn lemma_set_in_bound(lines: Seq<Seq<char>>)
    ensures
        set_in(lines) <= lines.len(),
    decreases lines.len(),
{
    if lines.len() > 0 {
        lemma_set_in_bound(lines.drop_first());
    }
}

/// No more lines belong to a sequence than there are.
pub proof fn lemma_in_sequence_bound(lines: Seq<Seq<char>>)
    ensures
        in_sequence(lines) <= lines.len(),
    decreases lines.len(),
{
    if lines.len() > 0 {
        lemma_in_sequence_bound(lines.drop_first());
    }
}

/// The lines of a sequence's first entry, as they are when it stands by itself.
pub open spec fn first_entry(lines: Seq<Seq<char>>) -> Seq<Seq<char>> {
    lines.take(1 + set_in(lines.drop_first()) as int).map_values(|line: Seq<char>| line.skip(2))
}

/// What stands on a single line behind a key or a dash.
pub open spec fn read_inline(text: Seq<char>) -> Option<Yaml> {
    if text == seq!['[', ']'] {
        Some(Yaml::List(seq![]))
    } else if is_plain(text) {
        Some(Yaml::Scalar(text))
    } else {
        None
    }
}

/// Whether no key occurs twice.
pub open spec fn keys_differ(keys: Seq<(Seq<char>, Yaml)>) -> bool {
    forall|i: int, j: int|
        0 <= i < j < keys.len() ==> (#[trigger] keys[i]).0 != (#[trigger] keys[j]).0
}

/// Whether a line begins or ends a document.
pub open spec fn is_marker(line: Seq<char>) -> bool {
    &&& line.len() >= 3
    &&& line.take(3) == seq!['-', '-', '-'] || line.take(3) == seq!['.', '.', '.']
    &&& line.len() == 3 || is_blank(line[3])
}

/// What lines say that stand by themselves, with no more than so many blocks in each other.
pub open spec fn read_block(lines: Seq<Seq<char>>, depth: nat) -> Option<Yaml>
    decreases depth, lines.len(), 1nat,
{
    if lines.len() == 0 {
        None
    } else if begins_entry(lines[0]) {
        match read_entries(lines, depth) {
            Some(entries) => Some(Yaml::List(entries)),
            None => None,
        }
    } else if key_end(lines[0]) < lines[0].len() {
        match read_keys(lines, depth) {
            Some(keys) if keys_differ(keys) => Some(Yaml::Mapping(keys)),
            _ => None,
        }
    } else if lines.len() == 1 {
        read_inline(lines[0])
    } else {
        None
    }
}

/// The entries of the sequence that these lines hold.
pub open spec fn read_entries(lines: Seq<Seq<char>>, depth: nat) -> Option<Seq<Yaml>>
    decreases depth, lines.len(), 0nat,
{
    if lines.len() == 0 {
        Some(seq![])
    } else if depth == 0 || !begins_entry(lines[0]) {
        None
    } else {
        proof {
            lemma_set_in_bound(lines.drop_first());
        }
        let entry = first_entry(lines);
        let rest = lines.drop_first().skip(set_in(lines.drop_first()) as int);
        match (read_block(entry, (depth - 1) as nat), read_entries(rest, depth)) {
            (Some(first), Some(others)) => Some(seq![first] + others),
            _ => None,
        }
    }
}

/// The keys of the mapping that these lines hold, with their values.
pub open spec fn read_keys(lines: Seq<Seq<char>>, depth: nat) -> Option<Seq<(Seq<char>, Yaml)>>
    decreases depth, lines.len(), 0nat,
{
    if lines.len() == 0 {
        Some(seq![])
    } else if depth == 0 || key_end(lines[0]) >= lines[0].len() {
        None
    } else {
        let end = key_end(lines[0]) as int;
        let key = lines[0].take(end);
        let inline = without_blanks(lines[0].skip(end + 1));
        let below = lines.drop_first();
        proof {
            lemma_in_sequence_bound(below);
        }
        let n = if inline.len() == 0 {
            in_sequence(below) as int
        } else {
            0
        };
        let value = if inline.len() == 0 {
            read_block(below.take(n), (depth - 1) as nat)
        } else {
            read_inline(inline)
        };
        match (value, read_keys(below.skip(n), depth)) {
            (Some(value), Some(others)) if is_plain(key) => Some(seq![(key, value)] + others),
            _ => None,
        }
    }
}

/// What a document says, where it keeps to this part of YAML.
pub open spec fn read(document: Seq<char>) -> Option<Yaml> {
    let lines = lines(document);
    if exists|i: int| 0 <= i < lines.len() && is_marker(#[trigger] lines[i]) {
        None
    } else {
        read_block(lines, document.len())
    }
}

/// A text that begins with a whole line has that line first, then the lines of what follows.
pub proof fn lemma_first_line(line: Seq<char>, rest: Seq<char>)
    requires
        !line.contains('\n'),
    ensures
        lines(line + seq!['\n'] + rest) == seq![line] + lines(rest),
{
    let text = line + seq!['\n'] + rest;
    lemma_line_end(line, rest);
    assert(text.take(line.len() as int) == line);
    assert(text.skip(line.len() as int + 1) == rest);
}

/// A line ends at the first line break.
proof fn lemma_line_end(line: Seq<char>, rest: Seq<char>)
    requires
        !line.contains('\n'),
    ensures
        line_end(line + seq!['\n'] + rest) == line.len(),
    decreases line.len(),
{
    let text = line + seq!['\n'] + rest;
    if line.len() > 0 {
        let tail = line.drop_first();
        assert(line[0] != '\n');
        assert(forall|i: int| 0 <= i < tail.len() ==> tail[i] == line[i + 1]);
        assert(text.drop_first() == tail + seq!['\n'] + rest);
        lemma_line_end(tail, rest);
    }
}

/// A key ends at the colon behind it.
pub proof fn lemma_key_end(key: Seq<char>, rest: Seq<char>)
    requires
        !key.contains(':'),
        rest.len() == 0 || is_blank(rest[0]),
    ensures
        key_end(key + seq![':'] + rest) == key.len(),
    decreases key.len(),
{
    let line = key + seq![':'] + rest;
    if key.len() > 0 {
        let tail = key.drop_first();
        assert(key[0] != ':');
        assert(forall|i: int| 0 <= i < tail.len() ==> tail[i] == key[i + 1]);
        assert(line.drop_first() == tail + seq![':'] + rest);
        lemma_key_end(tail, rest);
    }
}

/// A key with a value behind it: the key is read first, then the lines below.
pub proof fn lemma_key_with_value(
    key: Seq<char>,
    value: Seq<char>,
    below: Seq<Seq<char>>,
    depth: nat,
)
    requires
        depth > 0,
        !key.contains(':'),
        is_plain(key),
        read_inline(value) is Some,
        read_keys(below, depth) is Some,
    ensures
        key_end(key + seq![':', ' '] + value) == key.len(),
        read_keys(seq![key + seq![':', ' '] + value] + below, depth) == Some(
            seq![(key, read_inline(value)->0)] + read_keys(below, depth)->0,
        ),
{
    let line = key + seq![':', ' '] + value;
    let all = seq![line] + below;
    let rest = seq![' '] + value;
    assert(line == key + seq![':'] + rest);
    lemma_key_end(key, rest);
    assert(line.take(key.len() as int) == key);
    assert(line.skip(key.len() as int + 1) == rest);
    assert(rest.drop_first() == value);
    assert(value.len() > 0 && !is_blank(value[0]));
    assert(without_blanks(value) == value);
    assert(without_blanks(rest) == value);
    assert(all.drop_first() == below);
    assert(below.skip(0) == below);
}

} // verus!
