//! JSON string literals, written the compact way: two-character escapes for
//! the quote, the backslash and the five named control characters, `\u00`
//! and two hexadecimal digits for the other control characters, and every
//! other character as it is.

use vstd::prelude::*;

verus! {

/// `String::push`, of the standard library. Trusted: it appends the
/// character to the end of the string, as its documentation says.
pub assume_specification[ String::push ](text: &mut String, c: char)
    ensures
        final(text)@ == old(text)@.push(c),
;

/// The hexadecimal digit, in lower case, for a value below sixteen.
pub open spec fn hex_digit(value: int) -> char
    recommends
        0 <= value < 16,
{
    if value < 10 {
        (48 + value) as u8 as char
    } else {
        (97 + (value - 10)) as u8 as char
    }
}

/// The letter that follows the backslash in the two-character escape of `c`,
/// where `c` has one.
pub open spec fn short_escape(c: char) -> Option<char> {
    if c == '"' {
        Some('"')
    } else if c == '\\' {
        Some('\\')
    } else if c == '\u{8}' {
        Some('b')
    } else if c == '\t' {
        Some('t')
    } else if c == '\n' {
        Some('n')
    } else if c == '\u{c}' {
        Some('f')
    } else if c == '\r' {
        Some('r')
    } else {
        None
    }
}

/// Whether `c` is a control character: one below the space.
pub open spec fn is_control(c: char) -> bool {
    (c as u32) < 0x20
}

/// How one character stands inside a string literal.
pub open spec fn escape_char(c: char) -> Seq<char> {
    match short_escape(c) {
        Some(letter) => seq!['\\', letter],
        None => if is_control(c) {
            seq!['\\', 'u', '0', '0', hex_digit(c as u32 as int / 16), hex_digit(c as u32 as int % 16)]
        } else {
            seq![c]
        },
    }
}

/// How a text stands inside a string literal: each character escaped, one
/// after another.
pub open spec fn escape(text: Seq<char>) -> Seq<char>
    decreases text.len(),
{
    if text.len() == 0 {
        Seq::empty()
    } else {
        escape_char(text.first()) + escape(text.drop_first())
    }
}

/// The string literal for `text`: its escaped form between two quotes.
pub open spec fn quoted(text: Seq<char>) -> Seq<char> {
    seq!['"'] + escape(text) + seq!['"']
}

/// Escaping a text with one more character at its end adds the escaped
/// character at the end.
proof fn lemma_escape_push(text: Seq<char>, c: char)
    ensures
        escape(text.push(c)) == escape(text) + escape_char(c),
    decreases text.len(),
{
    if text.len() == 0 {
        assert(text.push(c).drop_first() =~= Seq::<char>::empty());
        assert(escape(text.push(c)) =~= escape_char(c) + escape(Seq::<char>::empty()));
        assert(escape(text) + escape_char(c) =~= escape_char(c));
    } else {
        assert(text.push(c).drop_first() =~= text.drop_first().push(c));
        lemma_escape_push(text.drop_first(), c);
        assert(escape(text.push(c)) =~= escape(text) + escape_char(c));
    }
}

/// The hexadecimal digit for `value`, which is below sixteen.
fn hex_digit_of(value: u8) -> (r: char)
    requires
        value < 16,
    ensures
        r == hex_digit(value as int),
{
    if value < 10 {
        (48u8 + value) as char
    } else {
        (97u8 + (value - 10)) as char
    }
}

/// Appends to `out` the form that `c` has inside a string literal.
fn push_escaped(out: &mut String, c: char)
    ensures
        final(out)@ == old(out)@ + escape_char(c),
{
    let letter = if c == '"' {
        Some('"')
    } else if c == '\\' {
        Some('\\')
    } else if c == '\u{8}' {
        Some('b')
    } else if c == '\t' {
        Some('t')
    } else if c == '\n' {
        Some('n')
    } else if c == '\u{c}' {
        Some('f')
    } else if c == '\r' {
        Some('r')
    } else {
        None
    };
    match letter {
        Some(letter) => {
            out.push('\\');
            out.push(letter);
            assert(out@ =~= old(out)@ + escape_char(c));
        },
        None => {
            let code = c as u32;
            if code < 0x20 {
                out.push('\\');
                out.push('u');
                out.push('0');
                out.push('0');
                out.push(hex_digit_of((code / 16) as u8));
                out.push(hex_digit_of((code % 16) as u8));
                assert(out@ =~= old(out)@ + escape_char(c));
            } else {
                out.push(c);
                assert(out@ =~= old(out)@ + escape_char(c));
            }
        },
    }
}

/// Appends to `out` the string literal for `text`.
pub fn push_quoted(out: &mut String, text: &str)
    ensures
        final(out)@ == old(out)@ + quoted(text@),
{
    out.push('"');
    for c in it: text.chars()
        invariant
            it.seq() == text@,
            out@ == old(out)@ + seq!['"'] + escape(text@.take(it.index())),
    {
        let ghost k = it.index();
        push_escaped(out, c);
        proof {
            lemma_escape_push(text@.take(k), c);
            assert(text@.take(k).push(c) =~= text@.take(k + 1));
            assert(out@ =~= old(out)@ + seq!['"'] + escape(text@.take(k + 1)));
        }
    }
    assert(text@.take(text@.len() as int) =~= text@);
    out.push('"');
    assert(out@ =~= old(out)@ + quoted(text@));
}

/// The value of a hexadecimal digit in lower case.
pub open spec fn hex_value(c: char) -> Option<int> {
    if '0' <= c <= '9' {
        Some(c as u32 as int - 48)
    } else if 'a' <= c <= 'f' {
        Some(c as u32 as int - 97 + 10)
    } else {
        None
    }
}

/// The character that the two-character escape with `letter` stands for.
pub open spec fn short_unescape(letter: char) -> Option<char> {
    if letter == '"' {
        Some('"')
    } else if letter == '\\' {
        Some('\\')
    } else if letter == 'b' {
        Some('\u{8}')
    } else if letter == 't' {
        Some('\t')
    } else if letter == 'n' {
        Some('\n')
    } else if letter == 'f' {
        Some('\u{c}')
    } else if letter == 'r' {
        Some('\r')
    } else {
        None
    }
}

/// The character with which the inside of a string literal begins, and the
/// number of characters that write it: one for a character that stands as it
/// is, two for a short escape, six for `\u00` and two hexadecimal digits.
/// `None` where `text` begins with none of these: with the closing quote, a
/// bare control character, or another escape.
pub open spec fn leading_char(text: Seq<char>) -> Option<(char, int)> {
    if text.len() == 0 || text[0] == '"' {
        None
    } else if text[0] != '\\' {
        if is_control(text[0]) {
            None
        } else {
            Some((text[0], 1))
        }
    } else if text.len() < 2 {
        None
    } else if short_unescape(text[1]).is_some() {
        Some((short_unescape(text[1]).unwrap(), 2))
    } else if text.len() >= 6 && text[1] == 'u' && text[2] == '0' && text[3] == '0' && hex_value(
        text[4],
    ).is_some() && hex_value(text[5]).is_some() {
        Some(((16 * hex_value(text[4]).unwrap() + hex_value(text[5]).unwrap()) as u8 as char, 6))
    } else {
        None
    }
}

/// What was read from the front of a text, and the text left over.
pub type Read<T> = Option<(T, Seq<char>)>;

/// A reading with `c` put before what was read.
pub open spec fn preceded(c: char, reading: Read<Seq<char>>) -> Read<Seq<char>> {
    match reading {
        Some((text, rest)) => Some((seq![c] + text, rest)),
        None => None,
    }
}

/// Reads the inside of a string literal, up to its closing quote and with
/// it: the text that it writes, and what follows the quote.
pub open spec fn literal_body(text: Seq<char>) -> Read<Seq<char>>
    decreases text.len(),
{
    if text.len() > 0 && text[0] == '"' {
        Some((Seq::empty(), text.skip(1)))
    } else {
        match leading_char(text) {
            Some((c, used)) => preceded(c, literal_body(text.skip(used))),
            None => None,
        }
    }
}

/// Reads the string literal with which `text` begins: the text that it
/// writes, and what follows it.
pub open spec fn leading_literal(text: Seq<char>) -> Read<Seq<char>> {
    if text.len() > 0 && text[0] == '"' {
        literal_body(text.skip(1))
    } else {
        None
    }
}

/// An escaped character is read back as the character, whatever follows.
pub proof fn lemma_escaped_char_reads_back(c: char, rest: Seq<char>)
    ensures
        leading_char(escape_char(c) + rest) == Some((c, escape_char(c).len() as int)),
{
    let text = escape_char(c) + rest;
    match short_escape(c) {
        Some(letter) => {
            assert(text[0] == '\\' && text[1] == letter);
        },
        None => {
            if is_control(c) {
                let code = c as u32 as int;
                assert(text[0] == '\\' && text[1] == 'u' && text[2] == '0' && text[3] == '0');
                assert(text[4] == hex_digit(code / 16) && text[5] == hex_digit(code % 16));
                assert(hex_value(hex_digit(code / 16)) == Some(code / 16));
                assert(hex_value(hex_digit(code % 16)) == Some(code % 16));
                assert(16 * (code / 16) + code % 16 == code);
            } else {
                assert(text[0] == c);
            }
        },
    }
}

/// The inside of a string literal, with its closing quote, is read back as
/// the text that was escaped, with what follows the quote left over.
pub proof fn lemma_literal_body_reads_back(text: Seq<char>, rest: Seq<char>)
    ensures
        literal_body(escape(text) + seq!['"'] + rest) == Some((text, rest)),
    decreases text.len(),
{
    let written = escape(text) + seq!['"'] + rest;
    if text.len() == 0 {
        assert(written =~= seq!['"'] + rest);
        assert(written.skip(1) =~= rest);
        assert(text =~= Seq::<char>::empty());
    } else {
        let c = text.first();
        let tail = escape(text.drop_first()) + seq!['"'] + rest;
        assert(written =~= escape_char(c) + tail);
        lemma_escaped_char_reads_back(c, tail);
        assert(written[0] == escape_char(c)[0]);
        assert(written[0] != '"');
        assert(written.skip(escape_char(c).len() as int) =~= tail);
        lemma_literal_body_reads_back(text.drop_first(), rest);
        assert(seq![c] + text.drop_first() =~= text);
    }
}

/// A string literal is read back as the text that it was written for, with
/// what follows it left over.
pub proof fn lemma_literal_reads_back(text: Seq<char>, rest: Seq<char>)
    ensures
        leading_literal(quoted(text) + rest) == Some((text, rest)),
{
    let written = quoted(text) + rest;
    assert(written.skip(1) =~= escape(text) + seq!['"'] + rest);
    assert(written[0] == '"');
    lemma_literal_body_reads_back(text, rest);
}

/// A reading with `text` put before what was read.
pub open spec fn after_text(text: Seq<char>, reading: Read<Seq<char>>) -> Read<Seq<char>> {
    match reading {
        Some((more, rest)) => Some((text + more, rest)),
        None => None,
    }
}

/// The value of the hexadecimal digit `c`, or `None` where it is none.
fn hex_value_of(c: char) -> (r: Option<u8>)
    ensures
        match r {
            Some(value) => hex_value(c) == Some(value as int) && value < 16,
            None => hex_value(c).is_none(),
        },
{
    if c >= '0' && c <= '9' {
        Some((c as u32 - 48) as u8)
    } else if c >= 'a' && c <= 'f' {
        Some((c as u32 - 97 + 10) as u8)
    } else {
        None
    }
}

/// The character that the two-character escape with `letter` stands for.
fn short_unescape_of(letter: char) -> (r: Option<char>)
    ensures
        r == short_unescape(letter),
{
    if letter == '"' {
        Some('"')
    } else if letter == '\\' {
        Some('\\')
    } else if letter == 'b' {
        Some('\u{8}')
    } else if letter == 't' {
        Some('\t')
    } else if letter == 'n' {
        Some('\n')
    } else if letter == 'f' {
        Some('\u{c}')
    } else if letter == 'r' {
        Some('\r')
    } else {
        None
    }
}

/// Reads the character that stands at `text[from..]` inside a string
/// literal. Returns it with the place after it.
fn read_char(text: &Vec<char>, from: usize) -> (r: Option<(char, usize)>)
    requires
        from <= text.len(),
    ensures
        match r {
            Some((c, to)) => from < to <= text.len() && leading_char(text@.skip(from as int))
                == Some((c, to - from)),
            None => leading_char(text@.skip(from as int)).is_none(),
        },
{
    let ghost tail = text@.skip(from as int);
    if from >= text.len() {
        return None;
    }
    let first = text[from];
    assert(tail[0] == first);
    if first == '"' {
        return None;
    }
    if first != '\\' {
        if (first as u32) < 0x20 {
            return None;
        }
        return Some((first, from + 1));
    }
    if text.len() - from < 2 {
        return None;
    }
    let letter = text[from + 1];
    assert(tail[1] == letter);
    match short_unescape_of(letter) {
        Some(c) => {
            return Some((c, from + 2));
        },
        None => {},
    }
    if text.len() - from < 6 || letter != 'u' {
        return None;
    }
    assert(tail[2] == text[from + 2] && tail[3] == text[from + 3] && tail[4] == text[from + 4]
        && tail[5] == text[from + 5]);
    if text[from + 2] != '0' || text[from + 3] != '0' {
        return None;
    }
    match (hex_value_of(text[from + 4]), hex_value_of(text[from + 5])) {
        (Some(high), Some(low)) => Some(((16 * high + low) as char, from + 6)),
        _ => None,
    }
}

/// Reads the string literal at `text[from..]`. Returns the text that it
/// writes and the place after its closing quote, or `None` where no string
/// literal stands there.
pub fn read_literal(text: &Vec<char>, from: usize) -> (r: Option<(String, usize)>)
    requires
        from <= text.len(),
    ensures
        match r {
            Some((read, to)) => from < to <= text.len() && leading_literal(text@.skip(from as int))
                == Some((read@, text@.skip(to as int))),
            None => leading_literal(text@.skip(from as int)).is_none(),
        },
{
    let ghost tail = text@.skip(from as int);
    if from >= text.len() || text[from] != '"' {
        assert(from < text.len() ==> tail[0] == text[from as int]);
        return None;
    }
    assert(tail[0] == text[from as int]);
    let mut at: usize = from + 1;
    let mut read = String::new();
    assert(tail.skip(1) =~= text@.skip(at as int));
    assert(after_text(read@, literal_body(text@.skip(at as int))) =~= literal_body(
        text@.skip(at as int),
    )) by {
        let reading = literal_body(text@.skip(at as int));
        if reading.is_some() {
            assert(read@ + reading.unwrap().0 =~= reading.unwrap().0);
        }
    }
    loop
        invariant
            from < at <= text.len(),
            leading_literal(text@.skip(from as int)) == after_text(
                read@,
                literal_body(text@.skip(at as int)),
            ),
        decreases text.len() - at,
    {
        let ghost here = text@.skip(at as int);
        if at < text.len() && text[at] == '"' {
            proof {
                assert(here[0] == text[at as int]);
                assert(here.skip(1) =~= text@.skip(at + 1));
                assert(read@ + Seq::<char>::empty() =~= read@);
            }
            return Some((read, at + 1));
        }
        assert(at < text.len() ==> here[0] == text[at as int]);
        match read_char(text, at) {
            Some((c, to)) => {
                proof {
                    let reading = literal_body(text@.skip(to as int));
                    assert(here.skip(to - at) =~= text@.skip(to as int));
                    if reading.is_some() {
                        assert(read@ + (seq![c] + reading.unwrap().0) =~= read@.push(c)
                            + reading.unwrap().0);
                    }
                }
                read.push(c);
                at = to;
            },
            None => {
                return None;
            },
        }
    }
}

} // verus!
