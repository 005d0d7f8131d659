//! Text: decimal and hexadecimal numerals, search for a run of characters,
//! lines and words.

use vstd::prelude::*;

verus! {

/// The character that stands for one decimal digit.
pub open spec fn digit_char(d: nat) -> char {
    if d == 0 {
        '0'
    } else if d == 1 {
        '1'
    } else if d == 2 {
        '2'
    } else if d == 3 {
        '3'
    } else if d == 4 {
        '4'
    } else if d == 5 {
        '5'
    } else if d == 6 {
        '6'
    } else if d == 7 {
        '7'
    } else if d == 8 {
        '8'
    } else {
        '9'
    }
}

/// The character that stands for one lower-case hexadecimal digit.
pub open spec fn hex_digit_char(d: nat) -> char {
    if d < 10 {
        digit_char(d)
    } else if d == 10 {
        'a'
    } else if d == 11 {
        'b'
    } else if d == 12 {
        'c'
    } else if d == 13 {
        'd'
    } else if d == 14 {
        'e'
    } else {
        'f'
    }
}

/// The decimal numeral of `n`, most significant digit first, without
/// leading zeros.
pub open spec fn decimal_digits(n: nat) -> Seq<char>
    decreases n,
{
    if n < 10 {
        seq![digit_char(n)]
    } else {
        decimal_digits(n / 10).push(digit_char(n % 10))
    }
}

/// The two lower-case hexadecimal digits of a byte, high nibble first.
pub open spec fn hex_byte_digits(b: u8) -> Seq<char> {
    seq![hex_digit_char((b / 16) as nat), hex_digit_char((b % 16) as nat)]
}

/// The last `count` lower-case hexadecimal digits of `value`, most
/// significant first, with leading zeros.
pub open spec fn hex_digits(value: nat, count: nat) -> Seq<char>
    decreases count,
{
    if count == 0 {
        Seq::empty()
    } else {
        hex_digits(value / 16, (count - 1) as nat).push(hex_digit_char(value % 16))
    }
}

/// One hexadecimal digit as a string slice.
fn hex_digit_str(d: u8) -> (s: &'static str)
    requires
        d < 16,
    ensures
        s@ == seq![hex_digit_char(d as nat)],
{
    proof {
        reveal_strlit("0");
        reveal_strlit("1");
        reveal_strlit("2");
        reveal_strlit("3");
        reveal_strlit("4");
        reveal_strlit("5");
        reveal_strlit("6");
        reveal_strlit("7");
        reveal_strlit("8");
        reveal_strlit("9");
        reveal_strlit("a");
        reveal_strlit("b");
        reveal_strlit("c");
        reveal_strlit("d");
        reveal_strlit("e");
        reveal_strlit("f");
    }
    let s = match d {
        0 => "0",
        1 => "1",
        2 => "2",
        3 => "3",
        4 => "4",
        5 => "5",
        6 => "6",
        7 => "7",
        8 => "8",
        9 => "9",
        10 => "a",
        11 => "b",
        12 => "c",
        13 => "d",
        14 => "e",
        _ => "f",
    };
    assert(s@ =~= seq![hex_digit_char(d as nat)]);
    s
}

/// Renders `n` in decimal.
pub fn decimal_string(n: u64) -> (s: String)
    ensures
        s@ == decimal_digits(n as nat),
    decreases n,
{
    if n < 10 {
        let d: u8 = n as u8;
        String::from_str(hex_digit_str(d))
    } else {
        let d: u8 = (n % 10) as u8;
        let head = decimal_string(n / 10);
        let s = head.concat(hex_digit_str(d));
        assert(s@ =~= decimal_digits(n as nat));
        s
    }
}

/// Renders a byte as two lower-case hexadecimal digits.
pub fn hex_byte_string(b: u8) -> (s: String)
    ensures
        s@ == hex_byte_digits(b),
{
    let hi: u8 = b / 16;
    let lo: u8 = b % 16;
    let s = String::from_str(hex_digit_str(hi)).concat(hex_digit_str(lo));
    assert(s@ =~= hex_byte_digits(b));
    s
}

/// Whether `needle` stands in `haystack` from place `start` on.
pub open spec fn occurs_at(needle: Seq<char>, haystack: Seq<char>, start: int) -> bool {
    0 <= start && start + needle.len() <= haystack.len() && haystack.subrange(
        start,
        start + needle.len(),
    ) == needle
}

/// Whether `needle` stands somewhere in `haystack` as a run of characters.
pub open spec fn occurs_in(needle: Seq<char>, haystack: Seq<char>) -> bool {
    exists|start: int| occurs_at(needle, haystack, start)
}

/// Whether `needle` stands in `haystack` from place `start` on.
fn stands_at(haystack: &str, needle: &str, start: usize) -> (found: bool)
    requires
        start + needle@.len() <= haystack@.len(),
        haystack@.len() <= usize::MAX,
    ensures
        found == occurs_at(needle@, haystack@, start as int),
{
    let length = needle.unicode_len();
    let mut k: usize = 0;
    while k < length
        invariant
            k <= length,
            length == needle@.len(),
            start + length <= haystack@.len(),
            haystack@.len() <= usize::MAX,
            forall|j: int| 0 <= j < k ==> haystack@[start + j] == needle@[j],
        decreases length - k,
    {
        if haystack.get_char(start + k) != needle.get_char(k) {
            assert(haystack@.subrange(start as int, start + length)[k as int] != needle@[k as int]);
            return false;
        }
        k = k + 1;
    }
    assert(haystack@.subrange(start as int, start + length) =~= needle@);
    true
}

/// Whether `needle` stands somewhere in `haystack` as a run of characters.
pub fn contains_text(haystack: &str, needle: &str) -> (found: bool)
    ensures
        found == occurs_in(needle@, haystack@),
{
    let length = haystack.unicode_len();
    let width = needle.unicode_len();
    if width > length {
        return false;
    }
    if width == 0 {
        assert(haystack@.subrange(0, 0) =~= needle@);
        assert(occurs_at(needle@, haystack@, 0));
        return true;
    }
    let last = length - width;
    let mut start: usize = 0;
    while start <= last
        invariant
            start <= last + 1,
            last + width == length,
            width > 0,
            length == haystack@.len(),
            width == needle@.len(),
            forall|earlier: int| 0 <= earlier < start ==> !occurs_at(needle@, haystack@, earlier),
        decreases last + 1 - start,
    {
        if stands_at(haystack, needle, start) {
            return true;
        }
        start = start + 1;
    }
    false
}

/// The place of the first line feed of a text, or the length of the text
/// where it has none.
pub open spec fn line_end(text: Seq<char>) -> nat
    decreases text.len(),
{
    if text.len() == 0 || text[0] == '\n' {
        0
    } else {
        (1 + line_end(text.drop_first())) as nat
    }
}

/// A line without the carriage return at its end, if it has one there.
pub open spec fn without_carriage_return(line: Seq<char>) -> Seq<char> {
    if line.len() > 0 && line.last() == '\r' {
        line.drop_last()
    } else {
        line
    }
}

/// The lines of a text: the text is cut at each line feed, a carriage
/// return just before a line feed goes with it, and a line feed at the very
/// end starts no further line.
pub open spec fn lines_of(text: Seq<char>) -> Seq<Seq<char>>
    decreases text.len(),
{
    if text.len() == 0 {
        Seq::empty()
    } else if line_end(text) >= text.len() {
        seq![text]
    } else {
        seq![without_carriage_return(text.subrange(0, line_end(text) as int))] + lines_of(
            text.subrange(line_end(text) as int + 1, text.len() as int),
        )
    }
}

/// Whether a character is white space: the characters with the Unicode
/// property `White_Space`.
pub open spec fn is_white_space(c: char) -> bool {
    ||| '\u{9}' <= c <= '\u{d}'
    ||| c == ' '
    ||| c == '\u{85}'
    ||| c == '\u{a0}'
    ||| c == '\u{1680}'
    ||| '\u{2000}' <= c <= '\u{200a}'
    ||| c == '\u{2028}'
    ||| c == '\u{2029}'
    ||| c == '\u{202f}'
    ||| c == '\u{205f}'
    ||| c == '\u{3000}'
}

/// A text without the white space at its start.
pub open spec fn without_leading_space(text: Seq<char>) -> Seq<char>
    decreases text.len(),
{
    if text.len() > 0 && is_white_space(text[0]) {
        without_leading_space(text.drop_first())
    } else {
        text
    }
}

/// The characters of a text up to its first white space.
pub open spec fn leading_word(text: Seq<char>) -> Seq<char>
    decreases text.len(),
{
    if text.len() > 0 && !is_white_space(text[0]) {
        seq![text[0]] + leading_word(text.drop_first())
    } else {
        Seq::empty()
    }
}

/// The first word of a line: the first run of characters that are not
/// white space, if the line has one.
pub open spec fn first_word_of(line: Seq<char>) -> Option<Seq<char>> {
    if without_leading_space(line).len() == 0 {
        None
    } else {
        Some(leading_word(without_leading_space(line)))
    }
}

/// The texts of a list of strings.
pub open spec fn texts(lines: Seq<String>) -> Seq<Seq<char>> {
    Seq::new(lines.len(), |i: int| lines[i]@)
}

/// The place of the first line feed is the first place at which a line
/// feed stands, and the length of the text where none stands in it.
proof fn lemma_line_end(text: Seq<char>, place: int)
    requires
        0 <= place <= text.len(),
        forall|j: int| 0 <= j < place ==> text[j] != '\n',
        place == text.len() || text[place] == '\n',
    ensures
        line_end(text) == place,
    decreases place,
{
    if place > 0 {
        let rest = text.drop_first();
        assert forall|j: int| 0 <= j < place - 1 implies rest[j] != '\n' by {
            assert(rest[j] == text[j + 1]);
        }
        lemma_line_end(rest, place - 1);
    }
}

/// The lines of the text, each as a string of its own.
pub fn split_lines(text: &str) -> (lines: Vec<String>)
    ensures
        texts(lines@) == lines_of(text@),
{
    let length = text.unicode_len();
    let mut lines: Vec<String> = Vec::new();
    let mut start: usize = 0;
    let mut i: usize = 0;
    assert(text@.subrange(0, length as int) =~= text@);
    assert(texts(lines@) =~= Seq::<Seq<char>>::empty());
    while i < length
        invariant
            start <= i <= length,
            length == text@.len(),
            forall|j: int| start <= j < i ==> text@[j] != '\n',
            lines_of(text@) == texts(lines@) + lines_of(text@.subrange(start as int, length as int)),
        decreases length - i,
    {
        if text.get_char(i) == '\n' {
            let end = if i > start && text.get_char(i - 1) == '\r' {
                i - 1
            } else {
                i
            };
            let line = String::from_str(text.substring_char(start, end));
            proof {
                let rest = text@.subrange(start as int, length as int);
                lemma_line_end(rest, i - start);
                assert(rest.subrange(0, i - start) =~= text@.subrange(start as int, i as int));
                assert(rest.subrange(i - start + 1, rest.len() as int) =~= text@.subrange(
                    i + 1,
                    length as int,
                ));
                assert(line@ =~= without_carriage_return(text@.subrange(start as int, i as int)));
                assert(texts(lines@.push(line)) =~= texts(lines@) + seq![line@]);
            }
            lines.push(line);
            start = i + 1;
        }
        i = i + 1;
    }
    if start < length {
        let line = String::from_str(text.substring_char(start, length));
        proof {
            let rest = text@.subrange(start as int, length as int);
            lemma_line_end(rest, rest.len() as int);
            assert(texts(lines@.push(line)) =~= texts(lines@) + seq![line@]);
        }
        lines.push(line);
    } else {
        assert(texts(lines@) + Seq::<Seq<char>>::empty() =~= texts(lines@));
    }
    lines
}

/// Whether a character is white space.
pub fn is_whitespace(c: char) -> (white: bool)
    ensures
        white == is_white_space(c),
{
    ('\u{9}' <= c && c <= '\u{d}') || c == ' ' || c == '\u{85}' || c == '\u{a0}' || c
        == '\u{1680}' || ('\u{2000}' <= c && c <= '\u{200a}') || c == '\u{2028}' || c
        == '\u{2029}' || c == '\u{202f}' || c == '\u{205f}' || c == '\u{3000}'
}

/// A text that opens with `count` characters of white space, and then
/// ends or goes on with another character, is without its leading space the
/// text from that place on.
proof fn lemma_without_leading_space(text: Seq<char>, count: int)
    requires
        0 <= count <= text.len(),
        forall|j: int| 0 <= j < count ==> is_white_space(text[j]),
        count == text.len() || !is_white_space(text[count]),
    ensures
        without_leading_space(text) == text.subrange(count, text.len() as int),
    decreases count,
{
    if count > 0 {
        let rest = text.drop_first();
        assert forall|j: int| 0 <= j < count - 1 implies is_white_space(rest[j]) by {
            assert(rest[j] == text[j + 1]);
        }
        lemma_without_leading_space(rest, count - 1);
        assert(rest.subrange(count - 1, rest.len() as int) =~= text.subrange(
            count,
            text.len() as int,
        ));
    } else {
        assert(text.subrange(0, text.len() as int) =~= text);
    }
}

/// A text that opens with `count` characters that are not white space,
/// and then ends or goes on with white space, has those characters as its
/// leading word.
proof fn lemma_leading_word(text: Seq<char>, count: int)
    requires
        0 <= count <= text.len(),
        forall|j: int| 0 <= j < count ==> !is_white_space(text[j]),
        count == text.len() || is_white_space(text[count]),
    ensures
        leading_word(text) == text.subrange(0, count),
    decreases count,
{
    if count > 0 {
        let rest = text.drop_first();
        assert forall|j: int| 0 <= j < count - 1 implies !is_white_space(rest[j]) by {
            assert(rest[j] == text[j + 1]);
        }
        lemma_leading_word(rest, count - 1);
        assert(seq![text[0]] + rest.subrange(0, count - 1) =~= text.subrange(0, count));
    } else {
        assert(text.subrange(0, 0) =~= Seq::<char>::empty());
    }
}

/// The first word of the line, if it has one.
pub fn first_word(line: &str) -> (word: Option<String>)
    ensures
        match word {
            Some(w) => first_word_of(line@) == Some(w@),
            None => first_word_of(line@) is None,
        },
{
    let length = line.unicode_len();
    let mut start: usize = 0;
    while start < length && is_whitespace(line.get_char(start))
        invariant
            start <= length,
            length == line@.len(),
            forall|j: int| 0 <= j < start ==> is_white_space(line@[j]),
        decreases length - start,
    {
        start = start + 1;
    }
    proof {
        lemma_without_leading_space(line@, start as int);
    }
    if start == length {
        return None;
    }
    let mut end: usize = start;
    while end < length && !is_whitespace(line.get_char(end))
        invariant
            start <= end <= length,
            length == line@.len(),
            forall|j: int| start <= j < end ==> !is_white_space(line@[j]),
        decreases length - end,
    {
        end = end + 1;
    }
    let word = String::from_str(line.substring_char(start, end));
    proof {
        let rest = line@.subrange(start as int, length as int);
        lemma_leading_word(rest, end - start);
        assert(rest.subrange(0, end - start) =~= line@.subrange(start as int, end as int));
    }
    Some(word)
}

} // verus!
