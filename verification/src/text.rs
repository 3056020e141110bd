//! Texts as sequences of characters: lines, numbers, padding.

use crate::unicode::texts;
use vstd::prelude::*;

verus! {

/// The place of the first line feed in `text`, or the length of `text` where
/// it has none.
pub open spec fn first_newline(text: Seq<char>) -> int
    decreases text.len(),
{
    if text.len() == 0 || text[0] == '\n' {
        0
    } else {
        1 + first_newline(text.skip(1))
    }
}

/// A line without the carriage return that it may end with.
pub open spec fn strip_cr(line: Seq<char>) -> Seq<char> {
    if line.len() > 0 && line.last() == '\r' {
        line.drop_last()
    } else {
        line
    }
}

/// The lines of a text. A line ends with a line feed, or with a carriage
/// return and a line feed, neither of which belongs to it; the last line may
/// end with the text instead, and is then taken as it stands. An empty text
/// has no lines.
pub open spec fn text_lines(text: Seq<char>) -> Seq<Seq<char>>
    decreases text.len(),
{
    let n = first_newline(text);
    if text.len() == 0 {
        Seq::empty()
    } else if 0 <= n < text.len() {
        seq![strip_cr(text.take(n))] + text_lines(text.skip(n + 1))
    } else {
        seq![text]
    }
}

/// Lines written one after the other, each followed by a line feed.
pub open spec fn joined_lines(lines: Seq<Seq<char>>) -> Seq<char>
    decreases lines.len(),
{
    if lines.len() == 0 {
        Seq::empty()
    } else {
        joined_lines(lines.drop_last()) + lines.last() + seq!['\n']
    }
}

/// Whether a line ends with a carriage return.
pub open spec fn ends_with_cr(line: Seq<char>) -> bool {
    line.len() > 0 && line.last() == '\r'
}

/// Whether a line can be written and read again unchanged: it holds no line
/// feed and does not end with a carriage return.
pub open spec fn is_plain_line(line: Seq<char>) -> bool {
    &&& forall|i: int| 0 <= i < line.len() ==> line[i] != '\n'
    &&& !ends_with_cr(line)
}

/// Where the first line feed of a text is.
pub proof fn lemma_first_newline(text: Seq<char>, n: int)
    requires
        0 <= n <= text.len(),
        forall|i: int| 0 <= i < n ==> text[i] != '\n',
        n < text.len() ==> text[n] == '\n',
    ensures
        first_newline(text) == n,
    decreases n,
{
    if n > 0 {
        lemma_first_newline(text.skip(1), n - 1);
    }
}

/// The first line feed lies in the text or right behind it, with no line
/// feed before it.
pub proof fn lemma_first_newline_is_first(text: Seq<char>)
    ensures
        0 <= first_newline(text) <= text.len(),
        forall|i: int| 0 <= i < first_newline(text) ==> text[i] != '\n',
        first_newline(text) < text.len() ==> text[first_newline(text)] == '\n',
    decreases text.len(),
{
    if !(text.len() == 0 || text[0] == '\n') {
        let rest = text.skip(1);
        lemma_first_newline_is_first(rest);
        assert forall|i: int| 0 <= i < first_newline(text) implies text[i] != '\n' by {
            if i > 0 {
                assert(text[i] == rest[i - 1]);
            }
        }
    }
}

/// No line of a text holds a line feed.
pub proof fn lemma_text_lines_hold_no_newline(text: Seq<char>, k: int)
    requires
        0 <= k < text_lines(text).len(),
    ensures
        forall|i: int| 0 <= i < text_lines(text)[k].len() ==> text_lines(text)[k][i] != '\n',
    decreases text.len(),
{
    let n = first_newline(text);
    lemma_first_newline_is_first(text);
    if text.len() == 0 {
    } else if 0 <= n < text.len() {
        if k > 0 {
            lemma_text_lines_hold_no_newline(text.skip(n + 1), k - 1);
        }
    } else {
    }
}

/// Written lines begin with the first of them.
proof fn lemma_joined_lines_first(lines: Seq<Seq<char>>)
    requires
        lines.len() > 0,
    ensures
        joined_lines(lines) == lines[0] + seq!['\n'] + joined_lines(lines.skip(1)),
    decreases lines.len(),
{
    if lines.len() == 1 {
        assert(lines.drop_last() =~= Seq::<Seq<char>>::empty());
        assert(lines.skip(1) =~= Seq::<Seq<char>>::empty());
    } else {
        lemma_joined_lines_first(lines.drop_last());
        assert(lines.drop_last().skip(1) =~= lines.skip(1).drop_last());
    }
}

/// Plain lines that are written and read again are the same lines.
pub proof fn lemma_text_lines_of_joined(lines: Seq<Seq<char>>)
    requires
        forall|k: int| 0 <= k < lines.len() ==> is_plain_line(#[trigger] lines[k]),
    ensures
        text_lines(joined_lines(lines)) == lines,
    decreases lines.len(),
{
    if lines.len() > 0 {
        let text = joined_lines(lines);
        let first = lines[0];
        let rest = joined_lines(lines.skip(1));
        lemma_joined_lines_first(lines);
        lemma_first_newline(text, first.len() as int);
        assert(text.take(first.len() as int) =~= first);
        assert(text.skip(first.len() as int + 1) =~= rest);
        assert forall|k: int| 0 <= k < lines.skip(1).len() implies is_plain_line(
            #[trigger] lines.skip(1)[k],
        ) by {
            assert(lines.skip(1)[k] == lines[k + 1]);
        }
        lemma_text_lines_of_joined(lines.skip(1));
    }
}

/// The characters of a text, one by one.
pub fn chars_of(text: &str) -> (chars: Vec<char>)
    ensures
        chars@ == text@,
{
    let mut chars: Vec<char> = Vec::new();
    for c in it: text.chars()
        invariant
            it.seq() == text@,
            chars@ == it.seq().take(it.index() as int),
    {
        chars.push(c);
    }
    chars
}

/// The text made of the characters from `from` up to `to`.
pub fn string_of(chars: &Vec<char>, from: usize, to: usize) -> (text: String)
    requires
        from <= to <= chars@.len(),
    ensures
        text@ == chars@.subrange(from as int, to as int),
{
    let mut text = String::new();
    let mut i: usize = from;
    while i < to
        invariant
            from <= i <= to <= chars@.len(),
            text@ =~= chars@.subrange(from as int, i as int),
        decreases to - i,
    {
        text.push(chars[i]);
        i += 1;
    }
    text
}

/// Splits a text into its lines.
pub fn lines(text: &str) -> (lines: Vec<String>)
    ensures
        texts(lines@) == text_lines(text@),
{
    let chars = chars_of(text);
    let mut lines: Vec<String> = Vec::new();
    let mut start: usize = 0;
    let mut i: usize = 0;
    assert(text@.skip(0) =~= text@);
    while i < chars.len()
        invariant
            chars@ == text@,
            start <= i <= chars@.len(),
            forall|j: int| start <= j < i ==> chars@[j] != '\n',
            text_lines(text@) == texts(lines@) + text_lines(text@.skip(start as int)),
        decreases chars.len() - i,
    {
        if chars[i] == '\n' {
            let end = if start < i && chars[i - 1] == '\r' {
                i - 1
            } else {
                i
            };
            let line = string_of(&chars, start, end);
            proof {
                let rest = text@.skip(start as int);
                lemma_first_newline(rest, i - start);
                assert(line@ =~= strip_cr(rest.take(i - start)));
                assert(rest.skip(i - start + 1) =~= text@.skip(i + 1));
            }
            lines.push(line);
            start = i + 1;
        }
        i += 1;
    }
    if start < chars.len() {
        let line = string_of(&chars, start, chars.len());
        proof {
            let rest = text@.skip(start as int);
            lemma_first_newline(rest, rest.len() as int);
        }
        lines.push(line);
    } else {
    }
    lines
}

/// The character that stands for a digit.
pub open spec fn digit(d: int) -> char {
    (d + 48) as u8 as char
}

/// A number written in decimal digits.
pub open spec fn decimal(n: nat) -> Seq<char>
    decreases n,
{
    if n < 10 {
        seq![digit(n as int)]
    } else {
        decimal(n / 10).push(digit((n % 10) as int))
    }
}

/// A run of `n` spaces.
pub open spec fn spaces(n: int) -> Seq<char> {
    Seq::new(
        if n > 0 {
            n as nat
        } else {
            0
        },
        |i: int| ' ',
    )
}

/// Writes a number in decimal digits.
pub fn decimal_string(n: usize) -> (text: String)
    ensures
        text@ == decimal(n as nat),
{
    let mut digits: Vec<char> = Vec::new();
    digits.push(((n % 10) as u8 + 48u8) as char);
    let mut rest: usize = n / 10;
    while rest > 0
        invariant
            digits@.len() > 0,
            decimal(n as nat) =~= (if rest > 0 {
                decimal(rest as nat)
            } else {
                Seq::<char>::empty()
            }) + digits@.reverse(),
        decreases rest,
    {
        digits.push(((rest % 10) as u8 + 48u8) as char);
        rest = rest / 10;
    }
    let mut text = String::new();
    let mut i: usize = digits.len();
    while i > 0
        invariant
            i <= digits@.len(),
            text@ =~= digits@.reverse().take(digits@.len() - i),
        decreases i,
    {
        i -= 1;
        text.push(digits[i]);
    }
    text
}

/// Makes a run of `n` spaces.
pub fn spaces_string(n: usize) -> (text: String)
    ensures
        text@ == spaces(n as int),
{
    let mut text = String::new();
    let mut i: usize = 0;
    while i < n
        invariant
            i <= n,
            text@ =~= spaces(i as int),
        decreases n - i,
    {
        text.push(' ');
        i += 1;
    }
    text
}

} // verus!
