//! Building text: decimal numbers, and lines joined into one string.

use vstd::prelude::*;
use vstd::string::StringExecFns;

verus! {

/// The texts of a list of strings, in order.
pub open spec fn texts(strings: Seq<String>) -> Seq<Seq<char>> {
    strings.map_values(|string: String| string@)
}

/// The character of a decimal digit.
pub open spec fn digit_char(digit: nat) -> char
    recommends
        digit < 10,
{
    (0x30 + digit) as u8 as char
}

/// A number in decimal, without sign or leading zeros.
pub open spec fn decimal(n: nat) -> Seq<char>
    decreases n,
{
    if n < 10 {
        seq![digit_char(n)]
    } else {
        decimal(n / 10).push(digit_char(n % 10))
    }
}

/// Each line followed by a line feed, one after the other.
pub open spec fn join_lines(lines: Seq<Seq<char>>) -> Seq<char>
    decreases lines.len(),
{
    if lines.len() == 0 {
        Seq::empty()
    } else {
        join_lines(lines.drop_last()) + lines.last() + seq!['\n']
    }
}

/// How many line feeds a text holds.
pub open spec fn line_feeds(text: Seq<char>) -> nat
    decreases text.len(),
{
    if text.len() == 0 {
        0
    } else if text.last() == '\n' {
        line_feeds(text.drop_last()) + 1
    } else {
        line_feeds(text.drop_last())
    }
}

/// A text without a line feed.
pub open spec fn is_single_line(text: Seq<char>) -> bool {
    forall|i: int| 0 <= i < text.len() ==> text[i] != '\n'
}

/// One text occurs inside another.
pub open spec fn includes(text: Seq<char>, part: Seq<char>) -> bool {
    exists|start: int|
        0 <= start && start + part.len() <= text.len() && #[trigger] text.subrange(
            start,
            start + part.len(),
        ) == part
}

/// Appending a text without line feeds leaves the count unchanged.
pub proof fn lemma_line_feeds_append(text: Seq<char>, tail: Seq<char>)
    requires
        is_single_line(tail),
    ensures
        line_feeds(text + tail) == line_feeds(text),
    decreases tail.len(),
{
    if tail.len() == 0 {
        assert(text + tail =~= text);
    } else {
        assert((text + tail).drop_last() =~= text + tail.drop_last());
        lemma_line_feeds_append(text, tail.drop_last());
    }
}

/// Lines that hold no line feed themselves are counted exactly by the line
/// feeds of their joined text.
pub proof fn lemma_join_lines_count(lines: Seq<Seq<char>>)
    requires
        forall|k: int| 0 <= k < lines.len() ==> is_single_line(#[trigger] lines[k]),
    ensures
        line_feeds(join_lines(lines)) == lines.len(),
    decreases lines.len(),
{
    if lines.len() > 0 {
        let front = join_lines(lines.drop_last());
        lemma_join_lines_count(lines.drop_last());
        lemma_line_feeds_append(front, lines.last());
        let joined = front + lines.last() + seq!['\n'];
        assert(joined.drop_last() =~= front + lines.last());
    }
}

/// A joined text includes each of its lines.
pub proof fn lemma_join_includes_line(lines: Seq<Seq<char>>, k: int)
    requires
        0 <= k < lines.len(),
    ensures
        includes(join_lines(lines), lines[k]),
    decreases lines.len(),
{
    let joined = join_lines(lines);
    let front = join_lines(lines.drop_last());
    if k == lines.len() - 1 {
        let start = front.len() as int;
        assert(joined.subrange(start, start + lines[k].len()) =~= lines[k]);
    } else {
        lemma_join_includes_line(lines.drop_last(), k);
        let start = choose|start: int|
            0 <= start && start + lines[k].len() <= front.len() && #[trigger] front.subrange(
                start,
                start + lines[k].len(),
            ) == lines[k];
        assert(joined.subrange(start, start + lines[k].len()) =~= front.subrange(
            start,
            start + lines[k].len(),
        ));
    }
}

/// Inclusion carries over from a line to a text that includes the line.
pub proof fn lemma_includes_is_transitive(text: Seq<char>, line: Seq<char>, part: Seq<char>)
    requires
        includes(text, line),
        includes(line, part),
    ensures
        includes(text, part),
{
    let outer = choose|start: int|
        0 <= start && start + line.len() <= text.len() && #[trigger] text.subrange(
            start,
            start + line.len(),
        ) == line;
    let inner = choose|start: int|
        0 <= start && start + part.len() <= line.len() && #[trigger] line.subrange(
            start,
            start + part.len(),
        ) == part;
    assert(text.subrange(outer + inner, outer + inner + part.len()) =~= line.subrange(
        inner,
        inner + part.len(),
    ));
}

/// A joined text of at least one line ends with a line feed.
pub proof fn lemma_join_ends_with_line_feed(lines: Seq<Seq<char>>)
    requires
        lines.len() > 0,
    ensures
        join_lines(lines).len() > 0,
        join_lines(lines).last() == '\n',
{
}

/// A text without line feeds that occurs in a joined text occurs within
/// one of its lines.
pub proof fn lemma_part_lies_in_one_line(lines: Seq<Seq<char>>, part: Seq<char>)
    requires
        is_single_line(part),
        part.len() > 0,
        includes(join_lines(lines), part),
    ensures
        exists|k: int| 0 <= k < lines.len() && includes(#[trigger] lines[k], part),
    decreases lines.len(),
{
    let joined = join_lines(lines);
    let n = part.len() as int;
    let s = choose|start: int|
        0 <= start && start + part.len() <= joined.len() && #[trigger] joined.subrange(
            start,
            start + part.len(),
        ) == part;
    assert(joined.subrange(s, s + n) == part);
    if lines.len() > 0 {
        let shorter = lines.drop_last();
        let front = join_lines(shorter);
        let last = lines.last();
        let at = lines.len() - 1;
        assert(joined == front + last + seq!['\n']);
        if s + n == joined.len() {
            assert(part[n - 1] == joined.subrange(s, s + n)[n - 1]);
            assert(joined[s + n - 1] == '\n');
            assert(false);
        }
        if s + n <= front.len() {
            assert(front.subrange(s, s + n) =~= joined.subrange(s, s + n));
            lemma_part_lies_in_one_line(shorter, part);
            let k = choose|k: int| 0 <= k < shorter.len() && includes(#[trigger] shorter[k], part);
            assert(lines[k] == shorter[k]);
        } else if s >= front.len() {
            let from = s - front.len();
            assert(last.subrange(from, from + n) =~= joined.subrange(s, s + n));
            assert(includes(lines[at], part));
        } else {
            if shorter.len() > 0 {
                lemma_join_ends_with_line_feed(shorter);
            }
            let i = front.len() - 1 - s;
            assert(part[i] == joined.subrange(s, s + n)[i]);
            assert(joined[s + i] == front[front.len() - 1]);
            assert(false);
        }
    }
}

/// A decimal number holds no line feed.
pub proof fn lemma_decimal_is_single_line(n: nat)
    ensures
        is_single_line(decimal(n)),
    decreases n,
{
    if n >= 10 {
        lemma_decimal_is_single_line(n / 10);
    }
}

/// The text of one decimal digit.
fn digit_text(digit: u16) -> (text: &'static str)
    requires
        digit < 10,
    ensures
        text@ == seq![digit_char(digit as nat)],
{
    proof {
        reveal_strlit("0");
        reveal_strlit("1");
        reveal_strlit("2");
        reveal_strlit("3");
        reveal_strlit("4");
        reveal_strlit("5");
        reveal_strlit("6");
        reveal_strlit("7");
        reveal_strlit("8");
        reveal_strlit("9");
    }
    let text = match digit {
        0 => "0",
        1 => "1",
        2 => "2",
        3 => "3",
        4 => "4",
        5 => "5",
        6 => "6",
        7 => "7",
        8 => "8",
        _ => "9",
    };
    assert(text@ =~= seq![digit_char(digit as nat)]);
    text
}

/// Writes a number in decimal.
pub fn decimal_text(n: u16) -> (text: String)
    ensures
        text@ == decimal(n as nat),
    decreases n,
{
    if n < 10 {
        digit_text(n).to_owned()
    } else {
        let mut text = decimal_text(n / 10);
        text.append(digit_text(n % 10));
        assert(text@ =~= decimal(n as nat));
        text
    }
}

} // verus!
