//! Text in and out of the machine: splitting a program into lines, and
//! writing integers in decimal.

use vstd::prelude::*;

verus! {

/// Number of characters before the first line feed of `text`, or the length
/// of `text` where it holds none.
pub open spec fn line_end(text: Seq<char>) -> nat
    decreases text.len(),
{
    if text.len() == 0 || text[0] == '\n' {
        0
    } else {
        1 + line_end(text.drop_first())
    }
}

/// `line` without one trailing carriage return.
pub open spec fn strip_cr(line: Seq<char>) -> Seq<char> {
    if line.len() > 0 && line.last() == '\r' {
        line.drop_last()
    } else {
        line
    }
}

/// The lines of `text`.
///
/// A line ends at a line feed, or at a carriage return directly followed by
/// one; neither belongs to the line. What follows the last line feed is a
/// line of its own unless it is empty, and it keeps a trailing carriage
/// return.
pub open spec fn lines(text: Seq<char>) -> Seq<Seq<char>>
    decreases text.len(),
{
    let n = line_end(text) as int;
    if text.len() == 0 {
        Seq::empty()
    } else if n >= text.len() {
        seq![text]
    } else {
        seq![strip_cr(text.take(n))] + lines(text.skip(n + 1))
    }
}

/// A position with no line feed before it, that holds one or is the end of
/// `text`, is `line_end`.
pub proof fn lemma_line_end_is(text: Seq<char>, n: int)
    requires
        0 <= n <= text.len(),
        forall|j: int| 0 <= j < n ==> text[j] != '\n',
        n < text.len() ==> text[n] == '\n',
    ensures
        line_end(text) == n,
    decreases text.len(),
{
    if text.len() == 0 || text[0] == '\n' {
    } else {
        let rest = text.drop_first();
        assert forall|j: int| 0 <= j < n - 1 implies rest[j] != '\n' by {
            assert(rest[j] == text[j + 1]);
        }
        lemma_line_end_is(rest, n - 1);
    }
}

/// `String::push` of the standard library appends the one character to the
/// end of the string and changes nothing else of it.
pub assume_specification[ String::push ](s: &mut String, c: char)
    ensures
        final(s)@ == old(s)@.push(c),
;

/// The character for the digit `d`, from 0 to 9.
pub open spec fn digit(d: int) -> char {
    ('0' as int + d) as char
}

/// The decimal digits of `n`, without leading zeros.
pub open spec fn digits(n: nat) -> Seq<char>
    decreases n,
{
    if n < 10 {
        seq![digit(n as int)]
    } else {
        digits(n / 10).push(digit((n % 10) as int))
    }
}

/// `n` in decimal, with a minus sign where it is negative.
pub open spec fn decimal(n: int) -> Seq<char> {
    if n < 0 {
        seq!['-'] + digits((-n) as nat)
    } else {
        digits(n as nat)
    }
}

/// Appends the decimal digits of `n` to `s`.
fn push_digits(s: &mut String, n: u32)
    ensures
        final(s)@ == old(s)@ + digits(n as nat),
    decreases n,
{
    if n >= 10 {
        push_digits(s, n / 10);
    }
    let d: u8 = (n % 10) as u8;
    s.push((48u8 + d) as char);
}

/// Appends `n` in decimal to `s`.
pub fn push_decimal(s: &mut String, n: i32)
    ensures
        final(s)@ == old(s)@ + decimal(n as int),
{
    if n < 0 {
        s.push('-');
        push_digits(s, (-(n as i64)) as u32);
    } else {
        push_digits(s, n as u32);
    }
}

/// The characters of `text`, one by one.
pub fn chars_of(text: &str) -> (chars: Vec<char>)
    ensures
        chars@ == text@,
{
    let mut chars: Vec<char> = Vec::new();
    for c in it: text.chars()
        invariant
            chars@ == it.seq().take(it.index() as int),
    {
        chars.push(c);
    }
    chars
}

/// Splits `text` into its lines.
pub fn split_lines(text: &str) -> (ls: Vec<Vec<char>>)
    ensures
        ls.deep_view() == lines(text@),
{
    let mut ls: Vec<Vec<char>> = Vec::new();
    let mut cur: Vec<char> = Vec::new();
    let ghost mut start: int = 0;
    assert(text@.skip(0) == text@);
    for c in it: text.chars()
        invariant
            it.seq() == text@,
            0 <= start <= it.index() <= text@.len(),
            cur@ == text@.subrange(start, it.index() as int),
            forall|j: int| start <= j < it.index() ==> text@[j] != '\n',
            lines(text@) == ls.deep_view() + lines(text@.skip(start)),
    {
        let ghost i: int = it.index() as int;
        if c == '\n' {
            let ghost rest = text@.skip(start);
            let ghost raw = cur@;
            proof {
                lemma_line_end_is(rest, i - start);
                assert(rest.take(i - start) == raw);
                assert(rest.skip(i - start + 1) == text@.skip(i + 1));
            }
            let n = cur.len();
            if n > 0 && cur[n - 1] == '\r' {
                cur.pop();
            }
            assert(cur.deep_view() == strip_cr(raw));
            ls.push(cur);
            cur = Vec::new();
            proof {
                start = i + 1;
            }
        } else {
            cur.push(c);
        }
    }
    let ghost rest = text@.skip(start);
    if cur.len() > 0 {
        proof {
            lemma_line_end_is(rest, rest.len() as int);
            assert(rest == cur.deep_view());
        }
        ls.push(cur);
    }
    ls
}

} // verus!
