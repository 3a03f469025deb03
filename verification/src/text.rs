//! Display formatting of raw lines: the numbered gutter and the
//! replacement of characters that a terminal cell cannot show.

use vstd::prelude::*;

verus! {

/// Width of the gutter that holds the line number.
pub const NUMBER_WIDTH: usize = 6;

/// The character a tab is replaced with, four times over.
pub const NO_BREAK_SPACE: char = '\u{a0}';

/// The decimal digit `d` as a character.
pub open spec fn digit_char(d: nat) -> char {
    if d == 0 {
        '0'
    } else if d == 1 {
        '1'
    } else if d == 2 {
        '2'
    } else if d == 3 {
        '3'
    } else if d == 4 {
        '4'
    } else if d == 5 {
        '5'
    } else if d == 6 {
        '6'
    } else if d == 7 {
        '7'
    } else if d == 8 {
        '8'
    } else {
        '9'
    }
}

/// The decimal numeral of `n`, most significant digit first.
pub open spec fn digits(n: nat) -> Seq<char>
    decreases n,
{
    if n < 10 {
        seq![digit_char(n)]
    } else {
        digits(n / 10).push(digit_char(n % 10))
    }
}

/// `s` right-aligned in a field of `width` characters, filled with spaces
/// on the left; `s` itself where it is at least that long.
pub open spec fn pad_left(s: Seq<char>, width: nat) -> Seq<char> {
    if s.len() >= width {
        s
    } else {
        Seq::new((width - s.len()) as nat, |i: int| ' ') + s
    }
}

/// The gutter of line `n`: its number, right-aligned, and the separator.
pub open spec fn line_label(n: nat) -> Seq<char> {
    pad_left(digits(n), NUMBER_WIDTH as nat) + seq!['|', ' ', ' ']
}

/// What one raw character becomes on display: a tab turns into four
/// no-break spaces, a carriage return disappears, anything else stays.
pub open spec fn expand_char(c: char) -> Seq<char> {
    if c == '\t' {
        seq![NO_BREAK_SPACE, NO_BREAK_SPACE, NO_BREAK_SPACE, NO_BREAK_SPACE]
    } else if c == '\r' {
        Seq::empty()
    } else {
        seq![c]
    }
}

/// The raw text with every character expanded, in order.
pub open spec fn expand(raw: Seq<char>) -> Seq<char>
    decreases raw.len(),
{
    if raw.len() == 0 {
        Seq::empty()
    } else {
        expand(raw.drop_last()) + expand_char(raw.last())
    }
}

/// The display form of raw line number `n`.
pub open spec fn spec_format_line(n: nat, raw: Seq<char>) -> Seq<char> {
    line_label(n) + expand(raw)
}

/// Whether `line` starts with the gutter of line number `n`.
pub open spec fn is_numbered(line: Seq<char>, n: nat) -> bool {
    line_label(n).is_prefix_of(line)
}

/// Every formatted line carries the gutter of its number.
pub proof fn lemma_format_line_is_numbered(n: nat, raw: Seq<char>)
    ensures
        is_numbered(spec_format_line(n, raw), n),
{
    let label = line_label(n);
    assert(spec_format_line(n, raw).subrange(0, label.len() as int) =~= label);
}

/// `String::push`: appends the one character to the end of the string.
#[verifier::external_body]
pub(crate) fn push_char(s: &mut String, c: char)
    ensures
        final(s)@ == old(s)@.push(c),
{
    s.push(c);
}

/// The character of one decimal digit.
fn digit(d: usize) -> (c: char)
    requires
        d < 10,
    ensures
        c == digit_char(d as nat),
{
    if d == 0 {
        '0'
    } else if d == 1 {
        '1'
    } else if d == 2 {
        '2'
    } else if d == 3 {
        '3'
    } else if d == 4 {
        '4'
    } else if d == 5 {
        '5'
    } else if d == 6 {
        '6'
    } else if d == 7 {
        '7'
    } else if d == 8 {
        '8'
    } else {
        '9'
    }
}

/// How many digits the decimal numeral of `n` has.
fn digit_count(n: usize) -> (count: usize)
    ensures
        count == digits(n as nat).len(),
    decreases n,
{
    if n < 10 {
        1
    } else {
        let rest = digit_count(n / 10);
        proof {
            lemma_digits_len_bound((n / 10) as nat);
        }
        rest + 1
    }
}

/// A numeral has one digit below ten, and never more digits than the
/// number it stands for says.
proof fn lemma_digits_len_bound(n: nat)
    ensures
        digits(n).len() <= if n < 10 { 1 } else { n },
    decreases n,
{
    if n >= 10 {
        lemma_digits_len_bound(n / 10);
    }
}

/// Appends the decimal numeral of `n`.
fn push_digits(out: &mut String, n: usize)
    ensures
        final(out)@ == old(out)@ + digits(n as nat),
    decreases n,
{
    if n >= 10 {
        push_digits(out, n / 10);
    }
    push_char(out, digit(n % 10));
    assert(final(out)@ =~= old(out)@ + digits(n as nat));
}

/// Appends what the raw character `c` becomes on display.
fn push_expanded(out: &mut String, c: char)
    ensures
        final(out)@ == old(out)@ + expand_char(c),
{
    if c == '\t' {
        push_char(out, NO_BREAK_SPACE);
        push_char(out, NO_BREAK_SPACE);
        push_char(out, NO_BREAK_SPACE);
        push_char(out, NO_BREAK_SPACE);
    } else if c != '\r' {
        push_char(out, c);
    }
    assert(final(out)@ =~= old(out)@ + expand_char(c));
}

/// Formats raw line number `number` for display: the number right-aligned
/// in six columns, the separator `"|  "`, then the text with each tab
/// replaced by four no-break spaces and each carriage return removed.
pub fn format_line(number: usize, raw: &str) -> (line: String)
    ensures
        line@ == spec_format_line(number as nat, raw@),
{
    let mut line = String::new();
    let count = digit_count(number);
    let mut filled: usize = count;
    while filled < NUMBER_WIDTH
        invariant
            count == digits(number as nat).len(),
            count <= filled,
            filled == count || filled <= NUMBER_WIDTH,
            line@ == Seq::new((filled - count) as nat, |i: int| ' '),
        decreases NUMBER_WIDTH - filled,
    {
        push_char(&mut line, ' ');
        filled = filled + 1;
        assert(line@ =~= Seq::new((filled - count) as nat, |i: int| ' '));
    }
    push_digits(&mut line, number);
    assert(line@ =~= pad_left(digits(number as nat), NUMBER_WIDTH as nat));
    push_char(&mut line, '|');
    push_char(&mut line, ' ');
    push_char(&mut line, ' ');
    assert(line@ =~= line_label(number as nat));
    let ghost label = line@;
    for c in it: raw.chars()
        invariant
            it.seq() == raw@,
            line@ == label + expand(raw@.take(it.index() as int)),
    {
        proof {
            let k = it.index() as int;
            assert(raw@.take(k + 1).drop_last() =~= raw@.take(k));
            assert(raw@.take(k + 1).last() == c);
        }
        push_expanded(&mut line, c);
        assert(line@ =~= label + expand(raw@.take(it.index() + 1)));
    }
    assert(raw@.take(raw@.len() as int) =~= raw@);
    line
}

} // verus!
