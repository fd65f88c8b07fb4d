//! Building blocks for laying out text: runs of a glyph, decimal numbers,
//! padding, and splitting into lines.
//!
//! Each executable function appends to a `String` and says which characters
//! it appended.

use vstd::prelude::*;
use vstd::string::*;

verus! {

/// A run of `count` spaces.
pub open spec fn spaces(count: nat) -> Seq<char> {
    Seq::new(count, |i: int| ' ')
}

/// `unit` written `count` times in a row.
pub open spec fn repeated(unit: Seq<char>, count: nat) -> Seq<char>
    decreases count,
{
    if count == 0 {
        Seq::empty()
    } else {
        repeated(unit, (count - 1) as nat) + unit
    }
}

/// The character for a single decimal digit.
pub open spec fn digit(d: nat) -> char
    recommends
        d < 10,
{
    (48 + d) as char
}

/// `value` written in base ten, without sign or leading zeros.
pub open spec fn decimal(value: nat) -> Seq<char>
    decreases value,
{
    if value < 10 {
        seq![digit(value)]
    } else {
        decimal(value / 10).push(digit(value % 10))
    }
}

/// The number of decimal digits of `value`; zero has one digit.
pub open spec fn digits(value: nat) -> nat
    decreases value,
{
    if value < 10 {
        1
    } else {
        digits(value / 10) + 1
    }
}

/// Ten to the power `exponent`.
pub open spec fn pow10(exponent: nat) -> nat
    decreases exponent,
{
    if exponent == 0 {
        1
    } else {
        10 * pow10((exponent - 1) as nat)
    }
}

/// `text` right-aligned in a field of `width` characters, filled on the left
/// with `fill`. Text that is wider than the field is left as it is.
pub open spec fn padded_start(text: Seq<char>, width: nat, fill: char) -> Seq<char> {
    if text.len() < width {
        Seq::new((width - text.len()) as nat, |i: int| fill) + text
    } else {
        text
    }
}

/// `text` centred in a field of `width` characters. When the free room is
/// odd, the extra space goes to the right. Text that is wider than the field
/// is left as it is.
pub open spec fn centered(text: Seq<char>, width: nat) -> Seq<char> {
    if text.len() < width {
        let room = (width - text.len()) as nat;
        spaces(room / 2) + text + spaces((room - room / 2) as nat)
    } else {
        text
    }
}

/// The written form of a decimal number has as many characters as the number
/// has digits.
pub proof fn lemma_decimal_len(value: nat)
    ensures
        decimal(value).len() == digits(value),
    decreases value,
{
    if value >= 10 {
        lemma_decimal_len(value / 10);
    }
}

/// A number with `d` digits lies between `10^(d-1)` and `10^d`: the digit
/// count of a positive number is the floor of its base-ten logarithm, plus
/// one.
pub proof fn lemma_digits_bounds(value: nat)
    requires
        value >= 1,
    ensures
        digits(value) >= 1,
        pow10((digits(value) - 1) as nat) <= value < pow10(digits(value)),
    decreases value,
{
    if value < 10 {
        assert(pow10(1) == 10) by {
            reveal_with_fuel(pow10, 2);
        }
    } else {
        lemma_digits_bounds(value / 10);
        let d = digits(value / 10);
        assert(pow10(d + 1) == 10 * pow10(d));
        assert(pow10(d) == 10 * pow10((d - 1) as nat));
    }
}

/// The digit count is the only `d` with `10^(d-1) <= value < 10^d`.
pub proof fn lemma_digits_unique(value: nat, d: nat)
    requires
        d >= 1,
        pow10((d - 1) as nat) <= value < pow10(d),
    ensures
        digits(value) == d,
    decreases d,
{
    if d == 1 {
        assert(pow10(1) == 10) by {
            reveal_with_fuel(pow10, 2);
        }
    } else {
        assert(pow10(d) == 10 * pow10((d - 1) as nat));
        assert(pow10((d - 1) as nat) == 10 * pow10((d - 2) as nat));
        lemma_pow10_positive((d - 2) as nat);
        lemma_digits_unique(value / 10, (d - 1) as nat);
    }
}

/// Powers of ten are positive.
pub proof fn lemma_pow10_positive(exponent: nat)
    ensures
        pow10(exponent) >= 1,
    decreases exponent,
{
    if exponent > 0 {
        lemma_pow10_positive((exponent - 1) as nat);
    }
}

/// An exact power of ten `10^k` has `k + 1` digits, and every number from
/// `10^k` up to, but not including, `10^(k+1)` has as many.
pub proof fn lemma_digits_of_power_of_ten(exponent: nat, value: nat)
    requires
        pow10(exponent) <= value < pow10(exponent + 1),
    ensures
        digits(pow10(exponent)) == exponent + 1,
        digits(value) == exponent + 1,
{
    lemma_pow10_positive(exponent);
    assert(pow10(exponent + 1) == 10 * pow10(exponent));
    lemma_digits_unique(pow10(exponent), exponent + 1);
    lemma_digits_unique(value, exponent + 1);
}

/// A larger number never has fewer digits.
pub proof fn lemma_digits_monotonic(smaller: nat, larger: nat)
    requires
        smaller <= larger,
    ensures
        digits(smaller) <= digits(larger),
    decreases larger,
{
    if smaller >= 10 {
        lemma_digits_monotonic(smaller / 10, larger / 10);
    }
}

/// A run of `count` copies of `unit` has `count` times the length of `unit`.
pub proof fn lemma_repeated_len(unit: Seq<char>, count: nat)
    ensures
        repeated(unit, count).len() == count * unit.len(),
    decreases count,
{
    let len = unit.len();
    if count > 0 {
        lemma_repeated_len(unit, (count - 1) as nat);
        assert(count * len == (count - 1) * len + len) by (nonlinear_arith);
    } else {
        assert(count * len == 0) by (nonlinear_arith)
            requires
                count == 0,
        ;
    }
}

/// Appending in two steps is appending the two pieces joined.
pub proof fn lemma_append_twice(start: Seq<char>, first: Seq<char>, second: Seq<char>)
    ensures
        (start + first) + second == start + (first + second),
{
    assert((start + first) + second =~= start + (first + second));
}

/// Appending nothing changes nothing.
pub proof fn lemma_append_nothing(start: Seq<char>)
    ensures
        start + Seq::<char>::empty() == start,
        Seq::<char>::empty() + start == start,
{
    assert(start + Seq::<char>::empty() =~= start);
    assert(Seq::<char>::empty() + start =~= start);
}

/// Appends `count` spaces.
pub fn push_spaces(buffer: &mut String, count: usize)
    ensures
        final(buffer)@ == old(buffer)@ + spaces(count as nat),
{
    let mut written: usize = 0;
    while written < count
        invariant
            written <= count,
            buffer@ == old(buffer)@ + spaces(written as nat),
        decreases count - written,
    {
        buffer.append(" ");
        written = written + 1;
        proof {
            reveal_strlit(" ");
            assert(buffer@ =~= old(buffer)@ + spaces(written as nat));
        }
    }
}

/// Appends `unit`, `count` times over.
pub fn push_repeated(buffer: &mut String, unit: &str, count: usize)
    ensures
        final(buffer)@ == old(buffer)@ + repeated(unit@, count as nat),
{
    let mut written: usize = 0;
    while written < count
        invariant
            written <= count,
            buffer@ == old(buffer)@ + repeated(unit@, written as nat),
        decreases count - written,
    {
        buffer.append(unit);
        written = written + 1;
        proof {
            assert(buffer@ =~= old(buffer)@ + repeated(unit@, written as nat));
        }
    }
}

/// The one-character text for a decimal digit.
fn digit_text(d: u8) -> (text: &'static str)
    requires
        d < 10,
    ensures
        text@ == seq![digit(d as nat)],
{
    proof {
        reveal_strlit("0");
        reveal_strlit("1");
        reveal_strlit("2");
        reveal_strlit("3");
        reveal_strlit("4");
        reveal_strlit("5");
        reveal_strlit("6");
        reveal_strlit("7");
        reveal_strlit("8");
        reveal_strlit("9");
    }
    let text = match d {
        0 => "0",
        1 => "1",
        2 => "2",
        3 => "3",
        4 => "4",
        5 => "5",
        6 => "6",
        7 => "7",
        8 => "8",
        _ => "9",
    };
    assert(text@ =~= seq![digit(d as nat)]);
    text
}

/// Appends `value` in base ten.
pub fn push_decimal(buffer: &mut String, value: u128)
    ensures
        final(buffer)@ == old(buffer)@ + decimal(value as nat),
    decreases value,
{
    if value >= 10 {
        push_decimal(buffer, value / 10);
    }
    let last: u8 = (value % 10) as u8;
    buffer.append(digit_text(last));
    proof {
        assert(buffer@ =~= old(buffer)@ + decimal(value as nat));
    }
}

/// Counts the decimal digits of `value`.
pub fn count_digits(value: u128) -> (count: usize)
    ensures
        count == digits(value as nat),
        1 <= count <= 39,
{
    let mut rest: u128 = value;
    let mut count: usize = 1;
    assert(rest as nat * pow10(0) == rest) by (nonlinear_arith)
        requires
            pow10(0) == 1,
    ;
    while rest >= 10
        invariant
            1 <= count <= 39,
            digits(value as nat) == digits(rest as nat) + count - 1,
            rest as nat * pow10((count - 1) as nat) <= value,
        decreases rest,
    {
        proof {
            lemma_count_digits_step(value as nat, rest as nat, count as nat);
        }
        rest = rest / 10;
        count = count + 1;
    }
    count
}

proof fn lemma_count_digits_step(value: nat, rest: nat, count: nat)
    requires
        rest >= 10,
        count >= 1,
        rest * pow10((count - 1) as nat) <= value,
        value <= u128::MAX,
    ensures
        count < 39,
        (rest / 10) * pow10(count) <= value,
{
    let p = pow10((count - 1) as nat);
    assert(pow10(count) == 10 * p);
    assert((rest / 10) * (10 * p) <= rest * p) by (nonlinear_arith)
        requires
            rest >= 0,
            p >= 0,
    ;
    if count >= 39 {
        lemma_pow10_monotonic(38, (count - 1) as nat);
        assert(pow10(38) == 100000000000000000000000000000000000000) by {
            reveal_with_fuel(pow10, 39);
        }
        assert(rest * p >= 10 * p) by (nonlinear_arith)
            requires
                rest >= 10,
                p >= 0,
        ;
    }
}

/// Powers of ten grow with the exponent.
pub proof fn lemma_pow10_monotonic(smaller: nat, larger: nat)
    requires
        smaller <= larger,
    ensures
        pow10(smaller) <= pow10(larger),
    decreases larger,
{
    if smaller < larger {
        lemma_pow10_monotonic(smaller, (larger - 1) as nat);
    }
}


/// A run of one character is that character at every position.
pub proof fn lemma_repeated_single(fill: char, count: nat)
    ensures
        repeated(seq![fill], count) == Seq::new(count, |i: int| fill),
    decreases count,
{
    if count > 0 {
        lemma_repeated_single(fill, (count - 1) as nat);
    }
    assert(repeated(seq![fill], count) =~= Seq::new(count, |i: int| fill));
}

/// Appends `value` in base ten, with zeros in front where it has fewer than
/// `width` digits.
pub fn push_zero_padded(buffer: &mut String, value: u128, width: usize)
    ensures
        final(buffer)@ == old(buffer)@ + padded_start(decimal(value as nat), width as nat, '0'),
{
    let len = count_digits(value);
    proof {
        lemma_decimal_len(value as nat);
    }
    if len < width {
        push_repeated(buffer, "0", width - len);
        proof {
            reveal_strlit("0");
            assert("0"@ =~= seq!['0']);
            lemma_repeated_single('0', (width - len) as nat);
        }
    }
    push_decimal(buffer, value);
    proof {
        assert(buffer@ =~= old(buffer)@ + padded_start(
            decimal(value as nat),
            width as nat,
            '0',
        ));
    }
}

/// Appends `value` in base ten, centred in a field of `width` characters.
pub fn push_centered_decimal(buffer: &mut String, value: u128, width: usize)
    ensures
        final(buffer)@ == old(buffer)@ + centered(decimal(value as nat), width as nat),
{
    let len = count_digits(value);
    proof {
        lemma_decimal_len(value as nat);
    }
    if len < width {
        let room: usize = width - len;
        let before: usize = room / 2;
        push_spaces(buffer, before);
        push_decimal(buffer, value);
        push_spaces(buffer, room - before);
    } else {
        push_decimal(buffer, value);
    }
    proof {
        assert(buffer@ =~= old(buffer)@ + centered(decimal(value as nat), width as nat));
    }
}

/// Where the first line feed of `text` stands, or the length of `text` if it
/// has none.
pub open spec fn first_line_feed(text: Seq<char>) -> nat
    decreases text.len(),
{
    if text.len() == 0 || text[0] == '\n' {
        0
    } else {
        1 + first_line_feed(text.drop_first())
    }
}

/// `line` without the carriage return at its end, if it has one.
pub open spec fn without_carriage_return(line: Seq<char>) -> Seq<char> {
    if line.len() > 0 && line.last() == '\r' {
        line.drop_last()
    } else {
        line
    }
}

/// The lines of `text`.
///
/// A line ends at a line feed, or at a carriage return directly followed by
/// a line feed; neither belongs to the line. The last line needs no line
/// ending, and a line ending at the very end opens no further line: empty
/// text has no lines, and `"a\n"` has the one line `"a"`.
pub open spec fn lines(text: Seq<char>) -> Seq<Seq<char>>
    decreases text.len(),
{
    if text.len() == 0 {
        Seq::empty()
    } else {
        let end = first_line_feed(text);
        if end >= text.len() {
            seq![text]
        } else {
            seq![without_carriage_return(text.take(end as int))] + lines(
                text.skip(end as int + 1),
            )
        }
    }
}

/// The characters of each of `texts`.
pub open spec fn views_of(texts: Seq<&str>) -> Seq<Seq<char>> {
    Seq::new(texts.len(), |i: int| texts[i]@)
}

/// `first_line_feed` finds position `at` when no line feed stands before it
/// and one stands there, or the text ends there.
pub proof fn lemma_first_line_feed(text: Seq<char>, at: nat)
    requires
        at <= text.len(),
        forall|j: int| 0 <= j < at ==> text[j] != '\n',
        at == text.len() || text[at as int] == '\n',
    ensures
        first_line_feed(text) == at,
    decreases at,
{
    if at > 0 {
        let rest = text.drop_first();
        assert forall|j: int| 0 <= j < at - 1 implies rest[j] != '\n' by {
            assert(rest[j] == text[j + 1]);
        }
        lemma_first_line_feed(rest, (at - 1) as nat);
    }
}

/// Splits `text` into its lines.
pub fn split_lines<'a>(text: &'a str) -> (result: Vec<&'a str>)
    ensures
        views_of(result@) == lines(text@),
{
    broadcast use vstd::string::axiom_spec_iter;

    let total = text.unicode_len();
    let mut result: Vec<&'a str> = Vec::new();
    let mut start: usize = 0;
    let mut index: usize = 0;
    let mut after_return: bool = false;
    assert(text@.skip(0) =~= text@);
    assert(views_of(result@) + lines(text@.skip(0)) =~= lines(text@));
    for ch in it: text.chars()
        invariant
            it.seq() == text@,
            total == text@.len(),
            index == it.index(),
            start <= index <= total,
            forall|j: int| start <= j < index ==> text@[j] != '\n',
            after_return == (index > start && text@[index - 1] == '\r'),
            views_of(result@) + lines(text@.skip(start as int)) == lines(text@),
    {
        if ch == '\n' {
            let end: usize = if after_return {
                index - 1
            } else {
                index
            };
            let line = text.substring_char(start, end);
            proof {
                let rest = text@.skip(start as int);
                let at = (index - start) as nat;
                assert forall|j: int| 0 <= j < at implies rest[j] != '\n' by {
                    assert(rest[j] == text@[start + j]);
                }
                lemma_first_line_feed(rest, at);
                assert(rest.take(at as int) =~= text@.subrange(start as int, index as int));
                assert(rest.skip(at as int + 1) =~= text@.skip(index as int + 1));
                assert(without_carriage_return(text@.subrange(start as int, index as int))
                    =~= line@);
                assert(lines(rest) == seq![line@] + lines(text@.skip(index as int + 1)));
                assert(views_of(result@.push(line)) =~= views_of(result@) + seq![line@]);
                assert(views_of(result@.push(line)) + lines(text@.skip(index as int + 1))
                    =~= views_of(result@) + lines(rest));
            }
            result.push(line);
            start = index + 1;
            after_return = false;
        } else {
            after_return = ch == '\r';
        }
        index = index + 1;
    }
    if start < total {
        let line = text.substring_char(start, total);
        proof {
            let rest = text@.skip(start as int);
            assert forall|j: int| 0 <= j < rest.len() implies rest[j] != '\n' by {
                assert(rest[j] == text@[start + j]);
            }
            lemma_first_line_feed(rest, rest.len());
            assert(rest =~= line@);
            assert(views_of(result@.push(line)) =~= views_of(result@) + seq![line@]);
        }
        result.push(line);
    } else {
        assert(text@.skip(start as int).len() == 0);
        assert(views_of(result@) + lines(text@.skip(start as int)) =~= views_of(result@));
    }
    result
}

} // verus!
