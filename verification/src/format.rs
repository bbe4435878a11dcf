//! Text for the frame: decimal numbers, padding and centring.

use vstd::prelude::*;

verus! {

/// The character of a decimal digit.
pub open spec fn digit_char(digit: nat) -> char {
    if digit == 0 {
        '0'
    } else if digit == 1 {
        '1'
    } else if digit == 2 {
        '2'
    } else if digit == 3 {
        '3'
    } else if digit == 4 {
        '4'
    } else if digit == 5 {
        '5'
    } else if digit == 6 {
        '6'
    } else if digit == 7 {
        '7'
    } else if digit == 8 {
        '8'
    } else {
        '9'
    }
}

/// A number in decimal, without leading zeros; 0 is `0`.
pub open spec fn decimal(value: nat) -> Seq<char>
    decreases value,
{
    if value < 10 {
        seq![digit_char(value)]
    } else {
        decimal(value / 10).push(digit_char(value % 10))
    }
}

/// `count` spaces.
pub open spec fn blanks(count: nat) -> Seq<char> {
    Seq::new(count, |i: int| ' ')
}

/// `text` behind as many spaces as bring it to `width` characters; `text`
/// itself where it is that long already.
pub open spec fn right_aligned(text: Seq<char>, width: nat) -> Seq<char> {
    if text.len() < width {
        blanks((width - text.len()) as nat) + text
    } else {
        text
    }
}

/// The spaces put before a text that takes `text_width` cells to centre it
/// in `width` cells: half of what is left over, rounded down, and none
/// where the text is wider.
pub open spec fn centre_padding(text_width: nat, width: nat) -> nat {
    if text_width < width {
        ((width - text_width) / 2) as nat
    } else {
        0
    }
}

fn digit(value: usize) -> (c: char)
    requires
        value < 10,
    ensures
        c == digit_char(value as nat),
{
    if value == 0 {
        '0'
    } else if value == 1 {
        '1'
    } else if value == 2 {
        '2'
    } else if value == 3 {
        '3'
    } else if value == 4 {
        '4'
    } else if value == 5 {
        '5'
    } else if value == 6 {
        '6'
    } else if value == 7 {
        '7'
    } else if value == 8 {
        '8'
    } else {
        '9'
    }
}

/// Writes a number in decimal.
pub fn to_decimal(value: usize) -> (text: String)
    ensures
        text@ == decimal(value as nat),
{
    let mut digits: Vec<char> = Vec::new();
    let mut rest: usize = value;
    while rest >= 10
        invariant
            decimal(value as nat) == decimal(rest as nat) + digits@.reverse(),
        decreases rest,
    {
        let ghost before = digits@;
        digits.push(digit(rest % 10));
        proof {
            assert(digits@.reverse() =~= seq![digit_char((rest % 10) as nat)] + before.reverse());
            assert(decimal(rest as nat) + before.reverse() =~= decimal((rest / 10) as nat)
                + digits@.reverse());
        }
        rest = rest / 10;
    }
    let mut text = String::new();
    text.push(digit(rest));
    let ghost head = decimal(rest as nat);
    let mut i: usize = digits.len();
    while i > 0
        invariant
            i <= digits.len(),
            decimal(value as nat) == head + digits@.reverse(),
            text@ == head + digits@.reverse().subrange(0, digits.len() - i),
        decreases i,
    {
        i -= 1;
        text.push(digits[i]);
        assert(digits@.reverse().subrange(0, digits.len() - i) =~= digits@.reverse().subrange(
            0,
            digits.len() - i - 1,
        ).push(digits@[i as int]));
    }
    assert(digits@.reverse().subrange(0, digits.len() as int) =~= digits@.reverse());
    text
}

/// Appends `count` spaces to `text`.
pub fn push_blanks(text: &mut String, count: usize)
    ensures
        final(text)@ == old(text)@ + blanks(count as nat),
{
    let mut i: usize = 0;
    assert(text@ + blanks(0) =~= text@);
    while i < count
        invariant
            i <= count,
            text@ == old(text)@ + blanks(i as nat),
        decreases count - i,
    {
        text.push(' ');
        i += 1;
        assert(old(text)@ + blanks(i as nat) =~= (old(text)@ + blanks((i - 1) as nat)).push(' '));
    }
}

/// Pads `text` on the left to `width` characters.
pub fn align_right(text: &str, width: usize) -> (padded: String)
    ensures
        padded@ == right_aligned(text@, width as nat),
{
    let len = text.unicode_len();
    let mut padded = String::new();
    if len < width {
        push_blanks(&mut padded, width - len);
    }
    padded.append(text);
    assert(padded@ =~= right_aligned(text@, width as nat));
    padded
}

} // verus!
