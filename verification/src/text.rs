//! Numbers as decimal text.

use vstd::prelude::*;
use crate::tokens::string_from_chars;

verus! {

/// The character of a decimal digit.
pub open spec fn digit_char(d: nat) -> char {
    if d == 0 {
        '0'
    } else if d == 1 {
        '1'
    } else if d == 2 {
        '2'
    } else if d == 3 {
        '3'
    } else if d == 4 {
        '4'
    } else if d == 5 {
        '5'
    } else if d == 6 {
        '6'
    } else if d == 7 {
        '7'
    } else if d == 8 {
        '8'
    } else {
        '9'
    }
}

/// The decimal digits of a number, without leading zeros.
pub open spec fn decimal(n: nat) -> Seq<char>
    decreases n,
{
    if n < 10 {
        seq![digit_char(n)]
    } else {
        decimal(n / 10).push(digit_char(n % 10))
    }
}

/// `text` with as many copies of `fill` in front as it takes to reach
/// `width` characters.
pub open spec fn padded(text: Seq<char>, width: nat, fill: char) -> Seq<char> {
    if text.len() >= width {
        text
    } else {
        Seq::new((width - text.len()) as nat, |i: int| fill) + text
    }
}

fn digit(d: usize) -> (c: char)
    requires
        d < 10,
    ensures
        c == digit_char(d as nat),
{
    match d {
        0 => '0',
        1 => '1',
        2 => '2',
        3 => '3',
        4 => '4',
        5 => '5',
        6 => '6',
        7 => '7',
        8 => '8',
        _ => '9',
    }
}

/// The decimal digits of `n`.
pub fn decimal_chars(n: usize) -> (digits: Vec<char>)
    ensures
        digits@ == decimal(n as nat),
    decreases n,
{
    if n < 10 {
        let mut digits: Vec<char> = Vec::new();
        digits.push(digit(n));
        assert(digits@ =~= seq![digit_char(n as nat)]);
        digits
    } else {
        let mut digits = decimal_chars(n / 10);
        digits.push(digit(n % 10));
        digits
    }
}

/// The decimal digits of `n` as a string.
pub fn decimal_string(n: usize) -> (text: String)
    ensures
        text@ == decimal(n as nat),
{
    string_from_chars(&decimal_chars(n))
}

/// Pads `text` on the left with `fill` to `width` characters.
pub fn pad_left(text: &Vec<char>, width: usize, fill: char) -> (out: Vec<char>)
    ensures
        out@ == padded(text@, width as nat, fill),
{
    let mut out: Vec<char> = Vec::new();
    if text.len() < width {
        let missing = width - text.len();
        let mut i: usize = 0;
        while i < missing
            invariant
                i <= missing,
                out@ == Seq::new(i as nat, |k: int| fill),
            decreases missing - i,
        {
            out.push(fill);
            i += 1;
            assert(out@ =~= Seq::new(i as nat, |k: int| fill));
        }
    }
    let ghost front = out@;
    let mut j: usize = 0;
    while j < text.len()
        invariant
            j <= text.len(),
            out@ == front + text@.take(j as int),
        decreases text.len() - j,
    {
        out.push(text[j]);
        j += 1;
        assert(out@ =~= front + text@.take(j as int));
    }
    assert(text@.take(text.len() as int) == text@);
    assert(Seq::<char>::empty() + text@ =~= text@);
    out
}

} // verus!
