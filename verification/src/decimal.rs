//! Natural numbers written in decimal, as they appear in a line of text.

use vstd::prelude::*;

verus! {

/// The character that stands for the digit `d`.
pub open spec fn digit(d: nat) -> char
    recommends
        d < 10,
{
    if d == 0 {
        '0'
    } else if d == 1 {
        '1'
    } else if d == 2 {
        '2'
    } else if d == 3 {
        '3'
    } else if d == 4 {
        '4'
    } else if d == 5 {
        '5'
    } else if d == 6 {
        '6'
    } else if d == 7 {
        '7'
    } else if d == 8 {
        '8'
    } else {
        '9'
    }
}

/// The numeral of `n`: its decimal digits, the most significant first,
/// without a sign and without leading zeros. The numeral of zero is "0".
pub open spec fn decimal(n: nat) -> Seq<char>
    decreases n,
{
    if n < 10 {
        seq![digit(n)]
    } else {
        decimal(n / 10).push(digit(n % 10))
    }
}

/// The digit `d` as a text of one character.
fn digit_str(d: u8) -> (s: &'static str)
    requires
        d < 10,
    ensures
        s@ == seq![digit(d as nat)],
{
    proof {
        reveal_strlit("0");
        reveal_strlit("1");
        reveal_strlit("2");
        reveal_strlit("3");
        reveal_strlit("4");
        reveal_strlit("5");
        reveal_strlit("6");
        reveal_strlit("7");
        reveal_strlit("8");
        reveal_strlit("9");
    }
    match d {
        0 => "0",
        1 => "1",
        2 => "2",
        3 => "3",
        4 => "4",
        5 => "5",
        6 => "6",
        7 => "7",
        8 => "8",
        _ => "9",
    }
}

/// Writes `n` in decimal.
pub fn decimal_string(n: u8) -> (s: String)
    ensures
        s@ == decimal(n as nat),
{
    let mut s = String::new();
    if n >= 100 {
        s.append(digit_str(n / 100));
    }
    if n >= 10 {
        s.append(digit_str((n / 10) % 10));
    }
    s.append(digit_str(n % 10));
    proof {
        reveal_with_fuel(decimal, 3);
    }
    s
}

/// The number below ten that a digit character stands for.
pub open spec fn digit_value(c: char) -> nat
    recommends
        '0' <= c <= '9',
{
    (c as nat - '0' as nat) as nat
}

/// The number that a text of decimal digits stands for.
pub open spec fn value(digits: Seq<char>) -> nat
    decreases digits.len(),
{
    if digits.len() == 0 {
        0
    } else {
        10 * value(digits.drop_last()) + digit_value(digits.last())
    }
}

/// A numeral is never empty, holds decimal digits only, and begins with a
/// zero only where the number is zero.
pub proof fn lemma_decimal_shape(n: nat)
    ensures
        decimal(n).len() >= 1,
        forall|i: int| 0 <= i < decimal(n).len() ==> '0' <= #[trigger] decimal(n)[i] <= '9',
        decimal(n)[0] == '0' <==> n == 0,
    decreases n,
{
    if n >= 10 {
        lemma_decimal_shape(n / 10);
    }
}

/// A numeral of a number below ten has one digit, below a hundred two, below
/// a thousand three: so that of a byte has at most three.
pub proof fn lemma_decimal_len(n: nat)
    requires
        n < 1000,
    ensures
        decimal(n).len() == if n < 10 { 1nat } else if n < 100 { 2nat } else { 3nat },
{
    reveal_with_fuel(decimal, 3);
}

/// A numeral stands for the number it was written from: two numbers with
/// the same numeral are the same number.
pub proof fn lemma_decimal_value(n: nat)
    ensures
        value(decimal(n)) == n,
    decreases n,
{
    if n < 10 {
        reveal_with_fuel(value, 2);
    } else {
        lemma_decimal_value(n / 10);
        assert(decimal(n).drop_last() =~= decimal(n / 10));
    }
}

} // verus!

