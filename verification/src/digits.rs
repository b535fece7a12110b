//! Decimal digits of a number, as they are typed on the keypad.

use vstd::prelude::*;

verus! {

/// The decimal digits of `n`, most significant first. Zero has the one digit 0.
pub open spec fn decimal_digits(n: nat) -> Seq<u8>
    decreases n,
{
    if n < 10 {
        seq![n as u8]
    } else {
        decimal_digits(n / 10).push((n % 10) as u8)
    }
}

/// The number that a sequence of decimal digits, most significant first, denotes.
pub open spec fn digits_value(digits: Seq<u8>) -> nat
    decreases digits.len(),
{
    if digits.len() == 0 {
        0
    } else {
        digits_value(digits.drop_last()) * 10 + digits.last() as nat
    }
}

/// The character that shows the digit `d`.
pub open spec fn digit_char(d: u8) -> char {
    if d == 0 {
        '0'
    } else if d == 1 {
        '1'
    } else if d == 2 {
        '2'
    } else if d == 3 {
        '3'
    } else if d == 4 {
        '4'
    } else if d == 5 {
        '5'
    } else if d == 6 {
        '6'
    } else if d == 7 {
        '7'
    } else if d == 8 {
        '8'
    } else {
        '9'
    }
}

/// `n` written out in decimal.
pub open spec fn decimal_text(n: nat) -> Seq<char> {
    decimal_digits(n).map_values(|d: u8| digit_char(d))
}

/// Every entry of `decimal_digits(n)` is a digit, there is at least one of
/// them, the first is not zero unless `n` is zero, and together they denote `n`.
pub proof fn lemma_decimal_digits(n: nat)
    ensures
        decimal_digits(n).len() >= 1,
        forall|i: int| 0 <= i < decimal_digits(n).len() ==> #[trigger] decimal_digits(n)[i] < 10,
        n != 0 ==> decimal_digits(n)[0] != 0,
        n == 0 ==> decimal_digits(n) == seq![0u8],
        digits_value(decimal_digits(n)) == n,
    decreases n,
{
    if n < 10 {
        let s = decimal_digits(n);
        assert(digits_value(s.drop_last()) == 0);
    } else {
        lemma_decimal_digits(n / 10);
        let head = decimal_digits(n / 10);
        let s = decimal_digits(n);
        assert(s.drop_last() == head);
    }
}

/// The number of digits grows with the number: below `10^k` there are at
/// most `k` of them, so a 16-bit number has at most five and a byte at most three.
pub proof fn lemma_decimal_digits_len(n: nat)
    ensures
        n < 10 <==> decimal_digits(n).len() == 1,
        10 <= n < 100 <==> decimal_digits(n).len() == 2,
        100 <= n < 1000 <==> decimal_digits(n).len() == 3,
        1000 <= n < 10000 <==> decimal_digits(n).len() == 4,
        10000 <= n < 100000 <==> decimal_digits(n).len() == 5,
    decreases n,
{
    if n >= 10 {
        lemma_decimal_digits_len(n / 10);
    }
}

/// Two numbers with the same digits are the same number.
pub proof fn lemma_decimal_digits_injective(a: nat, b: nat)
    requires
        decimal_digits(a) == decimal_digits(b),
    ensures
        a == b,
{
    lemma_decimal_digits(a);
    lemma_decimal_digits(b);
}

/// The decimal digits of `value`, most significant first.
pub fn digits_of(value: u16) -> (digits: Vec<u8>)
    ensures
        digits@ == decimal_digits(value as nat),
    decreases value,
{
    if value < 10 {
        let mut digits: Vec<u8> = Vec::new();
        digits.push(value as u8);
        digits
    } else {
        let mut digits = digits_of(value / 10);
        digits.push((value % 10) as u8);
        digits
    }
}

} // verus!
