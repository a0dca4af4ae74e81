//! Decimal ASCII text of a length, as a `Content-Length` header carries it.

use vstd::prelude::*;

verus! {

/// The decimal digits of `n` as ASCII bytes, most significant first, without
/// leading zeros (`0` itself is the single digit `"0"`).
pub open spec fn decimal(n: nat) -> Seq<u8>
    decreases n,
{
    if n < 10 {
        seq![(48 + n) as u8]
    } else {
        decimal(n / 10).push((48 + n % 10) as u8)
    }
}

/// Every byte of a decimal text is one of the ASCII digits `'0'..='9'`.
pub proof fn lemma_decimal_is_digits(n: nat)
    ensures
        decimal(n).len() >= 1,
        forall|i: int| 0 <= i < decimal(n).len() ==> 48 <= #[trigger] decimal(n)[i] <= 57,
    decreases n,
{
    if n >= 10 {
        lemma_decimal_is_digits(n / 10);
    }
}

/// A decimal text has no leading zero, except the text of zero itself.
pub proof fn lemma_decimal_leading_digit(n: nat)
    ensures
        decimal(n)[0] == 48 <==> n == 0,
    decreases n,
{
    if n >= 10 {
        lemma_decimal_is_digits(n / 10);
        lemma_decimal_leading_digit(n / 10);
    }
}

/// The numeric value that a sequence of ASCII digits denotes.
pub open spec fn digits_value(digits: Seq<u8>) -> nat
    decreases digits.len(),
{
    if digits.len() == 0 {
        0
    } else {
        (10 * digits_value(digits.drop_last()) + (digits.last() - 48)) as nat
    }
}

/// Reading a decimal text back gives the number it was written from, so two
/// different lengths never share a text.
pub proof fn lemma_decimal_round_trip(n: nat)
    ensures
        digits_value(decimal(n)) == n,
    decreases n,
{
    if n < 10 {
        let d = decimal(n);
        assert(d.drop_last() =~= Seq::<u8>::empty());
        assert(digits_value(d.drop_last()) == 0);
    } else {
        lemma_decimal_round_trip(n / 10);
        let d = decimal(n);
        assert(d.drop_last() =~= decimal(n / 10));
    }
}

/// Writes `n` in decimal ASCII.
pub fn decimal_digits(n: usize) -> (text: Vec<u8>)
    ensures
        text@ == decimal(n as nat),
    decreases n,
{
    if n < 10 {
        let digit: u8 = 48 + n as u8;
        let mut text: Vec<u8> = Vec::new();
        text.push(digit);
        assert(text@ =~= decimal(n as nat));
        text
    } else {
        let mut text = decimal_digits(n / 10);
        let digit: u8 = 48 + (n % 10) as u8;
        text.push(digit);
        text
    }
}

} // verus!
