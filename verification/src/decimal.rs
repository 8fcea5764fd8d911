//! Numbers as decimal digits on the wire.

use vstd::prelude::*;

verus! {

/// The ASCII digit for `d`, which is below ten.
pub open spec fn digit_byte(d: nat) -> u8 {
    (48 + d) as u8
}

/// Whether `b` is an ASCII digit.
pub open spec fn is_digit_byte(b: u8) -> bool {
    48 <= b <= 57
}

/// Whether every byte of `s` is an ASCII digit.
pub open spec fn all_digit_bytes(s: Seq<u8>) -> bool {
    forall|i: int| 0 <= i < s.len() ==> is_digit_byte(#[trigger] s[i])
}

/// The decimal digits of `n`, most significant first, without leading zeros.
pub open spec fn decimal_digits(n: nat) -> Seq<u8>
    decreases n,
{
    if n < 10 {
        seq![digit_byte(n)]
    } else {
        decimal_digits(n / 10).push(digit_byte(n % 10))
    }
}

/// The number that the digits `s` spell; zero for no digits.
pub open spec fn number_of(s: Seq<u8>) -> nat
    decreases s.len(),
{
    if s.len() == 0 {
        0
    } else {
        (number_of(s.drop_last()) * 10 + (s.last() - 48)) as nat
    }
}

/// The digits of a number are digits, and there is at least one.
pub proof fn lemma_decimal_digits_are_digits(n: nat)
    ensures
        decimal_digits(n).len() >= 1,
        all_digit_bytes(decimal_digits(n)),
    decreases n,
{
    if n >= 10 {
        lemma_decimal_digits_are_digits(n / 10);
    }
}

/// Reading the digits of a number gives the number back.
pub proof fn lemma_number_of_decimal_digits(n: nat)
    ensures
        number_of(decimal_digits(n)) == n,
    decreases n,
{
    if n < 10 {
        assert(decimal_digits(n).drop_last() =~= Seq::<u8>::empty());
        assert(number_of(decimal_digits(n).drop_last()) == 0);
    } else {
        lemma_number_of_decimal_digits(n / 10);
        assert(decimal_digits(n).drop_last() =~= decimal_digits(n / 10));
    }
}

/// A number from 100 to 999 has exactly three digits.
pub proof fn lemma_three_digits(n: nat)
    requires
        100 <= n < 1000,
    ensures
        decimal_digits(n).len() == 3,
{
    reveal_with_fuel(decimal_digits, 3);
}

/// Writes `n` in decimal.
pub fn decimal(n: usize) -> (r: Vec<u8>)
    ensures
        r@ == decimal_digits(n as nat),
{
    let mut rest: usize = n;
    let mut digits: Vec<u8> = Vec::new();
    while rest >= 10
        invariant
            decimal_digits(n as nat) == decimal_digits(rest as nat) + digits@,
        decreases rest,
    {
        let d: u8 = (rest % 10) as u8;
        digits.insert(0, 48 + d);
        proof {
            let before = rest as nat;
            assert(decimal_digits(before) == decimal_digits(before / 10).push(digit_byte(before % 10)));
            assert(decimal_digits(before / 10).push(digit_byte(before % 10)) + digits@.subrange(1, digits@.len() as int)
                =~= decimal_digits(before / 10) + digits@);
        }
        rest = rest / 10;
    }
    let d: u8 = rest as u8;
    digits.insert(0, 48 + d);
    proof {
        assert(decimal_digits(rest as nat) + digits@.subrange(1, digits@.len() as int) =~= digits@);
    }
    digits
}

} // verus!
