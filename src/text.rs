//! Building display text: decimal numerals and single characters.

use vstd::prelude::*;

verus! {

/// The character of a decimal digit.
pub open spec fn digit_char(d: nat) -> char
    recommends
        d < 10,
{
    ((48 + d) as u8) as char
}

/// The decimal numeral of `n`, without leading zeros.
pub open spec fn decimal(n: nat) -> Seq<char>
    decreases n,
{
    if n < 10 {
        seq![digit_char(n)]
    } else {
        decimal(n / 10).push(digit_char(n % 10))
    }
}

/// The decimal numeral of `n`, with a leading `-` when it is negative.
pub open spec fn signed_decimal(n: int) -> Seq<char> {
    if n < 0 {
        seq!['-'] + decimal((-n) as nat)
    } else {
        decimal(n as nat)
    }
}

/// The character whose code point is the byte's value.
pub open spec fn byte_char(b: u8) -> char {
    b as char
}

/// Relies on `String::push`: it appends the one character to the end.
#[verifier::external_body]
pub(crate) fn push_char(s: &mut String, c: char)
    ensures
        final(s)@ == old(s)@.push(c),
{
    s.push(c);
}

/// Appends the decimal numeral of `n`.
pub fn push_decimal(s: &mut String, n: u128)
    ensures
        final(s)@ == old(s)@ + decimal(n as nat),
    decreases n,
{
    if n >= 10 {
        push_decimal(s, n / 10);
    }
    let d = (n % 10) as u8;
    push_char(s, (48 + d) as char);
    assert(final(s)@ =~= old(s)@ + decimal(n as nat));
}

/// Appends the character whose code point is the byte's value.
pub fn push_byte_char(s: &mut String, b: u8)
    ensures
        final(s)@ == old(s)@.push(byte_char(b)),
{
    push_char(s, b as char);
}

/// `10^e`.
pub open spec fn pow10(e: nat) -> nat
    decreases e,
{
    if e == 0 {
        1
    } else {
        10 * pow10((e - 1) as nat)
    }
}

/// `10^e` is at least 1.
pub proof fn lemma_pow10_positive(e: nat)
    ensures
        pow10(e) >= 1,
    decreases e,
{
    if e > 0 {
        lemma_pow10_positive((e - 1) as nat);
    }
}

/// The last `width` decimal digits of `n`, zero-padded on the left.
pub open spec fn padded_digits(n: nat, width: nat) -> Seq<char> {
    Seq::new(width, |i: int| digit_char((n / pow10((width - 1 - i) as nat)) % 10))
}

/// Appends the last nine decimal digits of `n`, zero-padded on the left.
pub fn push_nine_digits(s: &mut String, n: u32)
    ensures
        final(s)@ == old(s)@ + padded_digits(n as nat, 9),
{
    let mut div: u32 = 100_000_000;
    let mut k: u32 = 0;
    assert(pow10(8) == 100_000_000) by {
        reveal_with_fuel(pow10, 9);
    }
    while k < 9
        invariant
            k <= 9,
            k < 9 ==> div == pow10((8 - k) as nat),
            div >= 1,
            s@ == old(s)@ + padded_digits(n as nat, 9).subrange(0, k as int),
        decreases 9 - k,
    {
        let d = ((n / div) % 10) as u8;
        push_char(s, (48 + d) as char);
        proof {
            assert(s@ =~= old(s)@ + padded_digits(n as nat, 9).subrange(0, k + 1));
        }
        if k < 8 {
            proof {
                assert(pow10((8 - k) as nat) == 10 * pow10((8 - k - 1) as nat));
                lemma_pow10_positive((8 - k - 1) as nat);
            }
            div = div / 10;
        }
        k = k + 1;
    }
    assert(padded_digits(n as nat, 9).subrange(0, 9) =~= padded_digits(n as nat, 9));
}

} // verus!
