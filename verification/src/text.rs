//! Building strings: characters, string slices, and numbers in decimal.

use vstd::prelude::*;

use crate::decimal::pow10;

verus! {

/// `String::push`: appends `c` at the end of `s` (std documents exactly this).
#[verifier::external_body]
pub(crate) fn push_char(s: &mut String, c: char)
    ensures
        final(s)@ == old(s)@.push(c),
{
    s.push(c);
}

/// `String::push_str`: appends `t` at the end of `s` (std documents exactly this).
#[verifier::external_body]
pub(crate) fn push_str(s: &mut String, t: &str)
    ensures
        final(s)@ == old(s)@ + t@,
{
    s.push_str(t);
}

/// The decimal digit of `d` (below 10).
pub open spec fn digit_char(d: int) -> char {
    (48 + d) as char
}

/// `n` in decimal, without leading zeros (`0` for zero).
pub open spec fn decimal(n: nat) -> Seq<char>
    decreases n,
{
    if n < 10 {
        seq![digit_char(n as int)]
    } else {
        decimal(n / 10) + seq![digit_char((n % 10) as int)]
    }
}

/// `n` in decimal, with a minus sign when negative.
pub open spec fn signed_decimal(n: int) -> Seq<char> {
    if n < 0 {
        seq!['-'] + decimal((-n) as nat)
    } else {
        decimal(n as nat)
    }
}

/// The eight decimal digits of `f` (below `10^8`), with leading zeros.
pub open spec fn eight_digits(f: nat) -> Seq<char> {
    Seq::new(8, |k: int| digit_char(((f / pow10((7 - k) as nat)) % 10) as int))
}

/// A fixed-point amount of `raw / 10^8`: sign, whole part, a point, and eight
/// fractional digits.
pub open spec fn fixed8(raw: int) -> Seq<char> {
    let m = if raw < 0 { -raw } else { raw };
    (if raw < 0 { seq!['-'] } else { Seq::empty() }) + decimal((m / 100_000_000) as nat) + seq!['.']
        + eight_digits((m % 100_000_000) as nat)
}

/// Appends `n` in decimal.
pub fn push_decimal(s: &mut String, n: u128)
    ensures
        final(s)@ == old(s)@ + decimal(n as nat),
    decreases n,
{
    if n >= 10 {
        push_decimal(s, n / 10);
    }
    push_char(s, ((n % 10) as u8 + 48) as char);
    assert(final(s)@ =~= old(s)@ + decimal(n as nat));
}

/// Appends `n` in decimal, with a minus sign when negative.
pub fn push_signed(s: &mut String, n: i64)
    ensures
        final(s)@ == old(s)@ + signed_decimal(n as int),
{
    if n < 0 {
        push_char(s, '-');
        push_decimal(s, (-(n as i128)) as u128);
        assert(final(s)@ =~= old(s)@ + signed_decimal(n as int));
    } else {
        push_decimal(s, n as u128);
    }
}

/// Appends `raw / 10^8` as a fixed-point number with eight decimals.
pub fn push_fixed8(s: &mut String, raw: i64)
    ensures
        final(s)@ == old(s)@ + fixed8(raw as int),
{
    let m: u128 = if raw < 0 {
        push_char(s, '-');
        (-(raw as i128)) as u128
    } else {
        raw as u128
    };
    push_decimal(s, m / 100_000_000);
    push_char(s, '.');
    let frac = m % 100_000_000;
    let ghost base = s@;
    let ghost digits = eight_digits(frac as nat);
    let mut divisor: u128 = 10_000_000;
    let mut k: usize = 0;
    proof {
        reveal_with_fuel(pow10, 8);
        assert(digits.take(0) =~= Seq::<char>::empty());
    }
    while k < 8
        invariant
            k <= 8,
            divisor == pow10((7 - k) as nat) || k == 8,
            1 <= divisor <= 10_000_000,
            frac < 100_000_000,
            digits == eight_digits(frac as nat),
            s@ == base + digits.take(k as int),
        decreases 8 - k,
    {
        proof {
            reveal_with_fuel(pow10, 8);
        }
        let d = (frac / divisor) % 10;
        push_char(s, (d as u8 + 48) as char);
        assert(digits.take(k + 1) =~= digits.take(k as int).push(digits[k as int]));
        if divisor > 1 {
            divisor = divisor / 10;
        }
        k = k + 1;
    }
    assert(digits.take(8) =~= digits);
    assert(final(s)@ =~= old(s)@ + fixed8(raw as int));
}

} // verus!
