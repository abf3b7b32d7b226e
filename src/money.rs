use vstd::prelude::*;

verus! {

/// The text of one decimal digit.
pub open spec fn digit_text(d: nat) -> Seq<char> {
    if d == 0 {
        "0"@
    } else if d == 1 {
        "1"@
    } else if d == 2 {
        "2"@
    } else if d == 3 {
        "3"@
    } else if d == 4 {
        "4"@
    } else if d == 5 {
        "5"@
    } else if d == 6 {
        "6"@
    } else if d == 7 {
        "7"@
    } else if d == 8 {
        "8"@
    } else {
        "9"@
    }
}

/// The decimal notation of `n`, without leading zeros ("0" for zero).
pub open spec fn decimal_text(n: nat) -> Seq<char>
    decreases n,
{
    if n < 10 {
        digit_text(n)
    } else {
        decimal_text(n / 10) + digit_text(n % 10)
    }
}

fn digit_str(d: u128) -> (r: &'static str)
    requires
        d < 10,
    ensures
        r@ == digit_text(d as nat),
{
    if d == 0 {
        "0"
    } else if d == 1 {
        "1"
    } else if d == 2 {
        "2"
    } else if d == 3 {
        "3"
    } else if d == 4 {
        "4"
    } else if d == 5 {
        "5"
    } else if d == 6 {
        "6"
    } else if d == 7 {
        "7"
    } else if d == 8 {
        "8"
    } else {
        "9"
    }
}

/// Appends the decimal notation of `n` to `s`.
pub fn push_decimal(s: &mut String, n: u128)
    ensures
        final(s)@ == old(s)@ + decimal_text(n as nat),
    decreases n,
{
    if n >= 10 {
        push_decimal(s, n / 10);
    }
    s.append(digit_str(n % 10));
    proof {
        assert(old(s)@ + decimal_text(n as nat) =~= s@);
    }
}

/// A non-negative amount of cents written in currency units with exactly two
/// decimal places ("127.50" for 12750).
pub open spec fn two_places_text(cents: nat) -> Seq<char> {
    decimal_text(cents / 100) + "."@ + digit_text((cents % 100) / 10) + digit_text(cents % 10)
}

/// A non-negative amount of billionths of the currency unit, rounded to the
/// nearest cent, halves rounded up.
pub open spec fn nanos_to_cents(nanos: nat) -> nat {
    (nanos + 5_000_000) / 10_000_000
}

/// Appends `cents` to `s` in currency units with two decimal places.
pub fn push_two_places(s: &mut String, cents: u128)
    ensures
        final(s)@ == old(s)@ + two_places_text(cents as nat),
{
    push_decimal(s, cents / 100);
    s.append(".");
    s.append(digit_str((cents % 100) / 10));
    s.append(digit_str(cents % 10));
    proof {
        assert(old(s)@ + two_places_text(cents as nat) =~= s@);
    }
}

/// Rounds a non-negative amount of billionths of the currency unit to cents,
/// halves rounded up.
pub fn round_to_cents(nanos: u128) -> (r: u128)
    requires
        nanos <= u128::MAX - 5_000_000,
    ensures
        r == nanos_to_cents(nanos as nat),
{
    (nanos + 5_000_000) / 10_000_000
}

} // verus!
