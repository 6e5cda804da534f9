//! Decimal notation of unsigned integers.

use vstd::prelude::*;
use vstd::string::*;

verus! {

/// The character that writes the digit `d`, for `d` below ten.
pub open spec fn digit_char(d: nat) -> char {
    if d == 0 {
        '0'
    } else if d == 1 {
        '1'
    } else if d == 2 {
        '2'
    } else if d == 3 {
        '3'
    } else if d == 4 {
        '4'
    } else if d == 5 {
        '5'
    } else if d == 6 {
        '6'
    } else if d == 7 {
        '7'
    } else if d == 8 {
        '8'
    } else {
        '9'
    }
}

/// The decimal notation of `n`: most significant digit first, without a
/// leading zero, and `0` for zero.
pub open spec fn decimal(n: nat) -> Seq<char>
    decreases n,
{
    if n < 10 {
        seq![digit_char(n)]
    } else {
        decimal(n / 10).push(digit_char(n % 10))
    }
}

/// Whether `c` is one of the ten decimal digits.
pub open spec fn is_digit(c: char) -> bool {
    exists|d: nat| d < 10 && c == digit_char(d)
}

/// The decimal notation is never empty, consists of digits only, and starts
/// with `0` for zero alone.
pub proof fn decimal_is_canonical(n: nat)
    ensures
        decimal(n).len() >= 1,
        forall|i: int| 0 <= i < decimal(n).len() ==> is_digit(#[trigger] decimal(n)[i]),
        decimal(n)[0] == '0' <==> n == 0,
    decreases n,
{
    if n >= 10 {
        decimal_is_canonical(n / 10);
    }
}

/// Different numbers are written differently.
pub proof fn decimal_is_injective(first: nat, second: nat)
    requires
        decimal(first) == decimal(second),
    ensures
        first == second,
    decreases first,
{
    decimal_is_canonical(first);
    decimal_is_canonical(second);
    if first >= 10 && second >= 10 {
        let head = decimal(first / 10);
        let other = decimal(second / 10);
        assert(head == decimal(first).drop_last());
        assert(other == decimal(second).drop_last());
        assert(digit_char(first % 10) == decimal(first).last());
        assert(digit_char(second % 10) == decimal(second).last());
        decimal_is_injective(first / 10, second / 10);
    } else if first >= 10 {
        decimal_is_canonical(first / 10);
    } else if second >= 10 {
        decimal_is_canonical(second / 10);
    }
}

fn digit_str(d: u64) -> (s: &'static str)
    requires
        d < 10,
    ensures
        s@ == seq![digit_char(d as nat)],
{
    proof {
        reveal_strlit("0");
        reveal_strlit("1");
        reveal_strlit("2");
        reveal_strlit("3");
        reveal_strlit("4");
        reveal_strlit("5");
        reveal_strlit("6");
        reveal_strlit("7");
        reveal_strlit("8");
        reveal_strlit("9");
    }
    match d {
        0 => "0",
        1 => "1",
        2 => "2",
        3 => "3",
        4 => "4",
        5 => "5",
        6 => "6",
        7 => "7",
        8 => "8",
        _ => "9",
    }
}

/// Appends the decimal notation of `n` to `out`.
pub fn push_decimal(out: &mut String, n: u64)
    ensures
        final(out)@ == old(out)@ + decimal(n as nat),
    decreases n,
{
    if n >= 10 {
        push_decimal(out, n / 10);
    }
    out.append(digit_str(n % 10));
}

} // verus!
