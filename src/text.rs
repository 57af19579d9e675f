use vstd::prelude::*;
use vstd::string::StringExecFns;

verus! {

/// The character of a decimal digit.
pub open spec fn digit_char(d: int) -> char {
    if d == 0 {
        '0'
    } else if d == 1 {
        '1'
    } else if d == 2 {
        '2'
    } else if d == 3 {
        '3'
    } else if d == 4 {
        '4'
    } else if d == 5 {
        '5'
    } else if d == 6 {
        '6'
    } else if d == 7 {
        '7'
    } else if d == 8 {
        '8'
    } else {
        '9'
    }
}

/// `n` in decimal, without leading zeros.
pub open spec fn decimal(n: nat) -> Seq<char>
    decreases n,
{
    if n < 10 {
        seq![digit_char(n as int)]
    } else {
        decimal(n / 10) + seq![digit_char((n % 10) as int)]
    }
}

/// `v` hundredths written with exactly two decimal places, `-` first when
/// negative: `-1234` reads `-12.34`.
pub open spec fn fixed2(v: int) -> Seq<char> {
    let m = if v < 0 { -v } else { v };
    let sign = if v < 0 { seq!['-'] } else { Seq::<char>::empty() };
    sign + decimal((m / 100) as nat) + seq!['.', digit_char((m / 10) % 10), digit_char(m % 10)]
}

/// `v` divided by 100, rounded to the nearest integer, halves away from zero.
pub open spec fn round_hundredth(v: int) -> int {
    if v >= 0 {
        (v + 50) / 100
    } else {
        -((-v + 50) / 100)
    }
}

pub(crate) fn push_digit(out: &mut String, d: u64)
    requires
        d < 10,
    ensures
        final(out)@ == old(out)@ + seq![digit_char(d as int)],
{
    proof {
        reveal_strlit("0");
        reveal_strlit("1");
        reveal_strlit("2");
        reveal_strlit("3");
        reveal_strlit("4");
        reveal_strlit("5");
        reveal_strlit("6");
        reveal_strlit("7");
        reveal_strlit("8");
        reveal_strlit("9");
    }
    let s = if d == 0 {
        "0"
    } else if d == 1 {
        "1"
    } else if d == 2 {
        "2"
    } else if d == 3 {
        "3"
    } else if d == 4 {
        "4"
    } else if d == 5 {
        "5"
    } else if d == 6 {
        "6"
    } else if d == 7 {
        "7"
    } else if d == 8 {
        "8"
    } else {
        "9"
    };
    assert(s@ =~= seq![digit_char(d as int)]);
    out.append(s);
}

pub(crate) fn push_decimal(out: &mut String, n: u64)
    ensures
        final(out)@ == old(out)@ + decimal(n as nat),
    decreases n,
{
    if n >= 10 {
        push_decimal(out, n / 10);
    }
    push_digit(out, n % 10);
    assert(final(out)@ =~= old(out)@ + decimal(n as nat));
}

/// Appends `v` hundredths with two decimal places.
pub(crate) fn push_fixed2(out: &mut String, v: i64)
    ensures
        final(out)@ == old(out)@ + fixed2(v as int),
{
    let m: u64 = if v < 0 {
        proof {
            reveal_strlit("-");
        }
        out.append("-");
        (-(v as i128)) as u64
    } else {
        v as u64
    };
    push_decimal(out, m / 100);
    proof {
        reveal_strlit(".");
    }
    out.append(".");
    push_digit(out, (m / 10) % 10);
    push_digit(out, m % 10);
    assert(final(out)@ =~= old(out)@ + fixed2(v as int));
}

} // verus!
