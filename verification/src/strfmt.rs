//! Decimal rendering of unsigned integers and fixed-point values.
//!
//! Sample magnitudes and color channels are turned into label text here;
//! every executable function is pinned to a spec-level `Seq<char>`.

use vstd::prelude::*;

verus! {

/// The decimal digit character for `d` (`0 <= d <= 9`).
pub open spec fn spec_digit(d: int) -> char {
    if d == 0 {
        '0'
    } else if d == 1 {
        '1'
    } else if d == 2 {
        '2'
    } else if d == 3 {
        '3'
    } else if d == 4 {
        '4'
    } else if d == 5 {
        '5'
    } else if d == 6 {
        '6'
    } else if d == 7 {
        '7'
    } else if d == 8 {
        '8'
    } else {
        '9'
    }
}

/// Decimal rendering of a non-negative integer, most significant digit first.
pub open spec fn spec_dec(n: int) -> Seq<char>
    decreases n,
{
    if n < 10 {
        seq![spec_digit(n)]
    } else {
        spec_dec(n / 10).push(spec_digit(n % 10))
    }
}

fn digit_str(d: u64) -> (r: &'static str)
    requires
        d < 10,
    ensures
        r@ == seq![spec_digit(d as int)],
{
    proof {
        reveal_strlit("0");
        reveal_strlit("1");
        reveal_strlit("2");
        reveal_strlit("3");
        reveal_strlit("4");
        reveal_strlit("5");
        reveal_strlit("6");
        reveal_strlit("7");
        reveal_strlit("8");
        reveal_strlit("9");
    }
    let r = match d {
        0 => "0",
        1 => "1",
        2 => "2",
        3 => "3",
        4 => "4",
        5 => "5",
        6 => "6",
        7 => "7",
        8 => "8",
        _ => "9",
    };
    proof {
        assert(r@ =~= seq![spec_digit(d as int)]);
    }
    r
}

/// Renders `n` in decimal, e.g. `407` to `"407"`.
pub fn u64_to_string(n: u64) -> (r: String)
    ensures
        r@ == spec_dec(n as int),
    decreases n,
{
    if n < 10 {
        String::from_str(digit_str(n))
    } else {
        let mut s = u64_to_string(n / 10);
        s.append(digit_str(n % 10));
        proof {
            assert(s@ =~= spec_dec(n as int));
        }
        s
    }
}

/// `n / d` rounded to the nearest integer, ties to the even neighbour.
///
/// This is the rounding that decimal formatting of exactly representable
/// binary fractions applies, so labels agree with conventional output.
pub open spec fn spec_div_round_even(n: int, d: int) -> int {
    let q = n / d;
    let r = n % d;
    if 2 * r > d {
        q + 1
    } else if 2 * r < d {
        q
    } else if q % 2 == 0 {
        q
    } else {
        q + 1
    }
}

/// Divides with round-half-to-even.
pub fn div_round_even(n: u128, d: u128) -> (r: u128)
    requires
        1 <= d <= u64::MAX,
        n < u128::MAX,
    ensures
        r == spec_div_round_even(n as int, d as int),
{
    let q = n / d;
    let rem = n % d;
    proof {
        assert(q <= n) by (nonlinear_arith)
            requires
                d >= 1 && n >= 0 && q == n as int / d as int,
        ;
    }
    if 2 * rem > d {
        q + 1
    } else if 2 * rem < d {
        q
    } else if q % 2 == 0 {
        q
    } else {
        q + 1
    }
}

/// Two-digit zero-padded rendering of `f` (`0 <= f <= 99`).
pub open spec fn spec_pad2(f: int) -> Seq<char> {
    seq![spec_digit(f / 10), spec_digit(f % 10)]
}

/// A value scaled by 100, rendered with exactly two decimal places:
/// `488` becomes `"4.88"`.
pub open spec fn spec_fixed2(scaled: int) -> Seq<char> {
    spec_dec(scaled / 100) + "."@ + spec_pad2(scaled % 100)
}

/// A value scaled by 10, rendered with exactly one decimal place:
/// `123` becomes `"12.3"`.
pub open spec fn spec_fixed1(scaled: int) -> Seq<char> {
    spec_dec(scaled / 10) + "."@ + seq![spec_digit(scaled % 10)]
}

/// Renders `scaled / 100` with two decimal places.
pub fn fixed2_string(scaled: u64) -> (r: String)
    ensures
        r@ == spec_fixed2(scaled as int),
{
    let mut s = u64_to_string(scaled / 100);
    s.append(".");
    let f = scaled % 100;
    s.append(digit_str(f / 10));
    s.append(digit_str(f % 10));
    proof {
        assert(s@ =~= spec_fixed2(scaled as int));
    }
    s
}

/// Renders `scaled / 10` with one decimal place.
pub fn fixed1_string(scaled: u64) -> (r: String)
    ensures
        r@ == spec_fixed1(scaled as int),
{
    let mut s = u64_to_string(scaled / 10);
    s.append(".");
    s.append(digit_str(scaled % 10));
    proof {
        assert(s@ =~= spec_fixed1(scaled as int));
    }
    s
}

} // verus!
